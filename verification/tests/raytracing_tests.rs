use utopian::raytracing::{instance_records, packed_24_8, InstanceRecord};

#[test]
fn packing_keeps_low_24_bits_under_high_byte() {
    assert_eq!(packed_24_8(5, 0xff), 0xff00_0005);
    assert_eq!(packed_24_8(0x1234_5678, 0x01), 0x0134_5678);
    assert_eq!(packed_24_8(0, 1), 0x0100_0000);
    assert_eq!(packed_24_8(0x00ff_ffff, 0), 0x00ff_ffff);
}

#[test]
fn records_follow_instances_and_meshes() {
    let instances = vec![vec![3, 4], vec![], vec![7]];
    let records = instance_records(&instances);
    assert_eq!(
        records,
        vec![
            InstanceRecord {
                instance: 0,
                mesh: 0,
                blas_index: 0,
                custom_index_and_mask: 0xff00_0003,
                sbt_offset_and_flags: 0x0100_0000,
            },
            InstanceRecord {
                instance: 0,
                mesh: 1,
                blas_index: 1,
                custom_index_and_mask: 0xff00_0004,
                sbt_offset_and_flags: 0x0100_0000,
            },
            InstanceRecord {
                instance: 2,
                mesh: 0,
                blas_index: 2,
                custom_index_and_mask: 0xff00_0007,
                sbt_offset_and_flags: 0x0100_0000,
            },
        ]
    );
}

#[test]
fn no_instances_no_records() {
    assert!(instance_records(&vec![]).is_empty());
}
