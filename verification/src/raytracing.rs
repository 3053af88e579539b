use vstd::prelude::*;

verus! {

/// The mask every instance of the scene is traced with.
pub const INSTANCE_MASK: u8 = 0xff;

/// The instance flag that disables back face culling.
pub const GEOMETRY_INSTANCE_TRIANGLE_FACING_CULL_DISABLE: u8 = 1;

/// A 24 bit value in the low bits and an 8 bit value in the high bits, as
/// the acceleration structure instance packs them.
pub open spec fn spec_packed_24_8(low_24: u32, high_8: u8) -> u32 {
    ((low_24 & 0x00ff_ffffu32) | ((high_8 as u32) << 24u32)) as u32
}

/// Packs `low_24` (its low 24 bits) under `high_8`.
pub fn packed_24_8(low_24: u32, high_8: u8) -> (r: u32)
    ensures
        r == spec_packed_24_8(low_24, high_8),
        r & 0x00ff_ffffu32 == low_24 & 0x00ff_ffffu32,
        r >> 24u32 == high_8 as u32,
{
    let high: u32 = high_8 as u32;
    let r = (low_24 & 0x00ff_ffffu32) | (high << 24u32);
    assert(r & 0x00ff_ffffu32 == low_24 & 0x00ff_ffffu32 && r >> 24u32 == high) by (bit_vector)
        requires
            r == (low_24 & 0x00ff_ffffu32) | (high << 24u32),
            high < 256,
    ;
    r
}

/// One instance of the top level acceleration structure: the mesh it
/// places, the bottom level structure it refers to, and its packed fields.
#[derive(Clone, Copy, Debug, PartialEq, Eq, Structural)]
pub struct InstanceRecord {
    /// The model instance and the mesh within its model.
    pub instance: usize,
    pub mesh: usize,
    /// The bottom level structure: one per mesh, in the same order.
    pub blas_index: usize,
    /// The mesh's index in the GPU mesh table, under the instance mask.
    pub custom_index_and_mask: u32,
    /// Shader binding table offset 0, under the instance flags.
    pub sbt_offset_and_flags: u32,
}

/// The record of mesh `j` of instance `i` when `before` meshes precede it.
pub open spec fn instance_record(i: int, j: int, before: int, gpu_mesh: u32) -> InstanceRecord {
    InstanceRecord {
        instance: i as usize,
        mesh: j as usize,
        blas_index: before as usize,
        custom_index_and_mask: spec_packed_24_8(gpu_mesh, INSTANCE_MASK),
        sbt_offset_and_flags: spec_packed_24_8(0, GEOMETRY_INSTANCE_TRIANGLE_FACING_CULL_DISABLE),
    }
}

/// The records of the meshes of `instances` (each given by the GPU mesh
/// indices of its meshes), instance by instance and mesh by mesh.
pub open spec fn instance_records_of(instances: Seq<Seq<u32>>) -> Seq<InstanceRecord>
    decreases instances.len(),
{
    if instances.len() == 0 {
        Seq::empty()
    } else {
        let prefix = instance_records_of(instances.drop_last());
        let i = instances.len() - 1;
        let before = prefix.len() as int;
        prefix + Seq::new(
            instances.last().len(),
            |j: int| instance_record(i, j, before + j, instances.last()[j]),
        )
    }
}

/// The number of meshes over all instances.
pub open spec fn total_meshes(instances: Seq<Seq<u32>>) -> nat
    decreases instances.len(),
{
    if instances.len() == 0 {
        0
    } else {
        total_meshes(instances.drop_last()) + instances.last().len()
    }
}

pub proof fn lemma_records_len(instances: Seq<Seq<u32>>)
    ensures
        instance_records_of(instances).len() == total_meshes(instances),
    decreases instances.len(),
{
    if instances.len() > 0 {
        lemma_records_len(instances.drop_last());
    }
}

/// Every record refers to the bottom level structure at its own position.
pub proof fn lemma_blas_index_is_position(instances: Seq<Seq<u32>>, k: int)
    requires
        0 <= k < instance_records_of(instances).len(),
        total_meshes(instances) <= usize::MAX,
    ensures
        instance_records_of(instances)[k].blas_index == k,
    decreases instances.len(),
{
    if instances.len() > 0 {
        let prefix = instance_records_of(instances.drop_last());
        lemma_records_len(instances.drop_last());
        lemma_records_len(instances);
        if k < prefix.len() {
            lemma_blas_index_is_position(instances.drop_last(), k);
        }
    }
}

/// The acceleration structure instances of the scene: for each model
/// instance, for each mesh of its model, a record that refers to the next
/// bottom level structure and carries the mesh's GPU index.
pub fn instance_records(instances: &Vec<Vec<u32>>) -> (r: Vec<InstanceRecord>)
    requires
        total_meshes(instances@.map_values(|m: Vec<u32>| m@)) <= usize::MAX,
    ensures
        r@ == instance_records_of(instances@.map_values(|m: Vec<u32>| m@)),
{
    let ghost all = instances@.map_values(|m: Vec<u32>| m@);
    let flags = packed_24_8(0, GEOMETRY_INSTANCE_TRIANGLE_FACING_CULL_DISABLE);
    let mut records: Vec<InstanceRecord> = Vec::new();
    let mut i: usize = 0;
    while i < instances.len()
        invariant
            i <= instances@.len(),
            all == instances@.map_values(|m: Vec<u32>| m@),
            total_meshes(all) <= usize::MAX,
            records@ == instance_records_of(all.take(i as int)),
            flags == spec_packed_24_8(0, GEOMETRY_INSTANCE_TRIANGLE_FACING_CULL_DISABLE),
        decreases instances@.len() - i,
    {
        let meshes = &instances[i];
        let ghost prefix = records@;
        let ghost taken = all.take(i as int + 1);
        proof {
            assert(taken.drop_last() =~= all.take(i as int));
            assert(taken.last() == meshes@);
            lemma_records_len(all.take(i as int));
            lemma_total_prefix(all, i as int + 1);
            lemma_records_len(taken);
        }
        let mut j: usize = 0;
        while j < meshes.len()
            invariant
                i < instances@.len(),
                j <= meshes@.len(),
                meshes@ == all[i as int],
                taken == all.take(i as int + 1),
                taken.drop_last() == all.take(i as int),
                taken.last() == meshes@,
                prefix == instance_records_of(all.take(i as int)),
                prefix.len() + meshes@.len() == total_meshes(taken),
                total_meshes(taken) <= usize::MAX,
                records@ == prefix + Seq::new(
                    j as nat,
                    |jj: int| instance_record(i as int, jj, prefix.len() + jj, meshes@[jj]),
                ),
                flags == spec_packed_24_8(0, GEOMETRY_INSTANCE_TRIANGLE_FACING_CULL_DISABLE),
            decreases meshes@.len() - j,
        {
            let blas_index = records.len();
            let record = InstanceRecord {
                instance: i,
                mesh: j,
                blas_index,
                custom_index_and_mask: packed_24_8(meshes[j], INSTANCE_MASK),
                sbt_offset_and_flags: flags,
            };
            records.push(record);
            j = j + 1;
            assert(records@ =~= prefix + Seq::new(
                j as nat,
                |jj: int| instance_record(i as int, jj, prefix.len() + jj, meshes@[jj]),
            ));
        }
        i = i + 1;
        assert(records@ =~= instance_records_of(all.take(i as int)));
    }
    assert(all.take(instances@.len() as int) =~= all);
    records
}

/// The total over a prefix is at most the total.
pub proof fn lemma_total_prefix(all: Seq<Seq<u32>>, n: int)
    requires
        0 <= n <= all.len(),
    ensures
        total_meshes(all.take(n)) <= total_meshes(all),
    decreases all.len() - n,
{
    if n < all.len() {
        lemma_total_prefix(all, n + 1);
        assert(all.take(n + 1).drop_last() =~= all.take(n));
    } else {
        assert(all.take(n) =~= all);
    }
}

} // verus!
