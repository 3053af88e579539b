use utopian::descriptor_set::{DescriptorIdentifier, DescriptorSet};
use utopian::shader::{
    descriptor_kind, ends_with, layout_plan, shader_kind, Binding, BindingCount,
    DescriptorInfo, DescriptorKind, DescriptorSetReflection, LayoutBinding, PushConstantInfo,
    Reflection, ReflectionError, SetBinding, SetLayoutSource, ShaderKind, StageReflection,
    DESCRIPTOR_TYPE_COMBINED_IMAGE_SAMPLER, DESCRIPTOR_TYPE_SAMPLER, DESCRIPTOR_TYPE_STORAGE_BUFFER,
    DESCRIPTOR_TYPE_UNIFORM_BUFFER,
};

// ---------------------------------------------------------------------------
// Hand-assembled SPIR-V modules
// ---------------------------------------------------------------------------

fn op(opcode: u32, operands: &[u32]) -> Vec<u32> {
    let mut v = vec![((operands.len() as u32 + 1) << 16) | opcode];
    v.extend_from_slice(operands);
    v
}

fn string_words(s: &str) -> Vec<u32> {
    let mut bytes: Vec<u8> = s.as_bytes().to_vec();
    bytes.push(0);
    while bytes.len() % 4 != 0 {
        bytes.push(0);
    }
    bytes
        .chunks(4)
        .map(|c| u32::from_le_bytes([c[0], c[1], c[2], c[3]]))
        .collect()
}

fn to_bytes(words: &[u32]) -> Vec<u8> {
    words.iter().flat_map(|w| w.to_le_bytes()).collect()
}

/// A module with a uniform block named `name` at `set`/`binding`, and, if
/// asked, a push constant block of one float.
fn module_with_uniform(name: &str, set: u32, binding: u32, push_constant: bool) -> Vec<u8> {
    // ids: 1 float, 2 block struct, 3 pointer, 4 variable, 5 pc struct,
    // 6 pc pointer, 7 pc variable
    let mut w: Vec<u32> = vec![0x0723_0203, 0x0001_0000, 0, 8, 0];
    w.extend(op(17, &[1])); // OpCapability Shader
    w.extend(op(14, &[0, 1])); // OpMemoryModel Logical GLSL450
    let mut name_op = vec![4];
    name_op.extend(string_words(name));
    w.extend(op(5, &name_op)); // OpName %4 name
    w.extend(op(71, &[4, 34, set])); // OpDecorate %4 DescriptorSet set
    w.extend(op(71, &[4, 33, binding])); // OpDecorate %4 Binding binding
    w.extend(op(71, &[2, 2])); // OpDecorate %2 Block
    if push_constant {
        w.extend(op(71, &[5, 2])); // OpDecorate %5 Block
    }
    w.extend(op(22, &[1, 32])); // %1 = OpTypeFloat 32
    w.extend(op(30, &[2, 1])); // %2 = OpTypeStruct %1
    w.extend(op(32, &[3, 2, 2])); // %3 = OpTypePointer Uniform %2
    w.extend(op(59, &[3, 4, 2])); // %4 = OpVariable %3 Uniform
    if push_constant {
        w.extend(op(30, &[5, 1])); // %5 = OpTypeStruct %1
        w.extend(op(32, &[6, 9, 5])); // %6 = OpTypePointer PushConstant %5
        w.extend(op(59, &[6, 7, 9])); // %7 = OpVariable %6 PushConstant
    }
    to_bytes(&w)
}

/// What rspirv-reflect reads from a module, as the library takes it.
fn reflect(code: &[u8]) -> StageReflection {
    let module = rspirv_reflect::Reflection::new_from_spirv(code).expect("a SPIR-V module");
    let descriptor_sets = module
        .get_descriptor_sets()
        .expect("readable sets")
        .into_iter()
        .map(|(set, bindings)| DescriptorSetReflection {
            set,
            bindings: bindings
                .into_iter()
                .map(|(binding, d)| SetBinding {
                    binding,
                    info: DescriptorInfo {
                        ty: d.ty.0,
                        binding_count: match d.binding_count {
                            rspirv_reflect::BindingCount::One => BindingCount::One,
                            rspirv_reflect::BindingCount::StaticSized(n) => BindingCount::StaticSized(n),
                            rspirv_reflect::BindingCount::Unbounded => BindingCount::Unbounded,
                        },
                        name: d.name,
                    },
                })
                .collect(),
        })
        .collect();
    let push_constant = module
        .get_push_constant_range()
        .expect("a readable push constant block")
        .map(|p| PushConstantInfo { offset: p.offset, size: p.size });
    let stage = StageReflection { descriptor_sets, push_constant };
    assert!(stage.is_sorted());
    stage
}

#[test]
fn reflects_a_uniform_block_and_a_push_constant() {
    let code = module_with_uniform("ubo", 0, 1, true);
    let stages = vec![reflect(&code)];
    let reflection = Reflection::new(&stages).expect("the module reflects");
    assert_eq!(reflection.descriptor_set_reflections.len(), 1);
    let set = &reflection.descriptor_set_reflections[0];
    assert_eq!(set.set, 0);
    assert_eq!(set.bindings.len(), 1);
    assert_eq!(set.bindings[0].binding, 1);
    assert_eq!(set.bindings[0].info.ty, DESCRIPTOR_TYPE_UNIFORM_BUFFER);
    assert_eq!(set.bindings[0].info.name, "ubo");
    assert_eq!(reflection.push_constant_reflections, vec![PushConstantInfo { offset: 0, size: 4 }]);
    let binding = reflection.get_binding("ubo");
    assert_eq!((binding.set, binding.binding), (0, 1));
}

#[test]
fn stages_must_agree_on_shared_bindings() {
    let vertex = module_with_uniform("ubo", 0, 1, false);
    let fragment = module_with_uniform("other", 0, 1, false);
    let stages = vec![reflect(&vertex), reflect(&fragment)];
    match Reflection::new(&stages) {
        Err(ReflectionError::Inconsistent { set, binding }) => assert_eq!((set, binding), (0, 1)),
        _ => panic!("the stages disagree on set 0 binding 1"),
    }
}

#[test]
fn stages_with_different_bindings_are_merged() {
    let vertex = module_with_uniform("camera", 1, 0, true);
    let fragment = module_with_uniform("material", 0, 2, true);
    let stages = vec![reflect(&vertex), reflect(&fragment)];
    let reflection = Reflection::new(&stages).expect("the stages agree");
    let sets: Vec<u32> = reflection.descriptor_set_reflections.iter().map(|s| s.set).collect();
    assert_eq!(sets, vec![0, 1]);
    assert_eq!(reflection.push_constant_reflections.len(), 2);
    assert_eq!(reflection.binding_mappings.len(), 2);
    assert_eq!(reflection.get_binding("camera").set, 1);
    assert_eq!(reflection.get_binding("material").binding, 2);
}

// ---------------------------------------------------------------------------
// Merging reflected stages
// ---------------------------------------------------------------------------

fn info(ty: u32, name: &str) -> DescriptorInfo {
    DescriptorInfo { ty, binding_count: BindingCount::One, name: name.to_string() }
}

fn set(set: u32, bindings: Vec<(u32, u32, &str)>) -> DescriptorSetReflection {
    DescriptorSetReflection {
        set,
        bindings: bindings
            .into_iter()
            .map(|(binding, ty, name)| SetBinding { binding, info: info(ty, name) })
            .collect(),
    }
}

#[test]
fn the_first_stage_gives_a_shared_binding() {
    let first = StageReflection {
        descriptor_sets: vec![set(0, vec![(0, DESCRIPTOR_TYPE_UNIFORM_BUFFER, "view")])],
        push_constant: None,
    };
    let mut second_info = set(0, vec![(0, DESCRIPTOR_TYPE_UNIFORM_BUFFER, "view"), (3, DESCRIPTOR_TYPE_STORAGE_BUFFER, "lights")]);
    second_info.bindings[0].info.binding_count = BindingCount::StaticSized(2);
    let second = StageReflection {
        descriptor_sets: vec![second_info, set(2, vec![(1, DESCRIPTOR_TYPE_COMBINED_IMAGE_SAMPLER, "albedo")])],
        push_constant: Some(PushConstantInfo { offset: 0, size: 64 }),
    };
    let reflection = Reflection::new(&vec![first, second]).expect("consistent");
    let sets = &reflection.descriptor_set_reflections;
    assert_eq!(sets.len(), 2);
    assert_eq!(sets[0].set, 0);
    let bindings: Vec<u32> = sets[0].bindings.iter().map(|b| b.binding).collect();
    assert_eq!(bindings, vec![0, 3]);
    // kept from the first stage
    assert_eq!(sets[0].bindings[0].info.binding_count, BindingCount::One);
    assert_eq!(sets[1].set, 2);
    assert_eq!(reflection.push_constant_reflections, vec![PushConstantInfo { offset: 0, size: 64 }]);
    assert_eq!(reflection.binding_mappings.len(), 3);
}

#[test]
fn a_different_type_is_a_conflict() {
    let first = StageReflection {
        descriptor_sets: vec![set(1, vec![(4, DESCRIPTOR_TYPE_UNIFORM_BUFFER, "data")])],
        push_constant: None,
    };
    let second = StageReflection {
        descriptor_sets: vec![set(1, vec![(4, DESCRIPTOR_TYPE_STORAGE_BUFFER, "data")])],
        push_constant: None,
    };
    match Reflection::new(&vec![first, second]) {
        Err(ReflectionError::Inconsistent { set, binding }) => assert_eq!((set, binding), (1, 4)),
        _ => panic!("type mismatch"),
    }
}

#[test]
fn the_last_binding_of_a_name_is_the_one_kept_by_name() {
    let stage = StageReflection {
        descriptor_sets: vec![
            set(0, vec![(0, DESCRIPTOR_TYPE_UNIFORM_BUFFER, "shared"), (1, DESCRIPTOR_TYPE_UNIFORM_BUFFER, "shared")]),
            set(3, vec![(2, DESCRIPTOR_TYPE_STORAGE_BUFFER, "shared"), (5, DESCRIPTOR_TYPE_STORAGE_BUFFER, "other")]),
        ],
        push_constant: None,
    };
    let reflection = Reflection::new(&vec![stage]).expect("one stage");
    assert_eq!(reflection.binding_mappings.len(), 2);
    let shared = reflection.get_binding("shared");
    assert_eq!((shared.set, shared.binding), (3, 2));
    let set3 = reflection.get_set_mappings(3);
    let mut names: Vec<String> = set3.iter().map(|b| b.info.name.clone()).collect();
    names.sort();
    assert_eq!(names, vec!["other".to_string(), "shared".to_string()]);
    assert!(reflection.get_set_mappings(0).is_empty());
}

#[test]
fn layouts_follow_the_sets_and_bindless_replaces_the_first() {
    let stage = StageReflection {
        descriptor_sets: vec![
            set(0, vec![(0, DESCRIPTOR_TYPE_STORAGE_BUFFER, "meshes")]),
            set(1, vec![(0, DESCRIPTOR_TYPE_UNIFORM_BUFFER, "view"), (1, DESCRIPTOR_TYPE_COMBINED_IMAGE_SAMPLER, "tex")]),
        ],
        push_constant: Some(PushConstantInfo { offset: 0, size: 80 }),
    };
    let reflection = Reflection::new(&vec![stage]).expect("one stage");
    let plan = layout_plan(&reflection, true);
    assert_eq!(plan.set_layouts.len(), 2);
    assert!(matches!(plan.set_layouts[0], SetLayoutSource::Bindless));
    match &plan.set_layouts[1] {
        SetLayoutSource::Bindings(b) => assert_eq!(
            b,
            &vec![
                LayoutBinding { binding: 0, kind: DescriptorKind::UniformBuffer },
                LayoutBinding { binding: 1, kind: DescriptorKind::CombinedImageSampler },
            ]
        ),
        SetLayoutSource::Bindless => panic!("only the first set is bindless"),
    }
    assert_eq!(plan.push_constant, Some(PushConstantInfo { offset: 0, size: 80 }));
    let plain = layout_plan(&reflection, false);
    assert!(matches!(plain.set_layouts[0], SetLayoutSource::Bindings(_)));
}

#[test]
fn descriptor_kinds() {
    assert_eq!(descriptor_kind(DESCRIPTOR_TYPE_UNIFORM_BUFFER), Some(DescriptorKind::UniformBuffer));
    assert_eq!(descriptor_kind(1000150000), Some(DescriptorKind::AccelerationStructure));
    assert_eq!(descriptor_kind(DESCRIPTOR_TYPE_SAMPLER), None);
}

#[test]
fn shader_kinds_by_extension() {
    assert_eq!(shader_kind("shaders/gbuffer/gbuffer.vert"), Some(ShaderKind::Vertex));
    assert_eq!(shader_kind("a.frag"), Some(ShaderKind::Fragment));
    assert_eq!(shader_kind("rt.rgen"), Some(ShaderKind::RayGeneration));
    assert_eq!(shader_kind("rt.rmiss"), Some(ShaderKind::Miss));
    assert_eq!(shader_kind("rt.rchit"), Some(ShaderKind::ClosestHit));
    assert_eq!(shader_kind("x.comp"), Some(ShaderKind::Compute));
    assert_eq!(shader_kind("x.glsl"), None);
    assert_eq!(shader_kind("vert"), None);
}

#[test]
fn suffixes() {
    assert!(ends_with("present.frag", ".frag"));
    assert!(ends_with(".frag", ".frag"));
    assert!(!ends_with("frag", ".frag"));
    assert!(!ends_with("present.frag2", ".frag"));
    assert!(ends_with("anything", ""));
}

// ---------------------------------------------------------------------------
// Descriptor sets
// ---------------------------------------------------------------------------

fn binding(set: u32, binding: u32, ty: u32, name: &str) -> Binding {
    Binding { set, binding, info: info(ty, name) }
}

#[test]
fn a_descriptor_set_finds_its_bindings() {
    let set = DescriptorSet::new(vec![
        binding(3, 4, DESCRIPTOR_TYPE_UNIFORM_BUFFER, "zeta"),
        binding(2, 7, DESCRIPTOR_TYPE_COMBINED_IMAGE_SAMPLER, "alpha"),
    ]);
    assert_eq!(set.binding_index(&DescriptorIdentifier::Name("zeta".to_string())), 4);
    assert_eq!(set.binding_index(&DescriptorIdentifier::Index(9)), 9);
    assert_eq!(set.binding_for("alpha").binding, 7);
    // the set of the name that comes first
    assert_eq!(set.get_set_index(), 2);
    assert_eq!(
        set.descriptor_pool_kinds(),
        vec![DescriptorKind::UniformBuffer, DescriptorKind::CombinedImageSampler]
    );
}

#[test]
fn stage_order_is_checked() {
    let info = |name: &str| DescriptorInfo { ty: DESCRIPTOR_TYPE_UNIFORM_BUFFER, binding_count: BindingCount::One, name: name.to_string() };
    let sorted = StageReflection {
        descriptor_sets: vec![
            DescriptorSetReflection { set: 0, bindings: vec![SetBinding { binding: 0, info: info("a") }, SetBinding { binding: 3, info: info("b") }] },
            DescriptorSetReflection { set: 2, bindings: vec![] },
        ],
        push_constant: None,
    };
    assert!(sorted.is_sorted());
    let sets_out_of_order = StageReflection {
        descriptor_sets: vec![
            DescriptorSetReflection { set: 2, bindings: vec![] },
            DescriptorSetReflection { set: 2, bindings: vec![] },
        ],
        push_constant: None,
    };
    assert!(!sets_out_of_order.is_sorted());
    let bindings_out_of_order = StageReflection {
        descriptor_sets: vec![DescriptorSetReflection {
            set: 0,
            bindings: vec![SetBinding { binding: 3, info: info("a") }, SetBinding { binding: 1, info: info("b") }],
        }],
        push_constant: None,
    };
    assert!(!bindings_out_of_order.is_sorted());
}
