use vstd::prelude::*;

use crate::sorted_map::{has_key, keys_increasing, lemma_insert, lemma_lookup_index, lemma_update, lookup};

verus! {

/// Descriptor type codes as shader reflection reports them (the values of
/// `VkDescriptorType`).
pub const DESCRIPTOR_TYPE_SAMPLER: u32 = 0;
pub const DESCRIPTOR_TYPE_COMBINED_IMAGE_SAMPLER: u32 = 1;
pub const DESCRIPTOR_TYPE_SAMPLED_IMAGE: u32 = 2;
pub const DESCRIPTOR_TYPE_STORAGE_IMAGE: u32 = 3;
pub const DESCRIPTOR_TYPE_UNIFORM_BUFFER: u32 = 6;
pub const DESCRIPTOR_TYPE_STORAGE_BUFFER: u32 = 7;
pub const DESCRIPTOR_TYPE_ACCELERATION_STRUCTURE_KHR: u32 = 1000150000;

/// How many resources a binding holds.
#[derive(Clone, Copy, Debug, PartialEq, Eq, Structural)]
pub enum BindingCount {
    One,
    StaticSized(usize),
    Unbounded,
}

/// The descriptor kinds the renderer creates layouts and pools for.
#[derive(Clone, Copy, Debug, PartialEq, Eq, Structural)]
pub enum DescriptorKind {
    CombinedImageSampler,
    SampledImage,
    StorageImage,
    UniformBuffer,
    StorageBuffer,
    AccelerationStructure,
}

pub open spec fn spec_descriptor_kind(ty: u32) -> Option<DescriptorKind> {
    if ty == DESCRIPTOR_TYPE_COMBINED_IMAGE_SAMPLER {
        Some(DescriptorKind::CombinedImageSampler)
    } else if ty == DESCRIPTOR_TYPE_SAMPLED_IMAGE {
        Some(DescriptorKind::SampledImage)
    } else if ty == DESCRIPTOR_TYPE_STORAGE_IMAGE {
        Some(DescriptorKind::StorageImage)
    } else if ty == DESCRIPTOR_TYPE_UNIFORM_BUFFER {
        Some(DescriptorKind::UniformBuffer)
    } else if ty == DESCRIPTOR_TYPE_STORAGE_BUFFER {
        Some(DescriptorKind::StorageBuffer)
    } else if ty == DESCRIPTOR_TYPE_ACCELERATION_STRUCTURE_KHR {
        Some(DescriptorKind::AccelerationStructure)
    } else {
        None
    }
}

/// The descriptor kind of a reflected type; `None` for the types the
/// renderer does not support.
pub fn descriptor_kind(ty: u32) -> (r: Option<DescriptorKind>)
    ensures
        r == spec_descriptor_kind(ty),
{
    if ty == DESCRIPTOR_TYPE_COMBINED_IMAGE_SAMPLER {
        Some(DescriptorKind::CombinedImageSampler)
    } else if ty == DESCRIPTOR_TYPE_SAMPLED_IMAGE {
        Some(DescriptorKind::SampledImage)
    } else if ty == DESCRIPTOR_TYPE_STORAGE_IMAGE {
        Some(DescriptorKind::StorageImage)
    } else if ty == DESCRIPTOR_TYPE_UNIFORM_BUFFER {
        Some(DescriptorKind::UniformBuffer)
    } else if ty == DESCRIPTOR_TYPE_STORAGE_BUFFER {
        Some(DescriptorKind::StorageBuffer)
    } else if ty == DESCRIPTOR_TYPE_ACCELERATION_STRUCTURE_KHR {
        Some(DescriptorKind::AccelerationStructure)
    } else {
        None
    }
}

/// The Vulkan descriptor type code of each kind: the kind of the same name.
pub open spec fn kind_type_code(k: DescriptorKind) -> u32 {
    match k {
        DescriptorKind::CombinedImageSampler => 1,
        DescriptorKind::SampledImage => 2,
        DescriptorKind::StorageImage => 3,
        DescriptorKind::UniformBuffer => 6,
        DescriptorKind::StorageBuffer => 7,
        DescriptorKind::AccelerationStructure => 1000150000,
    }
}

/// Each reflected descriptor type is laid out as the kind of the same name:
/// a type code has a kind exactly when it is the Vulkan code of that kind
/// (combined image sampler 1, sampled image 2, storage image 3, uniform
/// buffer 6, storage buffer 7, acceleration structure 1000150000), so no
/// two codes share a kind and every other code has none.
pub proof fn lemma_descriptor_kind_by_code(ty: u32, k: DescriptorKind)
    ensures
        spec_descriptor_kind(ty) == Some(k) <==> ty == kind_type_code(k),
        spec_descriptor_kind(ty) is None <==> (ty != 1 && ty != 2 && ty != 3 && ty != 6 && ty != 7 && ty
            != 1000150000),
{
}

/// What reflection tells about one binding of a shader.
pub struct DescriptorInfo {
    pub ty: u32,
    pub binding_count: BindingCount,
    pub name: String,
}

pub struct DescriptorInfoView {
    pub ty: u32,
    pub binding_count: BindingCount,
    pub name: Seq<char>,
}

impl View for DescriptorInfo {
    type V = DescriptorInfoView;

    open spec fn view(&self) -> DescriptorInfoView {
        DescriptorInfoView { ty: self.ty, binding_count: self.binding_count, name: self.name@ }
    }
}

impl DescriptorInfo {
    pub fn duplicate(&self) -> (r: DescriptorInfo)
        ensures
            r@ == self@,
    {
        DescriptorInfo { ty: self.ty, binding_count: self.binding_count, name: self.name.clone() }
    }
}

/// A named binding: where a shader resource lives.
pub struct Binding {
    pub set: u32,
    pub binding: u32,
    pub info: DescriptorInfo,
}

pub struct BindingView {
    pub set: u32,
    pub binding: u32,
    pub info: DescriptorInfoView,
}

impl View for Binding {
    type V = BindingView;

    open spec fn view(&self) -> BindingView {
        BindingView { set: self.set, binding: self.binding, info: self.info@ }
    }
}

impl Binding {
    pub fn duplicate(&self) -> (r: Binding)
        ensures
            r@ == self@,
    {
        Binding { set: self.set, binding: self.binding, info: self.info.duplicate() }
    }
}

/// Bindings by name; no name occurs twice.
pub type BindingMap = Vec<Binding>;

pub open spec fn names_distinct(m: Seq<Binding>) -> bool {
    forall|i: int, j: int| 0 <= i < j < m.len() ==> (#[trigger] m[i]).info.name@ != (#[trigger] m[j]).info.name@
}

pub open spec fn has_binding_named(m: Seq<Binding>, name: Seq<char>) -> bool {
    exists|i: int| 0 <= i < m.len() && (#[trigger] m[i]).info.name@ == name
}

/// The position of the binding named `name`.
pub fn find_binding(m: &Vec<Binding>, name: &str) -> (r: Option<usize>)
    requires
        names_distinct(m@),
    ensures
        r is Some <==> has_binding_named(m@, name@),
        r matches Some(i) ==> i < m@.len() && m@[i as int].info.name@ == name@,
{
    let n = name.to_string();
    let mut i: usize = 0;
    while i < m.len()
        invariant
            i <= m@.len(),
            n@ == name@,
            forall|j: int| 0 <= j < i ==> m@[j].info.name@ != name@,
        decreases m@.len() - i,
    {
        if m[i].info.name.eq(&n) {
            return Some(i);
        }
        i = i + 1;
    }
    None
}

/// The push constant block of a shader stage.
#[derive(Clone, Copy, Debug, PartialEq, Eq, Structural)]
pub struct PushConstantInfo {
    pub offset: u32,
    pub size: u32,
}

/// One binding of a descriptor set.
pub struct SetBinding {
    pub binding: u32,
    pub info: DescriptorInfo,
}

/// The bindings of one descriptor set, by increasing binding number.
pub struct DescriptorSetReflection {
    pub set: u32,
    pub bindings: Vec<SetBinding>,
}

/// What the shaders of a pipeline use: their descriptor sets by increasing
/// set number, their push constant blocks, and every binding by name.
pub struct Reflection {
    pub descriptor_set_reflections: Vec<DescriptorSetReflection>,
    pub push_constant_reflections: Vec<PushConstantInfo>,
    pub binding_mappings: BindingMap,
}

pub open spec fn in_mappings(m: Seq<Binding>, b: BindingView) -> bool {
    exists|j: int| 0 <= j < m.len() && (#[trigger] m[j])@ == b
}

impl Reflection {
    /// The bindings of set `set`, by name.
    pub fn get_set_mappings(&self, set: u32) -> (r: BindingMap)
        requires
            names_distinct(self.binding_mappings@),
        ensures
            names_distinct(r@),
            forall|i: int| 0 <= i < r@.len() ==> (#[trigger] r@[i]).set == set,
            forall|i: int| 0 <= i < r@.len() ==> in_mappings(self.binding_mappings@, #[trigger] r@[i]@),
            forall|j: int|
                #![trigger self.binding_mappings@[j]]
                0 <= j < self.binding_mappings@.len() && self.binding_mappings@[j].set
                    == set ==> exists|i: int| 0 <= i < r@.len() && (#[trigger] r@[i])@ == self.binding_mappings@[j]@,
    {
        let mut r: Vec<Binding> = Vec::new();
        let mut k: usize = 0;
        while k < self.binding_mappings.len()
            invariant
                k <= self.binding_mappings@.len(),
                names_distinct(self.binding_mappings@),
                forall|i: int| 0 <= i < r@.len() ==> (#[trigger] r@[i]).set == set,
                forall|i: int|
                    #![trigger r@[i]]
                    0 <= i < r@.len() ==> exists|j: int|
                        0 <= j < k && (#[trigger] self.binding_mappings@[j])@ == r@[i]@,
                forall|j: int|
                    #![trigger self.binding_mappings@[j]]
                    0 <= j < k && self.binding_mappings@[j].set == set ==> exists|i: int|
                        0 <= i < r@.len() && (#[trigger] r@[i])@ == self.binding_mappings@[j]@,
                forall|i: int, j: int|
                    0 <= i < j < r@.len() ==> (#[trigger] r@[i]).info.name@ != (#[trigger] r@[j]).info.name@,
            decreases self.binding_mappings@.len() - k,
        {
            if self.binding_mappings[k].set == set {
                let b = self.binding_mappings[k].duplicate();
                let ghost r_old = r@;
                proof {
                    assert forall|i: int| 0 <= i < r_old.len() implies r_old[i].info.name@ != b.info.name@ by {
                        let j = choose|j: int| 0 <= j < k && (#[trigger] self.binding_mappings@[j])@ == r_old[i]@;
                        assert(self.binding_mappings@[j].info.name@ != self.binding_mappings@[k as int].info.name@);
                    }
                }
                r.push(b);
                proof {
                    assert(r@[r@.len() - 1]@ == self.binding_mappings@[k as int]@);
                    assert forall|i: int| #![trigger r@[i]] 0 <= i < r@.len() implies exists|j: int|
                        0 <= j < k + 1 && (#[trigger] self.binding_mappings@[j])@ == r@[i]@ by {
                        if i < r_old.len() {
                            assert(r@[i] == r_old[i]);
                        } else {
                            assert(self.binding_mappings@[k as int]@ == r@[i]@);
                        }
                    }
                    assert forall|j: int|
                        #![trigger self.binding_mappings@[j]]
                        0 <= j < k + 1 && self.binding_mappings@[j].set == set implies exists|i: int|
                        0 <= i < r@.len() && (#[trigger] r@[i])@ == self.binding_mappings@[j]@ by {
                        if j < k {
                            let i = choose|i: int| 0 <= i < r_old.len() && (#[trigger] r_old[i])@ == self.binding_mappings@[j]@;
                            assert(r@[i] == r_old[i]);
                        } else {
                            assert(r@[r@.len() - 1]@ == self.binding_mappings@[j]@);
                        }
                    }
                }
            }
            k = k + 1;
        }
        proof {
            assert forall|i: int| 0 <= i < r@.len() implies in_mappings(self.binding_mappings@, #[trigger] r@[i]@) by {
                let j = choose|j: int| 0 <= j < k && (#[trigger] self.binding_mappings@[j])@ == r@[i]@;
                assert(0 <= j < self.binding_mappings@.len());
            }
        }
        r
    }

    /// The binding named `name`.
    pub fn get_binding(&self, name: &str) -> (r: Binding)
        requires
            names_distinct(self.binding_mappings@),
            has_binding_named(self.binding_mappings@, name@),
        ensures
            in_mappings(self.binding_mappings@, r@),
            r.info.name@ == name@,
    {
        match find_binding(&self.binding_mappings, name) {
            Some(i) => self.binding_mappings[i].duplicate(),
            None => {
                // excluded by the precondition
                Binding {
                    set: 0,
                    binding: 0,
                    info: DescriptorInfo { ty: 0, binding_count: BindingCount::One, name: name.to_string() },
                }
            },
        }
    }
}

// ---------------------------------------------------------------------------
// Merging the reflection of several shader stages
// ---------------------------------------------------------------------------
pub type BindingsView = Seq<(u32, DescriptorInfoView)>;

pub type SetsView = Seq<(u32, BindingsView)>;

pub open spec fn bindings_view(b: Seq<SetBinding>) -> BindingsView {
    b.map_values(|x: SetBinding| (x.binding, x.info@))
}

pub open spec fn sets_view(s: Seq<DescriptorSetReflection>) -> SetsView {
    s.map_values(|d: DescriptorSetReflection| (d.set, bindings_view(d.bindings@)))
}

/// Sets by increasing number, each with its bindings by increasing number.
pub open spec fn sets_wf(s: SetsView) -> bool {
    &&& keys_increasing(s)
    &&& forall|i: int| 0 <= i < s.len() ==> keys_increasing(#[trigger] s[i].1)
}

/// What the sets say about binding `binding` of set `set`.
pub open spec fn reflect_lookup(s: SetsView, set: u32, binding: u32) -> Option<DescriptorInfoView> {
    match lookup(s, set) {
        Some(bs) => lookup(bs, binding),
        None => None,
    }
}

/// What the stages say together about a binding: what the first stage
/// that has it says.
pub open spec fn merged_lookup(stages: Seq<SetsView>, set: u32, binding: u32) -> Option<DescriptorInfoView>
    decreases stages.len(),
{
    if stages.len() == 0 {
        None
    } else {
        match merged_lookup(stages.drop_last(), set, binding) {
            Some(x) => Some(x),
            None => reflect_lookup(stages.last(), set, binding),
        }
    }
}

/// Two stages agree on a binding when they give it the same type and name.
pub open spec fn infos_agree(a: DescriptorInfoView, b: DescriptorInfoView) -> bool {
    a.ty == b.ty && a.name == b.name
}

/// A binding that `stage` shares with the merge of `acc` disagrees with it.
pub open spec fn disagrees_at(acc: SetsView, stage: SetsView, set: u32, binding: u32) -> bool {
    &&& reflect_lookup(acc, set, binding) is Some
    &&& reflect_lookup(stage, set, binding) is Some
    &&& !infos_agree(reflect_lookup(acc, set, binding).unwrap(), reflect_lookup(stage, set, binding).unwrap())
}

pub open spec fn agrees_with(acc: SetsView, stage: SetsView) -> bool {
    forall|set: u32, binding: u32| !#[trigger] disagrees_at(acc, stage, set, binding)
}

/// Extending a prefix of increasing keys by one adds exactly that key.
pub proof fn lemma_take_one_more<V>(s: Seq<(u32, V)>, j: int)
    requires
        keys_increasing(s),
        0 <= j < s.len(),
    ensures
        keys_increasing(s.take(j)),
        keys_increasing(s.take(j + 1)),
        forall|k: u32| #[trigger]
            lookup(s.take(j + 1), k) == if k == s[j].0 {
                Some(s[j].1)
            } else {
                lookup(s.take(j), k)
            },
        lookup(s.take(j), s[j].0) is None,
{
    let t = s.take(j);
    assert(keys_increasing(t)) by {
        assert forall|a: int, b: int| 0 <= a < b < t.len() implies (#[trigger] t[a]).0 < (#[trigger] t[b]).0 by {
            assert(t[a] == s[a] && t[b] == s[b]);
        }
    }
    assert forall|a: int| 0 <= a < j implies (#[trigger] t[a]).0 < s[j].0 by {
        assert(t[a] == s[a]);
    }
    lemma_insert(t, j, s[j].0, s[j].1);
    assert(t.insert(j, (s[j].0, s[j].1)) =~= s.take(j + 1));
    if has_key(t, s[j].0) {
        let a = choose|a: int| 0 <= a < t.len() && (#[trigger] t[a]).0 == s[j].0;
        assert(t[a].0 < s[j].0);
    }
}

pub proof fn lemma_take_all<V>(s: Seq<(u32, V)>)
    ensures
        s.take(s.len() as int) == s,
{
    assert(s.take(s.len() as int) =~= s);
}

fn copy_bindings(b: &Vec<SetBinding>) -> (r: Vec<SetBinding>)
    ensures
        bindings_view(r@) == bindings_view(b@),
{
    let mut r: Vec<SetBinding> = Vec::new();
    let mut i: usize = 0;
    while i < b.len()
        invariant
            i <= b@.len(),
            r@.len() == i,
            bindings_view(r@) == bindings_view(b@.take(i as int)),
        decreases b@.len() - i,
    {
        let ghost r_old = r@;
        let x = SetBinding { binding: b[i].binding, info: b[i].info.duplicate() };
        r.push(x);
        proof {
            assert(r@ == r_old.push(x));
            assert(r_old.len() == i);
            let t = b@.take(i + 1);
            assert forall|q: int| 0 <= q < r@.len() implies bindings_view(r@)[q] == bindings_view(t)[q] by {
                if q < i {
                    assert(r@[q] == r_old[q]);
                    assert(bindings_view(r_old)[q] == bindings_view(b@.take(i as int))[q]);
                    assert(t[q] == b@[q]);
                } else {
                    assert(r@[q] == x);
                }
            }
        }
        i = i + 1;
        assert(bindings_view(r@) =~= bindings_view(b@.take(i as int)));
    }
    assert(b@.take(b@.len() as int) =~= b@);
    r
}

/// The first position whose binding number is at least `k`.
fn binding_position(b: &Vec<SetBinding>, k: u32) -> (p: usize)
    requires
        keys_increasing(bindings_view(b@)),
    ensures
        p <= b@.len(),
        forall|i: int| 0 <= i < p ==> (#[trigger] b@[i]).binding < k,
        forall|i: int| p <= i < b@.len() ==> (#[trigger] b@[i]).binding >= k,
{
    let mut p: usize = 0;
    while p < b.len() && b[p].binding < k
        invariant
            p <= b@.len(),
            keys_increasing(bindings_view(b@)),
            forall|i: int| 0 <= i < p ==> (#[trigger] b@[i]).binding < k,
        decreases b@.len() - p,
    {
        p = p + 1;
    }
    proof {
        assert forall|i: int| p <= i < b@.len() implies (#[trigger] b@[i]).binding >= k by {
            if i > p {
                assert(bindings_view(b@)[p as int].0 < bindings_view(b@)[i].0);
            }
        }
    }
    p
}

/// The first position whose set number is at least `k`.
fn set_position(s: &Vec<DescriptorSetReflection>, k: u32) -> (p: usize)
    requires
        keys_increasing(sets_view(s@)),
    ensures
        p <= s@.len(),
        forall|i: int| 0 <= i < p ==> (#[trigger] s@[i]).set < k,
        forall|i: int| p <= i < s@.len() ==> (#[trigger] s@[i]).set >= k,
{
    let mut p: usize = 0;
    while p < s.len() && s[p].set < k
        invariant
            p <= s@.len(),
            keys_increasing(sets_view(s@)),
            forall|i: int| 0 <= i < p ==> (#[trigger] s@[i]).set < k,
        decreases s@.len() - p,
    {
        p = p + 1;
    }
    proof {
        assert forall|i: int| p <= i < s@.len() implies (#[trigger] s@[i]).set >= k by {
            if i > p {
                assert(sets_view(s@)[p as int].0 < sets_view(s@)[i].0);
            }
        }
    }
    p
}

/// Merges the bindings of a set from a new stage into the bindings kept so
/// far: a binding kept so far stays, a new one is added. Fails with the
/// first binding number on which the two disagree.
fn merge_bindings(acc: &mut Vec<SetBinding>, stage: &Vec<SetBinding>) -> (r: Result<(), u32>)
    requires
        keys_increasing(bindings_view(old(acc)@)),
        keys_increasing(bindings_view(stage@)),
    ensures
        r is Ok <==> forall|b: u32|
            (#[trigger] lookup(bindings_view(old(acc)@), b)) is Some && lookup(bindings_view(stage@), b) is Some
                ==> infos_agree(
                lookup(bindings_view(old(acc)@), b).unwrap(),
                lookup(bindings_view(stage@), b).unwrap(),
            ),
        r matches Err(b) ==> {
            &&& lookup(bindings_view(old(acc)@), b) is Some
            &&& lookup(bindings_view(stage@), b) is Some
            &&& !infos_agree(lookup(bindings_view(old(acc)@), b).unwrap(), lookup(bindings_view(stage@), b).unwrap())
        },
        r is Ok ==> keys_increasing(bindings_view(final(acc)@)),
        r is Ok ==> forall|b: u32| #[trigger]
            lookup(bindings_view(final(acc)@), b) == match lookup(bindings_view(old(acc)@), b) {
                Some(x) => Some(x),
                None => lookup(bindings_view(stage@), b),
            },
{
    let ghost a0 = bindings_view(acc@);
    let ghost sv = bindings_view(stage@);
    let mut j: usize = 0;
    while j < stage.len()
        invariant
            a0 == bindings_view(old(acc)@),
            sv == bindings_view(stage@),
            keys_increasing(sv),
            keys_increasing(a0),
            j <= stage@.len(),
            keys_increasing(bindings_view(acc@)),
            forall|b: u32| #[trigger]
                lookup(bindings_view(acc@), b) == match lookup(a0, b) {
                    Some(x) => Some(x),
                    None => lookup(sv.take(j as int), b),
                },
            forall|b: u32|
                (#[trigger] lookup(a0, b)) is Some && lookup(sv.take(j as int), b) is Some ==> infos_agree(
                    lookup(a0, b).unwrap(),
                    lookup(sv.take(j as int), b).unwrap(),
                ),
        decreases stage@.len() - j,
    {
        let k = stage[j].binding;
        proof {
            assert(sv[j as int] == (k, stage@[j as int].info@));
            lemma_take_one_more(sv, j as int);
        }
        let ghost cur = bindings_view(acc@);
        let p = binding_position(acc, k);
        if p < acc.len() && acc[p].binding == k {
            // kept so far: the stage must agree with it
            proof {
                lemma_lookup_index(cur, p as int);
                assert(cur[p as int].0 == k);
            }
            let same = acc[p].info.ty == stage[j].info.ty && acc[p].info.name.eq(&stage[j].info.name);
            if !same {
                proof {
                    lemma_lookup_index(sv, j as int);
                    assert(lookup(a0, k) is Some);
                }
                return Err(k);
            }
            proof {
                lemma_lookup_index(sv, j as int);
                assert(lookup(cur, k) == Some(cur[p as int].1));
                assert(lookup(a0, k) == Some(cur[p as int].1));
                assert(infos_agree(lookup(a0, k).unwrap(), sv[j as int].1));
                assert forall|b: u32|
                    (#[trigger] lookup(a0, b)) is Some && lookup(sv.take(j + 1), b) is Some implies infos_agree(
                    lookup(a0, b).unwrap(),
                    lookup(sv.take(j + 1), b).unwrap(),
                ) by {
                    if b != k {
                        assert(lookup(sv.take(j + 1), b) == lookup(sv.take(j as int), b));
                    }
                }
            }
        } else {
            let sb = SetBinding { binding: k, info: stage[j].info.duplicate() };
            proof {
                assert forall|i: int| 0 <= i < p implies (#[trigger] cur[i]).0 < k by {
                    assert(cur[i].0 == acc@[i].binding);
                }
                assert forall|i: int| p <= i < cur.len() implies (#[trigger] cur[i]).0 > k by {
                    assert(cur[i].0 == acc@[i].binding);
                }
                lemma_insert(cur, p as int, k, sb.info@);
                lemma_lookup_index(sv, j as int);
            }
            acc.insert(p, sb);
            proof {
                assert(bindings_view(acc@) =~= cur.insert(p as int, (k, sb.info@)));
                if has_key(cur, k) {
                    let i = choose|i: int| 0 <= i < cur.len() && (#[trigger] cur[i]).0 == k;
                    assert(cur[i].0 == acc@[if i < p { i } else { i + 1 }].binding);
                }
                assert(lookup(cur, k) is None);
                assert(lookup(a0, k) is None);
                assert forall|b: u32|
                    (#[trigger] lookup(a0, b)) is Some && lookup(sv.take(j + 1), b) is Some implies infos_agree(
                    lookup(a0, b).unwrap(),
                    lookup(sv.take(j + 1), b).unwrap(),
                ) by {
                    if b != k {
                        assert(lookup(sv.take(j + 1), b) == lookup(sv.take(j as int), b));
                    }
                }
            }
        }
        j = j + 1;
    }
    proof {
        lemma_take_all(sv);
    }
    Ok(())
}

/// Merges the descriptor sets of a new stage into the sets kept so far: a
/// set kept so far has the new stage's bindings merged into it, a new set is
/// added whole. Fails with the first set and binding on which the new stage
/// disagrees with what was kept.
fn merge_stage(acc: &mut Vec<DescriptorSetReflection>, stage: &Vec<DescriptorSetReflection>) -> (r: Result<(), (u32, u32)>)
    requires
        sets_wf(sets_view(old(acc)@)),
        sets_wf(sets_view(stage@)),
    ensures
        r is Ok <==> agrees_with(sets_view(old(acc)@), sets_view(stage@)),
        r matches Err((s, b)) ==> disagrees_at(sets_view(old(acc)@), sets_view(stage@), s, b),
        r is Ok ==> sets_wf(sets_view(final(acc)@)),
        r is Ok ==> forall|s: u32, b: u32| #[trigger]
            reflect_lookup(sets_view(final(acc)@), s, b) == match reflect_lookup(sets_view(old(acc)@), s, b) {
                Some(x) => Some(x),
                None => reflect_lookup(sets_view(stage@), s, b),
            },
        r is Ok ==> forall|s: u32| #[trigger]
            has_key(sets_view(final(acc)@), s) == (has_key(sets_view(old(acc)@), s) || has_key(sets_view(stage@), s)),
{
    let ghost a0 = sets_view(acc@);
    let ghost sv = sets_view(stage@);
    let mut j: usize = 0;
    while j < stage.len()
        invariant
            a0 == sets_view(old(acc)@),
            sv == sets_view(stage@),
            sets_wf(a0),
            sets_wf(sv),
            j <= stage@.len(),
            sets_wf(sets_view(acc@)),
            forall|s: u32, b: u32| #[trigger]
                reflect_lookup(sets_view(acc@), s, b) == match reflect_lookup(a0, s, b) {
                    Some(x) => Some(x),
                    None => reflect_lookup(sv.take(j as int), s, b),
                },
            forall|s: u32| #[trigger]
                has_key(sets_view(acc@), s) == (has_key(a0, s) || has_key(sv.take(j as int), s)),
            forall|s: u32, b: u32| !#[trigger] disagrees_at(a0, sv.take(j as int), s, b),
        decreases stage@.len() - j,
    {
        let k = stage[j].set;
        proof {
            assert(sv[j as int] == (k, bindings_view(stage@[j as int].bindings@)));
            lemma_take_one_more(sv, j as int);
            lemma_lookup_index(sv, j as int);
        }
        let ghost cur = sets_view(acc@);
        let p = set_position(acc, k);
        if p < acc.len() && acc[p].set == k {
            let mut d = acc.remove(p);
            let ghost old_bv = bindings_view(d.bindings@);
            proof {
                assert(cur[p as int] == (k, old_bv));
                lemma_lookup_index(cur, p as int);
                assert(lookup(sv.take(j as int), k) is None);
                assert(has_key(cur, k));
                assert(has_key(a0, k));
                assert forall|b: u32| #[trigger] reflect_lookup(a0, k, b) == lookup(old_bv, b) by {
                    assert(reflect_lookup(cur, k, b) == lookup(old_bv, b));
                    assert(reflect_lookup(sv.take(j as int), k, b) is None);
                }
            }
            let m = merge_bindings(&mut d.bindings, &stage[j].bindings);
            match m {
                Err(b) => {
                    proof {
                        assert(reflect_lookup(sv, k, b) == lookup(bindings_view(stage@[j as int].bindings@), b));
                        assert(disagrees_at(a0, sv, k, b));
                    }
                    return Err((k, b));
                },
                Ok(()) => {},
            }
            let ghost new_bv = bindings_view(d.bindings@);
            acc.insert(p, d);
            proof {
                assert(sets_view(acc@) =~= cur.update(p as int, (k, new_bv)));
                lemma_update(cur, p as int, new_bv);
                let nxt = sets_view(acc@);
                assert forall|i: int| 0 <= i < nxt.len() implies keys_increasing(#[trigger] nxt[i].1) by {
                    if i != p {
                        assert(nxt[i] == cur[i]);
                    }
                }
                assert forall|s: u32, b: u32| #[trigger]
                    reflect_lookup(nxt, s, b) == match reflect_lookup(a0, s, b) {
                        Some(x) => Some(x),
                        None => reflect_lookup(sv.take(j + 1), s, b),
                    } by {
                    if s != k {
                        assert(reflect_lookup(nxt, s, b) == reflect_lookup(cur, s, b));
                        assert(reflect_lookup(sv.take(j + 1), s, b) == reflect_lookup(sv.take(j as int), s, b));
                    } else {
                        assert(reflect_lookup(nxt, s, b) == lookup(new_bv, b));
                        assert(reflect_lookup(sv.take(j + 1), s, b) == lookup(bindings_view(stage@[j as int].bindings@), b));
                    }
                }
                assert forall|s: u32| #[trigger]
                    has_key(nxt, s) == (has_key(a0, s) || has_key(sv.take(j + 1), s)) by {
                    if s != k {
                        assert(lookup(nxt, s) == lookup(cur, s));
                        assert(lookup(sv.take(j + 1), s) == lookup(sv.take(j as int), s));
                    } else {
                        assert(lookup(nxt, s) is Some);
                    }
                }
                assert forall|s: u32, b: u32| !#[trigger] disagrees_at(a0, sv.take(j + 1), s, b) by {
                    if s != k {
                        assert(reflect_lookup(sv.take(j + 1), s, b) == reflect_lookup(sv.take(j as int), s, b));
                        assert(!disagrees_at(a0, sv.take(j as int), s, b));
                    } else {
                        assert(reflect_lookup(sv.take(j + 1), s, b) == lookup(bindings_view(stage@[j as int].bindings@), b));
                    }
                }
            }
        } else {
            let d = DescriptorSetReflection { set: k, bindings: copy_bindings(&stage[j].bindings) };
            let ghost new_bv = bindings_view(d.bindings@);
            proof {
                assert forall|i: int| 0 <= i < p implies (#[trigger] cur[i]).0 < k by {
                    assert(cur[i].0 == acc@[i].set);
                }
                assert forall|i: int| p <= i < cur.len() implies (#[trigger] cur[i]).0 > k by {
                    assert(cur[i].0 == acc@[i].set);
                }
                lemma_insert(cur, p as int, k, new_bv);
                if has_key(cur, k) {
                    let i = choose|i: int| 0 <= i < cur.len() && (#[trigger] cur[i]).0 == k;
                    assert(cur[i].0 == acc@[i].set);
                }
                assert(lookup(cur, k) is None);
                assert(!has_key(a0, k));
            }
            acc.insert(p, d);
            proof {
                assert(sets_view(acc@) =~= cur.insert(p as int, (k, new_bv)));
                let nxt = sets_view(acc@);
                assert forall|i: int| 0 <= i < nxt.len() implies keys_increasing(#[trigger] nxt[i].1) by {
                    if i < p {
                        assert(nxt[i] == cur[i]);
                    } else if i > p {
                        assert(nxt[i] == cur[i - 1]);
                    } else {
                        assert(new_bv == bindings_view(stage@[j as int].bindings@));
                        assert(sv[j as int].1 == new_bv);
                    }
                }
                assert forall|s: u32, b: u32| #[trigger]
                    reflect_lookup(nxt, s, b) == match reflect_lookup(a0, s, b) {
                        Some(x) => Some(x),
                        None => reflect_lookup(sv.take(j + 1), s, b),
                    } by {
                    if s != k {
                        assert(reflect_lookup(nxt, s, b) == reflect_lookup(cur, s, b));
                        assert(reflect_lookup(sv.take(j + 1), s, b) == reflect_lookup(sv.take(j as int), s, b));
                    } else {
                        assert(reflect_lookup(a0, s, b) is None);
                        assert(reflect_lookup(nxt, s, b) == lookup(new_bv, b));
                    }
                }
                assert forall|s: u32| #[trigger]
                    has_key(nxt, s) == (has_key(a0, s) || has_key(sv.take(j + 1), s)) by {
                    if s != k {
                        assert(lookup(nxt, s) == lookup(cur, s));
                        assert(lookup(sv.take(j + 1), s) == lookup(sv.take(j as int), s));
                    } else {
                        assert(lookup(nxt, s) is Some);
                    }
                }
                assert forall|s: u32, b: u32| !#[trigger] disagrees_at(a0, sv.take(j + 1), s, b) by {
                    if s != k {
                        assert(reflect_lookup(sv.take(j + 1), s, b) == reflect_lookup(sv.take(j as int), s, b));
                        assert(!disagrees_at(a0, sv.take(j as int), s, b));
                    } else {
                        assert(reflect_lookup(a0, s, b) is None);
                    }
                }
            }
        }
        j = j + 1;
    }
    proof {
        lemma_take_all(sv);
    }
    Ok(())
}

// ---------------------------------------------------------------------------
// Bindings by name
// ---------------------------------------------------------------------------
/// The bindings of one set, in order, as named bindings.
pub open spec fn set_bindings_flat(set: u32, bs: BindingsView) -> Seq<BindingView> {
    bs.map_values(|b: (u32, DescriptorInfoView)| BindingView { set, binding: b.0, info: b.1 })
}

/// Every binding of the sets, set by set, in order.
pub open spec fn flat_bindings(s: SetsView) -> Seq<BindingView>
    decreases s.len(),
{
    if s.len() == 0 {
        Seq::empty()
    } else {
        flat_bindings(s.drop_last()) + set_bindings_flat(s.last().0, s.last().1)
    }
}

/// Position `k` of `f` holds the last binding of `f` with its name.
pub open spec fn last_named(f: Seq<BindingView>, k: int) -> bool {
    &&& 0 <= k < f.len()
    &&& forall|q: int| k < q < f.len() ==> (#[trigger] f[q]).info.name != f[k].info.name
}

/// `m` maps each name that occurs in `f` to the last binding of `f` with
/// that name, and holds nothing else.
pub open spec fn mappings_of(m: Seq<Binding>, f: Seq<BindingView>) -> bool {
    &&& names_distinct(m)
    &&& forall|i: int| 0 <= i < m.len() ==> exists|k: int| #[trigger] last_named(f, k) && f[k] == (#[trigger] m[i])@
    &&& forall|k: int| 0 <= k < f.len() ==> has_binding_named(m, (#[trigger] f[k]).info.name)
}

proof fn lemma_flat_step(s: SetsView, i: int)
    requires
        0 <= i < s.len(),
    ensures
        flat_bindings(s.take(i + 1)) == flat_bindings(s.take(i)) + set_bindings_flat(s[i].0, s[i].1),
{
    assert(s.take(i + 1).drop_last() =~= s.take(i));
    assert(s.take(i + 1).last() == s[i]);
}

/// Records binding `b` under its name, replacing the binding of that name.
fn record_binding(m: &mut Vec<Binding>, b: Binding, Ghost(f): Ghost<Seq<BindingView>>)
    requires
        mappings_of(old(m)@, f),
    ensures
        mappings_of(final(m)@, f.push(b@)),
{
    let ghost m0 = m@;
    let ghost f2 = f.push(b@);
    let ghost kb = f.len() as int;
    assert(last_named(f2, kb));
    match find_binding(m, b.info.name.as_str()) {
        Some(p) => {
            m.set(p, b);
            proof {
                assert(names_distinct(m@)) by {
                    assert forall|i: int, j: int| 0 <= i < j < m@.len() implies (#[trigger] m@[i]).info.name@
                        != (#[trigger] m@[j]).info.name@ by {
                        assert(m0[i].info.name@ != m0[j].info.name@);
                    }
                }
                assert forall|i: int| 0 <= i < m@.len() implies exists|k: int| #[trigger] last_named(f2, k) && f2[k] == (#[trigger] m@[i])@ by {
                    if i == p {
                        assert(f2[kb] == m@[i]@);
                    } else {
                        assert(m@[i] == m0[i]);
                        let k = choose|k: int| #[trigger] last_named(f, k) && f[k] == m0[i]@;
                        assert(m0[i].info.name@ != m0[p as int].info.name@);
                        assert forall|q: int| k < q < f2.len() implies (#[trigger] f2[q]).info.name != f2[k].info.name by {
                            if q < f.len() {
                                assert(f2[q] == f[q]);
                            }
                        }
                        assert(last_named(f2, k) && f2[k] == m@[i]@);
                    }
                }
                assert forall|k: int| 0 <= k < f2.len() implies has_binding_named(m@, (#[trigger] f2[k]).info.name) by {
                    if k < f.len() {
                        assert(f2[k] == f[k]);
                        assert(has_binding_named(m0, f[k].info.name));
                        let i = choose|i: int| 0 <= i < m0.len() && (#[trigger] m0[i]).info.name@ == f[k].info.name;
                        assert(m@[i].info.name@ == f[k].info.name);
                    } else {
                        assert(m@[p as int].info.name@ == f2[k].info.name);
                    }
                }
            }
        },
        None => {
            m.push(b);
            proof {
                let n = m0.len() as int;
                assert(m@[n] == b);
                assert(names_distinct(m@)) by {
                    assert forall|i: int, j: int| 0 <= i < j < m@.len() implies (#[trigger] m@[i]).info.name@
                        != (#[trigger] m@[j]).info.name@ by {
                        if j < n {
                            assert(m0[i].info.name@ != m0[j].info.name@);
                        } else {
                            assert(m@[i] == m0[i]);
                        }
                    }
                }
                assert forall|i: int| 0 <= i < m@.len() implies exists|k: int| #[trigger] last_named(f2, k) && f2[k] == (#[trigger] m@[i])@ by {
                    if i == n {
                        assert(f2[kb] == m@[i]@);
                    } else {
                        assert(m@[i] == m0[i]);
                        let k = choose|k: int| #[trigger] last_named(f, k) && f[k] == m0[i]@;
                        assert(m0[i].info.name@ != b.info.name@);
                        assert forall|q: int| k < q < f2.len() implies (#[trigger] f2[q]).info.name != f2[k].info.name by {
                            if q < f.len() {
                                assert(f2[q] == f[q]);
                            }
                        }
                        assert(last_named(f2, k) && f2[k] == m@[i]@);
                    }
                }
                assert forall|k: int| 0 <= k < f2.len() implies has_binding_named(m@, (#[trigger] f2[k]).info.name) by {
                    if k < f.len() {
                        assert(f2[k] == f[k]);
                        assert(has_binding_named(m0, f[k].info.name));
                        let i = choose|i: int| 0 <= i < m0.len() && (#[trigger] m0[i]).info.name@ == f[k].info.name;
                        assert(m@[i].info.name@ == f[k].info.name);
                    } else {
                        assert(m@[n].info.name@ == f2[k].info.name);
                    }
                }
            }
        },
    }
}

/// Every binding of the sets by name; where a name occurs more than once,
/// the binding that comes last (by set, then binding number) wins.
fn binding_mappings_of(sets: &Vec<DescriptorSetReflection>) -> (m: Vec<Binding>)
    ensures
        mappings_of(m@, flat_bindings(sets_view(sets@))),
{
    let ghost sv = sets_view(sets@);
    let mut m: Vec<Binding> = Vec::new();
    let mut i: usize = 0;
    while i < sets.len()
        invariant
            i <= sets@.len(),
            sv == sets_view(sets@),
            mappings_of(m@, flat_bindings(sv.take(i as int))),
        decreases sets@.len() - i,
    {
        let set = sets[i].set;
        let ghost base = flat_bindings(sv.take(i as int));
        let ghost row = set_bindings_flat(set, sv[i as int].1);
        proof {
            assert(sv[i as int].0 == set);
            lemma_flat_step(sv, i as int);
        }
        let mut j: usize = 0;
        while j < sets[i].bindings.len()
            invariant
                i < sets@.len(),
                j <= sets@[i as int].bindings@.len(),
                sv == sets_view(sets@),
                set == sets@[i as int].set,
                row == set_bindings_flat(set, sv[i as int].1),
                mappings_of(m@, base + row.take(j as int)),
            decreases sets@[i as int].bindings@.len() - j,
        {
            let sb = &sets[i].bindings[j];
            let b = Binding { set, binding: sb.binding, info: sb.info.duplicate() };
            proof {
                assert(sv[i as int].1 == bindings_view(sets@[i as int].bindings@));
                assert(b@ == row[j as int]);
            }
            record_binding(&mut m, b, Ghost(base + row.take(j as int)));
            proof {
                assert((base + row.take(j as int)).push(b@) =~= base + row.take(j + 1));
            }
            j = j + 1;
        }
        proof {
            assert(sv[i as int].1 == bindings_view(sets@[i as int].bindings@));
            assert(row.take(j as int) =~= row);
        }
        i = i + 1;
    }
    proof {
        assert(sv.take(sv.len() as int) =~= sv);
    }
    m
}

// ---------------------------------------------------------------------------
// The reflection of a pipeline's stages
// ---------------------------------------------------------------------------
/// Why the stages of a pipeline could not be reflected.
#[derive(Clone, Copy, Debug, PartialEq, Eq, Structural)]
pub enum ReflectionError {
    /// Two stages give binding `binding` of set `set` a different type or name.
    Inconsistent { set: u32, binding: u32 },
}

/// What reflection tells about one shader stage.
pub struct StageReflection {
    pub descriptor_sets: Vec<DescriptorSetReflection>,
    pub push_constant: Option<PushConstantInfo>,
}

impl StageReflection {
    /// Whether the sets come by increasing number, and the bindings of each
    /// set by increasing number, as `Reflection::new` needs them.
    pub fn is_sorted(&self) -> (r: bool)
        ensures
            r == sets_wf(sets_view(self.descriptor_sets@)),
    {
        let sets = &self.descriptor_sets;
        let ghost v = sets_view(sets@);
        let mut i: usize = 0;
        while i < sets.len()
            invariant
                sets@ == self.descriptor_sets@,
                v == sets_view(sets@),
                i <= sets@.len(),
                forall|a: int, b: int| 0 <= a < b < i ==> (#[trigger] v[a]).0 < (#[trigger] v[b]).0,
                forall|a: int| 0 <= a < i ==> keys_increasing(#[trigger] v[a].1),
            decreases sets@.len() - i,
        {
            if i > 0 && sets[i - 1].set >= sets[i].set {
                assert(v[i - 1].0 >= v[i as int].0);
                return false;
            }
            let bindings = &sets[i].bindings;
            let ghost bv = v[i as int].1;
            assert(bv == bindings_view(bindings@));
            let mut j: usize = 1;
            while j < bindings.len()
                invariant
                    sets@ == self.descriptor_sets@,
                    v == sets_view(sets@),
                    i < sets@.len(),
                    bv == v[i as int].1,
                    bv == bindings_view(bindings@),
                    1 <= j,
                    j <= bindings@.len() || bindings@.len() == 0,
                    forall|a: int, b: int| 0 <= a < b < j && b < bindings@.len() ==> (#[trigger] bv[a]).0 < (#[trigger] bv[b]).0,
                decreases bindings@.len() - j,
            {
                if bindings[j - 1].binding >= bindings[j].binding {
                    assert(bv[j - 1].0 >= bv[j as int].0);
                    return false;
                }
                proof {
                    assert forall|a: int, b: int| 0 <= a < b < j + 1 && b < bindings@.len() implies (#[trigger] bv[a]).0 < (#[trigger] bv[b]).0 by {
                        if b == j && a < j - 1 {
                            assert(bv[a].0 < bv[j - 1].0);
                        }
                    }
                }
                j = j + 1;
            }
            assert(keys_increasing(bv)) by {
                assert forall|a: int, b: int| 0 <= a < b < bv.len() implies (#[trigger] bv[a]).0 < (#[trigger] bv[b]).0 by {
                    assert(b < j);
                }
            }
            proof {
                assert forall|a: int, b: int| 0 <= a < b < i + 1 implies (#[trigger] v[a]).0 < (#[trigger] v[b]).0 by {
                    if b == i && a < i - 1 {
                        assert(v[a].0 < v[i - 1].0);
                    }
                }
            }
            i = i + 1;
        }
        true
    }
}

pub open spec fn stage_sets(stages: Seq<StageReflection>) -> Seq<SetsView> {
    stages.map_values(|st: StageReflection| sets_view(st.descriptor_sets@))
}

/// The push constant blocks of the stages that have one, in stage order.
pub open spec fn push_constants_of(stages: Seq<StageReflection>) -> Seq<PushConstantInfo>
    decreases stages.len(),
{
    if stages.len() == 0 {
        Seq::empty()
    } else {
        let rest = push_constants_of(stages.drop_last());
        match stages.last().push_constant {
            Some(p) => rest.push(p),
            None => rest,
        }
    }
}

/// Stage `i` disagrees on a binding with what the stages before it say.
pub open spec fn stage_conflict(stages: Seq<SetsView>, i: int, set: u32, binding: u32) -> bool {
    &&& merged_lookup(stages.take(i), set, binding) is Some
    &&& reflect_lookup(stages[i], set, binding) is Some
    &&& !infos_agree(
        merged_lookup(stages.take(i), set, binding).unwrap(),
        reflect_lookup(stages[i], set, binding).unwrap(),
    )
}

pub open spec fn stages_consistent(stages: Seq<SetsView>) -> bool {
    forall|i: int, set: u32, binding: u32|
        0 <= i < stages.len() ==> !#[trigger] stage_conflict(stages, i, set, binding)
}

pub open spec fn some_stage_conflicts(stages: Seq<SetsView>, set: u32, binding: u32) -> bool {
    exists|i: int| 0 <= i < stages.len() && #[trigger] stage_conflict(stages, i, set, binding)
}

pub open spec fn set_in_some_stage(stages: Seq<SetsView>, set: u32) -> bool {
    exists|i: int| 0 <= i < stages.len() && has_key(#[trigger] stages[i], set)
}

impl Reflection {
    /// Sets and bindings kept sorted, and bindings by name as they follow
    /// from the sets.
    pub open spec fn wf(&self) -> bool {
        &&& sets_wf(sets_view(self.descriptor_set_reflections@))
        &&& mappings_of(self.binding_mappings@, flat_bindings(sets_view(self.descriptor_set_reflections@)))
    }

    /// Combines the reflection of the stages of one pipeline: the union of
    /// their descriptor sets (where stages share a binding, the first stage
    /// that has it gives it; they must agree on its type and name), their
    /// push constant blocks in stage order, and every binding by name. Each
    /// stage comes as the application read it from the stage's SPIR-V code:
    /// the reader, rspirv-reflect, asserts and panics on some modules, and
    /// nothing a caller can test on the bytes tells those modules apart, so
    /// the reading stays with the caller and the stages come here read.
    pub fn new(stages: &Vec<StageReflection>) -> (r: Result<Reflection, ReflectionError>)
        requires
            forall|i: int| 0 <= i < stages@.len() ==> sets_wf(#[trigger] stage_sets(stages@)[i]),
        ensures
            r is Ok <==> stages_consistent(stage_sets(stages@)),
            r matches Err(e) ==> e matches ReflectionError::Inconsistent { set, binding } && some_stage_conflicts(
                stage_sets(stages@),
                set,
                binding,
            ),
            r matches Ok(refl) ==> {
                &&& refl.wf()
                &&& forall|s: u32, b: u32| #[trigger]
                    reflect_lookup(sets_view(refl.descriptor_set_reflections@), s, b) == merged_lookup(
                        stage_sets(stages@),
                        s,
                        b,
                    )
                &&& forall|s: u32| #[trigger]
                    has_key(sets_view(refl.descriptor_set_reflections@), s) == set_in_some_stage(
                        stage_sets(stages@),
                        s,
                    )
                &&& refl.push_constant_reflections@ == push_constants_of(stages@)
            },
    {
        let ghost ss = stage_sets(stages@);
        let mut acc: Vec<DescriptorSetReflection> = Vec::new();
        let mut push: Vec<PushConstantInfo> = Vec::new();
        let mut i: usize = 0;
        while i < stages.len()
            invariant
                i <= stages@.len(),
                ss == stage_sets(stages@),
                forall|q: int| 0 <= q < stages@.len() ==> sets_wf(#[trigger] ss[q]),
                sets_wf(sets_view(acc@)),
                forall|s: u32, b: u32| #[trigger]
                    reflect_lookup(sets_view(acc@), s, b) == merged_lookup(ss.take(i as int), s, b),
                forall|s: u32| #[trigger] has_key(sets_view(acc@), s) == set_in_some_stage(ss.take(i as int), s),
                forall|q: int, s: u32, b: u32| 0 <= q < i ==> !#[trigger] stage_conflict(ss, q, s, b),
                push@ == push_constants_of(stages@.take(i as int)),
            decreases stages@.len() - i,
        {
            let ghost before = sets_view(acc@);
            proof {
                assert(ss[i as int] == sets_view(stages@[i as int].descriptor_sets@));
                assert(ss.take(i + 1).drop_last() =~= ss.take(i as int));
                assert(ss.take(i + 1).last() == ss[i as int]);
                assert(ss.take(i as int).take(i as int) =~= ss.take(i as int));
            }
            match merge_stage(&mut acc, &stages[i].descriptor_sets) {
                Err((s, b)) => {
                    proof {
                        assert(stage_conflict(ss, i as int, s, b));
                        assert(some_stage_conflicts(ss, s, b));
                    }
                    return Err(ReflectionError::Inconsistent { set: s, binding: b });
                },
                Ok(()) => {},
            }
            proof {
                assert forall|s: u32, b: u32| #[trigger]
                    reflect_lookup(sets_view(acc@), s, b) == merged_lookup(ss.take(i + 1), s, b) by {
                    assert(reflect_lookup(before, s, b) == merged_lookup(ss.take(i as int), s, b));
                }
                assert forall|s: u32| #[trigger] has_key(sets_view(acc@), s) == set_in_some_stage(ss.take(i + 1), s) by {
                    let t = ss.take(i + 1);
                    if has_key(ss[i as int], s) {
                        assert(t[i as int] == ss[i as int]);
                    }
                    if set_in_some_stage(t, s) {
                        let q = choose|q: int| 0 <= q < t.len() && has_key(#[trigger] t[q], s);
                        if q < i {
                            assert(ss.take(i as int)[q] == t[q]);
                        }
                    }
                    if set_in_some_stage(ss.take(i as int), s) {
                        let q = choose|q: int| 0 <= q < i && has_key(#[trigger] ss.take(i as int)[q], s);
                        assert(t[q] == ss.take(i as int)[q]);
                    }
                }
                assert forall|q: int, s: u32, b: u32| 0 <= q < i + 1 implies !#[trigger] stage_conflict(ss, q, s, b) by {
                    if q == i {
                        assert(!disagrees_at(before, ss[i as int], s, b));
                        assert(reflect_lookup(before, s, b) == merged_lookup(ss.take(i as int), s, b));
                    }
                }
            }
            match stages[i].push_constant {
                Some(pc) => push.push(pc),
                None => {},
            }
            proof {
                assert(stages@.take(i + 1).drop_last() =~= stages@.take(i as int));
                assert(stages@.take(i + 1).last() == stages@[i as int]);
            }
            i = i + 1;
        }
        proof {
            assert(ss.take(ss.len() as int) =~= ss);
            assert(stages@.take(stages@.len() as int) =~= stages@);
        }
        let binding_mappings = binding_mappings_of(&acc);
        Ok(Reflection { descriptor_set_reflections: acc, push_constant_reflections: push, binding_mappings })
    }
}

// ---------------------------------------------------------------------------
// Pipeline layouts from reflection
// ---------------------------------------------------------------------------
/// One binding of a descriptor set layout.
#[derive(Clone, Copy, Debug, PartialEq, Eq, Structural)]
pub struct LayoutBinding {
    pub binding: u32,
    pub kind: DescriptorKind,
}

/// Where the layout of one descriptor set comes from.
pub enum SetLayoutSource {
    /// The renderer's bindless layout.
    Bindless,
    /// A layout made from these bindings, each visible to every stage.
    Bindings(Vec<LayoutBinding>),
}

/// The layouts of a pipeline: one per reflected set, in set order, and the
/// push constant range shared by all stages.
pub struct LayoutPlan {
    pub set_layouts: Vec<SetLayoutSource>,
    pub push_constant: Option<PushConstantInfo>,
}

/// Every binding of the sets has a descriptor type the renderer supports.
pub open spec fn kinds_supported(s: Seq<DescriptorSetReflection>) -> bool {
    forall|i: int, j: int|
        0 <= i < s.len() && 0 <= j < s[i].bindings@.len() ==> (#[trigger] spec_descriptor_kind(
            s[i].bindings@[j].info.ty,
        )) is Some
}

pub open spec fn layout_bindings_of(b: Seq<SetBinding>) -> Seq<LayoutBinding> {
    b.map_values(|x: SetBinding| LayoutBinding { binding: x.binding, kind: spec_descriptor_kind(x.info.ty).unwrap() })
}

fn layout_bindings(b: &Vec<SetBinding>) -> (r: Vec<LayoutBinding>)
    requires
        forall|j: int| 0 <= j < b@.len() ==> (#[trigger] spec_descriptor_kind(b@[j].info.ty)) is Some,
    ensures
        r@ == layout_bindings_of(b@),
{
    let mut r: Vec<LayoutBinding> = Vec::new();
    let mut j: usize = 0;
    while j < b.len()
        invariant
            j <= b@.len(),
            forall|q: int| 0 <= q < b@.len() ==> (#[trigger] spec_descriptor_kind(b@[q].info.ty)) is Some,
            r@ == layout_bindings_of(b@.take(j as int)),
        decreases b@.len() - j,
    {
        let kind = match descriptor_kind(b[j].info.ty) {
            Some(k) => k,
            None => {
                proof {
                    assert(spec_descriptor_kind(b@[j as int].info.ty) is Some);
                }
                DescriptorKind::UniformBuffer
            },
        };
        r.push(LayoutBinding { binding: b[j].binding, kind });
        proof {
            assert(b@.take(j + 1) =~= b@.take(j as int).push(b@[j as int]));
            assert(r@ =~= layout_bindings_of(b@.take(j + 1)));
        }
        j = j + 1;
    }
    proof {
        assert(b@.take(b@.len() as int) =~= b@);
    }
    r
}

/// The layouts a pipeline needs for what its shaders use: a layout per
/// reflected set, in set order, where the first is replaced by the bindless
/// layout when the pipeline uses it, and the first push constant block
/// reflected, if any, as the one range shared by all stages.
pub fn layout_plan(reflection: &Reflection, use_bindless: bool) -> (r: LayoutPlan)
    requires
        kinds_supported(reflection.descriptor_set_reflections@),
        use_bindless ==> reflection.descriptor_set_reflections@.len() > 0,
    ensures
        r.set_layouts@.len() == reflection.descriptor_set_reflections@.len(),
        forall|i: int|
            0 <= i < r.set_layouts@.len() ==> match #[trigger] r.set_layouts@[i] {
                SetLayoutSource::Bindless => use_bindless && i == 0,
                SetLayoutSource::Bindings(bs) => !(use_bindless && i == 0) && bs@ == layout_bindings_of(
                    reflection.descriptor_set_reflections@[i].bindings@,
                ),
            },
        r.push_constant == if reflection.push_constant_reflections@.len() > 0 {
            Some(reflection.push_constant_reflections@[0])
        } else {
            None
        },
{
    let sets = &reflection.descriptor_set_reflections;
    let mut layouts: Vec<SetLayoutSource> = Vec::new();
    let mut i: usize = 0;
    while i < sets.len()
        invariant
            i <= sets@.len(),
            sets@ == reflection.descriptor_set_reflections@,
            kinds_supported(sets@),
            layouts@.len() == i,
            forall|q: int|
                0 <= q < i ==> match #[trigger] layouts@[q] {
                    SetLayoutSource::Bindless => use_bindless && q == 0,
                    SetLayoutSource::Bindings(bs) => !(use_bindless && q == 0) && bs@ == layout_bindings_of(
                        sets@[q].bindings@,
                    ),
                },
        decreases sets@.len() - i,
    {
        if use_bindless && i == 0 {
            layouts.push(SetLayoutSource::Bindless);
        } else {
            proof {
                assert forall|j: int| 0 <= j < sets@[i as int].bindings@.len() implies (#[trigger] spec_descriptor_kind(
                    sets@[i as int].bindings@[j].info.ty,
                )) is Some by {
                    assert(spec_descriptor_kind(sets@[i as int].bindings@[j].info.ty) is Some);
                }
            }
            let bs = layout_bindings(&sets[i].bindings);
            layouts.push(SetLayoutSource::Bindings(bs));
        }
        i = i + 1;
    }
    let push_constant = if reflection.push_constant_reflections.len() > 0 {
        Some(reflection.push_constant_reflections[0])
    } else {
        None
    };
    LayoutPlan { set_layouts: layouts, push_constant }
}

// ---------------------------------------------------------------------------
// Shader sources
// ---------------------------------------------------------------------------
/// The stages a shader source file is compiled for.
#[derive(Clone, Copy, Debug, PartialEq, Eq, Structural)]
pub enum ShaderKind {
    Vertex,
    Fragment,
    RayGeneration,
    Miss,
    ClosestHit,
    Compute,
}

/// `s` ends with `suffix`.
pub open spec fn has_suffix(s: Seq<char>, suffix: Seq<char>) -> bool {
    suffix.len() <= s.len() && s.subrange(s.len() - suffix.len(), s.len() as int) == suffix
}

/// Whether `s` ends with `suffix`.
pub fn ends_with(s: &str, suffix: &str) -> (r: bool)
    ensures
        r == has_suffix(s@, suffix@),
{
    let n = s.unicode_len();
    let m = suffix.unicode_len();
    if m > n {
        return false;
    }
    let mut i: usize = 0;
    while i < m
        invariant
            n == s@.len(),
            m == suffix@.len(),
            m <= n,
            i <= m,
            forall|j: int| 0 <= j < i ==> s@[n - m + j] == suffix@[j],
        decreases m - i,
    {
        if s.get_char(n - m + i) != suffix.get_char(i) {
            proof {
                assert(s@.subrange(n - m, n as int)[i as int] == s@[n - m + i]);
            }
            return false;
        }
        i = i + 1;
    }
    assert(s@.subrange(n - m, n as int) =~= suffix@);
    true
}

/// The stage of a shader source, by its extension.
pub open spec fn spec_shader_kind(path: Seq<char>) -> Option<ShaderKind> {
    if has_suffix(path, ".vert"@) {
        Some(ShaderKind::Vertex)
    } else if has_suffix(path, ".frag"@) {
        Some(ShaderKind::Fragment)
    } else if has_suffix(path, ".rgen"@) {
        Some(ShaderKind::RayGeneration)
    } else if has_suffix(path, ".rmiss"@) {
        Some(ShaderKind::Miss)
    } else if has_suffix(path, ".rchit"@) {
        Some(ShaderKind::ClosestHit)
    } else if has_suffix(path, ".comp"@) {
        Some(ShaderKind::Compute)
    } else {
        None
    }
}

/// The stage a shader source file is compiled for, by its extension:
/// `.vert`, `.frag`, `.rgen`, `.rmiss`, `.rchit` or `.comp`; `None` for any
/// other extension.
pub fn shader_kind(path: &str) -> (r: Option<ShaderKind>)
    ensures
        r == spec_shader_kind(path@),
{
    if ends_with(path, ".vert") {
        Some(ShaderKind::Vertex)
    } else if ends_with(path, ".frag") {
        Some(ShaderKind::Fragment)
    } else if ends_with(path, ".rgen") {
        Some(ShaderKind::RayGeneration)
    } else if ends_with(path, ".rmiss") {
        Some(ShaderKind::Miss)
    } else if ends_with(path, ".rchit") {
        Some(ShaderKind::ClosestHit)
    } else if ends_with(path, ".comp") {
        Some(ShaderKind::Compute)
    } else {
        None
    }
}

} // verus!
