use vstd::prelude::*;

use crate::renderer::DESCRIPTOR_SET_INDEX_VIEW;
use crate::shader::{
    find_binding, has_binding_named, names_distinct, spec_descriptor_kind, Binding, BindingCount,
    BindingMap, DescriptorInfo, DescriptorKind, DESCRIPTOR_TYPE_UNIFORM_BUFFER, descriptor_kind,
};

verus! {

/// How a write names its binding: by the name of the shader resource, or
/// directly by binding number.
pub enum DescriptorIdentifier {
    Name(String),
    Index(u32),
}

/// The bindings of a descriptor set, by name. The set itself and its pool
/// are Vulkan objects that the application keeps beside this map.
pub struct DescriptorSet {
    pub binding_map: BindingMap,
}

/// Lexicographic order of strings by character, the order of a sorted map
/// keyed by strings.
pub open spec fn lex_less(a: Seq<char>, b: Seq<char>) -> bool
    decreases a.len(),
{
    if a.len() == 0 {
        b.len() > 0
    } else if b.len() == 0 {
        false
    } else if a[0] != b[0] {
        (a[0] as int) < (b[0] as int)
    } else {
        lex_less(a.drop_first(), b.drop_first())
    }
}

pub proof fn lemma_lex_less_transitive(a: Seq<char>, b: Seq<char>, c: Seq<char>)
    requires
        lex_less(a, b),
        lex_less(b, c),
    ensures
        lex_less(a, c),
    decreases a.len(),
{
    if a.len() > 0 && b.len() > 0 && c.len() > 0 && a[0] == b[0] && b[0] == c[0] {
        lemma_lex_less_transitive(a.drop_first(), b.drop_first(), c.drop_first());
    }
}

pub proof fn lemma_lex_less_total(a: Seq<char>, b: Seq<char>)
    requires
        a != b,
    ensures
        lex_less(a, b) || lex_less(b, a),
    decreases a.len(),
{
    if a.len() > 0 && b.len() > 0 && a[0] == b[0] {
        if a.drop_first() == b.drop_first() {
            assert(a =~= seq![a[0]] + a.drop_first());
            assert(b =~= seq![b[0]] + b.drop_first());
        }
        lemma_lex_less_total(a.drop_first(), b.drop_first());
    } else if a.len() > 0 && b.len() > 0 {
        let x = a[0] as int;
        let y = b[0] as int;
        assert(x != y);
    } else if a.len() == 0 && b.len() == 0 {
        assert(a =~= b);
    }
}

/// Whether `a` comes before `b` in the order of a map keyed by strings.
pub fn str_less(a: &str, b: &str) -> (r: bool)
    ensures
        r == lex_less(a@, b@),
{
    let la = a.unicode_len();
    let lb = b.unicode_len();
    let mut i: usize = 0;
    assert(a@.skip(0) =~= a@);
    assert(b@.skip(0) =~= b@);
    while i < la && i < lb
        invariant
            la == a@.len(),
            lb == b@.len(),
            i <= la,
            i <= lb,
            lex_less(a@, b@) == lex_less(a@.skip(i as int), b@.skip(i as int)),
        decreases la - i,
    {
        let ca = a.get_char(i);
        let cb = b.get_char(i);
        proof {
            assert(a@.skip(i as int)[0] == ca);
            assert(b@.skip(i as int)[0] == cb);
            assert(a@.skip(i as int).drop_first() =~= a@.skip(i + 1));
            assert(b@.skip(i as int).drop_first() =~= b@.skip(i + 1));
        }
        if ca != cb {
            return (ca as u32) < (cb as u32);
        }
        i = i + 1;
    }
    i == la && i < lb
}

impl DescriptorSet {
    pub fn new(binding_map: BindingMap) -> (r: DescriptorSet)
        ensures
            r.binding_map == binding_map,
    {
        DescriptorSet { binding_map }
    }

    /// The binding a write goes to: the binding of the named resource, or
    /// the given number.
    pub fn binding_index(&self, name: &DescriptorIdentifier) -> (r: u32)
        requires
            names_distinct(self.binding_map@),
            name matches DescriptorIdentifier::Name(n) ==> has_binding_named(self.binding_map@, n@),
        ensures
            match name {
                DescriptorIdentifier::Name(n) => exists|i: int|
                    0 <= i < self.binding_map@.len() && (#[trigger] self.binding_map@[i]).info.name@ == n@
                        && self.binding_map@[i].binding == r,
                DescriptorIdentifier::Index(index) => r == *index,
            },
    {
        match name {
            DescriptorIdentifier::Name(n) => match find_binding(&self.binding_map, n.as_str()) {
                Some(i) => self.binding_map[i].binding,
                None => 0,
            },
            DescriptorIdentifier::Index(index) => *index,
        }
    }

    /// The binding of the named resource.
    pub fn binding_for(&self, name: &str) -> (r: &Binding)
        requires
            names_distinct(self.binding_map@),
            has_binding_named(self.binding_map@, name@),
        ensures
            exists|i: int| 0 <= i < self.binding_map@.len() && self.binding_map@[i] == *r,
            r.info.name@ == name@,
    {
        let i = match find_binding(&self.binding_map, name) {
            Some(i) => i,
            None => 0,
        };
        &self.binding_map[i]
    }

    /// The set number of the set: that of its binding whose name comes
    /// first.
    pub fn get_set_index(&self) -> (r: u32)
        requires
            self.binding_map@.len() > 0,
            names_distinct(self.binding_map@),
        ensures
            exists|i: int|
                0 <= i < self.binding_map@.len() && (#[trigger] self.binding_map@[i]).set == r && forall|j: int|
                    0 <= j < self.binding_map@.len() && j != i ==> lex_less(
                        self.binding_map@[i].info.name@,
                        #[trigger] self.binding_map@[j].info.name@,
                    ),
    {
        let mut best: usize = 0;
        let mut k: usize = 1;
        while k < self.binding_map.len()
            invariant
                names_distinct(self.binding_map@),
                best < k <= self.binding_map@.len(),
                forall|j: int|
                    0 <= j < k && j != best ==> lex_less(
                        self.binding_map@[best as int].info.name@,
                        #[trigger] self.binding_map@[j].info.name@,
                    ),
            decreases self.binding_map@.len() - k,
        {
            if str_less(self.binding_map[k].info.name.as_str(), self.binding_map[best].info.name.as_str()) {
                proof {
                    assert forall|j: int| 0 <= j < k + 1 && j != k implies lex_less(
                        self.binding_map@[k as int].info.name@,
                        #[trigger] self.binding_map@[j].info.name@,
                    ) by {
                        if j != best {
                            lemma_lex_less_transitive(
                                self.binding_map@[k as int].info.name@,
                                self.binding_map@[best as int].info.name@,
                                self.binding_map@[j].info.name@,
                            );
                        }
                    }
                }
                best = k;
            } else {
                proof {
                    assert(self.binding_map@[best as int].info.name@ != self.binding_map@[k as int].info.name@);
                    lemma_lex_less_total(
                        self.binding_map@[best as int].info.name@,
                        self.binding_map@[k as int].info.name@,
                    );
                }
            }
            k = k + 1;
        }
        self.binding_map[best].set
    }

    /// The kinds of descriptor the set's pool holds, one per binding.
    pub fn descriptor_pool_kinds(&self) -> (r: Vec<DescriptorKind>)
        requires
            forall|i: int|
                0 <= i < self.binding_map@.len() ==> spec_descriptor_kind(
                    (#[trigger] self.binding_map@[i]).info.ty,
                ) is Some,
        ensures
            r@.len() == self.binding_map@.len(),
            forall|i: int|
                0 <= i < r@.len() ==> Some(#[trigger] r@[i]) == spec_descriptor_kind(
                    self.binding_map@[i].info.ty,
                ),
    {
        let mut r: Vec<DescriptorKind> = Vec::new();
        let mut i: usize = 0;
        while i < self.binding_map.len()
            invariant
                i <= self.binding_map@.len(),
                r@.len() == i,
                forall|j: int|
                    0 <= j < self.binding_map@.len() ==> spec_descriptor_kind(
                        (#[trigger] self.binding_map@[j]).info.ty,
                    ) is Some,
                forall|j: int|
                    0 <= j < i ==> Some(#[trigger] r@[j]) == spec_descriptor_kind(
                        self.binding_map@[j].info.ty,
                    ),
            decreases self.binding_map@.len() - i,
        {
            let kind = match descriptor_kind(self.binding_map[i].info.ty) {
                Some(k) => k,
                None => DescriptorKind::UniformBuffer,
            };
            r.push(kind);
            i = i + 1;
        }
        r
    }
}

/// The bindings of the camera's descriptor set: the view uniform buffer at
/// binding 0 of the view set.
pub fn camera_binding_map() -> (r: BindingMap)
    ensures
        r@.len() == 1,
        r@[0].set == DESCRIPTOR_SET_INDEX_VIEW,
        r@[0].binding == 0,
        r@[0].info.ty == DESCRIPTOR_TYPE_UNIFORM_BUFFER,
        r@[0].info.binding_count == BindingCount::One,
        r@[0].info.name@ == seq!['v', 'i', 'e', 'w'],
{
    let name = "view".to_string();
    proof {
        reveal_strlit("view");
    }
    let mut m: Vec<Binding> = Vec::new();
    m.push(
        Binding {
            set: DESCRIPTOR_SET_INDEX_VIEW,
            binding: 0,
            info: DescriptorInfo { ty: DESCRIPTOR_TYPE_UNIFORM_BUFFER, binding_count: BindingCount::One, name },
        },
    );
    m
}

} // verus!
