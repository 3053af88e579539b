use vstd::prelude::*;

verus! {

/// A keyboard event, by key code.
#[derive(Clone, Copy, Debug, PartialEq, Eq, Structural)]
pub enum KeyEvent {
    Pressed(u32),
    Released(u32),
}

/// Which keys are held down now and which were held at the previous update.
///
/// A key is held or not, so each state is a set of key codes. It is kept
/// as a list in which no key occurs twice (the `wf` invariant), and the
/// contracts speak of the set of its keys: pressing a held key adds
/// nothing, and releasing a key removes its only entry.
pub struct Input {
    key_states: Vec<u32>,
    prev_key_states: Vec<u32>,
}

pub open spec fn key_set(keys: Seq<u32>) -> Set<u32> {
    Set::new(|k: u32| keys.contains(k))
}

/// The keys held after an event: a pressed key is held, a released key is not.
pub open spec fn apply_key_event(keys: Set<u32>, e: KeyEvent) -> Set<u32> {
    match e {
        KeyEvent::Pressed(k) => keys.insert(k),
        KeyEvent::Released(k) => keys.remove(k),
    }
}

/// The keys held after the events, taken in order.
pub open spec fn apply_key_events(keys: Set<u32>, events: Seq<KeyEvent>) -> Set<u32>
    decreases events.len(),
{
    if events.len() == 0 {
        keys
    } else {
        apply_key_event(apply_key_events(keys, events.drop_last()), events.last())
    }
}

impl Input {
    pub closed spec fn wf(&self) -> bool {
        self.key_states@.no_duplicates() && self.prev_key_states@.no_duplicates()
    }

    /// The keys held now.
    pub closed spec fn keys_down(&self) -> Set<u32> {
        key_set(self.key_states@)
    }

    /// The keys held at the previous update.
    pub closed spec fn prev_keys_down(&self) -> Set<u32> {
        key_set(self.prev_key_states@)
    }

    /// No key held, now or before.
    pub fn default() -> (r: Input)
        ensures
            r.wf(),
            r.keys_down() == Set::<u32>::empty(),
            r.prev_keys_down() == Set::<u32>::empty(),
    {
        let r = Input { key_states: Vec::new(), prev_key_states: Vec::new() };
        assert(r.keys_down() =~= Set::<u32>::empty());
        assert(r.prev_keys_down() =~= Set::<u32>::empty());
        r
    }

    fn press(&mut self, k: u32)
        requires
            old(self).wf(),
        ensures
            final(self).wf(),
            final(self).keys_down() == old(self).keys_down().insert(k),
            final(self).prev_keys_down() == old(self).prev_keys_down(),
    {
        let mut i: usize = 0;
        while i < self.key_states.len()
            invariant
                *self == *old(self),
                self.wf(),
                i <= self.key_states@.len(),
                forall|j: int| 0 <= j < i ==> self.key_states@[j] != k,
            decreases self.key_states@.len() - i,
        {
            if self.key_states[i] == k {
                assert(self.keys_down() =~= self.keys_down().insert(k));
                return;
            }
            i = i + 1;
        }
        let ghost before = self.key_states@;
        self.key_states.push(k);
        proof {
            assert(!before.contains(k));
            assert forall|a: int, b: int|
                0 <= a < self.key_states@.len() && 0 <= b < self.key_states@.len() && a != b implies self.key_states@[a]
                != self.key_states@[b] by {
                if b == before.len() {
                    assert(self.key_states@[a] == before[a]);
                } else if a == before.len() {
                    assert(self.key_states@[b] == before[b]);
                }
            }
            assert forall|x: u32| key_set(self.key_states@).contains(x) <==> key_set(before).insert(
                k,
            ).contains(x) by {
                if x != k && self.key_states@.contains(x) {
                    let j = choose|j: int| 0 <= j < self.key_states@.len() && self.key_states@[j] == x;
                    assert(before[j] == x);
                }
                if before.contains(x) {
                    let j = choose|j: int| 0 <= j < before.len() && before[j] == x;
                    assert(self.key_states@[j] == x);
                }
                if x == k {
                    assert(self.key_states@[before.len() as int] == k);
                }
            }
            assert(key_set(self.key_states@) =~= key_set(before).insert(k));
        }
    }

    fn release(&mut self, k: u32)
        requires
            old(self).wf(),
        ensures
            final(self).wf(),
            final(self).keys_down() == old(self).keys_down().remove(k),
            final(self).prev_keys_down() == old(self).prev_keys_down(),
    {
        let mut i: usize = 0;
        while i < self.key_states.len()
            invariant
                *self == *old(self),
                self.wf(),
                i <= self.key_states@.len(),
                forall|j: int| 0 <= j < i ==> self.key_states@[j] != k,
            decreases self.key_states@.len() - i,
        {
            if self.key_states[i] == k {
                let ghost before = self.key_states@;
                self.key_states.remove(i);
                proof {
                    assert forall|a: int, b: int|
                        0 <= a < self.key_states@.len() && 0 <= b < self.key_states@.len() && a != b implies self.key_states@[a]
                        != self.key_states@[b] by {
                        let a0 = if a < i { a } else { a + 1 };
                        let b0 = if b < i { b } else { b + 1 };
                        assert(self.key_states@[a] == before[a0]);
                        assert(self.key_states@[b] == before[b0]);
                    }
                    assert forall|x: u32| key_set(self.key_states@).contains(x) <==> key_set(before).remove(
                        k,
                    ).contains(x) by {
                        if self.key_states@.contains(x) {
                            let j = choose|j: int| 0 <= j < self.key_states@.len() && self.key_states@[j] == x;
                            let j0 = if j < i { j } else { j + 1 };
                            assert(before[j0] == x);
                            assert(j0 != i);
                        }
                        if x != k && before.contains(x) {
                            let j = choose|j: int| 0 <= j < before.len() && before[j] == x;
                            assert(j != i);
                            if j < i {
                                assert(self.key_states@[j] == x);
                            } else {
                                assert(self.key_states@[j - 1] == x);
                            }
                        }
                    }
                    assert(key_set(self.key_states@) =~= key_set(before).remove(k));
                }
                return;
            }
            i = i + 1;
        }
        assert(!self.key_states@.contains(k));
        assert(self.keys_down() =~= self.keys_down().remove(k));
    }

    /// Takes in a frame's keyboard events: the keys held so far become the
    /// previous ones, then each event presses or releases its key, in order.
    pub fn update(&mut self, events: &Vec<KeyEvent>)
        requires
            old(self).wf(),
        ensures
            final(self).wf(),
            final(self).prev_keys_down() == old(self).keys_down(),
            final(self).keys_down() == apply_key_events(old(self).keys_down(), events@),
    {
        let mut prev: Vec<u32> = Vec::new();
        let mut i: usize = 0;
        while i < self.key_states.len()
            invariant
                i <= self.key_states@.len(),
                prev@ == self.key_states@.take(i as int),
            decreases self.key_states@.len() - i,
        {
            prev.push(self.key_states[i]);
            i = i + 1;
            assert(prev@ =~= self.key_states@.take(i as int));
        }
        assert(self.key_states@.take(self.key_states@.len() as int) =~= self.key_states@);
        self.prev_key_states = prev;
        let ghost start = self.keys_down();
        assert(start == old(self).keys_down());
        let mut e: usize = 0;
        while e < events.len()
            invariant
                self.wf(),
                e <= events@.len(),
                self.prev_keys_down() == start,
                self.keys_down() == apply_key_events(start, events@.take(e as int)),
            decreases events@.len() - e,
        {
            proof {
                assert(events@.take(e + 1).drop_last() =~= events@.take(e as int));
            }
            match events[e] {
                KeyEvent::Pressed(k) => self.press(k),
                KeyEvent::Released(k) => self.release(k),
            }
            e = e + 1;
        }
        assert(events@.take(events@.len() as int) =~= events@);
    }

    /// Whether the key went down since the previous update.
    pub fn key_pressed(&self, key: u32) -> (r: bool)
        ensures
            r == (self.keys_down().contains(key) && !self.prev_keys_down().contains(key)),
    {
        contains_key(&self.key_states, key) && !contains_key(&self.prev_key_states, key)
    }

    /// Whether the key is held.
    pub fn key_down(&self, key: u32) -> (r: bool)
        ensures
            r == self.keys_down().contains(key),
    {
        contains_key(&self.key_states, key)
    }
}

fn contains_key(keys: &Vec<u32>, k: u32) -> (r: bool)
    ensures
        r == key_set(keys@).contains(k),
{
    let mut i: usize = 0;
    while i < keys.len()
        invariant
            i <= keys@.len(),
            forall|j: int| 0 <= j < i ==> keys@[j] != k,
        decreases keys@.len() - i,
    {
        if keys[i] == k {
            assert(keys@[i as int] == k);
            return true;
        }
        i = i + 1;
    }
    false
}

} // verus!
