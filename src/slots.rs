//! The wave slots of the control panel: a fixed number of slots, of which a
//! leading run is in use. "Add Wave" takes the first free slot.
use vstd::prelude::*;

verus! {

/// Number of wave slots.
pub const MAX_WAVES: usize = 8;

/// Number of slots in use in `s`.
pub open spec fn count_active(s: Seq<bool>) -> nat
    decreases s.len(),
{
    if s.len() == 0 {
        0
    } else {
        count_active(s.drop_last()) + if s.last() {
            1nat
        } else {
            0nat
        }
    }
}

/// Every slot before a slot in use is in use too.
pub open spec fn is_prefix_run(s: Seq<bool>) -> bool {
    forall|i: int, j: int| 0 <= i < j < s.len() && #[trigger] s[j] ==> #[trigger] s[i]
}

/// The first free slot of `s`, if any.
pub open spec fn first_free_of(s: Seq<bool>) -> Option<int> {
    if exists|i: int| 0 <= i < s.len() && !s[i] {
        Some(choose|i: int| 0 <= i < s.len() && !s[i] && forall|j: int| 0 <= j < i ==> s[j])
    } else {
        None
    }
}

/// Which of the wave slots are in use.
pub struct WaveSlots {
    active: Vec<bool>,
}

impl View for WaveSlots {
    type V = Seq<bool>;

    closed spec fn view(&self) -> Seq<bool> {
        self.active@
    }
}

/// In a run of slots in use, a slot is in use exactly when it stands before
/// the number of slots in use.
pub proof fn lemma_prefix_run_count(s: Seq<bool>)
    requires
        is_prefix_run(s),
    ensures
        count_active(s) <= s.len(),
        forall|i: int| 0 <= i < s.len() ==> (s[i] <==> i < count_active(s)),
    decreases s.len(),
{
    if s.len() > 0 {
        let t = s.drop_last();
        assert(is_prefix_run(t)) by {
            assert forall|i: int, j: int| 0 <= i < j < t.len() && #[trigger] t[j] implies #[trigger] t[i] by {
                assert(s[j] && s[i]);
            }
        }
        lemma_prefix_run_count(t);
        assert(forall|i: int| 0 <= i < t.len() ==> t[i] == s[i]);
        if s.last() {
            assert forall|i: int| 0 <= i < t.len() implies t[i] by {
                assert(s[i]);
            }
            if count_active(t) < t.len() {
                let k = count_active(t) as int;
                assert(t[k]);
            }
            assert(count_active(s) == s.len());
        } else {
            assert(count_active(s) == count_active(t));
            assert forall|i: int| 0 <= i < s.len() implies (s[i] <==> i < count_active(s)) by {
                if i < t.len() {
                    assert(t[i] == s[i]);
                }
            }
        }
    }
}

/// In a run of slots in use, the first free slot is the number of slots in use.
proof fn lemma_first_free_is_count(s: Seq<bool>, i: int)
    requires
        is_prefix_run(s),
        0 <= i < s.len(),
        !s[i],
        forall|j: int| 0 <= j < i ==> s[j],
    ensures
        count_active(s) == i,
{
    lemma_prefix_run_count(s);
    let c = count_active(s) as int;
    if c < i {
        assert(s[c]);
    }
}

impl WaveSlots {
    /// Slot 0 is in use, the slots in use form a leading run, and the number
    /// of slots is fixed.
    pub open spec fn wf(&self) -> bool {
        &&& self@.len() == MAX_WAVES
        &&& self@[0]
        &&& is_prefix_run(self@)
    }

    /// The slots at start: the first in use, the others free.
    pub fn new() -> (r: Self)
        ensures
            r.wf(),
            r@ == Seq::new(MAX_WAVES as nat, |i: int| i == 0),
    {
        let mut active: Vec<bool> = Vec::new();
        active.push(true);
        let mut i: usize = 1;
        while i < MAX_WAVES
            invariant
                1 <= i <= MAX_WAVES,
                active@ == Seq::new(i as nat, |k: int| k == 0),
            decreases MAX_WAVES - i,
        {
            active.push(false);
            i = i + 1;
            assert(active@ =~= Seq::new(i as nat, |k: int| k == 0));
        }
        WaveSlots { active }
    }

    pub fn capacity(&self) -> (r: usize)
        requires
            self.wf(),
        ensures
            r == self@.len(),
    {
        self.active.len()
    }

    /// Whether slot `i` is in use.
    pub fn is_active(&self, i: usize) -> (r: bool)
        requires
            self.wf(),
            i < MAX_WAVES,
        ensures
            r == self@[i as int],
    {
        self.active[i]
    }

    /// The first free slot, or `None` when every slot is in use.
    pub fn first_free(&self) -> (r: Option<usize>)
        requires
            self.wf(),
        ensures
            r matches Some(i) ==> first_free_of(self@) == Some(i as int),
            r is None ==> first_free_of(self@) is None,
            r matches Some(i) ==> i < MAX_WAVES && !self@[i as int] && forall|j: int|
                0 <= j < i ==> self@[j],
            r is None <==> forall|j: int| 0 <= j < MAX_WAVES ==> self@[j],
    {
        let mut i: usize = 0;
        while i < self.active.len()
            invariant
                self.wf(),
                0 <= i <= MAX_WAVES,
                forall|j: int| 0 <= j < i ==> self@[j],
            decreases MAX_WAVES - i,
        {
            if !self.active[i] {
                proof {
                    let s = self@;
                    assert(exists|k: int| 0 <= k < s.len() && !s[k]);
                    let c = choose|k: int| 0 <= k < s.len() && !s[k] && forall|j: int| 0 <= j < k ==> s[j];
                    if c < i {
                        assert(s[c]);
                    } else if c > i {
                        assert(s[i as int]);
                    }
                }
                return Some(i);
            }
            i = i + 1;
        }
        None
    }

    /// Number of slots in use.
    pub fn active_count(&self) -> (r: usize)
        requires
            self.wf(),
        ensures
            r == count_active(self@),
            1 <= r <= MAX_WAVES,
            forall|i: int| 0 <= i < MAX_WAVES ==> (self@[i] <==> i < r),
    {
        proof {
            lemma_prefix_run_count(self@);
        }
        match self.first_free() {
            Some(i) => {
                proof {
                    lemma_first_free_is_count(self@, i as int);
                }
                i
            },
            None => {
                assert(self@[MAX_WAVES - 1]);
                MAX_WAVES
            },
        }
    }

    /// Number of wave instances to draw: one per slot in use.
    pub fn instance_count(&self) -> (r: u32)
        requires
            self.wf(),
        ensures
            r == count_active(self@),
    {
        self.active_count() as u32
    }

    /// Puts the first free slot in use and returns it; returns `None` and
    /// changes nothing when every slot is in use.
    pub fn add_wave(&mut self) -> (r: Option<usize>)
        requires
            old(self).wf(),
        ensures
            final(self).wf(),
            r matches Some(i) ==> first_free_of(old(self)@) == Some(i as int)
                && final(self)@ == old(self)@.update(i as int, true),
            r is None ==> first_free_of(old(self)@) is None && final(self)@ == old(self)@,
            r matches Some(i) ==> i < MAX_WAVES && !old(self)@[i as int] && forall|j: int|
                0 <= j < i ==> old(self)@[j],
            r is None <==> forall|j: int| 0 <= j < MAX_WAVES ==> old(self)@[j],
            count_active(final(self)@) == if r is Some {
                count_active(old(self)@) + 1
            } else {
                count_active(old(self)@)
            },
    {
        match self.first_free() {
            Some(i) => {
                self.active.set(i, true);
                proof {
                    let s = old(self)@;
                    let t = self@;
                    lemma_prefix_run_count(s);
                    assert(is_prefix_run(t)) by {
                        assert forall|a: int, b: int| 0 <= a < b < t.len() && #[trigger] t[b] implies #[trigger] t[a] by {
                            if b != i {
                                assert(s[b]);
                                assert(s[a]);
                            }
                        }
                    }
                    lemma_prefix_run_count(t);
                    lemma_first_free_is_count(s, i as int);
                    if count_active(t) != i + 1 {
                        if count_active(t) <= i {
                            assert(t[i as int]);
                        } else {
                            assert(t[i + 1]);
                            assert(s[i + 1]);
                        }
                    }
                }
                Some(i)
            },
            None => None,
        }
    }
}

} // verus!
