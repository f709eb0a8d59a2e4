//! The anti-repetition rotator: a memory of recently shown modes, cleared
//! whenever it would otherwise cover the whole max-priority eligible set, so
//! that no eligible mode starves and every one is shown once per rotation
//! cycle before any repeats.

use vstd::prelude::*;
use vstd::set_lib::lemma_len_subset;

use crate::modes::Mode;

verus! {

/// The set of modes already shown in the current rotation cycle. Scoped to
/// one session run.
pub struct SeenModes {
    binary_time: bool,
    close_windows: bool,
    hexagesimal_time: bool,
    logo: bool,
    new_year: bool,
}

impl SeenModes {
    pub closed spec fn contains_spec(self, m: Mode) -> bool {
        match m {
            Mode::BinaryTime => self.binary_time,
            Mode::CloseWindows => self.close_windows,
            Mode::HexagesimalTime => self.hexagesimal_time,
            Mode::Logo => self.logo,
            Mode::NewYear => self.new_year,
        }
    }
}

impl View for SeenModes {
    type V = Set<Mode>;

    closed spec fn view(&self) -> Set<Mode> {
        Set::new(|m: Mode| self.contains_spec(m))
    }
}

impl SeenModes {
    /// An empty memory: no mode has been shown yet.
    pub fn new() -> (r: Self)
        ensures
            r@ == Set::<Mode>::empty(),
    {
        let r = SeenModes {
            binary_time: false,
            close_windows: false,
            hexagesimal_time: false,
            logo: false,
            new_year: false,
        };
        proof {
            assert(r@ =~= Set::<Mode>::empty());
        }
        r
    }

    /// Whether the given mode has been shown this cycle.
    pub fn contains(&self, m: Mode) -> (r: bool)
        ensures
            r == self@.contains(m),
    {
        match m {
            Mode::BinaryTime => self.binary_time,
            Mode::CloseWindows => self.close_windows,
            Mode::HexagesimalTime => self.hexagesimal_time,
            Mode::Logo => self.logo,
            Mode::NewYear => self.new_year,
        }
    }

    /// Record a mode as shown.
    pub fn insert(&mut self, m: Mode)
        ensures
            final(self)@ == old(self)@.insert(m),
    {
        match m {
            Mode::BinaryTime => self.binary_time = true,
            Mode::CloseWindows => self.close_windows = true,
            Mode::HexagesimalTime => self.hexagesimal_time = true,
            Mode::Logo => self.logo = true,
            Mode::NewYear => self.new_year = true,
        }
        proof {
            assert(final(self)@ =~= old(self)@.insert(m));
        }
    }

    /// Forget every shown mode, starting a new rotation cycle.
    pub fn clear(&mut self)
        ensures
            final(self)@ == Set::<Mode>::empty(),
    {
        self.binary_time = false;
        self.close_windows = false;
        self.hexagesimal_time = false;
        self.logo = false;
        self.new_year = false;
        proof {
            assert(final(self)@ =~= Set::<Mode>::empty());
        }
    }
}

/// One rotator selection over the max-priority eligible set `elig`: while
/// some eligible mode is still unseen, the pick is one of those and is
/// recorded; once every eligible mode has been seen, the memory is cleared
/// and the pick (any eligible mode) starts the next cycle.
pub open spec fn rotor_step(elig: Set<Mode>, seen0: Set<Mode>, pick: Mode, seen1: Set<Mode>) -> bool {
    &&& elig.contains(pick)
    &&& if !elig.subset_of(seen0) {
        !seen0.contains(pick) && seen1 == seen0.insert(pick)
    } else {
        seen1 == Set::<Mode>::empty().insert(pick)
    }
}

proof fn lemma_rotation_prefix(elig: Set<Mode>, seens: Seq<Set<Mode>>, picks: Seq<Mode>, k: int)
    requires
        elig.finite(),
        picks.len() <= elig.len(),
        seens.len() == picks.len() + 1,
        seens[0].intersect(elig) == Set::<Mode>::empty(),
        forall|i: int|
            0 <= i < picks.len() ==> #[trigger] rotor_step(elig, seens[i], picks[i], seens[i + 1]),
        0 <= k <= picks.len(),
    ensures
        seens[k].intersect(elig) == picks.take(k).to_set(),
        picks.take(k).to_set().len() == k,
        picks.take(k).to_set().subset_of(elig),
        forall|i: int, j: int| 0 <= i < j < k ==> picks[i] != picks[j],
    decreases k,
{
    if k == 0 {
        assert(picks.take(0).to_set() =~= Set::<Mode>::empty()) by {
            assert(forall|m: Mode| !picks.take(0).contains(m));
        }
    } else {
        lemma_rotation_prefix(elig, seens, picks, k - 1);
        let prev = picks.take(k - 1).to_set();
        let pick = picks[k - 1];
        assert(rotor_step(elig, seens[k - 1], picks[k - 1], seens[(k - 1) + 1]));
        assert(rotor_step(elig, seens[k - 1], pick, seens[k]));
        // Fewer than `elig.len()` distinct eligible modes have been shown, so
        // the memory cannot yet cover the whole eligible set.
        assert(!elig.subset_of(seens[k - 1])) by {
            if elig.subset_of(seens[k - 1]) {
                assert(elig.subset_of(seens[k - 1].intersect(elig)));
                lemma_len_subset(elig, prev);
            }
        }
        assert(!seens[k - 1].contains(pick) && seens[k] == seens[k - 1].insert(pick));
        assert(!prev.contains(pick)) by {
            if prev.contains(pick) {
                assert(seens[k - 1].intersect(elig).contains(pick));
            }
        }
        assert(picks.take(k).to_set() =~= prev.insert(pick)) by {
            assert(picks.take(k).drop_last() =~= picks.take(k - 1));
            assert(forall|m: Mode| #[trigger] picks.take(k).contains(m) <==> (picks.take(k - 1).contains(m) || m == pick)) by {
                assert(forall|i: int| 0 <= i < k - 1 ==> picks.take(k)[i] == picks.take(k - 1)[i]);
                assert(picks.take(k)[k - 1] == pick);
            }
        }
        assert(seens[k].intersect(elig) =~= prev.insert(pick));
        assert(prev.insert(pick).len() == k) by {
            lemma_len_subset(prev, elig);
        }
        assert(forall|i: int, j: int| 0 <= i < j < k ==> picks[i] != picks[j]) by {
            assert(forall|i: int| 0 <= i < k - 1 ==> prev.contains(#[trigger] picks[i])) by {
                assert(forall|i: int| 0 <= i < k - 1 ==> picks.take(k - 1)[i] == picks[i]);
            }
        }
    }
}

/// The rotation-cycle law: starting from a memory that remembers none of the
/// currently eligible max-priority modes, a window of `N = elig.len()`
/// consecutive rotator selections (eligibility unchanged throughout) shows
/// every eligible mode exactly once — each member appears, and none repeats
/// before all others have appeared.
pub proof fn lemma_rotation_cycle(elig: Set<Mode>, seens: Seq<Set<Mode>>, picks: Seq<Mode>)
    requires
        elig.finite(),
        elig.len() >= 1,
        picks.len() == elig.len(),
        seens.len() == picks.len() + 1,
        seens[0].intersect(elig) == Set::<Mode>::empty(),
        forall|i: int|
            0 <= i < picks.len() ==> #[trigger] rotor_step(elig, seens[i], picks[i], seens[i + 1]),
    ensures
        picks.to_set() == elig,
        forall|i: int, j: int| 0 <= i < j < picks.len() ==> picks[i] != picks[j],
{
    let n = picks.len() as int;
    lemma_rotation_prefix(elig, seens, picks, n);
    assert(picks.take(n) =~= picks);
    let shown = picks.to_set();
    assert forall|m: Mode| elig.contains(m) implies shown.contains(m) by {
        if !shown.contains(m) {
            assert(shown.subset_of(elig.remove(m)));
            lemma_len_subset(shown, elig.remove(m));
        }
    }
    assert(shown =~= elig);
}

} // verus!
