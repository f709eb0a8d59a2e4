//! The mode catalog: the closed set of display modes, the per-mode pure
//! eligibility rules over `(event context, local wall-clock instant)`, and the
//! priority selector that keeps only the most urgent eligible modes.

use vstd::prelude::*;

use crate::clock::{next_day, next_day_spec, LocalInstant};
use crate::error::SessionError;

verus! {

/// One candidate display behaviour. A closed design constant: the set is not
/// extensible at runtime.
#[derive(Clone, Copy, PartialEq, Eq, Structural, Debug, Hash)]
pub enum Mode {
    BinaryTime,
    CloseWindows,
    HexagesimalTime,
    Logo,
    NewYear,
}

pub open spec fn all_modes_spec() -> Seq<Mode> {
    seq![Mode::BinaryTime, Mode::CloseWindows, Mode::HexagesimalTime, Mode::Logo, Mode::NewYear]
}

/// Every mode, in catalog order.
pub fn all_modes() -> (r: Vec<Mode>)
    ensures
        r@ == all_modes_spec(),
{
    let mut r: Vec<Mode> = Vec::new();
    r.push(Mode::BinaryTime);
    r.push(Mode::CloseWindows);
    r.push(Mode::HexagesimalTime);
    r.push(Mode::Logo);
    r.push(Mode::NewYear);
    proof {
        assert(r@ =~= all_modes_spec());
    }
    r
}

/// Ranking used to prefer programme-critical modes over routine clock
/// display. Total order, low to high: `Fallback < Normal < Programm`.
#[derive(Clone, Copy, PartialEq, Eq, Structural, Debug)]
pub enum Priority {
    Fallback,
    Normal,
    Programm,
}

impl Priority {
    pub open spec fn rank_spec(self) -> int {
        match self {
            Priority::Fallback => 0,
            Priority::Normal => 1,
            Priority::Programm => 2,
        }
    }

    /// The numeric rank of this priority in the total order.
    pub fn rank(self) -> (r: u8)
        ensures
            r as int == self.rank_spec(),
    {
        match self {
            Priority::Fallback => 0,
            Priority::Normal => 1,
            Priority::Programm => 2,
        }
    }
}

/// The fixed texts a `Logo` state can carry. A closed set, like the modes.
#[derive(Clone, Copy, PartialEq, Eq, Structural, Debug)]
pub enum LogoMsg {
    LoadingLoader,
    LoadingLogo,
    Reticulating,
    GettingEvent,
    DeterminingFirstMode,
    NoModesAvailable,
    DownloadingUpdate,
}

impl LogoMsg {
    pub open spec fn text_spec(self) -> Seq<char> {
        match self {
            LogoMsg::LoadingLoader => "loading the loader"@,
            LogoMsg::LoadingLogo => "loading Gefolge logo"@,
            LogoMsg::Reticulating => "reticulating splines"@,
            LogoMsg::GettingEvent => "getting current event"@,
            LogoMsg::DeterminingFirstMode => "determining first mode"@,
            LogoMsg::NoModesAvailable => "no modes available"@,
            LogoMsg::DownloadingUpdate => "downloading update"@,
        }
    }

    /// The text a renderer shows for this message.
    pub fn text(self) -> (r: &'static str)
        ensures
            r@ == self.text_spec(),
    {
        match self {
            LogoMsg::LoadingLoader => "loading the loader",
            LogoMsg::LoadingLogo => "loading Gefolge logo",
            LogoMsg::Reticulating => "reticulating splines",
            LogoMsg::GettingEvent => "getting current event",
            LogoMsg::DeterminingFirstMode => "determining first mode",
            LogoMsg::NoModesAvailable => "no modes available",
            LogoMsg::DownloadingUpdate => "downloading update",
        }
    }
}

/// The minimum live data needed to evaluate modes: the running event's IANA
/// timezone identifier. Absence of a context means "no event is running".
#[derive(Debug, PartialEq, Eq)]
pub struct EventContext {
    pub timezone: String,
}

impl Clone for EventContext {
    fn clone(&self) -> (r: Self)
        ensures
            r == *self,
    {
        EventContext { timezone: self.timezone.clone() }
    }
}

/// The rendering contract: the immutable value handed to the renderer
/// describing exactly what to draw. Replaced wholesale on each emission.
#[derive(Debug, PartialEq, Eq)]
pub enum DisplayState {
    BinaryTime(String),
    CloseWindows(String),
    HexagesimalTime(String),
    NewYear(String),
    Logo { msg: LogoMsg },
    Error(SessionError),
}

impl Clone for DisplayState {
    fn clone(&self) -> (r: Self)
        ensures
            r == *self,
    {
        match self {
            DisplayState::BinaryTime(tz) => DisplayState::BinaryTime(tz.clone()),
            DisplayState::CloseWindows(tz) => DisplayState::CloseWindows(tz.clone()),
            DisplayState::HexagesimalTime(tz) => DisplayState::HexagesimalTime(tz.clone()),
            DisplayState::NewYear(tz) => DisplayState::NewYear(tz.clone()),
            DisplayState::Logo { msg } => DisplayState::Logo { msg: *msg },
            DisplayState::Error(e) => DisplayState::Error(e.clone()),
        }
    }
}

/// One eligible `(mode, priority, state)` tuple, as produced by the catalog.
#[derive(Debug, PartialEq, Eq)]
pub struct Candidate {
    pub mode: Mode,
    pub priority: Priority,
    pub state: DisplayState,
}

impl Clone for Candidate {
    fn clone(&self) -> (r: Self)
        ensures
            r == *self,
    {
        Candidate { mode: self.mode, priority: self.priority, state: self.state.clone() }
    }
}

pub open spec fn ctx_view(ctx: Option<&EventContext>) -> Option<EventContext> {
    match ctx {
        Some(c) => Some(*c),
        None => None,
    }
}

/// Whether the local date's successor day is January 1, i.e. "tomorrow is
/// New Year's Day".
pub open spec fn eve_of_new_year(now: LocalInstant) -> bool {
    let (_, m, d) = next_day_spec(now.year as int, now.month as int, now.day as int);
    m == 1 && d == 1
}

/// The eligibility rule of each mode: `None` when the mode is not eligible
/// now, else its priority and the state to render. Every mode except `Logo`
/// requires a live event context; `Logo` is only ever a fallback and never
/// eligible through the catalog.
pub open spec fn eval_mode_spec(mode: Mode, ctx: Option<EventContext>, now: LocalInstant) -> Option<
    (Priority, DisplayState),
> {
    match ctx {
        None => None,
        Some(c) => match mode {
            Mode::BinaryTime => if eve_of_new_year(now) {
                Some((Priority::Normal, DisplayState::BinaryTime(c.timezone)))
            } else {
                None
            },
            Mode::CloseWindows => if now.hour == 22 && now.minute < 5 {
                Some((Priority::Programm, DisplayState::CloseWindows(c.timezone)))
            } else {
                None
            },
            Mode::HexagesimalTime => Some(
                (Priority::Normal, DisplayState::HexagesimalTime(c.timezone)),
            ),
            Mode::Logo => None,
            Mode::NewYear => if now.month == 1 && now.day == 1 && now.hour == 0 {
                Some((Priority::Programm, DisplayState::NewYear(c.timezone)))
            } else if eve_of_new_year(now) {
                if 86400 - now.seconds_of_day_spec() < 3600 {
                    Some((Priority::Programm, DisplayState::NewYear(c.timezone)))
                } else {
                    Some((Priority::Normal, DisplayState::NewYear(c.timezone)))
                }
            } else {
                None
            },
        },
    }
}

/// Evaluate one mode at a frozen `(context, instant)` pair. Pure: the result
/// is a function of the arguments alone.
pub fn eval_mode(mode: Mode, ctx: Option<&EventContext>, now: &LocalInstant) -> (r: Option<
    (Priority, DisplayState),
>)
    requires
        now.wf(),
    ensures
        r == eval_mode_spec(mode, ctx_view(ctx), *now),
{
    let c = match ctx {
        Some(c) => c,
        None => {
            return None;
        },
    };
    match mode {
        Mode::BinaryTime => {
            let (_, m, d) = next_day(now);
            if m == 1 && d == 1 {
                Some((Priority::Normal, DisplayState::BinaryTime(c.timezone.clone())))
            } else {
                None
            }
        },
        Mode::CloseWindows => {
            if now.hour == 22 && now.minute < 5 {
                Some((Priority::Programm, DisplayState::CloseWindows(c.timezone.clone())))
            } else {
                None
            }
        },
        Mode::HexagesimalTime => Some(
            (Priority::Normal, DisplayState::HexagesimalTime(c.timezone.clone())),
        ),
        Mode::Logo => None,
        Mode::NewYear => {
            if now.month == 1 && now.day == 1 && now.hour == 0 {
                Some((Priority::Programm, DisplayState::NewYear(c.timezone.clone())))
            } else {
                let (_, m, d) = next_day(now);
                if m == 1 && d == 1 {
                    let priority = if now.seconds_to_midnight() < 3600 {
                        Priority::Programm
                    } else {
                        Priority::Normal
                    };
                    Some((priority, DisplayState::NewYear(c.timezone.clone())))
                } else {
                    None
                }
            }
        },
    }
}

/// The catalog result for one mode as a (possibly empty) candidate sequence.
pub open spec fn cand_of(mode: Mode, ctx: Option<EventContext>, now: LocalInstant) -> Seq<
    Candidate,
> {
    match eval_mode_spec(mode, ctx, now) {
        None => Seq::empty(),
        Some((p, s)) => seq![Candidate { mode, priority: p, state: s }],
    }
}

/// Every catalog entry evaluated in order, `None`s discarded.
pub open spec fn candidates_spec(ctx: Option<EventContext>, now: LocalInstant) -> Seq<Candidate> {
    cand_of(Mode::BinaryTime, ctx, now) + cand_of(Mode::CloseWindows, ctx, now) + cand_of(
        Mode::HexagesimalTime,
        ctx,
        now,
    ) + cand_of(Mode::Logo, ctx, now) + cand_of(Mode::NewYear, ctx, now)
}

fn push_candidate(out: &mut Vec<Candidate>, mode: Mode, ctx: Option<&EventContext>, now: &LocalInstant)
    requires
        now.wf(),
    ensures
        final(out)@ == old(out)@ + cand_of(mode, ctx_view(ctx), *now),
{
    match eval_mode(mode, ctx, now) {
        Some((p, s)) => {
            out.push(Candidate { mode, priority: p, state: s });
            proof {
                assert(final(out)@ =~= old(out)@ + cand_of(mode, ctx_view(ctx), *now));
            }
        },
        None => {
            proof {
                assert(final(out)@ =~= old(out)@ + cand_of(mode, ctx_view(ctx), *now));
            }
        },
    }
}

/// Evaluate the whole catalog at a frozen `(context, instant)` pair, in
/// catalog order, keeping only the eligible modes.
pub fn eligible_candidates(ctx: Option<&EventContext>, now: &LocalInstant) -> (r: Vec<Candidate>)
    requires
        now.wf(),
    ensures
        r@ == candidates_spec(ctx_view(ctx), *now),
{
    let mut out: Vec<Candidate> = Vec::new();
    push_candidate(&mut out, Mode::BinaryTime, ctx, now);
    push_candidate(&mut out, Mode::CloseWindows, ctx, now);
    push_candidate(&mut out, Mode::HexagesimalTime, ctx, now);
    push_candidate(&mut out, Mode::Logo, ctx, now);
    push_candidate(&mut out, Mode::NewYear, ctx, now);
    proof {
        assert(out@ =~= candidates_spec(ctx_view(ctx), *now));
    }
    out
}

/// The maximum priority among the candidates; `Fallback` for an empty input,
/// so that downstream falls back to a `Logo` state.
pub open spec fn max_priority_spec(s: Seq<Candidate>) -> Priority
    decreases s.len(),
{
    if s.len() == 0 {
        Priority::Fallback
    } else {
        let rest = max_priority_spec(s.drop_last());
        if s.last().priority.rank_spec() > rest.rank_spec() {
            s.last().priority
        } else {
            rest
        }
    }
}

/// The maximum priority among the given candidates.
pub fn max_priority(cands: &Vec<Candidate>) -> (p: Priority)
    ensures
        p == max_priority_spec(cands@),
{
    let mut p = Priority::Fallback;
    let mut i: usize = 0;
    proof {
        assert(cands@.take(0int) =~= Seq::<Candidate>::empty());
    }
    while i < cands.len()
        invariant
            0 <= i <= cands@.len(),
            p == max_priority_spec(cands@.take(i as int)),
        decreases cands@.len() - i,
    {
        proof {
            assert(cands@.take(i + 1int).drop_last() =~= cands@.take(i as int));
            assert(cands@.take(i + 1int).last() == cands@[i as int]);
        }
        if cands[i].priority.rank() > p.rank() {
            p = cands[i].priority;
        }
        i = i + 1;
    }
    proof {
        assert(cands@.take(cands@.len() as int) =~= cands@);
    }
    p
}

/// The candidates whose priority equals the maximum of the whole sequence
/// (ties all retained).
pub open spec fn keep_max_spec(s: Seq<Candidate>) -> Seq<Candidate> {
    s.filter(|c: Candidate| c.priority == max_priority_spec(s))
}

/// Keep exactly the maximal-priority candidates, in order.
pub fn retain_max(cands: Vec<Candidate>) -> (r: Vec<Candidate>)
    ensures
        r@ == keep_max_spec(cands@),
{
    let ghost pred = |c: Candidate| c.priority == max_priority_spec(cands@);
    let top = max_priority(&cands);
    let mut out: Vec<Candidate> = Vec::new();
    let mut i: usize = 0;
    proof {
        reveal(Seq::filter);
        assert(cands@.take(0int) =~= Seq::<Candidate>::empty());
        assert(cands@.take(0int).filter(pred) =~= Seq::<Candidate>::empty());
    }
    while i < cands.len()
        invariant
            0 <= i <= cands@.len(),
            top == max_priority_spec(cands@),
            out@ == cands@.take(i as int).filter(pred),
            pred == (|c: Candidate| c.priority == max_priority_spec(cands@)),
        decreases cands@.len() - i,
    {
        proof {
            reveal(Seq::filter);
            let one = seq![cands@[i as int]];
            assert(cands@.take(i + 1int) =~= cands@.take(i as int) + one);
            Seq::<Candidate>::filter_distributes_over_add(cands@.take(i as int), one, pred);
            assert(one.drop_last() =~= Seq::<Candidate>::empty());
            assert(Seq::<Candidate>::empty().filter(pred) =~= Seq::<Candidate>::empty());
            assert(one.len() == 1 && one.last() == cands@[i as int]);
            if pred(cands@[i as int]) {
                assert(one.filter(pred) =~= seq![cands@[i as int]]);
            } else {
                assert(one.filter(pred) =~= Seq::<Candidate>::empty());
            }
        }
        if cands[i].priority == top {
            out.push(cands[i].clone());
        }
        i = i + 1;
    }
    proof {
        assert(cands@.take(cands@.len() as int) =~= cands@);
    }
    out
}

/// The maximum is attained: some candidate carries the maximal priority.
proof fn lemma_max_priority_attained(s: Seq<Candidate>)
    requires
        s.len() > 0,
    ensures
        exists|i: int| 0 <= i < s.len() && (#[trigger] s[i]).priority == max_priority_spec(s),
    decreases s.len(),
{
    if s.len() == 1 {
        assert(s[0] == s.last());
        assert(s[0].priority == max_priority_spec(s));
    } else {
        let rest = max_priority_spec(s.drop_last());
        if s.last().priority.rank_spec() > rest.rank_spec() {
            assert(s[s.len() - 1].priority == max_priority_spec(s));
        } else {
            lemma_max_priority_attained(s.drop_last());
            let i = choose|i: int|
                0 <= i < s.drop_last().len() && (#[trigger] s.drop_last()[i]).priority == rest;
            assert(s[i].priority == max_priority_spec(s));
        }
    }
}

/// The selector never discards everything: a nonempty candidate sequence
/// keeps at least its maximal-priority members.
pub proof fn lemma_selector_nonempty(s: Seq<Candidate>)
    requires
        s.len() > 0,
    ensures
        keep_max_spec(s).len() > 0,
{
    lemma_max_priority_attained(s);
    let i = choose|i: int| 0 <= i < s.len() && (#[trigger] s[i]).priority == max_priority_spec(s);
    s.lemma_filter_contains(|c: Candidate| c.priority == max_priority_spec(s), i);
}

/// Outside the New Year window (neither Dec 31 nor Jan 1 in the local
/// calendar), `NewYear` and `BinaryTime` are never eligible, while
/// `HexagesimalTime` is eligible whenever a live event context exists.
pub proof fn lemma_quiet_day_modes(ctx: Option<EventContext>, now: LocalInstant)
    requires
        now.wf(),
        !(now.month == 12 && now.day == 31),
        !(now.month == 1 && now.day == 1),
    ensures
        eval_mode_spec(Mode::NewYear, ctx, now) is None,
        eval_mode_spec(Mode::BinaryTime, ctx, now) is None,
        ctx is Some ==> eval_mode_spec(Mode::HexagesimalTime, ctx, now) is Some,
{
    crate::clock::lemma_next_day_new_year(now);
}

/// The catalog is idempotent: two evaluations of the same mode at the same
/// frozen `(context, instant)` pair yield identical results.
pub proof fn lemma_catalog_idempotent(
    mode: Mode,
    ctx: Option<EventContext>,
    now: LocalInstant,
    r1: Option<(Priority, DisplayState)>,
    r2: Option<(Priority, DisplayState)>,
)
    requires
        r1 == eval_mode_spec(mode, ctx, now),
        r2 == eval_mode_spec(mode, ctx, now),
    ensures
        r1 == r2,
{
}

} // verus!
