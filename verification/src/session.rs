//! The session core: a state machine from `Initializing` through `Running`
//! to `Terminated`. Inbound protocol messages update the event context or
//! trigger the update check; a fatal message or a broken stream terminates
//! the session after one final error emission; on each periodic tick the
//! catalog, the priority selector and the rotator pick the state to emit.

use vstd::prelude::*;

use crate::clock::{local_of, zone_known, UTC_MAX};
use crate::error::SessionError;
use crate::modes::{
    candidates_spec, eligible_candidates, keep_max_spec, retain_max, Candidate, DisplayState,
    EventContext, LogoMsg, Mode,
};
use crate::rng::{rng_below, rng_from_seed};
use crate::rotation::{rotor_step, SeenModes};
use crate::version::Version;

verus! {

/// The lifecycle of one session run.
#[derive(Clone, Copy, PartialEq, Eq, Structural, Debug)]
pub enum Phase {
    /// Before the handshake has produced a first event answer.
    Initializing,
    /// Ticking and listening; the steady state.
    Running,
    /// A fatal error was emitted; the session does nothing further.
    Terminated,
}

/// An inbound protocol message, as the transport hands it over.
#[derive(Debug, PartialEq, Eq)]
pub enum ServerMessage {
    /// Heartbeat; consumed and ignored.
    Ping,
    /// An explicit server-side error; fatal.
    Error { debug: String, display: String },
    /// No event is currently running.
    NoEvent,
    /// An event is running; `id` is informational only.
    CurrentEvent { id: String, timezone: String },
    /// The newest available build of this program.
    LatestVersion(Version),
}

/// An outbound protocol message, produced once at session start.
#[derive(Debug, PartialEq, Eq)]
pub enum ClientMessage {
    Auth { api_key: String },
    CurrentEvent,
}

/// A side effect the caller must perform on the session's behalf.
#[derive(Clone, Copy, PartialEq, Eq, Structural, Debug)]
pub enum Effect {
    /// Run the update check against the reported latest version.
    UpdateCheck(Version),
}

/// What one session step asks of its caller: at most one state to emit to
/// the renderer and at most one side effect to run.
#[derive(Debug, PartialEq, Eq)]
pub struct StepOutput {
    pub emit: Option<DisplayState>,
    pub effect: Option<Effect>,
}

/// The two outbound messages of the handshake, in order: authenticate, then
/// subscribe to the current event.
pub fn handshake_requests(api_key: String) -> (r: Vec<ClientMessage>)
    ensures
        r@ == seq![ClientMessage::Auth { api_key }, ClientMessage::CurrentEvent],
{
    let mut r: Vec<ClientMessage> = Vec::new();
    r.push(ClientMessage::Auth { api_key });
    r.push(ClientMessage::CurrentEvent);
    proof {
        assert(r@ =~= seq![ClientMessage::Auth { api_key }, ClientMessage::CurrentEvent]);
    }
    r
}

/// The fallback state emitted when no mode is eligible.
pub open spec fn no_modes_state() -> DisplayState {
    DisplayState::Logo { msg: LogoMsg::NoModesAvailable }
}

/// The state emitted when the handshake first settles the event question.
pub open spec fn first_mode_state() -> DisplayState {
    DisplayState::Logo { msg: LogoMsg::DeterminingFirstMode }
}

/// The max-priority eligible candidates for a tick at `utc` seconds: the
/// whole catalog evaluated in the context's local calendar, reduced to the
/// maximal priority. No context, or a context whose zone the database does
/// not know, offers no candidates.
pub open spec fn tick_candidates(ctx: Option<EventContext>, utc: int) -> Seq<Candidate> {
    match ctx {
        None => Seq::empty(),
        Some(c) => match local_of(c.timezone@, utc) {
            None => Seq::empty(),
            Some(loc) => keep_max_spec(candidates_spec(Some(c), loc)),
        },
    }
}

/// The set of modes appearing in a candidate sequence.
pub open spec fn modes_of(s: Seq<Candidate>) -> Set<Mode> {
    Set::new(|m: Mode| exists|j: int| 0 <= j < s.len() && (#[trigger] s[j]).mode == m)
}

/// The modes of a candidate sequence form a finite set, no larger than the
/// whole closed catalog.
pub proof fn lemma_modes_of_finite(s: Seq<Candidate>)
    ensures
        modes_of(s).finite(),
        modes_of(s).len() <= 5,
{
    let all = set![
        Mode::BinaryTime,
        Mode::CloseWindows,
        Mode::HexagesimalTime,
        Mode::Logo,
        Mode::NewYear,
    ];
    assert forall|m: Mode| modes_of(s).contains(m) implies all.contains(m) by {
        match m {
            Mode::BinaryTime => assert(all.contains(m)),
            Mode::CloseWindows => assert(all.contains(m)),
            Mode::HexagesimalTime => assert(all.contains(m)),
            Mode::Logo => assert(all.contains(m)),
            Mode::NewYear => assert(all.contains(m)),
        }
    }
    vstd::set_lib::lemma_len_subset(modes_of(s), all);
}

/// Whether some candidate's mode is not yet in the rotation memory.
pub open spec fn has_unseen(s: Seq<Candidate>, seen: Set<Mode>) -> bool {
    exists|j: int| 0 <= j < s.len() && !seen.contains(#[trigger] s[j].mode)
}

/// The rotator's candidate pool: the not-yet-seen candidates while any
/// remain, else (a fresh cycle) the whole max-priority set.
pub open spec fn pool_spec(keep: Seq<Candidate>, seen: Set<Mode>) -> Seq<Candidate> {
    if has_unseen(keep, seen) {
        keep.filter(|c: Candidate| !seen.contains(c.mode))
    } else {
        keep
    }
}

/// With no event context, a tick offers no candidates, whatever the instant
/// and whatever the rotation memory: the only state such a session ever
/// emits from a tick is the `Logo` fallback.
pub proof fn lemma_no_context_only_logo(utc: int, seen: Set<Mode>)
    ensures
        tick_candidates(None, utc).len() == 0,
        pool_spec(tick_candidates(None, utc), seen).len() == 0,
{
}

/// The dual liveness law: with a live event context whose zone converts,
/// every tick offers at least one candidate — `HexagesimalTime` is always
/// eligible — so a session with a running event never falls back to the
/// `Logo` state, whatever the rotation memory holds.
pub proof fn lemma_live_context_always_offers(c: EventContext, utc: int, seen: Set<Mode>)
    requires
        local_of(c.timezone@, utc) is Some,
    ensures
        tick_candidates(Some(c), utc).len() > 0,
        pool_spec(tick_candidates(Some(c), utc), seen).len() > 0,
{
    let loc = local_of(c.timezone@, utc).unwrap();
    let cands = candidates_spec(Some(c), loc);
    assert(crate::modes::cand_of(Mode::HexagesimalTime, Some(c), loc).len() == 1);
    assert(cands.len() > 0);
    crate::modes::lemma_selector_nonempty(cands);
    let keep = tick_candidates(Some(c), utc);
    if has_unseen(keep, seen) {
        let j = choose|j: int| 0 <= j < keep.len() && !seen.contains((#[trigger] keep[j]).mode);
        keep.lemma_filter_contains(|cand: Candidate| !seen.contains(cand.mode), j);
    }
}

fn any_unseen(seen: &SeenModes, cands: &Vec<Candidate>) -> (r: bool)
    ensures
        r == has_unseen(cands@, seen@),
{
    let mut i: usize = 0;
    while i < cands.len()
        invariant
            0 <= i <= cands@.len(),
            forall|k: int| 0 <= k < i ==> seen@.contains(#[trigger] cands@[k].mode),
        decreases cands@.len() - i,
    {
        if !seen.contains(cands[i].mode) {
            return true;
        }
        i = i + 1;
    }
    false
}

fn filter_unseen(cands: &Vec<Candidate>, seen: &SeenModes) -> (r: Vec<Candidate>)
    ensures
        r@ == cands@.filter(|c: Candidate| !seen@.contains(c.mode)),
        forall|k: int| 0 <= k < r@.len() ==> cands@.contains(#[trigger] r@[k]),
{
    let ghost pred = |c: Candidate| !seen@.contains(c.mode);
    let mut out: Vec<Candidate> = Vec::new();
    let mut i: usize = 0;
    proof {
        reveal(Seq::filter);
        assert(cands@.take(0int) =~= Seq::<Candidate>::empty());
        assert(cands@.take(0int).filter(pred) =~= Seq::<Candidate>::empty());
    }
    while i < cands.len()
        invariant
            0 <= i <= cands@.len(),
            out@ == cands@.take(i as int).filter(pred),
            pred == (|c: Candidate| !seen@.contains(c.mode)),
            forall|k: int| 0 <= k < out@.len() ==> cands@.contains(#[trigger] out@[k]),
        decreases cands@.len() - i,
    {
        proof {
            reveal(Seq::filter);
            let one = seq![cands@[i as int]];
            assert(cands@.take(i + 1int) =~= cands@.take(i as int) + one);
            Seq::<Candidate>::filter_distributes_over_add(cands@.take(i as int), one, pred);
            assert(one.drop_last() =~= Seq::<Candidate>::empty());
            assert(Seq::<Candidate>::empty().filter(pred) =~= Seq::<Candidate>::empty());
            assert(one.len() == 1 && one.last() == cands@[i as int]);
            if pred(cands@[i as int]) {
                assert(one.filter(pred) =~= seq![cands@[i as int]]);
            } else {
                assert(one.filter(pred) =~= Seq::<Candidate>::empty());
            }
        }
        if !seen.contains(cands[i].mode) {
            out.push(cands[i].clone());
        }
        i = i + 1;
    }
    proof {
        assert(cands@.take(cands@.len() as int) =~= cands@);
    }
    out
}

/// One session: the event context, the rotation memory and the generator it
/// owns exclusively, plus its lifecycle phase.
pub struct Session {
    phase: Phase,
    current_event: Option<EventContext>,
    seen: SeenModes,
    rng: rand::rngs::SmallRng,
}

impl Session {
    /// The lifecycle phase.
    pub closed spec fn phase(&self) -> Phase {
        self.phase
    }

    /// The current event context, `None` while no event is running.
    pub closed spec fn ctx(&self) -> Option<EventContext> {
        self.current_event
    }

    /// The modes already shown in the current rotation cycle.
    pub closed spec fn seen_set(&self) -> Set<Mode> {
        self.seen@
    }

    /// A fresh session: initializing, no context, nothing seen.
    pub fn new(seed: u64) -> (r: Session)
        ensures
            r.phase() == Phase::Initializing,
            r.ctx() is None,
            r.seen_set() == Set::<Mode>::empty(),
    {
        Session {
            phase: Phase::Initializing,
            current_event: None,
            seen: SeenModes::new(),
            rng: rng_from_seed(seed),
        }
    }

    /// The lifecycle phase, for the loop that drives the session.
    pub fn current_phase(&self) -> (r: Phase)
        ensures
            r == self.phase(),
    {
        self.phase
    }

    /// The cosmetic startup flourish: with probability about one in ten,
    /// a randomized delay in milliseconds; else nothing. Touches only the
    /// generator.
    pub fn startup_dawdle(&mut self) -> (r: Option<u64>)
        ensures
            r matches Some(ms) ==> 500 <= ms < 1500,
            final(self).phase() == old(self).phase(),
            final(self).ctx() == old(self).ctx(),
            final(self).seen_set() == old(self).seen_set(),
    {
        let roll = rng_below(&mut self.rng, 10);
        if roll == 0 {
            let ms = rng_below(&mut self.rng, 1000);
            Some(500 + ms as u64)
        } else {
            None
        }
    }

    /// Record a fatal error of the caller's own (connection loss, a failed
    /// config load, a failed channel send): the session terminates and the
    /// error becomes the one final emission.
    pub fn fail(&mut self, e: SessionError) -> (out: StepOutput)
        ensures
            final(self).phase() == Phase::Terminated,
            final(self).ctx() == old(self).ctx(),
            final(self).seen_set() == old(self).seen_set(),
            out.effect is None,
            old(self).phase() == Phase::Terminated ==> out.emit is None,
            old(self).phase() != Phase::Terminated ==> out.emit == Some(DisplayState::Error(e)),
    {
        if self.phase == Phase::Terminated {
            return StepOutput { emit: None, effect: None };
        }
        self.phase = Phase::Terminated;
        StepOutput { emit: Some(DisplayState::Error(e)), effect: None }
    }

    /// The stream ended where a message was expected: fatal.
    pub fn on_stream_end(&mut self) -> (out: StepOutput)
        ensures
            final(self).ctx() == old(self).ctx(),
            final(self).seen_set() == old(self).seen_set(),
            old(self).phase() == Phase::Terminated ==> final(self).phase() == Phase::Terminated
                && out.emit is None && out.effect is None,
            old(self).phase() != Phase::Terminated ==> final(self).phase() == Phase::Terminated
                && out.emit == Some(DisplayState::Error(SessionError::EndOfStream))
                && out.effect is None,
    {
        if self.phase == Phase::Terminated {
            return StepOutput { emit: None, effect: None };
        }
        self.phase = Phase::Terminated;
        StepOutput { emit: Some(DisplayState::Error(SessionError::EndOfStream)), effect: None }
    }

    /// Consume one inbound protocol message.
    ///
    /// A terminated session ignores everything and emits nothing further: in
    /// particular, once a server error has been emitted, no later state
    /// follows it. A heartbeat changes nothing. A server error terminates
    /// the session, its display text preserved in the emitted error state.
    /// An event answer replaces the context wholesale and, the first time,
    /// moves the session from `Initializing` to `Running`. An event answer
    /// naming an unknown timezone is a malformed message: fatal. A version
    /// report asks the caller to run the update check and changes nothing
    /// else.
    pub fn on_message(&mut self, msg: ServerMessage) -> (out: StepOutput)
        ensures
            old(self).phase() == Phase::Terminated ==> final(self).phase() == Phase::Terminated
                && final(self).ctx() == old(self).ctx()
                && final(self).seen_set() == old(self).seen_set()
                && out.emit is None && out.effect is None,
            old(self).phase() != Phase::Terminated ==> final(self).seen_set()
                == old(self).seen_set(),
            old(self).phase() != Phase::Terminated ==> match msg {
                ServerMessage::Ping => {
                    &&& final(self).phase() == old(self).phase()
                    &&& final(self).ctx() == old(self).ctx()
                    &&& out.emit is None
                    &&& out.effect is None
                },
                ServerMessage::Error { debug, display } => {
                    &&& final(self).phase() == Phase::Terminated
                    &&& final(self).ctx() == old(self).ctx()
                    &&& out.emit == Some(
                        DisplayState::Error(SessionError::ServerReported { debug, display }),
                    )
                    &&& out.effect is None
                },
                ServerMessage::NoEvent => {
                    &&& final(self).phase() == Phase::Running
                    &&& final(self).ctx() is None
                    &&& out.effect is None
                    &&& out.emit == (if old(self).phase() == Phase::Initializing {
                        Some(first_mode_state())
                    } else {
                        Option::<DisplayState>::None
                    })
                },
                ServerMessage::CurrentEvent { id: _, timezone } => if zone_known(timezone@) {
                    &&& final(self).phase() == Phase::Running
                    &&& final(self).ctx() == Some(EventContext { timezone })
                    &&& out.effect is None
                    &&& out.emit == (if old(self).phase() == Phase::Initializing {
                        Some(first_mode_state())
                    } else {
                        Option::<DisplayState>::None
                    })
                } else {
                    &&& final(self).phase() == Phase::Terminated
                    &&& final(self).ctx() == old(self).ctx()
                    &&& out.emit == Some(
                        DisplayState::Error(SessionError::ProtocolRead { detail: timezone }),
                    )
                    &&& out.effect is None
                },
                ServerMessage::LatestVersion(v) => {
                    &&& final(self).phase() == old(self).phase()
                    &&& final(self).ctx() == old(self).ctx()
                    &&& out.emit is None
                    &&& out.effect == Some(Effect::UpdateCheck(v))
                },
            },
    {
        if self.phase == Phase::Terminated {
            return StepOutput { emit: None, effect: None };
        }
        match msg {
            ServerMessage::Ping => StepOutput { emit: None, effect: None },
            ServerMessage::Error { debug, display } => {
                self.phase = Phase::Terminated;
                StepOutput {
                    emit: Some(DisplayState::Error(SessionError::ServerReported { debug, display })),
                    effect: None,
                }
            },
            ServerMessage::NoEvent => {
                let was_init = self.phase == Phase::Initializing;
                self.current_event = None;
                self.phase = Phase::Running;
                StepOutput {
                    emit: if was_init {
                        Some(DisplayState::Logo { msg: LogoMsg::DeterminingFirstMode })
                    } else {
                        None
                    },
                    effect: None,
                }
            },
            ServerMessage::CurrentEvent { id: _, timezone } => {
                if crate::clock::zone_exists(timezone.as_str()) {
                    let was_init = self.phase == Phase::Initializing;
                    self.current_event = Some(EventContext { timezone });
                    self.phase = Phase::Running;
                    StepOutput {
                        emit: if was_init {
                            Some(DisplayState::Logo { msg: LogoMsg::DeterminingFirstMode })
                        } else {
                            None
                        },
                        effect: None,
                    }
                } else {
                    self.phase = Phase::Terminated;
                    StepOutput {
                        emit: Some(
                            DisplayState::Error(SessionError::ProtocolRead { detail: timezone }),
                        ),
                        effect: None,
                    }
                }
            },
            ServerMessage::LatestVersion(v) => StepOutput {
                emit: None,
                effect: Some(Effect::UpdateCheck(v)),
            },
        }
    }

    /// One periodic tick: evaluate the catalog in the context's local
    /// calendar, keep the maximal-priority candidates, and let the rotator
    /// pick one of them, preferring modes not yet shown this cycle. With no
    /// eligible candidate, the `Logo` fallback is emitted and the memory is
    /// untouched. Outside `Running`, a tick does nothing.
    pub fn on_tick(&mut self, now_utc: i64) -> (out: StepOutput)
        requires
            0 <= now_utc < UTC_MAX,
        ensures
            final(self).phase() == old(self).phase(),
            final(self).ctx() == old(self).ctx(),
            out.effect is None,
            old(self).phase() != Phase::Running ==> out.emit is None && final(self).seen_set()
                == old(self).seen_set(),
            old(self).phase() == Phase::Running ==> ({
                let keep = tick_candidates(old(self).ctx(), now_utc as int);
                let pool = pool_spec(keep, old(self).seen_set());
                if pool.len() == 0 {
                    out.emit == Some(no_modes_state()) && final(self).seen_set() == old(
                        self,
                    ).seen_set()
                } else {
                    exists|i: int|
                        0 <= i < pool.len() && out.emit == Some(#[trigger] pool[i].state)
                            && rotor_step(
                            modes_of(keep),
                            old(self).seen_set(),
                            pool[i].mode,
                            final(self).seen_set(),
                        )
                }
            }),
    {
        if self.phase != Phase::Running {
            return StepOutput { emit: None, effect: None };
        }
        let ghost seen0 = self.seen@;
        let keep: Vec<Candidate> = match &self.current_event {
            None => Vec::new(),
            Some(c) => match crate::clock::local_fields(c.timezone.as_str(), now_utc) {
                Some(loc) => {
                    let cands = eligible_candidates(Some(c), &loc);
                    retain_max(cands)
                },
                None => Vec::new(),
            },
        };
        proof {
            assert(keep@ == tick_candidates(old(self).ctx(), now_utc as int));
        }
        let ghost elig = modes_of(keep@);
        let ghost pred = |c: Candidate| !seen0.contains(c.mode);
        if keep.len() == 0 {
            proof {
                assert(!has_unseen(keep@, seen0));
                assert(pool_spec(keep@, seen0).len() == 0);
            }
            return StepOutput { emit: Some(DisplayState::Logo { msg: LogoMsg::NoModesAvailable }), effect: None };
        }
        let use_filtered = any_unseen(&self.seen, &keep);
        let pool: Vec<Candidate> = if use_filtered {
            let p = filter_unseen(&keep, &self.seen);
            proof {
                let j = choose|j: int| 0 <= j < keep@.len() && !seen0.contains(keep@[j].mode);
                keep@.lemma_filter_contains(pred, j);
                assert(keep@.filter(pred).contains(keep@[j]));
                assert(p@.len() > 0);
            }
            p
        } else {
            self.seen.clear();
            keep
        };
        let i = rng_below(&mut self.rng, pool.len());
        let pick = pool[i].mode;
        self.seen.insert(pick);
        let out = StepOutput { emit: Some(pool[i].state.clone()), effect: None };
        proof {
            let keepv = tick_candidates(old(self).ctx(), now_utc as int);
            let poolv = pool_spec(keepv, seen0);
            assert(pool@ == poolv);
            let ii = i as int;
            // the pick is an eligible mode
            if use_filtered {
                keep@.lemma_filter_pred(pred, ii);
                assert(!seen0.contains(pick));
                assert(keep@.contains(pool@[ii]));
                let j = choose|j: int| 0 <= j < keep@.len() && keep@[j] == pool@[ii];
                assert((keep@[j]).mode == pick);
                assert(elig.contains(pick));
                let w = choose|w: int| 0 <= w < keep@.len() && !seen0.contains((#[trigger] keep@[w]).mode);
                assert(elig.contains(keep@[w].mode));
                assert(!elig.subset_of(seen0));
                assert(rotor_step(elig, seen0, pick, self.seen@));
            } else {
                assert((keep@[ii]).mode == pick);
                assert(elig.contains(pick));
                assert forall|m: Mode| elig.contains(m) implies seen0.contains(m) by {
                    let j = choose|j: int| 0 <= j < keep@.len() && (#[trigger] keep@[j]).mode == m;
                    assert(keep@[j].mode == m);
                    assert(!has_unseen(keep@, seen0));
                }
                assert(elig.subset_of(seen0));
                assert(self.seen@ == Set::<Mode>::empty().insert(pick));
                assert(rotor_step(elig, seen0, pick, self.seen@));
            }
            assert(0 <= ii < poolv.len() && out.emit == Some(poolv[ii].state) && rotor_step(
                modes_of(keepv),
                seen0,
                poolv[ii].mode,
                self.seen@,
            ));
        }
        out
    }
}

} // verus!
