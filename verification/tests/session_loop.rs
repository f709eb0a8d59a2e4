use sil::error::SessionError;
use sil::modes::{DisplayState, LogoMsg, Mode};
use sil::session::{handshake_requests, ClientMessage, Effect, Phase, ServerMessage, Session};
use sil::version::Version;

// 2024-12-31 in Europe/Berlin (UTC+1): local 20:00, 21:58, 22:03, 23:30.
const EVE_2000_UTC: i64 = 1735671600;
const EVE_2158_UTC: i64 = 1735678680;
const EVE_2203_UTC: i64 = 1735678980;
const EVE_2330_UTC: i64 = 1735684200;
// 2024-06-15 12:00:00 UTC, an ordinary summer noon (14:00 in Berlin).
const SUMMER_NOON_UTC: i64 = 1718452800;
// 2024-06-15 20:03:00 UTC: 22:03 in Berlin under summer time (UTC+2).
const SUMMER_2203_UTC: i64 = 1718481780;

fn berlin_event() -> ServerMessage {
    ServerMessage::CurrentEvent {
        id: String::from("mock"),
        timezone: String::from("Europe/Berlin"),
    }
}

fn running_berlin_session(seed: u64) -> Session {
    let mut s = Session::new(seed);
    let out = s.on_message(berlin_event());
    assert_eq!(s.current_phase(), Phase::Running);
    assert_eq!(out.emit, Some(DisplayState::Logo { msg: LogoMsg::DeterminingFirstMode }));
    s
}

fn emitted_mode(state: &DisplayState) -> Mode {
    match state {
        DisplayState::BinaryTime(_) => Mode::BinaryTime,
        DisplayState::CloseWindows(_) => Mode::CloseWindows,
        DisplayState::HexagesimalTime(_) => Mode::HexagesimalTime,
        DisplayState::NewYear(_) => Mode::NewYear,
        DisplayState::Logo { .. } => Mode::Logo,
        DisplayState::Error(e) => panic!("unexpected error state: {:?}", e),
    }
}

#[test]
fn handshake_sends_auth_then_subscribe() {
    let msgs = handshake_requests(String::from("SECRET-REDACTED"));
    assert_eq!(
        msgs,
        vec![
            ClientMessage::Auth { api_key: String::from("SECRET-REDACTED") },
            ClientMessage::CurrentEvent,
        ]
    );
}

#[test]
fn ping_changes_nothing() {
    let mut s = Session::new(1);
    let out = s.on_message(ServerMessage::Ping);
    assert_eq!(out.emit, None);
    assert_eq!(out.effect, None);
    assert_eq!(s.current_phase(), Phase::Initializing);
}

#[test]
fn no_event_completes_handshake() {
    let mut s = Session::new(1);
    let out = s.on_message(ServerMessage::NoEvent);
    assert_eq!(s.current_phase(), Phase::Running);
    assert_eq!(out.emit, Some(DisplayState::Logo { msg: LogoMsg::DeterminingFirstMode }));
    // A later event answer no longer re-announces the first mode.
    let out = s.on_message(berlin_event());
    assert_eq!(out.emit, None);
    assert_eq!(s.current_phase(), Phase::Running);
}

#[test]
fn unknown_timezone_is_fatal() {
    let mut s = Session::new(1);
    let out = s.on_message(ServerMessage::CurrentEvent {
        id: String::from("mock"),
        timezone: String::from("Nowhere/AtAll"),
    });
    assert_eq!(s.current_phase(), Phase::Terminated);
    assert_eq!(
        out.emit,
        Some(DisplayState::Error(SessionError::ProtocolRead {
            detail: String::from("Nowhere/AtAll"),
        }))
    );
}

#[test]
fn latest_version_triggers_update_check() {
    let mut s = Session::new(1);
    let out = s.on_message(ServerMessage::LatestVersion(Version { major: 2, minor: 1, patch: 0 }));
    assert_eq!(out.emit, None);
    assert_eq!(out.effect, Some(Effect::UpdateCheck(Version { major: 2, minor: 1, patch: 0 })));
    // Not a terminal handshake reply: the session keeps waiting.
    assert_eq!(s.current_phase(), Phase::Initializing);
}

#[test]
fn server_error_terminates_with_display_text() {
    let mut s = running_berlin_session(7);
    let out = s.on_message(ServerMessage::Error {
        debug: String::from("backend going down"),
        display: String::from("maintenance"),
    });
    assert_eq!(s.current_phase(), Phase::Terminated);
    match out.emit {
        Some(DisplayState::Error(e)) => {
            assert_eq!(e.display_message(), "maintenance");
        },
        other => panic!("expected an error state, got {:?}", other),
    }
    // Nothing further is ever emitted.
    let out = s.on_tick(EVE_2330_UTC);
    assert_eq!(out.emit, None);
    let out = s.on_message(berlin_event());
    assert_eq!(out.emit, None);
    let out = s.on_message(ServerMessage::Ping);
    assert_eq!(out.emit, None);
    let out = s.on_stream_end();
    assert_eq!(out.emit, None);
}

#[test]
fn stream_end_is_fatal() {
    let mut s = running_berlin_session(7);
    let out = s.on_stream_end();
    assert_eq!(s.current_phase(), Phase::Terminated);
    assert_eq!(out.emit, Some(DisplayState::Error(SessionError::EndOfStream)));
    assert_eq!(
        SessionError::EndOfStream.display_message(),
        "server closed the connection"
    );
}

#[test]
fn caller_failure_terminates() {
    let mut s = running_berlin_session(7);
    let out = s.fail(SessionError::ChannelSend);
    assert_eq!(s.current_phase(), Phase::Terminated);
    assert_eq!(out.emit, Some(DisplayState::Error(SessionError::ChannelSend)));
    // A second failure on a terminated session emits nothing further.
    let out = s.fail(SessionError::EndOfStream);
    assert_eq!(out.emit, None);
}

#[test]
fn tick_before_running_does_nothing() {
    let mut s = Session::new(1);
    let out = s.on_tick(SUMMER_NOON_UTC);
    assert_eq!(out.emit, None);
    assert_eq!(s.current_phase(), Phase::Initializing);
}

#[test]
fn no_event_context_only_ever_logo() {
    let mut s = Session::new(5);
    s.on_message(ServerMessage::NoEvent);
    for utc in [SUMMER_NOON_UTC, EVE_2000_UTC, EVE_2203_UTC, EVE_2330_UTC] {
        let out = s.on_tick(utc);
        assert_eq!(out.emit, Some(DisplayState::Logo { msg: LogoMsg::NoModesAvailable }));
    }
    assert_eq!(LogoMsg::NoModesAvailable.text(), "no modes available");
}

#[test]
fn close_windows_wins_in_its_window() {
    // 22:03 local time: CloseWindows is the sole programme-critical mode, so
    // the emission is deterministic whatever the generator does.
    for seed in 0..10 {
        let mut s = running_berlin_session(seed);
        let out = s.on_tick(EVE_2203_UTC);
        assert_eq!(out.emit, Some(DisplayState::CloseWindows(String::from("Europe/Berlin"))));
    }
}

#[test]
fn close_windows_follows_summer_time() {
    // Under daylight saving the local 22:00 hour sits two hours behind UTC,
    // not one: the conversion must follow the zone's rules, not a fixed
    // offset.
    let mut s = running_berlin_session(2);
    let out = s.on_tick(SUMMER_2203_UTC);
    assert_eq!(out.emit, Some(DisplayState::CloseWindows(String::from("Europe/Berlin"))));
}

#[test]
fn close_windows_not_eligible_before_ten_pm() {
    let mut s = running_berlin_session(3);
    let out = s.on_tick(EVE_2158_UTC);
    let mode = emitted_mode(out.emit.as_ref().unwrap());
    assert_ne!(mode, Mode::CloseWindows);
    assert_ne!(mode, Mode::Logo);
}

#[test]
fn new_year_countdown_wins_in_final_hour() {
    for seed in 0..10 {
        let mut s = running_berlin_session(seed);
        let out = s.on_tick(EVE_2330_UTC);
        assert_eq!(out.emit, Some(DisplayState::NewYear(String::from("Europe/Berlin"))));
    }
}

#[test]
fn summer_noon_shows_the_clock() {
    let mut s = running_berlin_session(11);
    let out = s.on_tick(SUMMER_NOON_UTC);
    assert_eq!(out.emit, Some(DisplayState::HexagesimalTime(String::from("Europe/Berlin"))));
}

#[test]
fn rotation_covers_every_mode_each_cycle() {
    // At 20:00 on the eve, three modes are eligible at Normal priority. In
    // every window of three consecutive ticks aligned to a rotation cycle,
    // each of the three appears exactly once, for every seed tried.
    let expected = [Mode::BinaryTime, Mode::HexagesimalTime, Mode::NewYear];
    for seed in 0..40 {
        let mut s = running_berlin_session(seed);
        for _cycle in 0..4 {
            let mut shown: Vec<Mode> = Vec::new();
            for _ in 0..3 {
                let out = s.on_tick(EVE_2000_UTC);
                let mode = emitted_mode(out.emit.as_ref().unwrap());
                assert!(
                    !shown.contains(&mode),
                    "seed {}: {:?} repeated before {:?} were shown",
                    seed,
                    mode,
                    expected
                );
                shown.push(mode);
            }
            for m in expected {
                assert!(shown.contains(&m), "seed {}: {:?} never shown in cycle", seed, m);
            }
        }
    }
}

#[test]
fn live_event_never_falls_back_to_logo() {
    let mut s = running_berlin_session(13);
    for utc in [SUMMER_NOON_UTC, EVE_2000_UTC, EVE_2158_UTC, EVE_2203_UTC, EVE_2330_UTC] {
        for _ in 0..5 {
            let out = s.on_tick(utc);
            let mode = emitted_mode(out.emit.as_ref().unwrap());
            assert_ne!(mode, Mode::Logo);
        }
    }
}

#[test]
fn startup_dawdle_stays_in_range() {
    let mut s = Session::new(42);
    for _ in 0..200 {
        if let Some(ms) = s.startup_dawdle() {
            assert!((500..1500).contains(&ms));
        }
    }
    // The flourish never touches the session proper.
    assert_eq!(s.current_phase(), Phase::Initializing);
}
