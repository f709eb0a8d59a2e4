use sil::error::SessionError;

#[test]
fn each_error_has_a_display_summary() {
    assert_eq!(
        SessionError::ConfigMissing.display_message(),
        "config file missing, create at $XDG_CONFIG_DIRS/fidera/client-config.json"
    );
    assert_eq!(
        SessionError::Connection { detail: String::from("refused") }.display_message(),
        "refused"
    );
    assert_eq!(
        SessionError::ProtocolRead { detail: String::from("bad frame") }.display_message(),
        "bad frame"
    );
    assert_eq!(
        SessionError::ProtocolWrite { detail: String::from("sink gone") }.display_message(),
        "sink gone"
    );
    assert_eq!(
        SessionError::ServerReported {
            debug: String::from("stack trace"),
            display: String::from("maintenance"),
        }
        .display_message(),
        "maintenance"
    );
    assert_eq!(
        SessionError::EndOfStream.display_message(),
        "server closed the connection"
    );
    assert_eq!(
        SessionError::ChannelSend.display_message(),
        "display state channel closed"
    );
    assert_eq!(
        SessionError::AssetIo { detail: String::from("cache unwritable") }.display_message(),
        "cache unwritable"
    );
    assert_eq!(
        SessionError::UpdateRequired.display_message(),
        "update available, restart required"
    );
}

#[test]
fn errors_clone_faithfully() {
    let e = SessionError::ServerReported {
        debug: String::from("d"),
        display: String::from("m"),
    };
    assert_eq!(e.clone(), e);
    let e = SessionError::AssetIo { detail: String::from("x") };
    assert_eq!(e.clone(), e);
}
