//! The error taxonomy of the session core. Every error that reaches the
//! session loop is fatal to it: the loop emits one terminal error state and
//! stops. `UpdateRequired` is a control signal rather than a failure: it tells
//! the outer process driver to schedule a graceful restart.

use vstd::prelude::*;
use vstd::string::StringExecFns;

verus! {

#[derive(Debug, PartialEq, Eq)]
pub enum SessionError {
    /// No config file at the expected per-platform location.
    ConfigMissing,
    /// The transport could not establish or keep the live connection.
    Connection { detail: String },
    /// A malformed or truncated inbound message.
    ProtocolRead { detail: String },
    /// An outbound message could not be written.
    ProtocolWrite { detail: String },
    /// The server reported an explicit error.
    ServerReported { debug: String, display: String },
    /// The peer closed the stream where a message was expected.
    EndOfStream,
    /// The consumer of the outgoing state channel is gone.
    ChannelSend,
    /// The logo asset could not be fetched, cached or decoded.
    AssetIo { detail: String },
    /// A newer build exists; the process should restart gracefully.
    UpdateRequired,
}

impl SessionError {
    /// The summary a renderer shows persistently for this error.
    pub open spec fn display_message_spec(self) -> Seq<char> {
        match self {
            SessionError::ConfigMissing => "config file missing, create at $XDG_CONFIG_DIRS/fidera/client-config.json"@,
            SessionError::Connection { detail } => detail@,
            SessionError::ProtocolRead { detail } => detail@,
            SessionError::ProtocolWrite { detail } => detail@,
            SessionError::ServerReported { debug: _, display } => display@,
            SessionError::EndOfStream => "server closed the connection"@,
            SessionError::ChannelSend => "display state channel closed"@,
            SessionError::AssetIo { detail } => detail@,
            SessionError::UpdateRequired => "update available, restart required"@,
        }
    }

    /// The user-visible summary of the error.
    pub fn display_message(&self) -> (r: String)
        ensures
            r@ == self.display_message_spec(),
    {
        match self {
            SessionError::ConfigMissing => String::from_str("config file missing, create at $XDG_CONFIG_DIRS/fidera/client-config.json"),
            SessionError::Connection { detail } => detail.clone(),
            SessionError::ProtocolRead { detail } => detail.clone(),
            SessionError::ProtocolWrite { detail } => detail.clone(),
            SessionError::ServerReported { debug: _, display } => display.clone(),
            SessionError::EndOfStream => String::from_str("server closed the connection"),
            SessionError::ChannelSend => String::from_str("display state channel closed"),
            SessionError::AssetIo { detail } => detail.clone(),
            SessionError::UpdateRequired => String::from_str("update available, restart required"),
        }
    }
}

impl Clone for SessionError {
    fn clone(&self) -> (r: Self)
        ensures
            r == *self,
    {
        match self {
            SessionError::ConfigMissing => SessionError::ConfigMissing,
            SessionError::Connection { detail } => SessionError::Connection { detail: detail.clone() },
            SessionError::ProtocolRead { detail } => SessionError::ProtocolRead { detail: detail.clone() },
            SessionError::ProtocolWrite { detail } => SessionError::ProtocolWrite { detail: detail.clone() },
            SessionError::ServerReported { debug, display } => SessionError::ServerReported {
                debug: debug.clone(),
                display: display.clone(),
            },
            SessionError::EndOfStream => SessionError::EndOfStream,
            SessionError::ChannelSend => SessionError::ChannelSend,
            SessionError::AssetIo { detail } => SessionError::AssetIo { detail: detail.clone() },
            SessionError::UpdateRequired => SessionError::UpdateRequired,
        }
    }
}

} // verus!
