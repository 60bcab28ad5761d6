use vstd::prelude::*;

verus! {

/// The node's error taxonomy.
///
/// `ConfigError` and `SocketSetupError` are fatal to startup or to the
/// affected worker; `MalformedMessage` is absorbed per iteration by the
/// listeners; `ProtocolBreach` aborts only the dialogue that saw it;
/// `ChannelDisconnected` aborts the worker whose channel lost its peer.
#[derive(Clone, Copy, Debug, PartialEq, Eq, Structural)]
pub enum NodeError {
    /// The configuration handed to the node was unusable.
    ConfigError,
    /// A listening or outbound socket could not be set up.
    SocketSetupError,
    /// A frame or field could not be decoded from the bytes received.
    MalformedMessage,
    /// A dialogue received something other than the response it awaited.
    ProtocolBreach,
    /// The far side of an internal channel was dropped.
    ChannelDisconnected,
}

} // verus!
