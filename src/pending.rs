//! A pending upgrade: the one-shot step from the transport's hand-off of the
//! raw connection to the framed WebSocket session.
//!
//! The transport hands the connection over only after the switching response
//! has been flushed to the peer; that ordering is the transport's duty. The
//! upgrade resolves once: from `Waiting` it moves to `Resolved` or `Failed`
//! and never leaves either.
use crate::handshake::ProtocolError;
use hyper::upgrade::{OnUpgrade, Upgraded};
use tungstenite::protocol::WebSocketConfig;
use vstd::prelude::*;

verus! {

#[verifier::external_type_specification]
#[verifier::external_body]
pub struct ExOnUpgrade(OnUpgrade);

#[verifier::external_type_specification]
#[verifier::external_body]
pub struct ExUpgraded(Upgraded);

#[verifier::external_type_specification]
#[verifier::external_body]
pub struct ExHyperError(hyper::Error);

#[verifier::external_type_specification]
#[verifier::external_body]
pub struct ExWebSocketConfig(WebSocketConfig);

/// Where a pending upgrade stands.
#[derive(Debug, Clone, Copy, PartialEq, Eq, Structural)]
pub enum UpgradeState {
    /// The raw connection has not been handed over yet.
    Waiting,
    /// The raw connection was handed over and given to the framing layer.
    Resolved,
    /// The transport could not complete the switch.
    Failed,
}

/// An upgrade that waits for the transport to hand over the raw connection.
///
/// `handle` is the transport's one-shot hand-off handle; awaiting it yields
/// the raw connection or the transport's failure, which `resolve` then turns
/// into the outcome of the upgrade. The framed stream is built over the raw
/// connection in server role with `config`. A pending upgrade that is dropped
/// before it resolves sends the transport no signal: the connection it would
/// have received is closed as soon as the transport lets go of it.
#[derive(Debug)]
pub struct HyperWebsocket {
    pub handle: OnUpgrade,
    config: Option<WebSocketConfig>,
    state: UpgradeState,
}

impl HyperWebsocket {
    /// The hand-off handle.
    pub closed spec fn spec_handle(&self) -> OnUpgrade {
        self.handle
    }

    /// Where the upgrade stands.
    pub closed spec fn spec_state(&self) -> UpgradeState {
        self.state
    }

    /// The configuration that the framed stream is still to be built with.
    pub closed spec fn spec_config(&self) -> Option<WebSocketConfig> {
        self.config
    }

    /// Where the upgrade stands.
    pub fn state(&self) -> (r: UpgradeState)
        ensures
            r == self.spec_state(),
    {
        self.state
    }

    /// A pending upgrade over the hand-off handle `handle`, which will build
    /// its stream with `config`.
    pub fn new(handle: OnUpgrade, config: Option<WebSocketConfig>) -> (r: HyperWebsocket)
        ensures
            r.spec_handle() == handle,
            r.spec_config() == config,
            r.spec_state() == UpgradeState::Waiting,
    {
        HyperWebsocket { handle, config, state: UpgradeState::Waiting }
    }

    /// Resolves the upgrade with what the hand-off handle yielded.
    ///
    /// A raw connection comes back with the configuration for the framed
    /// stream, which this upgrade then no longer holds; a failure of the
    /// transport becomes `HandshakeIncomplete`. Either way the upgrade is
    /// spent: it is resolved only while it waits.
    pub fn resolve(&mut self, handoff: Result<Upgraded, hyper::Error>) -> (r: Result<
        (Upgraded, Option<WebSocketConfig>),
        ProtocolError,
    >)
        requires
            old(self).spec_state() == UpgradeState::Waiting,
        ensures
            final(self).spec_handle() == old(self).spec_handle(),
            match handoff {
                Ok(io) => {
                    &&& r == Ok::<(Upgraded, Option<WebSocketConfig>), ProtocolError>(
                        (io, old(self).spec_config()),
                    )
                    &&& final(self).spec_state() == UpgradeState::Resolved
                    &&& final(self).spec_config() is None
                },
                Err(_) => {
                    &&& r == Err::<(Upgraded, Option<WebSocketConfig>), ProtocolError>(
                        ProtocolError::HandshakeIncomplete,
                    )
                    &&& final(self).spec_state() == UpgradeState::Failed
                    &&& final(self).spec_config() == old(self).spec_config()
                },
            },
    {
        match handoff {
            Ok(io) => {
                let config = self.config.take();
                self.state = UpgradeState::Resolved;
                Ok((io, config))
            },
            Err(_) => {
                self.state = UpgradeState::Failed;
                Err(ProtocolError::HandshakeIncomplete)
            },
        }
    }
}

} // verus!
