//! Per-client session gateway decisions.
//!
//! Each connected client runs one gateway loop: block for the next hub
//! message, forward it as a minimal signal, and recover from backlog
//! overflow. The loop's transport work (the blocking read, the socket
//! write) lives at the boundary; the decision each observation leads to is
//! the total function here.

use crate::hub::{RecvOutcome, ReloadMessage};
use crate::template::TemplateRecord;
use vstd::prelude::*;

verus! {

/// What one gateway observes: a completed hub read, or a failed write to
/// its client.
#[derive(Clone, Copy, PartialEq, Eq, Structural, Debug)]
pub enum GatewayEvent {
    /// The blocking read from the subscription returned.
    Received(RecvOutcome),
    /// Sending to the client failed: the connection is gone.
    SendFailed,
}

/// The minimal signal forwarded to the client.
#[derive(Clone, Copy, PartialEq, Eq, Structural, Debug)]
pub enum ClientSignal {
    /// Discard state and reload from scratch.
    ReloadPage,
    /// Apply one in-place template update.
    Patch(TemplateRecord),
}

/// What the gateway loop must do next.
#[derive(Clone, Copy, PartialEq, Eq, Structural, Debug)]
pub struct GatewayAction {
    /// Signal to forward to the client, if any.
    pub forward: Option<ClientSignal>,
    /// Reset the subscription before continuing: the backlog overflowed
    /// and its lag state must be cleared.
    pub resubscribe: bool,
    /// Release the subscription and end the loop.
    pub terminate: bool,
}

/// The gateway's decision for one observation: deliveries are forwarded as
/// they came, in order; an overflow cannot say which hot patches were
/// lost, so it is treated as a forced full resynchronization and the
/// subscription is reset; an idle read just keeps waiting; a failed send
/// ends the session — the client must reconnect.
pub fn gateway_step(e: &GatewayEvent) -> (a: GatewayAction)
    ensures
        match *e {
            GatewayEvent::Received(RecvOutcome::Delivered(m)) => a == (GatewayAction {
                forward: Some(signal_of(m)),
                resubscribe: false,
                terminate: false,
            }),
            GatewayEvent::Received(RecvOutcome::Lagged) => a == (GatewayAction {
                forward: Some(ClientSignal::ReloadPage),
                resubscribe: true,
                terminate: false,
            }),
            GatewayEvent::Received(RecvOutcome::Empty) => a == (GatewayAction {
                forward: None,
                resubscribe: false,
                terminate: false,
            }),
            GatewayEvent::SendFailed => a == (GatewayAction {
                forward: None,
                resubscribe: false,
                terminate: true,
            }),
        },
{
    match e {
        GatewayEvent::Received(RecvOutcome::Delivered(m)) => GatewayAction {
            forward: Some(
                match m {
                    ReloadMessage::FullReload => ClientSignal::ReloadPage,
                    ReloadMessage::HotPatch(r) => ClientSignal::Patch(*r),
                },
            ),
            resubscribe: false,
            terminate: false,
        },
        GatewayEvent::Received(RecvOutcome::Lagged) => GatewayAction {
            forward: Some(ClientSignal::ReloadPage),
            resubscribe: true,
            terminate: false,
        },
        GatewayEvent::Received(RecvOutcome::Empty) => GatewayAction {
            forward: None,
            resubscribe: false,
            terminate: false,
        },
        GatewayEvent::SendFailed => GatewayAction {
            forward: None,
            resubscribe: false,
            terminate: true,
        },
    }
}

/// The signal a delivered message turns into.
pub open spec fn signal_of(m: ReloadMessage) -> ClientSignal {
    match m {
        ReloadMessage::FullReload => ClientSignal::ReloadPage,
        ReloadMessage::HotPatch(r) => ClientSignal::Patch(r),
    }
}

} // verus!
