//! The life of one tunnel as a state machine.
//!
//! The machine decides; its driver performs. Each [`TunnelAction`] names one
//! piece of outside work (resolving, connecting, relaying, closing), and the
//! driver reports how that work ended as the next [`TunnelEvent`]. IPv6 is
//! tried first, from a rotated source address and under a short timeout; any
//! failure of that attempt falls through to the first IPv4 candidate.

use crate::address::SourceBinding;
use crate::candidates::{find_first, first_of, CandidateAddress, Family};
use vstd::prelude::*;

verus! {

/// Bound, in milliseconds, on the IPv6 connection attempt.
pub const IPV6_CONNECT_TIMEOUT_MS: u64 = 300;

/// Why a tunnel ended without having relayed.
#[derive(Clone, Copy, Debug, PartialEq, Eq, Structural)]
pub enum TunnelError {
    /// The destination did not resolve to any address.
    ResolutionFailed,
    /// No candidate of either family accepted a connection.
    AllAttemptsFailed,
    /// The system refused to create a socket.
    SocketUnavailable,
    /// The relay broke off with an I/O error.
    RelayIoError,
}

/// Why one connection attempt failed; every such failure is recoverable.
#[derive(Clone, Copy, Debug, PartialEq, Eq, Structural)]
pub enum AttemptFailure {
    /// The rotated source address could not be bound. No second source is
    /// drawn: the tunnel falls through to IPv4 as after any other failure.
    BindFailed,
    /// The attempt exceeded its time bound.
    ConnectTimeout,
    /// The destination refused the connection or could not be reached.
    ConnectFailed,
}

/// Where a tunnel stands between its acceptance and its end.
#[derive(Clone, Copy, Debug, PartialEq, Eq, Structural)]
pub enum TunnelState {
    /// The request was acknowledged; the client stream is not yet raw.
    Accepted,
    /// Waiting for the destination's addresses.
    Resolving,
    /// An IPv6 attempt is under way; `fallback` is the IPv4 candidate to try
    /// should it fail.
    ConnectingV6 { fallback: Option<CandidateAddress> },
    /// The IPv4 attempt is under way.
    ConnectingV4,
    /// Both streams are live and bytes are being copied.
    Relaying,
    /// The relay ran to its end.
    Closed,
    /// The tunnel ended with an error.
    Failed(TunnelError),
}

/// How the driver's last piece of work ended.
#[derive(Debug)]
pub enum TunnelEvent {
    /// The client connection was turned into a raw byte stream.
    Upgraded,
    /// The destination resolved to these addresses, in resolution order.
    Resolved(Vec<CandidateAddress>),
    ResolutionFailed,
    /// No socket could be created for the attempt.
    SocketUnavailable,
    AttemptFailed(AttemptFailure),
    Connected,
    RelayFinished,
    RelayFailed,
}

/// The outside work the driver is asked to do next.
#[derive(Clone, Copy, Debug, PartialEq, Eq, Structural)]
pub enum TunnelAction {
    /// Answer the client with an empty success response and carry on detached
    /// from the request.
    Acknowledge,
    /// Resolve the destination.
    Resolve,
    /// Open an IPv6 socket, bind it to `source` and connect to `target`,
    /// giving up after `timeout_ms` milliseconds.
    ConnectV6 { source: SourceBinding, target: CandidateAddress, timeout_ms: u64 },
    /// Open an IPv4 socket and connect to `target` with no bound of its own.
    ConnectV4 { target: CandidateAddress },
    /// Copy bytes both ways between client and upstream.
    Relay,
    /// Release every socket and stream of the tunnel.
    Close,
}

/// One step of the machine: the state entered and the work it asks for.
#[derive(Clone, Copy, Debug, PartialEq, Eq, Structural)]
pub struct Transition {
    pub state: TunnelState,
    pub action: TunnelAction,
}

impl TunnelState {
    /// A terminal state accepts no further event.
    pub open spec fn is_terminal(&self) -> bool {
        self is Closed || self is Failed
    }

    /// Position of the state along the life of a tunnel; every step moves
    /// strictly forward.
    pub open spec fn rank(&self) -> nat {
        match self {
            TunnelState::Accepted => 0,
            TunnelState::Resolving => 1,
            TunnelState::ConnectingV6 { .. } => 2,
            TunnelState::ConnectingV4 => 3,
            TunnelState::Relaying => 4,
            TunnelState::Closed => 5,
            TunnelState::Failed(_) => 5,
        }
    }

    /// Computes [`TunnelState::is_terminal`].
    pub fn terminal(&self) -> (yes: bool)
        ensures
            yes == self.is_terminal(),
    {
        match self {
            TunnelState::Closed => true,
            TunnelState::Failed(_) => true,
            _ => false,
        }
    }
}

/// The step that ends the tunnel with `error`.
pub open spec fn fail_with(error: TunnelError) -> Transition {
    Transition { state: TunnelState::Failed(error), action: TunnelAction::Close }
}

/// The step taken when IPv6 is not, or no longer, an option: connect to the
/// IPv4 candidate if there is one, give up otherwise.
pub open spec fn fall_back(fallback: Option<CandidateAddress>) -> Transition {
    match fallback {
        Some(target) => Transition {
            state: TunnelState::ConnectingV4,
            action: TunnelAction::ConnectV4 { target },
        },
        None => fail_with(TunnelError::AllAttemptsFailed),
    }
}

/// The step taken once the destination has resolved: the first IPv6
/// candidate is tried from `source`, with the first IPv4 candidate kept as
/// fallback; without an IPv6 candidate the fallback is taken at once.
pub open spec fn begin_connect(candidates: Seq<CandidateAddress>, source: SourceBinding)
    -> Transition {
    match first_of(candidates, Family::V6) {
        Some(target) => Transition {
            state: TunnelState::ConnectingV6 { fallback: first_of(candidates, Family::V4) },
            action: TunnelAction::ConnectV6 {
                source,
                target,
                timeout_ms: IPV6_CONNECT_TIMEOUT_MS,
            },
        },
        None => fall_back(first_of(candidates, Family::V4)),
    }
}

/// The step that starts the relay.
pub open spec fn start_relay() -> Transition {
    Transition { state: TunnelState::Relaying, action: TunnelAction::Relay }
}

/// The transition relation: the step taken from `state` on `event`, or `None`
/// where `state` does not accept `event`. `source` is the local endpoint for
/// an IPv6 attempt, should the step open one.
pub open spec fn next(state: TunnelState, event: TunnelEvent, source: SourceBinding) -> Option<
    Transition,
> {
    match (state, event) {
        (TunnelState::Accepted, TunnelEvent::Upgraded) => Some(
            Transition { state: TunnelState::Resolving, action: TunnelAction::Resolve },
        ),
        (TunnelState::Resolving, TunnelEvent::ResolutionFailed) => Some(
            fail_with(TunnelError::ResolutionFailed),
        ),
        (TunnelState::Resolving, TunnelEvent::Resolved(candidates)) => Some(
            begin_connect(candidates@, source),
        ),
        (TunnelState::ConnectingV6 { fallback }, TunnelEvent::Connected) => Some(start_relay()),
        (TunnelState::ConnectingV6 { fallback }, TunnelEvent::AttemptFailed(_)) => Some(
            fall_back(fallback),
        ),
        (TunnelState::ConnectingV6 { fallback }, TunnelEvent::SocketUnavailable) => Some(
            fail_with(TunnelError::SocketUnavailable),
        ),
        (TunnelState::ConnectingV4, TunnelEvent::Connected) => Some(start_relay()),
        (
            TunnelState::ConnectingV4,
            TunnelEvent::AttemptFailed(AttemptFailure::ConnectFailed),
        ) => Some(fail_with(TunnelError::AllAttemptsFailed)),
        (TunnelState::ConnectingV4, TunnelEvent::SocketUnavailable) => Some(
            fail_with(TunnelError::SocketUnavailable),
        ),
        (TunnelState::Relaying, TunnelEvent::RelayFinished) => Some(
            Transition { state: TunnelState::Closed, action: TunnelAction::Close },
        ),
        (TunnelState::Relaying, TunnelEvent::RelayFailed) => Some(
            fail_with(TunnelError::RelayIoError),
        ),
        _ => None,
    }
}

/// The step on `event` opens an IPv6 attempt, and so needs a source address.
pub open spec fn opens_ipv6_attempt(state: TunnelState, event: TunnelEvent) -> bool {
    state is Resolving && match event {
        TunnelEvent::Resolved(candidates) => first_of(candidates@, Family::V6).is_some(),
        _ => false,
    }
}

/// Computes [`fail_with`].
pub fn failed(error: TunnelError) -> (step: Transition)
    ensures
        step == fail_with(error),
{
    Transition { state: TunnelState::Failed(error), action: TunnelAction::Close }
}

/// Computes [`fall_back`].
pub fn fallback_step(fallback: Option<CandidateAddress>) -> (step: Transition)
    ensures
        step == fall_back(fallback),
{
    match fallback {
        Some(target) => Transition {
            state: TunnelState::ConnectingV4,
            action: TunnelAction::ConnectV4 { target },
        },
        None => failed(TunnelError::AllAttemptsFailed),
    }
}

/// Computes [`begin_connect`].
pub fn connect_step(candidates: &Vec<CandidateAddress>, source: SourceBinding) -> (step: Transition)
    ensures
        step == begin_connect(candidates@, source),
{
    let fallback = find_first(candidates, Family::V4);
    match find_first(candidates, Family::V6) {
        Some(target) => Transition {
            state: TunnelState::ConnectingV6 { fallback },
            action: TunnelAction::ConnectV6 {
                source,
                target,
                timeout_ms: IPV6_CONNECT_TIMEOUT_MS,
            },
        },
        None => fallback_step(fallback),
    }
}

/// Computes [`next`]: the one step of the tunnel's machine, with the source
/// address of a possible IPv6 attempt given by the caller.
pub fn advance(state: TunnelState, event: &TunnelEvent, source: SourceBinding) -> (step: Option<
    Transition,
>)
    ensures
        step == next(state, *event, source),
{
    match state {
        TunnelState::Accepted => match event {
            TunnelEvent::Upgraded => Some(
                Transition { state: TunnelState::Resolving, action: TunnelAction::Resolve },
            ),
            _ => None,
        },
        TunnelState::Resolving => match event {
            TunnelEvent::ResolutionFailed => Some(failed(TunnelError::ResolutionFailed)),
            TunnelEvent::Resolved(candidates) => Some(connect_step(candidates, source)),
            _ => None,
        },
        TunnelState::ConnectingV6 { fallback } => match event {
            TunnelEvent::Connected => Some(
                Transition { state: TunnelState::Relaying, action: TunnelAction::Relay },
            ),
            TunnelEvent::AttemptFailed(_) => Some(fallback_step(fallback)),
            TunnelEvent::SocketUnavailable => Some(failed(TunnelError::SocketUnavailable)),
            _ => None,
        },
        TunnelState::ConnectingV4 => match event {
            TunnelEvent::Connected => Some(
                Transition { state: TunnelState::Relaying, action: TunnelAction::Relay },
            ),
            TunnelEvent::AttemptFailed(AttemptFailure::ConnectFailed) => Some(
                failed(TunnelError::AllAttemptsFailed),
            ),
            TunnelEvent::SocketUnavailable => Some(failed(TunnelError::SocketUnavailable)),
            _ => None,
        },
        TunnelState::Relaying => match event {
            TunnelEvent::RelayFinished => Some(
                Transition { state: TunnelState::Closed, action: TunnelAction::Close },
            ),
            TunnelEvent::RelayFailed => Some(failed(TunnelError::RelayIoError)),
            _ => None,
        },
        TunnelState::Closed => None,
        TunnelState::Failed(_) => None,
    }
}

/// Computes [`opens_ipv6_attempt`].
pub fn needs_source(state: TunnelState, event: &TunnelEvent) -> (yes: bool)
    ensures
        yes == opens_ipv6_attempt(state, *event),
{
    match state {
        TunnelState::Resolving => match event {
            TunnelEvent::Resolved(candidates) => find_first(candidates, Family::V6).is_some(),
            _ => false,
        },
        _ => false,
    }
}

/// Only a step that opens an IPv6 attempt depends on the source address.
pub proof fn lemma_source_unused(state: TunnelState, event: TunnelEvent)
    requires
        !opens_ipv6_attempt(state, event),
    ensures
        forall|a: SourceBinding, b: SourceBinding|
            next(state, event, a) == next(state, event, b),
{
}

} // verus!
