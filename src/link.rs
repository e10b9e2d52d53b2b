use vstd::prelude::*;

verus! {

/// Where a subscription to a channel stands.
#[derive(PartialEq, Eq, Structural, Clone, Copy, Debug)]
pub enum LinkPhase {
    Disconnected,
    Connecting,
    Connected,
    /// Setup failed before the first connection; the subscription is over.
    Stopped,
}

/// What the transport reports.
#[derive(PartialEq, Eq, Structural, Clone, Copy, Debug)]
pub enum LinkEvent {
    /// The client is built; the connection can be opened.
    Start,
    /// Building the client, connecting or subscribing failed.
    SetupFailed,
    /// Connected and subscribed.
    Ready,
    /// A message arrived.
    Message,
    /// The connection dropped.
    Lost,
    /// The transport is trying to connect again.
    Retrying,
}

/// What the subscriber does next.
#[derive(PartialEq, Eq, Structural, Clone, Copy, Debug)]
pub enum LinkAction {
    Nothing,
    /// Open the connection and subscribe.
    Connect,
    /// Hand the message on, unparsed, and ask for a repaint.
    Forward,
    /// Give up for good: report the failure and end the subscriber.
    Stop,
}

/// A subscription's state: its phase, and whether it was ever connected.
#[derive(PartialEq, Eq, Structural, Clone, Copy, Debug)]
pub struct Link {
    pub phase: LinkPhase,
    pub established: bool,
}

/// The transitions of a subscription. Setup failures end it only before
/// its first connection; later drops are left to the transport, which
/// connects again on its own.
pub open spec fn link_next(s: Link, e: LinkEvent) -> (Link, LinkAction) {
    match (s.phase, e) {
        (LinkPhase::Disconnected, LinkEvent::Start) => (
            Link { phase: LinkPhase::Connecting, ..s },
            LinkAction::Connect,
        ),
        (LinkPhase::Connecting, LinkEvent::Ready) => (
            Link { phase: LinkPhase::Connected, established: true },
            LinkAction::Nothing,
        ),
        (LinkPhase::Connecting, LinkEvent::SetupFailed) => if s.established {
            (s, LinkAction::Nothing)
        } else {
            (Link { phase: LinkPhase::Stopped, ..s }, LinkAction::Stop)
        },
        (LinkPhase::Connected, LinkEvent::Message) => (s, LinkAction::Forward),
        (LinkPhase::Connected, LinkEvent::Lost) => (
            Link { phase: LinkPhase::Disconnected, ..s },
            LinkAction::Nothing,
        ),
        (LinkPhase::Disconnected, LinkEvent::Retrying) => if s.established {
            (Link { phase: LinkPhase::Connecting, ..s }, LinkAction::Nothing)
        } else {
            (s, LinkAction::Nothing)
        },
        _ => (s, LinkAction::Nothing),
    }
}

impl Link {
    /// A subscription that has not started.
    pub fn new() -> (r: Link)
        ensures
            r == (Link { phase: LinkPhase::Disconnected, established: false }),
    {
        Link { phase: LinkPhase::Disconnected, established: false }
    }

    /// Takes one event: the next state, and what to do.
    pub fn next(self, e: LinkEvent) -> (r: (Link, LinkAction))
        ensures
            r == link_next(self, e),
    {
        match (self.phase, e) {
            (LinkPhase::Disconnected, LinkEvent::Start) => (
                Link { phase: LinkPhase::Connecting, ..self },
                LinkAction::Connect,
            ),
            (LinkPhase::Connecting, LinkEvent::Ready) => (
                Link { phase: LinkPhase::Connected, established: true },
                LinkAction::Nothing,
            ),
            (LinkPhase::Connecting, LinkEvent::SetupFailed) => if self.established {
                (self, LinkAction::Nothing)
            } else {
                (Link { phase: LinkPhase::Stopped, ..self }, LinkAction::Stop)
            },
            (LinkPhase::Connected, LinkEvent::Message) => (self, LinkAction::Forward),
            (LinkPhase::Connected, LinkEvent::Lost) => (
                Link { phase: LinkPhase::Disconnected, ..self },
                LinkAction::Nothing,
            ),
            (LinkPhase::Disconnected, LinkEvent::Retrying) => if self.established {
                (Link { phase: LinkPhase::Connecting, ..self }, LinkAction::Nothing)
            } else {
                (self, LinkAction::Nothing)
            },
            _ => (self, LinkAction::Nothing),
        }
    }
}

/// A stopped subscription stays stopped and does nothing more.
pub proof fn lemma_stopped_is_final(s: Link, e: LinkEvent)
    requires
        s.phase == LinkPhase::Stopped,
    ensures
        link_next(s, e) == (s, LinkAction::Nothing),
{
}

/// Once connected, a subscription never stops.
pub proof fn lemma_established_never_stops(s: Link, e: LinkEvent)
    requires
        s.established,
    ensures
        link_next(s, e).0.established,
        link_next(s, e).1 != LinkAction::Stop,
{
}

} // verus!
