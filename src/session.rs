//! One peer session, from binding its endpoint to closing it.
//!
//! The host binds the endpoint, awaits the shutdown signal and closes the
//! endpoint; the session decides what each outcome leads to.

use vstd::prelude::*;
use crate::discovery::{DiscoveryConsumer, PeerId};
use crate::summary::SummaryReporter;

verus! {

/// Where a session stands.
#[derive(PartialEq, Eq, Structural, Clone, Copy, Debug)]
pub enum SessionPhase {
    /// The endpoint is being bound.
    Binding,
    /// The endpoint is bound; the consumer and the reporter run.
    Running,
    /// Shutdown was observed; the endpoint is being closed.
    Closing,
    /// The endpoint is closed and the session has ended normally.
    Finished,
    /// Binding failed; the session ended without an endpoint.
    Failed,
}

/// What the host reports back to the session.
pub enum SessionEvent {
    /// The endpoint is bound; `self_id` is its own identity.
    Bound { self_id: PeerId },
    /// The identifier could not be used as discovery metadata, or the
    /// endpoint could not be bound.
    BindFailed { reason: String },
    /// The session's own shutdown subscription fired.
    ShutdownObserved,
    /// The endpoint has been closed.
    Closed,
}

/// What the host is to do next.
pub enum SessionAction {
    /// Spawn the two tasks, each on its own subscription to the coordinator.
    SpawnTasks { consumer: DiscoveryConsumer, reporter: SummaryReporter },
    /// Close the endpoint gracefully.
    CloseEndpoint,
    /// The session completed; log its success.
    Complete,
    /// The session is abandoned; log the reason.
    Abort { reason: String },
    /// The event does not apply in this phase.
    Ignore,
}

/// The phase a session moves to on an event.
pub open spec fn next_phase(phase: SessionPhase, event: SessionEvent) -> SessionPhase {
    match (phase, event) {
        (SessionPhase::Binding, SessionEvent::Bound { .. }) => SessionPhase::Running,
        (SessionPhase::Binding, SessionEvent::BindFailed { .. }) => SessionPhase::Failed,
        (SessionPhase::Running, SessionEvent::ShutdownObserved) => SessionPhase::Closing,
        (SessionPhase::Closing, SessionEvent::Closed) => SessionPhase::Finished,
        _ => phase,
    }
}

/// Whether a session in this phase has ended.
pub open spec fn ended(phase: SessionPhase) -> bool {
    phase == SessionPhase::Finished || phase == SessionPhase::Failed
}

/// The session of one started peer.
pub struct PeerSession {
    identifier: String,
    phase: SessionPhase,
}

impl PeerSession {
    /// The label the session advertises.
    pub closed spec fn label(self) -> Seq<char> {
        self.identifier@
    }

    pub closed spec fn current(self) -> SessionPhase {
        self.phase
    }

    /// A session about to bind an endpoint labelled `identifier`.
    pub fn new(identifier: String) -> (r: PeerSession)
        ensures
            r.label() == identifier@,
            r.current() == SessionPhase::Binding,
    {
        PeerSession { identifier, phase: SessionPhase::Binding }
    }

    pub fn identifier(&self) -> (r: &String)
        ensures
            r@ == self.label(),
    {
        &self.identifier
    }

    pub fn phase(&self) -> (r: SessionPhase)
        ensures
            r == self.current(),
    {
        self.phase
    }

    /// Handles one event from the host and says what to do next.
    pub fn step(&mut self, event: SessionEvent) -> (r: SessionAction)
        ensures
            final(self).label() == old(self).label(),
            final(self).current() == next_phase(old(self).current(), event),
            match (old(self).current(), event) {
                (SessionPhase::Binding, SessionEvent::Bound { self_id }) => r matches SessionAction::SpawnTasks {
                    consumer,
                    reporter,
                } && consumer.self_key() == self_id.key@ && !consumer.has_stopped()
                    && !reporter.has_stopped(),
                (SessionPhase::Binding, SessionEvent::BindFailed { reason }) => r
                    == SessionAction::Abort { reason },
                (SessionPhase::Running, SessionEvent::ShutdownObserved) => r is CloseEndpoint,
                (SessionPhase::Closing, SessionEvent::Closed) => r is Complete,
                _ => r is Ignore,
            },
    {
        match (self.phase, event) {
            (SessionPhase::Binding, SessionEvent::Bound { self_id }) => {
                self.phase = SessionPhase::Running;
                SessionAction::SpawnTasks {
                    consumer: DiscoveryConsumer::new(self_id),
                    reporter: SummaryReporter::new(),
                }
            },
            (SessionPhase::Binding, SessionEvent::BindFailed { reason }) => {
                self.phase = SessionPhase::Failed;
                SessionAction::Abort { reason }
            },
            (SessionPhase::Running, SessionEvent::ShutdownObserved) => {
                self.phase = SessionPhase::Closing;
                SessionAction::CloseEndpoint
            },
            (SessionPhase::Closing, SessionEvent::Closed) => {
                self.phase = SessionPhase::Finished;
                SessionAction::Complete
            },
            _ => SessionAction::Ignore,
        }
    }
}

/// An ended session stays ended whatever it is told, and a shutdown observed
/// twice closes the endpoint only once.
pub proof fn lemma_session_end_is_final(phase: SessionPhase, event: SessionEvent)
    ensures
        ended(phase) ==> next_phase(phase, event) == phase,
        next_phase(phase, SessionEvent::ShutdownObserved) == SessionPhase::Closing ==> next_phase(
            SessionPhase::Closing,
            SessionEvent::ShutdownObserved,
        ) == SessionPhase::Closing,
{
}

} // verus!
