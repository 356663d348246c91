//! The process-wide state behind the start/stop control surface.
//!
//! A process holds one execution context and one shutdown coordinator. They are
//! created by the first start that needs them and reused by every later one;
//! every session subscribes to the one coordinator, so a single stop reaches
//! all of them. The host performs what a decision asks for: it creates the
//! context or the coordinator when told to, subscribes, spawns the session, or
//! broadcasts the shutdown signal.

use vstd::prelude::*;
use crate::identifier::{decode_identifier, decoded_identifier, raw_bytes};

verus! {

/// What a start call leads to.
pub enum StartDecision {
    /// The identifier was missing or not valid text: nothing is created and
    /// no session starts.
    Rejected,
    /// A session labelled `identifier` is to be launched on a fresh
    /// subscription to the shared coordinator. The flags say whether the
    /// shared context and the coordinator must be created first.
    Launch { identifier: String, create_runtime: bool, create_coordinator: bool },
}

/// What a stop call leads to.
#[derive(PartialEq, Eq, Structural, Clone, Copy, Debug)]
pub enum StopDecision {
    /// No coordinator exists yet: there is nothing to signal.
    NeverStarted,
    /// The shutdown signal is to be sent once on the shared coordinator.
    Broadcast,
}

/// The outcome of a stop, given whether a coordinator exists.
pub open spec fn stop_outcome(coordinator_ready: bool) -> StopDecision {
    if coordinator_ready {
        StopDecision::Broadcast
    } else {
        StopDecision::NeverStarted
    }
}

/// Whether a decision asks for the context or the coordinator to be created.
pub open spec fn creates_resources(d: StartDecision) -> bool {
    d matches StartDecision::Launch { create_runtime, create_coordinator, .. } && (create_runtime
        || create_coordinator)
}

/// A start that launched a session labelled `text`, moving the process from
/// `before` to `after`.
pub open spec fn launched(before: ProcessState, after: ProcessState, text: Seq<char>, d: StartDecision) -> bool {
    &&& d matches StartDecision::Launch { identifier, create_runtime, create_coordinator }
        && identifier@ == text
        && create_runtime == !before.has_runtime()
        && create_coordinator == !before.has_coordinator()
    &&& after.has_runtime()
    &&& after.has_coordinator()
}

impl StartDecision {
    /// Whether the caller of start is told that a session was launched.
    pub open spec fn accepted(self) -> bool {
        self is Launch
    }

    /// The answer given to the caller of start.
    pub fn is_accepted(&self) -> (r: bool)
        ensures
            r == self.accepted(),
    {
        match self {
            StartDecision::Rejected => false,
            StartDecision::Launch { .. } => true,
        }
    }
}

/// Which of the process-wide resources exist.
pub struct ProcessState {
    runtime_ready: bool,
    coordinator_ready: bool,
}

impl ProcessState {
    /// Whether the shared execution context has been created.
    pub closed spec fn has_runtime(self) -> bool {
        self.runtime_ready
    }

    /// Whether the shared shutdown coordinator has been created.
    pub closed spec fn has_coordinator(self) -> bool {
        self.coordinator_ready
    }

    /// The state of a process in which nothing has been started.
    pub fn new() -> (r: ProcessState)
        ensures
            !r.has_runtime(),
            !r.has_coordinator(),
    {
        ProcessState { runtime_ready: false, coordinator_ready: false }
    }

    pub fn runtime_ready(&self) -> (r: bool)
        ensures
            r == self.has_runtime(),
    {
        self.runtime_ready
    }

    pub fn coordinator_ready(&self) -> (r: bool)
        ensures
            r == self.has_coordinator(),
    {
        self.coordinator_ready
    }

    /// Starts a session labelled by text that is already known to be valid.
    /// The context and the coordinator are asked for only where they are
    /// missing, and exist afterwards.
    pub fn start_with(&mut self, identifier: String) -> (r: StartDecision)
        ensures
            launched(*old(self), *final(self), identifier@, r),
    {
        let create_runtime = !self.runtime_ready;
        let create_coordinator = !self.coordinator_ready;
        self.runtime_ready = true;
        self.coordinator_ready = true;
        StartDecision::Launch { identifier, create_runtime, create_coordinator }
    }

    /// Starts a session labelled by the identifier a host handed in. A missing
    /// buffer or bytes that are not UTF-8 are rejected and change nothing.
    pub fn start(&mut self, raw: Option<Vec<u8>>) -> (r: StartDecision)
        ensures
            r.accepted() <==> decoded_identifier(raw_bytes(raw)) is Some,
            !r.accepted() ==> *final(self) == *old(self),
            decoded_identifier(raw_bytes(raw)) matches Some(text) ==> launched(
                *old(self),
                *final(self),
                text,
                r,
            ),
    {
        match decode_identifier(raw) {
            None => StartDecision::Rejected,
            Some(identifier) => self.start_with(identifier),
        }
    }

    /// Stops every session started so far, by one broadcast on the shared
    /// coordinator; before any start there is nothing to signal.
    pub fn stop(&self) -> (r: StopDecision)
        ensures
            r == stop_outcome(self.has_coordinator()),
    {
        if self.coordinator_ready {
            StopDecision::Broadcast
        } else {
            StopDecision::NeverStarted
        }
    }
}

/// A stop in a process where nothing was started finds nothing to signal. A
/// stop reads the state without changing it, so every further stop decides
/// the same as the first.
pub proof fn lemma_stop_before_start(s: ProcessState)
    requires
        !s.has_runtime(),
        !s.has_coordinator(),
    ensures
        stop_outcome(s.has_coordinator()) == StopDecision::NeverStarted,
{
}

/// Two accepted starts in a row: the second one creates neither a context nor
/// a coordinator, and both leave the one context and coordinator in place.
pub proof fn lemma_restart_reuses(
    s0: ProcessState,
    s1: ProcessState,
    s2: ProcessState,
    first: Seq<char>,
    second: Seq<char>,
    d1: StartDecision,
    d2: StartDecision,
)
    requires
        launched(s0, s1, first, d1),
        launched(s1, s2, second, d2),
    ensures
        !creates_resources(d2),
        s2.has_runtime() && s2.has_coordinator(),
{
}

} // verus!
