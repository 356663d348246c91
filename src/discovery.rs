//! The consumer of discovery events: it filters out the session's own
//! endpoint and turns every other event into a report, until the stream ends
//! or the shutdown signal arrives.

use vstd::prelude::*;

verus! {

/// The identity that the network layer assigns to an endpoint: its public key.
pub struct PeerId {
    pub key: Vec<u8>,
}

/// An event of the discovery stream.
pub enum DiscoveryEvent {
    /// A peer was seen; `label` is what it advertises about itself, if
    /// anything, and `source` names the mechanism that found it.
    Discovered { peer: PeerId, label: Option<String>, source: String },
    /// A peer's record timed out.
    Expired { peer: PeerId },
}

/// What the consumer is woken by: whichever of the next stream item and the
/// shutdown signal was ready first.
pub enum ConsumerInput {
    Event(DiscoveryEvent),
    /// The stream yielded an error; consumption goes on.
    StreamError(String),
    /// The stream is exhausted: the endpoint was closed.
    StreamEnded,
    Shutdown,
}

/// What the consumer logs.
pub enum Report {
    PeerDiscovered { peer: PeerId, label: Option<String>, source: String },
    PeerExpired { peer: PeerId },
    DiscoveryError { message: String },
    ShuttingDown,
}

/// The consumer's reaction to one input: whether it is stopped afterwards,
/// and what it reports. A stopped consumer does nothing more.
pub open spec fn reaction(self_key: Seq<u8>, stopped: bool, input: ConsumerInput) -> (bool, Option<Report>) {
    if stopped {
        (true, None)
    } else {
        match input {
            ConsumerInput::Event(DiscoveryEvent::Discovered { peer, label, source }) => if peer.key@
                == self_key {
                (false, None)
            } else {
                (false, Some(Report::PeerDiscovered { peer, label, source }))
            },
            ConsumerInput::Event(DiscoveryEvent::Expired { peer }) => (
                false,
                Some(Report::PeerExpired { peer }),
            ),
            ConsumerInput::StreamError(message) => (false, Some(Report::DiscoveryError { message })),
            ConsumerInput::StreamEnded => (true, None),
            ConsumerInput::Shutdown => (true, Some(Report::ShuttingDown)),
        }
    }
}

/// The consumer run on a sequence of inputs: whether it ends stopped, and the
/// reports in the order of the inputs that caused them.
pub open spec fn run(self_key: Seq<u8>, stopped: bool, inputs: Seq<ConsumerInput>) -> (bool, Seq<Report>)
    decreases inputs.len(),
{
    if inputs.len() == 0 {
        (stopped, seq![])
    } else {
        let (next, report) = reaction(self_key, stopped, inputs[0]);
        let (last, rest) = run(self_key, next, inputs.drop_first());
        match report {
            Some(r) => (last, seq![r] + rest),
            None => (last, rest),
        }
    }
}

/// Whether a report announces the endpoint whose key is `self_key`.
pub open spec fn names_self(r: Report, self_key: Seq<u8>) -> bool {
    r matches Report::PeerDiscovered { peer, .. } && peer.key@ == self_key
}

/// Whether two identities are the same key.
pub fn same_peer(a: &PeerId, b: &PeerId) -> (r: bool)
    ensures
        r == (a.key@ == b.key@),
{
    if a.key.len() != b.key.len() {
        return false;
    }
    let mut i: usize = 0;
    while i < a.key.len()
        invariant
            a.key@.len() == b.key@.len(),
            0 <= i <= a.key@.len(),
            forall|j: int| 0 <= j < i ==> a.key@[j] == b.key@[j],
        decreases a.key@.len() - i,
    {
        if a.key[i] != b.key[i] {
            return false;
        }
        i = i + 1;
    }
    assert(a.key@ =~= b.key@);
    true
}

/// The discovery consumer of one session.
pub struct DiscoveryConsumer {
    self_id: PeerId,
    stopped: bool,
}

impl DiscoveryConsumer {
    /// The key of the session's own endpoint.
    pub closed spec fn self_key(self) -> Seq<u8> {
        self.self_id.key@
    }

    /// Whether the consumer has reached its terminal state.
    pub closed spec fn has_stopped(self) -> bool {
        self.stopped
    }

    /// A running consumer for the endpoint `self_id`.
    pub fn new(self_id: PeerId) -> (r: DiscoveryConsumer)
        ensures
            r.self_key() == self_id.key@,
            !r.has_stopped(),
    {
        DiscoveryConsumer { self_id, stopped: false }
    }

    pub fn is_stopped(&self) -> (r: bool)
        ensures
            r == self.has_stopped(),
    {
        self.stopped
    }

    /// Handles one input and says what to log.
    pub fn step(&mut self, input: ConsumerInput) -> (r: Option<Report>)
        ensures
            final(self).self_key() == old(self).self_key(),
            (final(self).has_stopped(), r) == reaction(old(self).self_key(), old(self).has_stopped(), input),
    {
        if self.stopped {
            return None;
        }
        match input {
            ConsumerInput::Event(DiscoveryEvent::Discovered { peer, label, source }) => {
                if same_peer(&peer, &self.self_id) {
                    None
                } else {
                    Some(Report::PeerDiscovered { peer, label, source })
                }
            },
            ConsumerInput::Event(DiscoveryEvent::Expired { peer }) => Some(Report::PeerExpired { peer }),
            ConsumerInput::StreamError(message) => Some(Report::DiscoveryError { message }),
            ConsumerInput::StreamEnded => {
                self.stopped = true;
                None
            },
            ConsumerInput::Shutdown => {
                self.stopped = true;
                Some(Report::ShuttingDown)
            },
        }
    }
}

/// Running on two sequences one after the other is running on their
/// concatenation.
pub proof fn lemma_run_append(
    self_key: Seq<u8>,
    stopped: bool,
    a: Seq<ConsumerInput>,
    b: Seq<ConsumerInput>,
)
    ensures
        run(self_key, stopped, a + b) == (
            run(self_key, run(self_key, stopped, a).0, b).0,
            run(self_key, stopped, a).1 + run(self_key, run(self_key, stopped, a).0, b).1,
        ),
    decreases a.len(),
{
    if a.len() == 0 {
        assert(a + b =~= b);
        assert(run(self_key, stopped, a).1 + run(self_key, stopped, b).1 =~= run(self_key, stopped, b).1);
    } else {
        let (next, report) = reaction(self_key, stopped, a[0]);
        assert((a + b).drop_first() =~= a.drop_first() + b);
        assert((a + b)[0] == a[0]);
        lemma_run_append(self_key, next, a.drop_first(), b);
        let mid = run(self_key, next, a.drop_first());
        let tail = run(self_key, mid.0, b);
        match report {
            Some(r) => {
                assert(seq![r] + (mid.1 + tail.1) =~= (seq![r] + mid.1) + tail.1);
            },
            None => {},
        }
    }
}

/// A stopped consumer stays stopped and reports nothing, whatever follows.
pub proof fn lemma_stopped_is_silent(self_key: Seq<u8>, inputs: Seq<ConsumerInput>)
    ensures
        run(self_key, true, inputs) == (true, Seq::<Report>::empty()),
    decreases inputs.len(),
{
    if inputs.len() > 0 {
        lemma_stopped_is_silent(self_key, inputs.drop_first());
    }
}

/// The consumer never reports its own endpoint as a discovered peer.
pub proof fn lemma_self_never_reported(self_key: Seq<u8>, stopped: bool, inputs: Seq<ConsumerInput>)
    ensures
        forall|i: int|
            0 <= i < run(self_key, stopped, inputs).1.len() ==> !names_self(
                #[trigger] run(self_key, stopped, inputs).1[i],
                self_key,
            ),
    decreases inputs.len(),
{
    if inputs.len() > 0 {
        let (next, report) = reaction(self_key, stopped, inputs[0]);
        lemma_self_never_reported(self_key, next, inputs.drop_first());
        let rest = run(self_key, next, inputs.drop_first()).1;
        match report {
            Some(r) => {
                assert forall|i: int| 0 <= i < (seq![r] + rest).len() implies !names_self(
                    (seq![r] + rest)[i],
                    self_key,
                ) by {
                    if i > 0 {
                        assert((seq![r] + rest)[i] == rest[i - 1]);
                    }
                }
            },
            None => {},
        }
    }
}

/// Once the shutdown signal has been handled, later inputs change nothing:
/// the consumer ends stopped with exactly the reports it had made up to and
/// including the shutdown. In particular a second shutdown has no effect.
pub proof fn lemma_quiet_after_shutdown(
    self_key: Seq<u8>,
    stopped: bool,
    before: Seq<ConsumerInput>,
    after: Seq<ConsumerInput>,
)
    ensures
        run(self_key, stopped, before.push(ConsumerInput::Shutdown) + after) == run(
            self_key,
            stopped,
            before.push(ConsumerInput::Shutdown),
        ),
        run(self_key, stopped, before.push(ConsumerInput::Shutdown)).0,
{
    let upto = before.push(ConsumerInput::Shutdown);
    lemma_run_append(self_key, stopped, before, seq![ConsumerInput::Shutdown]);
    assert(before + seq![ConsumerInput::Shutdown] =~= upto);
    let mid = run(self_key, stopped, before).0;
    assert(seq![ConsumerInput::Shutdown].drop_first() =~= Seq::<ConsumerInput>::empty());
    assert(seq![ConsumerInput::Shutdown][0] == ConsumerInput::Shutdown);
    assert(run(self_key, true, Seq::<ConsumerInput>::empty()).0);
    assert(run(self_key, mid, seq![ConsumerInput::Shutdown]).0);
    lemma_run_append(self_key, stopped, upto, after);
    lemma_stopped_is_silent(self_key, after);
    assert(run(self_key, stopped, upto).1 + Seq::<Report>::empty() =~= run(self_key, stopped, upto).1);
}

} // verus!
