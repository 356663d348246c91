//! The periodic summary of how many peers the endpoint currently knows.

use vstd::prelude::*;

verus! {

/// Seconds between two summaries.
pub const SUMMARY_PERIOD_SECS: u64 = 5;

/// One summary line.
#[derive(PartialEq, Eq, Structural, Clone, Copy, Debug)]
pub enum Summary {
    /// No peer is known: logged as a warning.
    NoPeers,
    /// This many peers are known: logged as information.
    Peers(usize),
}

/// The summary of a routing table that holds `known` peers.
pub open spec fn summary_of(known: nat) -> Summary {
    if known == 0 {
        Summary::NoPeers
    } else {
        Summary::Peers(known as usize)
    }
}

/// Summarises a snapshot of `known` peers.
pub fn summarize(known: usize) -> (r: Summary)
    ensures
        r == summary_of(known as nat),
{
    if known == 0 {
        Summary::NoPeers
    } else {
        Summary::Peers(known)
    }
}

impl Summary {
    /// Whether the line is logged at warning level rather than as information.
    pub fn is_warning(&self) -> (r: bool)
        ensures
            r == (*self == Summary::NoPeers),
    {
        match self {
            Summary::NoPeers => true,
            Summary::Peers(_) => false,
        }
    }
}

/// What the reporter is woken by: whichever of its timer and the shutdown
/// signal was ready first. A tick carries the size of the snapshot taken.
#[derive(PartialEq, Eq, Structural, Clone, Copy, Debug)]
pub enum ReporterInput {
    Tick { known_peers: usize },
    Shutdown,
}

/// The reporter's reaction to one input: whether it is stopped afterwards,
/// and the summary it logs.
pub open spec fn reporter_reaction(stopped: bool, input: ReporterInput) -> (bool, Option<Summary>) {
    if stopped {
        (true, None)
    } else {
        match input {
            ReporterInput::Tick { known_peers } => (false, Some(summary_of(known_peers as nat))),
            ReporterInput::Shutdown => (true, None),
        }
    }
}

/// The reporter run on a sequence of inputs: whether it ends stopped, and its
/// summaries in order.
pub open spec fn reporter_run(stopped: bool, inputs: Seq<ReporterInput>) -> (bool, Seq<Summary>)
    decreases inputs.len(),
{
    if inputs.len() == 0 {
        (stopped, seq![])
    } else {
        let (next, line) = reporter_reaction(stopped, inputs[0]);
        let (last, rest) = reporter_run(next, inputs.drop_first());
        match line {
            Some(l) => (last, seq![l] + rest),
            None => (last, rest),
        }
    }
}

/// The summary reporter of one session.
pub struct SummaryReporter {
    stopped: bool,
}

impl SummaryReporter {
    /// Whether the reporter has reached its terminal state.
    pub closed spec fn has_stopped(self) -> bool {
        self.stopped
    }

    pub fn new() -> (r: SummaryReporter)
        ensures
            !r.has_stopped(),
    {
        SummaryReporter { stopped: false }
    }

    pub fn is_stopped(&self) -> (r: bool)
        ensures
            r == self.has_stopped(),
    {
        self.stopped
    }

    /// Handles one input and says what to log.
    pub fn step(&mut self, input: ReporterInput) -> (r: Option<Summary>)
        ensures
            (final(self).has_stopped(), r) == reporter_reaction(old(self).has_stopped(), input),
    {
        if self.stopped {
            return None;
        }
        match input {
            ReporterInput::Tick { known_peers } => Some(summarize(known_peers)),
            ReporterInput::Shutdown => {
                self.stopped = true;
                None
            },
        }
    }
}

/// Every tick of a running reporter yields one summary, a warning exactly
/// when the snapshot is empty and otherwise the snapshot's size.
pub proof fn lemma_ticks_summarised(inputs: Seq<ReporterInput>)
    requires
        forall|i: int| 0 <= i < inputs.len() ==> #[trigger] inputs[i] is Tick,
    ensures
        !reporter_run(false, inputs).0,
        reporter_run(false, inputs).1.len() == inputs.len(),
        forall|i: int|
            0 <= i < inputs.len() ==> (#[trigger] reporter_run(false, inputs).1[i] == Summary::NoPeers
                <==> inputs[i]->known_peers == 0),
        forall|i: int|
            0 <= i < inputs.len() && inputs[i]->known_peers != 0 ==> #[trigger] reporter_run(
                false,
                inputs,
            ).1[i] == Summary::Peers(inputs[i]->known_peers),
    decreases inputs.len(),
{
    if inputs.len() > 0 {
        let rest_inputs = inputs.drop_first();
        assert forall|i: int| 0 <= i < rest_inputs.len() implies #[trigger] rest_inputs[i] is Tick by {
            assert(rest_inputs[i] == inputs[i + 1]);
        }
        lemma_ticks_summarised(rest_inputs);
        let l = summary_of(inputs[0]->known_peers as nat);
        let rest = reporter_run(false, rest_inputs).1;
        assert forall|i: int| 0 <= i < inputs.len() implies (#[trigger] reporter_run(false, inputs).1[i]
            == Summary::NoPeers <==> inputs[i]->known_peers == 0) by {
            if i > 0 {
                assert((seq![l] + rest)[i] == rest[i - 1]);
                assert(rest_inputs[i - 1] == inputs[i]);
            }
        }
        assert forall|i: int| 0 <= i < inputs.len() && inputs[i]->known_peers != 0 implies #[trigger] reporter_run(
            false,
            inputs,
        ).1[i] == Summary::Peers(inputs[i]->known_peers) by {
            if i > 0 {
                assert((seq![l] + rest)[i] == rest[i - 1]);
                assert(rest_inputs[i - 1] == inputs[i]);
            }
        }
    }
}

/// A stopped reporter stays stopped and logs nothing, whatever follows.
pub proof fn lemma_reporter_stopped_is_silent(inputs: Seq<ReporterInput>)
    ensures
        reporter_run(true, inputs) == (true, Seq::<Summary>::empty()),
    decreases inputs.len(),
{
    if inputs.len() > 0 {
        lemma_reporter_stopped_is_silent(inputs.drop_first());
    }
}

/// Running on two sequences one after the other is running on their
/// concatenation.
pub proof fn lemma_reporter_run_append(stopped: bool, a: Seq<ReporterInput>, b: Seq<ReporterInput>)
    ensures
        reporter_run(stopped, a + b) == (
            reporter_run(reporter_run(stopped, a).0, b).0,
            reporter_run(stopped, a).1 + reporter_run(reporter_run(stopped, a).0, b).1,
        ),
    decreases a.len(),
{
    if a.len() == 0 {
        assert(a + b =~= b);
        assert(reporter_run(stopped, a).1 + reporter_run(stopped, b).1 =~= reporter_run(stopped, b).1);
    } else {
        let (next, line) = reporter_reaction(stopped, a[0]);
        assert((a + b).drop_first() =~= a.drop_first() + b);
        assert((a + b)[0] == a[0]);
        lemma_reporter_run_append(next, a.drop_first(), b);
        let mid = reporter_run(next, a.drop_first());
        let tail = reporter_run(mid.0, b);
        match line {
            Some(l) => {
                assert(seq![l] + (mid.1 + tail.1) =~= (seq![l] + mid.1) + tail.1);
            },
            None => {},
        }
    }
}

/// Once the shutdown signal has been handled the reporter logs nothing more:
/// it ends stopped with exactly the summaries made before the shutdown. In
/// particular a second shutdown has no effect.
pub proof fn lemma_reporter_quiet_after_shutdown(
    stopped: bool,
    before: Seq<ReporterInput>,
    after: Seq<ReporterInput>,
)
    ensures
        reporter_run(stopped, before.push(ReporterInput::Shutdown) + after) == reporter_run(
            stopped,
            before.push(ReporterInput::Shutdown),
        ),
        reporter_run(stopped, before.push(ReporterInput::Shutdown)) == (true, reporter_run(stopped, before).1),
{
    let upto = before.push(ReporterInput::Shutdown);
    let one = seq![ReporterInput::Shutdown];
    lemma_reporter_run_append(stopped, before, one);
    assert(before + one =~= upto);
    let mid = reporter_run(stopped, before).0;
    assert(one.drop_first() =~= Seq::<ReporterInput>::empty());
    assert(one[0] == ReporterInput::Shutdown);
    assert(reporter_run(true, Seq::<ReporterInput>::empty()) == (true, Seq::<Summary>::empty()));
    assert(reporter_run(mid, one) == (true, Seq::<Summary>::empty()));
    assert(reporter_run(stopped, before).1 + Seq::<Summary>::empty() =~= reporter_run(stopped, before).1);
    lemma_reporter_run_append(stopped, upto, after);
    lemma_reporter_stopped_is_silent(after);
    assert(reporter_run(stopped, upto).1 + Seq::<Summary>::empty() =~= reporter_run(stopped, upto).1);
}

} // verus!
