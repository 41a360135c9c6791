use vstd::prelude::*;
use crate::errors::PipelineError;
use crate::events::Generation;
use crate::pipeline::Pipeline;
use crate::pipeline::PipelineIter;

verus! {

#[verifier::external_type_specification]
#[verifier::external_body]
#[verifier::reject_recursive_types(T)]
pub struct ExSender<T>(std::sync::mpsc::Sender<T>);

#[verifier::external_type_specification]
#[verifier::external_body]
#[verifier::reject_recursive_types(T)]
pub struct ExReceiver<T>(std::sync::mpsc::Receiver<T>);

/// Relies on std::sync::mpsc::Sender::send: signalling is best-effort, never
/// blocks and never panics; it reports failure when the receiving side is
/// already gone, which is a tolerated race.
#[verifier::external_body]
fn signal(tx: std::sync::mpsc::Sender<()>) -> (delivered: bool) {
    tx.send(()).is_ok()
}

/// Relies on std::sync::mpsc::Receiver::try_recv: reports whether a
/// cancellation signal has arrived, without ever blocking.
#[verifier::external_body]
fn poll_cancel(rx: &std::sync::mpsc::Receiver<()>) -> (cancelled: bool) {
    rx.try_recv().is_ok()
}

/// Relies on std::sync::mpsc::Sender::send: forwards one generation event to
/// the consumer without blocking; delivery fails only when the consumer is
/// gone.
#[verifier::external_body]
fn emit_event(tx: &std::sync::mpsc::Sender<Generation>, g: Generation) -> (delivered: bool) {
    tx.send(g).is_ok()
}

/// The process-wide cancellation slot: it holds the sender of at most one
/// generation run, the one currently considered authoritative.
pub struct CancelSlot {
    current: Option<std::sync::mpsc::Sender<()>>,
}

impl CancelSlot {
    /// The sender of the run that is currently authoritative, if any.
    pub closed spec fn occupant(&self) -> Option<std::sync::mpsc::Sender<()>> {
        self.current
    }

    /// An empty slot: no generation run is current.
    pub fn empty() -> (s: Self)
        ensures
            s.occupant() is None,
    {
        CancelSlot { current: None }
    }

    /// Swaps the new run's sender into the slot and hands back the previous
    /// occupant, so the caller can signal the superseded run.
    pub fn install(&mut self, tx: std::sync::mpsc::Sender<()>) -> (prev: Option<
        std::sync::mpsc::Sender<()>,
    >)
        ensures
            final(self).occupant() == Some(tx),
            prev == old(self).occupant(),
    {
        let mut slot: Option<std::sync::mpsc::Sender<()>> = Some(tx);
        core::mem::swap(&mut self.current, &mut slot);
        slot
    }

    /// Empties the slot and hands back its occupant, if any.
    pub fn take_current(&mut self) -> (prev: Option<std::sync::mpsc::Sender<()>>)
        ensures
            final(self).occupant() is None,
            prev == old(self).occupant(),
    {
        let mut slot: Option<std::sync::mpsc::Sender<()>> = None;
        core::mem::swap(&mut self.current, &mut slot);
        slot
    }

    /// Registers a new generation run: atomically swaps the slot's occupant
    /// with the new run's sender and signals the superseded run, if one was
    /// installed. Signalling is best-effort and never fails the new run.
    pub fn start_generation(&mut self, tx: std::sync::mpsc::Sender<()>) -> (preempted: bool)
        ensures
            final(self).occupant() == Some(tx),
            preempted <==> old(self).occupant() is Some,
    {
        match self.install(tx) {
            Some(prev) => {
                let _delivered = signal(prev);
                true
            },
            None => false,
        }
    }

    /// Cancels the current run, if any: signals its sender and leaves the
    /// slot empty, so no further generation is owed.
    pub fn cancel_current(&mut self) -> (had_run: bool)
        ensures
            final(self).occupant() is None,
            had_run <==> old(self).occupant() is Some,
    {
        match self.take_current() {
            Some(prev) => {
                let _delivered = signal(prev);
                true
            },
            None => false,
        }
    }
}

/// Single-flight: starting a run installs its sender and hands the previous
/// occupant back exactly once. Two starts in a row from an empty slot leave
/// the slot holding exactly the second run's sender; the first run's sender
/// is handed back (for its one cancellation signal) at the second start and
/// nowhere else. The hypotheses are the slot transitions exactly as
/// `install` establishes them.
pub proof fn lemma_single_flight(
    s0: CancelSlot,
    s1: CancelSlot,
    s2: CancelSlot,
    a: std::sync::mpsc::Sender<()>,
    b: std::sync::mpsc::Sender<()>,
    p1: Option<std::sync::mpsc::Sender<()>>,
    p2: Option<std::sync::mpsc::Sender<()>>,
)
    requires
        s0.occupant() is None,
        s1.occupant() == Some(a),
        p1 == s0.occupant(),
        s2.occupant() == Some(b),
        p2 == s1.occupant(),
    ensures
        s2.occupant() == Some(b),
        s2.occupant() != Some(a) || a == b,
        p1 is None,
        p2 == Some(a),
{
}

/// What one relay step of the job controller's worker loop reports.
#[derive(Debug, Clone, PartialEq, Eq, Structural)]
pub enum StepOutcome {
    /// An event was relayed and the run goes on.
    Emitted,
    /// An event was relayed and the cancellation signal was then observed:
    /// the caller must relay nothing further from this run.
    CancelObserved,
    /// The run had already terminated; nothing was produced.
    Finished,
    /// The step failed; the error is the run's terminal item.
    Failed(PipelineError),
}

/// One step of the worker loop that drives a run: produces the next event,
/// forwards it to the consumer, and then - once per emitted event, at the
/// step boundary and never mid-step - polls for cancellation. The caller
/// loops while the outcome is `Emitted` and stops on anything else.
pub fn relay_step(
    p: &mut Pipeline,
    it: &mut PipelineIter,
    out: &std::sync::mpsc::Sender<Generation>,
    cancel: &std::sync::mpsc::Receiver<()>,
) -> (r: StepOutcome)
    requires
        old(it).wf(),
        old(it).step < usize::MAX,
    ensures
        final(it).wf(),
        final(p).wf() == old(p).wf(),
        r == StepOutcome::Finished <==> old(it).terminated,
        r == StepOutcome::Finished ==> *final(it) == *old(it),
        (r == StepOutcome::Emitted || r == StepOutcome::CancelObserved) ==> final(it).step == old(
            it,
        ).step + 1 && final(it).tokens@.len() == 1 && final(it).generated@ == old(
            it,
        ).generated@.push(final(it).tokens@[0]),
        r matches StepOutcome::Failed(e) ==> final(it).terminated && final(it).step == old(
            it,
        ).step && final(it).generated@ == old(it).generated@ && (e == PipelineError::Tensor
            || e == PipelineError::Tokenizer),
{
    match p.next(it) {
        None => StepOutcome::Finished,
        Some(Err(e)) => StepOutcome::Failed(e),
        Some(Ok(g)) => {
            let _delivered = emit_event(out, g);
            if poll_cancel(cancel) {
                StepOutcome::CancelObserved
            } else {
                StepOutcome::Emitted
            }
        },
    }
}

/// The number of events a consumer is required to observe from a run that
/// produces `total` events in all, when the cancellation signal is first
/// observed at the boundary after relaying event `cancel_at` (0-based), as
/// the worker loop polls once after every relayed event.
pub open spec fn observed_events(total: nat, cancel_at: nat) -> nat {
    if total <= cancel_at + 1 {
        total
    } else {
        (cancel_at + 1) as nat
    }
}

/// Cancellation boundary: once the cancellation signal is observed at the
/// boundary after event `cancel_at`, no later event is relayed, so the
/// consumer observes at most one event past the signal - the step that was
/// in flight - and never an event two or more steps beyond it.
pub proof fn lemma_cancel_bound(total: nat, cancel_at: nat)
    ensures
        observed_events(total, cancel_at) <= cancel_at + 1,
        observed_events(total, cancel_at) <= total,
{
}

} // verus!
