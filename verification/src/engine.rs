//! The watch loop as an explicit state machine.
//!
//! The loop alternates between running the configured command and
//! waiting for filesystem modification events.  The machine below
//! captures its decisions: which action the driver must perform next,
//! and how the delivered outcome moves the state forward.  The driver
//! performs the blocking work (waiting for events, spawning the
//! command, draining the queue) and reports each outcome back.
//!
//! States:
//! - `InitialRunPending`: the watch is established; the one
//!   unconditional first run has not happened yet.
//! - `AwaitingEvents`: blocked until at least one modification event
//!   arrives.
//! - `RunPending`: a batch of events arrived; one run is owed for the
//!   whole batch, however many raw events it held.
//! - `Draining`: the run finished; a best-effort non-blocking drain
//!   discards events that piled up during the run, so that one logical
//!   save does not trigger a second run.

use vstd::prelude::*;

verus! {

/// Control state of the watch loop.
#[derive(Clone, Copy, Debug, PartialEq, Eq, Structural)]
pub enum LoopState {
    InitialRunPending,
    AwaitingEvents,
    RunPending,
    Draining,
}

/// Outcome of the action the driver was asked to perform.
///
/// `BatchArrived(n)` reports that the blocking wait returned `n` raw
/// modification events.  `DrainFinished(m)` reports that the
/// non-blocking drain discarded `m` queued events (`m` may be zero; a
/// drain that failed counts as zero, it is never surfaced).
#[derive(Clone, Copy, Debug, PartialEq, Eq, Structural)]
pub enum LoopEvent {
    RunFinished,
    BatchArrived(usize),
    DrainFinished(usize),
}

/// The next piece of outside work the driver must perform.
/// `RunCommand { first: true }` is the one unconditional startup run.
#[derive(Clone, Copy, Debug, PartialEq, Eq, Structural)]
pub enum LoopAction {
    RunCommand { first: bool },
    WaitForBatch,
    DrainPending,
}

/// The state the loop starts in, right after the watches are set up.
pub open spec fn init_state() -> LoopState {
    LoopState::InitialRunPending
}

/// The action owed in each state.
pub open spec fn spec_action(s: LoopState) -> LoopAction {
    match s {
        LoopState::InitialRunPending => LoopAction::RunCommand { first: true },
        LoopState::AwaitingEvents => LoopAction::WaitForBatch,
        LoopState::RunPending => LoopAction::RunCommand { first: false },
        LoopState::Draining => LoopAction::DrainPending,
    }
}

/// The transition relation.  An outcome that does not answer the
/// action owed in the current state leaves the state unchanged, so the
/// machine is total.  An empty batch answers the wait but leaves the
/// machine waiting: only a batch with at least one event owes a run.
pub open spec fn spec_next(s: LoopState, e: LoopEvent) -> LoopState {
    match (s, e) {
        (LoopState::InitialRunPending, LoopEvent::RunFinished) => LoopState::AwaitingEvents,
        (LoopState::AwaitingEvents, LoopEvent::BatchArrived(n)) => if n >= 1 {
            LoopState::RunPending
        } else {
            LoopState::AwaitingEvents
        },
        (LoopState::RunPending, LoopEvent::RunFinished) => LoopState::Draining,
        (LoopState::Draining, LoopEvent::DrainFinished(_)) => LoopState::AwaitingEvents,
        (_, _) => s,
    }
}

/// A step in which a command run completes.
pub open spec fn is_run_step(s: LoopState, e: LoopEvent) -> bool {
    (s is InitialRunPending || s is RunPending) && e is RunFinished
}

/// A step in which a non-empty batch of raw events is consumed.
pub open spec fn is_batch_step(s: LoopState, e: LoopEvent) -> bool {
    s is AwaitingEvents && (e matches LoopEvent::BatchArrived(n) && n >= 1)
}

/// A step in which the startup run completes.
pub open spec fn is_first_run_step(s: LoopState, e: LoopEvent) -> bool {
    s is InitialRunPending && e is RunFinished
}

/// The state after a whole trace of outcomes has been consumed.
pub open spec fn state_after(s: LoopState, es: Seq<LoopEvent>) -> LoopState
    decreases es.len(),
{
    if es.len() == 0 {
        s
    } else {
        state_after(spec_next(s, es.first()), es.drop_first())
    }
}

/// How many command runs complete along a trace.
pub open spec fn run_count(s: LoopState, es: Seq<LoopEvent>) -> nat
    decreases es.len(),
{
    if es.len() == 0 {
        0nat
    } else {
        (if is_run_step(s, es.first()) {
            1nat
        } else {
            0nat
        }) + run_count(spec_next(s, es.first()), es.drop_first())
    }
}

/// How many non-empty batches are consumed along a trace.
pub open spec fn batch_count(s: LoopState, es: Seq<LoopEvent>) -> nat
    decreases es.len(),
{
    if es.len() == 0 {
        0nat
    } else {
        (if is_batch_step(s, es.first()) {
            1nat
        } else {
            0nat
        }) + batch_count(spec_next(s, es.first()), es.drop_first())
    }
}

/// How many times the startup run completes along a trace.
pub open spec fn first_run_count(s: LoopState, es: Seq<LoopEvent>) -> nat
    decreases es.len(),
{
    if es.len() == 0 {
        0nat
    } else {
        (if is_first_run_step(s, es.first()) {
            1nat
        } else {
            0nat
        }) + first_run_count(spec_next(s, es.first()), es.drop_first())
    }
}

/// Runs still owed by the state itself: the startup run, or the run
/// owed for a batch already consumed.
pub open spec fn owed_runs(s: LoopState) -> nat {
    if s is InitialRunPending || s is RunPending {
        1nat
    } else {
        0nat
    }
}

/// Run counting splits over concatenated traces.
pub proof fn lemma_run_count_concat(s: LoopState, es1: Seq<LoopEvent>, es2: Seq<LoopEvent>)
    ensures
        state_after(s, es1 + es2) == state_after(state_after(s, es1), es2),
        run_count(s, es1 + es2) == run_count(s, es1) + run_count(state_after(s, es1), es2),
    decreases es1.len(),
{
    if es1.len() == 0 {
        assert(es1 + es2 =~= es2);
    } else {
        assert((es1 + es2).first() == es1.first());
        assert((es1 + es2).drop_first() =~= es1.drop_first() + es2);
        lemma_run_count_concat(spec_next(s, es1.first()), es1.drop_first(), es2);
    }
}

/// The coalescing law.  Along any trace, the number of completed runs
/// plus the run still owed at the end equals the number of non-empty
/// batches consumed plus the run owed at the start.  Starting from
/// `init_state()` and ending in a settled state this says: exactly one
/// run per delivered batch, plus the single startup run — a burst of
/// raw events counts as one batch, and no batch is dropped.
pub proof fn lemma_runs_balance_batches(s: LoopState, es: Seq<LoopEvent>)
    ensures
        run_count(s, es) + owed_runs(state_after(s, es)) == batch_count(s, es) + owed_runs(s),
    decreases es.len(),
{
    if es.len() > 0 {
        lemma_runs_balance_batches(spec_next(s, es.first()), es.drop_first());
    }
}

/// Once the startup run is behind it, the machine never returns to
/// `InitialRunPending`, so the startup run can never recur.
pub proof fn lemma_startup_not_reentered(s: LoopState, es: Seq<LoopEvent>)
    requires
        !(s is InitialRunPending),
    ensures
        !(state_after(s, es) is InitialRunPending),
        first_run_count(s, es) == 0,
    decreases es.len(),
{
    if es.len() > 0 {
        lemma_startup_not_reentered(spec_next(s, es.first()), es.drop_first());
    }
}

/// The startup run happens at most once, and it happens before any
/// filesystem event is processed: a trace from the initial state that
/// consumes a batch contains exactly one completed startup run.
pub proof fn lemma_startup_run_once_and_first(es: Seq<LoopEvent>)
    ensures
        first_run_count(init_state(), es) <= 1,
        batch_count(init_state(), es) > 0 ==> first_run_count(init_state(), es) == 1,
    decreases es.len(),
{
    if es.len() > 0 {
        let s = init_state();
        let e = es.first();
        let t = spec_next(s, e);
        if is_first_run_step(s, e) {
            lemma_startup_not_reentered(t, es.drop_first());
        } else {
            assert(t == s);
            lemma_startup_run_once_and_first(es.drop_first());
        }
    }
}

/// The outcomes of one event delivery handled to completion: a batch
/// of `n` raw events arrives in one wake-up, the command run for it
/// finishes, and the post-run drain discards `drained` further events.
pub open spec fn burst_cycle(n: usize, drained: usize) -> Seq<LoopEvent> {
    seq![
        LoopEvent::BatchArrived(n),
        LoopEvent::RunFinished,
        LoopEvent::DrainFinished(drained),
    ]
}

/// A burst of `n >= 1` raw events delivered in one wake-up window
/// triggers exactly one command run, whatever `n` is and however many
/// events the post-run drain discards, and leaves the loop waiting.
pub proof fn lemma_burst_triggers_one_run(n: usize, drained: usize)
    requires
        n >= 1,
    ensures
        run_count(LoopState::AwaitingEvents, burst_cycle(n, drained)) == 1,
        state_after(LoopState::AwaitingEvents, burst_cycle(n, drained))
            == LoopState::AwaitingEvents,
{
    let es = burst_cycle(n, drained);
    let tail1 = seq![LoopEvent::RunFinished, LoopEvent::DrainFinished(drained)];
    let tail2 = seq![LoopEvent::DrainFinished(drained)];
    let empty = Seq::<LoopEvent>::empty();
    assert(es.first() == LoopEvent::BatchArrived(n));
    assert(es.drop_first() =~= tail1);
    assert(tail1.first() == LoopEvent::RunFinished);
    assert(tail1.drop_first() =~= tail2);
    assert(tail2.first() == LoopEvent::DrainFinished(drained));
    assert(tail2.drop_first() =~= empty);
    assert(state_after(LoopState::AwaitingEvents, empty) == LoopState::AwaitingEvents);
    assert(run_count(LoopState::AwaitingEvents, empty) == 0);
    assert(run_count(LoopState::Draining, tail2) == 0);
    assert(run_count(LoopState::RunPending, tail1) == 1);
    assert(state_after(LoopState::Draining, tail2) == LoopState::AwaitingEvents);
    assert(state_after(LoopState::RunPending, tail1) == LoopState::AwaitingEvents);
}

/// Two bursts separated far enough that the second arrives only after
/// the first burst's post-run drain has completed yield exactly two
/// runs: coalescing never spans across a completed drain.
pub proof fn lemma_separated_bursts_two_runs(n1: usize, d1: usize, n2: usize, d2: usize)
    requires
        n1 >= 1,
        n2 >= 1,
    ensures
        run_count(LoopState::AwaitingEvents, burst_cycle(n1, d1) + burst_cycle(n2, d2)) == 2,
        state_after(LoopState::AwaitingEvents, burst_cycle(n1, d1) + burst_cycle(n2, d2))
            == LoopState::AwaitingEvents,
{
    lemma_burst_triggers_one_run(n1, d1);
    lemma_burst_triggers_one_run(n2, d2);
    lemma_run_count_concat(
        LoopState::AwaitingEvents,
        burst_cycle(n1, d1),
        burst_cycle(n2, d2),
    );
}

/// A non-empty batch delivered while the loop is waiting is never
/// dropped: it always moves the machine to a pending (non-startup)
/// command run.
pub proof fn lemma_batch_never_dropped(s: LoopState, e: LoopEvent)
    ensures
        is_batch_step(s, e) ==> spec_next(s, e) == LoopState::RunPending,
        is_batch_step(s, e) ==> spec_action(spec_next(s, e))
            == (LoopAction::RunCommand { first: false }),
{
}

/// The state the loop is placed in once the watches are registered.
pub fn initial_state() -> (s: LoopState)
    ensures
        s == init_state(),
{
    LoopState::InitialRunPending
}

/// The action the driver must perform next in state `s`.
pub fn next_action(s: LoopState) -> (a: LoopAction)
    ensures
        a == spec_action(s),
{
    match s {
        LoopState::InitialRunPending => LoopAction::RunCommand { first: true },
        LoopState::AwaitingEvents => LoopAction::WaitForBatch,
        LoopState::RunPending => LoopAction::RunCommand { first: false },
        LoopState::Draining => LoopAction::DrainPending,
    }
}

/// Advance the machine by the outcome the driver reports.
pub fn next_state(s: LoopState, e: LoopEvent) -> (t: LoopState)
    ensures
        t == spec_next(s, e),
{
    match (s, e) {
        (LoopState::InitialRunPending, LoopEvent::RunFinished) => LoopState::AwaitingEvents,
        (LoopState::AwaitingEvents, LoopEvent::BatchArrived(n)) => if n >= 1 {
            LoopState::RunPending
        } else {
            LoopState::AwaitingEvents
        },
        (LoopState::RunPending, LoopEvent::RunFinished) => LoopState::Draining,
        (LoopState::Draining, LoopEvent::DrainFinished(_)) => LoopState::AwaitingEvents,
        (_, _) => s,
    }
}

} // verus!
