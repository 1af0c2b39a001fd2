use crate::error::SolverError;
use libc::c_int;
use vstd::prelude::*;

verus! {

/// A call into the native solver that the worker of a solve makes.
#[derive(Debug, Clone, Copy, PartialEq, Eq, Structural)]
pub enum NativeCall {
    /// Allocate the row permutation, a vector of `len` native indices.
    AllocRowPerm { len: c_int },
    /// Allocate the column permutation, a vector of `len` native indices.
    AllocColPerm { len: c_int },
    /// Initialise the statistics record.
    StatInit,
    /// Start from two zeroed factor descriptors and run the native solve on
    /// the options, the system matrix, the two permutations, the two
    /// factors, the right-hand sides and the statistics.
    Solve,
    /// Release the row permutation.
    FreeRowPerm,
    /// Release the column permutation.
    FreeColPerm,
    /// Destroy the lower factor, a supernodal matrix.
    DestroyL,
    /// Destroy the upper factor, a column-compressed matrix.
    DestroyU,
    /// Release the statistics record.
    StatFree,
}

/// What the worker has to do next.
#[derive(Debug, Clone, Copy, PartialEq, Eq)]
pub enum WorkerAction {
    /// Make this call and come back with what it gave.
    Call(NativeCall),
    /// Tell the caller how the solve ended. The worker is done.
    Signal(Result<(), SolverError>),
    /// Stop with a fatal error.
    Abort,
}

/// What the worker comes back with.
#[derive(Debug, Clone, Copy, PartialEq, Eq, Structural)]
pub enum WorkerEvent {
    /// The worker was started.
    Start,
    /// An allocation returned, with a null pointer or with a vector.
    Allocated { null: bool },
    /// A call that gives nothing back returned.
    Returned,
    /// The native solve returned with this info code.
    Solved { info: c_int },
}

/// Where the worker stands: which call it waits for, and the info code of
/// the native solve once that has run.
#[derive(Debug, Clone, Copy, PartialEq, Eq, Structural)]
pub enum WorkerState {
    Ready { rows: c_int, cols: c_int },
    AwaitRowPerm { cols: c_int },
    AwaitColPerm,
    AwaitStatInit,
    AwaitSolve,
    AwaitFreeRowPerm { info: c_int },
    AwaitFreeColPerm { info: c_int },
    AwaitDestroyL { info: c_int },
    AwaitDestroyU { info: c_int },
    AwaitStatFree { info: c_int },
    Finished,
}

/// What the worker signals for an info code of the native solve: success for
/// 0, and for any other code that the system could not be solved.
pub open spec fn status_of(info: c_int) -> Result<(), SolverError> {
    if info == 0 {
        Ok(())
    } else {
        Err(SolverError::Unsolvable)
    }
}

/// One step of the worker. It allocates the two permutations and stops if
/// either is null, initialises the statistics, runs the native solve,
/// releases everything it holds in the order in which it got it, and only
/// then signals. Whatever comes out of turn is fatal.
pub open spec fn worker_step(state: WorkerState, event: WorkerEvent) -> (WorkerState, WorkerAction) {
    match (state, event) {
        (WorkerState::Ready { rows, cols }, WorkerEvent::Start) => (
            WorkerState::AwaitRowPerm { cols },
            WorkerAction::Call(NativeCall::AllocRowPerm { len: rows }),
        ),
        (WorkerState::AwaitRowPerm { cols }, WorkerEvent::Allocated { null: false }) => (
            WorkerState::AwaitColPerm,
            WorkerAction::Call(NativeCall::AllocColPerm { len: cols }),
        ),
        (WorkerState::AwaitColPerm, WorkerEvent::Allocated { null: false }) => (
            WorkerState::AwaitStatInit,
            WorkerAction::Call(NativeCall::StatInit),
        ),
        (WorkerState::AwaitStatInit, WorkerEvent::Returned) => (
            WorkerState::AwaitSolve,
            WorkerAction::Call(NativeCall::Solve),
        ),
        (WorkerState::AwaitSolve, WorkerEvent::Solved { info }) => (
            WorkerState::AwaitFreeRowPerm { info },
            WorkerAction::Call(NativeCall::FreeRowPerm),
        ),
        (WorkerState::AwaitFreeRowPerm { info }, WorkerEvent::Returned) => (
            WorkerState::AwaitFreeColPerm { info },
            WorkerAction::Call(NativeCall::FreeColPerm),
        ),
        (WorkerState::AwaitFreeColPerm { info }, WorkerEvent::Returned) => (
            WorkerState::AwaitDestroyL { info },
            WorkerAction::Call(NativeCall::DestroyL),
        ),
        (WorkerState::AwaitDestroyL { info }, WorkerEvent::Returned) => (
            WorkerState::AwaitDestroyU { info },
            WorkerAction::Call(NativeCall::DestroyU),
        ),
        (WorkerState::AwaitDestroyU { info }, WorkerEvent::Returned) => (
            WorkerState::AwaitStatFree { info },
            WorkerAction::Call(NativeCall::StatFree),
        ),
        (WorkerState::AwaitStatFree { info }, WorkerEvent::Returned) => (
            WorkerState::Finished,
            WorkerAction::Signal(status_of(info)),
        ),
        _ => (WorkerState::Finished, WorkerAction::Abort),
    }
}

/// The state in which a worker starts on a system of the given shape.
pub fn worker_start(rows: c_int, cols: c_int) -> (state: WorkerState)
    ensures
        state == (WorkerState::Ready { rows, cols }),
{
    WorkerState::Ready { rows, cols }
}

/// Moves the worker on by one event: see [`worker_step`].
pub fn worker_resume(state: WorkerState, event: WorkerEvent) -> (next: (WorkerState, WorkerAction))
    ensures
        next == worker_step(state, event),
{
    match state {
        WorkerState::Ready { rows, cols } => match event {
            WorkerEvent::Start => (
                WorkerState::AwaitRowPerm { cols },
                WorkerAction::Call(NativeCall::AllocRowPerm { len: rows }),
            ),
            _ => (WorkerState::Finished, WorkerAction::Abort),
        },
        WorkerState::AwaitRowPerm { cols } => match event {
            WorkerEvent::Allocated { null: false } => (
                WorkerState::AwaitColPerm,
                WorkerAction::Call(NativeCall::AllocColPerm { len: cols }),
            ),
            _ => (WorkerState::Finished, WorkerAction::Abort),
        },
        WorkerState::AwaitColPerm => match event {
            WorkerEvent::Allocated { null: false } => (
                WorkerState::AwaitStatInit,
                WorkerAction::Call(NativeCall::StatInit),
            ),
            _ => (WorkerState::Finished, WorkerAction::Abort),
        },
        WorkerState::AwaitStatInit => match event {
            WorkerEvent::Returned => (
                WorkerState::AwaitSolve,
                WorkerAction::Call(NativeCall::Solve),
            ),
            _ => (WorkerState::Finished, WorkerAction::Abort),
        },
        WorkerState::AwaitSolve => match event {
            WorkerEvent::Solved { info } => (
                WorkerState::AwaitFreeRowPerm { info },
                WorkerAction::Call(NativeCall::FreeRowPerm),
            ),
            _ => (WorkerState::Finished, WorkerAction::Abort),
        },
        WorkerState::Finished => (WorkerState::Finished, WorkerAction::Abort),
        releasing => match event {
            WorkerEvent::Returned => release_next(releasing),
            _ => (WorkerState::Finished, WorkerAction::Abort),
        },
    }
}

/// The step that follows a release that returned.
fn release_next(state: WorkerState) -> (next: (WorkerState, WorkerAction))
    requires
        state is AwaitFreeRowPerm || state is AwaitFreeColPerm || state is AwaitDestroyL
            || state is AwaitDestroyU || state is AwaitStatFree,
    ensures
        next == worker_step(state, WorkerEvent::Returned),
{
    match state {
        WorkerState::AwaitFreeRowPerm { info } => (
            WorkerState::AwaitFreeColPerm { info },
            WorkerAction::Call(NativeCall::FreeColPerm),
        ),
        WorkerState::AwaitFreeColPerm { info } => (
            WorkerState::AwaitDestroyL { info },
            WorkerAction::Call(NativeCall::DestroyL),
        ),
        WorkerState::AwaitDestroyL { info } => (
            WorkerState::AwaitDestroyU { info },
            WorkerAction::Call(NativeCall::DestroyU),
        ),
        WorkerState::AwaitDestroyU { info } => (
            WorkerState::AwaitStatFree { info },
            WorkerAction::Call(NativeCall::StatFree),
        ),
        WorkerState::AwaitStatFree { info } => {
            let status = if info == 0 {
                Ok(())
            } else {
                Err(SolverError::Unsolvable)
            };
            (WorkerState::Finished, WorkerAction::Signal(status))
        },
        _ => (WorkerState::Finished, WorkerAction::Abort),
    }
}

/// The state of a worker that started in `init` and has seen the first `i`
/// of `events`.
pub open spec fn worker_state_after(init: WorkerState, events: Seq<WorkerEvent>, i: nat) -> WorkerState
    decreases i,
{
    if i == 0 {
        init
    } else {
        worker_step(worker_state_after(init, events, (i - 1) as nat), events[i - 1]).0
    }
}

/// What a worker that started in `init` does on the event `events[i]`, after
/// it has seen the events before that one.
pub open spec fn worker_action_at(init: WorkerState, events: Seq<WorkerEvent>, i: nat) -> WorkerAction {
    worker_step(worker_state_after(init, events, i), events[i as int]).1
}

/// The calls of a run that goes through, in their order.
pub open spec fn solve_calls(rows: c_int, cols: c_int) -> Seq<WorkerAction> {
    seq![
        WorkerAction::Call(NativeCall::AllocRowPerm { len: rows }),
        WorkerAction::Call(NativeCall::AllocColPerm { len: cols }),
        WorkerAction::Call(NativeCall::StatInit),
        WorkerAction::Call(NativeCall::Solve),
        WorkerAction::Call(NativeCall::FreeRowPerm),
        WorkerAction::Call(NativeCall::FreeColPerm),
        WorkerAction::Call(NativeCall::DestroyL),
        WorkerAction::Call(NativeCall::DestroyU),
        WorkerAction::Call(NativeCall::StatFree),
    ]
}

/// A worker that is finished stays finished.
proof fn lemma_finished_stays(init: WorkerState, events: Seq<WorkerEvent>, i: nat, j: nat)
    requires
        i <= j,
        worker_state_after(init, events, i) is Finished,
    ensures
        worker_state_after(init, events, j) is Finished,
    decreases j,
{
    if i < j {
        lemma_finished_stays(init, events, i, (j - 1) as nat);
    }
}

/// A worker signals only at the end of a run that went through: whenever it
/// signals, it has before that made each of the calls of [`solve_calls`]
/// once and in that order, so that both permutations, both factors and the
/// statistics record are released; and what it signals is the status of the
/// info code that the native solve returned.
pub proof fn lemma_signal_ends_full_run(rows: c_int, cols: c_int, events: Seq<WorkerEvent>, i: nat)
    requires
        worker_action_at(WorkerState::Ready { rows, cols }, events, i) is Signal,
    ensures
        i == 9,
        forall|q: nat|
            q < 9 ==> #[trigger] worker_action_at(WorkerState::Ready { rows, cols }, events, q)
                == solve_calls(rows, cols)[q as int],
        events[4] is Solved,
        worker_action_at(WorkerState::Ready { rows, cols }, events, i) == WorkerAction::Signal(
            status_of(events[4]->info),
        ),
{
    let init = WorkerState::Ready { rows, cols };
    reveal_with_fuel(worker_state_after, 11);
    if i > 9 {
        assert(worker_state_after(init, events, 10) is Finished);
        lemma_finished_stays(init, events, 10, i);
    }
    assert(i == 9);
    assert forall|q: nat| q < 9 implies #[trigger] worker_action_at(init, events, q) == solve_calls(
        rows,
        cols,
    )[q as int] by {
        if q == 0 {
        } else if q == 1 {
        } else if q == 2 {
        } else if q == 3 {
        } else if q == 4 {
        } else if q == 5 {
        } else if q == 6 {
        } else if q == 7 {
        } else {
        }
    }
}

/// The events of a run in which every allocation gives a vector and every
/// call returns, the native solve with the code `info`.
pub open spec fn smooth_events(info: c_int) -> Seq<WorkerEvent> {
    seq![
        WorkerEvent::Start,
        WorkerEvent::Allocated { null: false },
        WorkerEvent::Allocated { null: false },
        WorkerEvent::Returned,
        WorkerEvent::Solved { info },
        WorkerEvent::Returned,
        WorkerEvent::Returned,
        WorkerEvent::Returned,
        WorkerEvent::Returned,
        WorkerEvent::Returned,
    ]
}

/// A run in which every allocation gives a vector and every call returns
/// goes through: the worker makes the calls of [`solve_calls`] and then
/// signals the status of the info code.
pub proof fn lemma_full_run_signals(rows: c_int, cols: c_int, info: c_int)
    ensures
        forall|q: nat|
            q < 9 ==> #[trigger] worker_action_at(
                WorkerState::Ready { rows, cols },
                smooth_events(info),
                q,
            ) == solve_calls(rows, cols)[q as int],
        worker_action_at(WorkerState::Ready { rows, cols }, smooth_events(info), 9)
            == WorkerAction::Signal(status_of(info)),
{
    let init = WorkerState::Ready { rows, cols };
    let events = smooth_events(info);
    assert(worker_state_after(init, events, 0) == init);
    assert(worker_state_after(init, events, 1) == (WorkerState::AwaitRowPerm { cols }));
    assert(worker_state_after(init, events, 2) == WorkerState::AwaitColPerm);
    assert(worker_state_after(init, events, 3) == WorkerState::AwaitStatInit);
    assert(worker_state_after(init, events, 4) == WorkerState::AwaitSolve);
    assert(worker_state_after(init, events, 5) == (WorkerState::AwaitFreeRowPerm { info }));
    assert(worker_state_after(init, events, 6) == (WorkerState::AwaitFreeColPerm { info }));
    assert(worker_state_after(init, events, 7) == (WorkerState::AwaitDestroyL { info }));
    assert(worker_state_after(init, events, 8) == (WorkerState::AwaitDestroyU { info }));
    assert(worker_state_after(init, events, 9) == (WorkerState::AwaitStatFree { info }));
    assert forall|q: nat| q < 9 implies #[trigger] worker_action_at(init, events, q)
        == solve_calls(rows, cols)[q as int] by {
        if q == 0 {
        } else if q == 1 {
        } else if q == 2 {
        } else if q == 3 {
        } else if q == 4 {
        } else if q == 5 {
        } else if q == 6 {
        } else if q == 7 {
        } else {
        }
    }
}

} // verus!
