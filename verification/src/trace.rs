//! The log of worker starts and stops that a monitor controller gives rise
//! to, and the proof that it never shows two workers at once.
//!
//! The host stops a worker when a step hands it one to stop, and starts one
//! when a step tells it to; it finishes each before it goes on. So the order
//! of these events is the order in which the steps return them, and the log
//! below is what an observer of the host would write down.

use crate::context::{
    complete_action, complete_state, MonitorContext, MonitorContextView, PendingAssignmentView,
    SwapChainAction, Worker,
};
use crate::handle::{GraphicsDevice, MonitorHandle, SwapChainHandle};
use vstd::prelude::*;

verus! {

/// Something that happened to a worker or to a swap chain.
#[derive(Clone, Copy, Debug, PartialEq, Eq, Structural)]
pub enum WorkerEvent {
    /// The worker was started.
    Started(Worker),
    /// The worker was stopped, and has come to rest.
    Stopped(Worker),
    /// The swap chain was deleted without ever having had a worker.
    Deleted(SwapChainHandle),
}

/// One operation on a monitor, together with what the host found out while
/// it was carried out.
#[derive(Clone, Copy, Debug, PartialEq, Eq, Structural)]
pub enum MonitorOp {
    /// A swap chain was assigned; `device` is the graphics device that the
    /// host could initialise for it, if it could.
    Assign { request: Worker, device: Option<GraphicsDevice> },
    /// The swap chain was taken away.
    Unassign,
}

/// A monitor that has given up its worker.
pub open spec fn released(monitor: MonitorContextView) -> MonitorContextView {
    MonitorContextView { device: monitor.device, worker: None }
}

/// What a swap chain that was offered to `monitor` waits with.
pub open spec fn offered(monitor: MonitorContextView, request: Worker) -> PendingAssignmentView {
    PendingAssignmentView { stop: monitor.worker, request }
}

/// The monitor after an operation.
pub open spec fn op_state(monitor: MonitorContextView, op: MonitorOp) -> MonitorContextView {
    match op {
        MonitorOp::Assign { request, device } => complete_state(
            released(monitor),
            offered(monitor, request),
            device,
        ),
        MonitorOp::Unassign => released(monitor),
    }
}

/// The log after the worker of a monitor, if it has one, has been stopped.
pub open spec fn after_stop(log: Seq<WorkerEvent>, worker: Option<Worker>) -> Seq<WorkerEvent> {
    match worker {
        Some(w) => log.push(WorkerEvent::Stopped(w)),
        None => log,
    }
}

/// The event that carrying out an action leaves in the log.
pub open spec fn action_event(action: SwapChainAction) -> WorkerEvent {
    match action {
        SwapChainAction::StartWorker { worker, device } => WorkerEvent::Started(worker),
        SwapChainAction::DeleteSwapChain(swap_chain) => WorkerEvent::Deleted(swap_chain),
    }
}

/// The log after an operation: the old worker's stop comes first, then what
/// was done with the new swap chain.
pub open spec fn op_log(log: Seq<WorkerEvent>, monitor: MonitorContextView, op: MonitorOp) -> Seq<
    WorkerEvent,
> {
    match op {
        MonitorOp::Assign { request, device } => after_stop(log, monitor.worker).push(
            action_event(complete_action(released(monitor), offered(monitor, request), device)),
        ),
        MonitorOp::Unassign => after_stop(log, monitor.worker),
    }
}

/// The monitor after a sequence of operations.
pub open spec fn run_state(monitor: MonitorContextView, ops: Seq<MonitorOp>) -> MonitorContextView
    decreases ops.len(),
{
    if ops.len() == 0 {
        monitor
    } else {
        op_state(run_state(monitor, ops.drop_last()), ops.last())
    }
}

/// The log that a sequence of operations leaves, beginning with an empty one.
pub open spec fn run_log(monitor: MonitorContextView, ops: Seq<MonitorOp>) -> Seq<WorkerEvent>
    decreases ops.len(),
{
    if ops.len() == 0 {
        Seq::empty()
    } else {
        op_log(
            run_log(monitor, ops.drop_last()),
            run_state(monitor, ops.drop_last()),
            ops.last(),
        )
    }
}

/// Carries out one operation on a monitor as the host does, step by step,
/// and writes down what happens to workers and swap chains.
pub fn perform(monitor: &mut MonitorContext, op: MonitorOp, log: &mut Vec<WorkerEvent>)
    ensures
        final(monitor)@ == op_state(old(monitor)@, op),
        final(log)@ == op_log(old(log)@, old(monitor)@, op),
{
    match op {
        MonitorOp::Assign { request, device } => {
            let pending = monitor.assign_swap_chain(
                request.swap_chain,
                request.render_adapter,
                request.new_frame_event,
            );
            record_stop(log, pending.stop());
            let action = monitor.complete_assignment(pending, device);
            record_action(log, action);
        },
        MonitorOp::Unassign => {
            let stop = monitor.unassign_swap_chain();
            record_stop(log, stop);
        },
    }
}

/// Writes down that a worker has stopped, if there was one to stop.
pub fn record_stop(log: &mut Vec<WorkerEvent>, stop: Option<Worker>)
    ensures
        final(log)@ == after_stop(old(log)@, stop),
{
    match stop {
        Some(worker) => log.push(WorkerEvent::Stopped(worker)),
        None => {},
    }
}

/// Writes down that an action has been carried out.
pub fn record_action(log: &mut Vec<WorkerEvent>, action: SwapChainAction)
    ensures
        final(log)@ == old(log)@.push(action_event(action)),
{
    match action {
        SwapChainAction::StartWorker { worker, device } => log.push(WorkerEvent::Started(worker)),
        SwapChainAction::DeleteSwapChain(swap_chain) => log.push(WorkerEvent::Deleted(swap_chain)),
    }
}

/// By how much an event changes the number of running workers.
pub open spec fn delta(event: WorkerEvent) -> int {
    match event {
        WorkerEvent::Started(_) => 1,
        WorkerEvent::Stopped(_) => -1,
        WorkerEvent::Deleted(_) => 0,
    }
}

/// The number of workers that run at the end of a log: the starts less the
/// stops.
pub open spec fn running(log: Seq<WorkerEvent>) -> int
    decreases log.len(),
{
    if log.len() == 0 {
        0
    } else {
        running(log.drop_last()) + delta(log.last())
    }
}

/// At no point of the log do two workers run, and none is stopped that does
/// not run.
pub open spec fn one_at_a_time(log: Seq<WorkerEvent>) -> bool {
    forall|k: int| 0 <= k <= log.len() ==> 0 <= #[trigger] running(log.take(k)) <= 1
}

/// The number of workers that a monitor has.
pub open spec fn workers(monitor: MonitorContextView) -> int {
    if monitor.worker is Some {
        1
    } else {
        0
    }
}

/// A log that never shows two workers stays such a log when an event is
/// added that leaves none or one running.
proof fn lemma_push_event(log: Seq<WorkerEvent>, event: WorkerEvent)
    requires
        one_at_a_time(log),
        0 <= running(log) + delta(event) <= 1,
    ensures
        one_at_a_time(log.push(event)),
        running(log.push(event)) == running(log) + delta(event),
{
    let longer = log.push(event);
    assert(longer.drop_last() =~= log);
    assert forall|k: int| 0 <= k <= longer.len() implies 0 <= #[trigger] running(longer.take(k))
        <= 1 by {
        if k <= log.len() {
            assert(longer.take(k) =~= log.take(k));
        } else {
            assert(longer.take(k) =~= longer);
        }
    }
}

/// One operation keeps the log in step with the monitor. If the log so far
/// never shows two workers and ends with as many workers running as the
/// monitor has, the same holds after the operation.
pub proof fn lemma_op_one_worker(log: Seq<WorkerEvent>, monitor: MonitorContextView, op: MonitorOp)
    requires
        one_at_a_time(log),
        running(log) == workers(monitor),
    ensures
        one_at_a_time(op_log(log, monitor, op)),
        running(op_log(log, monitor, op)) == workers(op_state(monitor, op)),
{
    assert(log.take(log.len() as int) =~= log);
    let stopped = after_stop(log, monitor.worker);
    if let Some(w) = monitor.worker {
        lemma_push_event(log, WorkerEvent::Stopped(w));
    }
    assert(one_at_a_time(stopped) && running(stopped) == 0);
    if let MonitorOp::Assign { request, device } = op {
        let action = complete_action(released(monitor), offered(monitor, request), device);
        lemma_push_event(stopped, action_event(action));
    }
}

/// A monitor has one worker at a time. Whatever swap chains are assigned to
/// a new monitor and taken away from it, in whatever order and with whatever
/// luck in initialising graphics devices, the log of starts and stops never
/// shows two workers running, so that between two starts there is always the
/// stop of the first; and at the end as many workers run as the monitor has.
pub proof fn lemma_one_worker_at_a_time(device: MonitorHandle, ops: Seq<MonitorOp>)
    ensures
        one_at_a_time(run_log(MonitorContextView { device, worker: None }, ops)),
        running(run_log(MonitorContextView { device, worker: None }, ops)) == workers(
            run_state(MonitorContextView { device, worker: None }, ops),
        ),
    decreases ops.len(),
{
    let fresh = MonitorContextView { device, worker: None };
    if ops.len() == 0 {
        let empty = Seq::<WorkerEvent>::empty();
        assert forall|k: int| 0 <= k <= empty.len() implies 0 <= #[trigger] running(
            empty.take(k),
        ) <= 1 by {
            assert(empty.take(k) =~= empty);
        }
    } else {
        lemma_one_worker_at_a_time(device, ops.drop_last());
        lemma_op_one_worker(
            run_log(fresh, ops.drop_last()),
            run_state(fresh, ops.drop_last()),
            ops.last(),
        );
    }
}

/// Two swap chains assigned one after the other to a new monitor, each with
/// a graphics device: the first worker starts, it stops, and only then the
/// second starts. The second is the monitor's worker at the end.
pub proof fn lemma_second_assignment_replaces(
    device: MonitorHandle,
    first: Worker,
    first_device: GraphicsDevice,
    second: Worker,
    second_device: GraphicsDevice,
)
    ensures
        run_log(
            MonitorContextView { device, worker: None },
            seq![
                MonitorOp::Assign { request: first, device: Some(first_device) },
                MonitorOp::Assign { request: second, device: Some(second_device) },
            ],
        ) == seq![
            WorkerEvent::Started(first),
            WorkerEvent::Stopped(first),
            WorkerEvent::Started(second),
        ],
        run_state(
            MonitorContextView { device, worker: None },
            seq![
                MonitorOp::Assign { request: first, device: Some(first_device) },
                MonitorOp::Assign { request: second, device: Some(second_device) },
            ],
        ).worker == Some(second),
{
    let fresh = MonitorContextView { device, worker: None };
    let one = MonitorOp::Assign { request: first, device: Some(first_device) };
    let two = MonitorOp::Assign { request: second, device: Some(second_device) };
    let ops = seq![one, two];
    assert(ops.drop_last() =~= seq![one]);
    assert(seq![one].drop_last() =~= Seq::<MonitorOp>::empty());
    assert(run_state(fresh, Seq::<MonitorOp>::empty()) == fresh);
    assert(run_log(fresh, Seq::<MonitorOp>::empty()) == Seq::<WorkerEvent>::empty());
    assert(run_state(fresh, seq![one]) == op_state(fresh, one));
    assert(run_log(fresh, seq![one]) =~= seq![WorkerEvent::Started(first)]);
    assert(run_log(fresh, ops) =~= seq![
        WorkerEvent::Started(first),
        WorkerEvent::Stopped(first),
        WorkerEvent::Started(second),
    ]);
}

/// Without a graphics device the offered swap chain is deleted, once, and no
/// worker is started: the operation adds the stop of the worker that ran, if
/// one did, and the deletion, and leaves the monitor without a worker.
pub proof fn lemma_failed_device_deletes(
    log: Seq<WorkerEvent>,
    monitor: MonitorContextView,
    request: Worker,
)
    ensures
        op_log(log, monitor, MonitorOp::Assign { request, device: None }) == after_stop(
            log,
            monitor.worker,
        ).push(WorkerEvent::Deleted(request.swap_chain)),
        op_state(monitor, MonitorOp::Assign { request, device: None }).worker is None,
{
}

/// Taking the swap chain away from a monitor that has no worker changes
/// neither the monitor nor the log.
pub proof fn lemma_unassign_idle(log: Seq<WorkerEvent>, monitor: MonitorContextView)
    requires
        monitor.worker is None,
    ensures
        op_state(monitor, MonitorOp::Unassign) == monitor,
        op_log(log, monitor, MonitorOp::Unassign) == log,
{
}

} // verus!
