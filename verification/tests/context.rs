use virtual_display_driver::error::{
    check_status, into_status, is_success, STATUS_SUCCESS, STATUS_UNSUCCESSFUL,
};
use virtual_display_driver::trace::{perform, record_action, record_stop};
use virtual_display_driver::{
    arrival_announced, context_attached, identity_ready, AdapterHandle, ContextError,
    DeviceContext, DeviceHandle, ErrorKind, EventHandle, GraphicsDevice, MonitorContext,
    MonitorHandle, MonitorOp, MonitorRegistry, ParseFailure, RenderAdapterId, StructSizes,
    SwapChainAction, SwapChainHandle, Unavailable, Worker, WorkerEvent, MAX_MONITORS,
};

const STATUS_INVALID_PARAMETER: i32 = -1073741811;
const STATUS_NO_MEMORY: i32 = -1073741801;

fn sizes() -> StructSizes {
    StructSizes {
        endpoint_version: 16,
        adapter_caps: 96,
        endpoint_diagnostics: 56,
        monitor_info: 56,
        monitor_description: 24,
    }
}

fn worker(n: usize) -> Worker {
    Worker {
        swap_chain: SwapChainHandle(0x5000 + n),
        render_adapter: RenderAdapterId { low_part: n as u32, high_part: -(n as i32) },
        new_frame_event: EventHandle(0x6000 + n),
    }
}

fn ready_adapter() -> DeviceContext {
    let mut context = DeviceContext::new(DeviceHandle(0xd0));
    context.adapter_initialized(STATUS_SUCCESS, AdapterHandle(0xa0)).unwrap();
    context
}

fn identity_for(index: u32) -> Vec<u8> {
    let mut bytes = vec![0x00, 0xff, 0xff, 0xff, 0xff, 0xff, 0xff, 0x00];
    bytes.extend((0..120u32).map(|i| (i.wrapping_mul(31).wrapping_add(index) % 256) as u8));
    bytes
}

#[test]
fn status_is_a_success_when_not_negative() {
    assert!(is_success(0));
    assert!(is_success(1));
    assert!(is_success(i32::MAX));
    assert!(!is_success(-1));
    assert!(!is_success(STATUS_UNSUCCESSFUL));
    assert!(!is_success(i32::MIN));
}

#[test]
fn check_status_wraps_the_failure() {
    assert_eq!(check_status(0), Ok(()));
    assert_eq!(check_status(263), Ok(()));
    assert_eq!(
        check_status(STATUS_NO_MEMORY),
        Err(ContextError::Ntstatus(STATUS_NO_MEMORY))
    );
}

#[test]
fn failures_fall_into_four_kinds() {
    assert_eq!(ContextError::ParseInt(ParseFailure::Empty).kind(), ErrorKind::NumericConversion);
    assert_eq!(ContextError::TryFromInt.kind(), ErrorKind::NumericConversion);
    assert_eq!(ContextError::Ntstatus(-1).kind(), ErrorKind::FrameworkStatus);
    assert_eq!(ContextError::IddCx(-1).kind(), ErrorKind::FrameworkStatus);
    assert_eq!(ContextError::Wdf(-1).kind(), ErrorKind::FrameworkStatus);
    assert_eq!(ContextError::Win(-1).kind(), ErrorKind::FrameworkStatus);
    assert_eq!(ContextError::Other(Unavailable::Adapter).kind(), ErrorKind::ResourceUnavailable);
    assert_eq!(
        ContextError::Other(Unavailable::RegistryLock).kind(),
        ErrorKind::ResourceUnavailable
    );
    assert_eq!(
        ContextError::Other(Unavailable::IdentityDescriptor).kind(),
        ErrorKind::ExternalDependency
    );
    assert_eq!(Unavailable::IdentityDescriptor.kind(), ErrorKind::ExternalDependency);
    assert_eq!(Unavailable::Adapter.kind(), ErrorKind::ResourceUnavailable);
}

#[test]
fn failures_have_a_failing_status() {
    assert_eq!(ContextError::IddCx(STATUS_NO_MEMORY).status(), STATUS_NO_MEMORY);
    assert_eq!(ContextError::Wdf(STATUS_INVALID_PARAMETER).status(), STATUS_INVALID_PARAMETER);
    assert_eq!(ContextError::Win(-2147467259).status(), -2147467259);
    assert_eq!(ContextError::Ntstatus(-7).status(), -7);
    assert_eq!(ContextError::Ntstatus(0).status(), STATUS_UNSUCCESSFUL);
    assert_eq!(ContextError::IddCx(5).status(), STATUS_UNSUCCESSFUL);
    assert_eq!(ContextError::TryFromInt.status(), STATUS_UNSUCCESSFUL);
    assert_eq!(ContextError::ParseInt(ParseFailure::Empty).status(), STATUS_UNSUCCESSFUL);
    assert_eq!(ContextError::Other(Unavailable::Adapter).status(), STATUS_UNSUCCESSFUL);
    assert_eq!(STATUS_UNSUCCESSFUL, 0xC000_0001u32 as i32);
}

#[test]
fn into_status_reports_success_and_failure() {
    assert_eq!(into_status(Ok(())), 0);
    assert_eq!(into_status(Err(ContextError::IddCx(STATUS_NO_MEMORY))), STATUS_NO_MEMORY);
    assert_eq!(into_status(Err(ContextError::TryFromInt)), STATUS_UNSUCCESSFUL);
}

#[test]
fn new_device_context_has_no_adapter() {
    let context = DeviceContext::new(DeviceHandle(0x1234));
    assert_eq!(context.device(), DeviceHandle(0x1234));
    assert_eq!(context.adapter(), None);
}

#[test]
fn init_adapter_builds_the_request() {
    let context = DeviceContext::new(DeviceHandle(0x1234));
    let request = context.init_adapter(&sizes(), "0", "3", "1").unwrap();
    assert_eq!(request.device, DeviceHandle(0x1234));
    assert_eq!(request.caps.size, 96);
    assert_eq!(request.caps.max_monitors_supported, 16);
    assert_eq!(request.caps.endpoint_diagnostics.firmware_version.major, 0);
    assert_eq!(request.caps.endpoint_diagnostics.firmware_version.minor, 3);
    assert_eq!(request.caps.endpoint_diagnostics.firmware_version.build, 1);
    assert_eq!(context.adapter(), None);
}

#[test]
fn init_adapter_reports_conversion_failures() {
    let context = DeviceContext::new(DeviceHandle(1));
    assert_eq!(
        context.init_adapter(&sizes(), "0", "3", "1-beta").err(),
        Some(ContextError::ParseInt(ParseFailure::InvalidDigit))
    );
    let mut s = sizes();
    s.adapter_caps = usize::MAX;
    let failure = context.init_adapter(&s, "0", "3", "1").err().unwrap();
    assert_eq!(failure, ContextError::TryFromInt);
    assert_eq!(failure.kind(), ErrorKind::NumericConversion);
}

#[test]
fn adapter_initialized_stores_the_adapter() {
    let mut context = DeviceContext::new(DeviceHandle(7));
    assert_eq!(
        context.adapter_initialized(STATUS_SUCCESS, AdapterHandle(0xabc)),
        Ok(AdapterHandle(0xabc))
    );
    assert_eq!(context.adapter(), Some(AdapterHandle(0xabc)));
    assert_eq!(context.device(), DeviceHandle(7));
}

#[test]
fn adapter_initialized_keeps_the_state_on_failure() {
    let mut context = DeviceContext::new(DeviceHandle(7));
    assert_eq!(
        context.adapter_initialized(STATUS_NO_MEMORY, AdapterHandle(0xabc)),
        Err(ContextError::IddCx(STATUS_NO_MEMORY))
    );
    assert_eq!(context.adapter(), None);
    context.adapter_initialized(0, AdapterHandle(1)).unwrap();
    assert_eq!(
        context.adapter_initialized(-1, AdapterHandle(2)),
        Err(ContextError::IddCx(-1))
    );
    assert_eq!(context.adapter(), Some(AdapterHandle(1)));
}

#[test]
fn attaching_and_announcing_map_the_status() {
    assert_eq!(context_attached(0), Ok(()));
    assert_eq!(context_attached(STATUS_NO_MEMORY), Err(ContextError::Wdf(STATUS_NO_MEMORY)));
    assert_eq!(arrival_announced(0), Ok(()));
    assert_eq!(
        arrival_announced(STATUS_INVALID_PARAMETER),
        Err(ContextError::IddCx(STATUS_INVALID_PARAMETER))
    );
}

#[test]
fn finish_init_is_always_a_success() {
    assert_eq!(DeviceContext::finish_init(), 0);
    assert!(is_success(DeviceContext::finish_init()));
}

#[test]
fn create_monitor_admits_connectors_below_the_maximum() {
    let context = ready_adapter();
    for index in 0..u32::from(MAX_MONITORS) {
        assert_eq!(context.create_monitor(index), Ok(()));
    }
    for index in [16, 17, 100, u32::MAX] {
        assert_eq!(
            context.create_monitor(index),
            Err(ContextError::Other(Unavailable::Connector))
        );
    }
}

#[test]
fn identity_failure_ends_the_creation() {
    assert_eq!(identity_ready(Some(vec![1, 2, 3])), Ok(vec![1, 2, 3]));
    let failure = identity_ready(None).err().unwrap();
    assert_eq!(failure, ContextError::Other(Unavailable::IdentityDescriptor));
    assert_eq!(failure.kind(), ErrorKind::ExternalDependency);
}

#[test]
fn monitor_request_embeds_the_identity_verbatim() {
    let context = ready_adapter();
    for index in 0..u32::from(MAX_MONITORS) {
        let identity = identity_for(index);
        let request =
            context.monitor_request(&sizes(), index, Ok(77 + u128::from(index)), identity.clone()).unwrap();
        assert_eq!(request.adapter, AdapterHandle(0xa0));
        assert_eq!(request.info.connector_index, index);
        assert_eq!(request.info.container_id, 77 + u128::from(index));
        assert_eq!(request.info.description.data_size as usize, identity.len());
        assert_eq!(request.info.description.data, identity);
    }
}

#[test]
fn monitor_request_fails_in_order() {
    let unready = DeviceContext::new(DeviceHandle(1));
    assert_eq!(
        unready.monitor_request(&sizes(), 16, Err(-5), vec![1]).err(),
        Some(ContextError::Other(Unavailable::Connector))
    );
    assert_eq!(
        unready.monitor_request(&sizes(), 15, Err(-5), vec![1]).err(),
        Some(ContextError::Win(-5))
    );
    assert_eq!(
        unready.monitor_request(&sizes(), 15, Ok(5), vec![1]).err(),
        Some(ContextError::Other(Unavailable::Adapter))
    );
    assert!(ready_adapter().monitor_request(&sizes(), 15, Ok(5), vec![1]).is_ok());
}

#[test]
fn created_monitor_is_found_in_the_registry() {
    for index in 0..u32::from(MAX_MONITORS) {
        let mut registry = MonitorRegistry::new();
        let handle = MonitorHandle(0x7000 + index as usize);
        let monitor = DeviceContext::monitor_created(&mut registry, index, 0, handle).unwrap();
        assert_eq!(monitor.device(), handle);
        assert_eq!(monitor.worker(), None);
        assert_eq!(registry.monitor(index), Some(handle));
        assert_eq!(registry.len(), 1);
    }
}

#[test]
fn rejected_creation_has_no_side_effects() {
    let mut registry = MonitorRegistry::new();
    registry.set_handle(2, MonitorHandle(0x22)).unwrap();
    for index in [16, 17, 1000, u32::MAX] {
        let r = DeviceContext::monitor_created(&mut registry, index, 0, MonitorHandle(0x99));
        assert_eq!(r.err(), Some(ContextError::Other(Unavailable::Connector)));
        assert!(registry.get(index).is_none());
    }
    let r = DeviceContext::monitor_created(&mut registry, 2, STATUS_NO_MEMORY, MonitorHandle(0x99));
    assert_eq!(r.err(), Some(ContextError::IddCx(STATUS_NO_MEMORY)));
    let r = DeviceContext::monitor_created(&mut registry, 2, 0, MonitorHandle(0));
    assert_eq!(r.err(), Some(ContextError::Other(Unavailable::MonitorObject)));
    let r = DeviceContext::monitor_created(&mut registry, 3, -1, MonitorHandle(0));
    assert_eq!(r.err(), Some(ContextError::IddCx(-1)));
    assert_eq!(registry.len(), 1);
    assert_eq!(registry.monitor(2), Some(MonitorHandle(0x22)));
}

#[test]
fn failed_announcement_keeps_the_registry_entry() {
    let mut registry = MonitorRegistry::new();
    let monitor = DeviceContext::monitor_created(&mut registry, 1, 0, MonitorHandle(0x41)).unwrap();
    assert_eq!(context_attached(0), Ok(()));
    assert_eq!(arrival_announced(STATUS_NO_MEMORY), Err(ContextError::IddCx(STATUS_NO_MEMORY)));
    assert_eq!(registry.monitor(1), Some(MonitorHandle(0x41)));
    assert_eq!(monitor.device(), MonitorHandle(0x41));
}

#[test]
fn new_monitor_context_has_no_worker() {
    let monitor = MonitorContext::new(MonitorHandle(9));
    assert_eq!(monitor.device(), MonitorHandle(9));
    assert_eq!(monitor.worker(), None);
}

#[test]
fn assignment_starts_a_worker() {
    let mut monitor = MonitorContext::new(MonitorHandle(9));
    let w = worker(1);
    let pending = monitor.assign_swap_chain(w.swap_chain, w.render_adapter, w.new_frame_event);
    assert_eq!(pending.stop(), None);
    assert_eq!(pending.request(), w);
    assert_eq!(monitor.worker(), None);
    let action = monitor.complete_assignment(pending, Some(GraphicsDevice(0xd3d)));
    assert_eq!(action, SwapChainAction::StartWorker { worker: w, device: GraphicsDevice(0xd3d) });
    assert_eq!(monitor.worker(), Some(w));
    assert_eq!(monitor.device(), MonitorHandle(9));
}

#[test]
fn second_assignment_stops_the_first_worker_first() {
    let mut monitor = MonitorContext::new(MonitorHandle(9));
    let mut log = Vec::new();
    let (first, second) = (worker(1), worker(2));

    let pending =
        monitor.assign_swap_chain(first.swap_chain, first.render_adapter, first.new_frame_event);
    record_stop(&mut log, pending.stop());
    let action = monitor.complete_assignment(pending, Some(GraphicsDevice(1)));
    record_action(&mut log, action);
    assert_eq!(monitor.worker(), Some(first));

    let pending =
        monitor.assign_swap_chain(second.swap_chain, second.render_adapter, second.new_frame_event);
    assert_eq!(pending.stop(), Some(first));
    assert_eq!(monitor.worker(), None);
    record_stop(&mut log, pending.stop());
    let action = monitor.complete_assignment(pending, Some(GraphicsDevice(2)));
    record_action(&mut log, action);
    assert_eq!(monitor.worker(), Some(second));

    assert_eq!(
        log,
        vec![
            WorkerEvent::Started(first),
            WorkerEvent::Stopped(first),
            WorkerEvent::Started(second),
        ]
    );
}

#[test]
fn unassign_without_a_worker_changes_nothing() {
    let mut monitor = MonitorContext::new(MonitorHandle(9));
    assert_eq!(monitor.unassign_swap_chain(), None);
    assert_eq!(monitor.unassign_swap_chain(), None);
    assert_eq!(monitor.worker(), None);
    assert_eq!(monitor.device(), MonitorHandle(9));
}

#[test]
fn unassign_gives_up_the_worker() {
    let mut monitor = MonitorContext::new(MonitorHandle(9));
    let w = worker(3);
    let pending = monitor.assign_swap_chain(w.swap_chain, w.render_adapter, w.new_frame_event);
    monitor.complete_assignment(pending, Some(GraphicsDevice(1)));
    assert_eq!(monitor.unassign_swap_chain(), Some(w));
    assert_eq!(monitor.worker(), None);
    assert_eq!(monitor.unassign_swap_chain(), None);
}

#[test]
fn failed_device_deletes_the_swap_chain_once() {
    let mut monitor = MonitorContext::new(MonitorHandle(9));
    let mut log = Vec::new();
    let w = worker(4);
    perform(&mut monitor, MonitorOp::Assign { request: w, device: None }, &mut log);
    assert_eq!(log, vec![WorkerEvent::Deleted(w.swap_chain)]);
    assert_eq!(monitor.worker(), None);
}

#[test]
fn failed_device_after_a_running_worker() {
    let mut monitor = MonitorContext::new(MonitorHandle(9));
    let mut log = Vec::new();
    let (first, second) = (worker(1), worker(2));
    perform(&mut monitor, MonitorOp::Assign { request: first, device: Some(GraphicsDevice(1)) }, &mut log);
    perform(&mut monitor, MonitorOp::Assign { request: second, device: None }, &mut log);
    assert_eq!(
        log,
        vec![
            WorkerEvent::Started(first),
            WorkerEvent::Stopped(first),
            WorkerEvent::Deleted(second.swap_chain),
        ]
    );
    assert_eq!(monitor.worker(), None);
}

#[test]
fn stale_assignment_is_dropped() {
    let mut monitor = MonitorContext::new(MonitorHandle(9));
    let (first, second) = (worker(1), worker(2));
    let stale = monitor.assign_swap_chain(first.swap_chain, first.render_adapter, first.new_frame_event);
    let fresh =
        monitor.assign_swap_chain(second.swap_chain, second.render_adapter, second.new_frame_event);
    assert_eq!(
        monitor.complete_assignment(fresh, Some(GraphicsDevice(2))),
        SwapChainAction::StartWorker { worker: second, device: GraphicsDevice(2) }
    );
    assert_eq!(
        monitor.complete_assignment(stale, Some(GraphicsDevice(1))),
        SwapChainAction::DeleteSwapChain(first.swap_chain)
    );
    assert_eq!(monitor.worker(), Some(second));
}

#[test]
fn log_never_shows_two_workers() {
    let mut monitor = MonitorContext::new(MonitorHandle(9));
    let mut log = Vec::new();
    let mut seed: u32 = 12345;
    for n in 0..500usize {
        seed = seed.wrapping_mul(1664525).wrapping_add(1013904223);
        let op = match (seed >> 16) % 3 {
            0 => MonitorOp::Unassign,
            1 => MonitorOp::Assign { request: worker(n), device: None },
            _ => MonitorOp::Assign { request: worker(n), device: Some(GraphicsDevice(n + 1)) },
        };
        perform(&mut monitor, op, &mut log);
        let mut running: i32 = 0;
        let mut last_started = None;
        for event in &log {
            match event {
                WorkerEvent::Started(w) => {
                    running += 1;
                    last_started = Some(*w);
                }
                WorkerEvent::Stopped(w) => {
                    assert_eq!(last_started, Some(*w));
                    running -= 1;
                }
                WorkerEvent::Deleted(_) => {}
            }
            assert!(running == 0 || running == 1);
        }
        assert_eq!(running == 1, monitor.worker().is_some());
    }
}

#[test]
fn adapter_with_three_monitors() {
    let mut adapter = DeviceContext::new(DeviceHandle(0xd0));
    let mut registry = MonitorRegistry::new();

    let request = adapter.init_adapter(&sizes(), "0", "3", "1").unwrap();
    assert_eq!(request.device, DeviceHandle(0xd0));
    let object = adapter.adapter_initialized(STATUS_SUCCESS, AdapterHandle(0xa0)).unwrap();
    assert_eq!(object, AdapterHandle(0xa0));
    assert_eq!(context_attached(STATUS_SUCCESS), Ok(()));
    assert_eq!(DeviceContext::finish_init(), STATUS_SUCCESS);

    let mut monitors = Vec::new();
    for index in 0..3u32 {
        assert_eq!(adapter.create_monitor(index), Ok(()));
        let identity = identity_ready(Some(identity_for(index))).unwrap();
        let request = adapter.monitor_request(&sizes(), index, Ok(u128::from(index) + 1), identity).unwrap();
        assert_eq!(request.adapter, AdapterHandle(0xa0));
        assert_eq!(request.info.description.data, identity_for(index));
        let handle = MonitorHandle(0x100 + index as usize);
        let monitor = DeviceContext::monitor_created(&mut registry, index, STATUS_SUCCESS, handle).unwrap();
        assert_eq!(context_attached(STATUS_SUCCESS), Ok(()));
        assert_eq!(arrival_announced(STATUS_SUCCESS), Ok(()));
        monitors.push(monitor);
    }

    assert_eq!(registry.len(), 3);
    for index in 0..3u32 {
        assert_eq!(registry.monitor(index), Some(MonitorHandle(0x100 + index as usize)));
        assert_eq!(monitors[index as usize].device(), MonitorHandle(0x100 + index as usize));
    }
    assert!(registry.get(3).is_none());

    let count = |m: &MonitorContext| usize::from(m.worker().is_some());
    let w = worker(1);
    let pending = monitors[1].assign_swap_chain(w.swap_chain, w.render_adapter, w.new_frame_event);
    assert_eq!(pending.stop(), None);
    let action = monitors[1].complete_assignment(pending, Some(GraphicsDevice(0xd3d)));
    assert_eq!(action, SwapChainAction::StartWorker { worker: w, device: GraphicsDevice(0xd3d) });
    assert_eq!(count(&monitors[1]), 1);
    assert_eq!(count(&monitors[0]), 0);
    assert_eq!(count(&monitors[2]), 0);

    assert_eq!(monitors[1].unassign_swap_chain(), Some(w));
    assert_eq!(count(&monitors[1]), 0);
    assert_eq!(count(&monitors[0]), 0);
    assert_eq!(count(&monitors[2]), 0);
}
