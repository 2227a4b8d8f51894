//! The adapter controller and the monitor controller.
//!
//! Both are written as steps. A step never calls out: it takes what the
//! framework answered to the previous request, updates the controller and
//! returns what the host has to do next. The order of the steps is the order
//! in which the host must act.
//!
//! Bringing up the adapter:
//! [`DeviceContext::init_adapter`] builds the request, the host submits it,
//! [`DeviceContext::adapter_initialized`] records the answer, the host
//! attaches the controller to the adapter object and passes the status
//! through [`context_attached`].
//!
//! Creating a monitor:
//! [`DeviceContext::create_monitor`] admits the connector, the host asks for
//! its identity descriptor and passes the answer through [`identity_ready`],
//! then asks for a container identifier; [`DeviceContext::monitor_request`]
//! builds the request, the host submits it,
//! [`DeviceContext::monitor_created`] records the new object in the registry
//! and makes its controller; the host attaches that controller
//! ([`context_attached`]) and announces the monitor ([`arrival_announced`]).
//!
//! Monitors are created on demand, one for each command that the
//! configuration listener receives; none is created when the adapter becomes
//! ready, and the registry starts out empty.

use crate::descriptor::{
    adapter_caps, adapter_caps_spec, monitor_info, monitor_info_spec, AdapterCaps, MonitorInfo,
    MonitorInfoView, StructSizes,
};
use crate::error::{is_success, status_ok, ContextError, Unavailable, STATUS_SUCCESS};
use crate::handle::{
    AdapterHandle, DeviceHandle, EventHandle, GraphicsDevice, MonitorHandle, RenderAdapterId,
    SwapChainHandle,
};
use crate::registry::{
    entry_of, handle_of, mode_of, set_handle_result, with_handle, MonitorRegistry, RegistryEntry,
    MAX_MONITORS,
};
use vstd::prelude::*;

verus! {

/// The adapter controller: it owns the adapter object once there is one.
#[derive(Debug)]
pub struct DeviceContext {
    device: DeviceHandle,
    adapter: Option<AdapterHandle>,
}

/// The state of a [`DeviceContext`].
pub struct DeviceContextView {
    /// The framework device that the adapter belongs to. It is borrowed.
    pub device: DeviceHandle,
    /// The adapter object, once initialisation has succeeded.
    pub adapter: Option<AdapterHandle>,
}

impl View for DeviceContext {
    type V = DeviceContextView;

    closed spec fn view(&self) -> DeviceContextView {
        DeviceContextView { device: self.device, adapter: self.adapter }
    }
}

/// The request to initialise the adapter.
#[derive(Clone, Copy, Debug, PartialEq, Eq)]
pub struct AdapterInit {
    /// The device that will own the adapter.
    pub device: DeviceHandle,
    /// What the adapter announces of itself.
    pub caps: AdapterCaps,
}

/// The request to create a monitor.
#[derive(Clone, Debug, PartialEq, Eq)]
pub struct MonitorCreate {
    /// The adapter under which the monitor is created.
    pub adapter: AdapterHandle,
    /// What the monitor is.
    pub info: MonitorInfo,
}

/// What a frame delivery worker is bound to from its start to its stop.
#[derive(Clone, Copy, Debug, PartialEq, Eq, Structural)]
pub struct Worker {
    /// The swap chain whose frames the worker delivers.
    pub swap_chain: SwapChainHandle,
    /// The adapter that renders into the swap chain.
    pub render_adapter: RenderAdapterId,
    /// The event that tells the worker of a new frame.
    pub new_frame_event: EventHandle,
}

/// The monitor controller: it owns one monitor object and at most one frame
/// delivery worker.
#[derive(Debug)]
pub struct MonitorContext {
    device: MonitorHandle,
    swap_chain_processor: Option<Worker>,
}

/// The state of a [`MonitorContext`].
pub struct MonitorContextView {
    /// The monitor object.
    pub device: MonitorHandle,
    /// The worker that is running for this monitor, if one is.
    pub worker: Option<Worker>,
}

impl View for MonitorContext {
    type V = MonitorContextView;

    closed spec fn view(&self) -> MonitorContextView {
        MonitorContextView { device: self.device, worker: self.swap_chain_processor }
    }
}

/// A swap chain that has been offered and waits for its graphics device.
///
/// It can only be had from [`MonitorContext::assign_swap_chain`], and
/// [`MonitorContext::complete_assignment`] uses it up.
#[derive(Debug)]
pub struct PendingAssignment {
    stop: Option<Worker>,
    request: Worker,
}

/// The content of a [`PendingAssignment`].
pub struct PendingAssignmentView {
    /// The worker that ran until now. The host stops it, and waits until it
    /// has stopped, before it does anything else.
    pub stop: Option<Worker>,
    /// What the new worker will be bound to. The host initialises a graphics
    /// device for `request.render_adapter` once the old worker has stopped.
    pub request: Worker,
}

impl View for PendingAssignment {
    type V = PendingAssignmentView;

    closed spec fn view(&self) -> PendingAssignmentView {
        PendingAssignmentView { stop: self.stop, request: self.request }
    }
}

/// What the host does with a swap chain once the graphics device has, or has
/// not, been initialised.
#[derive(Clone, Copy, Debug, PartialEq, Eq, Structural)]
pub enum SwapChainAction {
    /// Start a worker bound to `worker`, on `device`.
    StartWorker { worker: Worker, device: GraphicsDevice },
    /// Delete the swap chain object, so that the system makes a new one and
    /// offers it again.
    DeleteSwapChain(SwapChainHandle),
}

/// A framework status as a result: `failure` wraps a status that is not a
/// success.
pub open spec fn status_result(status: i32, failure: ContextError) -> Result<(), ContextError> {
    if status_ok(status) {
        Ok(())
    } else {
        Err(failure)
    }
}

/// The answer of the identity descriptor provider: its bytes, or the failure
/// to report when it delivered none.
pub open spec fn identity_ready_spec(identity: Option<Seq<u8>>) -> Result<Seq<u8>, ContextError> {
    match identity {
        Some(bytes) => Ok(bytes),
        None => Err(ContextError::Other(Unavailable::IdentityDescriptor)),
    }
}

/// Takes the answer of the identity descriptor provider. Without a descriptor
/// the monitor cannot be created; the adapter is not affected.
pub fn identity_ready(identity: Option<Vec<u8>>) -> (r: Result<Vec<u8>, ContextError>)
    ensures
        match identity_ready_spec(
            match identity {
                Some(bytes) => Some(bytes@),
                None => None,
            },
        ) {
            Ok(bytes) => r is Ok && r->Ok_0@ == bytes,
            Err(e) => r is Err && r->Err_0 == e,
        },
{
    match identity {
        Some(bytes) => Ok(bytes),
        None => Err(ContextError::Other(Unavailable::IdentityDescriptor)),
    }
}

/// Takes the status with which the driver framework answered the request to
/// attach a controller to an object.
pub fn context_attached(status: i32) -> (r: Result<(), ContextError>)
    ensures
        r == status_result(status, ContextError::Wdf(status)),
{
    if is_success(status) {
        Ok(())
    } else {
        Err(ContextError::Wdf(status))
    }
}

/// Takes the status with which the display framework answered the
/// announcement of a monitor. A failure is reported and undoes nothing: the
/// monitor object exists and stays in the registry.
pub fn arrival_announced(status: i32) -> (r: Result<(), ContextError>)
    ensures
        r == status_result(status, ContextError::IddCx(status)),
{
    if is_success(status) {
        Ok(())
    } else {
        Err(ContextError::IddCx(status))
    }
}

/// Whether a monitor may be created on a connector: the connector has to be
/// below [`MAX_MONITORS`].
pub open spec fn admit_connector(index: u32) -> Result<(), ContextError> {
    if index < MAX_MONITORS {
        Ok(())
    } else {
        Err(ContextError::Other(Unavailable::Connector))
    }
}

/// The request to create a monitor on connector `index`, for a controller in
/// state `context`. The connector is looked at first, then the description is
/// built, then the adapter is asked for; the first that fails decides the
/// failure.
pub open spec fn monitor_request_spec(
    context: DeviceContextView,
    sizes: StructSizes,
    index: u32,
    container: Result<u128, i32>,
    identity: Seq<u8>,
) -> Result<(AdapterHandle, MonitorInfoView), ContextError> {
    if index >= MAX_MONITORS {
        Err(ContextError::Other(Unavailable::Connector))
    } else {
        match monitor_info_spec(sizes, index, container, identity) {
            Err(e) => Err(e),
            Ok(info) => match context.adapter {
                None => Err(ContextError::Other(Unavailable::Adapter)),
                Some(adapter) => Ok((adapter, info)),
            },
        }
    }
}

/// What becomes of a new monitor object: nothing if the framework refused to
/// create it, a registry entry and a controller otherwise, unless the
/// registry refuses the connector or the object.
pub open spec fn monitor_created_spec(index: u32, status: i32, monitor_object: MonitorHandle)
    -> Result<(), ContextError> {
    if !status_ok(status) {
        Err(ContextError::IddCx(status))
    } else {
        set_handle_result(index, monitor_object)
    }
}

impl DeviceContext {
    /// The controller of an adapter that is not initialised yet.
    pub fn new(device: DeviceHandle) -> (context: DeviceContext)
        ensures
            context@ == (DeviceContextView { device, adapter: None }),
    {
        DeviceContext { device, adapter: None }
    }

    /// The framework device that the adapter belongs to.
    pub fn device(&self) -> (device: DeviceHandle)
        ensures
            device == self@.device,
    {
        self.device
    }

    /// The adapter object, once initialisation has succeeded.
    pub fn adapter(&self) -> (adapter: Option<AdapterHandle>)
        ensures
            adapter == self@.adapter,
    {
        self.adapter
    }

    /// Builds the request to initialise the adapter, from the sizes of the
    /// framework's structures and the three components of the driver's
    /// version. Nothing is retried: a failure ends the bring-up.
    pub fn init_adapter(&self, sizes: &StructSizes, major: &str, minor: &str, patch: &str) -> (r:
        Result<AdapterInit, ContextError>)
        ensures
            match adapter_caps_spec(*sizes, major@, minor@, patch@) {
                Ok(caps) => r == Ok::<AdapterInit, ContextError>(
                    AdapterInit { device: self@.device, caps },
                ),
                Err(e) => r == Err::<AdapterInit, ContextError>(e),
            },
    {
        match adapter_caps(sizes, major, minor, patch) {
            Ok(caps) => Ok(AdapterInit { device: self.device, caps }),
            Err(e) => Err(e),
        }
    }

    /// Takes the framework's answer to the request to initialise the adapter.
    ///
    /// On success the adapter object is stored and returned: the host
    /// attaches this controller to it. On failure the controller stays as it
    /// was and the framework's status is reported.
    pub fn adapter_initialized(&mut self, status: i32, adapter_object: AdapterHandle) -> (r: Result<
        AdapterHandle,
        ContextError,
    >)
        ensures
            final(self)@.device == old(self)@.device,
            status_ok(status) ==> r == Ok::<AdapterHandle, ContextError>(adapter_object)
                && final(self)@.adapter == Some(adapter_object),
            !status_ok(status) ==> r == Err::<AdapterHandle, ContextError>(
                ContextError::IddCx(status),
            ) && final(self)@ == old(self)@,
    {
        if is_success(status) {
            self.adapter = Some(adapter_object);
            Ok(adapter_object)
        } else {
            Err(ContextError::IddCx(status))
        }
    }

    /// The status that is reported once the adapter is ready. It is always a
    /// success: the host starts the configuration listener, and whatever
    /// happens to a monitor later does not undo the adapter.
    pub fn finish_init() -> (status: i32)
        ensures
            status == STATUS_SUCCESS,
            status_ok(status),
    {
        STATUS_SUCCESS
    }

    /// Admits a connector for a new monitor. A connector at or above
    /// [`MAX_MONITORS`] is refused before anything is asked of anyone.
    pub fn create_monitor(&self, index: u32) -> (r: Result<(), ContextError>)
        ensures
            r == admit_connector(index),
    {
        if index < MAX_MONITORS as u32 {
            Ok(())
        } else {
            Err(ContextError::Other(Unavailable::Connector))
        }
    }

    /// Builds the request to create a monitor on connector `index` from its
    /// identity bytes and from what the system answered when it was asked for
    /// a container identifier.
    pub fn monitor_request(
        &self,
        sizes: &StructSizes,
        index: u32,
        container: Result<u128, i32>,
        identity: Vec<u8>,
    ) -> (r: Result<MonitorCreate, ContextError>)
        ensures
            match monitor_request_spec(self@, *sizes, index, container, identity@) {
                Ok((adapter, info)) => r is Ok && r->Ok_0.adapter == adapter && r->Ok_0.info@
                    == info,
                Err(e) => r is Err && r->Err_0 == e,
            },
    {
        if index >= MAX_MONITORS as u32 {
            return Err(ContextError::Other(Unavailable::Connector));
        }
        let info = match monitor_info(sizes, index, container, identity) {
            Ok(info) => info,
            Err(e) => {
                return Err(e);
            },
        };
        match self.adapter {
            Some(adapter) => Ok(MonitorCreate { adapter, info }),
            None => Err(ContextError::Other(Unavailable::Adapter)),
        }
    }

    /// Takes the framework's answer to the request to create a monitor on
    /// connector `index`.
    ///
    /// On success the monitor object is recorded in the registry under its
    /// connector, and the controller of the new monitor is returned: the host
    /// attaches it to the object and then announces the monitor. On any
    /// failure the registry stays as it was. The host holds the registry's
    /// lock for the length of this call and no longer.
    pub fn monitor_created(
        registry: &mut MonitorRegistry,
        index: u32,
        status: i32,
        monitor_object: MonitorHandle,
    ) -> (r: Result<MonitorContext, ContextError>)
        requires
            old(registry).wf(),
        ensures
            final(registry).wf(),
            match monitor_created_spec(index, status, monitor_object) {
                Ok(()) => {
                    &&& r is Ok
                    &&& r->Ok_0@ == (MonitorContextView { device: monitor_object, worker: None })
                    &&& final(registry)@ == with_handle(old(registry)@, index, Some(monitor_object))
                },
                Err(e) => r is Err && r->Err_0 == e && final(registry)@ == old(registry)@,
            },
    {
        if !is_success(status) {
            return Err(ContextError::IddCx(status));
        }
        match registry.set_handle(index, monitor_object) {
            Ok(()) => Ok(MonitorContext::new(monitor_object)),
            Err(e) => Err(e),
        }
    }
}

impl MonitorContext {
    /// The controller of a monitor that has no worker.
    pub fn new(device: MonitorHandle) -> (context: MonitorContext)
        ensures
            context@ == (MonitorContextView { device, worker: None }),
    {
        MonitorContext { device, swap_chain_processor: None }
    }

    /// The monitor object.
    pub fn device(&self) -> (device: MonitorHandle)
        ensures
            device == self@.device,
    {
        self.device
    }

    /// The worker that is running for this monitor, if one is.
    pub fn worker(&self) -> (worker: Option<Worker>)
        ensures
            worker == self@.worker,
    {
        self.swap_chain_processor
    }

    /// Takes a swap chain that the system offers for this monitor.
    ///
    /// The worker that ran until now, if there was one, is given up: the
    /// monitor has no worker from here on, and the host stops the old one
    /// before it initialises the graphics device. What follows is decided by
    /// [`MonitorContext::complete_assignment`].
    pub fn assign_swap_chain(
        &mut self,
        swap_chain: SwapChainHandle,
        render_adapter: RenderAdapterId,
        new_frame_event: EventHandle,
    ) -> (pending: PendingAssignment)
        ensures
            final(self)@ == (MonitorContextView { device: old(self)@.device, worker: None }),
            pending@ == (PendingAssignmentView {
                stop: old(self)@.worker,
                request: Worker { swap_chain, render_adapter, new_frame_event },
            }),
    {
        let stop = self.swap_chain_processor;
        self.swap_chain_processor = None;
        PendingAssignment { stop, request: Worker { swap_chain, render_adapter, new_frame_event } }
    }

    /// Decides what becomes of an offered swap chain once the host has tried
    /// to initialise the graphics device: `device` is the device, or `None`
    /// if there is none.
    ///
    /// With a device, and with no worker running, a worker is to be started
    /// and is recorded as this monitor's worker. In every other case the swap
    /// chain is to be deleted and the monitor stays as it was: no failure is
    /// reported to anyone, the system will offer another swap chain.
    pub fn complete_assignment(&mut self, pending: PendingAssignment, device: Option<
        GraphicsDevice,
    >) -> (action: SwapChainAction)
        ensures
            action == complete_action(old(self)@, pending@, device),
            final(self)@ == complete_state(old(self)@, pending@, device),
            device is None ==> action == SwapChainAction::DeleteSwapChain(
                pending@.request.swap_chain,
            ) && final(self)@ == old(self)@,
    {
        match (self.swap_chain_processor, device) {
            (None, Some(device)) => {
                self.swap_chain_processor = Some(pending.request);
                SwapChainAction::StartWorker { worker: pending.request, device }
            },
            _ => SwapChainAction::DeleteSwapChain(pending.request.swap_chain),
        }
    }

    /// Takes the swap chain away from this monitor: the worker, if one ran,
    /// is given up and returned for the host to stop. Without a worker
    /// nothing changes.
    pub fn unassign_swap_chain(&mut self) -> (stop: Option<Worker>)
        ensures
            stop == old(self)@.worker,
            final(self)@ == (MonitorContextView { device: old(self)@.device, worker: None }),
            old(self)@.worker is None ==> final(self)@ == old(self)@,
    {
        let stop = self.swap_chain_processor;
        self.swap_chain_processor = None;
        stop
    }
}

impl PendingAssignment {
    /// The worker that the host stops first, if there is one.
    pub fn stop(&self) -> (stop: Option<Worker>)
        ensures
            stop == self@.stop,
    {
        self.stop
    }

    /// What the new worker will be bound to.
    pub fn request(&self) -> (request: Worker)
        ensures
            request == self@.request,
    {
        self.request
    }
}

/// A created monitor is found under its connector. For every connector below
/// [`MAX_MONITORS`], once the framework has created a monitor object that is
/// not null, the registry as [`DeviceContext::monitor_created`] leaves it
/// yields that object for the connector, keeps the connector's mode, and
/// holds every other connector's entry as before. A connector at or above
/// the maximum is refused at every step, and the registry is not written.
pub proof fn lemma_created_monitor_is_registered(
    table: Map<u32, RegistryEntry>,
    index: u32,
    status: i32,
    monitor_object: MonitorHandle,
)
    ensures
        monitor_created_spec(index, status, monitor_object) is Ok <==> index < MAX_MONITORS
            && status_ok(status) && !monitor_object.is_null_spec(),
        handle_of(with_handle(table, index, Some(monitor_object)), index) == Some(monitor_object),
        mode_of(with_handle(table, index, Some(monitor_object)), index) == mode_of(table, index),
        forall|other: u32|
            other != index ==> entry_of(with_handle(table, index, Some(monitor_object)), other)
                == entry_of(table, other),
        index >= MAX_MONITORS ==> admit_connector(index) is Err && monitor_created_spec(
            index,
            status,
            monitor_object,
        ) is Err,
{
}

/// The identity bytes go downstream as they came. Whenever a request to
/// create a monitor can be built, the identity block in it holds the bytes
/// that the provider delivered, each of them and in their order, and states
/// their exact number; the request names the connector it was built for and
/// the adapter that the controller holds.
pub proof fn lemma_request_carries_identity(
    context: DeviceContextView,
    sizes: StructSizes,
    index: u32,
    container: Result<u128, i32>,
    identity: Seq<u8>,
)
    ensures
        monitor_request_spec(context, sizes, index, container, identity) matches Ok(
            (adapter, info),
        ) ==> {
            &&& info.description.data == identity
            &&& info.description.data_size == identity.len()
            &&& info.connector_index == index
            &&& index < MAX_MONITORS
            &&& context.adapter == Some(adapter)
        },
{
}

/// What is done with an offered swap chain: a worker is started if a device
/// is there and no worker runs, and the swap chain is deleted otherwise.
pub open spec fn complete_action(
    monitor: MonitorContextView,
    pending: PendingAssignmentView,
    device: Option<GraphicsDevice>,
) -> SwapChainAction {
    match (monitor.worker, device) {
        (None, Some(device)) => SwapChainAction::StartWorker { worker: pending.request, device },
        _ => SwapChainAction::DeleteSwapChain(pending.request.swap_chain),
    }
}

/// The monitor after an offered swap chain has been dealt with: it has the
/// new worker exactly when one is started.
pub open spec fn complete_state(
    monitor: MonitorContextView,
    pending: PendingAssignmentView,
    device: Option<GraphicsDevice>,
) -> MonitorContextView {
    match (monitor.worker, device) {
        (None, Some(_)) => MonitorContextView {
            device: monitor.device,
            worker: Some(pending.request),
        },
        _ => monitor,
    }
}

} // verus!
