//! Lifecycle controller of a software-emulated display adapter.
//!
//! The controller decides; the host performs. Every operation that needs the
//! operating system, the graphics stack or a worker thread is split into
//! steps: a step takes the answer of the previous outside call as plain
//! values, updates the controller's state and says what has to happen next.
//! The host runs the outside calls between the steps.

pub mod context;
pub mod descriptor;
pub mod error;
pub mod handle;
pub mod registry;
pub mod trace;
pub mod version;

pub use context::{
    arrival_announced, context_attached, identity_ready, AdapterInit, DeviceContext,
    MonitorContext, MonitorCreate, PendingAssignment, SwapChainAction, Worker,
};
pub use descriptor::{
    AdapterCaps, DescriptionType, EndpointDiagnostics, FeatureImplementation, MonitorDescription,
    MonitorInfo, OutputTechnology, StructSizes, TransmissionType,
};
pub use error::{ContextError, ErrorKind, ParseFailure, Unavailable};
pub use handle::{
    AdapterHandle, DeviceHandle, EventHandle, GraphicsDevice, MonitorHandle, RenderAdapterId,
    SwapChainHandle,
};
pub use registry::{DisplayMode, MonitorRegistry, RegistryEntry, MAX_MONITORS};
pub use trace::{MonitorOp, WorkerEvent};
pub use version::EndpointVersion;
