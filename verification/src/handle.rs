//! Opaque references to objects that the host framework owns.
//!
//! A handle is the address-sized value the framework handed out. The
//! controller never looks behind it: it stores it, compares it and hands it
//! back. The framework keeps such objects alive for as long as it routes calls
//! to the context attached to them, which is what makes it sound for the host
//! to move these values between its threads.

use vstd::prelude::*;

verus! {

/// The framework device that owns the adapter.
#[derive(Clone, Copy, Debug, PartialEq, Eq, Structural)]
pub struct DeviceHandle(pub usize);

/// The adapter object.
#[derive(Clone, Copy, Debug, PartialEq, Eq, Structural)]
pub struct AdapterHandle(pub usize);

/// A monitor object.
#[derive(Clone, Copy, Debug, PartialEq, Eq, Structural)]
pub struct MonitorHandle(pub usize);

/// A swap chain offered for a monitor.
#[derive(Clone, Copy, Debug, PartialEq, Eq, Structural)]
pub struct SwapChainHandle(pub usize);

/// The event that is signalled when a new frame is ready.
#[derive(Clone, Copy, Debug, PartialEq, Eq, Structural)]
pub struct EventHandle(pub usize);

/// A graphics device that is ready to use.
#[derive(Clone, Copy, Debug, PartialEq, Eq, Structural)]
pub struct GraphicsDevice(pub usize);

/// The locally unique identifier of the adapter that renders a swap chain.
#[derive(Clone, Copy, Debug, PartialEq, Eq, Structural)]
pub struct RenderAdapterId {
    pub low_part: u32,
    pub high_part: i32,
}

impl MonitorHandle {
    /// A monitor handle refers to an object unless it is null.
    pub open spec fn is_null_spec(self) -> bool {
        self.0 == 0
    }

    pub fn is_null(self) -> (null: bool)
        ensures
            null == self.is_null_spec(),
    {
        self.0 == 0
    }
}

} // verus!
