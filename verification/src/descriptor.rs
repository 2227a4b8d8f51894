//! The descriptors that are handed to the display framework: what the adapter
//! can do, and what a monitor is.
//!
//! A descriptor here holds plain values. The host lays them out in the
//! framework's own structures, which is why the sizes of those structures come
//! in from the host: the controller turns each into the 32-bit size tag that
//! the framework reads first.

use crate::error::ContextError;
use crate::registry::MAX_MONITORS;
use crate::version::{parse_u32, parse_u32_spec, EndpointVersion};
use vstd::prelude::*;

verus! {

/// The sizes, in bytes, of the framework structures that carry a size tag.
#[derive(Clone, Copy, Debug, PartialEq, Eq, Structural)]
pub struct StructSizes {
    pub endpoint_version: usize,
    pub adapter_caps: usize,
    pub endpoint_diagnostics: usize,
    pub monitor_info: usize,
    pub monitor_description: usize,
}

/// How the adapter implements an optional feature.
#[derive(Clone, Copy, Debug, PartialEq, Eq, Structural)]
pub enum FeatureImplementation {
    /// The feature is not there.
    Absent,
}

/// How the adapter's output reaches its display.
#[derive(Clone, Copy, Debug, PartialEq, Eq, Structural)]
pub enum TransmissionType {
    /// By wire, over none of the named links.
    WiredOther,
}

/// The kind of connector a monitor is plugged into.
#[derive(Clone, Copy, Debug, PartialEq, Eq, Structural)]
pub enum OutputTechnology {
    Hdmi,
}

/// The format of a monitor's identity block.
#[derive(Clone, Copy, Debug, PartialEq, Eq, Structural)]
pub enum DescriptionType {
    Edid,
}

/// The name the adapter goes by.
pub const FRIENDLY_NAME: &'static str = "Virtual Display Driver Adapter";

/// The adapter's maker.
pub const MANUFACTURER_NAME: &'static str = "Cherry";

/// The adapter's model.
pub const MODEL_NAME: &'static str = "Pro";

/// The diagnostic block of the adapter.
#[derive(Clone, Copy, Debug, PartialEq, Eq)]
pub struct EndpointDiagnostics {
    pub size: u32,
    pub gamma_support: FeatureImplementation,
    pub transmission_type: TransmissionType,
    pub friendly_name: &'static str,
    pub manufacturer_name: &'static str,
    pub model_name: &'static str,
    pub firmware_version: EndpointVersion,
    pub hardware_version: EndpointVersion,
}

/// What the adapter announces of itself when it is initialised.
#[derive(Clone, Copy, Debug, PartialEq, Eq)]
pub struct AdapterCaps {
    pub size: u32,
    pub max_monitors_supported: u32,
    pub endpoint_diagnostics: EndpointDiagnostics,
}

/// The size tag of a structure of `bytes` bytes, if 32 bits can hold it.
pub open spec fn size_tag_spec(bytes: usize) -> Result<u32, ContextError> {
    if bytes <= u32::MAX {
        Ok(bytes as u32)
    } else {
        Err(ContextError::TryFromInt)
    }
}

/// Turns a byte count into a size tag.
pub fn size_tag(bytes: usize) -> (r: Result<u32, ContextError>)
    ensures
        r == size_tag_spec(bytes),
{
    if bytes <= u32::MAX as usize {
        Ok(bytes as u32)
    } else {
        Err(ContextError::TryFromInt)
    }
}

/// A version component, or the failure to read one.
pub open spec fn component_spec(text: Seq<char>) -> Result<u32, ContextError> {
    match parse_u32_spec(text) {
        Ok(v) => Ok(v),
        Err(e) => Err(ContextError::ParseInt(e)),
    }
}

/// Reads one version component.
pub fn component(text: &str) -> (r: Result<u32, ContextError>)
    ensures
        r == component_spec(text@),
{
    match parse_u32(text) {
        Ok(v) => Ok(v),
        Err(e) => Err(ContextError::ParseInt(e)),
    }
}

/// The version block for the three components of a version, given as texts.
/// The size tag is settled first, then major, minor and patch in this order;
/// the first that fails decides the failure.
pub open spec fn endpoint_version_spec(
    sizes: StructSizes,
    major: Seq<char>,
    minor: Seq<char>,
    patch: Seq<char>,
) -> Result<EndpointVersion, ContextError> {
    match size_tag_spec(sizes.endpoint_version) {
        Err(e) => Err(e),
        Ok(size) => match component_spec(major) {
            Err(e) => Err(e),
            Ok(major) => match component_spec(minor) {
                Err(e) => Err(e),
                Ok(minor) => match component_spec(patch) {
                    Err(e) => Err(e),
                    Ok(build) => Ok(EndpointVersion { size, major, minor, build }),
                },
            },
        },
    }
}

/// Builds the version block.
pub fn endpoint_version(sizes: &StructSizes, major: &str, minor: &str, patch: &str) -> (r: Result<
    EndpointVersion,
    ContextError,
>)
    ensures
        r == endpoint_version_spec(*sizes, major@, minor@, patch@),
{
    let size: u32 = match size_tag(sizes.endpoint_version) {
        Ok(v) => v,
        Err(e) => {
            return Err(e);
        },
    };
    let major: u32 = match component(major) {
        Ok(v) => v,
        Err(e) => {
            return Err(e);
        },
    };
    let minor: u32 = match component(minor) {
        Ok(v) => v,
        Err(e) => {
            return Err(e);
        },
    };
    let build: u32 = match component(patch) {
        Ok(v) => v,
        Err(e) => {
            return Err(e);
        },
    };
    Ok(EndpointVersion { size, major, minor, build })
}

/// The capabilities that the adapter announces: room for [`MAX_MONITORS`]
/// monitors, no gamma support, a wired link, the adapter's three names, and
/// one version block that serves as firmware and as hardware version. The
/// version block is settled first, then the size tag of the capabilities,
/// then that of the diagnostic block.
pub open spec fn adapter_caps_spec(
    sizes: StructSizes,
    major: Seq<char>,
    minor: Seq<char>,
    patch: Seq<char>,
) -> Result<AdapterCaps, ContextError> {
    match endpoint_version_spec(sizes, major, minor, patch) {
        Err(e) => Err(e),
        Ok(version) => match size_tag_spec(sizes.adapter_caps) {
            Err(e) => Err(e),
            Ok(size) => match size_tag_spec(sizes.endpoint_diagnostics) {
                Err(e) => Err(e),
                Ok(diagnostics_size) => Ok(
                    AdapterCaps {
                        size,
                        max_monitors_supported: MAX_MONITORS as u32,
                        endpoint_diagnostics: EndpointDiagnostics {
                            size: diagnostics_size,
                            gamma_support: FeatureImplementation::Absent,
                            transmission_type: TransmissionType::WiredOther,
                            friendly_name: FRIENDLY_NAME,
                            manufacturer_name: MANUFACTURER_NAME,
                            model_name: MODEL_NAME,
                            firmware_version: version,
                            hardware_version: version,
                        },
                    },
                ),
            },
        },
    }
}

/// Builds the adapter's capabilities.
pub fn adapter_caps(sizes: &StructSizes, major: &str, minor: &str, patch: &str) -> (r: Result<
    AdapterCaps,
    ContextError,
>)
    ensures
        r == adapter_caps_spec(*sizes, major@, minor@, patch@),
{
    let version = match endpoint_version(sizes, major, minor, patch) {
        Ok(v) => v,
        Err(e) => {
            return Err(e);
        },
    };
    let size: u32 = match size_tag(sizes.adapter_caps) {
        Ok(v) => v,
        Err(e) => {
            return Err(e);
        },
    };
    let diagnostics_size: u32 = match size_tag(sizes.endpoint_diagnostics) {
        Ok(v) => v,
        Err(e) => {
            return Err(e);
        },
    };
    Ok(
        AdapterCaps {
            size,
            max_monitors_supported: MAX_MONITORS as u32,
            endpoint_diagnostics: EndpointDiagnostics {
                size: diagnostics_size,
                gamma_support: FeatureImplementation::Absent,
                transmission_type: TransmissionType::WiredOther,
                friendly_name: FRIENDLY_NAME,
                manufacturer_name: MANUFACTURER_NAME,
                model_name: MODEL_NAME,
                firmware_version: version,
                hardware_version: version,
            },
        },
    )
}

/// A monitor's identity block as the framework receives it.
#[derive(Clone, Debug, PartialEq, Eq)]
pub struct MonitorDescription {
    pub size: u32,
    pub kind: DescriptionType,
    /// The number of identity bytes.
    pub data_size: u32,
    /// The identity bytes.
    pub data: Vec<u8>,
}

/// What a monitor is, as the framework receives it when the monitor is
/// created.
#[derive(Clone, Debug, PartialEq, Eq)]
pub struct MonitorInfo {
    pub size: u32,
    /// The 128-bit identifier of the container the monitor belongs to.
    pub container_id: u128,
    pub monitor_type: OutputTechnology,
    pub connector_index: u32,
    pub description: MonitorDescription,
}

/// The mathematical content of a [`MonitorDescription`].
pub struct MonitorDescriptionView {
    pub size: u32,
    pub kind: DescriptionType,
    pub data_size: u32,
    pub data: Seq<u8>,
}

/// The mathematical content of a [`MonitorInfo`].
pub struct MonitorInfoView {
    pub size: u32,
    pub container_id: u128,
    pub monitor_type: OutputTechnology,
    pub connector_index: u32,
    pub description: MonitorDescriptionView,
}

impl View for MonitorDescription {
    type V = MonitorDescriptionView;

    open spec fn view(&self) -> MonitorDescriptionView {
        MonitorDescriptionView {
            size: self.size,
            kind: self.kind,
            data_size: self.data_size,
            data: self.data@,
        }
    }
}

impl View for MonitorInfo {
    type V = MonitorInfoView;

    open spec fn view(&self) -> MonitorInfoView {
        MonitorInfoView {
            size: self.size,
            container_id: self.container_id,
            monitor_type: self.monitor_type,
            connector_index: self.connector_index,
            description: self.description@,
        }
    }
}

/// The description of a monitor on connector `index` with the given identity
/// bytes: an HDMI monitor whose identity block is those bytes, all of them
/// and nothing else, tagged as an EDID and with their exact count.
///
/// `container` is what the system answered when it was asked for a fresh
/// container identifier: the identifier, or the code it failed with. The size
/// tag of the description is settled first, then the container identifier,
/// then the size tag of the identity block, then the count of identity bytes;
/// the first that fails decides the failure.
pub open spec fn monitor_info_spec(
    sizes: StructSizes,
    index: u32,
    container: Result<u128, i32>,
    identity: Seq<u8>,
) -> Result<MonitorInfoView, ContextError> {
    match size_tag_spec(sizes.monitor_info) {
        Err(e) => Err(e),
        Ok(size) => match container {
            Err(code) => Err(ContextError::Win(code)),
            Ok(container_id) => match size_tag_spec(sizes.monitor_description) {
                Err(e) => Err(e),
                Ok(description_size) => if identity.len() > u32::MAX {
                    Err(ContextError::TryFromInt)
                } else {
                    Ok(
                        MonitorInfoView {
                            size,
                            container_id,
                            monitor_type: OutputTechnology::Hdmi,
                            connector_index: index,
                            description: MonitorDescriptionView {
                                size: description_size,
                                kind: DescriptionType::Edid,
                                data_size: identity.len() as u32,
                                data: identity,
                            },
                        },
                    )
                },
            },
        },
    }
}

/// Builds the description of a monitor around its identity bytes.
pub fn monitor_info(
    sizes: &StructSizes,
    index: u32,
    container: Result<u128, i32>,
    identity: Vec<u8>,
) -> (r: Result<MonitorInfo, ContextError>)
    ensures
        match monitor_info_spec(*sizes, index, container, identity@) {
            Ok(info) => r is Ok && r->Ok_0@ == info,
            Err(e) => r is Err && r->Err_0 == e,
        },
{
    let size: u32 = match size_tag(sizes.monitor_info) {
        Ok(v) => v,
        Err(e) => {
            return Err(e);
        },
    };
    let container_id: u128 = match container {
        Ok(v) => v,
        Err(code) => {
            return Err(ContextError::Win(code));
        },
    };
    let description_size: u32 = match size_tag(sizes.monitor_description) {
        Ok(v) => v,
        Err(e) => {
            return Err(e);
        },
    };
    let data_size: u32 = match size_tag(identity.len()) {
        Ok(v) => v,
        Err(e) => {
            return Err(e);
        },
    };
    Ok(
        MonitorInfo {
            size,
            container_id,
            monitor_type: OutputTechnology::Hdmi,
            connector_index: index,
            description: MonitorDescription {
                size: description_size,
                kind: DescriptionType::Edid,
                data_size,
                data: identity,
            },
        },
    )
}

/// The identity bytes reach the framework as they are: whenever a description
/// can be built, its identity block holds the bytes that went in, byte for
/// byte, and its count is their number.
pub proof fn lemma_identity_embedded(
    sizes: StructSizes,
    index: u32,
    container: Result<u128, i32>,
    identity: Seq<u8>,
)
    ensures
        monitor_info_spec(sizes, index, container, identity) matches Ok(info) ==> {
            &&& info.description.data == identity
            &&& info.description.data_size == identity.len()
            &&& info.description.kind == DescriptionType::Edid
            &&& info.connector_index == index
        },
{
}

} // verus!
