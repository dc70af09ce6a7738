//! The external runtime's event payloads, re-expressed as closed, safely
//! discriminated types. The runtime hands events out as a tagged union; at
//! the boundary where an event is first read, the raw tag is decoded and
//! only the payload valid for that tag is interpreted — the union itself
//! never crosses into this crate. Payload families whose fields are
//! floating point (mouse, scroll, inter-pupillary distance, touch-pad,
//! screenshot progress, haptics) or raw character buffers are consumed at
//! the boundary and are not represented here; the agent loop ignores those
//! events. Names follow the runtime's own so that the boundary code reads
//! against the vendor documentation.

#![allow(non_camel_case_types)]
#![allow(non_snake_case)]

use vstd::prelude::*;

verus! {

/// Handle of a property container.
pub type PropertyContainerHandle_t = u64;

/// Handle of a web console.
pub type WebConsoleHandle_t = u64;

/// Handle of a spatial anchor.
pub type SpatialAnchorHandle_t = u32;

/// Reserved payload words.
#[derive(Debug, Clone, Copy, PartialEq, Eq)]
pub struct VREvent_Reserved_t {
    pub reserved0: u64,
    pub reserved1: u64,
    pub reserved2: u64,
    pub reserved3: u64,
    pub reserved4: u64,
    pub reserved5: u64,
}

/// A controller button event.
#[derive(Debug, Clone, Copy, PartialEq, Eq)]
pub struct VREvent_Controller_t {
    pub button: u32,
}

/// A process gained or lost a role; carried by application-change events.
#[derive(Debug, Clone, Copy, PartialEq, Eq)]
pub struct VREvent_Process_t {
    pub pid: u32,
    pub oldPid: u32,
    pub bForced: bool,
    pub bConnectionLost: bool,
}

/// A notification event.
#[derive(Debug, Clone, Copy, PartialEq, Eq)]
pub struct VREvent_Notification_t {
    pub ulUserValue: u64,
    pub notificationId: u32,
}

/// An overlay event.
#[derive(Debug, Clone, Copy, PartialEq, Eq)]
pub struct VREvent_Overlay_t {
    pub overlayHandle: u64,
    pub devicePath: u64,
    pub memoryBlockId: u64,
}

/// A status-state change.
#[derive(Debug, Clone, Copy, PartialEq, Eq)]
pub struct VREvent_Status_t {
    pub statusState: u32,
}

/// A chaperone-universe change.
#[derive(Debug, Clone, Copy, PartialEq, Eq)]
pub struct VREvent_Chaperone_t {
    pub m_nPreviousUniverse: u64,
    pub m_nCurrentUniverse: u64,
}

/// A performance-test fidelity change.
#[derive(Debug, Clone, Copy, PartialEq, Eq)]
pub struct VREvent_PerformanceTest_t {
    pub m_nFidelityLevel: u32,
}

/// A seated zero-pose reset.
#[derive(Debug, Clone, Copy, PartialEq, Eq)]
pub struct VREvent_SeatedZeroPoseReset_t {
    pub bResetBySystemMenu: bool,
}

/// A screenshot event.
#[derive(Debug, Clone, Copy, PartialEq, Eq)]
pub struct VREvent_Screenshot_t {
    pub handle: u32,
    pub type_: u32,
}

/// An application launch.
#[derive(Debug, Clone, Copy, PartialEq, Eq)]
pub struct VREvent_ApplicationLaunch_t {
    pub pid: u32,
    pub unArgsHandle: u32,
}

/// A camera-surface edit.
#[derive(Debug, Clone, Copy, PartialEq, Eq)]
pub struct VREvent_EditingCameraSurface_t {
    pub overlayHandle: u64,
    pub nVisualMode: u32,
}

/// A message-overlay response.
#[derive(Debug, Clone, Copy, PartialEq, Eq)]
pub struct VREvent_MessageOverlay_t {
    pub unVRMessageOverlayResponse: u32,
}

/// A web console event.
#[derive(Debug, Clone, Copy, PartialEq, Eq)]
pub struct VREvent_WebConsole_t {
    pub webConsoleHandle: WebConsoleHandle_t,
}

/// An input-binding load report.
#[derive(Debug, Clone, Copy, PartialEq, Eq)]
pub struct VREvent_InputBindingLoad_t {
    pub ulAppContainer: PropertyContainerHandle_t,
    pub pathMessage: u64,
    pub pathUrl: u64,
    pub pathControllerType: u64,
}

/// An input action-manifest load report.
#[derive(Debug, Clone, Copy, PartialEq, Eq)]
pub struct VREvent_InputActionManifestLoad_t {
    pub pathAppKey: u64,
    pub pathMessage: u64,
    pub pathMessageParam: u64,
    pub pathManifestPath: u64,
}

/// A spatial-anchor event.
#[derive(Debug, Clone, Copy, PartialEq, Eq)]
pub struct VREvent_SpatialAnchor_t {
    pub unHandle: SpatialAnchorHandle_t,
}

/// The payload of one runtime event, discriminated by the event's raw type
/// tag at the read boundary. Payload families that this crate cannot
/// represent arrive as `Unrepresented`.
#[derive(Debug, Clone, Copy, PartialEq, Eq)]
pub enum RuntimeEventPayload {
    Reserved(VREvent_Reserved_t),
    Controller(VREvent_Controller_t),
    Process(VREvent_Process_t),
    Notification(VREvent_Notification_t),
    Overlay(VREvent_Overlay_t),
    Status(VREvent_Status_t),
    Chaperone(VREvent_Chaperone_t),
    PerformanceTest(VREvent_PerformanceTest_t),
    SeatedZeroPoseReset(VREvent_SeatedZeroPoseReset_t),
    Screenshot(VREvent_Screenshot_t),
    ApplicationLaunch(VREvent_ApplicationLaunch_t),
    EditingCameraSurface(VREvent_EditingCameraSurface_t),
    MessageOverlay(VREvent_MessageOverlay_t),
    WebConsole(VREvent_WebConsole_t),
    InputBindingLoad(VREvent_InputBindingLoad_t),
    InputActionManifestLoad(VREvent_InputActionManifestLoad_t),
    SpatialAnchor(VREvent_SpatialAnchor_t),
    Unrepresented,
}

} // verus!
