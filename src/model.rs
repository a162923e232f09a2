//! Plain-value model of the display server's state and of the desired state.
use vstd::prelude::*;

verus! {

/// Refresh rates are carried in millihertz; a mode is compatible with a
/// requested rate when the two differ by strictly less than this.
pub const REFRESH_RATE_TOLERANCE_MHZ: u64 = 1000;

/// Rotation of a controller's scan-out.
#[derive(Clone, Copy, Debug, PartialEq, Eq, Structural)]
pub enum Rotation {
    Normal,
    Left,
    Inverted,
    Right,
}

/// One entry of the server's mode catalog.
#[derive(Clone, Copy, Debug, PartialEq, Eq, Structural)]
pub struct Mode {
    /// Identity token of the mode on the server.
    pub xid: u64,
    pub width: u32,
    pub height: u32,
    /// Refresh rate in millihertz.
    pub rate_mhz: u64,
}

/// Desired configuration of one monitor.
#[derive(Clone, Copy, Debug, PartialEq, Eq)]
pub struct MonitorSpec {
    pub width: u32,
    pub height: u32,
    /// Requested refresh rate in millihertz; `None` accepts any rate.
    pub refresh_rate_mhz: Option<u64>,
    pub primary: bool,
    pub rotation: Rotation,
    pub x: i32,
    pub y: i32,
}

/// Observed state of the controller (CRTC) driving an output.
#[derive(Clone, Copy, Debug, PartialEq, Eq, Structural)]
pub struct Controller {
    pub xid: u64,
    pub rotation: Rotation,
    pub x: i32,
    pub y: i32,
}

/// Observed state of one controllable output.
#[derive(Clone, Copy, Debug, PartialEq, Eq)]
pub struct OutputState {
    pub xid: u64,
    pub connected: bool,
    /// Identity of the mode the output is currently driven at.
    pub current_mode: Option<u64>,
    /// The controller bound to the output, if any.
    pub controller: Option<Controller>,
    pub primary: bool,
}

/// Observed state of one named monitor.
#[derive(Clone, Debug)]
pub struct MonitorState {
    pub name: String,
    pub outputs: Vec<OutputState>,
}

} // verus!
