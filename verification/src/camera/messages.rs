//! Messages of the control plane.

use vstd::prelude::*;

verus! {

/// Names the capture device to switch to.
#[derive(Debug)]
pub struct CameraSwitchMessage {
    /// Index of the device in the configured list.
    pub camera_id: usize,
}

impl CameraSwitchMessage {
    /// The device selected when a message names none.
    pub const DEFAULT_CAMERA_ID: usize = 0;

    /// The device selected when a message names none.
    pub fn default_camera_id() -> (id: usize)
        ensures
            id == 0,
    {
        Self::DEFAULT_CAMERA_ID
    }
}

impl Default for CameraSwitchMessage {
    fn default() -> (message: Self)
        ensures
            message.camera_id == 0,
    {
        CameraSwitchMessage { camera_id: Self::DEFAULT_CAMERA_ID }
    }
}

} // verus!
