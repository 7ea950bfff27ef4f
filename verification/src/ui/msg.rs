//! Messages shown by the desktop client.

use vstd::prelude::*;

verus! {

/// Where the recognised damage panel is in the picture, and how far away.
#[derive(Debug)]
pub struct DamagePanelRecognition {
    /// Horizontal position of the target, in pixels.
    pub target_x: i32,
    /// Vertical position of the target, in pixels.
    pub target_y: i32,
    /// Distance to the target.
    pub target_distance: i32,
}

impl DamagePanelRecognition {
    /// Horizontal position when a message gives none: the picture's centre.
    pub fn default_target_x() -> (x: i32)
        ensures
            x == 640,
    {
        640
    }

    /// Vertical position when a message gives none: the picture's centre.
    pub fn default_target_y() -> (y: i32)
        ensures
            y == 360,
    {
        360
    }

    /// Distance when a message gives none.
    pub fn default_target_distance() -> (distance: i32)
        ensures
            distance == 0,
    {
        0
    }
}

impl Clone for DamagePanelRecognition {
    fn clone(&self) -> (copy: Self)
        ensures
            copy == *self,
    {
        DamagePanelRecognition {
            target_x: self.target_x,
            target_y: self.target_y,
            target_distance: self.target_distance,
        }
    }
}

impl Default for DamagePanelRecognition {
    fn default() -> (message: Self)
        ensures
            message.target_x == 640,
            message.target_y == 360,
            message.target_distance == 0,
    {
        DamagePanelRecognition { target_x: 640, target_y: 360, target_distance: 0 }
    }
}

} // verus!
