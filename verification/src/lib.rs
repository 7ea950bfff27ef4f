//! Live video fan-out: the rules by which frames from one capture device
//! reach many consumers, and the small configuration records around them.

pub mod camera;
pub mod paths;
pub mod ui;
