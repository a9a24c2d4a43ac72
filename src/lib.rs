//! Control core of a pocket remote: button and joystick input, the tab and
//! remote-grid state machine, and the NEC infrared codec.

pub mod app;
pub mod battery;
pub mod button;
pub mod events;
pub mod ir;
pub mod logger;
pub mod minijoyc;
pub mod remote;
pub mod vehicle;
