//! Driver logic for an LED matrix panel on a USB-serial link: the wire
//! protocol, the choice of serial port, the frame buffer and the renderer's
//! frame-dropping transmission policy.

pub mod protocol;
pub mod frame;
pub mod discovery;
pub mod cadence;
pub mod renderer;
