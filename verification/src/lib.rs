//! A small windowed drawing demo, split into verified logic and a thin shell.
//!
//! The library holds everything the demo decides or computes: the synthetic
//! test image, the fixed sequence of canvas drawing operations, the event-loop
//! state machine, the presentation staging buffer, and the formatting of error
//! reports. A thin unverified shell owns the window, the GPU surface and the
//! 2D rasterizer, and drives them exactly as the library's decisions dictate.

pub mod canvas;
pub mod driver;
pub mod image;
pub mod present;
pub mod report;
