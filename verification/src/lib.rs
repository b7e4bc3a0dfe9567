//! F3-OS core library: the four-phase feedback controller and the metric-flow
//! trackers it consumes, together with the text console model and the
//! query-processing layers built on top of them.

pub mod drivers;
pub mod f3;
pub mod gui;
pub mod text;
pub mod vga;
