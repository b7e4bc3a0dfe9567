//! The F3 feedback subsystem: three metric-flow trackers feeding a four-phase
//! controller (Logical, Illogical, Synthesis, Perfect).

pub mod controller;
pub mod cpu;
pub mod mem;
pub mod ram;

pub use controller::F3Core;
pub use controller::F3State;
pub use controller::SystemPhase;
