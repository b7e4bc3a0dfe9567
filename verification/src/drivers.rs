//! Device drivers: the AI driver bundle and the GPU render driver.

pub mod ai;
pub mod gpu;

pub use ai::AIDriverModule;
pub use gpu::GPURenderDriver;
