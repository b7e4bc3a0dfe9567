//! GPU render driver: resolution bookkeeping around a framebuffer. Rendering
//! itself is a placeholder in scope: the driver touches neither itself nor
//! the framebuffer when asked to render.

use vstd::prelude::*;

verus! {

/// The GPU render driver.
pub struct GPURenderDriver {
    initialized: bool,
    width: u32,
    height: u32,
}

impl GPURenderDriver {
    /// Whether `init` has run.
    pub closed spec fn spec_initialized(self) -> bool {
        self.initialized
    }

    /// The configured horizontal resolution.
    pub closed spec fn spec_width(self) -> u32 {
        self.width
    }

    /// The configured vertical resolution.
    pub closed spec fn spec_height(self) -> u32 {
        self.height
    }

    /// A fresh driver configured for 1920x1080, not yet initialized.
    pub fn new() -> (r: GPURenderDriver)
        ensures
            !r.spec_initialized(),
            r.spec_width() == 1920,
            r.spec_height() == 1080,
    {
        GPURenderDriver { initialized: false, width: 1920, height: 1080 }
    }

    /// Marks the driver initialized; the resolution is untouched.
    pub fn init(&mut self)
        ensures
            final(self).spec_initialized(),
            final(self).spec_width() == old(self).spec_width(),
            final(self).spec_height() == old(self).spec_height(),
    {
        self.initialized = true;
    }

    /// Renders a framebuffer. No rendering backend is in scope, so the call
    /// leaves the driver and the framebuffer exactly as they were.
    pub fn render(&mut self, framebuffer: &mut Vec<u32>, width: u32, height: u32)
        ensures
            *final(self) == *old(self),
            *final(framebuffer) == *old(framebuffer),
    {
        let _ = width;
        let _ = height;
    }
}

} // verus!
