//! GPU pipeline handle. Actual device work is an external collaborator;
//! this type only tracks whether acceleration is enabled and initialized.

use vstd::prelude::*;

verus! {

/// GPU rendering pipeline handle.
pub struct GpuPipeline {
    enabled: bool,
    device_name: Option<String>,
}

impl GpuPipeline {
    /// Whether acceleration was requested.
    pub closed spec fn spec_enabled(self) -> bool {
        self.enabled
    }

    /// The device name, present once initialized.
    pub closed spec fn spec_device_name(self) -> Option<String> {
        self.device_name
    }

    /// Creates a new, uninitialized pipeline.
    pub fn new(enabled: bool) -> (r: Self)
        ensures
            r.spec_enabled() == enabled,
            r.spec_device_name() is None,
    {
        GpuPipeline { enabled, device_name: None }
    }

    /// Initializes the device. Fails when acceleration is disabled;
    /// otherwise records a device name and succeeds. Returns whether the
    /// device is ready.
    pub fn initialize(&mut self) -> (r: bool)
        ensures
            r == old(self).spec_enabled(),
            !r ==> *final(self) == *old(self),
            r ==> final(self).spec_device_name() is Some,
            final(self).spec_enabled() == old(self).spec_enabled(),
    {
        if !self.enabled {
            return false;
        }
        self.device_name = Some(String::from_str("Simulated GPU"));
        true
    }

    /// Checks whether a device is available.
    pub fn is_available(&self) -> (r: bool)
        ensures
            r == (self.spec_device_name() is Some),
    {
        self.device_name.is_some()
    }

    /// Returns the device name, if initialized.
    pub fn device_name(&self) -> (r: Option<&str>)
        ensures
            r is Some <==> self.spec_device_name() is Some,
            r is Some ==> r->0@ == self.spec_device_name()->0@,
    {
        match &self.device_name {
            Some(n) => Some(n.as_str()),
            None => None,
        }
    }
}

impl Default for GpuPipeline {
    /// The default pipeline has acceleration enabled but uninitialized.
    fn default() -> (r: Self)
        ensures
            r.spec_enabled(),
            r.spec_device_name() is None,
    {
        GpuPipeline::new(true)
    }
}

} // verus!
