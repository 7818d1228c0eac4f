//! Program arguments, as plain values.
//!
//! Reading the command line, consulting the XDG directories and opening the
//! files named here are jobs for the surrounding program; the library only
//! holds the settled values.

use vstd::prelude::*;

verus! {

/// Necessary settings to execute the driver.
#[derive(Debug, Clone, PartialEq, Eq)]
pub struct ProgramArgs {
    /// Path to the hidraw device.
    device: String,
    /// Path to the config file.  `None` if no config was found; the caller
    /// should fall back to the default configuration in that case.
    config: Option<String>,
}

impl ProgramArgs {
    /// The device path these arguments name.
    pub closed spec fn spec_device(&self) -> Seq<char> {
        self.device@
    }

    /// The config file path these arguments name, if any.
    pub closed spec fn spec_config(&self) -> Option<Seq<char>> {
        match self.config {
            Some(ref c) => Some(c@),
            None => None,
        }
    }

    /// Bundles the two settled paths.
    pub fn new(device: String, config: Option<String>) -> (r: Self)
        ensures
            r.spec_device() == device@,
            match config {
                Some(c) => r.spec_config() matches Some(v) && v == c@,
                None => r.spec_config() is None,
            },
    {
        ProgramArgs { device, config }
    }

    pub fn device(&self) -> (r: &String)
        ensures
            r@ == self.spec_device(),
    {
        &self.device
    }

    pub fn config(&self) -> (r: Option<&String>)
        ensures
            match r {
                Some(c) => self.spec_config() matches Some(v) && v == c@,
                None => self.spec_config() is None,
            },
    {
        self.config.as_ref()
    }
}

} // verus!
