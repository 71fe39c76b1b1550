//! Facts about the host board. Board probing itself needs privileged
//! hardware access and lives outside this crate; it either recognizes the
//! board and hands every field over at once, or reports that no profile
//! matched. A partially filled descriptor cannot be built.

use vstd::prelude::*;

verus! {

/// Identifying data of a recognized host board.
#[derive(Debug)]
pub struct PiInfo {
    /// Hardware revision code.
    pub revision: u32,
    /// Base address of the peripheral register block.
    pub periph_base: u32,
    /// Base address of the video core memory.
    pub videocore_base: u32,
    /// Descriptive board name; empty when the probed name was not valid text.
    pub description: String,
}

impl PiInfo {
    /// Builds a descriptor from one complete set of probed facts; every field
    /// is taken from the arguments, none is left default.
    pub fn new(revision: u32, periph_base: u32, videocore_base: u32, description: String) -> (r:
        PiInfo)
        ensures
            r.revision == revision,
            r.periph_base == periph_base,
            r.videocore_base == videocore_base,
            r.description@ == description@,
    {
        PiInfo { revision, periph_base, videocore_base, description }
    }

    /// Returns the hardware revision code.
    pub fn revision(&self) -> (r: u32)
        ensures
            r == self.revision,
    {
        self.revision
    }

    /// Returns the base address of the peripheral register block.
    pub fn periph_base(&self) -> (r: u32)
        ensures
            r == self.periph_base,
    {
        self.periph_base
    }

    /// Returns the base address of the video core memory.
    pub fn video_core_base(&self) -> (r: u32)
        ensures
            r == self.videocore_base,
    {
        self.videocore_base
    }

    /// Returns the descriptive board name.
    pub fn description(&self) -> (r: &String)
        ensures
            r@ == self.description@,
    {
        &self.description
    }
}

} // verus!
