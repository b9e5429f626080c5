//! The settings the simulation is constructed from.
//!
//! The configuration file itself is parsed by an external collaborator;
//! this crate only receives the resulting plain values and checks the ones
//! the engine consumes.

use vstd::prelude::*;

verus! {

/// Window and simulation settings, consumed once at construction.
pub struct Config {
    pub title: String,
    pub size: (u32, u32),
    pub resizable: bool,
    pub fullscreen: bool,
    pub maximized: bool,
    pub grid_size: (i32, i32),
}

impl Config {
    /// The configured grid dimensions as sizes, if both are positive;
    /// `None` rejects a configuration with no meaningful simulation.
    pub fn grid_dimensions(&self) -> (r: Option<(usize, usize)>)
        ensures
            (0 < self.grid_size.0 && 0 < self.grid_size.1) ==> r == Some(
                (self.grid_size.0 as usize, self.grid_size.1 as usize),
            ),
            !(0 < self.grid_size.0 && 0 < self.grid_size.1) ==> r is None,
    {
        if 0 < self.grid_size.0 && 0 < self.grid_size.1 {
            Some((self.grid_size.0 as usize, self.grid_size.1 as usize))
        } else {
            None
        }
    }
}

} // verus!
