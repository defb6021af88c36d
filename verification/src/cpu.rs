//! The part of the execution core that the video unit depends on.

use vstd::prelude::*;

verus! {

/// Which colour semantics the machine was powered on with. Fixed for the
/// lifetime of an instance.
#[derive(Clone, Copy, Debug, PartialEq, Eq, Structural)]
pub enum EmulationMode {
    /// Monochrome: four fixed shades.
    Dmg,
    /// Enhanced: palette memory with 15-bit colours.
    Cgb,
}

} // verus!
