//! The themes of the application, by name. Colours are not kept here.

pub mod data;

use vstd::prelude::*;

verus! {

/// The looks of a scrollable area.
#[derive(Debug, Clone, Copy, PartialEq, Eq, Structural)]
pub enum Scrollable {
    Default,
    Weak,
}

impl Default for Scrollable {
    fn default() -> (style: Scrollable)
        ensures
            style == Scrollable::Default,
    {
        Scrollable::Default
    }
}

} // verus!
