//! What the user can choose in the interactive front ends.

use vstd::prelude::*;

use crate::haruhierror::HaruhiError;
use crate::utils::{Position, Region, Size};

verus! {

/// What the user chose in the window that offers the outputs.
#[derive(Debug, Clone, Copy, PartialEq, Eq, Structural)]
pub enum SlintSelection {
    /// All outputs together.
    GlobalScreen,
    /// A region, to be selected next.
    Slurp,
    /// Nothing: the window was closed.
    Canceled,
    /// The output of this number.
    Selection(i32),
}

/// How far the selection of a window has come.
#[derive(Debug, Clone, Copy, PartialEq, Eq, Structural)]
pub enum SwayWindowSelect {
    /// The user has not chosen yet.
    Waiting,
    /// The user has chosen the window that has the focus.
    Select,
    /// The choice has been taken in.
    Finish,
}

/// The region of the extent `size` whose top left corner is `point`.
pub fn waysip_to_region(size: Size, point: Position) -> (r: Result<Region, HaruhiError>)
    ensures
        r == Ok::<Region, HaruhiError>(Region { position: point, size }),
{
    Ok(Region { position: point, size })
}

} // verus!
