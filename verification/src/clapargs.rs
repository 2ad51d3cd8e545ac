//! What the program can be asked to do.

use vstd::prelude::*;

use crate::screenshot::CaptureOption;

verus! {

/// What the program is asked to do.
#[derive(Debug, PartialEq, Eq)]
pub enum HaruhiCli {
    /// List all outputs.
    ListOutputs,
    /// Capture one output: the one of the name `output`, or one that the user
    /// is asked for. The image goes to the standard output where `stdout` is
    /// set, and shows the cursor where `cursor` is set.
    Output { output: Option<String>, stdout: bool, cursor: bool },
    /// Capture a region that the user selects.
    Slurp { stdout: bool, cursor: bool },
}

/// The capture option that paints the cursor exactly where `cursor` is set.
pub open spec fn spec_to_capture_option(cursor: bool) -> CaptureOption {
    if cursor {
        CaptureOption::PaintCursors
    } else {
        CaptureOption::NoCursors
    }
}

/// The capture option that paints the cursor exactly where `cursor` is set.
#[verifier::when_used_as_spec(spec_to_capture_option)]
pub fn to_capture_option(cursor: bool) -> (r: CaptureOption)
    ensures
        r == spec_to_capture_option(cursor),
{
    if cursor {
        CaptureOption::PaintCursors
    } else {
        CaptureOption::NoCursors
    }
}

} // verus!
