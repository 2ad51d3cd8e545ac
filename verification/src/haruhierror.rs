//! What can go wrong while a screenshot is taken.

use vstd::prelude::*;

verus! {

/// The failures of a capture.
///
/// A failure of the connection itself (connecting, the registry, a dispatch, a
/// bind, the shared memory) is detected by whoever talks to the compositor; the
/// variant names the kind, and the cause stays with that caller.
#[derive(Debug, Clone, PartialEq, Eq)]
pub enum HaruhiError {
    /// No connection to the compositor.
    InitFailedConnection,
    /// The compositor's registry could not be read.
    InitFailedGlobal,
    /// The event queue failed while events were dispatched.
    DispatchError,
    /// A global that the capture needs could not be bound.
    BindError,
    /// The shared memory behind a frame could not be created or sized.
    ShmError,
    /// The compositor offers the frame in a pixel layout that is not supported.
    NotSupportFormat,
    /// The compositor refused the capture; the text names its reason.
    CaptureFailed(String),
    /// The selected region lies on none of the captured outputs.
    RegionOutOfBounds,
}

/// A `HaruhiError` as plain values.
pub enum HaruhiErrorView {
    InitFailedConnection,
    InitFailedGlobal,
    DispatchError,
    BindError,
    ShmError,
    NotSupportFormat,
    CaptureFailed(Seq<char>),
    RegionOutOfBounds,
}

impl View for HaruhiError {
    type V = HaruhiErrorView;

    open spec fn view(&self) -> HaruhiErrorView {
        match *self {
            HaruhiError::InitFailedConnection => HaruhiErrorView::InitFailedConnection,
            HaruhiError::InitFailedGlobal => HaruhiErrorView::InitFailedGlobal,
            HaruhiError::DispatchError => HaruhiErrorView::DispatchError,
            HaruhiError::BindError => HaruhiErrorView::BindError,
            HaruhiError::ShmError => HaruhiErrorView::ShmError,
            HaruhiError::NotSupportFormat => HaruhiErrorView::NotSupportFormat,
            HaruhiError::CaptureFailed(text) => HaruhiErrorView::CaptureFailed(text@),
            HaruhiError::RegionOutOfBounds => HaruhiErrorView::RegionOutOfBounds,
        }
    }
}

impl HaruhiError {
    /// The text that describes this kind of failure.
    pub open spec fn spec_message(self) -> Seq<char> {
        match self {
            HaruhiError::InitFailedConnection => "Init Failed connection"@,
            HaruhiError::InitFailedGlobal => "Init Failed Global"@,
            HaruhiError::DispatchError => "Dispatch Error"@,
            HaruhiError::BindError => "Error during queue"@,
            HaruhiError::ShmError => "Error in write image in shm"@,
            HaruhiError::NotSupportFormat => "Not Support format"@,
            HaruhiError::CaptureFailed(_) => "Capture Failed"@,
            HaruhiError::RegionOutOfBounds => "Region out of bounds"@,
        }
    }

    /// A copy of this failure.
    pub fn copy(&self) -> (r: HaruhiError)
        ensures
            r@ == self@,
    {
        match self {
            HaruhiError::InitFailedConnection => HaruhiError::InitFailedConnection,
            HaruhiError::InitFailedGlobal => HaruhiError::InitFailedGlobal,
            HaruhiError::DispatchError => HaruhiError::DispatchError,
            HaruhiError::BindError => HaruhiError::BindError,
            HaruhiError::ShmError => HaruhiError::ShmError,
            HaruhiError::NotSupportFormat => HaruhiError::NotSupportFormat,
            HaruhiError::CaptureFailed(text) => HaruhiError::CaptureFailed(text.clone()),
            HaruhiError::RegionOutOfBounds => HaruhiError::RegionOutOfBounds,
        }
    }

    /// The text that describes this kind of failure.
    pub fn message(&self) -> (s: &'static str)
        ensures
            s@ == self.spec_message(),
    {
        match self {
            HaruhiError::InitFailedConnection => "Init Failed connection",
            HaruhiError::InitFailedGlobal => "Init Failed Global",
            HaruhiError::DispatchError => "Dispatch Error",
            HaruhiError::BindError => "Error during queue",
            HaruhiError::ShmError => "Error in write image in shm",
            HaruhiError::NotSupportFormat => "Not Support format",
            HaruhiError::CaptureFailed(_) => "Capture Failed",
            HaruhiError::RegionOutOfBounds => "Region out of bounds",
        }
    }
}

} // verus!
