//! What a capture session learns from the compositor: the size and layout of
//! the frame to come, and how the frame ended.

use vstd::prelude::*;
use vstd::string::StringExecFns;

use crate::convert::Format;
use crate::text::{decimal, decimal_digits};
use crate::utils::{Size, Transform};

verus! {

/// Why the compositor gave up a frame.
#[derive(Debug, Clone, Copy, PartialEq, Eq, Structural)]
pub enum FailureReason {
    /// The compositor gives no reason.
    Unknown,
    /// The buffer does not fit what the session asked for.
    BufferConstraints,
    /// The session has ended: nothing will be captured from it any more.
    Stopped,
    /// A reason that has no name here, by the number that the compositor gave.
    Unrecognized(u32),
}

impl FailureReason {
    /// The words that name the reason.
    pub open spec fn text(self) -> Seq<char> {
        match self {
            FailureReason::Stopped => "Stopped"@,
            FailureReason::BufferConstraints => "BufferConstraints"@,
            FailureReason::Unknown => "Unknown"@,
            FailureReason::Unrecognized(code) => "Unknown reason, code : "@ + decimal_digits(
                code as nat,
            ),
        }
    }

    /// The words that name the reason. A reason without a name is told by its
    /// number.
    pub fn describe(self) -> (r: String)
        ensures
            r@ == self.text(),
    {
        match self {
            FailureReason::Stopped => String::from_str("Stopped"),
            FailureReason::BufferConstraints => String::from_str("BufferConstraints"),
            FailureReason::Unknown => String::from_str("Unknown"),
            FailureReason::Unrecognized(code) => {
                let mut text = String::from_str("Unknown reason, code : ");
                text.append(decimal(code as u64).as_str());
                text
            },
        }
    }
}

/// What the compositor tells of a capture session.
#[derive(Debug, Clone, Copy, PartialEq, Eq)]
pub enum SessionEvent {
    /// The size that the buffer must have, in pixels.
    BufferSize { width: u32, height: u32 },
    /// A pixel layout in which the frame can be had through shared memory.
    ShmFormat { format: Format },
    /// Everything about the buffer has been said.
    Done,
    /// Any other event; nothing is learnt from it.
    Other,
}

/// What the compositor tells of a frame.
#[derive(Debug, Clone, Copy, PartialEq, Eq)]
pub enum FrameEvent {
    /// How the content of the frame is turned.
    Transform { transform: Transform },
    /// The frame is in the buffer.
    Ready,
    /// There will be no frame.
    Failed { reason: FailureReason },
    /// Any other event; nothing is learnt from it.
    Other,
}

/// The size and the pixel layout that a session asks of its buffer. Each is
/// reported once: the first report stands, and a later one changes nothing.
#[derive(Debug, Clone, Copy)]
pub struct FrameInfo {
    pub buffer_size: Option<Size<u32>>,
    pub shm_format: Option<Format>,
}

impl FrameInfo {
    /// What is known after `event`.
    pub open spec fn with_event(self, event: SessionEvent) -> FrameInfo {
        match event {
            SessionEvent::BufferSize { width, height } => if self.buffer_size is None {
                FrameInfo { buffer_size: Some(Size { width, height }), ..self }
            } else {
                self
            },
            SessionEvent::ShmFormat { format } => if self.shm_format is None {
                FrameInfo { shm_format: Some(format), ..self }
            } else {
                self
            },
            _ => self,
        }
    }

    /// Nothing has been reported yet.
    pub fn new() -> (r: Self)
        ensures
            r.buffer_size is None,
            r.shm_format is None,
    {
        FrameInfo { buffer_size: None, shm_format: None }
    }

    /// The size of the buffer, once it has been reported.
    pub fn size(&self) -> (r: Option<Size<u32>>)
        ensures
            r == self.buffer_size,
    {
        self.buffer_size
    }

    /// The pixel layout, once it has been reported.
    pub fn format(&self) -> (r: Option<Format>)
        ensures
            r == self.shm_format,
    {
        self.shm_format
    }

    /// Takes in what the session reports.
    pub fn event(&mut self, event: SessionEvent)
        ensures
            *final(self) == old(self).with_event(event),
    {
        match event {
            SessionEvent::BufferSize { width, height } => {
                if self.buffer_size.is_none() {
                    self.buffer_size = Some(Size { width, height });
                }
            },
            SessionEvent::ShmFormat { format } => {
                if self.shm_format.is_none() {
                    self.shm_format = Some(format);
                }
            },
            SessionEvent::Done => {},
            SessionEvent::Other => {},
        }
    }
}

/// How far a frame has come. It starts as `Pending` and ends as `Succeeded`
/// or as `Failed`; once ended, it does not change again.
#[derive(Debug, Clone, Copy, PartialEq, Eq, Structural)]
pub enum CaptureState {
    Failed(FailureReason),
    Succeeded,
    Pending,
}

/// The course of one frame: how its content is turned, and how far it has
/// come.
#[derive(Debug, Clone, Copy)]
pub struct CaptureInfo {
    pub transform: Transform,
    pub state: CaptureState,
}

impl CaptureInfo {
    /// The course of the frame after `event`. Only a pending frame takes
    /// events in.
    pub open spec fn with_event(self, event: FrameEvent) -> CaptureInfo {
        if self.state is Pending {
            match event {
                FrameEvent::Ready => CaptureInfo { state: CaptureState::Succeeded, ..self },
                FrameEvent::Failed { reason } => CaptureInfo {
                    state: CaptureState::Failed(reason),
                    ..self
                },
                FrameEvent::Transform { transform } => CaptureInfo { transform, ..self },
                FrameEvent::Other => self,
            }
        } else {
            self
        }
    }

    /// A pending frame that is not turned.
    pub fn new() -> (r: Self)
        ensures
            r.transform == Transform::Normal,
            r.state == CaptureState::Pending,
    {
        CaptureInfo { transform: Transform::Normal, state: CaptureState::Pending }
    }

    pub fn transform(&self) -> (r: Transform)
        ensures
            r == self.transform,
    {
        self.transform
    }

    pub fn state(&self) -> (r: CaptureState)
        ensures
            r == self.state,
    {
        self.state
    }

    /// Takes in what the frame reports.
    pub fn event(&mut self, event: FrameEvent)
        ensures
            *final(self) == old(self).with_event(event),
    {
        match self.state {
            CaptureState::Pending => match event {
                FrameEvent::Ready => {
                    self.state = CaptureState::Succeeded;
                },
                FrameEvent::Failed { reason } => {
                    self.state = CaptureState::Failed(reason);
                },
                FrameEvent::Transform { transform } => {
                    self.transform = transform;
                },
                FrameEvent::Other => {},
            },
            _ => {},
        }
    }
}

} // verus!
