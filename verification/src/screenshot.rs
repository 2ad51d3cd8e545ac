//! One capture: the session that negotiates a buffer with the compositor and
//! waits for the frame, and the image that comes of it.

use vstd::prelude::*;

use crate::convert::{create_converter, ColorType, Format};
use crate::frame::{CaptureInfo, CaptureState, FrameEvent, FrameInfo, SessionEvent};
use crate::haruhierror::{HaruhiError, HaruhiErrorView};
use crate::state::HaruhiShotState;
use crate::utils::{Position, Region, Size, Transform, WlOutputInfo};

verus! {

/// Whether the cursor is to be seen in the capture.
#[derive(Debug, Clone, Copy, PartialEq, Eq, Structural)]
pub enum CaptureOption {
    PaintCursors,
    NoCursors,
}

impl CaptureOption {
    /// Whether the compositor is asked to paint the cursor.
    pub fn paints_cursors(self) -> (r: bool)
        ensures
            r == (self is PaintCursors),
    {
        match self {
            CaptureOption::PaintCursors => true,
            CaptureOption::NoCursors => false,
        }
    }
}

/// A captured image: its pixels, row after row, and how to read them.
#[derive(Debug, Clone)]
pub struct ImageInfo {
    pub data: Vec<u8>,
    pub width: u32,
    pub height: u32,
    pub color_type: ColorType,
}

/// A captured image, and the part of it that was selected.
#[derive(Debug, Clone)]
pub struct ImageViewInfo {
    pub info: ImageInfo,
    pub region: Region,
}

/// The buffer that a session asks for: four bytes for each pixel, the rows
/// one after the other without a gap.
#[derive(Debug, Clone, Copy, PartialEq, Eq)]
pub struct BufferPlan {
    pub width: u32,
    pub height: u32,
    /// The bytes of one row.
    pub stride: u32,
    /// The bytes of the whole frame.
    pub frame_bytes: u32,
    pub format: Format,
}

impl BufferPlan {
    /// Whether a buffer of `width` by `height` pixels can be asked for: the
    /// compositor takes its height, the bytes of a row and the bytes of the
    /// whole as signed 32-bit numbers.
    pub open spec fn fits(width: u32, height: u32) -> bool {
        &&& 4 * width <= i32::MAX
        &&& height <= i32::MAX
        &&& 4 * width * height <= i32::MAX
    }

    /// The buffer for a frame of the size `size` in the layout `format`.
    pub open spec fn spec_new(size: Size<u32>, format: Format) -> BufferPlan {
        BufferPlan {
            width: size.width,
            height: size.height,
            stride: (4 * size.width) as u32,
            frame_bytes: (4 * size.width * size.height) as u32,
            format,
        }
    }

    /// The buffer for a frame of the size `size` in the layout `format`, if
    /// such a buffer can be asked for.
    pub fn new(size: Size<u32>, format: Format) -> (r: Option<BufferPlan>)
        ensures
            r == if BufferPlan::fits(size.width, size.height) {
                Some(BufferPlan::spec_new(size, format))
            } else {
                None
            },
    {
        if size.width > 0x1fff_ffff || size.height > 0x7fff_ffff {
            return None;
        }
        let stride: u32 = 4 * size.width;
        assert(stride as u64 * size.height as u64 <= 0x7fff_ffff * 0x7fff_ffff) by (nonlinear_arith)
            requires
                stride <= 0x7fff_ffff,
                size.height <= 0x7fff_ffff,
        ;
        let frame_bytes: u64 = stride as u64 * size.height as u64;
        if frame_bytes > 0x7fff_ffff {
            return None;
        }
        Some(
            BufferPlan {
                width: size.width,
                height: size.height,
                stride,
                frame_bytes: frame_bytes as u32,
                format,
            },
        )
    }
}

/// What is to be done next for a capture.
#[derive(Debug, Clone, PartialEq, Eq)]
pub enum CaptureAction {
    /// Wait for the compositor's next events, and hand them to the session.
    Dispatch,
    /// Make the buffer, attach it to the frame, ask for the capture, and tell
    /// the session so.
    Capture(BufferPlan),
    /// The frame is in the buffer: read it.
    Finish { plan: BufferPlan, transform: Transform },
    /// The capture has failed: give up, and touch no buffer.
    Fail(HaruhiError),
}

/// A `CaptureAction` as plain values.
pub enum CaptureActionView {
    Dispatch,
    Capture(BufferPlan),
    Finish { plan: BufferPlan, transform: Transform },
    Fail(HaruhiErrorView),
}

impl View for CaptureAction {
    type V = CaptureActionView;

    open spec fn view(&self) -> CaptureActionView {
        match *self {
            CaptureAction::Dispatch => CaptureActionView::Dispatch,
            CaptureAction::Capture(plan) => CaptureActionView::Capture(plan),
            CaptureAction::Finish { plan, transform } => CaptureActionView::Finish {
                plan,
                transform,
            },
            CaptureAction::Fail(error) => CaptureActionView::Fail(error@),
        }
    }
}

/// What reaches a capture session from outside.
pub enum SessionInput {
    /// The session reported `0`.
    Session(SessionEvent),
    /// The frame reported `0`.
    Frame(FrameEvent),
    /// The buffer was attached and the capture asked for.
    CaptureRequested,
    /// What the caller had to do has failed: the memory could not be made,
    /// or the compositor could not be waited for.
    Failed(HaruhiErrorView),
}

/// One capture, from the opening of the session to the frame or the failure.
#[derive(Debug)]
pub struct CaptureSession {
    /// What the session asks of the buffer.
    pub frame_info: FrameInfo,
    /// The course of the frame.
    pub capture_info: CaptureInfo,
    /// The buffer that was attached, once the capture has been asked for.
    pub attached: Option<BufferPlan>,
    /// The first failure of what the caller had to do.
    pub failure: Option<HaruhiError>,
}

/// One capture, as plain values.
pub struct SessionView {
    pub frame_info: FrameInfo,
    pub capture_info: CaptureInfo,
    pub attached: Option<BufferPlan>,
    pub failure: Option<HaruhiErrorView>,
}

impl View for CaptureSession {
    type V = SessionView;

    open spec fn view(&self) -> SessionView {
        SessionView {
            frame_info: self.frame_info,
            capture_info: self.capture_info,
            attached: self.attached,
            failure: match self.failure {
                Some(error) => Some(error@),
                None => None,
            },
        }
    }
}

impl SessionView {
    /// What is to be done next.
    ///
    /// A failed frame ends the capture, whatever else is known, and so does
    /// a failure of what the caller had to do. Before the capture has been
    /// asked for, a layout that is not supported ends it as soon as it is
    /// reported; with size and layout known, the buffer is made, unless it
    /// would be too large; until then, the session waits. After the capture
    /// has been asked for, the session waits for the frame.
    pub open spec fn spec_next_action(self) -> CaptureActionView {
        if let CaptureState::Failed(reason) = self.capture_info.state {
            CaptureActionView::Fail(HaruhiErrorView::CaptureFailed(reason.text()))
        } else if let Some(error) = self.failure {
            CaptureActionView::Fail(error)
        } else if let Some(plan) = self.attached {
            if self.capture_info.state is Succeeded {
                CaptureActionView::Finish { plan, transform: self.capture_info.transform }
            } else {
                CaptureActionView::Dispatch
            }
        } else if self.frame_info.shm_format is Some
            && !self.frame_info.shm_format.unwrap().spec_is_supported() {
            CaptureActionView::Fail(HaruhiErrorView::NotSupportFormat)
        } else if self.frame_info.shm_format is Some && self.frame_info.buffer_size is Some {
            let size = self.frame_info.buffer_size.unwrap();
            if BufferPlan::fits(size.width, size.height) {
                CaptureActionView::Capture(
                    BufferPlan::spec_new(size, self.frame_info.shm_format.unwrap()),
                )
            } else {
                CaptureActionView::Fail(HaruhiErrorView::ShmError)
            }
        } else {
            CaptureActionView::Dispatch
        }
    }

    /// The session after the buffer has been attached and the capture asked
    /// for. Nothing changes unless that was the thing to do.
    pub open spec fn with_capture_requested(self) -> SessionView {
        match self.spec_next_action() {
            CaptureActionView::Capture(plan) => SessionView { attached: Some(plan), ..self },
            _ => self,
        }
    }

    /// The session after what the caller had to do has failed with `error`.
    /// The first such failure is kept.
    pub open spec fn with_failure(self, error: HaruhiErrorView) -> SessionView {
        if self.failure is Some {
            self
        } else {
            SessionView { failure: Some(error), ..self }
        }
    }

    /// The session after `input`.
    pub open spec fn with_input(self, input: SessionInput) -> SessionView {
        match input {
            SessionInput::Session(event) => SessionView {
                frame_info: self.frame_info.with_event(event),
                ..self
            },
            SessionInput::Frame(event) => SessionView {
                capture_info: self.capture_info.with_event(event),
                ..self
            },
            SessionInput::CaptureRequested => self.with_capture_requested(),
            SessionInput::Failed(error) => self.with_failure(error),
        }
    }

    /// The session after all of `inputs`, in their order.
    pub open spec fn with_inputs(self, inputs: Seq<SessionInput>) -> SessionView
        decreases inputs.len(),
    {
        if inputs.len() == 0 {
            self
        } else {
            self.with_inputs(inputs.drop_last()).with_input(inputs.last())
        }
    }

    /// Whether the session is as it was opened: nothing reported, the frame
    /// pending, no buffer attached, nothing failed.
    pub open spec fn is_new(self) -> bool {
        &&& self.frame_info.buffer_size is None
        &&& self.frame_info.shm_format is None
        &&& self.capture_info.state is Pending
        &&& self.capture_info.transform == Transform::Normal
        &&& self.attached is None
        &&& self.failure is None
    }
}

impl CaptureSession {
    /// A session that has just been opened.
    pub fn new() -> (r: Self)
        ensures
            r@.is_new(),
    {
        CaptureSession {
            frame_info: FrameInfo::new(),
            capture_info: CaptureInfo::new(),
            attached: None,
            failure: None,
        }
    }

    /// Takes in what the session reports.
    pub fn session_event(&mut self, event: SessionEvent)
        ensures
            final(self)@ == old(self)@.with_input(SessionInput::Session(event)),
    {
        self.frame_info.event(event);
    }

    /// Takes in what the frame reports.
    pub fn frame_event(&mut self, event: FrameEvent)
        ensures
            final(self)@ == old(self)@.with_input(SessionInput::Frame(event)),
    {
        self.capture_info.event(event);
    }

    /// Takes in that what the caller had to do has failed: the memory for
    /// the frame could not be made, or the compositor could not be waited
    /// for. The first such failure is kept, and ends the capture.
    pub fn failed(&mut self, error: HaruhiError)
        ensures
            final(self)@ == old(self)@.with_input(SessionInput::Failed(error@)),
    {
        if self.failure.is_none() {
            self.failure = Some(error);
        }
    }

    /// What is to be done next.
    pub fn next_action(&self) -> (r: CaptureAction)
        ensures
            r@ == self@.spec_next_action(),
    {
        if let CaptureState::Failed(reason) = self.capture_info.state() {
            return CaptureAction::Fail(HaruhiError::CaptureFailed(reason.describe()));
        }
        if let Some(error) = &self.failure {
            return CaptureAction::Fail(error.copy());
        }
        if let Some(plan) = self.attached {
            return match self.capture_info.state() {
                CaptureState::Succeeded => CaptureAction::Finish {
                    plan,
                    transform: self.capture_info.transform(),
                },
                _ => CaptureAction::Dispatch,
            };
        }
        match self.frame_info.format() {
            Some(format) => {
                if !format.is_supported() {
                    return CaptureAction::Fail(HaruhiError::NotSupportFormat);
                }
                match self.frame_info.size() {
                    Some(size) => match BufferPlan::new(size, format) {
                        Some(plan) => CaptureAction::Capture(plan),
                        None => CaptureAction::Fail(HaruhiError::ShmError),
                    },
                    None => CaptureAction::Dispatch,
                }
            },
            None => CaptureAction::Dispatch,
        }
    }

    /// Records that the buffer has been attached and the capture asked for.
    /// Nothing changes unless that was the thing to do.
    pub fn capture_requested(&mut self)
        ensures
            final(self)@ == old(self)@.with_input(SessionInput::CaptureRequested),
    {
        if let CaptureAction::Capture(plan) = self.next_action() {
            self.attached = Some(plan);
        }
    }
}

/// A buffer is made once, for a layout that can be converted, with four
/// bytes for each pixel, and only while nothing has failed; and a buffer is
/// read only after it has been attached and the frame has arrived in it.
pub proof fn lemma_buffer_made_then_read(session: SessionView)
    ensures
        session.spec_next_action() is Capture ==> {
            let plan = session.spec_next_action()->Capture_0;
            &&& session.attached is None
            &&& session.failure is None
            &&& session.capture_info.state is Pending || session.capture_info.state is Succeeded
            &&& plan.format.spec_is_supported()
            &&& session.frame_info.shm_format == Some(plan.format)
            &&& session.frame_info.buffer_size == Some(
                Size { width: plan.width, height: plan.height },
            )
            &&& plan.stride == 4 * plan.width
            &&& plan.frame_bytes == 4 * plan.width * plan.height
            &&& plan.frame_bytes <= i32::MAX
            &&& session.with_capture_requested().attached == Some(plan)
        },
        session.spec_next_action() is Finish ==> {
            &&& session.capture_info.state is Succeeded
            &&& session.failure is None
            &&& session.attached == Some(session.spec_next_action()->Finish_plan)
            &&& session.spec_next_action()->Finish_transform == session.capture_info.transform
        },
{
}

/// A frame that has failed stays failed, whatever arrives later, and a
/// session with a failed frame only ever gives up, for the reason that the
/// frame failed for: it neither makes a buffer nor reads one.
pub proof fn lemma_failed_session_gives_up(session: SessionView, inputs: Seq<SessionInput>)
    requires
        session.capture_info.state is Failed,
    ensures
        session.with_inputs(inputs).capture_info.state == session.capture_info.state,
        session.with_inputs(inputs).spec_next_action() == session.spec_next_action(),
        session.with_inputs(inputs).spec_next_action() is Fail,
        session.with_inputs(inputs).attached == session.attached,
    decreases inputs.len(),
{
    if inputs.len() > 0 {
        lemma_failed_session_gives_up(session, inputs.drop_last());
    }
}

/// A session whose pending frame is reported as failed never goes on to make
/// a buffer or to read one: whatever arrives after the failure, the thing to
/// do is to give up with that reason, and no buffer is attached that was not
/// attached before.
pub proof fn lemma_failure_stops_capture(
    session: SessionView,
    reason: crate::frame::FailureReason,
    later: Seq<SessionInput>,
)
    requires
        session.capture_info.state is Pending,
    ensures
        ({
            let failed = session.with_input(SessionInput::Frame(FrameEvent::Failed { reason }));
            let end = failed.with_inputs(later);
            &&& end.spec_next_action() == CaptureActionView::Fail(
                HaruhiErrorView::CaptureFailed(reason.text()),
            )
            &&& !(end.spec_next_action() is Capture)
            &&& !(end.spec_next_action() is Finish)
            &&& end.attached == session.attached
        }),
{
    let failed = session.with_input(SessionInput::Frame(FrameEvent::Failed { reason }));
    lemma_failed_session_gives_up(failed, later);
}

/// Once something that the caller had to do has failed, the session only
/// ever gives up: whatever arrives later, it neither makes a buffer nor reads
/// one, and no buffer is attached that was not attached before. It gives up
/// with that failure, unless the frame itself is reported as failed.
pub proof fn lemma_caller_failure_stops_capture(
    session: SessionView,
    error: HaruhiErrorView,
    later: Seq<SessionInput>,
)
    requires
        session.failure is None,
    ensures
        ({
            let end = session.with_input(SessionInput::Failed(error)).with_inputs(later);
            &&& end.failure == Some(error)
            &&& end.spec_next_action() is Fail
            &&& !(end.capture_info.state is Failed) ==> end.spec_next_action()
                == CaptureActionView::Fail(error)
            &&& end.attached == session.attached
        }),
    decreases later.len(),
{
    if later.len() > 0 {
        lemma_caller_failure_stops_capture(session, error, later.drop_last());
    }
}

/// A way to have a region selected: by asking the user, or by knowing it
/// beforehand.
pub trait AreaSelectCallback: Sized {
    /// Whether the selector can be run on `state`.
    spec fn ready(&self, state: &HaruhiShotState) -> bool;

    /// Whether `answer` is something that the selector may answer when it is
    /// run on `state`.
    spec fn answers(&self, state: &HaruhiShotState, answer: Result<Region, HaruhiError>) -> bool;

    /// Selects a region of the global coordinate space, given what the engine
    /// knows of the outputs.
    fn slurp(self, state: &HaruhiShotState) -> (r: Result<Region, HaruhiError>)
        requires
            self.ready(state),
        ensures
            self.answers(state, r),
    ;
}

impl<F> AreaSelectCallback for F where
    F: Fn(&HaruhiShotState) -> Result<Region, HaruhiError>,
 {
    open spec fn ready(&self, state: &HaruhiShotState) -> bool {
        self.requires((state,))
    }

    open spec fn answers(
        &self,
        state: &HaruhiShotState,
        answer: Result<Region, HaruhiError>,
    ) -> bool {
        self.ensures((state,), answer)
    }

    /// Calls the function.
    fn slurp(self, state: &HaruhiShotState) -> (r: Result<Region, HaruhiError>) {
        self(state)
    }
}

impl AreaSelectCallback for Region {
    open spec fn ready(&self, state: &HaruhiShotState) -> bool {
        true
    }

    open spec fn answers(
        &self,
        state: &HaruhiShotState,
        answer: Result<Region, HaruhiError>,
    ) -> bool {
        answer == Ok::<Region, HaruhiError>(*self)
    }

    /// The region itself.
    fn slurp(self, state: &HaruhiShotState) -> (r: Result<Region, HaruhiError>) {
        Ok(self)
    }
}

impl BufferPlan {
    /// Whether a frame of `len` bytes fills a buffer of this plan: the plan
    /// has four bytes for each pixel, and the frame has as many bytes as the
    /// plan.
    pub open spec fn holds(self, len: nat) -> bool {
        &&& self.frame_bytes == 4 * self.width * self.height
        &&& len == self.frame_bytes
    }
}

impl ImageInfo {
    /// The image that the frame `data` holds, once it is brought to RGBA.
    /// There is none where the layout of the buffer is not supported, and
    /// none where the frame does not have four bytes for each pixel of the
    /// buffer.
    pub fn from_frame(data: Vec<u8>, plan: BufferPlan) -> (r: Result<ImageInfo, HaruhiError>)
        ensures
            match r {
                Ok(info) => {
                    &&& plan.format.converter() is Some
                    &&& plan.holds(data@.len())
                    &&& info.data@ == plan.format.converter().unwrap().converted(data@)
                    &&& info.width == plan.width
                    &&& info.height == plan.height
                    &&& info.color_type == ColorType::Rgba8
                    &&& info.well_formed()
                },
                Err(error) => if plan.format.converter() is None {
                    error@ == HaruhiErrorView::NotSupportFormat
                } else {
                    !plan.holds(data@.len()) && error@ == HaruhiErrorView::ShmError
                },
            },
    {
        let mut data = data;
        match create_converter(plan.format) {
            Some(converter) => {
                assert(plan.width as u64 * plan.height as u64 <= 0xffff_ffff * 0xffff_ffff)
                    by (nonlinear_arith)
                    requires
                        plan.width <= 0xffff_ffff,
                        plan.height <= 0xffff_ffff,
                ;
                assert(4 * plan.width * plan.height == 4 * (plan.width * plan.height))
                    by (nonlinear_arith);
                let pixels: u64 = plan.width as u64 * plan.height as u64;
                if pixels > 0x3fff_ffff || 4 * pixels != plan.frame_bytes as u64 || data.len()
                    != plan.frame_bytes as usize {
                    return Err(HaruhiError::ShmError);
                }
                let color_type = converter.convert_inplace(data.as_mut_slice());
                Ok(ImageInfo { data, width: plan.width, height: plan.height, color_type })
            },
            None => Err(HaruhiError::NotSupportFormat),
        }
    }
}

impl ImageInfo {
    /// Whether the image holds four bytes for each of its pixels.
    pub open spec fn well_formed(&self) -> bool {
        self.data@.len() == 4 * self.width * self.height
    }
}

impl ImageViewInfo {
    /// Whether the selected part lies within the image: the image holds four
    /// bytes for each pixel, and the part has a corner and an extent that
    /// are not negative and reaches beyond no edge.
    pub open spec fn region_fits(&self) -> bool {
        &&& self.info.well_formed()
        &&& 0 <= self.region.position.x
        &&& 0 <= self.region.position.y
        &&& 0 <= self.region.size.width
        &&& 0 <= self.region.size.height
        &&& self.region.position.x + self.region.size.width <= self.info.width
        &&& self.region.position.y + self.region.size.height <= self.info.height
    }

    /// The pixels of the selected part, row after row: the byte `i` of the
    /// part is taken from the row and the place in that row where it stands
    /// in the image.
    pub open spec fn cropped(&self) -> Seq<u8>
        recommends
            self.region_fits(),
    {
        let row_bytes = 4 * self.region.size.width;
        Seq::new(
            (row_bytes * self.region.size.height) as nat,
            |i: int|
                self.info.data@[4 * ((self.region.position.y + i / row_bytes) * self.info.width
                    + self.region.position.x) + i % row_bytes],
        )
    }

    /// The selected part as an image of its own; `None` where the part does
    /// not lie within the image.
    pub fn crop(&self) -> (r: Option<ImageInfo>)
        ensures
            match r {
                Some(part) => {
                    &&& self.region_fits()
                    &&& part.width == self.region.size.width
                    &&& part.height == self.region.size.height
                    &&& part.color_type == self.info.color_type
                    &&& part.data@ == self.cropped()
                    &&& part.well_formed()
                },
                None => !self.region_fits(),
            },
    {
        let region = self.region;
        if region.position.x < 0 || region.position.y < 0 || region.size.width < 0
            || region.size.height < 0 {
            return None;
        }
        let x = region.position.x as u64;
        let y = region.position.y as u64;
        let width = region.size.width as u64;
        let height = region.size.height as u64;
        if x + width > self.info.width as u64 || y + height > self.info.height as u64 {
            return None;
        }
        let full_width = self.info.width as u64;
        let full_height = self.info.height as u64;
        assert(full_width * full_height <= 0xffff_ffff * 0xffff_ffff) by (nonlinear_arith)
            requires
                full_width <= 0xffff_ffff,
                full_height <= 0xffff_ffff,
        ;
        assert(4 * self.info.width * self.info.height == 4 * (full_width * full_height))
            by (nonlinear_arith)
            requires
                full_width == self.info.width,
                full_height == self.info.height,
        ;
        let pixels: u64 = full_width * full_height;
        let len = self.info.data.len();
        assert(len <= 0xffff_ffff_ffff_ffff);
        if pixels > 0x3fff_ffff_ffff_ffff || len as u64 != 4 * pixels {
            return None;
        }
        let row_bytes: u64 = 4 * width;
        let mut data: Vec<u8> = Vec::new();
        let mut row: u64 = 0;
        while row < height
            invariant
                self.region_fits(),
                region == self.region,
                x == region.position.x,
                y == region.position.y,
                width == region.size.width,
                height == region.size.height,
                full_width == self.info.width,
                full_height == self.info.height,
                row_bytes == 4 * width,
                pixels == full_width * full_height,
                pixels <= 0x3fff_ffff_ffff_ffff,
                self.info.data@.len() == 4 * pixels,
                len == self.info.data@.len(),
                row <= height,
                data@.len() == row_bytes * row,
                data@.len() <= row_bytes * height,
                forall|i: int| 0 <= i < data@.len() ==> data@[i] == self.cropped()[i],
            decreases height - row,
        {
            proof {
                lemma_row_in_image(
                    x as int,
                    y as int,
                    width as int,
                    height as int,
                    full_width as int,
                    full_height as int,
                    row as int,
                );
            }
            let start: u64 = 4 * ((y + row) * full_width + x);
            let mut k: u64 = 0;
            while k < row_bytes
                invariant
                    self.region_fits(),
                    region == self.region,
                    x == region.position.x,
                    y == region.position.y,
                    width == region.size.width,
                    height == region.size.height,
                    full_width == self.info.width,
                    row_bytes == 4 * width,
                    row < height,
                    start == 4 * ((y + row) * full_width + x),
                    start + row_bytes <= self.info.data@.len(),
                    len == self.info.data@.len(),
                    self.info.data@.len() <= 0xffff_ffff_ffff_fffc,
                    k <= row_bytes,
                    data@.len() == row_bytes * row + k,
                    data@.len() <= row_bytes * height,
                    forall|i: int| 0 <= i < data@.len() ==> data@[i] == self.cropped()[i],
                decreases row_bytes - k,
            {
                let ghost at = data@.len() as int;
                proof {
                    lemma_place_in_row(at, row_bytes as int, row as int, k as int, height as int);
                    assert(self.cropped()[at] == self.info.data@[start + k]);
                }
                let index: u64 = start + k;
                assert(index < len);
                data.push(self.info.data[index as usize]);
                k += 1;
                proof {
                    if k < row_bytes {
                        lemma_place_in_row(
                            at + 1,
                            row_bytes as int,
                            row as int,
                            k as int,
                            height as int,
                        );
                    } else {
                        assert(row_bytes * row + row_bytes <= row_bytes * height)
                            by (nonlinear_arith)
                            requires
                                row + 1 <= height,
                                0 <= row_bytes,
                        ;
                    }
                }
            }
            assert(row_bytes * (row + 1) == row_bytes * row + row_bytes) by (nonlinear_arith);
            row += 1;
        }
        assert(data@ =~= self.cropped());
        Some(
            ImageInfo {
                data,
                width: region.size.width as u32,
                height: region.size.height as u32,
                color_type: self.info.color_type,
            },
        )
    }
}

/// A row of a part that lies within an image lies within the bytes of the
/// image.
proof fn lemma_row_in_image(
    x: int,
    y: int,
    width: int,
    height: int,
    full_width: int,
    full_height: int,
    row: int,
)
    requires
        0 <= x,
        0 <= y,
        0 <= width,
        0 <= row < height,
        x + width <= full_width,
        y + height <= full_height,
    ensures
        0 <= (y + row) * full_width <= full_width * full_height,
        0 <= (y + row) * full_width + x <= full_width * full_height,
        4 * ((y + row) * full_width + x) + 4 * width <= 4 * (full_width * full_height),
{
    assert((y + row) * full_width + full_width <= full_height * full_width) by (nonlinear_arith)
        requires
            0 <= y + row,
            y + row + 1 <= full_height,
            0 <= full_width,
    ;
    assert(0 <= (y + row) * full_width) by (nonlinear_arith)
        requires
            0 <= y + row,
            0 <= full_width,
    ;
    assert(full_height * full_width == full_width * full_height) by (nonlinear_arith);
}

/// The byte `k` of the row `row` is the byte `row_bytes * row + k` of the
/// part.
proof fn lemma_place_in_row(at: int, row_bytes: int, row: int, k: int, height: int)
    requires
        0 <= row < height,
        0 <= k < row_bytes,
        at == row_bytes * row + k,
    ensures
        at / row_bytes == row,
        at % row_bytes == k,
        0 <= at < row_bytes * height,
{
    assert(row_bytes * row == row * row_bytes) by (nonlinear_arith);
    vstd::arithmetic::div_mod::lemma_fundamental_div_mod_converse(at, row_bytes, row, k);
    assert(row_bytes * row + row_bytes <= row_bytes * height) by (nonlinear_arith)
        requires
            row + 1 <= height,
            0 < row_bytes,
    ;
    assert(0 <= row_bytes * row) by (nonlinear_arith)
        requires
            0 <= row,
            0 < row_bytes,
    ;
}

/// One captured output: where it lies among the others, and the buffer that
/// holds its frame.
#[derive(Debug, Clone, Copy, PartialEq, Eq)]
pub struct CaptureOutputData {
    /// The number under which the compositor's connection knows the output.
    pub output: u32,
    /// The width of the output in the global coordinate space.
    pub real_width: i32,
    /// The height of the output in the global coordinate space.
    pub real_height: i32,
    /// The width of the buffer, in pixels.
    pub width: u32,
    /// The height of the buffer, in pixels.
    pub height: u32,
    pub frame_bytes: u32,
    pub stride: u32,
    pub transform: Transform,
    pub frame_format: Format,
    /// The top left corner of the output in the global coordinate space.
    pub screen_position: Position,
}

impl CaptureOutputData {
    /// What a capture of the output `output` into the buffer `plan` gave, its
    /// content turned as `transform` says.
    pub open spec fn spec_new(
        output: crate::utils::OutputView,
        plan: BufferPlan,
        transform: Transform,
    ) -> CaptureOutputData {
        CaptureOutputData {
            output: output.output,
            real_width: output.logical_size.width,
            real_height: output.logical_size.height,
            width: plan.width,
            height: plan.height,
            frame_bytes: plan.frame_bytes,
            stride: plan.stride,
            transform,
            frame_format: plan.format,
            screen_position: output.position,
        }
    }

    /// What a capture of the output `output` into the buffer `plan` gave, its
    /// content turned as `transform` says.
    pub fn new(output: &WlOutputInfo, plan: BufferPlan, transform: Transform) -> (r: Self)
        ensures
            r == CaptureOutputData::spec_new(output@, plan, transform),
    {
        CaptureOutputData {
            output: output.output,
            real_width: output.logical_size.width,
            real_height: output.logical_size.height,
            width: plan.width,
            height: plan.height,
            frame_bytes: plan.frame_bytes,
            stride: plan.stride,
            transform,
            frame_format: plan.format,
            screen_position: output.position,
        }
    }

    /// The rectangle that the output covers in the global coordinate space.
    pub open spec fn screen_region(self) -> Region {
        Region {
            position: self.screen_position,
            size: Size { width: self.real_width, height: self.real_height },
        }
    }

    /// The buffer that holds the frame.
    pub fn plan(&self) -> (r: BufferPlan)
        ensures
            r == (BufferPlan {
                width: self.width,
                height: self.height,
                stride: self.stride,
                frame_bytes: self.frame_bytes,
                format: self.frame_format,
            }),
    {
        BufferPlan {
            width: self.width,
            height: self.height,
            stride: self.stride,
            frame_bytes: self.frame_bytes,
            format: self.frame_format,
        }
    }
}

/// The length `value`, measured on an output of the extent `extent`, in the
/// pixels of a buffer that shows the whole extent in `buffer` pixels: the
/// quotient of `value * buffer` by `extent`, without its fraction, and held to
/// the range of an `i32`.
pub open spec fn scale_axis(value: int, buffer: int, extent: int) -> int
    recommends
        0 <= buffer,
        0 < extent,
{
    let product = value * buffer;
    let quotient = if product >= 0 {
        product / extent
    } else {
        -((-product) / extent)
    };
    if quotient > i32::MAX {
        i32::MAX as int
    } else if quotient < i32::MIN {
        i32::MIN as int
    } else {
        quotient
    }
}

/// Computes `scale_axis`.
fn scale(value: i64, buffer: u32, extent: i32) -> (r: i32)
    requires
        -0xffff_ffff <= value <= 0xffff_ffff,
        0 < extent,
    ensures
        r == scale_axis(value as int, buffer as int, extent as int),
{
    let magnitude: u64 = if value < 0 {
        (-value) as u64
    } else {
        value as u64
    };
    assert(magnitude * buffer <= 0xffff_ffff * 0xffff_ffff) by (nonlinear_arith)
        requires
            magnitude <= 0xffff_ffff,
            buffer <= 0xffff_ffff,
    ;
    let product: u64 = magnitude * buffer as u64;
    proof {
        if value < 0 {
            assert(value * buffer == -(magnitude * buffer)) by (nonlinear_arith)
                requires
                    magnitude == -value,
            ;
        }
    }
    let quotient: u64 = product / (extent as u64);
    if value >= 0 {
        if quotient > 0x7fff_ffff {
            i32::MAX
        } else {
            quotient as i32
        }
    } else {
        if quotient >= 0x8000_0000 {
            i32::MIN
        } else {
            -(quotient as i32)
        }
    }
}

/// A captured output, as the selection of a region sees it.
#[derive(Debug, Clone, Copy, PartialEq, Eq)]
pub struct AreaShotInfo {
    pub data: CaptureOutputData,
}

impl AreaShotInfo {
    /// Whether the top left corner of `region` lies on this output.
    pub open spec fn spec_in_this_screen(&self, region: Region) -> bool {
        self.data.screen_region().contains_point(
            region.position.x as int,
            region.position.y as int,
        )
    }

    /// The rectangle of the buffer that shows `region`, if the top left
    /// corner of `region` lies on this output: the corner is counted from the
    /// output's own corner, and corner and extent are scaled from the
    /// output's extent to the buffer's, each axis by itself.
    pub open spec fn spec_clip_area(&self, region: Region) -> Option<Region> {
        if self.spec_in_this_screen(region) {
            Some(
                Region {
                    position: Position {
                        x: scale_axis(
                            region.position.x - self.data.screen_position.x,
                            self.data.width as int,
                            self.data.real_width as int,
                        ) as i32,
                        y: scale_axis(
                            region.position.y - self.data.screen_position.y,
                            self.data.height as int,
                            self.data.real_height as int,
                        ) as i32,
                    },
                    size: Size {
                        width: scale_axis(
                            region.size.width as int,
                            self.data.width as int,
                            self.data.real_width as int,
                        ) as i32,
                        height: scale_axis(
                            region.size.height as int,
                            self.data.height as int,
                            self.data.real_height as int,
                        ) as i32,
                    },
                },
            )
        } else {
            None
        }
    }

    /// Whether the top left corner of `region` lies on this output.
    #[verifier::when_used_as_spec(spec_in_this_screen)]
    pub fn in_this_screen(&self, region: Region) -> (r: bool)
        ensures
            r == self.spec_in_this_screen(region),
    {
        let screen = Region {
            position: self.data.screen_position,
            size: Size { width: self.data.real_width, height: self.data.real_height },
        };
        screen.contains(region.position)
    }

    /// The rectangle of the buffer that shows `region`; `None` where the top
    /// left corner of `region` does not lie on this output.
    #[verifier::when_used_as_spec(spec_clip_area)]
    pub fn clip_area(&self, region: Region) -> (r: Option<Region>)
        ensures
            r == self.spec_clip_area(region),
    {
        if !self.in_this_screen(region) {
            return None;
        }
        let relative_point = region.position - self.data.screen_position;
        let position = Position {
            x: scale(relative_point.x as i64, self.data.width, self.data.real_width),
            y: scale(relative_point.y as i64, self.data.height, self.data.real_height),
        };
        Some(
            Region {
                position,
                size: Size {
                    width: scale(region.size.width as i64, self.data.width, self.data.real_width),
                    height: scale(
                        region.size.height as i64,
                        self.data.height,
                        self.data.real_height,
                    ),
                },
            },
        )
    }
}

/// A region that covers a whole output maps to the whole buffer, whatever the
/// ratio between the output's extent and the buffer's: the corner goes to the
/// buffer's origin, and the extent becomes the buffer's size.
pub proof fn lemma_whole_output_maps_to_whole_buffer(shot: AreaShotInfo)
    requires
        0 < shot.data.real_width,
        0 < shot.data.real_height,
        shot.data.width <= i32::MAX,
        shot.data.height <= i32::MAX,
    ensures
        shot.spec_clip_area(shot.data.screen_region()) == Some(
            Region {
                position: Position { x: 0, y: 0 },
                size: Size { width: shot.data.width as i32, height: shot.data.height as i32 },
            },
        ),
{
    let data = shot.data;
    vstd::arithmetic::div_mod::lemma_div_multiples_vanish(
        data.width as int,
        data.real_width as int,
    );
    vstd::arithmetic::div_mod::lemma_div_multiples_vanish(
        data.height as int,
        data.real_height as int,
    );
    assert(data.real_width * data.width == data.width * data.real_width >= 0) by (nonlinear_arith)
        requires
            data.real_width > 0,
            data.width >= 0,
    ;
    assert(data.real_height * data.height == data.height * data.real_height >= 0)
        by (nonlinear_arith)
        requires
            data.real_height > 0,
            data.height >= 0,
    ;
}

} // verus!
