//! A capture through the screencopy protocol: the compositor offers buffer
//! layouts, one of them is chosen and a buffer handed over, and the frame is
//! copied into it.

use vstd::prelude::*;
use vstd::std_specs::convert::FromSpecImpl;
use vstd::string::StringExecFns;

use crate::convert::{create_converter, ColorType, Format};
use crate::haruhierror::{HaruhiError, HaruhiErrorView};
use crate::utils::Transform;

verus! {

/// The part of an output that is to be captured.
#[derive(Debug, Clone, Copy, PartialEq, Eq)]
pub enum SlurpArea {
    /// The whole output.
    NoArea,
    /// The rectangle of this corner and extent.
    Area { x: i32, y: i32, width: i32, height: i32 },
}

impl From<Option<(i32, i32, i32, i32)>> for SlurpArea {
    fn from(value: Option<(i32, i32, i32, i32)>) -> (r: Self) {
        match value {
            None => SlurpArea::NoArea,
            Some((x, y, width, height)) => SlurpArea::Area { x, y, width, height },
        }
    }
}

impl FromSpecImpl<Option<(i32, i32, i32, i32)>> for SlurpArea {
    open spec fn obeys_from_spec() -> bool {
        true
    }

    open spec fn from_spec(value: Option<(i32, i32, i32, i32)>) -> SlurpArea {
        match value {
            None => SlurpArea::NoArea,
            Some((x, y, width, height)) => SlurpArea::Area { x, y, width, height },
        }
    }
}

impl From<SlurpArea> for Option<(i32, i32, i32, i32)> {
    fn from(value: SlurpArea) -> (r: Self) {
        match value {
            SlurpArea::NoArea => None,
            SlurpArea::Area { x, y, width, height } => Some((x, y, width, height)),
        }
    }
}

impl FromSpecImpl<SlurpArea> for Option<(i32, i32, i32, i32)> {
    open spec fn obeys_from_spec() -> bool {
        true
    }

    open spec fn from_spec(value: SlurpArea) -> Option<(i32, i32, i32, i32)> {
        match value {
            SlurpArea::NoArea => None,
            SlurpArea::Area { x, y, width, height } => Some((x, y, width, height)),
        }
    }
}

/// How far a screencopy capture has come.
#[derive(Debug, Clone, Copy, PartialEq, Eq, Structural)]
pub enum ScreenCopyState {
    /// Nothing has been offered yet.
    Staging,
    /// A buffer layout has been offered.
    Pedding,
    /// The frame has been copied.
    Finished,
    /// There will be no frame.
    Failed,
}

/// A buffer layout that the compositor offers.
#[derive(Debug, Copy, Clone, PartialEq, Eq)]
pub struct FrameFormat {
    pub format: Format,
    pub width: u32,
    pub height: u32,
    /// The bytes of one row.
    pub stride: u32,
}

impl FrameFormat {
    /// The bytes of a buffer of this layout.
    pub open spec fn spec_frame_bytes(self) -> int {
        self.stride * self.height
    }

    /// Whether a frame can be had in this layout: its pixels can be
    /// converted, and the compositor can be told its width, its height, the
    /// bytes of a row and the bytes of the whole, each of which it takes as
    /// a signed 32-bit number.
    pub open spec fn spec_is_usable(self) -> bool {
        &&& self.format.spec_is_supported()
        &&& self.width <= i32::MAX
        &&& self.height <= i32::MAX
        &&& self.stride <= i32::MAX
        &&& self.spec_frame_bytes() <= i32::MAX
    }

    /// Whether a frame can be had in this layout.
    #[verifier::when_used_as_spec(spec_is_usable)]
    pub fn is_usable(self) -> (r: bool)
        ensures
            r == self.spec_is_usable(),
    {
        if !self.format.is_supported() || self.width > 0x7fff_ffff || self.height > 0x7fff_ffff
            || self.stride > 0x7fff_ffff {
            return false;
        }
        assert(self.stride as u64 * self.height as u64 <= 0x7fff_ffff * 0x7fff_ffff)
            by (nonlinear_arith)
            requires
                self.stride <= 0x7fff_ffff,
                self.height <= 0x7fff_ffff,
        ;
        self.stride as u64 * self.height as u64 <= 0x7fff_ffff
    }

    /// The bytes of a buffer of this layout.
    pub fn frame_bytes(self) -> (r: u32)
        requires
            self.spec_is_usable(),
        ensures
            r == self.spec_frame_bytes(),
    {
        assert(self.stride as u64 * self.height as u64 <= 0x7fff_ffff * 0x7fff_ffff)
            by (nonlinear_arith)
            requires
                self.stride <= 0x7fff_ffff,
                self.height <= 0x7fff_ffff,
        ;
        (self.stride as u64 * self.height as u64) as u32
    }
}

/// A captured frame.
#[derive(Debug, Clone)]
pub struct FrameInfo {
    /// The layout of the buffer that the frame was copied into.
    pub frameformat: FrameFormat,
    /// The pixels of the frame, brought to RGBA.
    pub frame_mmap: Vec<u8>,
    pub frame_color_type: ColorType,
    /// How the output is turned.
    pub transform: Transform,
    /// The width that the image is meant to be shown in.
    pub realwidth: u32,
    /// The height that the image is meant to be shown in.
    pub realheight: u32,
}

/// What the compositor tells of a screencopy frame.
#[derive(Debug, Clone, Copy, PartialEq, Eq)]
pub enum ScreencopyEvent {
    /// A buffer layout in which the frame can be had.
    Buffer { format: Format, width: u32, height: u32, stride: u32 },
    /// A buffer layout whose pixel layout has a number that is not known.
    UnknownBuffer { code: u32 },
    /// The frame has been copied into the buffer.
    Ready,
    /// There will be no frame.
    Failed,
    /// Any other event; nothing is learnt from it.
    Other,
}

/// What is to be done next for a screencopy capture.
#[derive(Debug, Clone, PartialEq, Eq)]
pub enum CopyAction {
    /// Wait for the compositor's next events, and hand them on.
    Dispatch,
    /// Make a buffer of this layout and of so many bytes, ask for the frame
    /// to be copied into it, and say so.
    Copy { format: FrameFormat, frame_bytes: u32 },
    /// The frame is in the buffer of this layout: read it.
    Read(FrameFormat),
    /// There is no frame: give up, and touch no buffer.
    GiveUp,
    /// The capture cannot go on: give up, and touch no buffer.
    Fail(HaruhiError),
}

/// A `CopyAction` as plain values.
pub enum CopyActionView {
    Dispatch,
    Copy { format: FrameFormat, frame_bytes: u32 },
    Read(FrameFormat),
    GiveUp,
    Fail(HaruhiErrorView),
}

impl View for CopyAction {
    type V = CopyActionView;

    open spec fn view(&self) -> CopyActionView {
        match *self {
            CopyAction::Dispatch => CopyActionView::Dispatch,
            CopyAction::Copy { format, frame_bytes } => CopyActionView::Copy {
                format,
                frame_bytes,
            },
            CopyAction::Read(format) => CopyActionView::Read(format),
            CopyAction::GiveUp => CopyActionView::GiveUp,
            CopyAction::Fail(error) => CopyActionView::Fail(error@),
        }
    }
}

/// The first of `formats` from `from` on in which a frame can be had.
pub open spec fn first_usable_from(formats: Seq<FrameFormat>, from: int) -> Option<FrameFormat>
    decreases formats.len() - from,
{
    if from < 0 || from >= formats.len() {
        None
    } else if formats[from].spec_is_usable() {
        Some(formats[from])
    } else {
        first_usable_from(formats, from + 1)
    }
}

/// The course of one screencopy capture.
#[derive(Debug, Clone)]
pub struct WlrCopyStateInfo {
    pub state: ScreenCopyState,
    /// The buffer layouts that were offered, in their order.
    pub formats: Vec<FrameFormat>,
    /// The layout of the buffer that was handed over, once one has been.
    pub copying: Option<FrameFormat>,
}

/// The course of one screencopy capture, as plain values.
pub struct CopyView {
    pub state: ScreenCopyState,
    pub formats: Seq<FrameFormat>,
    pub copying: Option<FrameFormat>,
}

impl CopyView {
    /// The course after `event`. An offer makes the capture pending, unless
    /// its pixel layout is not even known by name, which fails the capture.
    /// A capture that has ended takes nothing in any more.
    pub open spec fn with_event(self, event: ScreencopyEvent) -> CopyView {
        if self.state is Finished || self.state is Failed {
            self
        } else {
            match event {
                ScreencopyEvent::Ready => CopyView { state: ScreenCopyState::Finished, ..self },
                ScreencopyEvent::Failed => CopyView { state: ScreenCopyState::Failed, ..self },
                ScreencopyEvent::UnknownBuffer { code: _ } => CopyView {
                    state: ScreenCopyState::Failed,
                    ..self
                },
                ScreencopyEvent::Buffer { format, width, height, stride } => CopyView {
                    state: ScreenCopyState::Pedding,
                    formats: self.formats.push(FrameFormat { format, width, height, stride }),
                    ..self
                },
                ScreencopyEvent::Other => self,
            }
        }
    }

    /// Whether one of the offered layouts has pixels that can be converted.
    pub open spec fn offers_supported(self) -> bool {
        exists|i: int|
            0 <= i < self.formats.len() && (#[trigger] self.formats[i]).format.spec_is_supported()
    }

    /// What is to be done next.
    ///
    /// A failed capture is given up, and so is one that is reported as
    /// copied though no buffer was handed over. Once layouts have been
    /// offered, a buffer of the first usable one is handed over. Where none
    /// is usable, the capture cannot go on: no offered layout is supported,
    /// or those that are supported ask for a buffer that the compositor
    /// cannot be told of. In between, the compositor is waited for.
    pub open spec fn spec_next_action(self) -> CopyActionView {
        match self.state {
            ScreenCopyState::Failed => CopyActionView::GiveUp,
            ScreenCopyState::Finished => match self.copying {
                Some(format) => CopyActionView::Read(format),
                None => CopyActionView::GiveUp,
            },
            ScreenCopyState::Staging => CopyActionView::Dispatch,
            ScreenCopyState::Pedding => if self.copying is Some {
                CopyActionView::Dispatch
            } else {
                match first_usable_from(self.formats, 0) {
                    Some(format) => CopyActionView::Copy {
                        format,
                        frame_bytes: format.spec_frame_bytes() as u32,
                    },
                    None => if self.offers_supported() {
                        CopyActionView::Fail(HaruhiErrorView::ShmError)
                    } else {
                        CopyActionView::Fail(HaruhiErrorView::NotSupportFormat)
                    },
                }
            },
        }
    }

    /// The course after a buffer has been handed over. Nothing changes
    /// unless that was the thing to do.
    pub open spec fn with_copy_requested(self) -> CopyView {
        match self.spec_next_action() {
            CopyActionView::Copy { format, frame_bytes: _ } => CopyView {
                copying: Some(format),
                ..self
            },
            _ => self,
        }
    }
}

impl View for WlrCopyStateInfo {
    type V = CopyView;

    open spec fn view(&self) -> CopyView {
        CopyView { state: self.state, formats: self.formats@, copying: self.copying }
    }
}

impl WlrCopyStateInfo {
    /// A capture at its beginning: nothing offered, nothing handed over.
    pub fn init() -> (r: Self)
        ensures
            r@ == (CopyView {
                state: ScreenCopyState::Staging,
                formats: Seq::empty(),
                copying: None,
            }),
    {
        WlrCopyStateInfo { state: ScreenCopyState::Staging, formats: Vec::new(), copying: None }
    }

    /// Whether the capture has ended, with a frame or without.
    pub fn finished(&self) -> (r: bool)
        ensures
            r == (self@.state is Failed || self@.state is Finished),
    {
        match self.state {
            ScreenCopyState::Failed | ScreenCopyState::Finished => true,
            _ => false,
        }
    }

    /// Whether a buffer layout has been offered and the capture has not
    /// ended.
    pub fn is_pedding(&self) -> (r: bool)
        ensures
            r == (self@.state is Pedding),
    {
        match self.state {
            ScreenCopyState::Pedding => true,
            _ => false,
        }
    }

    /// Takes in what the frame reports.
    pub fn event(&mut self, event: ScreencopyEvent)
        ensures
            final(self)@ == old(self)@.with_event(event),
    {
        if self.finished() {
            return ;
        }
        match event {
            ScreencopyEvent::Ready => {
                self.state = ScreenCopyState::Finished;
            },
            ScreencopyEvent::Failed => {
                self.state = ScreenCopyState::Failed;
            },
            ScreencopyEvent::UnknownBuffer { code: _ } => {
                self.state = ScreenCopyState::Failed;
            },
            ScreencopyEvent::Buffer { format, width, height, stride } => {
                self.formats.push(FrameFormat { format, width, height, stride });
                self.state = ScreenCopyState::Pedding;
            },
            ScreencopyEvent::Other => {},
        }
    }

    /// The first offered layout in which a frame can be had.
    pub fn usable_format(&self) -> (r: Option<FrameFormat>)
        ensures
            r == first_usable_from(self@.formats, 0),
            match r {
                Some(format) => exists|i: int|
                    {
                        &&& 0 <= i < self@.formats.len()
                        &&& self@.formats[i] == format
                        &&& format.spec_is_usable()
                        &&& forall|j: int| 0 <= j < i ==> !self@.formats[j].spec_is_usable()
                    },
                None => forall|j: int|
                    0 <= j < self@.formats.len() ==> !self@.formats[j].spec_is_usable(),
            },
    {
        let mut i: usize = 0;
        while i < self.formats.len()
            invariant
                i <= self.formats@.len(),
                first_usable_from(self@.formats, 0) == first_usable_from(self@.formats, i as int),
                forall|j: int| 0 <= j < i ==> !self@.formats[j].spec_is_usable(),
            decreases self.formats@.len() - i,
        {
            let format = self.formats[i];
            if format.is_usable() {
                return Some(format);
            }
            i += 1;
        }
        None
    }

    /// Whether one of the offered layouts has pixels that can be converted.
    pub fn offers_supported(&self) -> (r: bool)
        ensures
            r == self@.offers_supported(),
    {
        let mut i: usize = 0;
        while i < self.formats.len()
            invariant
                i <= self.formats@.len(),
                forall|j: int| 0 <= j < i ==> !self@.formats[j].format.spec_is_supported(),
            decreases self.formats@.len() - i,
        {
            if self.formats[i].format.is_supported() {
                assert(self@.formats[i as int].format.spec_is_supported());
                return true;
            }
            i += 1;
        }
        false
    }

    /// What is to be done next.
    pub fn next_action(&self) -> (r: CopyAction)
        ensures
            r@ == self@.spec_next_action(),
    {
        match self.state {
            ScreenCopyState::Failed => CopyAction::GiveUp,
            ScreenCopyState::Finished => match self.copying {
                Some(format) => CopyAction::Read(format),
                None => CopyAction::GiveUp,
            },
            ScreenCopyState::Staging => CopyAction::Dispatch,
            ScreenCopyState::Pedding => {
                if self.copying.is_some() {
                    return CopyAction::Dispatch;
                }
                match self.usable_format() {
                    Some(format) => CopyAction::Copy { format, frame_bytes: format.frame_bytes() },
                    None => if self.offers_supported() {
                        CopyAction::Fail(HaruhiError::ShmError)
                    } else {
                        CopyAction::Fail(HaruhiError::NotSupportFormat)
                    },
                }
            },
        }
    }

    /// Records that a buffer has been handed over. Nothing changes unless
    /// that was the thing to do.
    pub fn copy_requested(&mut self)
        ensures
            final(self)@ == old(self)@.with_copy_requested(),
    {
        if let CopyAction::Copy { format, frame_bytes: _ } = self.next_action() {
            self.copying = Some(format);
        }
    }

    /// Ends the capture: where the frame has been copied into the buffer that
    /// was handed over, `data`, the bytes of that buffer, becomes the frame,
    /// brought to RGBA; else there is no frame. `size` is the extent that the
    /// image is meant to be shown in, and `transform` says how the output is
    /// turned. The capture is then at its beginning again.
    pub fn capture_output_frame(
        &mut self,
        data: Vec<u8>,
        size: (u32, u32),
        transform: Transform,
    ) -> (r: Option<FrameInfo>)
        ensures
            final(self)@ == (CopyView {
                state: ScreenCopyState::Staging,
                formats: Seq::empty(),
                copying: None,
            }),
            match r {
                Some(frame) => {
                    &&& old(self)@.spec_next_action() == CopyActionView::Read(frame.frameformat)
                    &&& frame.frameformat.format.converter() is Some
                    &&& frame.frame_mmap@
                        == frame.frameformat.format.converter().unwrap().converted(data@)
                    &&& frame.frame_color_type == ColorType::Rgba8
                    &&& frame.transform == transform
                    &&& frame.realwidth == size.0
                    &&& frame.realheight == size.1
                },
                None => !(old(self)@.spec_next_action() is Read) || old(
                    self,
                )@.copying.unwrap().format.converter() is None,
            },
    {
        let mut data = data;
        let frame = match self.state {
            ScreenCopyState::Finished => match self.copying {
                Some(frameformat) => match create_converter(frameformat.format) {
                    Some(converter) => {
                        let frame_color_type = converter.convert_inplace(data.as_mut_slice());
                        Some(
                            FrameInfo {
                                frameformat,
                                frame_mmap: data,
                                frame_color_type,
                                transform,
                                realwidth: size.0,
                                realheight: size.1,
                            },
                        )
                    },
                    None => None,
                },
                None => None,
            },
            _ => None,
        };
        self.formats.clear();
        self.state = ScreenCopyState::Staging;
        self.copying = None;
        frame
    }
}

/// A buffer is only ever read after one was handed over: the layout that is
/// read is the one that was handed over, it is one of the offered layouts,
/// and a frame can be had in it, provided that this held when the buffer was
/// handed over. A failed capture is given up whatever else is known. Where
/// none of the offered layouts is supported, the capture fails as not
/// supported, and no buffer is handed over.
pub proof fn lemma_read_follows_copy(state: CopyView)
    ensures
        state.state is Failed ==> state.spec_next_action() is GiveUp,
        state.state is Pedding && state.copying is None && (forall|i: int|
            0 <= i < state.formats.len() ==> !(
            #[trigger] state.formats[i]).format.spec_is_supported())
            ==> state.spec_next_action() == CopyActionView::Fail(
            HaruhiErrorView::NotSupportFormat,
        ),
        state.spec_next_action() is Fail ==> state.with_copy_requested() == state,
        state.spec_next_action() is Read ==> state.copying == Some(
            state.spec_next_action()->Read_0,
        ),
        state.spec_next_action() is Copy ==> {
            let format = state.spec_next_action()->Copy_format;
            &&& format.spec_is_usable()
            &&& state.formats.contains(format)
            &&& state.spec_next_action()->Copy_frame_bytes == format.spec_frame_bytes()
            &&& state.with_copy_requested().copying == Some(format)
        },
{
    lemma_first_usable_from(state.formats, 0);
}

/// `first_usable_from` finds the first usable layout from `from` on, and
/// finds none only where there is none.
pub proof fn lemma_first_usable_from(formats: Seq<FrameFormat>, from: int)
    requires
        0 <= from <= formats.len(),
    ensures
        match first_usable_from(formats, from) {
            Some(format) => exists|i: int|
                {
                    &&& from <= i < formats.len()
                    &&& formats[i] == format
                    &&& format.spec_is_usable()
                    &&& forall|j: int| from <= j < i ==> !formats[j].spec_is_usable()
                },
            None => forall|j: int| from <= j < formats.len() ==> !formats[j].spec_is_usable(),
        },
    decreases formats.len() - from,
{
    if from < formats.len() {
        if formats[from].spec_is_usable() {
            let i = from;
            assert(formats[i] == formats[from] && forall|j: int|
                from <= j < i ==> !formats[j].spec_is_usable());
        } else {
            lemma_first_usable_from(formats, from + 1);
            match first_usable_from(formats, from + 1) {
                Some(format) => {
                    let i = choose|i: int|
                        {
                            &&& from + 1 <= i < formats.len()
                            &&& formats[i] == format
                            &&& format.spec_is_usable()
                            &&& forall|j: int| from + 1 <= j < i ==> !formats[j].spec_is_usable()
                        };
                    assert(from <= i < formats.len() && formats[i] == format && forall|j: int|
                        from <= j < i ==> !formats[j].spec_is_usable());
                },
                None => {},
            }
        }
    }
}

} // verus!
