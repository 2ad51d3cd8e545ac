use libharuhishot::wlrcopystate::{CopyAction, ScreencopyEvent, WlrCopyStateInfo};
use libharuhishot::{
    ColorType, Format, FrameFormat, HarihiError, HaruhiError, ScreenCopyState, SlurpArea,
    Transform,
};

fn offer(format: Format, width: u32, height: u32, stride: u32) -> ScreencopyEvent {
    ScreencopyEvent::Buffer { format, width, height, stride }
}

#[test]
fn an_area_is_made_from_four_numbers_and_back() {
    assert_eq!(SlurpArea::from(None), SlurpArea::NoArea);
    assert_eq!(
        SlurpArea::from(Some((1, 2, 3, 4))),
        SlurpArea::Area { x: 1, y: 2, width: 3, height: 4 }
    );
    let none: Option<(i32, i32, i32, i32)> = SlurpArea::NoArea.into();
    assert_eq!(none, None);
    let some: Option<(i32, i32, i32, i32)> =
        SlurpArea::Area { x: -1, y: -2, width: 3, height: 4 }.into();
    assert_eq!(some, Some((-1, -2, 3, 4)));
}

#[test]
fn a_capture_begins_by_waiting() {
    let capture = WlrCopyStateInfo::init();
    assert_eq!(capture.state, ScreenCopyState::Staging);
    assert!(capture.formats.is_empty());
    assert!(!capture.finished());
    assert!(!capture.is_pedding());
    assert_eq!(capture.next_action(), CopyAction::Dispatch);
}

#[test]
fn the_first_usable_layout_is_taken() {
    let mut capture = WlrCopyStateInfo::init();
    capture.event(offer(Format::Other(0x36314752), 100, 50, 200));
    capture.event(ScreencopyEvent::Other);
    capture.event(offer(Format::Xbgr8888, 100, 50, 400));
    capture.event(offer(Format::Argb8888, 100, 50, 512));
    assert!(capture.is_pedding());
    let wanted = FrameFormat { format: Format::Xbgr8888, width: 100, height: 50, stride: 400 };
    assert_eq!(capture.usable_format(), Some(wanted));
    assert_eq!(capture.next_action(), CopyAction::Copy { format: wanted, frame_bytes: 20000 });
    capture.copy_requested();
    assert_eq!(capture.copying, Some(wanted));
    assert_eq!(capture.next_action(), CopyAction::Dispatch);
    capture.event(ScreencopyEvent::Ready);
    assert!(capture.finished());
    assert_eq!(capture.next_action(), CopyAction::Read(wanted));
}

#[test]
fn the_bytes_of_the_frame_are_rows_times_stride() {
    let format = FrameFormat { format: Format::Argb8888, width: 10, height: 7, stride: 64 };
    assert!(format.is_usable());
    assert_eq!(format.frame_bytes(), 448);
}

#[test]
fn a_layout_that_the_compositor_cannot_be_told_of_is_not_usable() {
    let usable = |width, height, stride| {
        FrameFormat { format: Format::Argb8888, width, height, stride }.is_usable()
    };
    assert!(usable(0x4000, 0x7fff, 0x10000));
    assert!(!usable(0x4000, 0x8000, 0x10000));
    assert!(!usable(0x8000_0000, 1, 4));
    assert!(!usable(1, 0x8000_0000, 0));
    assert!(!usable(1, 1, 0x8000_0000));
    assert!(usable(1, 1, 0x7fff_ffff));
    assert!(!FrameFormat { format: Format::Other(3), width: 1, height: 1, stride: 4 }.is_usable());
}

#[test]
fn without_a_supported_layout_the_capture_is_not_supported() {
    let mut capture = WlrCopyStateInfo::init();
    capture.event(offer(Format::Other(0x36314752), 100, 50, 200));
    capture.event(offer(Format::Other(0x34324752), 100, 50, 300));
    assert!(!capture.offers_supported());
    assert_eq!(capture.usable_format(), None);
    assert_eq!(capture.next_action(), CopyAction::Fail(HaruhiError::NotSupportFormat));
    capture.copy_requested();
    assert_eq!(capture.copying, None);
    assert_eq!(capture.next_action(), CopyAction::Fail(HaruhiError::NotSupportFormat));
}

#[test]
fn a_supported_layout_that_is_too_large_fails_for_want_of_memory() {
    let mut capture = WlrCopyStateInfo::init();
    capture.event(offer(Format::Other(0x36314752), 100, 50, 200));
    capture.event(offer(Format::Argb8888, 0x4000, 0x8000, 0x10000));
    assert!(capture.offers_supported());
    assert_eq!(capture.usable_format(), None);
    assert_eq!(capture.next_action(), CopyAction::Fail(HaruhiError::ShmError));
    capture.copy_requested();
    assert_eq!(capture.copying, None);
}

#[test]
fn a_layout_of_an_unknown_number_fails_the_capture() {
    let mut capture = WlrCopyStateInfo::init();
    capture.event(ScreencopyEvent::UnknownBuffer { code: 0xdead });
    assert_eq!(capture.state, ScreenCopyState::Failed);
    assert!(capture.finished());
    capture.event(offer(Format::Argb8888, 1, 1, 4));
    capture.event(ScreencopyEvent::Ready);
    assert_eq!(capture.state, ScreenCopyState::Failed);
    assert!(capture.formats.is_empty());
    assert_eq!(capture.next_action(), CopyAction::GiveUp);
}

#[test]
fn a_failed_capture_gives_no_frame_and_reads_no_buffer() {
    let mut capture = WlrCopyStateInfo::init();
    capture.event(offer(Format::Argb8888, 2, 1, 8));
    capture.copy_requested();
    capture.event(ScreencopyEvent::Failed);
    assert_eq!(capture.next_action(), CopyAction::GiveUp);
    let frame = capture.capture_output_frame(vec![1, 2, 3, 4, 5, 6, 7, 8], (2, 1), Transform::Normal);
    assert!(frame.is_none());
    assert_eq!(capture.state, ScreenCopyState::Staging);
}

#[test]
fn a_frame_without_a_buffer_is_given_up() {
    let mut capture = WlrCopyStateInfo::init();
    capture.event(ScreencopyEvent::Ready);
    assert_eq!(capture.next_action(), CopyAction::GiveUp);
    assert!(capture.capture_output_frame(vec![1, 2, 3, 4], (1, 1), Transform::Normal).is_none());
}

#[test]
fn the_copied_frame_is_brought_to_rgba() {
    let mut capture = WlrCopyStateInfo::init();
    capture.event(offer(Format::Xrgb8888, 2, 1, 8));
    capture.copy_requested();
    capture.event(ScreencopyEvent::Ready);
    let frame = capture
        .capture_output_frame(vec![1, 2, 3, 4, 5, 6, 7, 8], (1280, 720), Transform::_270)
        .expect("a frame");
    assert_eq!(frame.frame_mmap, vec![3, 2, 1, 4, 7, 6, 5, 8]);
    assert_eq!(frame.frame_color_type, ColorType::Rgba8);
    assert_eq!(
        frame.frameformat,
        FrameFormat { format: Format::Xrgb8888, width: 2, height: 1, stride: 8 }
    );
    assert_eq!(frame.transform, Transform::_270);
    assert_eq!((frame.realwidth, frame.realheight), (1280, 720));
    // the capture is at its beginning again
    assert_eq!(capture.state, ScreenCopyState::Staging);
    assert!(capture.formats.is_empty());
    assert_eq!(capture.copying, None);
    assert_eq!(capture.next_action(), CopyAction::Dispatch);
}

#[test]
fn the_messages_of_the_screencopy_failures() {
    assert_eq!(HarihiError::InitFailed("x".to_string()).message(), "Init Failed");
    assert_eq!(HarihiError::QueueError("x".to_string()).message(), "Error during queue");
}
