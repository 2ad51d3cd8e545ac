use libharuhishot::frame::{
    CaptureInfo, CaptureState, FailureReason, FrameEvent, FrameInfo, SessionEvent,
};
use libharuhishot::screenshot::{BufferPlan, CaptureAction, CaptureSession};
use libharuhishot::{ColorType, Format, HaruhiError, ImageInfo, Size, Transform};

/// What a compositor does with a capture: the events that it sends before the
/// buffer is there, and those that it sends after the capture was asked for.
struct Compositor {
    before: Vec<(Option<SessionEvent>, Option<FrameEvent>)>,
    after: Vec<FrameEvent>,
}

struct Run {
    outcome: Result<ImageInfo, HaruhiError>,
    allocations: usize,
    reads: usize,
    transform: Option<Transform>,
}

/// Runs one capture against `compositor`, as a caller of the engine would,
/// and counts the buffers that were made and read.
fn capture(compositor: Compositor) -> Run {
    let mut session = CaptureSession::new();
    let mut before = compositor.before.into_iter();
    let mut after = compositor.after.into_iter();
    let mut allocations = 0;
    let mut reads = 0;
    let mut buffer: Option<Vec<u8>> = None;
    for _ in 0..100 {
        match session.next_action() {
            CaptureAction::Dispatch => {
                if buffer.is_none() {
                    match before.next() {
                        Some((session_event, frame_event)) => {
                            if let Some(event) = session_event {
                                session.session_event(event);
                            }
                            if let Some(event) = frame_event {
                                session.frame_event(event);
                            }
                        }
                        None => panic!("the engine waits for events that never come"),
                    }
                } else {
                    match after.next() {
                        Some(event) => session.frame_event(event),
                        None => panic!("the engine waits for events that never come"),
                    }
                }
            }
            CaptureAction::Capture(plan) => {
                allocations += 1;
                assert_eq!(plan.frame_bytes as u64, 4 * plan.width as u64 * plan.height as u64);
                assert_eq!(plan.stride as u64, 4 * plan.width as u64);
                buffer = Some(vec![0x7f; plan.frame_bytes as usize]);
                session.capture_requested();
            }
            CaptureAction::Finish { plan, transform } => {
                reads += 1;
                let data = buffer.take().expect("a frame without a buffer");
                return Run {
                    outcome: ImageInfo::from_frame(data, plan),
                    allocations,
                    reads,
                    transform: Some(transform),
                };
            }
            CaptureAction::Fail(error) => {
                return Run { outcome: Err(error), allocations, reads, transform: None };
            }
        }
    }
    panic!("the capture does not end");
}

fn offer(width: u32, height: u32, format: Format) -> Vec<(Option<SessionEvent>, Option<FrameEvent>)> {
    vec![
        (Some(SessionEvent::BufferSize { width, height }), None),
        (Some(SessionEvent::ShmFormat { format }), None),
        (Some(SessionEvent::Done), None),
    ]
}

#[test]
fn a_single_output_is_captured_as_rgba() {
    let run = capture(Compositor {
        before: offer(1920, 1080, Format::Argb8888),
        after: vec![FrameEvent::Other, FrameEvent::Ready],
    });
    let image = run.outcome.expect("the capture succeeds");
    assert_eq!(image.width, 1920);
    assert_eq!(image.height, 1080);
    assert_eq!(image.color_type, ColorType::Rgba8);
    assert_eq!(image.data.len(), 1920 * 1080 * 4);
    assert_eq!(run.allocations, 1);
    assert_eq!(run.reads, 1);
    assert_eq!(run.transform, Some(Transform::Normal));
}

#[test]
fn the_reported_transform_comes_with_the_frame() {
    let run = capture(Compositor {
        before: offer(4, 2, Format::Xbgr8888),
        after: vec![FrameEvent::Transform { transform: Transform::Flipped90 }, FrameEvent::Ready],
    });
    assert!(run.outcome.is_ok());
    assert_eq!(run.transform, Some(Transform::Flipped90));
}

#[test]
fn an_unsupported_layout_fails_without_any_buffer() {
    // the number of a 16-bit layout
    let run = capture(Compositor {
        before: offer(1920, 1080, Format::Other(0x36314752)),
        after: vec![FrameEvent::Ready],
    });
    assert_eq!(run.outcome.err(), Some(HaruhiError::NotSupportFormat));
    assert_eq!(run.allocations, 0);
    assert_eq!(run.reads, 0);
}

#[test]
fn an_unsupported_layout_fails_before_the_size_is_known() {
    let mut session = CaptureSession::new();
    session.session_event(SessionEvent::ShmFormat { format: Format::Other(7) });
    assert_eq!(session.next_action(), CaptureAction::Fail(HaruhiError::NotSupportFormat));
}

#[test]
fn a_frame_that_is_stopped_is_never_read() {
    let run = capture(Compositor {
        before: offer(64, 64, Format::Xrgb8888),
        after: vec![
            FrameEvent::Failed { reason: FailureReason::Stopped },
            FrameEvent::Ready,
        ],
    });
    assert_eq!(run.outcome.err(), Some(HaruhiError::CaptureFailed("Stopped".to_string())));
    assert_eq!(run.allocations, 1);
    assert_eq!(run.reads, 0);
}

#[test]
fn a_session_that_is_stopped_early_makes_no_buffer() {
    let run = capture(Compositor {
        before: vec![
            (
                Some(SessionEvent::BufferSize { width: 64, height: 64 }),
                Some(FrameEvent::Failed { reason: FailureReason::Stopped }),
            ),
            (Some(SessionEvent::ShmFormat { format: Format::Argb8888 }), None),
        ],
        after: vec![FrameEvent::Ready],
    });
    assert_eq!(run.outcome.err(), Some(HaruhiError::CaptureFailed("Stopped".to_string())));
    assert_eq!(run.allocations, 0);
    assert_eq!(run.reads, 0);
}

#[test]
fn once_stopped_nothing_revives_a_session() {
    let mut session = CaptureSession::new();
    session.frame_event(FrameEvent::Failed { reason: FailureReason::Stopped });
    session.session_event(SessionEvent::BufferSize { width: 8, height: 8 });
    session.session_event(SessionEvent::ShmFormat { format: Format::Argb8888 });
    session.capture_requested();
    session.frame_event(FrameEvent::Ready);
    session.frame_event(FrameEvent::Failed { reason: FailureReason::Unknown });
    assert_eq!(session.attached, None);
    assert_eq!(session.capture_info.state, CaptureState::Failed(FailureReason::Stopped));
    assert_eq!(
        session.next_action(),
        CaptureAction::Fail(HaruhiError::CaptureFailed("Stopped".to_string()))
    );
}

#[test]
fn every_failure_reason_has_its_words() {
    assert_eq!(FailureReason::Stopped.describe(), "Stopped");
    assert_eq!(FailureReason::BufferConstraints.describe(), "BufferConstraints");
    assert_eq!(FailureReason::Unknown.describe(), "Unknown");
    assert_eq!(FailureReason::Unrecognized(17).describe(), "Unknown reason, code : 17");
    assert_eq!(
        FailureReason::Unrecognized(u32::MAX).describe(),
        "Unknown reason, code : 4294967295"
    );
}

#[test]
fn a_failed_frame_gives_up_with_its_reason() {
    for (reason, words) in [
        (FailureReason::BufferConstraints, "BufferConstraints"),
        (FailureReason::Unknown, "Unknown"),
        (FailureReason::Unrecognized(3), "Unknown reason, code : 3"),
    ] {
        let run = capture(Compositor {
            before: offer(2, 2, Format::Argb8888),
            after: vec![FrameEvent::Failed { reason }],
        });
        assert_eq!(run.outcome.err(), Some(HaruhiError::CaptureFailed(words.to_string())));
        assert_eq!(run.reads, 0);
    }
}

#[test]
fn the_engine_waits_until_size_and_layout_are_known() {
    let mut session = CaptureSession::new();
    assert_eq!(session.next_action(), CaptureAction::Dispatch);
    session.session_event(SessionEvent::BufferSize { width: 10, height: 20 });
    assert_eq!(session.next_action(), CaptureAction::Dispatch);
    session.session_event(SessionEvent::Done);
    session.session_event(SessionEvent::Other);
    assert_eq!(session.next_action(), CaptureAction::Dispatch);
    session.session_event(SessionEvent::ShmFormat { format: Format::Abgr2101010 });
    assert_eq!(
        session.next_action(),
        CaptureAction::Capture(BufferPlan {
            width: 10,
            height: 20,
            stride: 40,
            frame_bytes: 800,
            format: Format::Abgr2101010,
        })
    );
    session.capture_requested();
    assert_eq!(session.next_action(), CaptureAction::Dispatch);
    session.frame_event(FrameEvent::Other);
    assert_eq!(session.next_action(), CaptureAction::Dispatch);
}

#[test]
fn the_first_report_of_size_and_layout_stands() {
    let mut info = FrameInfo::new();
    assert_eq!(info.size(), None);
    assert_eq!(info.format(), None);
    info.event(SessionEvent::BufferSize { width: 1, height: 2 });
    info.event(SessionEvent::BufferSize { width: 3, height: 4 });
    info.event(SessionEvent::ShmFormat { format: Format::Xrgb8888 });
    info.event(SessionEvent::ShmFormat { format: Format::Other(9) });
    assert_eq!(info.size(), Some(Size { width: 1, height: 2 }));
    assert_eq!(info.format(), Some(Format::Xrgb8888));
}

#[test]
fn a_frame_that_has_ended_takes_no_event() {
    let mut info = CaptureInfo::new();
    assert_eq!(info.state(), CaptureState::Pending);
    assert_eq!(info.transform(), Transform::Normal);
    info.event(FrameEvent::Transform { transform: Transform::_180 });
    info.event(FrameEvent::Ready);
    assert_eq!(info.state(), CaptureState::Succeeded);
    info.event(FrameEvent::Transform { transform: Transform::_270 });
    info.event(FrameEvent::Failed { reason: FailureReason::Stopped });
    assert_eq!(info.state(), CaptureState::Succeeded);
    assert_eq!(info.transform(), Transform::_180);
}

#[test]
fn reporting_a_capture_that_was_not_asked_for_changes_nothing() {
    let mut session = CaptureSession::new();
    session.capture_requested();
    assert_eq!(session.attached, None);
    session.session_event(SessionEvent::BufferSize { width: 2, height: 2 });
    session.capture_requested();
    assert_eq!(session.attached, None);
}

#[test]
fn a_buffer_that_the_compositor_cannot_be_told_of_is_not_made() {
    for (width, height) in [
        (0x2000_0000u32, 1u32),
        (1, 0x8000_0000),
        (0x8000, 0x4000),
        (u32::MAX, u32::MAX),
        (0x2000_0000, 0),
    ] {
        assert_eq!(BufferPlan::new(Size { width, height }, Format::Argb8888), None);
        let run = capture(Compositor {
            before: offer(width, height, Format::Argb8888),
            after: vec![FrameEvent::Ready],
        });
        assert_eq!(run.outcome.err(), Some(HaruhiError::ShmError));
        assert_eq!(run.allocations, 0);
    }
}

#[test]
fn the_largest_buffers_are_planned_exactly() {
    assert_eq!(
        BufferPlan::new(Size { width: 0x1fff_ffff, height: 1 }, Format::Xrgb8888),
        Some(BufferPlan {
            width: 0x1fff_ffff,
            height: 1,
            stride: 0x7fff_fffc,
            frame_bytes: 0x7fff_fffc,
            format: Format::Xrgb8888,
        })
    );
    assert_eq!(
        BufferPlan::new(Size { width: 0x4000, height: 0x7fff }, Format::Xrgb8888),
        Some(BufferPlan {
            width: 0x4000,
            height: 0x7fff,
            stride: 0x10000,
            frame_bytes: 0x7fff_0000,
            format: Format::Xrgb8888,
        })
    );
    assert_eq!(
        BufferPlan::new(Size { width: 0, height: 0x7fff_ffff }, Format::Xrgb8888),
        Some(BufferPlan {
            width: 0,
            height: 0x7fff_ffff,
            stride: 0,
            frame_bytes: 0,
            format: Format::Xrgb8888,
        })
    );
}

#[test]
fn the_frame_is_converted_when_it_becomes_an_image() {
    let plan = BufferPlan { width: 2, height: 1, stride: 8, frame_bytes: 8, format: Format::Argb8888 };
    let image = ImageInfo::from_frame(vec![1, 2, 3, 4, 5, 6, 7, 8], plan).unwrap();
    assert_eq!(image.data, vec![3, 2, 1, 4, 7, 6, 5, 8]);
    assert_eq!((image.width, image.height), (2, 1));
    assert_eq!(image.color_type, ColorType::Rgba8);

    let plan = BufferPlan { format: Format::Other(1), ..plan };
    assert_eq!(
        ImageInfo::from_frame(vec![1, 2, 3, 4, 5, 6, 7, 8], plan).err(),
        Some(HaruhiError::NotSupportFormat)
    );
}

#[test]
fn a_frame_that_does_not_fill_its_buffer_is_no_image() {
    let plan = BufferPlan { width: 2, height: 1, stride: 8, frame_bytes: 8, format: Format::Argb8888 };
    assert_eq!(
        ImageInfo::from_frame(vec![1, 2, 3, 4, 5, 6, 7], plan).err(),
        Some(HaruhiError::ShmError)
    );
    assert_eq!(
        ImageInfo::from_frame(vec![1, 2, 3, 4, 5, 6, 7, 8, 9], plan).err(),
        Some(HaruhiError::ShmError)
    );
    assert_eq!(ImageInfo::from_frame(Vec::new(), plan).err(), Some(HaruhiError::ShmError));
    // a plan that does not have four bytes for each pixel
    let crooked = BufferPlan { frame_bytes: 12, ..plan };
    assert_eq!(ImageInfo::from_frame(vec![0; 12], crooked).err(), Some(HaruhiError::ShmError));
    assert_eq!(ImageInfo::from_frame(vec![0; 8], crooked).err(), Some(HaruhiError::ShmError));
    let huge = BufferPlan {
        width: u32::MAX,
        height: u32::MAX,
        stride: 0,
        frame_bytes: 4,
        format: Format::Argb8888,
    };
    assert_eq!(ImageInfo::from_frame(vec![0; 4], huge).err(), Some(HaruhiError::ShmError));
    // the layout is looked at first
    let unsupported = BufferPlan { format: Format::Other(1), ..plan };
    assert_eq!(
        ImageInfo::from_frame(vec![1, 2, 3], unsupported).err(),
        Some(HaruhiError::NotSupportFormat)
    );
    // an image without pixels has no bytes
    let empty = BufferPlan { width: 0, height: 5, stride: 0, frame_bytes: 0, format: Format::Argb8888 };
    let image = ImageInfo::from_frame(Vec::new(), empty).unwrap();
    assert!(image.data.is_empty());
    assert_eq!((image.width, image.height), (0, 5));
}

#[test]
fn a_failure_of_the_caller_ends_the_capture() {
    let mut session = CaptureSession::new();
    session.session_event(SessionEvent::BufferSize { width: 8, height: 8 });
    session.session_event(SessionEvent::ShmFormat { format: Format::Argb8888 });
    assert!(matches!(session.next_action(), CaptureAction::Capture(_)));
    // the memory for the frame could not be made
    session.failed(HaruhiError::ShmError);
    assert_eq!(session.next_action(), CaptureAction::Fail(HaruhiError::ShmError));
    session.capture_requested();
    assert_eq!(session.attached, None);
    session.frame_event(FrameEvent::Ready);
    assert_eq!(session.next_action(), CaptureAction::Fail(HaruhiError::ShmError));
    // the first failure is kept
    session.failed(HaruhiError::DispatchError);
    assert_eq!(session.failure, Some(HaruhiError::ShmError));
    assert_eq!(session.next_action(), CaptureAction::Fail(HaruhiError::ShmError));
}

#[test]
fn a_failed_wait_ends_a_capture_that_was_asked_for() {
    let mut session = CaptureSession::new();
    session.session_event(SessionEvent::BufferSize { width: 8, height: 8 });
    session.session_event(SessionEvent::ShmFormat { format: Format::Argb8888 });
    session.capture_requested();
    assert_eq!(session.next_action(), CaptureAction::Dispatch);
    session.failed(HaruhiError::DispatchError);
    assert_eq!(session.next_action(), CaptureAction::Fail(HaruhiError::DispatchError));
    session.frame_event(FrameEvent::Ready);
    assert_eq!(session.next_action(), CaptureAction::Fail(HaruhiError::DispatchError));
}

#[test]
fn a_failed_frame_is_told_before_a_failure_of_the_caller() {
    let mut session = CaptureSession::new();
    session.failed(HaruhiError::DispatchError);
    session.frame_event(FrameEvent::Failed { reason: FailureReason::Stopped });
    assert_eq!(
        session.next_action(),
        CaptureAction::Fail(HaruhiError::CaptureFailed("Stopped".to_string()))
    );
    session.failed(HaruhiError::CaptureFailed("lost".to_string()));
    assert_eq!(session.failure, Some(HaruhiError::DispatchError));
}

#[test]
fn an_error_is_copied_as_it_is() {
    for error in [
        HaruhiError::InitFailedConnection,
        HaruhiError::InitFailedGlobal,
        HaruhiError::DispatchError,
        HaruhiError::BindError,
        HaruhiError::ShmError,
        HaruhiError::NotSupportFormat,
        HaruhiError::CaptureFailed("BufferConstraints".to_string()),
        HaruhiError::RegionOutOfBounds,
    ] {
        assert_eq!(error.copy(), error);
    }
}

#[test]
fn every_error_has_its_message() {
    assert_eq!(HaruhiError::InitFailedConnection.message(), "Init Failed connection");
    assert_eq!(HaruhiError::InitFailedGlobal.message(), "Init Failed Global");
    assert_eq!(HaruhiError::DispatchError.message(), "Dispatch Error");
    assert_eq!(HaruhiError::BindError.message(), "Error during queue");
    assert_eq!(HaruhiError::ShmError.message(), "Error in write image in shm");
    assert_eq!(HaruhiError::NotSupportFormat.message(), "Not Support format");
    assert_eq!(HaruhiError::CaptureFailed("x".to_string()).message(), "Capture Failed");
    assert_eq!(HaruhiError::RegionOutOfBounds.message(), "Region out of bounds");
}
