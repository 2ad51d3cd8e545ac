use libharuhishot::screenshot::{AreaShotInfo, CaptureOutputData};
use libharuhishot::state::{Global, XdgOutputEvent};
use libharuhishot::{Format, HaruhiShotState, Position, Region, Size, Transform};

fn region(x: i32, y: i32, width: i32, height: i32) -> Region {
    Region { position: Position { x, y }, size: Size { width, height } }
}

/// An engine that knows outputs of the given corners and extents; the output
/// of the number `i` is known to the connection as `10 + i`.
fn engine(outputs: &[(i32, i32, i32, i32)]) -> HaruhiShotState {
    let mut state = HaruhiShotState::new();
    for (i, (x, y, width, height)) in outputs.iter().enumerate() {
        let output = 10 + i as u32;
        let xdg = 100 + i as u32;
        state.global(Global::Output(output));
        assert!(state.set_xdg_output(i, xdg));
        state.xdg_output_event(xdg, XdgOutputEvent::LogicalPosition { x: *x, y: *y });
        state.xdg_output_event(xdg, XdgOutputEvent::LogicalSize { width: *width, height: *height });
    }
    state
}

fn shot(x: i32, y: i32, real: (i32, i32), buffer: (u32, u32)) -> AreaShotInfo {
    AreaShotInfo {
        data: CaptureOutputData {
            output: 1,
            real_width: real.0,
            real_height: real.1,
            width: buffer.0,
            height: buffer.1,
            frame_bytes: 0,
            stride: 0,
            transform: Transform::Normal,
            frame_format: Format::Argb8888,
            screen_position: Position { x, y },
        },
    }
}

#[test]
fn position_sub_gives_the_offset() {
    let offset = Position { x: 5, y: 7 } - Position { x: 2, y: 10 };
    assert_eq!(offset, Position { x: 3, y: -3 });
}

#[test]
fn position_sub_is_there_for_every_kind_of_number() {
    let offset = Position { x: 5u32, y: 17u32 } - Position { x: 2u32, y: 10u32 };
    assert_eq!(offset, Position { x: 3u32, y: 7u32 });
    let offset = Position { x: -5i64, y: 7i64 } - Position { x: 1i64 << 40, y: -10i64 };
    assert_eq!(offset, Position { x: -5 - (1i64 << 40), y: 17i64 });
    let offset = Position { x: 1.5f64, y: 0.25f64 } - Position { x: 0.5f64, y: 0.25f64 };
    assert_eq!(offset, Position { x: 1.0f64, y: 0.0f64 });
}

#[test]
fn a_region_holds_its_left_and_top_border_only() {
    let r = region(10, 20, 100, 50);
    assert!(r.contains(Position { x: 10, y: 20 }));
    assert!(r.contains(Position { x: 109, y: 69 }));
    assert!(!r.contains(Position { x: 110, y: 20 }));
    assert!(!r.contains(Position { x: 10, y: 70 }));
    assert!(!r.contains(Position { x: 9, y: 20 }));
    assert!(!r.contains(Position { x: 10, y: 19 }));
}

#[test]
fn regions_side_by_side_do_not_intersect() {
    let left = region(0, 0, 1920, 1080);
    let right = region(1920, 0, 1920, 1080);
    assert!(!left.intersects(right));
    assert!(!right.intersects(left));
    assert!(left.intersects(region(1919, 1079, 5, 5)));
    assert!(!left.intersects(region(1920, 1079, 5, 5)));
}

#[test]
fn a_region_intersects_what_it_holds_and_what_holds_it() {
    let inner = region(100, 100, 50, 50);
    let outer = region(0, 0, 1000, 1000);
    assert!(inner.intersects(outer));
    assert!(outer.intersects(inner));
    assert!(inner.intersects(inner));
}

#[test]
fn a_region_without_extent_intersects_nothing() {
    let outer = region(0, 0, 1000, 1000);
    assert!(!outer.intersects(region(10, 10, 0, 10)));
    assert!(!outer.intersects(region(10, 10, 10, 0)));
    assert!(!outer.intersects(region(10, 10, -5, 10)));
    assert!(!region(10, 10, -5, 10).intersects(outer));
}

#[test]
fn intersection_does_not_overflow_at_the_ends_of_the_range() {
    let far = region(i32::MAX, i32::MAX, i32::MAX, i32::MAX);
    let near = region(i32::MIN, i32::MIN, i32::MAX, i32::MAX);
    assert!(!far.intersects(near));
    assert!(far.intersects(far));
    assert!(far.contains(Position { x: i32::MAX, y: i32::MAX }));
    assert!(!near.contains(Position { x: -1, y: -1 }));
    assert!(near.contains(Position { x: -2, y: -2 }));
}

#[test]
fn display_ids_are_the_outputs_that_the_rectangle_meets() {
    let state = engine(&[(0, 0, 1920, 1080), (1920, 0, 1920, 1080), (0, 1080, 1920, 1080)]);
    assert_eq!(state.get_pos_display_ids((100, 100), (50, 50)), Some(vec![0]));
    assert_eq!(state.get_pos_display_ids((1900, 100), (100, 100)), Some(vec![0, 1]));
    assert_eq!(state.get_pos_display_ids((1900, 1000), (100, 100)), Some(vec![0, 1, 2]));
    assert_eq!(state.get_pos_display_ids((1920, 0), (10, 10)), Some(vec![1]));
    assert_eq!(state.get_pos_display_ids((100, 1080), (10, 10)), Some(vec![2]));
}

#[test]
fn display_ids_hold_an_output_that_the_rectangle_surrounds() {
    let state = engine(&[(100, 100, 50, 50)]);
    assert_eq!(state.get_pos_display_ids((0, 0), (1000, 1000)), Some(vec![0]));
    let state = engine(&[(0, 0, 1920, 1080), (1920, 0, 1920, 1080), (0, 1080, 1920, 1080)]);
    assert_eq!(state.get_pos_display_ids((-10, -10), (5000, 5000)), Some(vec![0, 1, 2]));
}

#[test]
fn display_ids_are_none_where_the_rectangle_meets_no_output() {
    let state = engine(&[(0, 0, 1920, 1080), (1920, 0, 1920, 1080)]);
    assert_eq!(state.get_pos_display_ids((5000, 5000), (10, 10)), None);
    assert_eq!(state.get_pos_display_ids((-20, 0), (20, 20)), None);
    assert_eq!(state.get_pos_display_ids((100, 100), (0, 0)), None);
    assert_eq!(HaruhiShotState::new().get_pos_display_ids((0, 0), (10, 10)), None);
}

#[test]
fn display_id_is_the_first_output_under_the_point() {
    let state = engine(&[(0, 0, 1920, 1080), (1920, 0, 1920, 1080), (1000, 0, 1920, 1080)]);
    assert_eq!(state.get_pos_display_id((0, 0)), Some(0));
    assert_eq!(state.get_pos_display_id((1500, 10)), Some(0));
    assert_eq!(state.get_pos_display_id((1920, 10)), Some(1));
    assert_eq!(state.get_pos_display_id((3839, 1079)), Some(1));
    assert_eq!(state.get_pos_display_id((3840, 10)), None);
    assert_eq!(state.get_pos_display_id((10, 1080)), None);
    assert_eq!(state.get_pos_display_id((-1, 0)), None);
}

#[test]
fn whole_screens_reach_from_the_least_to_the_greatest_edge() {
    let state = engine(&[(-100, 50, 200, 100), (300, -20, 100, 400)]);
    assert_eq!(state.get_whole_screens_pos_and_region(), (-100, -20, 500, 400));
}

#[test]
fn whole_screens_fit_unless_they_are_wider_than_the_range() {
    assert!(HaruhiShotState::new().whole_screens_fit());
    assert!(engine(&[(-100, 50, 200, 100), (300, -20, 100, 400)]).whole_screens_fit());
    assert!(engine(&[(0, 0, i32::MAX, i32::MAX)]).whole_screens_fit());
    assert!(engine(&[(-1, -1, i32::MAX, i32::MAX)]).whole_screens_fit());
    assert!(!engine(&[(1, 0, i32::MAX, 10)]).whole_screens_fit());
    assert!(!engine(&[(0, 1, 10, i32::MAX)]).whole_screens_fit());
    assert!(!engine(&[(i32::MIN, 0, 10, 10), (i32::MAX, 0, 10, 10)]).whole_screens_fit());
    assert!(engine(&[(i32::MIN + 1, i32::MIN + 1, i32::MAX, i32::MAX)]).whole_screens_fit());
    assert_eq!(
        engine(&[(i32::MIN + 1, i32::MIN + 1, i32::MAX, i32::MAX)])
            .get_whole_screens_pos_and_region(),
        (i32::MIN + 1, i32::MIN + 1, i32::MAX, i32::MAX)
    );
}

#[test]
fn whole_screens_always_hold_the_origin() {
    let state = engine(&[(100, 200, 300, 400)]);
    assert_eq!(state.get_whole_screens_pos_and_region(), (0, 0, 400, 600));
    assert_eq!(HaruhiShotState::new().get_whole_screens_pos_and_region(), (0, 0, 0, 0));
}

#[test]
fn position_on_a_screen_counts_from_its_corner() {
    let state = engine(&[(0, 0, 1920, 1080), (1920, -40, 1920, 1080)]);
    assert_eq!(state.get_pos_from_screen((2000, 100), 1), (80, 140));
    assert_eq!(state.get_pos_from_screen((2000, 100), 0), (2000, 100));
}

#[test]
fn a_shot_holds_the_corners_on_its_output() {
    let s = shot(1920, 0, (1920, 1080), (1920, 1080));
    assert!(s.in_this_screen(region(1920, 0, 10, 10)));
    assert!(s.in_this_screen(region(3839, 1079, 10, 10)));
    assert!(!s.in_this_screen(region(3840, 0, 10, 10)));
    assert!(!s.in_this_screen(region(1919, 0, 10, 10)));
    assert!(!s.in_this_screen(region(1920, 1080, 10, 10)));
    assert!(!s.in_this_screen(region(1920, -1, 10, 10)));
}

#[test]
fn clip_area_is_none_off_the_output() {
    let s = shot(1920, 0, (1920, 1080), (1920, 1080));
    assert_eq!(s.clip_area(region(0, 0, 10, 10)), None);
    assert_eq!(s.clip_area(region(3840, 0, 10, 10)), None);
}

#[test]
fn clip_area_scales_corner_and_extent_each_axis_by_itself() {
    // an output of 1920 by 1080 shown in a buffer of 3840 by 3240
    let s = shot(1920, 0, (1920, 1080), (3840, 3240));
    assert_eq!(s.clip_area(region(1930, 100, 200, 50)), Some(region(20, 300, 400, 150)));
}

#[test]
fn clip_area_drops_the_fraction() {
    // an output of 3 by 7 shown in a buffer of 2 by 5
    let s = shot(0, 0, (3, 7), (2, 5));
    // 2 * 2 / 3 = 1.33, 5 * 5 / 7 = 3.57, 1 * 2 / 3 = 0.67, 6 * 5 / 7 = 4.29
    assert_eq!(s.clip_area(region(2, 5, 1, 6)), Some(region(1, 3, 0, 4)));
    // a negative extent is cut towards zero as well: -5 * 2 / 3 = -3.33, -10 * 5 / 7 = -7.14
    assert_eq!(s.clip_area(region(0, 0, -5, -10)), Some(region(0, 0, -3, -7)));
}

#[test]
fn clip_area_of_a_whole_output_is_the_whole_buffer() {
    for (real, buffer) in [
        ((1920, 1080), (1920u32, 1080u32)),
        ((1920, 1080), (3840, 2160)),
        ((1280, 720), (1920, 1080)),
        ((2560, 1440), (1280, 720)),
        ((1707, 960), (2560, 1440)),
        ((1, 1), (i32::MAX as u32, i32::MAX as u32)),
        ((i32::MAX, i32::MAX), (1, 1)),
    ] {
        for (x, y) in [(0, 0), (1920, 0), (-2560, 300)] {
            let s = shot(x, y, real, buffer);
            let whole = region(x, y, real.0, real.1);
            assert_eq!(
                s.clip_area(whole),
                Some(region(0, 0, buffer.0 as i32, buffer.1 as i32))
            );
        }
    }
}

#[test]
fn clip_area_stays_in_the_range_of_the_result() {
    let s = shot(0, 0, (1, 1), (u32::MAX, u32::MAX));
    assert_eq!(
        s.clip_area(region(0, 0, i32::MAX, i32::MIN)),
        Some(region(0, 0, i32::MAX, i32::MIN))
    );
    assert_eq!(s.clip_area(region(0, 0, 1, -1)), Some(region(0, 0, i32::MAX, i32::MIN)));
}

#[test]
fn no_corner_lies_on_an_output_without_extent() {
    let s = shot(5, 5, (0, 0), (100, 100));
    assert!(!s.in_this_screen(region(5, 5, 10, 10)));
    assert_eq!(s.clip_area(region(5, 5, 10, 10)), None);
}
