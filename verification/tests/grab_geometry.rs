use wkgrip::geometry::{Point, Rect};
use wkgrip::grab::{
    clamp_has_room, clamp_rect_for_min_size, determine_resize_direction, place_into, GrabState,
    Placement, ResizeDirection, MIN_WINDOW_SIZE,
};
use wkgrip::hook::DragMode;
use wkgrip::window_manager::WindowId;

const WINDOW: WindowId = WindowId { raw: 0x1234 };

fn origin() -> Rect {
    Rect { left: 400, top: 400, right: 800, bottom: 600 }
}

const DIRECTIONS: [ResizeDirection; 4] = [
    ResizeDirection::TopLeft,
    ResizeDirection::TopRight,
    ResizeDirection::BottomLeft,
    ResizeDirection::BottomRight,
];

#[test]
fn resize_corner_is_the_quadrant_of_the_cursor() {
    let rect = origin();
    let at = |x: i32, y: i32| determine_resize_direction(Point { x, y }, rect);
    assert_eq!(at(410, 410), ResizeDirection::TopLeft);
    assert_eq!(at(790, 410), ResizeDirection::TopRight);
    assert_eq!(at(410, 590), ResizeDirection::BottomLeft);
    assert_eq!(at(790, 590), ResizeDirection::BottomRight);
}

#[test]
fn center_lines_count_as_right_and_bottom() {
    let rect = origin();
    let at = |x: i32, y: i32| determine_resize_direction(Point { x, y }, rect);
    assert_eq!(at(600, 500), ResizeDirection::BottomRight);
    assert_eq!(at(599, 500), ResizeDirection::BottomLeft);
    assert_eq!(at(600, 499), ResizeDirection::TopRight);
    assert_eq!(at(599, 499), ResizeDirection::TopLeft);
}

#[test]
fn cursor_outside_the_window_still_has_a_quadrant() {
    let rect = origin();
    let at = |x: i32, y: i32| determine_resize_direction(Point { x, y }, rect);
    assert_eq!(at(-5000, -5000), ResizeDirection::TopLeft);
    assert_eq!(at(i32::MAX, i32::MIN), ResizeDirection::TopRight);
}

#[test]
fn clamp_leaves_a_large_rectangle_alone() {
    for dir in DIRECTIONS {
        let mut rect = origin();
        assert!(clamp_has_room(&rect, dir));
        clamp_rect_for_min_size(&mut rect, dir);
        assert_eq!(rect, origin());
    }
    let mut exact = Rect { left: 0, top: 0, right: 100, bottom: 100 };
    clamp_rect_for_min_size(&mut exact, ResizeDirection::TopLeft);
    assert_eq!(exact, Rect { left: 0, top: 0, right: 100, bottom: 100 });
}

#[test]
fn clamp_pins_the_moving_edges_to_the_fixed_ones() {
    let small = Rect { left: 500, top: 500, right: 530, bottom: 520 };
    let expect = [
        (ResizeDirection::TopLeft, Rect { left: 430, top: 420, right: 530, bottom: 520 }),
        (ResizeDirection::TopRight, Rect { left: 500, top: 420, right: 600, bottom: 520 }),
        (ResizeDirection::BottomLeft, Rect { left: 430, top: 500, right: 530, bottom: 600 }),
        (ResizeDirection::BottomRight, Rect { left: 500, top: 500, right: 600, bottom: 600 }),
    ];
    for (dir, want) in expect {
        let mut rect = small;
        clamp_rect_for_min_size(&mut rect, dir);
        assert_eq!(rect, want);
    }
}

#[test]
fn clamp_gives_the_minimum_and_keeps_the_fixed_corner() {
    let samples = [
        Rect { left: 0, top: 0, right: 0, bottom: 0 },
        Rect { left: 300, top: 200, right: 100, bottom: 50 },
        Rect { left: -50, top: -50, right: 49, bottom: 300 },
        Rect { left: 10, top: 10, right: 500, bottom: 20 },
        Rect { left: -1000, top: -1000, right: 1000, bottom: 1000 },
    ];
    for rect in samples {
        for dir in DIRECTIONS {
            let mut clamped = rect;
            assert!(clamp_has_room(&clamped, dir));
            clamp_rect_for_min_size(&mut clamped, dir);
            assert!(clamped.right - clamped.left >= MIN_WINDOW_SIZE);
            assert!(clamped.bottom - clamped.top >= MIN_WINDOW_SIZE);
            match dir {
                ResizeDirection::TopLeft => {
                    assert_eq!((clamped.right, clamped.bottom), (rect.right, rect.bottom))
                }
                ResizeDirection::TopRight => {
                    assert_eq!((clamped.left, clamped.bottom), (rect.left, rect.bottom))
                }
                ResizeDirection::BottomLeft => {
                    assert_eq!((clamped.right, clamped.top), (rect.right, rect.top))
                }
                ResizeDirection::BottomRight => {
                    assert_eq!((clamped.left, clamped.top), (rect.left, rect.top))
                }
            }
        }
    }
}

#[test]
fn clamp_has_no_room_at_the_end_of_the_range() {
    let low = Rect { left: i32::MIN + 60, top: 0, right: i32::MIN + 50, bottom: 500 };
    assert!(!clamp_has_room(&low, ResizeDirection::TopLeft));
    assert!(!clamp_has_room(&low, ResizeDirection::BottomLeft));
    assert!(clamp_has_room(&low, ResizeDirection::TopRight));
    let high = Rect { left: 0, top: i32::MAX - 50, right: 500, bottom: i32::MAX - 60 };
    assert!(!clamp_has_room(&high, ResizeDirection::BottomRight));
    assert!(clamp_has_room(&high, ResizeDirection::TopRight));
}

#[test]
fn begin_takes_the_origin_and_no_displacement() {
    let cursor = Point { x: 790, y: 590 };
    let grab = GrabState::begin(DragMode::Resize, WINDOW, cursor, origin());
    assert_eq!(
        grab,
        GrabState {
            mode: DragMode::Resize,
            window: WINDOW,
            last_cursor: cursor,
            origin_rect: origin(),
            cumulative_dx: 0,
            cumulative_dy: 0,
            resize_dir: ResizeDirection::BottomRight,
            snap_target: None,
        }
    );
    let moving = GrabState::begin(DragMode::Move, WINDOW, Point { x: 410, y: 410 }, origin());
    assert_eq!(moving.resize_dir, ResizeDirection::BottomRight);
    assert_eq!(moving.mode, DragMode::Move);
}

#[test]
fn move_places_the_origin_plus_displacement() {
    let mut grab = GrabState::begin(DragMode::Move, WINDOW, Point { x: 500, y: 500 }, origin());
    assert!(grab.has_room(Point { x: 520, y: 530 }));
    let placement = grab.advance(Point { x: 520, y: 530 });
    assert_eq!(placement, Placement::Move { window: WINDOW, x: 420, y: 430 });
    assert_eq!((grab.cumulative_dx, grab.cumulative_dy), (20, 30));
    assert_eq!(grab.last_cursor, Point { x: 520, y: 530 });
    assert_eq!(grab.origin_rect, origin());
}

#[test]
fn many_steps_leave_no_drift() {
    let start = Point { x: 500, y: 500 };
    let mut grab = GrabState::begin(DragMode::Move, WINDOW, start, origin());
    let steps = [(3, -7), (-11, 2), (40, 40), (-1, -1), (0, 5), (250, -300), (-17, 9)];
    let mut cursor = start;
    let mut total = (0, 0);
    for (dx, dy) in steps {
        cursor = Point { x: cursor.x + dx, y: cursor.y + dy };
        total = (total.0 + dx, total.1 + dy);
        assert!(grab.has_room(cursor));
        let placement = grab.advance(cursor);
        assert_eq!(
            placement,
            Placement::Move { window: WINDOW, x: 400 + total.0, y: 400 + total.1 }
        );
        assert_eq!((grab.cumulative_dx, grab.cumulative_dy), total);
        assert_eq!(grab.origin_rect, origin());
    }
    assert_eq!(total, (cursor.x - start.x, cursor.y - start.y));
}

#[test]
fn resize_moves_only_the_edges_at_the_dragged_corner() {
    let cases = [
        (Point { x: 410, y: 410 }, Placement::Resize { window: WINDOW, x: 420, y: 410, width: 380, height: 190 }),
        (Point { x: 790, y: 410 }, Placement::Resize { window: WINDOW, x: 400, y: 410, width: 420, height: 190 }),
        (Point { x: 410, y: 590 }, Placement::Resize { window: WINDOW, x: 420, y: 400, width: 380, height: 210 }),
        (Point { x: 790, y: 590 }, Placement::Resize { window: WINDOW, x: 400, y: 400, width: 420, height: 210 }),
    ];
    for (cursor, want) in cases {
        let mut grab = GrabState::begin(DragMode::Resize, WINDOW, cursor, origin());
        let to = Point { x: cursor.x + 20, y: cursor.y + 10 };
        assert!(grab.has_room(to));
        assert_eq!(grab.advance(to), want);
    }
}

#[test]
fn resize_below_the_minimum_is_pinned_and_comes_back() {
    let cursor = Point { x: 790, y: 590 };
    let mut grab = GrabState::begin(DragMode::Resize, WINDOW, cursor, origin());
    let placement = grab.advance(Point { x: 290, y: 390 });
    assert_eq!(
        placement,
        Placement::Resize { window: WINDOW, x: 400, y: 400, width: 100, height: 100 }
    );
    let placement = grab.advance(Point { x: 790, y: 590 });
    assert_eq!(
        placement,
        Placement::Resize { window: WINDOW, x: 400, y: 400, width: 400, height: 200 }
    );
    assert_eq!((grab.cumulative_dx, grab.cumulative_dy), (0, 0));
}

#[test]
fn resize_from_the_top_left_below_the_minimum_pins_left_and_top() {
    let cursor = Point { x: 410, y: 410 };
    let mut grab = GrabState::begin(DragMode::Resize, WINDOW, cursor, origin());
    let placement = grab.advance(Point { x: 910, y: 710 });
    assert_eq!(
        placement,
        Placement::Resize { window: WINDOW, x: 700, y: 500, width: 100, height: 100 }
    );
}

#[test]
fn no_room_where_a_coordinate_would_leave_the_range() {
    let edge = Rect { left: i32::MAX - 10, top: 0, right: i32::MAX, bottom: 100 };
    let grab = GrabState::begin(DragMode::Move, WINDOW, Point { x: 0, y: 0 }, edge);
    assert!(grab.has_room(Point { x: 10, y: 0 }));
    assert!(!grab.has_room(Point { x: 11, y: 0 }));
    let far = GrabState::begin(DragMode::Move, WINDOW, Point { x: i32::MIN, y: 0 }, origin());
    assert!(!far.has_room(Point { x: i32::MAX, y: 0 }));
    let narrow = Rect { left: 0, top: 0, right: 10, bottom: 200 };
    let resizing = GrabState::begin(DragMode::Resize, WINDOW, Point { x: 9, y: 199 }, narrow);
    assert_eq!(resizing.resize_dir, ResizeDirection::BottomRight);
    assert!(resizing.has_room(Point { x: i32::MAX - 1, y: 199 }));
    assert!(!resizing.has_room(Point { x: i32::MAX, y: 199 }));
    let wide = Rect { left: -10, top: 0, right: 0, bottom: 200 };
    let too_wide = GrabState::begin(DragMode::Resize, WINDOW, Point { x: -1, y: 199 }, wide);
    assert!(!too_wide.has_room(Point { x: i32::MAX - 1, y: 199 }));
}

#[test]
fn switching_takes_the_live_rectangle_as_new_origin() {
    let mut grab = GrabState::begin(DragMode::Move, WINDOW, Point { x: 500, y: 500 }, origin());
    grab.advance(Point { x: 520, y: 530 });
    grab.snap_target = Some(Rect { left: 0, top: 0, right: 960, bottom: 1040 });
    let live = Rect { left: 420, top: 430, right: 820, bottom: 630 };
    grab.switch_mode(DragMode::Resize, Point { x: 430, y: 440 }, Some(live));
    assert_eq!(
        grab,
        GrabState {
            mode: DragMode::Resize,
            window: WINDOW,
            last_cursor: Point { x: 430, y: 440 },
            origin_rect: live,
            cumulative_dx: 0,
            cumulative_dy: 0,
            resize_dir: ResizeDirection::TopLeft,
            snap_target: None,
        }
    );
}

#[test]
fn switching_without_a_live_rectangle_keeps_origin_and_displacement() {
    let mut grab = GrabState::begin(DragMode::Resize, WINDOW, Point { x: 410, y: 410 }, origin());
    grab.advance(Point { x: 420, y: 415 });
    grab.switch_mode(DragMode::Move, Point { x: 700, y: 500 }, None);
    assert_eq!(grab.mode, DragMode::Move);
    assert_eq!(grab.origin_rect, origin());
    assert_eq!((grab.cumulative_dx, grab.cumulative_dy), (10, 5));
    assert_eq!(grab.last_cursor, Point { x: 700, y: 500 });
    assert_eq!(grab.resize_dir, ResizeDirection::TopLeft);
    assert_eq!(grab.snap_target, None);
}

#[test]
fn nothing_is_placed_into_a_rectangle_without_extent() {
    let rect = Rect { left: 10, top: 20, right: 110, bottom: 70 };
    assert_eq!(
        place_into(WINDOW, rect),
        Some(Placement::Resize { window: WINDOW, x: 10, y: 20, width: 100, height: 50 })
    );
    assert_eq!(place_into(WINDOW, Rect { left: 10, top: 20, right: 10, bottom: 70 }), None);
    assert_eq!(place_into(WINDOW, Rect { left: 10, top: 20, right: 110, bottom: 19 }), None);
}
