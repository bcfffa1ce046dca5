use wkgrip::geometry::{midpoint, Point, Rect};
use wkgrip::snap::{detect_snap_zone, snap_zone_rect, SnapZone};

fn work_area() -> Rect {
    Rect { left: 0, top: 0, right: 1920, bottom: 1040 }
}

#[test]
fn midpoint_rounds_towards_the_low_end() {
    assert_eq!(midpoint(400, 800), 600);
    assert_eq!(midpoint(0, 5), 2);
    assert_eq!(midpoint(5, 0), 3);
    assert_eq!(midpoint(-5, 0), -3);
    assert_eq!(midpoint(7, 7), 7);
}

#[test]
fn midpoint_of_the_whole_range_does_not_overflow() {
    assert_eq!(midpoint(i32::MIN, i32::MAX), -1);
    assert_eq!(midpoint(i32::MAX, i32::MIN), 0);
    assert_eq!(midpoint(i32::MAX, i32::MAX), i32::MAX);
}

#[test]
fn spans_of_a_rectangle_fit_or_do_not() {
    assert!(work_area().has_fitting_spans());
    let huge = Rect { left: i32::MIN, top: 0, right: i32::MAX, bottom: 10 };
    assert!(!huge.has_fitting_spans());
    let inverted = Rect { left: i32::MAX, top: 0, right: i32::MIN, bottom: 10 };
    assert!(!inverted.has_fitting_spans());
}

#[test]
fn half_zones_are_exact_halves() {
    let work = work_area();
    assert_eq!(
        snap_zone_rect(SnapZone::Left, work),
        Rect { left: 0, top: 0, right: 960, bottom: 1040 }
    );
    assert_eq!(
        snap_zone_rect(SnapZone::Right, work),
        Rect { left: 960, top: 0, right: 1920, bottom: 1040 }
    );
    assert_eq!(snap_zone_rect(SnapZone::Maximize, work), work);
}

#[test]
fn quarter_zones_are_exact_quarters() {
    let work = Rect { left: 100, top: 50, right: 1100, bottom: 850 };
    assert_eq!(
        snap_zone_rect(SnapZone::TopLeft, work),
        Rect { left: 100, top: 50, right: 600, bottom: 450 }
    );
    assert_eq!(
        snap_zone_rect(SnapZone::TopRight, work),
        Rect { left: 600, top: 50, right: 1100, bottom: 450 }
    );
    assert_eq!(
        snap_zone_rect(SnapZone::BottomLeft, work),
        Rect { left: 100, top: 450, right: 600, bottom: 850 }
    );
    assert_eq!(
        snap_zone_rect(SnapZone::BottomRight, work),
        Rect { left: 600, top: 450, right: 1100, bottom: 850 }
    );
}

#[test]
fn odd_sizes_give_the_spare_pixel_to_the_far_half() {
    let work = Rect { left: 0, top: 0, right: 1921, bottom: 1041 };
    assert_eq!(snap_zone_rect(SnapZone::Left, work).right, 960);
    assert_eq!(snap_zone_rect(SnapZone::Right, work).left, 960);
    assert_eq!(snap_zone_rect(SnapZone::TopLeft, work).bottom, 520);
    assert_eq!(snap_zone_rect(SnapZone::BottomRight, work).top, 520);
}

#[test]
fn corner_wins_over_top_and_left() {
    let found = detect_snap_zone(Point { x: 5, y: 5 }, work_area(), 20);
    assert_eq!(
        found,
        Some((SnapZone::TopLeft, Rect { left: 0, top: 0, right: 960, bottom: 520 }))
    );
}

#[test]
fn every_corner_is_found() {
    let work = work_area();
    let zone = |x: i32, y: i32| detect_snap_zone(Point { x, y }, work, 20).map(|found| found.0);
    assert_eq!(zone(1915, 3), Some(SnapZone::TopRight));
    assert_eq!(zone(3, 1035), Some(SnapZone::BottomLeft));
    assert_eq!(zone(1915, 1035), Some(SnapZone::BottomRight));
}

#[test]
fn edges_alone_give_maximize_and_halves() {
    let work = work_area();
    let zone = |x: i32, y: i32| detect_snap_zone(Point { x, y }, work, 20).map(|found| found.0);
    assert_eq!(zone(900, 3), Some(SnapZone::Maximize));
    assert_eq!(zone(3, 500), Some(SnapZone::Left));
    assert_eq!(zone(1915, 500), Some(SnapZone::Right));
}

#[test]
fn bottom_edge_alone_and_the_middle_give_nothing() {
    let work = work_area();
    assert_eq!(detect_snap_zone(Point { x: 900, y: 1035 }, work, 20), None);
    assert_eq!(detect_snap_zone(Point { x: 900, y: 500 }, work, 20), None);
}

#[test]
fn threshold_is_exclusive() {
    let work = work_area();
    assert_eq!(detect_snap_zone(Point { x: 20, y: 500 }, work, 20), None);
    assert_eq!(
        detect_snap_zone(Point { x: 19, y: 500 }, work, 20).map(|found| found.0),
        Some(SnapZone::Left)
    );
    assert_eq!(detect_snap_zone(Point { x: 1900, y: 500 }, work, 20), None);
    assert_eq!(
        detect_snap_zone(Point { x: 1901, y: 500 }, work, 20).map(|found| found.0),
        Some(SnapZone::Right)
    );
}

#[test]
fn detection_at_the_ends_of_the_coordinate_range() {
    let work = Rect { left: i32::MAX - 10, top: 0, right: i32::MAX, bottom: 100 };
    assert_eq!(
        detect_snap_zone(Point { x: i32::MIN, y: 50 }, work, 20).map(|found| found.0),
        Some(SnapZone::Left)
    );
}
