use space_ship::entity::{points_for, travel, Shape, Tint};
use space_ship::geometry::{clamp, Circle, Outline, Rect};
use space_ship::record::{format_high_score, parse_high_score};
use space_ship::tally::ScoreBoard;

fn square(x: i64, y: i64, size: i64) -> Shape {
    Shape { size, speed: 0, x, y, color: Tint::Red, collided: false }
}

#[test]
fn projectile_inside_box_overlaps() {
    let shot = Shape { size: 5_000, speed: 0, x: 50_000, y: 50_000, color: Tint::Magenta, collided: false };
    let obstacle = square(48_000, 48_000, 10_000);
    assert!(shot.circle_collides_with(&obstacle));
    assert!(shot.circle().overlaps_rect(&obstacle.rect()));
}

#[test]
fn collision_is_symmetric_on_examples() {
    let cases = [
        (Circle { x: 0, y: 0, diameter: 10 }, Rect { x: 4, y: 4, w: 10, h: 10 }),
        (Circle { x: 0, y: 0, diameter: 10 }, Rect { x: 3, y: 3, w: 10, h: 10 }),
        (Circle { x: 100, y: 100, diameter: 20 }, Rect { x: 0, y: 0, w: 10, h: 10 }),
        (Circle { x: 5, y: -20, diameter: 30 }, Rect { x: 0, y: 0, w: 10, h: 10 }),
    ];
    for (c, r) in cases.iter() {
        let a = Outline::Round(*c);
        let b = Outline::Boxed(*r);
        assert_eq!(a.collides_with(&b), b.collides_with(&a));
        assert_eq!(a.collides_with(&b), c.overlaps_rect(r));
    }
}

#[test]
fn corner_distance_decides_overlap() {
    let r = Rect { x: 10, y: 10, w: 10, h: 10 };
    // Center (7, 6): nearest corner (10, 10) lies at distance 5.
    assert!(!Circle { x: 7, y: 6, diameter: 10 }.overlaps_rect(&r));
    assert!(Circle { x: 7, y: 6, diameter: 11 }.overlaps_rect(&r));
    // Touching an edge exactly is not an overlap.
    assert!(!Circle { x: 5, y: 15, diameter: 10 }.overlaps_rect(&r));
    assert!(Circle { x: 6, y: 15, diameter: 10 }.overlaps_rect(&r));
}

#[test]
fn same_kind_overlaps() {
    let a = Circle { x: 0, y: 0, diameter: 10 };
    assert!(a.overlaps_circle(&Circle { x: 9, y: 0, diameter: 10 }));
    assert!(!a.overlaps_circle(&Circle { x: 10, y: 0, diameter: 10 }));
    let r = Rect { x: 0, y: 0, w: 10, h: 10 };
    assert!(r.overlaps(&Rect { x: 9, y: 9, w: 5, h: 5 }));
    assert!(!r.overlaps(&Rect { x: 10, y: 0, w: 5, h: 5 }));
}

#[test]
fn clamp_prefers_lower_bound() {
    assert_eq!(clamp(5, 0, 10), 5);
    assert_eq!(clamp(-3, 0, 10), 0);
    assert_eq!(clamp(12, 0, 10), 10);
    assert_eq!(clamp(5, 8, 2), 8);
}

#[test]
fn obstacle_falls_by_speed_times_time() {
    let mut o = Shape { size: 40_000, speed: 50_000, x: 100_000, y: 100_000, color: Tint::Pink, collided: false };
    o.fall(1_000_000);
    assert_eq!((o.x, o.y), (100_000, 150_000));
    let mut p = Shape { size: 5_000, speed: 400_000, x: 0, y: 100_000, color: Tint::Magenta, collided: false };
    p.rise(16_667);
    assert_eq!(p.y, 100_000 - 6_666);
}

#[test]
fn travel_rounds_down() {
    assert_eq!(travel(200_000, 16_667), 3_333);
    assert_eq!(travel(0, 1_000_000), 0);
    assert_eq!(travel(3, 333_334), 1);
}

#[test]
fn points_round_half_up() {
    assert_eq!(points_for(10_000), 10);
    assert_eq!(points_for(16_499), 16);
    assert_eq!(points_for(16_500), 17);
    assert_eq!(points_for(400), 0);
}

#[test]
fn score_board_tracks_maximum() {
    let mut b = ScoreBoard::new(30);
    b.add_score(20);
    assert_eq!((b.current_score(), b.high_score()), (20, 30));
    assert!(!b.is_record());
    b.add_score(15);
    assert_eq!((b.current_score(), b.high_score()), (35, 35));
    assert!(b.is_record());
    b.reset_score();
    assert_eq!((b.current_score(), b.high_score()), (0, 35));
    b.add_score(u32::MAX);
    b.add_score(5);
    assert_eq!((b.current_score(), b.high_score()), (u32::MAX, u32::MAX));
}

#[test]
fn stored_high_score_parses() {
    assert_eq!(parse_high_score(b"100"), 100);
    assert_eq!(parse_high_score(b"+7"), 7);
    assert_eq!(parse_high_score(b"007"), 7);
    assert_eq!(parse_high_score(b"4294967295"), u32::MAX);
    assert_eq!(parse_high_score(b"4294967296"), 0);
    assert_eq!(parse_high_score(b"99999999999999999999"), 0);
    assert_eq!(parse_high_score(b""), 0);
    assert_eq!(parse_high_score(b"+"), 0);
    assert_eq!(parse_high_score(b"-5"), 0);
    assert_eq!(parse_high_score(b"12\n"), 0);
    assert_eq!(parse_high_score(b"abc"), 0);
}

#[test]
fn stored_high_score_round_trips() {
    assert_eq!(format_high_score(0), b"0".to_vec());
    assert_eq!(format_high_score(1234), b"1234".to_vec());
    for n in [0u32, 9, 10, 100, 65_535, u32::MAX] {
        assert_eq!(parse_high_score(&format_high_score(n)), n);
        assert_eq!(format_high_score(n), n.to_string().into_bytes());
    }
}
