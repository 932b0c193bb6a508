//! End-to-end behavior of the two sources: recompute on read (parameter) and
//! recompute on delivery (listener), with success and failure of the
//! transform lookup.

use polygon_view::geometry::{Color, Point3};
use polygon_view::message::{Header, Polygon, PolygonStamped, Time};
use polygon_view::polygon::{ParameterPolygon, PolygonListener};

fn pt(x: f64, y: f64) -> Point3 {
    Point3 { x: x.to_bits(), y: y.to_bits(), z: 0f64.to_bits() }
}

fn stamped(frame: &str, points: Vec<Point3>) -> PolygonStamped {
    PolygonStamped {
        header: Header {
            seq: 0,
            stamp: Time { sec: 5, nsec: 0 },
            frame_id: frame.to_string(),
        },
        polygon: Polygon { points },
    }
}

#[test]
fn identity_transform_scenario() {
    let points = vec![pt(0.0, 0.0), pt(1.0, 0.0), pt(1.0, 1.0)];
    let mapped = points.clone();
    let src = ParameterPolygon::new(
        Some(Polygon { points }),
        "base".to_string(),
        Time { sec: 1, nsec: 0 },
        Color(3),
        "map".to_string(),
    );
    let lines = src.get_lines(Some(mapped));
    assert_eq!(lines.len(), 2);
    assert_eq!(lines[0].x1, 0f64.to_bits());
    assert_eq!(lines[0].y1, 0f64.to_bits());
    assert_eq!(lines[0].x2, 1f64.to_bits());
    assert_eq!(lines[0].y2, 0f64.to_bits());
    assert_eq!(lines[1].x1, 1f64.to_bits());
    assert_eq!(lines[1].y1, 0f64.to_bits());
    assert_eq!(lines[1].x2, 1f64.to_bits());
    assert_eq!(lines[1].y2, 1f64.to_bits());
    assert_eq!(lines[0].color, Color(3));
    assert_eq!(lines[1].color, Color(3));
}

#[test]
fn missing_configuration_key_shows_nothing() {
    let src = ParameterPolygon::new(
        None,
        "base".to_string(),
        Time { sec: 1, nsec: 0 },
        Color(1),
        "map".to_string(),
    );
    assert!(src.get_lines(None).is_empty());
    assert!(src.get_lines(None).is_empty());
}

#[test]
fn failed_lookup_clears_previous_segments() {
    let points = vec![pt(0.0, 0.0), pt(2.0, 0.0), pt(2.0, 2.0)];
    let mapped = points.clone();
    let src = ParameterPolygon::new(
        Some(Polygon { points: points.clone() }),
        "base".to_string(),
        Time { sec: 1, nsec: 0 },
        Color(2),
        "map".to_string(),
    );
    assert_eq!(src.get_lines(Some(mapped.clone())).len(), 2);
    // The next lookup fails: the previous cache must not survive.
    assert!(src.get_lines(None).is_empty());
    // A later success recomputes in full.
    assert_eq!(src.get_lines(Some(mapped)).len(), 2);
}

#[test]
fn listener_empty_before_first_delivery() {
    let listener = PolygonListener::new(Color(4), "map".to_string());
    assert!(listener.get_lines().is_empty());
}

#[test]
fn second_message_fully_replaces_first() {
    let listener = PolygonListener::new(Color(4), "map".to_string());

    let first = vec![pt(0.0, 0.0), pt(1.0, 0.0), pt(1.0, 1.0), pt(0.0, 1.0)];
    listener.handle_message(stamped("base", first.clone()), Some(first));
    assert_eq!(listener.get_lines().len(), 3);

    let second = vec![pt(7.0, 7.0), pt(8.0, 7.0)];
    listener.handle_message(stamped("base", second.clone()), Some(second));
    let lines = listener.get_lines();
    assert_eq!(lines.len(), 1);
    assert_eq!(lines[0].x1, 7f64.to_bits());
    assert_eq!(lines[0].y1, 7f64.to_bits());
    assert_eq!(lines[0].x2, 8f64.to_bits());
    assert_eq!(lines[0].y2, 7f64.to_bits());
}

#[test]
fn listener_failed_lookup_clears_cache() {
    let listener = PolygonListener::new(Color(4), "map".to_string());
    let points = vec![pt(0.0, 0.0), pt(1.0, 0.0), pt(1.0, 1.0)];
    listener.handle_message(stamped("base", points.clone()), Some(points.clone()));
    assert_eq!(listener.get_lines().len(), 2);
    listener.handle_message(stamped("base", points), None);
    assert!(listener.get_lines().is_empty());
}

#[test]
fn mapped_points_drive_the_segments() {
    // The lookup's outcome, not the stored boundary, decides the segment
    // coordinates: a translated mapping must show up in the output.
    let points = vec![pt(0.0, 0.0), pt(1.0, 0.0)];
    let mapped = vec![pt(10.0, 5.0), pt(11.0, 5.0)];
    let src = ParameterPolygon::new(
        Some(Polygon { points }),
        "base".to_string(),
        Time { sec: 1, nsec: 0 },
        Color(9),
        "map".to_string(),
    );
    let lines = src.get_lines(Some(mapped));
    assert_eq!(lines.len(), 1);
    assert_eq!(lines[0].x1, 10f64.to_bits());
    assert_eq!(lines[0].y1, 5f64.to_bits());
    assert_eq!(lines[0].x2, 11f64.to_bits());
    assert_eq!(lines[0].y2, 5f64.to_bits());
}
