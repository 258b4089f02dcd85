//! Tests for path finding and unit walks along a path.

use questquest::hexagon::HexCoord;
use questquest::movement::{find_path, UnitAnimation};

#[test]
fn test_find_path_same_hex() {
    let start = HexCoord::new(0, 0);
    let path = find_path(start, start);
    assert_eq!(path, Some(vec![start]));
}

#[test]
fn test_find_path_adjacent() {
    let start = HexCoord::new(0, 0);
    let end = HexCoord::new(1, 0);
    let path = find_path(start, end);
    assert!(path.is_some());
    let path = path.unwrap();
    assert_eq!(path.len(), 2);
    assert_eq!(path[0], start);
    assert_eq!(path[1], end);
}

#[test]
fn test_find_path_multiple_steps() {
    let start = HexCoord::new(0, 0);
    let end = HexCoord::new(3, 0);
    let path = find_path(start, end);
    assert!(path.is_some());
    let path = path.unwrap();
    assert_eq!(path.len(), 4); // Distance of 3 means 4 hexes total
    assert_eq!(path[0], start);
    assert_eq!(*path.last().unwrap(), end);
}

#[test]
fn test_animation_creation() {
    let unit_id = uuid::Uuid::new_v4();
    let path = vec![
        HexCoord::new(0, 0),
        HexCoord::new(1, 0),
        HexCoord::new(2, 0),
    ];
    let anim = UnitAnimation::new(unit_id, path.clone());

    assert_eq!(anim.unit_id(), unit_id);
    assert_eq!(anim.current_hex(), HexCoord::new(0, 0));
    assert_eq!(anim.destination(), HexCoord::new(2, 0));
    assert!(!anim.is_complete());
}

/// One frame of the walk at `speed` hexes per second: the fractional
/// progress grows by `speed * delta_time`, and every whole unit of progress
/// moves the unit one hex while the walk is not complete.
fn frame(anim: &mut UnitAnimation, progress: &mut f32, speed: f32, delta_time: f32) -> Vec<HexCoord> {
    let mut stepped = Vec::new();
    *progress += speed * delta_time;
    while *progress >= 1.0 && !anim.is_complete() {
        *progress -= 1.0;
        if let Some(hex) = anim.advance() {
            stepped.push(hex);
        }
    }
    stepped
}

#[test]
fn test_animation_update() {
    let unit_id = uuid::Uuid::new_v4();
    let path = vec![
        HexCoord::new(0, 0),
        HexCoord::new(1, 0),
        HexCoord::new(2, 0),
    ];
    let mut anim = UnitAnimation::new(unit_id, path);
    let mut progress = 0.0f32;

    // Update with 0.25 seconds - should move 1.25 hexes
    let stepped = frame(&mut anim, &mut progress, 5.0, 0.25);
    assert_eq!(stepped.len(), 1);
    assert_eq!(stepped[0], HexCoord::new(1, 0));
    assert_eq!(anim.current_hex(), HexCoord::new(1, 0));
    assert!(!anim.is_complete());

    // Update with another 0.25 seconds - should complete
    let stepped = frame(&mut anim, &mut progress, 5.0, 0.25);
    assert_eq!(stepped.len(), 1);
    assert_eq!(stepped[0], HexCoord::new(2, 0));
    assert!(anim.is_complete());
}

#[test]
fn find_path_long_diagonal_is_shortest() {
    let start = HexCoord::new(-2, 5);
    let end = HexCoord::new(4, -3);
    let path = find_path(start, end).unwrap();
    assert_eq!(path.len() as i32, start.distance(end) + 1);
    assert_eq!(path[0], start);
    assert_eq!(path[path.len() - 1], end);
    for w in path.windows(2) {
        assert_eq!(w[0].distance(w[1]), 1);
    }
}

#[test]
fn advance_stops_at_destination() {
    let path = vec![HexCoord::new(0, 0), HexCoord::new(0, 1)];
    let mut anim = UnitAnimation::new(uuid::Uuid::new_v4(), path);
    assert_eq!(anim.next_hex(), Some(HexCoord::new(0, 1)));
    assert_eq!(anim.advance(), Some(HexCoord::new(0, 1)));
    assert!(anim.is_complete());
    assert_eq!(anim.next_hex(), None);
    assert_eq!(anim.advance(), None);
    assert_eq!(anim.current_hex(), HexCoord::new(0, 1));
}

#[test]
fn find_path_takes_the_search_order_route() {
    let o = HexCoord::new(0, 0);
    assert_eq!(
        find_path(o, HexCoord::new(2, 1)).unwrap(),
        vec![o, HexCoord::new(1, 0), HexCoord::new(2, 0), HexCoord::new(2, 1)]
    );
    assert_eq!(
        find_path(o, HexCoord::new(3, -1)).unwrap(),
        vec![o, HexCoord::new(1, -1), HexCoord::new(2, -1), HexCoord::new(3, -1)]
    );
    assert_eq!(
        find_path(o, HexCoord::new(-2, -1)).unwrap(),
        vec![o, HexCoord::new(0, -1), HexCoord::new(-1, -1), HexCoord::new(-2, -1)]
    );
    assert_eq!(
        find_path(o, HexCoord::new(1, 2)).unwrap(),
        vec![o, HexCoord::new(1, 0), HexCoord::new(1, 1), HexCoord::new(1, 2)]
    );
}

#[test]
fn find_path_long_diagonal_route() {
    let path = find_path(HexCoord::new(-2, 5), HexCoord::new(4, -3)).unwrap();
    let expected: Vec<HexCoord> = [(-2, 5), (-2, 4), (-2, 3), (-1, 2), (0, 1), (1, 0), (2, -1), (3, -2), (4, -3)]
        .iter()
        .map(|&(q, r)| HexCoord::new(q, r))
        .collect();
    assert_eq!(path, expected);
}
