use questquest::grid::HexGrid;
use questquest::hexagon::{HexCoord, HighlightType, SpriteType};

#[test]
fn test_new_grid_covers_radius_fifteen() {
    let g = HexGrid::new();
    assert!(g.get_hex_at(HexCoord::new(0, 0)).is_some());
    assert!(g.get_hex_at(HexCoord::new(15, -15)).is_some());
    assert!(g.get_hex_at(HexCoord::new(-15, 0)).is_some());
    assert!(g.get_hex_at(HexCoord::new(16, 0)).is_none());
    assert!(g.get_hex_at(HexCoord::new(10, 10)).is_none());
    let mut count = 0;
    for q in -20..=20 {
        for r in -20..=20 {
            if g.get_hex_at(HexCoord::new(q, r)).is_some() {
                count += 1;
            }
        }
    }
    assert_eq!(count, 721);
    assert_eq!(g.get_hex_at(HexCoord::new(1, 1)).unwrap().sprite, SpriteType::Swamp);
}

#[test]
fn test_from_tiles_later_tile_wins() {
    let g = HexGrid::from_tiles(vec![
        (HexCoord::new(0, 0), SpriteType::Forest),
        (HexCoord::new(1, 0), SpriteType::Hills),
        (HexCoord::new(0, 0), SpriteType::Mountain),
    ]);
    assert_eq!(g.get_hex_at(HexCoord::new(0, 0)).unwrap().sprite, SpriteType::Mountain);
    assert_eq!(g.get_hex_at(HexCoord::new(1, 0)).unwrap().sprite, SpriteType::Hills);
    assert!(g.get_hex_at(HexCoord::new(2, 0)).is_none());
}

#[test]
fn test_add_remove_and_clear() {
    let mut g = HexGrid::empty();
    assert!(g.get_hex_at(HexCoord::new(0, 0)).is_none());
    g.add_hex(HexCoord::new(0, 0));
    g.add_hex_with_sprite(HexCoord::new(2, 2), SpriteType::Hills);
    assert_eq!(g.get_hex_at(HexCoord::new(2, 2)).unwrap().sprite, SpriteType::Hills);
    assert_eq!(g.get_hex_at(HexCoord::new(0, 0)).unwrap().sprite, SpriteType::Forest);
    let removed = g.remove_hex(HexCoord::new(2, 2));
    assert_eq!(removed.unwrap().coord, HexCoord::new(2, 2));
    assert!(g.get_hex_at(HexCoord::new(2, 2)).is_none());
    assert!(g.remove_hex(HexCoord::new(2, 2)).is_none());
    g.clear();
    assert!(g.get_hex_at(HexCoord::new(0, 0)).is_none());
}

#[test]
fn test_units_items_structures() {
    let mut g = HexGrid::new();
    let c = HexCoord::new(3, -1);
    assert!(!g.has_unit_at(c));
    g.set_unit_at(c, SpriteType::Unit);
    assert!(g.has_unit_at(c));
    assert_eq!(g.get_hex_at(c).unwrap().get_display_sprite(), SpriteType::Unit);
    g.remove_unit_at(c);
    assert!(!g.has_unit_at(c));
    g.set_item_at(c, SpriteType::Item);
    assert_eq!(g.get_hex_at(c).unwrap().item_sprite, Some(SpriteType::Item));
    g.remove_item_at(c);
    assert_eq!(g.get_hex_at(c).unwrap().item_sprite, None);
    assert!(!g.has_structure_at(c));
    g.set_structure_at(c, SpriteType::Mountain);
    assert!(g.has_structure_at(c));
    g.remove_structure_at(c);
    assert!(!g.has_structure_at(c));
    g.set_sprite_at(c, SpriteType::Grasslands);
    assert_eq!(g.get_hex_at(c).unwrap().sprite, SpriteType::Grasslands);
    // operations on a missing hex change nothing
    let far = HexCoord::new(40, 40);
    g.set_unit_at(far, SpriteType::Unit);
    assert!(!g.has_unit_at(far));
    assert!(g.get_hex_at(far).is_none());
}

#[test]
fn test_highlights_and_overlays() {
    let mut g = HexGrid::new();
    let a = HexCoord::new(0, 1);
    let b = HexCoord::new(1, -1);
    g.highlight_hex(a, HighlightType::Selected);
    g.highlight_hexes(&[b, HexCoord::new(30, 30)], HighlightType::MovementRange);
    assert_eq!(g.get_hex_at(a).unwrap().highlight, HighlightType::Selected);
    assert_eq!(g.get_hex_at(b).unwrap().highlight, HighlightType::MovementRange);
    g.clear_all_highlights();
    assert_eq!(g.get_hex_at(a).unwrap().highlight, HighlightType::Plain);
    assert_eq!(g.get_hex_at(b).unwrap().highlight, HighlightType::Plain);
    g.set_hex_text_overlay(a, Some("3".to_string()));
    assert_eq!(g.get_hex_at(a).unwrap().text_overlay, Some("3".to_string()));
    g.clear_all_text_overlays();
    assert_eq!(g.get_hex_at(a).unwrap().text_overlay, None);
}

#[test]
fn test_coords_within_radius() {
    let g = HexGrid::new();
    let mut near = g.coords_within(HexCoord::new(0, 0), 1);
    near.sort_by_key(|c| (c.q, c.r));
    assert_eq!(near.len(), 7);
    assert!(near.contains(&HexCoord::new(0, 0)));
    assert!(near.contains(&HexCoord::new(-1, 1)));
    let edge = g.coords_within(HexCoord::new(15, 0), 1);
    // only the hexes of the map count
    assert_eq!(edge.len(), 4);
    assert!(g.coords_within(HexCoord::new(100, 100), 5).is_empty());
    assert_eq!(g.coords_within(HexCoord::new(0, 0), 15).len(), 721);
}
