use questquest::hexagon::{HexCoord, SpriteType};
use questquest::map_data::{MapHexEntry, MapHexIndex, PixelLookup};

fn entry(q: i32, r: i32, sprite: SpriteType, unit: Option<&str>) -> MapHexEntry {
    MapHexEntry { hex_coord: HexCoord::new(q, r), sprite_type: sprite, unit: unit.map(|u| u.to_string()) }
}

#[test]
fn test_index_by_coordinate() {
    let index = MapHexIndex::from_entries(vec![
        entry(0, 0, SpriteType::Forest, Some("Warrior")),
        entry(1, 0, SpriteType::Hills, None),
        entry(0, 0, SpriteType::Swamp, None),
    ]);
    let e = index.get_hex_entry(&HexCoord::new(0, 0)).unwrap();
    assert_eq!(e.sprite_type, SpriteType::Swamp);
    assert_eq!(e.unit, None);
    assert_eq!(index.get_hex_entry(&HexCoord::new(1, 0)).unwrap().sprite_type, SpriteType::Hills);
    assert!(index.get_hex_entry(&HexCoord::new(2, 2)).is_none());
    let mut coords = index.get_all_hex_coords();
    coords.sort_by_key(|c| (c.q, c.r));
    assert_eq!(coords, vec![HexCoord::new(0, 0), HexCoord::new(1, 0)]);
}

#[test]
fn test_empty_index() {
    let index = MapHexIndex::from_entries(vec![]);
    assert!(index.get_all_hex_coords().is_empty());
    assert!(index.get_hex_entry(&HexCoord::new(0, 0)).is_none());
}

#[test]
fn test_pixel_lookup() {
    let mut t = PixelLookup::new(4, 3);
    assert_eq!(t.width(), 4);
    assert_eq!(t.height(), 3);
    assert_eq!(t.filled_count(), 0);
    t.set_cell(3, 2, Some(HexCoord::new(1, 1)));
    t.set_cell(0, 1, Some(HexCoord::new(-1, 0)));
    assert_eq!(t.get_cell(3, 2), Some(HexCoord::new(1, 1)));
    assert_eq!(t.get_cell(0, 1), Some(HexCoord::new(-1, 0)));
    assert_eq!(t.get_cell(1, 1), None);
    assert_eq!(t.get_cell(4, 0), None);
    assert_eq!(t.get_cell(0, 3), None);
    assert_eq!(t.filled_count(), 2);
    t.set_cell(3, 2, None);
    assert_eq!(t.filled_count(), 1);
}
