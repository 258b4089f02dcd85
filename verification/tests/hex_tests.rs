use questquest::hexagon::{HexCoord, Hexagon, HighlightType, ItemPlacement, SpriteType};
use questquest::simple_hex::SimpleHexCoord;
use questquest::textures::{load_failure_message, texture_path_candidates, textured_sprites};

#[test]
fn test_hex_distance_values() {
    let origin = HexCoord::new(0, 0);
    assert_eq!(origin.distance(HexCoord::new(0, 0)), 0);
    assert_eq!(origin.distance(HexCoord::new(1, 0)), 1);
    assert_eq!(origin.distance(HexCoord::new(2, -1)), 2);
    assert_eq!(origin.distance(HexCoord::new(3, -5)), 5);
    assert_eq!(HexCoord::new(-2, 4).distance(HexCoord::new(3, -1)), 5);
}

#[test]
fn test_hex_distance_symmetric_and_triangle() {
    let a = HexCoord::new(-3, 7);
    let b = HexCoord::new(4, -2);
    let c = HexCoord::new(1, 1);
    assert_eq!(a.distance(b), b.distance(a));
    assert!(a.distance(b) <= a.distance(c) + c.distance(b));
}

#[test]
fn test_hex_neighbors_are_adjacent() {
    let c = HexCoord::new(2, -3);
    let ns = c.neighbors();
    assert_eq!(ns[0], HexCoord::new(2, -4));
    assert_eq!(ns[2], HexCoord::new(3, -3));
    for n in ns.iter() {
        assert_eq!(c.distance(*n), 1);
    }
    for i in 0..6 {
        for j in 0..6 {
            if i != j {
                assert_ne!(ns[i], ns[j]);
            }
        }
    }
}

#[test]
fn test_simple_hex_coord() {
    let a = SimpleHexCoord::new(0, 0);
    let b = SimpleHexCoord::new(2, -1);
    assert_eq!(a.distance(b), 2);
    assert!(b.is_within_radius(a, 2));
    assert!(!b.is_within_radius(a, 1));
    for n in a.neighbors().iter() {
        assert_eq!(a.distance(*n), 1);
    }
}

#[test]
fn test_texture_paths() {
    assert_eq!(SpriteType::Forest.get_texture_path(), Some("terrain_sprites/forest.png"));
    assert_eq!(SpriteType::HauntedWoods.get_texture_path(), Some("terrain_sprites/haunted_woods.png"));
    assert_eq!(SpriteType::Item.get_texture_path(), Some("item_sprites/sword.png"));
    assert_eq!(SpriteType::Unit.get_texture_path(), None);
    assert_eq!(SpriteType::Empty.get_texture_path(), None);
}

#[test]
fn test_all_terrain_and_random_terrain() {
    let all = SpriteType::all_terrain();
    assert_eq!(all.len(), 7);
    assert_eq!(all[0], SpriteType::Forest);
    assert_eq!(all[6], SpriteType::Swamp);
    assert_eq!(SpriteType::random_terrain(0), SpriteType::Forest);
    assert_eq!(SpriteType::random_terrain(17), SpriteType::HauntedWoods);
    assert_eq!(SpriteType::random_terrain(-17), SpriteType::HauntedWoods);
    assert_eq!(SpriteType::random_terrain(41), SpriteType::Swamp);
    for seed in -50..50 {
        let t = SpriteType::random_terrain(seed);
        assert!(t != SpriteType::Empty && t != SpriteType::Unit && t != SpriteType::Item);
    }
}

#[test]
fn test_hexagon_new_and_display_sprite() {
    let mut h = Hexagon::new(HexCoord::new(1, 1));
    assert_eq!(h.sprite, SpriteType::Swamp);
    assert_eq!(h.highlight, HighlightType::Plain);
    assert!(!h.has_unit());
    assert!(h.has_sprite());
    assert_eq!(h.get_display_sprite(), SpriteType::Swamp);
    h.set_unit_sprite(Some(SpriteType::Unit));
    assert!(h.has_unit());
    assert_eq!(h.get_display_sprite(), SpriteType::Unit);
    h.set_highlight(HighlightType::Selected);
    assert_eq!(h.highlight, HighlightType::Selected);
    h.clear_highlight();
    assert_eq!(h.highlight, HighlightType::Plain);
    assert_eq!(Hexagon::new(HexCoord::new(0, 1)).sprite, SpriteType::Grasslands);
    assert_eq!(Hexagon::new(HexCoord::new(-1, 0)).sprite, SpriteType::HauntedWoods);
}

#[test]
fn test_texture_ids() {
    assert_eq!(SpriteType::Forest.get_texture_id(), 0);
    assert_eq!(SpriteType::Swamp.get_texture_id(), 6);
    assert_eq!(SpriteType::Item.get_texture_id(), 7);
    assert_eq!(SpriteType::Unit.get_texture_id(), -1);
    assert_eq!(SpriteType::Empty.get_texture_id(), -1);
    for (i, t) in SpriteType::all_terrain().iter().enumerate() {
        assert_eq!(t.get_texture_id(), i as i32);
        assert!(t.get_texture_path().is_some());
    }
}

#[test]
fn test_layers_place_item_beside_unit() {
    let mut h = Hexagon::new(HexCoord::new(0, 0));
    let l = h.layers();
    assert_eq!(l.terrain, Some(SpriteType::Forest));
    assert!(!l.unit);
    assert_eq!(l.item, None);
    h.set_item_sprite(Some(SpriteType::Item));
    assert_eq!(h.layers().item, Some(ItemPlacement::Centered));
    h.set_unit_sprite(Some(SpriteType::Unit));
    assert!(h.layers().unit);
    assert_eq!(h.layers().item, Some(ItemPlacement::Corner));
    h.set_unit_sprite(Some(SpriteType::Forest));
    assert!(!h.layers().unit);
    assert_eq!(h.layers().item, Some(ItemPlacement::Centered));
    h.set_sprite(SpriteType::Empty);
    assert_eq!(h.layers().terrain, None);
}

#[test]
fn test_texture_candidates_and_failure_message() {
    assert_eq!(
        texture_path_candidates("terrain_sprites/hills.png"),
        vec![
            "terrain_sprites/hills.png",
            "Graphics/terrain_sprites/hills.png",
            "C:/Users/eero/Documents/QuestQuest/Graphics/terrain_sprites/hills.png",
        ]
    );
    assert_eq!(
        load_failure_message("item_sprites/sword.png", "not found"),
        "Failed to load item_sprites/sword.png from any path. Last error: not found"
    );
    let sprites = textured_sprites();
    assert_eq!(sprites.len(), 8);
    assert_eq!(sprites[0], (SpriteType::Forest, "terrain_sprites/forest.png"));
    assert_eq!(sprites[7], (SpriteType::Item, "item_sprites/sword.png"));
}
