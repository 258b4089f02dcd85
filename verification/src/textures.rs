//! Where sprite textures are looked for, and how a failed load is reported.
use vstd::prelude::*;
use crate::hexagon::{texture_path_of, SpriteType};

verus! {

/// The file names tried, in order, for a texture with relative path `path`:
/// the path itself, then below `Graphics/`, then below the development
/// checkout's `Graphics/` directory.
pub open spec fn texture_candidates(path: Seq<char>) -> Seq<Seq<char>> {
    seq![
        path,
        "Graphics/"@ + path,
        "C:/Users/eero/Documents/QuestQuest/Graphics/"@ + path,
    ]
}

/// The file names to try, in order, for a texture with relative path `path`.
pub fn texture_path_candidates(path: &str) -> (v: Vec<String>)
    ensures
        v@.len() == 3,
        forall|i: int| 0 <= i < 3 ==> #[trigger] v@[i]@ == texture_candidates(path@)[i],
{
    let mut in_graphics = "Graphics/".to_string();
    in_graphics.append(path);
    let mut in_checkout = "C:/Users/eero/Documents/QuestQuest/Graphics/".to_string();
    in_checkout.append(path);
    vec![path.to_string(), in_graphics, in_checkout]
}

/// The error reported when no candidate file of a texture could be loaded.
pub open spec fn load_failure_text(path: Seq<char>, last_error: Seq<char>) -> Seq<char> {
    "Failed to load "@ + path + " from any path. Last error: "@ + last_error
}

/// The error reported when no candidate file for the texture `path` could
/// be loaded, `last_error` being the error of the last attempt.
pub fn load_failure_message(path: &str, last_error: &str) -> (s: String)
    ensures
        s@ == load_failure_text(path@, last_error@),
{
    let mut s = "Failed to load ".to_string();
    s.append(path);
    s.append(" from any path. Last error: ");
    s.append(last_error);
    s
}

/// The sprites whose textures are loaded, in loading order: the seven
/// terrains, then the item sprite.
pub open spec fn textured_sprites_seq() -> Seq<SpriteType> {
    seq![
        SpriteType::Forest,
        SpriteType::Forest2,
        SpriteType::Grasslands,
        SpriteType::HauntedWoods,
        SpriteType::Hills,
        SpriteType::Mountain,
        SpriteType::Swamp,
        SpriteType::Item,
    ]
}

/// The sprites whose textures are loaded, with their texture paths, in
/// loading order.
pub fn textured_sprites() -> (v: Vec<(SpriteType, &'static str)>)
    ensures
        v@.len() == 8,
        forall|i: int|
            0 <= i < 8 ==> (#[trigger] v@[i]).0 == textured_sprites_seq()[i]
                && texture_path_of(v@[i].0) == Some(v@[i].1@),
{
    let sprites = [
        SpriteType::Forest,
        SpriteType::Forest2,
        SpriteType::Grasslands,
        SpriteType::HauntedWoods,
        SpriteType::Hills,
        SpriteType::Mountain,
        SpriteType::Swamp,
        SpriteType::Item,
    ];
    let mut v: Vec<(SpriteType, &'static str)> = Vec::new();
    let mut i: usize = 0;
    while i < 8
        invariant
            i <= 8,
            sprites@ == textured_sprites_seq(),
            v@.len() == i,
            forall|j: int|
                0 <= j < i ==> (#[trigger] v@[j]).0 == textured_sprites_seq()[j]
                    && texture_path_of(v@[j].0) == Some(v@[j].1@),
        decreases 8 - i,
    {
        let s = sprites[i];
        match s.get_texture_path() {
            Some(path) => v.push((s, path)),
            None => {
                // every sprite of the list has a texture file
                assert(false);
            },
        }
        i += 1;
    }
    v
}

} // verus!
