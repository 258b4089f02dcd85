use questquest::font::{atlas_cell, font_atlas, get_char_bitmap, glyph_masks, FONT_HEIGHT, FONT_WIDTH};

fn pattern(rows: &[&str; 7]) -> [[bool; 5]; 7] {
    let mut out = [[false; 5]; 7];
    for (y, row) in rows.iter().enumerate() {
        for (x, c) in row.chars().enumerate() {
            out[y][x] = c == '#';
        }
    }
    out
}

#[test]
fn test_letter_a_glyph() {
    let expected = pattern(&[".###.", "#...#", "#...#", "#####", "#...#", "#...#", "#...#"]);
    assert_eq!(get_char_bitmap('A'), expected);
    assert_eq!(get_char_bitmap('a'), expected);
}

#[test]
fn test_digit_and_symbol_glyphs() {
    assert_eq!(
        get_char_bitmap('0'),
        pattern(&[".###.", "#...#", "#..##", "#.#.#", "##..#", "#...#", ".###."])
    );
    assert_eq!(
        get_char_bitmap('4'),
        pattern(&["...#.", "..##.", ".#.#.", "#..#.", "#####", "...#.", "...#."])
    );
    assert_eq!(
        get_char_bitmap('-'),
        pattern(&[".....", ".....", ".....", "#####", ".....", ".....", "....."])
    );
    assert_eq!(
        get_char_bitmap(':'),
        pattern(&[".....", "..#..", ".....", ".....", ".....", "..#..", "....."])
    );
}

#[test]
fn test_unknown_glyph_is_blank() {
    assert_eq!(get_char_bitmap('?'), [[false; 5]; 7]);
    assert_eq!(get_char_bitmap('é'), [[false; 5]; 7]);
    assert_eq!(get_char_bitmap(' '), [[false; 5]; 7]);
}

#[test]
fn test_every_letter_same_in_both_cases() {
    for c in 'a'..='z' {
        assert_eq!(get_char_bitmap(c), get_char_bitmap(c.to_ascii_uppercase()));
        assert_eq!(glyph_masks(c), glyph_masks(c.to_ascii_uppercase()));
    }
}

#[test]
fn test_font_atlas_layout() {
    let data = font_atlas();
    assert_eq!(data.len(), 16 * FONT_WIDTH * 6 * FONT_HEIGHT);
    let width = 16 * FONT_WIDTH;
    for i in 0..96u32 {
        let ch = char::from_u32(i + 32).unwrap();
        let (col, row) = atlas_cell(ch).unwrap();
        assert_eq!((col, row), ((i % 16) as usize, (i / 16) as usize));
        let bitmap = get_char_bitmap(ch);
        for y in 0..FONT_HEIGHT {
            for x in 0..FONT_WIDTH {
                let v = data[(row * FONT_HEIGHT + y) * width + col * FONT_WIDTH + x];
                assert_eq!(v, if bitmap[y][x] { 255 } else { 0 });
            }
        }
    }
    assert_eq!(atlas_cell('\u{1f}'), None);
    assert_eq!(atlas_cell('\u{80}'), None);
}
