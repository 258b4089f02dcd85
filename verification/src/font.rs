//! The built-in 5x7 bitmap font: the glyph of each character and the
//! texture atlas the text renderer uploads.
use vstd::prelude::*;

verus! {

/// Glyph width in pixels.
pub const FONT_WIDTH: usize = 5;

/// Glyph height in pixels.
pub const FONT_HEIGHT: usize = 7;

/// Glyphs per row of the atlas.
pub const ATLAS_COLUMNS: usize = 16;

/// Rows of glyphs in the atlas.
pub const ATLAS_ROWS: usize = 6;

/// Atlas width in pixels.
pub const ATLAS_WIDTH: usize = 80;

/// Atlas height in pixels.
pub const ATLAS_HEIGHT: usize = 42;

/// Code of the first character in the atlas (the space).
pub const FIRST_ATLAS_CHAR: u32 = 32;

/// Number of characters in the atlas (codes 32 to 127).
pub const ATLAS_CHAR_COUNT: u32 = 96;

/// The rows of the glyph of `ch`, top first; in each row bit 4 is the
/// leftmost pixel and bit 0 the rightmost. Letters are drawn the same in
/// either case; a character without a glyph is blank.
pub open spec fn glyph_rows(ch: char) -> Seq<u8> {
    if ch == '0' {
        seq![14u8, 17u8, 19u8, 21u8, 25u8, 17u8, 14u8]
    } else if ch == '1' {
        seq![4u8, 12u8, 4u8, 4u8, 4u8, 4u8, 14u8]
    } else if ch == '2' {
        seq![14u8, 17u8, 1u8, 2u8, 4u8, 8u8, 31u8]
    } else if ch == '3' {
        seq![30u8, 1u8, 1u8, 14u8, 1u8, 1u8, 30u8]
    } else if ch == '4' {
        seq![2u8, 6u8, 10u8, 18u8, 31u8, 2u8, 2u8]
    } else if ch == '5' {
        seq![31u8, 16u8, 30u8, 1u8, 1u8, 17u8, 14u8]
    } else if ch == '6' {
        seq![6u8, 8u8, 16u8, 30u8, 17u8, 17u8, 14u8]
    } else if ch == '7' {
        seq![31u8, 1u8, 2u8, 4u8, 8u8, 8u8, 8u8]
    } else if ch == '8' {
        seq![14u8, 17u8, 17u8, 14u8, 17u8, 17u8, 14u8]
    } else if ch == '9' {
        seq![14u8, 17u8, 17u8, 15u8, 1u8, 2u8, 12u8]
    } else if ch == 'A' || ch == 'a' {
        seq![14u8, 17u8, 17u8, 31u8, 17u8, 17u8, 17u8]
    } else if ch == 'B' || ch == 'b' {
        seq![30u8, 17u8, 17u8, 30u8, 17u8, 17u8, 30u8]
    } else if ch == 'C' || ch == 'c' {
        seq![14u8, 17u8, 16u8, 16u8, 16u8, 17u8, 14u8]
    } else if ch == 'D' || ch == 'd' {
        seq![30u8, 17u8, 17u8, 17u8, 17u8, 17u8, 30u8]
    } else if ch == 'E' || ch == 'e' {
        seq![31u8, 16u8, 16u8, 30u8, 16u8, 16u8, 31u8]
    } else if ch == 'F' || ch == 'f' {
        seq![31u8, 16u8, 16u8, 30u8, 16u8, 16u8, 16u8]
    } else if ch == 'G' || ch == 'g' {
        seq![14u8, 17u8, 16u8, 23u8, 17u8, 17u8, 15u8]
    } else if ch == 'H' || ch == 'h' {
        seq![17u8, 17u8, 17u8, 31u8, 17u8, 17u8, 17u8]
    } else if ch == 'I' || ch == 'i' {
        seq![14u8, 4u8, 4u8, 4u8, 4u8, 4u8, 14u8]
    } else if ch == 'J' || ch == 'j' {
        seq![7u8, 2u8, 2u8, 2u8, 18u8, 18u8, 12u8]
    } else if ch == 'K' || ch == 'k' {
        seq![17u8, 18u8, 20u8, 24u8, 20u8, 18u8, 17u8]
    } else if ch == 'L' || ch == 'l' {
        seq![16u8, 16u8, 16u8, 16u8, 16u8, 16u8, 31u8]
    } else if ch == 'M' || ch == 'm' {
        seq![17u8, 27u8, 21u8, 17u8, 17u8, 17u8, 17u8]
    } else if ch == 'N' || ch == 'n' {
        seq![17u8, 25u8, 21u8, 19u8, 17u8, 17u8, 17u8]
    } else if ch == 'O' || ch == 'o' {
        seq![14u8, 17u8, 17u8, 17u8, 17u8, 17u8, 14u8]
    } else if ch == 'P' || ch == 'p' {
        seq![30u8, 17u8, 17u8, 30u8, 16u8, 16u8, 16u8]
    } else if ch == 'Q' || ch == 'q' {
        seq![14u8, 17u8, 17u8, 17u8, 21u8, 18u8, 13u8]
    } else if ch == 'R' || ch == 'r' {
        seq![30u8, 17u8, 17u8, 30u8, 20u8, 18u8, 17u8]
    } else if ch == 'S' || ch == 's' {
        seq![15u8, 16u8, 16u8, 14u8, 1u8, 1u8, 30u8]
    } else if ch == 'T' || ch == 't' {
        seq![31u8, 4u8, 4u8, 4u8, 4u8, 4u8, 4u8]
    } else if ch == 'U' || ch == 'u' {
        seq![17u8, 17u8, 17u8, 17u8, 17u8, 17u8, 14u8]
    } else if ch == 'V' || ch == 'v' {
        seq![17u8, 17u8, 17u8, 17u8, 17u8, 10u8, 4u8]
    } else if ch == 'W' || ch == 'w' {
        seq![17u8, 17u8, 17u8, 17u8, 21u8, 27u8, 17u8]
    } else if ch == 'X' || ch == 'x' {
        seq![17u8, 17u8, 10u8, 4u8, 10u8, 17u8, 17u8]
    } else if ch == 'Y' || ch == 'y' {
        seq![17u8, 17u8, 10u8, 4u8, 4u8, 4u8, 4u8]
    } else if ch == 'Z' || ch == 'z' {
        seq![31u8, 1u8, 2u8, 4u8, 8u8, 16u8, 31u8]
    } else if ch == ' ' {
        seq![0u8, 0u8, 0u8, 0u8, 0u8, 0u8, 0u8]
    } else if ch == ':' {
        seq![0u8, 4u8, 0u8, 0u8, 0u8, 4u8, 0u8]
    } else if ch == '/' {
        seq![1u8, 2u8, 2u8, 4u8, 8u8, 8u8, 16u8]
    } else if ch == '-' {
        seq![0u8, 0u8, 0u8, 31u8, 0u8, 0u8, 0u8]
    } else {
        seq![0u8, 0u8, 0u8, 0u8, 0u8, 0u8, 0u8]
    }
}

/// Value of pixel column `x` (0 leftmost) in a glyph row.
pub open spec fn column_weight(x: int) -> int {
    if x == 0 {
        16
    } else if x == 1 {
        8
    } else if x == 2 {
        4
    } else if x == 3 {
        2
    } else {
        1
    }
}

/// Whether pixel column `x` (0 leftmost) of a glyph row is lit.
pub open spec fn pixel_on(row: u8, x: int) -> bool {
    (row as int / column_weight(x)) % 2 == 1
}

/// The row patterns of the glyph of `ch`.
pub fn glyph_masks(ch: char) -> (rows: [u8; 7])
    ensures
        rows@ == glyph_rows(ch),
{
    let rows: [u8; 7] = match ch {
        '0' => [14, 17, 19, 21, 25, 17, 14],
        '1' => [4, 12, 4, 4, 4, 4, 14],
        '2' => [14, 17, 1, 2, 4, 8, 31],
        '3' => [30, 1, 1, 14, 1, 1, 30],
        '4' => [2, 6, 10, 18, 31, 2, 2],
        '5' => [31, 16, 30, 1, 1, 17, 14],
        '6' => [6, 8, 16, 30, 17, 17, 14],
        '7' => [31, 1, 2, 4, 8, 8, 8],
        '8' => [14, 17, 17, 14, 17, 17, 14],
        '9' => [14, 17, 17, 15, 1, 2, 12],
        'A' | 'a' => [14, 17, 17, 31, 17, 17, 17],
        'B' | 'b' => [30, 17, 17, 30, 17, 17, 30],
        'C' | 'c' => [14, 17, 16, 16, 16, 17, 14],
        'D' | 'd' => [30, 17, 17, 17, 17, 17, 30],
        'E' | 'e' => [31, 16, 16, 30, 16, 16, 31],
        'F' | 'f' => [31, 16, 16, 30, 16, 16, 16],
        'G' | 'g' => [14, 17, 16, 23, 17, 17, 15],
        'H' | 'h' => [17, 17, 17, 31, 17, 17, 17],
        'I' | 'i' => [14, 4, 4, 4, 4, 4, 14],
        'J' | 'j' => [7, 2, 2, 2, 18, 18, 12],
        'K' | 'k' => [17, 18, 20, 24, 20, 18, 17],
        'L' | 'l' => [16, 16, 16, 16, 16, 16, 31],
        'M' | 'm' => [17, 27, 21, 17, 17, 17, 17],
        'N' | 'n' => [17, 25, 21, 19, 17, 17, 17],
        'O' | 'o' => [14, 17, 17, 17, 17, 17, 14],
        'P' | 'p' => [30, 17, 17, 30, 16, 16, 16],
        'Q' | 'q' => [14, 17, 17, 17, 21, 18, 13],
        'R' | 'r' => [30, 17, 17, 30, 20, 18, 17],
        'S' | 's' => [15, 16, 16, 14, 1, 1, 30],
        'T' | 't' => [31, 4, 4, 4, 4, 4, 4],
        'U' | 'u' => [17, 17, 17, 17, 17, 17, 14],
        'V' | 'v' => [17, 17, 17, 17, 17, 10, 4],
        'W' | 'w' => [17, 17, 17, 17, 21, 27, 17],
        'X' | 'x' => [17, 17, 10, 4, 10, 17, 17],
        'Y' | 'y' => [17, 17, 10, 4, 4, 4, 4],
        'Z' | 'z' => [31, 1, 2, 4, 8, 16, 31],
        ' ' => [0, 0, 0, 0, 0, 0, 0],
        ':' => [0, 4, 0, 0, 0, 4, 0],
        '/' => [1, 2, 2, 4, 8, 8, 16],
        '-' => [0, 0, 0, 31, 0, 0, 0],
        _ => [0, 0, 0, 0, 0, 0, 0],
    };
    assert(rows@ =~= glyph_rows(ch));
    rows
}
/// The pixels of a glyph row, leftmost first.
fn row_pixels(row: u8) -> (pixels: [bool; 5])
    ensures
        forall|x: int| 0 <= x < 5 ==> pixels@[x] == pixel_on(row, x),
{
    let pixels = [
        (row / 16) % 2 == 1,
        (row / 8) % 2 == 1,
        (row / 4) % 2 == 1,
        (row / 2) % 2 == 1,
        row % 2 == 1,
    ];
    pixels
}

/// The glyph of `ch` as a grid of pixels: `bitmap[y][x]` is the pixel in
/// row `y` (0 at the top) and column `x` (0 at the left).
pub fn get_char_bitmap(ch: char) -> (bitmap: [[bool; 5]; 7])
    ensures
        forall|y: int, x: int|
            0 <= y < 7 && 0 <= x < 5 ==> #[trigger] bitmap@[y]@[x] == pixel_on(glyph_rows(ch)[y], x),
{
    let rows = glyph_masks(ch);
    let bitmap = [
        row_pixels(rows[0]),
        row_pixels(rows[1]),
        row_pixels(rows[2]),
        row_pixels(rows[3]),
        row_pixels(rows[4]),
        row_pixels(rows[5]),
        row_pixels(rows[6]),
    ];
    bitmap
}

/// Value of the atlas pixel in row `ay` and column `ax`: the glyphs of the
/// characters 32 to 127 in reading order, sixteen to a row, lit pixels 255
/// and the others 0.
pub open spec fn atlas_pixel(ay: int, ax: int) -> u8 {
    let index = (ay / 7) * 16 + ax / 5;
    let ch = (index + 32) as char;
    if pixel_on(glyph_rows(ch)[ay % 7], ax % 5) {
        255u8
    } else {
        0u8
    }
}

/// The font atlas: `ATLAS_HEIGHT` rows of `ATLAS_WIDTH` one-byte pixels,
/// row after row.
pub fn font_atlas() -> (data: Vec<u8>)
    ensures
        data@.len() == ATLAS_WIDTH * ATLAS_HEIGHT,
        forall|ay: int, ax: int|
            0 <= ay < 42 && 0 <= ax < 80 ==> #[trigger] data@[ay * 80 + ax] == atlas_pixel(ay, ax),
{
    let mut data: Vec<u8> = Vec::new();
    let mut ay: usize = 0;
    while ay < ATLAS_HEIGHT
        invariant
            ay <= 42,
            data@.len() == ay * 80,
            forall|y: int, x: int|
                0 <= y < ay && 0 <= x < 80 ==> #[trigger] data@[y * 80 + x] == atlas_pixel(y, x),
        decreases 42 - ay,
    {
        let mut ax: usize = 0;
        while ax < ATLAS_WIDTH
            invariant
                ay < 42,
                ax <= 80,
                data@.len() == ay * 80 + ax,
                forall|y: int, x: int|
                    0 <= y < ay && 0 <= x < 80 ==> #[trigger] data@[y * 80 + x] == atlas_pixel(y, x),
                forall|x: int| 0 <= x < ax ==> #[trigger] data@[ay * 80 + x] == atlas_pixel(ay as int, x),
            decreases 80 - ax,
        {
            let code: u8 = ((ay / 7) * 16 + ax / 5 + 32) as u8;
            let rows = glyph_masks(code as char);
            let pixels = row_pixels(rows[ay % 7]);
            let value: u8 = if pixels[ax % 5] {
                255
            } else {
                0
            };
            data.push(value);
            ax += 1;
        }
        ay += 1;
    }
    data
}

/// Column and row of the atlas cell holding the glyph of `ch`, for the
/// characters 32 to 127.
pub fn atlas_cell(ch: char) -> (cell: Option<(usize, usize)>)
    ensures
        match cell {
            Some((col, row)) => {
                &&& 32 <= (ch as u32) <= 127
                &&& col == (ch as u32 - 32) % 16
                &&& row == (ch as u32 - 32) / 16
            },
            None => (ch as u32) < 32 || (ch as u32) > 127,
        },
{
    let code = ch as u32;
    if code >= FIRST_ATLAS_CHAR && code < FIRST_ATLAS_CHAR + ATLAS_CHAR_COUNT {
        let index = (code - FIRST_ATLAS_CHAR) as usize;
        Some((index % ATLAS_COLUMNS, index / ATLAS_COLUMNS))
    } else {
        None
    }
}

/// Law: a letter has the same glyph in lower and upper case.
pub proof fn law_letter_case_same_glyph(ch: char)
    requires
        'a' <= ch <= 'z',
    ensures
        glyph_rows(ch) == glyph_rows(((ch as u32) - 32) as char),
{
}

/// Law: every glyph has seven rows, each within the five pixel columns.
pub proof fn law_glyph_fits_cell(ch: char)
    ensures
        glyph_rows(ch).len() == FONT_HEIGHT,
        forall|y: int| 0 <= y < 7 ==> #[trigger] glyph_rows(ch)[y] < 32,
{
}

} // verus!
