use vstd::prelude::*;

verus! {

/// Width of one glyph in the text sprite sheet.
pub const CHAR_WIDTH: u32 = 7;

/// Height of one glyph in the text sprite sheet.
pub const CHAR_HEIGHT: u32 = 9;

/// Column and row of the glyphs that are neither letters nor digits.
pub open spec fn symbol_cell(c: char) -> Option<(int, int)> {
    if c == '+' {
        Some((26, 1))
    } else if c == '-' {
        Some((27, 1))
    } else if c == '/' {
        Some((28, 1))
    } else if c == '\\' {
        Some((29, 1))
    } else if c == ',' {
        Some((36, 0))
    } else if c == '.' {
        Some((37, 0))
    } else if c == '!' {
        Some((38, 0))
    } else if c == '?' {
        Some((39, 0))
    } else if c == ':' {
        Some((40, 0))
    } else if c == ';' {
        Some((41, 0))
    } else if c == '"' {
        Some((42, 0))
    } else if c == '{' {
        Some((43, 0))
    } else if c == '}' {
        Some((44, 0))
    } else if c == '[' {
        Some((45, 0))
    } else if c == ']' {
        Some((46, 0))
    } else if c == '(' {
        Some((47, 0))
    } else if c == ')' {
        Some((48, 0))
    } else {
        None
    }
}

/// Column and row of a character's glyph: capitals on the first row and small letters on the
/// second, each from column 0 in alphabetical order; digits on the first row from column 26;
/// then the symbols of `symbol_cell`.
pub open spec fn glyph_cell(c: char) -> Option<(int, int)> {
    if 'A' <= c <= 'Z' {
        Some((c as int - 'A' as int, 0))
    } else if 'a' <= c <= 'z' {
        Some((c as int - 'a' as int, 1))
    } else if '0' <= c <= '9' {
        Some((26 + c as int - '0' as int, 0))
    } else {
        symbol_cell(c)
    }
}

/// The glyph of `c` in the text sprite sheet: left, top, width, height. A space is empty;
/// a character without a glyph points past the sheet.
pub open spec fn glyph_rect(c: char) -> (int, int, int, int) {
    match glyph_cell(c) {
        Some((column, row)) => (7 * column, 9 * row, 7, 9),
        None => if c == ' ' {
            (0, 0, 0, 0)
        } else {
            (5000, 0, 7, 9)
        },
    }
}

fn symbol_column(character: char) -> (r: Option<(i32, i32)>)
    ensures
        match r {
            Some((column, row)) => symbol_cell(character) == Some((column as int, row as int)),
            None => symbol_cell(character) is None,
        },
        r matches Some((column, row)) ==> 0 <= column <= 48,
{
    match character {
        '+' => Some((26, 1)),
        '-' => Some((27, 1)),
        '/' => Some((28, 1)),
        '\\' => Some((29, 1)),
        ',' => Some((36, 0)),
        '.' => Some((37, 0)),
        '!' => Some((38, 0)),
        '?' => Some((39, 0)),
        ':' => Some((40, 0)),
        ';' => Some((41, 0)),
        '"' => Some((42, 0)),
        '{' => Some((43, 0)),
        '}' => Some((44, 0)),
        '[' => Some((45, 0)),
        ']' => Some((46, 0)),
        '(' => Some((47, 0)),
        ')' => Some((48, 0)),
        _ => None,
    }
}

/// The glyph of `character` in the text sprite sheet: left, top, width, height.
pub fn get_text_texture_rects(character: char) -> (r: (i32, i32, u32, u32))
    ensures
        (r.0 as int, r.1 as int, r.2 as int, r.3 as int) == glyph_rect(character),
{
    let cell = if 'A' <= character && character <= 'Z' {
        Some(((character as u32 - 'A' as u32) as i32, 0i32))
    } else if 'a' <= character && character <= 'z' {
        Some(((character as u32 - 'a' as u32) as i32, 1i32))
    } else if '0' <= character && character <= '9' {
        Some((26 + (character as u32 - '0' as u32) as i32, 0i32))
    } else {
        symbol_column(character)
    };
    assert(cell matches Some((column, row)) ==> 0 <= column <= 48 && 0 <= row <= 1);
    match cell {
        Some((column, row)) => (CHAR_WIDTH as i32 * column, CHAR_HEIGHT as i32 * row, CHAR_WIDTH, CHAR_HEIGHT),
        None => if character == ' ' {
            (0, 0, 0, 0)
        } else {
            (5000, 0, CHAR_WIDTH, CHAR_HEIGHT)
        },
    }
}

} // verus!
