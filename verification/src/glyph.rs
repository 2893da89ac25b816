use vstd::prelude::*;

verus! {

/// ASCII upper-casing: `a`..=`z` map to `A`..=`Z`, every other character is kept.
pub open spec fn spec_ascii_upper(ch: char) -> char {
    if 'a' <= ch <= 'z' {
        ((ch as int) - 32) as char
    } else {
        ch
    }
}

/// Upper-case an ASCII letter; other characters are returned unchanged.
pub fn ascii_upper(ch: char) -> (up: char)
    ensures
        up == spec_ascii_upper(ch),
{
    if 'a' <= ch && ch <= 'z' {
        ((ch as u8) - 32) as char
    } else {
        ch
    }
}

/// The 5x7 bitmap font, indexed by an upper-case character. Each row holds five
/// pixels, most significant of the five bits on the left. Characters outside the
/// font are blank.
pub open spec fn font_rows(up: char) -> Seq<u8> {
    match up {
        'A' => seq![0b01110, 0b10001, 0b10001, 0b11111, 0b10001, 0b10001, 0b10001],
        'B' => seq![0b11110, 0b10001, 0b10001, 0b11110, 0b10001, 0b10001, 0b11110],
        'C' => seq![0b01111, 0b10000, 0b10000, 0b10000, 0b10000, 0b10000, 0b01111],
        'D' => seq![0b11110, 0b10001, 0b10001, 0b10001, 0b10001, 0b10001, 0b11110],
        'E' => seq![0b11111, 0b10000, 0b10000, 0b11110, 0b10000, 0b10000, 0b11111],
        'F' => seq![0b11111, 0b10000, 0b10000, 0b11110, 0b10000, 0b10000, 0b10000],
        'G' => seq![0b01111, 0b10000, 0b10000, 0b10111, 0b10001, 0b10001, 0b01111],
        'H' => seq![0b10001, 0b10001, 0b10001, 0b11111, 0b10001, 0b10001, 0b10001],
        'I' => seq![0b11111, 0b00100, 0b00100, 0b00100, 0b00100, 0b00100, 0b11111],
        'J' => seq![0b00111, 0b00010, 0b00010, 0b00010, 0b10010, 0b10010, 0b01100],
        'K' => seq![0b10001, 0b10010, 0b10100, 0b11000, 0b10100, 0b10010, 0b10001],
        'L' => seq![0b10000, 0b10000, 0b10000, 0b10000, 0b10000, 0b10000, 0b11111],
        'M' => seq![0b10001, 0b11011, 0b10101, 0b10101, 0b10001, 0b10001, 0b10001],
        'N' => seq![0b10001, 0b11001, 0b10101, 0b10011, 0b10001, 0b10001, 0b10001],
        'O' => seq![0b01110, 0b10001, 0b10001, 0b10001, 0b10001, 0b10001, 0b01110],
        'P' => seq![0b11110, 0b10001, 0b10001, 0b11110, 0b10000, 0b10000, 0b10000],
        'Q' => seq![0b01110, 0b10001, 0b10001, 0b10001, 0b10101, 0b10010, 0b01101],
        'R' => seq![0b11110, 0b10001, 0b10001, 0b11110, 0b10100, 0b10010, 0b10001],
        'S' => seq![0b01111, 0b10000, 0b10000, 0b01110, 0b00001, 0b00001, 0b11110],
        'T' => seq![0b11111, 0b00100, 0b00100, 0b00100, 0b00100, 0b00100, 0b00100],
        'U' => seq![0b10001, 0b10001, 0b10001, 0b10001, 0b10001, 0b10001, 0b01110],
        'V' => seq![0b10001, 0b10001, 0b10001, 0b10001, 0b01010, 0b01010, 0b00100],
        'W' => seq![0b10001, 0b10001, 0b10001, 0b10101, 0b10101, 0b10101, 0b01010],
        'X' => seq![0b10001, 0b01010, 0b01010, 0b00100, 0b01010, 0b01010, 0b10001],
        'Y' => seq![0b10001, 0b01010, 0b01010, 0b00100, 0b00100, 0b00100, 0b00100],
        'Z' => seq![0b11111, 0b00001, 0b00010, 0b00100, 0b01000, 0b10000, 0b11111],
        '0' => seq![0b01110, 0b10001, 0b10011, 0b10101, 0b11001, 0b10001, 0b01110],
        '1' => seq![0b00100, 0b01100, 0b00100, 0b00100, 0b00100, 0b00100, 0b01110],
        '2' => seq![0b01110, 0b10001, 0b00001, 0b00010, 0b00100, 0b01000, 0b11111],
        '3' => seq![0b11110, 0b00001, 0b00001, 0b01110, 0b00001, 0b00001, 0b11110],
        '4' => seq![0b00010, 0b00110, 0b01010, 0b10010, 0b11111, 0b00010, 0b00010],
        '5' => seq![0b11111, 0b10000, 0b10000, 0b11110, 0b00001, 0b00001, 0b11110],
        '6' => seq![0b01111, 0b10000, 0b10000, 0b11110, 0b10001, 0b10001, 0b01110],
        '7' => seq![0b11111, 0b00001, 0b00010, 0b00100, 0b01000, 0b01000, 0b01000],
        '8' => seq![0b01110, 0b10001, 0b10001, 0b01110, 0b10001, 0b10001, 0b01110],
        '9' => seq![0b01110, 0b10001, 0b10001, 0b01111, 0b00001, 0b00001, 0b11110],
        '.' => seq![0, 0, 0, 0, 0, 0b01100, 0b01100],
        ':' => seq![0, 0b01100, 0b01100, 0, 0b01100, 0b01100, 0],
        '-' => seq![0, 0, 0, 0b11111, 0, 0, 0],
        '+' => seq![0, 0b00100, 0b00100, 0b11111, 0b00100, 0b00100, 0],
        '/' => seq![0b00001, 0b00010, 0b00010, 0b00100, 0b01000, 0b01000, 0b10000],
        '#' => seq![0b01010, 0b11111, 0b01010, 0b01010, 0b11111, 0b01010, 0b01010],
        '*' => seq![0, 0b10101, 0b01110, 0b11111, 0b01110, 0b10101, 0],
        '@' => seq![0b01110, 0b10001, 0b10111, 0b10101, 0b10111, 0b10000, 0b01110],
        '=' => seq![0, 0, 0b11111, 0, 0b11111, 0, 0],
        '_' => seq![0, 0, 0, 0, 0, 0, 0b11111],
        _ => seq![0u8, 0, 0, 0, 0, 0, 0],
    }
}

/// Whether upper-case `up` has a glyph in the font.
pub open spec fn in_font(up: char) -> bool {
    up == 'A' || up == 'B' || up == 'C' || up == 'D' || up == 'E' || up == 'F' || up == 'G'
        || up == 'H' || up == 'I' || up == 'J' || up == 'K' || up == 'L' || up == 'M'
        || up == 'N' || up == 'O' || up == 'P' || up == 'Q' || up == 'R' || up == 'S'
        || up == 'T' || up == 'U' || up == 'V' || up == 'W' || up == 'X' || up == 'Y'
        || up == 'Z' || up == '0' || up == '1' || up == '2' || up == '3' || up == '4'
        || up == '5' || up == '6' || up == '7' || up == '8' || up == '9' || up == '.'
        || up == ':' || up == '-' || up == '+' || up == '/' || up == '#' || up == '*'
        || up == '@' || up == '=' || up == '_'
}

/// The seven five-bit rows of a glyph read as one number, the top row lowest.
pub open spec fn rows_code(r: Seq<u8>) -> int {
    r[0] + 32 * r[1] + 1024 * r[2] + 32768 * r[3] + 1048576 * r[4] + 33554432 * r[5]
        + 1073741824 * r[6]
}

/// The font character whose rows read as `code`.
spec fn code_char(code: int) -> char {
    if code == 18842895918 {
        'A'
    } else if code == 32801506878 {
        'B'
    } else if code == 16660316687 {
        'C'
    } else if code == 32801080894 {
        'D'
    } else if code == 33840644639 {
        'E'
    } else if code == 17734517279 {
        'F'
    } else if code == 16695149071 {
        'G'
    } else if code == 18842895921 {
        'H'
    } else if code == 33424543903 {
        'I'
    } else if code == 13507823687 {
        'J'
    } else if code == 18879369809 {
        'K'
    } else if code == 33840185872 {
        'L'
    } else if code == 18842572657 {
        'M'
    } else if code == 18842507057 {
        'N'
    } else if code == 15621211694 {
        'O'
    } else if code == 17734518334 {
        'P'
    } else if code == 14585218606 {
        'Q'
    } else if code == 18879563326 {
        'R'
    } else if code == 32247333391 {
        'S'
    } else if code == 4433514655 {
        'T'
    } else if code == 15621211697 {
        'U'
    } else if code == 4641572401 {
        'V'
    } else if code == 11464787505 {
        'W'
    } else if code == 18599782737 {
        'X'
    } else if code == 4433520977 {
        'Y'
    } else if code == 33831389247 {
        'Z'
    } else if code == 15629733422 {
        '0'
    } else if code == 15170933124 {
        '1'
    } else if code == 33558693422 {
        '2'
    } else if code == 32247317566 {
        '3'
    } else if code == 2247698626 {
        '4'
    } else if code == 32247857695 {
        '5'
    } else if code == 15621636623 {
        '6'
    } else if code == 8866891839 {
        '7'
    } else if code == 15621113390 {
        '8'
    } else if code == 32247367214 {
        '9'
    } else if code == 13287555072 {
        '.'
    } else if code == 415248768 {
        ':'
    } else if code == 1015808 {
        '-'
    } else if code == 139432064 {
        '+'
    } else if code == 17456826433 {
        '/'
    } else if code == 11105807338 {
        '#'
    } else if code == 720353952 {
        '*'
    } else if code == 15594085934 {
        '@'
    } else if code == 32537600 {
        '='
    } else if code == 33285996544 {
        '_'
    } else {
        ' '
    }
}

/// Each glyph's rows read back as its own character.
proof fn lemma_font_decodes(up: char)
    requires
        in_font(up),
    ensures
        code_char(rows_code(font_rows(up))) == up,
{
}

/// Different characters of the font are drawn differently: two characters
/// with glyphs whose upper-case forms differ have different bitmaps.
pub proof fn lemma_glyphs_distinct(a: char, b: char)
    requires
        in_font(spec_ascii_upper(a)),
        in_font(spec_ascii_upper(b)),
        spec_ascii_upper(a) != spec_ascii_upper(b),
    ensures
        spec_glyph_pattern(a) != spec_glyph_pattern(b),
{
    lemma_font_decodes(spec_ascii_upper(a));
    lemma_font_decodes(spec_ascii_upper(b));
}

/// No character of the font is drawn blank.
pub proof fn lemma_font_not_blank(up: char)
    requires
        in_font(up),
    ensures
        font_rows(up) != seq![0u8, 0, 0, 0, 0, 0, 0],
{
    lemma_font_decodes(up);
    assert(rows_code(seq![0u8, 0, 0, 0, 0, 0, 0]) == 0);
}

/// Letters are drawn alike in either case: a lower-case ASCII letter is
/// upper-cased by moving it down 32 code points to the matching capital, has a
/// glyph, and is drawn with the capital's bitmap, which is not blank.
pub proof fn lemma_letters_either_case(c: char)
    requires
        'a' <= c <= 'z',
    ensures
        spec_ascii_upper(c) as int == c as int - 32,
        'A' <= spec_ascii_upper(c) <= 'Z',
        in_font(spec_ascii_upper(c)),
        spec_glyph_pattern(c) == spec_glyph_pattern(spec_ascii_upper(c)),
        spec_glyph_pattern(c) != seq![0u8, 0, 0, 0, 0, 0, 0],
{
    let up = spec_ascii_upper(c);
    lemma_capital_in_font(up);
    lemma_font_not_blank(up);
}

/// Capitals and everything outside `a..=z` are kept by upper-casing.
pub proof fn lemma_upper_keeps_others(c: char)
    requires
        !('a' <= c <= 'z'),
    ensures
        spec_ascii_upper(c) == c,
        spec_glyph_pattern(c) == font_rows(c),
{
}

/// Every capital letter has a glyph.
proof fn lemma_capital_in_font(up: char)
    requires
        'A' <= up <= 'Z',
    ensures
        in_font(up),
{
    let v = up as int;
    assert(v == 65 || v == 66 || v == 67 || v == 68 || v == 69 || v == 70 || v == 71 || v == 72
        || v == 73 || v == 74 || v == 75 || v == 76 || v == 77 || v == 78 || v == 79 || v == 80
        || v == 81 || v == 82 || v == 83 || v == 84 || v == 85 || v == 86 || v == 87 || v == 88
        || v == 89 || v == 90);
}

/// The bitmap of `ch`, looked up case-insensitively.
pub open spec fn spec_glyph_pattern(ch: char) -> Seq<u8> {
    font_rows(spec_ascii_upper(ch))
}

/// The seven row bitmaps of `ch` in the 5x7 font (letters case-insensitive).
pub fn glyph_pattern(ch: char) -> (rows: [u8; 7])
    ensures
        rows@ == spec_glyph_pattern(ch),
{
    let rows: [u8; 7] = match ascii_upper(ch) {
        'A' => [0b01110, 0b10001, 0b10001, 0b11111, 0b10001, 0b10001, 0b10001],
        'B' => [0b11110, 0b10001, 0b10001, 0b11110, 0b10001, 0b10001, 0b11110],
        'C' => [0b01111, 0b10000, 0b10000, 0b10000, 0b10000, 0b10000, 0b01111],
        'D' => [0b11110, 0b10001, 0b10001, 0b10001, 0b10001, 0b10001, 0b11110],
        'E' => [0b11111, 0b10000, 0b10000, 0b11110, 0b10000, 0b10000, 0b11111],
        'F' => [0b11111, 0b10000, 0b10000, 0b11110, 0b10000, 0b10000, 0b10000],
        'G' => [0b01111, 0b10000, 0b10000, 0b10111, 0b10001, 0b10001, 0b01111],
        'H' => [0b10001, 0b10001, 0b10001, 0b11111, 0b10001, 0b10001, 0b10001],
        'I' => [0b11111, 0b00100, 0b00100, 0b00100, 0b00100, 0b00100, 0b11111],
        'J' => [0b00111, 0b00010, 0b00010, 0b00010, 0b10010, 0b10010, 0b01100],
        'K' => [0b10001, 0b10010, 0b10100, 0b11000, 0b10100, 0b10010, 0b10001],
        'L' => [0b10000, 0b10000, 0b10000, 0b10000, 0b10000, 0b10000, 0b11111],
        'M' => [0b10001, 0b11011, 0b10101, 0b10101, 0b10001, 0b10001, 0b10001],
        'N' => [0b10001, 0b11001, 0b10101, 0b10011, 0b10001, 0b10001, 0b10001],
        'O' => [0b01110, 0b10001, 0b10001, 0b10001, 0b10001, 0b10001, 0b01110],
        'P' => [0b11110, 0b10001, 0b10001, 0b11110, 0b10000, 0b10000, 0b10000],
        'Q' => [0b01110, 0b10001, 0b10001, 0b10001, 0b10101, 0b10010, 0b01101],
        'R' => [0b11110, 0b10001, 0b10001, 0b11110, 0b10100, 0b10010, 0b10001],
        'S' => [0b01111, 0b10000, 0b10000, 0b01110, 0b00001, 0b00001, 0b11110],
        'T' => [0b11111, 0b00100, 0b00100, 0b00100, 0b00100, 0b00100, 0b00100],
        'U' => [0b10001, 0b10001, 0b10001, 0b10001, 0b10001, 0b10001, 0b01110],
        'V' => [0b10001, 0b10001, 0b10001, 0b10001, 0b01010, 0b01010, 0b00100],
        'W' => [0b10001, 0b10001, 0b10001, 0b10101, 0b10101, 0b10101, 0b01010],
        'X' => [0b10001, 0b01010, 0b01010, 0b00100, 0b01010, 0b01010, 0b10001],
        'Y' => [0b10001, 0b01010, 0b01010, 0b00100, 0b00100, 0b00100, 0b00100],
        'Z' => [0b11111, 0b00001, 0b00010, 0b00100, 0b01000, 0b10000, 0b11111],
        '0' => [0b01110, 0b10001, 0b10011, 0b10101, 0b11001, 0b10001, 0b01110],
        '1' => [0b00100, 0b01100, 0b00100, 0b00100, 0b00100, 0b00100, 0b01110],
        '2' => [0b01110, 0b10001, 0b00001, 0b00010, 0b00100, 0b01000, 0b11111],
        '3' => [0b11110, 0b00001, 0b00001, 0b01110, 0b00001, 0b00001, 0b11110],
        '4' => [0b00010, 0b00110, 0b01010, 0b10010, 0b11111, 0b00010, 0b00010],
        '5' => [0b11111, 0b10000, 0b10000, 0b11110, 0b00001, 0b00001, 0b11110],
        '6' => [0b01111, 0b10000, 0b10000, 0b11110, 0b10001, 0b10001, 0b01110],
        '7' => [0b11111, 0b00001, 0b00010, 0b00100, 0b01000, 0b01000, 0b01000],
        '8' => [0b01110, 0b10001, 0b10001, 0b01110, 0b10001, 0b10001, 0b01110],
        '9' => [0b01110, 0b10001, 0b10001, 0b01111, 0b00001, 0b00001, 0b11110],
        '.' => [0, 0, 0, 0, 0, 0b01100, 0b01100],
        ':' => [0, 0b01100, 0b01100, 0, 0b01100, 0b01100, 0],
        '-' => [0, 0, 0, 0b11111, 0, 0, 0],
        '+' => [0, 0b00100, 0b00100, 0b11111, 0b00100, 0b00100, 0],
        '/' => [0b00001, 0b00010, 0b00010, 0b00100, 0b01000, 0b01000, 0b10000],
        '#' => [0b01010, 0b11111, 0b01010, 0b01010, 0b11111, 0b01010, 0b01010],
        '*' => [0, 0b10101, 0b01110, 0b11111, 0b01110, 0b10101, 0],
        '@' => [0b01110, 0b10001, 0b10111, 0b10101, 0b10111, 0b10000, 0b01110],
        '=' => [0, 0, 0b11111, 0, 0b11111, 0, 0],
        '_' => [0, 0, 0, 0, 0, 0, 0b11111],
        _ => [0, 0, 0, 0, 0, 0, 0],
    };
    rows
}

/// Every row of every glyph uses only the five low bits.
pub proof fn lemma_glyph_rows_fit(ch: char)
    ensures
        spec_glyph_pattern(ch).len() == 7,
        forall|i: int| 0 <= i < 7 ==> #[trigger] spec_glyph_pattern(ch)[i] < 32,
{
}

} // verus!
