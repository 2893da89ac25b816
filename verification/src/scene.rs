use vstd::prelude::*;

use crate::app::{NoiseTexture, VisualMode};
use crate::notes::{black_key, pitch_name};
use crate::raster::Color;

verus! {

/// `|v|` as an unsigned value; `i32::MIN` maps to `2^31`.
pub open spec fn spec_unsigned_abs(v: i32) -> u32 {
    if v < 0 {
        (-(v as int)) as u32
    } else {
        v as u32
    }
}

fn unsigned_abs(v: i32) -> (a: u32)
    ensures
        a == spec_unsigned_abs(v),
{
    if v < 0 {
        (-(v as i64)) as u32
    } else {
        v as u32
    }
}

/// The scatter hash of a grid cell and a seed: a wrapping linear mix of the
/// three inputs, folded with two xor-shifts around a wrapping multiply, and
/// returned as an absolute value.
pub open spec fn spec_hash_cell(x: i32, y: i32, seed: i32) -> u32 {
    let n0 = x.wrapping_mul(73_856_093i32).wrapping_add(y.wrapping_mul(19_349_663i32)).wrapping_add(
        seed.wrapping_mul(83_492_791i32),
    );
    let n1 = n0 ^ (n0 >> 13i32);
    let n2 = n1.wrapping_mul(1_274_126_177i32);
    spec_unsigned_abs(n2 ^ (n2 >> 16i32))
}

/// A deterministic pseudo-random value for a grid cell, used to scatter rain.
pub fn hash_cell(x: i32, y: i32, seed: i32) -> (h: u32)
    ensures
        h == spec_hash_cell(x, y, seed),
{
    let mut n = x.wrapping_mul(73_856_093).wrapping_add(y.wrapping_mul(19_349_663)).wrapping_add(
        seed.wrapping_mul(83_492_791),
    );
    n = n ^ (n >> 13i32);
    n = n.wrapping_mul(1_274_126_177);
    unsigned_abs(n ^ (n >> 16i32))
}

/// How far below the mouse's centre rain meets its body, `dx` cells from the
/// middle: `5.8 - min(0.23 * |dx|, 4.2)` rounded half away from zero, written
/// in hundredths.
pub open spec fn contact_depth(dx: int) -> int {
    let a = if dx < 0 {
        -dx
    } else {
        dx
    };
    let drop = if 23 * a < 420 {
        23 * a
    } else {
        420
    };
    (630 - drop) / 100
}

/// The row where a rain streak `dx` cells from the middle hits the mouse.
pub fn mouse_contact_y(dx: i32, center_y: i32) -> (y: i32)
    requires
        dx > i32::MIN,
        center_y + contact_depth(dx as int) <= i32::MAX,
    ensures
        y == center_y + contact_depth(dx as int),
{
    let a = if dx < 0 {
        -dx
    } else {
        dx
    };
    let drop = if a < 19 {
        23 * a
    } else {
        420
    };
    center_y + (630 - drop) / 100
}

/// Whether `needle` occurs in `s` at position `i`.
pub open spec fn occurs_at(s: Seq<char>, needle: Seq<char>, i: int) -> bool {
    0 <= i && i + needle.len() <= s.len() && s.subrange(i, i + needle.len()) == needle
}

/// Whether `needle` occurs anywhere in `s`.
pub open spec fn contains_seq(s: Seq<char>, needle: Seq<char>) -> bool {
    exists|i: int| #[trigger] occurs_at(s, needle, i)
}

/// Whether `needle` occurs anywhere in `s`.
pub fn str_contains(s: &str, needle: &str) -> (found: bool)
    ensures
        found == contains_seq(s@, needle@),
{
    let n = s.unicode_len();
    let m = needle.unicode_len();
    if m > n {
        proof {
            assert forall|i: int| !#[trigger] occurs_at(s@, needle@, i) by {}
        }
        return false;
    }
    let mut i: usize = 0;
    while i <= n - m
        invariant
            n == s@.len(),
            m == needle@.len(),
            m <= n,
            i <= n - m + 1,
            forall|j: int| 0 <= j < i ==> !#[trigger] occurs_at(s@, needle@, j),
        decreases n - m + 1 - i,
    {
        let mut k: usize = 0;
        let mut same = true;
        while k < m
            invariant
                n == s@.len(),
                m == needle@.len(),
                i + m <= n,
                k <= m,
                same == (forall|t: int| 0 <= t < k ==> s@[i + t] == needle@[t]),
            decreases m - k,
        {
            if s.get_char(i + k) != needle.get_char(k) {
                same = false;
            }
            k = k + 1;
        }
        if same {
            assert(s@.subrange(i as int, i + m) =~= needle@);
            assert(occurs_at(s@, needle@, i as int));
            return true;
        }
        proof {
            if occurs_at(s@, needle@, i as int) {
                let t = choose|t: int| 0 <= t < m && s@[i + t] != needle@[t];
            }
        }
        i = i + 1;
    }
    false
}

/// The short audio label for the footer: `live` when the status mentions it,
/// otherwise `silent`.
pub fn compact_audio_status(status: &str) -> (label: String)
    ensures
        label@ == if contains_seq(status@, "live"@) {
            "live"@
        } else {
            "silent"@
        },
{
    if str_contains(status, "live") {
        String::from_str("live")
    } else {
        String::from_str("silent")
    }
}

/// The terminal colour of particle colour slot `index`, cycling through four.
pub open spec fn spec_particle_color(index: usize) -> Color {
    if index % 4 == 0 {
        Color::Cyan
    } else if index % 4 == 1 {
        Color::LightRed
    } else if index % 4 == 2 {
        Color::Yellow
    } else {
        Color::Green
    }
}

/// The terminal colour of particle colour slot `index`, cycling through four.
pub fn particle_color(index: usize) -> (c: Color)
    ensures
        c == spec_particle_color(index),
{
    match index % 4 {
        0 => Color::Cyan,
        1 => Color::LightRed,
        2 => Color::Yellow,
        _ => Color::Green,
    }
}

/// The colour of the view-mode label: gray in 2D; in 3D cyan when the 3D
/// terminal is present and yellow when it is not.
pub open spec fn spec_mode_color(mode: VisualMode, ratty_enabled: bool) -> Color {
    match mode {
        VisualMode::TwoD => Color::Gray,
        VisualMode::ThreeD => if ratty_enabled {
            Color::Cyan
        } else {
            Color::Yellow
        },
    }
}

/// The colour of the view-mode label.
pub fn mode_color(mode: VisualMode, ratty_enabled: bool) -> (c: Color)
    ensures
        c == spec_mode_color(mode, ratty_enabled),
{
    match mode {
        VisualMode::TwoD => Color::Gray,
        VisualMode::ThreeD => {
            if ratty_enabled {
                Color::Cyan
            } else {
                Color::Yellow
            }
        },
    }
}

/// The mouse's body colour: paler in the wind.
pub fn mouse_rgb(texture: NoiseTexture) -> (c: [u8; 3])
    ensures
        c@ == if texture == NoiseTexture::Wind {
            seq![126u8, 166, 168]
        } else {
            seq![88u8, 122, 146]
        },
{
    let c: [u8; 3] = match texture {
        NoiseTexture::Wind => [126, 166, 168],
        _ => [88, 122, 146],
    };
    assert(c@ =~= if texture == NoiseTexture::Wind {
        seq![126u8, 166, 168]
    } else {
        seq![88u8, 122, 146]
    });
    c
}

} // verus!

verus! {

/// One key of the on-screen keyboard: the key to press, the note it plays,
/// each centred in a five-character cell, and how it is drawn.
pub struct KeyLabel {
    pub key: String,
    pub note: String,
    pub color: Color,
    pub bold: bool,
}

/// The centred cells of keyboard key `i` (0 = `z`, the C key).
pub open spec fn key_cells(i: int) -> (Seq<char>, Seq<char>) {
    if i == 0 {
        ("  z  "@, "  C  "@)
    } else if i == 1 {
        ("  s  "@, " C#  "@)
    } else if i == 2 {
        ("  x  "@, "  D  "@)
    } else if i == 3 {
        ("  d  "@, " D#  "@)
    } else if i == 4 {
        ("  c  "@, "  E  "@)
    } else if i == 5 {
        ("  v  "@, "  F  "@)
    } else if i == 6 {
        ("  g  "@, " F#  "@)
    } else if i == 7 {
        ("  b  "@, "  G  "@)
    } else if i == 8 {
        ("  h  "@, " G#  "@)
    } else if i == 9 {
        ("  n  "@, "  A  "@)
    } else if i == 10 {
        ("  j  "@, " A#  "@)
    } else {
        ("  m  "@, "  B  "@)
    }
}

/// The sharps of the octave.
pub open spec fn is_sharp(i: int) -> bool {
    i == 1 || i == 3 || i == 6 || i == 8 || i == 10
}

/// The key of the root note is bold yellow; the other sharps are gray and
/// the naturals dark gray.
pub open spec fn key_style(i: int, active: int) -> (Color, bool) {
    if i == active {
        (Color::Yellow, true)
    } else if is_sharp(i) {
        (Color::Gray, false)
    } else {
        (Color::DarkGray, false)
    }
}

/// Exactly one key is highlighted: the one whose pitch class is the root's.
pub proof fn lemma_one_key_highlighted(root_midi: int, i: int)
    requires
        0 <= i < 12,
    ensures
        key_style(i, root_midi % 12).1 <==> i == root_midi % 12,
        key_style(i, root_midi % 12).0 == Color::Yellow <==> i == root_midi % 12,
{
}

/// `n` blanks.
pub open spec fn blanks(n: int) -> Seq<char> {
    Seq::new(n as nat, |k: int| ' ')
}

/// A label of at most three characters in a five-cell key: a blank, the label
/// centred in three cells with any odd blank on its right, and a blank.
pub open spec fn key_cell_text(label: Seq<char>) -> Seq<char> {
    let pad = 3 - label.len();
    seq![' '] + blanks(pad / 2) + label + blanks(pad - pad / 2) + seq![' ']
}

/// Each key of the on-screen keyboard shows, centred, the name of the pitch
/// class it plays, and the keys drawn as sharps are the black keys.
pub proof fn lemma_keyboard_names(i: int)
    requires
        0 <= i < 12,
    ensures
        key_cells(i).1 == key_cell_text(pitch_name(i)),
        key_cells(i).0 == key_cell_text(seq![key_cells(i).0[2]]),
        is_sharp(i) == black_key(i),
{
    reveal_strlit("  z  ");
    reveal_strlit("  C  ");
    reveal_strlit("  s  ");
    reveal_strlit(" C#  ");
    reveal_strlit("  x  ");
    reveal_strlit("  D  ");
    reveal_strlit("  d  ");
    reveal_strlit(" D#  ");
    reveal_strlit("  c  ");
    reveal_strlit("  E  ");
    reveal_strlit("  v  ");
    reveal_strlit("  F  ");
    reveal_strlit("  g  ");
    reveal_strlit(" F#  ");
    reveal_strlit("  b  ");
    reveal_strlit("  G  ");
    reveal_strlit("  h  ");
    reveal_strlit(" G#  ");
    reveal_strlit("  n  ");
    reveal_strlit("  A  ");
    reveal_strlit("  j  ");
    reveal_strlit(" A#  ");
    reveal_strlit("  m  ");
    reveal_strlit("  B  ");
    assert(key_cells(i).1 =~= key_cell_text(pitch_name(i)));
    assert(key_cells(i).0 =~= key_cell_text(seq![key_cells(i).0[2]]));
}

fn key_texts(i: usize) -> (t: (&'static str, &'static str))
    requires
        i < 12,
    ensures
        (t.0@, t.1@) == key_cells(i as int),
{
    match i {
        0 => ("  z  ", "  C  "),
        1 => ("  s  ", " C#  "),
        2 => ("  x  ", "  D  "),
        3 => ("  d  ", " D#  "),
        4 => ("  c  ", "  E  "),
        5 => ("  v  ", "  F  "),
        6 => ("  g  ", " F#  "),
        7 => ("  b  ", "  G  "),
        8 => ("  h  ", " G#  "),
        9 => ("  n  ", "  A  "),
        10 => ("  j  ", " A#  "),
        _ => ("  m  ", "  B  "),
    }
}

/// The twelve keys of the on-screen keyboard, with the root note's pitch class
/// (`root_midi` modulo 12) highlighted.
pub fn keyboard_labels(root_midi: i32) -> (labels: Vec<KeyLabel>)
    ensures
        labels@.len() == 12,
        forall|i: int|
            0 <= i < 12 ==> {
                &&& (#[trigger] labels@[i]).key@ == key_cells(i).0
                &&& labels@[i].note@ == key_cells(i).1
                &&& (labels@[i].color, labels@[i].bold) == key_style(i, root_midi as int % 12)
            },
{
    let active = match root_midi.checked_rem_euclid(12) {
        Some(r) => r as usize,
        None => 0,
    };
    let mut labels: Vec<KeyLabel> = Vec::new();
    let mut i: usize = 0;
    while i < 12
        invariant
            i <= 12,
            active == root_midi as int % 12,
            labels@.len() == i,
            forall|j: int|
                0 <= j < i ==> {
                    &&& (#[trigger] labels@[j]).key@ == key_cells(j).0
                    &&& labels@[j].note@ == key_cells(j).1
                    &&& (labels@[j].color, labels@[j].bold) == key_style(j, active as int)
                },
        decreases 12 - i,
    {
        let (key, note) = key_texts(i);
        let sharp = i == 1 || i == 3 || i == 6 || i == 8 || i == 10;
        let (color, bold) = if i == active {
            (Color::Yellow, true)
        } else if sharp {
            (Color::Gray, false)
        } else {
            (Color::DarkGray, false)
        };
        labels.push(KeyLabel { key: String::from_str(key), note: String::from_str(note), color, bold });
        i = i + 1;
    }
    labels
}

} // verus!
