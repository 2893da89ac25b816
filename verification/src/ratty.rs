use vstd::prelude::*;

use crate::app::VisualMode;
use crate::notes::{decimal, push_decimal};

verus! {

/// A rectangle of terminal cells.
#[derive(Clone, Copy, Debug, PartialEq, Eq, Structural)]
pub struct Rect {
    pub x: u16,
    pub y: u16,
    pub width: u16,
    pub height: u16,
}

/// Where the 3D mouse object is placed, in terminal cells.
#[derive(Clone, Copy, Debug, PartialEq, Eq, Structural)]
pub struct Placement {
    pub row: u16,
    pub col: u16,
    pub width: u16,
    pub height: u16,
}

/// `a + b` saturating at `u16::MAX`.
pub open spec fn sat_add16(a: int, b: int) -> int {
    if a + b > u16::MAX {
        u16::MAX as int
    } else {
        a + b
    }
}

/// `a - b` saturating at zero.
pub open spec fn sat_sub16(a: int, b: int) -> int {
    if a - b < 0 {
        0
    } else {
        a - b
    }
}

/// The object is centred in `area` (rounding toward the top left) and takes
/// its size, at least one cell each way.
pub open spec fn spec_mouse_placement(area: Rect) -> Placement {
    Placement {
        row: sat_add16(area.y as int, sat_sub16(area.height as int, 1) / 2) as u16,
        col: sat_add16(area.x as int, sat_sub16(area.width as int, 1) / 2) as u16,
        width: if area.width < 1 {
            1
        } else {
            area.width
        },
        height: if area.height < 1 {
            1
        } else {
            area.height
        },
    }
}

/// The cell where the 3D mouse is anchored, and the size it is drawn at.
pub fn mouse_placement(area: Rect) -> (p: Placement)
    ensures
        p == spec_mouse_placement(area),
{
    Placement {
        row: area.y.saturating_add(area.height.saturating_sub(1) / 2),
        col: area.x.saturating_add(area.width.saturating_sub(1) / 2),
        width: if area.width < 1 {
            1
        } else {
            area.width
        },
        height: if area.height < 1 {
            1
        } else {
            area.height
        },
    }
}

/// The lower-case hexadecimal digit for `d` in `0..16`.
pub open spec fn hex_char(d: int) -> char {
    if d < 10 {
        crate::notes::digit_char(d)
    } else if d == 10 {
        'a'
    } else if d == 11 {
        'b'
    } else if d == 12 {
        'c'
    } else if d == 13 {
        'd'
    } else if d == 14 {
        'e'
    } else {
        'f'
    }
}

/// A byte as two lower-case hexadecimal digits.
pub open spec fn hex_byte(b: u8) -> Seq<char> {
    seq![hex_char((b / 16) as int), hex_char((b % 16) as int)]
}

fn hex_str(d: u8) -> (s: &'static str)
    requires
        d < 16,
    ensures
        s@ == seq![hex_char(d as int)],
{
    proof {
        reveal_strlit("0");
        reveal_strlit("1");
        reveal_strlit("2");
        reveal_strlit("3");
        reveal_strlit("4");
        reveal_strlit("5");
        reveal_strlit("6");
        reveal_strlit("7");
        reveal_strlit("8");
        reveal_strlit("9");
        reveal_strlit("a");
        reveal_strlit("b");
        reveal_strlit("c");
        reveal_strlit("d");
        reveal_strlit("e");
        reveal_strlit("f");
    }
    match d {
        0 => "0",
        1 => "1",
        2 => "2",
        3 => "3",
        4 => "4",
        5 => "5",
        6 => "6",
        7 => "7",
        8 => "8",
        9 => "9",
        10 => "a",
        11 => "b",
        12 => "c",
        13 => "d",
        14 => "e",
        _ => "f",
    }
}

/// Append `b` as two lower-case hexadecimal digits.
pub fn push_hex_byte(s: &mut String, b: u8)
    ensures
        final(s)@ == old(s)@ + hex_byte(b),
{
    s.append(hex_str(b / 16));
    s.append(hex_str(b % 16));
}

/// The id the mouse object is registered under.
pub const MOUSE_ID: i32 = 42;

/// The escape sequence that removes the mouse object.
pub open spec fn spec_delete_sequence() -> Seq<char> {
    "\x1b_ratty;g;d;id="@ + decimal(MOUSE_ID as int) + "\x1b\\"@
}

/// The escape sequence that removes the mouse object.
pub fn delete_sequence() -> (s: String)
    ensures
        s@ == spec_delete_sequence(),
{
    let mut s = String::from_str("\x1b_ratty;g;d;id=");
    push_decimal(&mut s, MOUSE_ID);
    s.append("\x1b\\");
    s
}

/// The escape sequence that removes the mouse object.
pub fn mouse_delete_sequence() -> (s: String)
    ensures
        s@ == spec_delete_sequence(),
{
    delete_sequence()
}

/// The escape sequence that registers the mouse model file at `path`, stored
/// in model format `format` (such as `glb` or `obj`).
pub open spec fn spec_register_sequence(format: Seq<char>, path: Seq<char>) -> Seq<char> {
    "\x1b_ratty;g;r;id="@ + decimal(MOUSE_ID as int) + ";fmt="@ + format + ";path="@ + path
        + "\x1b\\"@
}

/// The escape sequence that registers the mouse model stored at `path` in
/// model format `format`.
pub fn register_sequence(format: &str, path: &str) -> (s: String)
    ensures
        s@ == spec_register_sequence(format@, path@),
{
    let mut s = String::from_str("\x1b_ratty;g;r;id=");
    push_decimal(&mut s, MOUSE_ID);
    s.append(";fmt=");
    s.append(format);
    s.append(";path=");
    s.append(path);
    s.append("\x1b\\");
    s
}

/// The escape sequence that places the registered mouse in `area` with the
/// given colour. `scale`, `depth` and `brightness` are the already formatted
/// decimal fields; `animate` is written as 1 or 0.
pub open spec fn spec_place_sequence(
    area: Rect,
    color: Seq<u8>,
    scale: Seq<char>,
    depth: Seq<char>,
    brightness: Seq<char>,
    animate: bool,
) -> Seq<char> {
    let p = spec_mouse_placement(area);
    "\x1b_ratty;g;p;id="@ + decimal(MOUSE_ID as int) + ";row="@ + decimal(p.row as int) + ";col="@
        + decimal(p.col as int) + ";w="@ + decimal(p.width as int) + ";h="@ + decimal(
        p.height as int,
    ) + ";animate="@ + decimal(if animate {
        1
    } else {
        0
    }) + ";scale="@ + scale + ";depth="@ + depth + ";color="@ + hex_byte(color[0]) + hex_byte(
        color[1],
    ) + hex_byte(color[2]) + ";brightness="@ + brightness + "\x1b\\"@
}

/// The escape sequence that places the mouse object centred in `area`.
pub fn mouse_place_sequence(
    area: Rect,
    color: [u8; 3],
    scale: &str,
    depth: &str,
    brightness: &str,
    animate: bool,
) -> (s: String)
    ensures
        s@ == spec_place_sequence(area, color@, scale@, depth@, brightness@, animate),
{
    let p = mouse_placement(area);
    let mut s = String::from_str("\x1b_ratty;g;p;id=");
    push_decimal(&mut s, MOUSE_ID);
    s.append(";row=");
    push_decimal(&mut s, p.row as i32);
    s.append(";col=");
    push_decimal(&mut s, p.col as i32);
    s.append(";w=");
    push_decimal(&mut s, p.width as i32);
    s.append(";h=");
    push_decimal(&mut s, p.height as i32);
    s.append(";animate=");
    push_decimal(&mut s, if animate { 1 } else { 0 });
    s.append(";scale=");
    s.append(scale);
    s.append(";depth=");
    s.append(depth);
    s.append(";color=");
    push_hex_byte(&mut s, color[0]);
    push_hex_byte(&mut s, color[1]);
    push_hex_byte(&mut s, color[2]);
    s.append(";brightness=");
    s.append(brightness);
    s.append("\x1b\\");
    s
}

/// Whether the 3D mouse was asked for: by the environment variable, or by a
/// `--ratty` argument anywhere on the command line.
pub fn ratty_requested(env_var_set: bool, args: &Vec<String>) -> (on: bool)
    ensures
        on == (env_var_set || exists|i: int| 0 <= i < args@.len() && #[trigger] args@[i]@
            == "--ratty"@),
{
    if env_var_set {
        return true;
    }
    let flag = String::from_str("--ratty");
    let mut i: usize = 0;
    while i < args.len()
        invariant
            i <= args@.len(),
            flag@ == "--ratty"@,
            forall|j: int| 0 <= j < i ==> args@[j]@ != "--ratty"@,
        decreases args.len() - i,
    {
        if args[i] == flag {
            return true;
        }
        i = i + 1;
    }
    false
}

} // verus!

verus! {

/// `v` clamped to `[lo, hi]`, for `lo <= hi`.
pub open spec fn clamp_int(v: int, lo: int, hi: int) -> int {
    if v < lo {
        lo
    } else if v > hi {
        hi
    } else {
        v
    }
}

/// The right edge of `area`, saturating at `u16::MAX`.
pub open spec fn right(area: Rect) -> int {
    sat_add16(area.x as int, area.width as int)
}

/// The bottom edge of `area`, saturating at `u16::MAX`.
pub open spec fn bottom(area: Rect) -> int {
    sat_add16(area.y as int, area.height as int)
}

/// The size of the 3D mouse: at most 28 x 14 cells, at least one each way.
pub open spec fn object_width(area: Rect) -> int {
    if area.width < 1 {
        1
    } else if area.width > 28 {
        28
    } else {
        area.width as int
    }
}

pub open spec fn object_height(area: Rect) -> int {
    if area.height < 1 {
        1
    } else if area.height > 14 {
        14
    } else {
        area.height as int
    }
}

/// The inputs for which placing the object keeps within the integer ranges and
/// the clamping bounds are ordered.
pub open spec fn object_area_fits(area: Rect, wind_offset: i32) -> bool {
    let base_x = area.x + sat_sub16(area.width as int, object_width(area)) / 2;
    &&& base_x <= u16::MAX
    &&& in_i32_range(base_x + wind_offset)
    &&& area.x <= sat_sub16(right(area), object_width(area))
    &&& area.y <= sat_sub16(bottom(area), object_height(area))
}

pub open spec fn in_i32_range(v: int) -> bool {
    i32::MIN <= v <= i32::MAX
}

/// Where the 3D mouse sits in `area`: centred, shifted sideways by the wind but
/// kept inside the area, and at most 28 x 14 cells.
pub open spec fn spec_object_area(area: Rect, wind_offset: i32) -> Rect {
    let w = object_width(area);
    let h = object_height(area);
    let base_x = area.x + sat_sub16(area.width as int, w) / 2;
    Rect {
        x: clamp_int(base_x + wind_offset, area.x as int, sat_sub16(right(area), w)) as u16,
        y: clamp_int(
            area.y + sat_sub16(area.height as int, h) / 2,
            area.y as int,
            sat_sub16(bottom(area), h),
        ) as u16,
        width: w as u16,
        height: h as u16,
    }
}

/// The cells the 3D mouse object covers in `area`, with the wind pushing it
/// `wind_offset` columns sideways.
pub fn mouse_object_area(area: Rect, wind_offset: i32) -> (r: Rect)
    requires
        object_area_fits(area, wind_offset),
    ensures
        r == spec_object_area(area, wind_offset),
{
    let width = if area.width < 1 {
        1
    } else if area.width > 28 {
        28
    } else {
        area.width
    };
    let height = if area.height < 1 {
        1
    } else if area.height > 14 {
        14
    } else {
        area.height
    };
    let base_x = area.x + area.width.saturating_sub(width) / 2;
    let right = area.x.saturating_add(area.width);
    let bottom = area.y.saturating_add(area.height);
    let x_lo = area.x as i32;
    let x_hi = right.saturating_sub(width) as i32;
    let x_raw = base_x as i32 + wind_offset;
    let x = if x_raw < x_lo {
        x_lo
    } else if x_raw > x_hi {
        x_hi
    } else {
        x_raw
    };
    let y_lo = area.y as i32;
    let y_hi = bottom.saturating_sub(height) as i32;
    let y_raw = area.y as i32 + area.height.saturating_sub(height) as i32 / 2;
    let y = if y_raw < y_lo {
        y_lo
    } else if y_raw > y_hi {
        y_hi
    } else {
        y_raw
    };
    Rect { x: x as u16, y: y as u16, width, height }
}

/// The 3D mouse never leaves a non-empty area: its cells lie inside `area`,
/// whatever the wind, and it is at most 28 x 14 cells.
pub proof fn lemma_object_area_inside(area: Rect, wind_offset: i32)
    requires
        area.width >= 1,
        area.height >= 1,
        area.x + area.width <= u16::MAX,
        area.y + area.height <= u16::MAX,
        object_area_fits(area, wind_offset),
    ensures
        ({
            let r = spec_object_area(area, wind_offset);
            &&& area.x <= r.x
            &&& r.x + r.width <= area.x + area.width
            &&& area.y <= r.y
            &&& r.y + r.height <= area.y + area.height
            &&& 1 <= r.width <= 28
            &&& 1 <= r.height <= 14
        }),
{
}

/// What the scene writes for the 3D mouse on a frame: nothing without the 3D
/// terminal or on an empty area; in the 2D view the sequence that removes the
/// object, at the area's top left cell; in the 3D view the sequence that places
/// it, at the top left cell of the object's area.
pub open spec fn spec_mouse_overlay(
    ratty_enabled: bool,
    area: Rect,
    mode: VisualMode,
    wind_offset: i32,
    color: Seq<u8>,
    scale: Seq<char>,
    depth: Seq<char>,
    brightness: Seq<char>,
) -> Option<(u16, u16, Seq<char>)> {
    if !ratty_enabled || area.width == 0 || area.height == 0 {
        None
    } else if mode != VisualMode::ThreeD {
        Some((area.x, area.y, spec_delete_sequence()))
    } else {
        let r = spec_object_area(area, wind_offset);
        Some((r.x, r.y, spec_place_sequence(r, color, scale, depth, brightness, false)))
    }
}

/// The cell and the escape sequence to put in front of its symbol for the 3D
/// mouse on this frame, if any. `scale`, `depth` and `brightness` are the
/// already formatted decimal fields.
pub fn mouse_overlay(
    ratty_enabled: bool,
    area: Rect,
    mode: VisualMode,
    wind_offset: i32,
    color: [u8; 3],
    scale: &str,
    depth: &str,
    brightness: &str,
) -> (out: Option<(u16, u16, String)>)
    requires
        ratty_enabled && area.width > 0 && area.height > 0 && mode == VisualMode::ThreeD
            ==> object_area_fits(area, wind_offset),
    ensures
        match out {
            Some((x, y, s)) => spec_mouse_overlay(
                ratty_enabled,
                area,
                mode,
                wind_offset,
                color@,
                scale@,
                depth@,
                brightness@,
            ) == Some((x, y, s@)),
            None => spec_mouse_overlay(
                ratty_enabled,
                area,
                mode,
                wind_offset,
                color@,
                scale@,
                depth@,
                brightness@,
            ) is None,
        },
{
    if !ratty_enabled || area.width == 0 || area.height == 0 {
        None
    } else if mode != VisualMode::ThreeD {
        Some((area.x, area.y, delete_sequence()))
    } else {
        let r = mouse_object_area(area, wind_offset);
        Some((r.x, r.y, mouse_place_sequence(r, color, scale, depth, brightness, false)))
    }
}

} // verus!
