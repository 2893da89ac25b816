use vstd::prelude::*;

use crate::canvas::{concat_range, Plot};
use crate::app::{spec_texture_color_index, App, NoiseTexture, Waveform};
use crate::raster::Color;
use crate::scene::{particle_color, spec_particle_color};

verus! {

pub open spec fn abs(v: int) -> int {
    if v < 0 {
        -v
    } else {
        v
    }
}

/// The floor line under the 3D mouse: underscores in the middle, dashes then dots outward.
pub open spec fn shadow_edge_char(edge: int) -> char {
    if edge > 9 {
        '.'
    } else if edge > 6 {
        '-'
    } else {
        '_'
    }
}

pub open spec fn shadow_floor(cx: int, cy: int, pulse: int) -> spec_fn(int) -> Seq<Plot> {
    |dx: int|
        seq![
            Plot {
                x: (cx + dx) as i32,
                y: (cy + 5 + pulse / 2) as i32,
                ch: shadow_edge_char(abs(dx)),
                color: Color::DarkGray,
            },
        ]
}

pub open spec fn shadow_rim(cx: int, cy: int) -> spec_fn(int) -> Seq<Plot> {
    |dy: int|
        if 10 - abs(dy) > 0 {
            seq![
                Plot {
                    x: (cx - (10 - abs(dy))) as i32,
                    y: (cy + dy) as i32,
                    ch: '.',
                    color: Color::DarkGray,
                },
                Plot {
                    x: (cx + (10 - abs(dy))) as i32,
                    y: (cy + dy) as i32,
                    ch: '.',
                    color: Color::DarkGray,
                },
            ]
        } else {
            seq![]
        }
}

/// The label shown where the 3D mouse would be when no 3D terminal is present.
pub open spec fn hint_chars() -> Seq<char> {
    seq!['r', 'a', 't', 't', 'y', ' ', '3', 'd']
}

/// The first `n` letters of the hint label, centred on `cx`.
pub open spec fn hint_plots(cx: i32, cy: i32, n: nat) -> Seq<Plot> {
    Seq::new(n, |i: int| hint_plot(cx, cy, i))
}

pub open spec fn hint_plot(cx: i32, cy: i32, i: int) -> Plot {
    Plot { x: (cx - 4 + i) as i32, y: cy, ch: hint_chars()[i], color: Color::Gray }
}

/// The anchor drawn under the 3D mouse: a floor line (lower while `gate_open`),
/// a dotted diamond rim, and, without a 3D terminal, a centred `ratty 3d` label.
pub open spec fn spec_anchor_shadow_plots(cx: i32, cy: i32, gate_open: bool, ratty_enabled: bool) -> Seq<Plot> {
    let pulse = if gate_open {
        2int
    } else {
        0int
    };
    concat_range(shadow_floor(cx as int, cy as int, pulse), -11, 23) + concat_range(
        shadow_rim(cx as int, cy as int),
        -5,
        10,
    ) + if ratty_enabled {
        seq![]
    } else {
        hint_plots(cx, cy, 8)
    }
}

/// The plots of the anchor under the 3D mouse centred at `(cx, cy)`.
pub fn anchor_shadow_plots(cx: i32, cy: i32, gate_open: bool, ratty_enabled: bool) -> (plots: Vec<Plot>)
    requires
        0 <= cx <= u16::MAX,
        0 <= cy <= u16::MAX,
    ensures
        plots@ == spec_anchor_shadow_plots(cx, cy, gate_open, ratty_enabled),
{
    let pulse: i32 = if gate_open {
        2
    } else {
        0
    };
    let ghost floor = shadow_floor(cx as int, cy as int, pulse as int);
    let ghost rim = shadow_rim(cx as int, cy as int);
    let mut plots: Vec<Plot> = Vec::new();
    let mut dx: i32 = -11;
    while dx <= 11
        invariant
            -11 <= dx <= 12,
            0 <= cx <= u16::MAX,
            0 <= cy <= u16::MAX,
            pulse == 0 || pulse == 2,
            floor == shadow_floor(cx as int, cy as int, pulse as int),
            plots@ == concat_range(floor, -11, dx + 11),
        decreases 12 - dx,
    {
        let edge = if dx < 0 {
            -dx
        } else {
            dx
        };
        let ch = if edge > 9 {
            '.'
        } else if edge > 6 {
            '-'
        } else {
            '_'
        };
        plots.push(Plot { x: cx + dx, y: cy + 5 + pulse / 2, ch, color: Color::DarkGray });
        dx = dx + 1;
    }
    let ghost part1 = plots@;
    let mut dy: i32 = -5;
    while dy <= 4
        invariant
            -5 <= dy <= 5,
            0 <= cx <= u16::MAX,
            0 <= cy <= u16::MAX,
            rim == shadow_rim(cx as int, cy as int),
            plots@ == part1 + concat_range(rim, -5, dy + 5),
        decreases 5 - dy,
    {
        let ady = if dy < 0 {
            -dy
        } else {
            dy
        };
        let width = 10 - ady;
        if width > 0 {
            plots.push(Plot { x: cx - width, y: cy + dy, ch: '.', color: Color::DarkGray });
            plots.push(Plot { x: cx + width, y: cy + dy, ch: '.', color: Color::DarkGray });
        }
        dy = dy + 1;
    }
    let ghost part2 = plots@;
    if !ratty_enabled {
        let hint: [char; 8] = ['r', 'a', 't', 't', 'y', ' ', '3', 'd'];
        let start = cx - 4;
        let mut i: usize = 0;
        while i < 8
            invariant
                i <= 8,
                start == cx - 4,
                0 <= cx <= u16::MAX,
                hint@ == hint_chars(),
                plots@ == part2 + hint_plots(cx, cy, i as nat),
            decreases 8 - i,
        {
            plots.push(Plot { x: start + i as i32, y: cy, ch: hint[i], color: Color::Gray });
            i = i + 1;
        }
    }
    plots
}

/// Row `r` of the 2D mouse, 22 columns wide. The tail hangs right or left and
/// `eye` is drawn twice in the face.
pub open spec fn art_row(r: int, tail_right: bool, eye: char) -> Seq<char> {
    let t = if tail_right {
        '_'
    } else {
        ' '
    };
    let l = if tail_right {
        ' '
    } else {
        '_'
    };
    if r == 0 {
        seq![l, l, l, ' ', ' ', '(', ')', ' ', ' ', ' ', ' ', ' ', ' ', '(', ')', ' ', ' ', ' ', t, t, t, ' ']
    } else if r == 1 {
        seq![' ', ' ', ' ', ' ', ' ', ' ', ' ', '.', '-', '\'', '\'', '\'', '\'', '-', '.', ' ', ' ', ' ', ' ', ' ', ' ', ' ']
    } else if r == 2 {
        seq![' ', ' ', ' ', ' ', ' ', '.', '\'', ' ', ' ', eye, ' ', ' ', eye, ' ', '\'', '.', ' ', ' ', ' ', ' ', ' ', ' ']
    } else if r == 3 {
        seq![' ', ' ', ' ', ' ', '/', ' ', ' ', ' ', '.', '-', '-', '-', '-', '.', ' ', ' ', '\\', ' ', ' ', ' ', ' ', ' ']
    } else if r == 4 {
        seq![' ', ' ', ' ', '|', ' ', ' ', ' ', '/', ' ', ' ', '_', '_', ' ', ' ', '\\', ' ', ' ', '|', ' ', ' ', ' ', ' ']
    } else if r == 5 {
        seq![' ', ' ', ' ', ' ', '\\', ' ', ' ', '\\', ' ', ' ', ' ', ' ', ' ', ' ', '/', ' ', '/', ' ', ' ', ' ', ' ', ' ']
    } else if r == 6 {
        seq![' ', ' ', ' ', ' ', ' ', '\'', '-', '.', '\'', '-', '-', '-', '-', '\'', '.', '-', '\'', ' ', ' ', ' ', ' ', ' ']
    } else {
        seq![' ', ' ', ' ', ' ', ' ', ' ', ' ', '/', '_', '/', ' ', ' ', '\\', '_', '\\', ' ', ' ', ' ', ' ', ' ', ' ', ' ']
    }
}

fn art_row_chars(r: usize, tail_right: bool, eye: char) -> (row: [char; 22])
    requires
        r < 8,
    ensures
        row@ == art_row(r as int, tail_right, eye),
{
    let t = if tail_right {
        '_'
    } else {
        ' '
    };
    let l = if tail_right {
        ' '
    } else {
        '_'
    };
    let row: [char; 22] = if r == 0 {
        [l, l, l, ' ', ' ', '(', ')', ' ', ' ', ' ', ' ', ' ', ' ', '(', ')', ' ', ' ', ' ', t, t, t, ' ']
    } else if r == 1 {
        [' ', ' ', ' ', ' ', ' ', ' ', ' ', '.', '-', '\'', '\'', '\'', '\'', '-', '.', ' ', ' ', ' ', ' ', ' ', ' ', ' ']
    } else if r == 2 {
        [' ', ' ', ' ', ' ', ' ', '.', '\'', ' ', ' ', eye, ' ', ' ', eye, ' ', '\'', '.', ' ', ' ', ' ', ' ', ' ', ' ']
    } else if r == 3 {
        [' ', ' ', ' ', ' ', '/', ' ', ' ', ' ', '.', '-', '-', '-', '-', '.', ' ', ' ', '\\', ' ', ' ', ' ', ' ', ' ']
    } else if r == 4 {
        [' ', ' ', ' ', '|', ' ', ' ', ' ', '/', ' ', ' ', '_', '_', ' ', ' ', '\\', ' ', ' ', '|', ' ', ' ', ' ', ' ']
    } else if r == 5 {
        [' ', ' ', ' ', ' ', '\\', ' ', ' ', '\\', ' ', ' ', ' ', ' ', ' ', ' ', '/', ' ', '/', ' ', ' ', ' ', ' ', ' ']
    } else if r == 6 {
        [' ', ' ', ' ', ' ', ' ', '\'', '-', '.', '\'', '-', '-', '-', '-', '\'', '.', '-', '\'', ' ', ' ', ' ', ' ', ' ']
    } else {
        [' ', ' ', ' ', ' ', ' ', ' ', ' ', '/', '_', '/', ' ', ' ', '\\', '_', '\\', ' ', ' ', ' ', ' ', ' ', ' ', ' ']
    };
    row
}

/// The colours of the 2D mouse: eyes in the highlight, outline strokes in the
/// shade, and the rest of the body in the body colour.
pub open spec fn art_color(ch: char, body: Color, shade: Color, highlight: Color) -> Color {
    if ch == 'O' || ch == 'o' {
        highlight
    } else if ch == '\'' || ch == '.' || ch == '_' || ch == '-' {
        shade
    } else {
        body
    }
}

/// The mouse's colours: lit in the waveform's and texture's particle colours
/// while `gate_open`, gray otherwise.
#[derive(Clone, Copy, Debug, PartialEq, Eq, Structural)]
pub struct MousePalette {
    pub body: Color,
    pub shade: Color,
    pub highlight: Color,
    pub eye: char,
}

pub open spec fn spec_mouse_palette(gate_open: bool, waveform: Waveform, texture: NoiseTexture) -> MousePalette {
    if gate_open {
        MousePalette {
            body: spec_particle_color(waveform.spec_color_index()),
            shade: spec_particle_color(spec_texture_color_index(texture, waveform)),
            highlight: Color::White,
            eye: 'O',
        }
    } else {
        MousePalette { body: Color::Gray, shade: Color::DarkGray, highlight: Color::Gray, eye: 'o' }
    }
}

/// Column `c` of art row `r`, drawn with the art's corner at `(x0, y0)`; blanks draw nothing.
pub open spec fn art_cell_plots(x0: int, y0: int, r: int, c: int, tail_right: bool, p: MousePalette) -> Seq<Plot> {
    let ch = art_row(r, tail_right, p.eye)[c];
    if ch == ' ' {
        seq![]
    } else {
        seq![
            Plot {
                x: (x0 + c) as i32,
                y: (y0 + r) as i32,
                ch,
                color: art_color(ch, p.body, p.shade, p.highlight),
            },
        ]
    }
}

pub open spec fn art_row_plots(x0: int, y0: int, r: int, tail_right: bool, p: MousePalette) -> Seq<Plot> {
    concat_range(art_cells_fn(x0, y0, r, tail_right, p), 0, 22)
}

pub open spec fn art_cells_fn(x0: int, y0: int, r: int, tail_right: bool, p: MousePalette) -> spec_fn(int) -> Seq<Plot> {
    |c: int| art_cell_plots(x0, y0, r, c, tail_right, p)
}

pub open spec fn art_rows_fn(x0: int, y0: int, tail_right: bool, p: MousePalette) -> spec_fn(int) -> Seq<Plot> {
    |r: int| art_row_plots(x0, y0, r, tail_right, p)
}

/// The 2D mouse centred at `(cx, cy)`, moved down by `bob` rows: a 22 x 8 piece
/// of terminal art whose corner is at `(cx - 11, cy - 4 + bob)`.
pub open spec fn spec_center_plots(cx: i32, cy: i32, bob: i32, tail_right: bool, p: MousePalette) -> Seq<Plot> {
    concat_range(art_rows_fn(cx - 11, cy - 4 + bob, tail_right, p), 0, 8)
}

/// The mouse's colours for the current controls.
pub fn mouse_palette(app: &App) -> (p: MousePalette)
    ensures
        p == spec_mouse_palette(app.gate_open, app.waveform, app.noise_texture),
{
    if app.gate_open {
        MousePalette {
            body: particle_color(app.waveform.next_color_index()),
            shade: particle_color(app.texture_color_index()),
            highlight: Color::White,
            eye: 'O',
        }
    } else {
        MousePalette { body: Color::Gray, shade: Color::DarkGray, highlight: Color::Gray, eye: 'o' }
    }
}

/// The plots of the 2D mouse centred at `(cx, cy)`, moved down by `bob` rows.
pub fn center_plots(cx: i32, cy: i32, bob: i32, tail_right: bool, p: MousePalette) -> (plots: Vec<Plot>)
    requires
        0 <= cx <= u16::MAX,
        0 <= cy <= u16::MAX,
        i32::MIN <= cy - 4 + bob,
        cy - 4 + bob + 7 <= i32::MAX,
    ensures
        plots@ == spec_center_plots(cx, cy, bob, tail_right, p),
{
    let start_x = cx - 11;
    let start_y = cy - 4 + bob;
    let ghost rows_fn = art_rows_fn(start_x as int, start_y as int, tail_right, p);
    let mut plots: Vec<Plot> = Vec::new();
    let mut r: usize = 0;
    while r < 8
        invariant
            r <= 8,
            start_x == cx - 11,
            0 <= cx <= u16::MAX,
            start_y == cy - 4 + bob,
            start_y + 7 <= i32::MAX,
            rows_fn == art_rows_fn(start_x as int, start_y as int, tail_right, p),
            plots@ == concat_range(rows_fn, 0, r as int),
        decreases 8 - r,
    {
        let row = art_row_chars(r, tail_right, p.eye);
        let ghost base = plots@;
        let ghost cells_fn = art_cells_fn(start_x as int, start_y as int, r as int, tail_right, p);
        let mut c: usize = 0;
        while c < 22
            invariant
                c <= 22,
                r < 8,
                start_x == cx - 11,
                0 <= cx <= u16::MAX,
                start_y + 7 <= i32::MAX,
                row@ == art_row(r as int, tail_right, p.eye),
                cells_fn == art_cells_fn(start_x as int, start_y as int, r as int, tail_right, p),
                plots@ == base + concat_range(cells_fn, 0, c as int),
            decreases 22 - c,
        {
            let ch = row[c];
            if ch != ' ' {
                let color = if ch == 'O' || ch == 'o' {
                    p.highlight
                } else if ch == '\'' || ch == '.' || ch == '_' || ch == '-' {
                    p.shade
                } else {
                    p.body
                };
                plots.push(
                    Plot { x: start_x + c as i32, y: start_y + r as i32, ch, color },
                );
            }
            c = c + 1;
        }
        r = r + 1;
    }
    plots
}

} // verus!
