use vstd::prelude::*;

use crate::canvas::{concat_range, Plot};
use crate::notes::{div_toward_zero, rem_toward_zero};
use crate::raster::Color;
use crate::scene::{hash_cell, spec_hash_cell};
use crate::sprites::abs;

verus! {

pub open spec fn in_i32(v: int) -> bool {
    i32::MIN <= v <= i32::MAX
}

/// The scatter value of column `x` of a rain sheet.
pub open spec fn sheet_lane(x: int, foreground: bool) -> u32 {
    spec_hash_cell(
        x as i32,
        if foreground {
            43i32
        } else {
            17i32
        },
        11,
    )
}

/// Whether column `x` carries a streak: its lane, modulo 100, is below the density.
pub open spec fn sheet_active(x: int, foreground: bool, density: i32) -> bool {
    (sheet_lane(x, foreground) % 100) < density
}

/// Streaks in the foreground sheet are up to 4 cells long, in the background up to 6.
pub open spec fn sheet_max_tail(foreground: bool) -> int {
    if foreground {
        3
    } else {
        5
    }
}

/// The row of the head of the streak in column `x`, wrapping around the height.
pub open spec fn sheet_head(x: int, foreground: bool, fall: i32, height: i32) -> int {
    ((sheet_lane(x, foreground) as i32) + fall + x / 3) % (height as int)
}

/// Whether the arithmetic of column `x` stays within `i32`.
pub open spec fn sheet_column_fits(x: int, foreground: bool, fall: i32, slant: i32) -> bool {
    &&& in_i32((sheet_lane(x, foreground) as i32) + fall)
    &&& in_i32((sheet_lane(x, foreground) as i32) + fall + x / 3)
    &&& forall|t: int|
        0 <= t < 2 + sheet_lane(x, foreground) % (sheet_max_tail(foreground) as u32) ==> {
            &&& in_i32(#[trigger] (slant * t))
            &&& in_i32(x - div_toward_zero(slant * t, 2))
        }
}

/// Every active column of the sheet stays within `i32`.
pub open spec fn sheet_fits(width: i32, foreground: bool, fall: i32, density: i32, slant: i32) -> bool {
    forall|x: int|
        0 <= x < width && #[trigger] sheet_active(x, foreground, density) ==> sheet_column_fits(
            x,
            foreground,
            fall,
            slant,
        )
}

/// Cell `t` of the streak in column `x`: the head (an exclamation mark in white
/// on one lane in eleven of the foreground), then the tail up and to the left
/// by `slant / 2` cells per row.
pub open spec fn sheet_plot(x: int, t: int, foreground: bool, fall: i32, slant: i32, height: i32) -> Plot {
    let lane = sheet_lane(x, foreground);
    let glint = foreground && t == 0 && lane % 11 == 0;
    Plot {
        x: (x - div_toward_zero(slant * t, 2)) as i32,
        y: (sheet_head(x, foreground, fall, height) - t) as i32,
        ch: if foreground {
            if glint {
                '!'
            } else {
                '|'
            }
        } else if t < 2 {
            '|'
        } else {
            '\''
        },
        color: if glint {
            Color::White
        } else if foreground {
            Color::Cyan
        } else if t < 2 {
            Color::Gray
        } else {
            Color::DarkGray
        },
    }
}

pub open spec fn sheet_column(
    x: int,
    foreground: bool,
    fall: i32,
    density: i32,
    slant: i32,
    height: i32,
) -> Seq<Plot> {
    if sheet_active(x, foreground, density) {
        Seq::new(
            (2 + sheet_lane(x, foreground) % (sheet_max_tail(foreground) as u32)) as nat,
            |t: int| sheet_plot(x, t, foreground, fall, slant, height),
        )
    } else {
        seq![]
    }
}

pub open spec fn sheet_columns(
    foreground: bool,
    fall: i32,
    density: i32,
    slant: i32,
    height: i32,
) -> spec_fn(int) -> Seq<Plot> {
    |x: int| sheet_column(x, foreground, fall, density, slant, height)
}

/// A sheet of rain over a `width` x `height` canvas: a streak in each active
/// column, left to right.
pub open spec fn spec_rain_sheet_plots(
    width: i32,
    height: i32,
    fall: i32,
    density: i32,
    slant: i32,
    foreground: bool,
) -> Seq<Plot> {
    concat_range(sheet_columns(foreground, fall, density, slant, height), 0, width as int)
}

/// The plots of one rain sheet; `fall` scrolls the streaks down, `density` is
/// the percentage of columns that carry one, and `slant` leans the tails.
/// `None` when the arithmetic of some active column leaves `i32`.
pub fn rain_sheet_plots(
    width: i32,
    height: i32,
    fall: i32,
    density: i32,
    slant: i32,
    foreground: bool,
) -> (plots: Option<Vec<Plot>>)
    requires
        1 <= width <= u16::MAX,
        1 <= height <= u16::MAX,
    ensures
        plots is Some <==> sheet_fits(width, foreground, fall, density, slant),
        plots matches Some(p) ==> p@ == spec_rain_sheet_plots(
            width,
            height,
            fall,
            density,
            slant,
            foreground,
        ),
{
    let max_tail: u32 = if foreground {
        3
    } else {
        5
    };
    let ghost cols = sheet_columns(foreground, fall, density, slant, height);
    let mut plots: Vec<Plot> = Vec::new();
    let mut x: i32 = 0;
    while x < width
        invariant
            0 <= x <= width,
            width <= u16::MAX,
            1 <= height <= u16::MAX,
            max_tail == sheet_max_tail(foreground),
            forall|z: int|
                0 <= z < x && #[trigger] sheet_active(z, foreground, density) ==> sheet_column_fits(
                    z,
                    foreground,
                    fall,
                    slant,
                ),
            cols == sheet_columns(foreground, fall, density, slant, height),
            plots@ == concat_range(cols, 0, x as int),
        decreases width - x,
    {
        let lane = hash_cell(
            x,
            if foreground {
                43
            } else {
                17
            },
            11,
        );
        let ghost base = plots@;
        if ((lane % 100) as i32) < density {
            assert(sheet_active(x as int, foreground, density));
            let head = match (lane as i32).checked_add(fall) {
                Some(v) => match v.checked_add(x / 3) {
                    Some(w) => w,
                    None => {
                        return None;
                    },
                },
                None => {
                    return None;
                },
            };
            let base_y = match head.checked_rem_euclid(height) {
                Some(v) => v,
                None => 0,
            };
            let tail_len = 2 + (lane % max_tail) as i32;
            let mut tail: i32 = 0;
            while tail < tail_len
                invariant
                    0 <= tail <= tail_len,
                    tail_len == 2 + lane % max_tail,
                    lane == sheet_lane(x as int, foreground),
                    max_tail == sheet_max_tail(foreground),
                    sheet_active(x as int, foreground, density),
                    in_i32((sheet_lane(x as int, foreground) as i32) + fall),
                    in_i32((sheet_lane(x as int, foreground) as i32) + fall + x / 3),
                    forall|t: int|
                        0 <= t < tail ==> {
                            &&& in_i32(#[trigger] (slant * t))
                            &&& in_i32(x - div_toward_zero(slant * t, 2))
                        },
                    base_y == sheet_head(x as int, foreground, fall, height),
                    0 <= base_y < height,
                    0 <= x < width,
                    width <= u16::MAX,
                    plots@ == base + Seq::new(
                        tail as nat,
                        |t: int| sheet_plot(x as int, t, foreground, fall, slant, height),
                    ),
                decreases tail_len - tail,
            {
                let shift = match slant.checked_mul(tail) {
                    Some(v) => v,
                    None => {
                        return None;
                    },
                };
                let px = match x.checked_sub(shift / 2) {
                    Some(v) => v,
                    None => {
                        return None;
                    },
                };
                let py = base_y - tail;
                let glint = foreground && tail == 0 && lane % 11 == 0;
                let ch = if foreground {
                    if glint {
                        '!'
                    } else {
                        '|'
                    }
                } else if tail < 2 {
                    '|'
                } else {
                    '\''
                };
                let color = if glint {
                    Color::White
                } else if foreground {
                    Color::Cyan
                } else if tail < 2 {
                    Color::Gray
                } else {
                    Color::DarkGray
                };
                plots.push(Plot { x: px, y: py, ch, color });
                proof {
                    assert(plots@ =~= base + Seq::new(
                        (tail + 1) as nat,
                        |t: int| sheet_plot(x as int, t, foreground, fall, slant, height),
                    ));
                }
                tail = tail + 1;
            }
        }
        x = x + 1;
    }
    Some(plots)
}

} // verus!

verus! {

/// The scatter value of the streak `dx` columns from the mouse's centre.
pub open spec fn hit_lane(cx: int, dx: int) -> u32 {
    spec_hash_cell((cx + dx) as i32, 91, 7)
}

pub open spec fn hit_active(cx: int, dx: int, density: i32) -> bool {
    (hit_lane(cx, dx) % 100) < density
}

/// Whether the streak arithmetic of every active lane stays within `i32`.
pub open spec fn hits_fit(cx: i32, fall: i32, density: i32, slant: i32, phase: i32) -> bool {
    &&& forall|dx: int|
        -16 <= dx <= 16 && #[trigger] hit_active(cx as int, dx, density) ==> {
            &&& in_i32((hit_lane(cx as int, dx) as i32) + fall)
            &&& in_i32(slant * 3)
        }
    &&& in_i32(phase + 45)
}

/// Cell `t` of the streak falling onto the mouse `dx` columns from its centre.
pub open spec fn hit_plot(cx: int, cy: int, dx: int, t: int, fall: i32, slant: i32) -> Plot {
    let lane = hit_lane(cx, dx);
    let glint = t == 0 && lane % 13 == 0;
    Plot {
        x: (cx + dx - div_toward_zero(slant * t, 2)) as i32,
        y: (cy - 9 + (((lane as i32) + fall) % 18) - t) as i32,
        ch: if glint {
            '!'
        } else {
            '|'
        },
        color: if glint {
            Color::White
        } else {
            Color::Gray
        },
    }
}

pub open spec fn hit_streak(cx: int, cy: int, fall: i32, density: i32, slant: i32) -> spec_fn(int) -> Seq<Plot> {
    |dx: int|
        if hit_active(cx, dx, density) {
            Seq::new(4, |t: int| hit_plot(cx, cy, dx, t, fall, slant))
        } else {
            seq![]
        }
}

/// The splash ring phase of column `dx` around the mouse.
pub open spec fn splash_phase(phase: i32, dx: int) -> int {
    rem_toward_zero(phase + abs(dx) * 3, 13)
}

pub open spec fn splash(cx: int, cy: int, phase: i32) -> spec_fn(int) -> Seq<Plot> {
    |dx: int|
        if splash_phase(phase, dx) < 4 {
            seq![
                Plot {
                    x: (cx + dx) as i32,
                    y: (cy + 5 + if abs(dx) % 3 == 0 {
                        1int
                    } else {
                        0
                    }) as i32,
                    ch: if splash_phase(phase, dx) < 2 {
                        'o'
                    } else {
                        '_'
                    },
                    color: Color::Gray,
                },
            ] + if abs(dx) < 8 {
                seq![
                    Plot {
                        x: (cx + div_toward_zero(dx, 2)) as i32,
                        y: (cy - 6) as i32,
                        ch: '*',
                        color: Color::White,
                    },
                    Plot {
                        x: (cx + div_toward_zero(dx, 2)) as i32,
                        y: (cy + 3) as i32,
                        ch: ',',
                        color: Color::White,
                    },
                ]
            } else {
                seq![]
            }
        } else {
            seq![]
        }
}

/// Rain on the mouse: four-cell streaks in the lanes 16 columns either side of
/// its centre, then splashes around its feet and sparks on its head.
pub open spec fn spec_mouse_rain_hit_plots(
    cx: i32,
    cy: i32,
    fall: i32,
    density: i32,
    slant: i32,
    phase: i32,
) -> Seq<Plot> {
    concat_range(hit_streak(cx as int, cy as int, fall, density, slant), -16, 33) + concat_range(
        splash(cx as int, cy as int, phase),
        -15,
        31,
    )
}

/// The plots of rain falling on the mouse centred at `(cx, cy)`; `None` when
/// the streak arithmetic leaves `i32`.
pub fn mouse_rain_hit_plots(
    cx: i32,
    cy: i32,
    fall: i32,
    density: i32,
    slant: i32,
    phase: i32,
) -> (plots: Option<Vec<Plot>>)
    requires
        0 <= cx <= u16::MAX,
        0 <= cy <= u16::MAX,
    ensures
        plots is Some <==> hits_fit(cx, fall, density, slant, phase),
        plots matches Some(p) ==> p@ == spec_mouse_rain_hit_plots(cx, cy, fall, density, slant, phase),
{
    let ghost streaks = hit_streak(cx as int, cy as int, fall, density, slant);
    let ghost splashes = splash(cx as int, cy as int, phase);
    let mut plots: Vec<Plot> = Vec::new();
    let mut dx: i32 = -16;
    while dx <= 16
        invariant
            -16 <= dx <= 17,
            0 <= cx <= u16::MAX,
            0 <= cy <= u16::MAX,
            forall|z: int|
                -16 <= z < dx && #[trigger] hit_active(cx as int, z, density) ==> {
                    &&& in_i32((hit_lane(cx as int, z) as i32) + fall)
                    &&& in_i32(slant * 3)
                },
            streaks == hit_streak(cx as int, cy as int, fall, density, slant),
            plots@ == concat_range(streaks, -16, dx + 16),
        decreases 17 - dx,
    {
        let lane = hash_cell(cx + dx, 91, 7);
        let ghost base = plots@;
        if ((lane % 100) as i32) < density {
            assert(hit_active(cx as int, dx as int, density));
            let head = match (lane as i32).checked_add(fall) {
                Some(v) => v,
                None => {
                    return None;
                },
            };
            let base_y = cy - 9 + match head.checked_rem_euclid(18) {
                Some(v) => v,
                None => 0,
            };
            let mut tail: i32 = 0;
            while tail < 4
                invariant
                    0 <= tail <= 4,
                    lane == hit_lane(cx as int, dx as int),
                    base_y == cy - 9 + (((lane as i32) + fall) % 18),
                    in_i32((hit_lane(cx as int, dx as int) as i32) + fall),
                    hit_active(cx as int, dx as int, density),
                    tail == 4 ==> in_i32(slant * 3),
                    -16 <= dx <= 16,
                    0 <= cx <= u16::MAX,
                    0 <= cy <= u16::MAX,
                    plots@ == base + Seq::new(
                        tail as nat,
                        |t: int| hit_plot(cx as int, cy as int, dx as int, t, fall, slant),
                    ),
                decreases 4 - tail,
            {
                let shift = match slant.checked_mul(tail) {
                    Some(v) => v,
                    None => {
                        assert(!in_i32(slant * 3)) by (nonlinear_arith)
                            requires
                                0 <= tail < 4,
                                !in_i32(slant * tail),
                        ;
                        return None;
                    },
                };
                let glint = tail == 0 && lane % 13 == 0;
                plots.push(
                    Plot {
                        x: cx + dx - shift / 2,
                        y: base_y - tail,
                        ch: if glint {
                            '!'
                        } else {
                            '|'
                        },
                        color: if glint {
                            Color::White
                        } else {
                            Color::Gray
                        },
                    },
                );
                proof {
                    assert(plots@ =~= base + Seq::new(
                        (tail + 1) as nat,
                        |t: int| hit_plot(cx as int, cy as int, dx as int, t, fall, slant),
                    ));
                }
                tail = tail + 1;
            }
        }
        dx = dx + 1;
    }
    if phase.checked_add(45).is_none() {
        return None;
    }
    let ghost part1 = plots@;
    let mut dx: i32 = -15;
    while dx <= 15
        invariant
            -15 <= dx <= 16,
            0 <= cx <= u16::MAX,
            0 <= cy <= u16::MAX,
            in_i32(phase + 45),
            splashes == splash(cx as int, cy as int, phase),
            plots@ == part1 + concat_range(splashes, -15, dx + 15),
        decreases 16 - dx,
    {
        let adx = if dx < 0 {
            -dx
        } else {
            dx
        };
        let ph = (phase + adx * 3) % 13;
        if ph < 4 {
            plots.push(
                Plot {
                    x: cx + dx,
                    y: cy + 5 + if adx % 3 == 0 {
                        1
                    } else {
                        0
                    },
                    ch: if ph < 2 {
                        'o'
                    } else {
                        '_'
                    },
                    color: Color::Gray,
                },
            );
            if adx < 8 {
                plots.push(Plot { x: cx + dx / 2, y: cy - 6, ch: '*', color: Color::White });
                plots.push(Plot { x: cx + dx / 2, y: cy + 3, ch: ',', color: Color::White });
            }
        }
        dx = dx + 1;
    }
    Some(plots)
}

} // verus!

verus! {

/// Where the gust in row `row` starts along its 18-cell cycle.
pub open spec fn wind_offset(drift: i32, row: int) -> int {
    (drift + row * 5) % 18
}

/// Whether row `row` of the gust stays within `i32`.
pub open spec fn wind_row_fits(drift: i32, force: i32, row: int) -> bool {
    &&& in_i32(drift + row * 5)
    &&& force > 0 ==> (force - 1) * 5 + wind_offset(drift, row) <= i32::MAX
}

pub open spec fn wind_fits(drift: i32, force: i32) -> bool {
    forall|row: int| -5 <= row <= 5 ==> #[trigger] wind_row_fits(drift, force, row)
}

/// Gust mark `index` of row `row`: an arrow (near the middle rows) or a wave,
/// trailed by a dash on every other mark.
pub open spec fn wind_mark(cx: int, cy: int, drift: i32, row: int, index: int) -> Seq<Plot> {
    let x = cx - 18 + ((wind_offset(drift, row) + index * 5) % 36);
    seq![
        Plot {
            x: x as i32,
            y: (cy + row) as i32,
            ch: if abs(row) < 2 {
                '>'
            } else {
                '~'
            },
            color: Color::Green,
        },
    ] + if index % 2 == 0 {
        seq![Plot { x: (x - 1) as i32, y: (cy + row) as i32, ch: '-', color: Color::Gray }]
    } else {
        seq![]
    }
}

pub open spec fn wind_marks(cx: int, cy: int, drift: i32, row: int) -> spec_fn(int) -> Seq<Plot> {
    |index: int| wind_mark(cx, cy, drift, row, index)
}

pub open spec fn wind_rows(cx: int, cy: int, drift: i32, force: i32) -> spec_fn(int) -> Seq<Plot> {
    |row: int| concat_range(wind_marks(cx, cy, drift, row), 0, force as int)
}

/// Wind across the mouse: `force` marks in each of the 11 rows around its
/// centre, drifting right with `drift` and wrapping over 36 columns.
pub open spec fn spec_mouse_wind_hit_plots(cx: i32, cy: i32, drift: i32, force: i32) -> Seq<Plot> {
    concat_range(wind_rows(cx as int, cy as int, drift, force), -5, 11)
}

/// The plots of wind blowing across the mouse centred at `(cx, cy)`; `None`
/// when the gust arithmetic leaves `i32`.
pub fn mouse_wind_hit_plots(cx: i32, cy: i32, drift: i32, force: i32) -> (plots: Option<Vec<Plot>>)
    requires
        0 <= cx <= u16::MAX,
        0 <= cy <= u16::MAX,
    ensures
        plots is Some <==> wind_fits(drift, force),
        plots matches Some(p) ==> p@ == spec_mouse_wind_hit_plots(cx, cy, drift, force),
{
    let ghost rows = wind_rows(cx as int, cy as int, drift, force);
    let mut plots: Vec<Plot> = Vec::new();
    let mut row: i32 = -5;
    while row <= 5
        invariant
            -5 <= row <= 6,
            0 <= cx <= u16::MAX,
            0 <= cy <= u16::MAX,
            forall|r: int| -5 <= r < row ==> #[trigger] wind_row_fits(drift, force, r),
            rows == wind_rows(cx as int, cy as int, drift, force),
            plots@ == concat_range(rows, -5, row + 5),
        decreases 6 - row,
    {
        let y = cy + row;
        let offset = match drift.checked_add(row * 5) {
            Some(v) => match v.checked_rem_euclid(18) {
                Some(r) => r,
                None => 0,
            },
            None => {
                assert(!wind_row_fits(drift, force, row as int));
                return None;
            },
        };
        if force > 0 {
            match (force - 1).checked_mul(5) {
                Some(v) => {
                    if v.checked_add(offset).is_none() {
                        assert(!wind_row_fits(drift, force, row as int));
                        return None;
                    }
                },
                None => {
                    assert(!wind_row_fits(drift, force, row as int));
                    return None;
                },
            }
        }
        let ghost base = plots@;
        let ghost marks = wind_marks(cx as int, cy as int, drift, row as int);
        let mut index: i32 = 0;
        while index < force
            invariant
                0 <= index,
                force > 0 ==> index <= force,
                force <= 0 ==> index == 0,
                -5 <= row <= 5,
                0 <= cx <= u16::MAX,
                0 <= cy <= u16::MAX,
                y == cy + row,
                offset == wind_offset(drift, row as int),
                0 <= offset < 18,
                wind_row_fits(drift, force, row as int),
                marks == wind_marks(cx as int, cy as int, drift, row as int),
                plots@ == base + concat_range(marks, 0, index as int),
            decreases force - index,
        {
            let x = cx - 18 + ((offset + index * 5) % 36);
            let ady = if row < 0 {
                -row
            } else {
                row
            };
            let ch = if ady < 2 {
                '>'
            } else {
                '~'
            };
            plots.push(Plot { x, y, ch, color: Color::Green });
            if index % 2 == 0 {
                plots.push(Plot { x: x - 1, y, ch: '-', color: Color::Gray });
            }
            index = index + 1;
        }
        proof {
            assert(concat_range(rows, -5, row + 6) == concat_range(rows, -5, row + 5) + rows(
                row as int,
            ));
        }
        row = row + 1;
    }
    Some(plots)
}

} // verus!

verus! {

/// The scatter value of the contact streak `dx` columns from the mouse's centre.
pub open spec fn contact_lane(cx: int, dx: int) -> u32 {
    spec_hash_cell((cx + dx) as i32, 121, 19)
}

/// About 69 lanes in 100 carry a streak that lands on the mouse.
pub open spec fn contact_active(cx: int, dx: int) -> bool {
    contact_lane(cx, dx) % 100 <= 68
}

pub open spec fn contact_fits(cx: i32, fall: i32, shimmer: i32) -> bool {
    &&& forall|dx: int|
        -13 <= dx <= 13 && #[trigger] contact_active(cx as int, dx) ==> {
            &&& in_i32((contact_lane(cx as int, dx) as i32) + fall)
            &&& in_i32((contact_lane(cx as int, dx) as i32) + fall + abs(dx))
        }
    &&& in_i32(shimmer + 10)
}

/// The streak landing on the mouse `dx` columns from its centre: a drop just
/// above the body while the streak has reached it, the impact on the body, and
/// on one lane in seven a splash to either side.
pub open spec fn contact_streak(cx: int, cy: int, fall: i32, dx: int) -> Seq<Plot> {
    let lane = contact_lane(cx, dx);
    let top = cy - 7 + (((lane as i32) + fall + abs(dx)) % 5);
    let contact = cy + crate::scene::contact_depth(dx);
    if !contact_active(cx, dx) {
        seq![]
    } else {
        (if top <= contact {
            seq![Plot { x: (cx + dx) as i32, y: (contact - 1) as i32, ch: '|', color: Color::Gray }]
        } else {
            seq![]
        }) + seq![
            Plot {
                x: (cx + dx) as i32,
                y: contact as i32,
                ch: if lane % 9 == 0 {
                    '*'
                } else if lane % 3 == 0 {
                    '.'
                } else {
                    '\''
                },
                color: if lane % 9 == 0 {
                    Color::White
                } else {
                    Color::Gray
                },
            },
        ] + if lane % 7 == 0 {
            seq![
                Plot { x: (cx + dx - 1) as i32, y: contact as i32, ch: '.', color: Color::Gray },
                Plot { x: (cx + dx + 1) as i32, y: contact as i32, ch: '.', color: Color::Gray },
            ]
        } else {
            seq![]
        }
    }
}

pub open spec fn contact_streaks(cx: int, cy: int, fall: i32) -> spec_fn(int) -> Seq<Plot> {
    |dx: int| contact_streak(cx, cy, fall, dx)
}

/// The five glints on the mouse's back, as offsets from its centre.
pub open spec fn glint_offset(k: int) -> (int, int) {
    if k == 0 {
        (-8, -5)
    } else if k == 1 {
        (-3, -7)
    } else if k == 2 {
        (2, -6)
    } else if k == 3 {
        (7, -4)
    } else {
        (10, -1)
    }
}

/// Glint `k` is lit for two frames in four.
pub open spec fn glint(cx: int, cy: int, shimmer: i32) -> spec_fn(int) -> Seq<Plot> {
    |k: int|
        if rem_toward_zero(shimmer + abs(glint_offset(k).0), 4) < 2 {
            seq![
                Plot {
                    x: (cx + glint_offset(k).0) as i32,
                    y: (cy + glint_offset(k).1) as i32,
                    ch: '.',
                    color: Color::White,
                },
            ]
        } else {
            seq![]
        }
}

/// Rain meeting the mouse's body in the 13 lanes either side of its centre,
/// then the glints on its back.
pub open spec fn spec_contact_rain_plots(cx: i32, cy: i32, fall: i32, shimmer: i32) -> Seq<Plot> {
    concat_range(contact_streaks(cx as int, cy as int, fall), -13, 27) + concat_range(
        glint(cx as int, cy as int, shimmer),
        0,
        5,
    )
}

/// The plots of rain landing on the mouse centred at `(cx, cy)`; `None` when
/// the streak arithmetic leaves `i32`.
pub fn contact_rain_plots(cx: i32, cy: i32, fall: i32, shimmer: i32) -> (plots: Option<Vec<Plot>>)
    requires
        0 <= cx <= u16::MAX,
        0 <= cy <= u16::MAX,
    ensures
        plots is Some <==> contact_fits(cx, fall, shimmer),
        plots matches Some(p) ==> p@ == spec_contact_rain_plots(cx, cy, fall, shimmer),
{
    let ghost streaks = contact_streaks(cx as int, cy as int, fall);
    let ghost glints = glint(cx as int, cy as int, shimmer);
    let mut plots: Vec<Plot> = Vec::new();
    let mut dx: i32 = -13;
    while dx <= 13
        invariant
            -13 <= dx <= 14,
            0 <= cx <= u16::MAX,
            0 <= cy <= u16::MAX,
            forall|z: int|
                -13 <= z < dx && #[trigger] contact_active(cx as int, z) ==> {
                    &&& in_i32((contact_lane(cx as int, z) as i32) + fall)
                    &&& in_i32((contact_lane(cx as int, z) as i32) + fall + abs(z))
                },
            streaks == contact_streaks(cx as int, cy as int, fall),
            plots@ == concat_range(streaks, -13, dx + 13),
        decreases 14 - dx,
    {
        let lane = hash_cell(cx + dx, 121, 19);
        if lane % 100 > 68 {
            dx = dx + 1;
            continue;
        }
        assert(contact_active(cx as int, dx as int));
        let adx = if dx < 0 {
            -dx
        } else {
            dx
        };
        let sum = match (lane as i32).checked_add(fall) {
            Some(v) => match v.checked_add(adx) {
                Some(w) => w,
                None => {
                    return None;
                },
            },
            None => {
                return None;
            },
        };
        let top = cy - 7 + match sum.checked_rem_euclid(5) {
            Some(r) => r,
            None => 0,
        };
        let contact = crate::scene::mouse_contact_y(dx, cy);
        if top <= contact {
            plots.push(Plot { x: cx + dx, y: contact - 1, ch: '|', color: Color::Gray });
        }
        let impact = if lane % 9 == 0 {
            '*'
        } else if lane % 3 == 0 {
            '.'
        } else {
            '\''
        };
        let impact_color = if lane % 9 == 0 {
            Color::White
        } else {
            Color::Gray
        };
        plots.push(Plot { x: cx + dx, y: contact, ch: impact, color: impact_color });
        if lane % 7 == 0 {
            plots.push(Plot { x: cx + dx - 1, y: contact, ch: '.', color: Color::Gray });
            plots.push(Plot { x: cx + dx + 1, y: contact, ch: '.', color: Color::Gray });
        }
        dx = dx + 1;
    }
    if shimmer.checked_add(10).is_none() {
        return None;
    }
    let offsets: [(i32, i32); 5] = [(-8, -5), (-3, -7), (2, -6), (7, -4), (10, -1)];
    let ghost part1 = plots@;
    let mut k: usize = 0;
    while k < 5
        invariant
            k <= 5,
            0 <= cx <= u16::MAX,
            0 <= cy <= u16::MAX,
            in_i32(shimmer + 10),
            forall|j: int| 0 <= j < 5 ==> #[trigger] offsets@[j] == (glint_offset(j).0 as i32, glint_offset(j).1 as i32),
            glints == glint(cx as int, cy as int, shimmer),
            plots@ == part1 + concat_range(glints, 0, k as int),
        decreases 5 - k,
    {
        let (dx, dy) = offsets[k];
        let adx = if dx < 0 {
            -dx
        } else {
            dx
        };
        if (shimmer + adx) % 4 < 2 {
            plots.push(Plot { x: cx + dx, y: cy + dy, ch: '.', color: Color::White });
        }
        k = k + 1;
    }
    Some(plots)
}

/// The row the splashes sit on: eight below the centre, but at least two above the bottom.
pub open spec fn floor_row(cy: int, height: int) -> int {
    if cy + 8 < height - 2 {
        cy + 8
    } else {
        height - 2
    }
}

/// A splash on every eighth column of the floor, for about a quarter of them.
pub open spec fn floor_splash(floor: int, frame: i32) -> spec_fn(int) -> Seq<Plot> {
    |k: int|
        {
            let seed = spec_hash_cell((8 * k) as i32, floor as i32, frame);
            if seed % 100 < 24 {
                seq![
                    Plot {
                        x: (8 * k) as i32,
                        y: (floor + (seed % 3) - 1) as i32,
                        ch: if seed % 2 == 0 {
                            '_'
                        } else {
                            'o'
                        },
                        color: Color::DarkGray,
                    },
                ]
            } else {
                seq![]
            }
        }
}

/// Splashes at the mouse's feet, bright near its centre.
pub open spec fn feet_splash(cx: int, floor: int, frame: i32) -> spec_fn(int) -> Seq<Plot> {
    |dx: int|
        {
            let seed = spec_hash_cell((cx + dx) as i32, floor as i32, (frame + 7) as i32);
            if seed % 100 < 32 {
                seq![
                    Plot {
                        x: (cx + dx) as i32,
                        y: (floor - (seed % 2)) as i32,
                        ch: if abs(dx) < 6 {
                            '*'
                        } else {
                            '.'
                        },
                        color: if abs(dx) < 6 {
                            Color::White
                        } else {
                            Color::Gray
                        },
                    },
                ]
            } else {
                seq![]
            }
        }
}

/// Splashes along the floor of a `width` x `height` canvas, then at the feet of
/// the mouse centred at `(cx, cy)`.
pub open spec fn spec_floor_splash_plots(width: i32, height: i32, cx: i32, cy: i32, frame: i32) -> Seq<Plot> {
    let floor = floor_row(cy as int, height as int);
    concat_range(floor_splash(floor, frame), 0, (width + 7) / 8) + concat_range(
        feet_splash(cx as int, floor, frame),
        -17,
        35,
    )
}

/// The plots of splashes on the floor; `None` when `frame + 7` leaves `i32`.
pub fn floor_splash_plots(width: i32, height: i32, cx: i32, cy: i32, frame: i32) -> (plots: Option<Vec<Plot>>)
    requires
        1 <= width <= u16::MAX,
        1 <= height <= u16::MAX,
        0 <= cx <= u16::MAX,
        0 <= cy <= u16::MAX,
    ensures
        plots is Some <==> in_i32(frame + 7),
        plots matches Some(p) ==> p@ == spec_floor_splash_plots(width, height, cx, cy, frame),
{
    let floor_y = if cy + 8 < height - 2 {
        cy + 8
    } else {
        height - 2
    };
    let ghost splashes = floor_splash(floor_y as int, frame);
    let ghost feet = feet_splash(cx as int, floor_y as int, frame);
    let mut plots: Vec<Plot> = Vec::new();
    let mut k: i32 = 0;
    while k < (width + 7) / 8
        invariant
            0 <= k <= (width + 7) / 8,
            1 <= width <= u16::MAX,
            floor_y == floor_row(cy as int, height as int),
            -1 <= floor_y <= u16::MAX + 8,
            splashes == floor_splash(floor_y as int, frame),
            plots@ == concat_range(splashes, 0, k as int),
        decreases (width + 7) / 8 - k,
    {
        let x = 8 * k;
        let seed = hash_cell(x, floor_y, frame);
        if seed % 100 < 24 {
            plots.push(
                Plot {
                    x,
                    y: floor_y + (seed % 3) as i32 - 1,
                    ch: if seed % 2 == 0 {
                        '_'
                    } else {
                        'o'
                    },
                    color: Color::DarkGray,
                },
            );
        }
        k = k + 1;
    }
    let frame7 = match frame.checked_add(7) {
        Some(v) => v,
        None => {
            return None;
        },
    };
    let ghost part1 = plots@;
    let mut dx: i32 = -17;
    while dx <= 17
        invariant
            -17 <= dx <= 18,
            0 <= cx <= u16::MAX,
            -1 <= floor_y <= u16::MAX + 8,
            frame7 == frame + 7,
            feet == feet_splash(cx as int, floor_y as int, frame),
            plots@ == part1 + concat_range(feet, -17, dx + 17),
        decreases 18 - dx,
    {
        let seed = hash_cell(cx + dx, floor_y, frame7);
        if seed % 100 < 32 {
            let adx = if dx < 0 {
                -dx
            } else {
                dx
            };
            plots.push(
                Plot {
                    x: cx + dx,
                    y: floor_y - (seed % 2) as i32,
                    ch: if adx < 6 {
                        '*'
                    } else {
                        '.'
                    },
                    color: if adx < 6 {
                        Color::White
                    } else {
                        Color::Gray
                    },
                },
            );
        }
        dx = dx + 1;
    }
    Some(plots)
}

} // verus!

verus! {

/// The drizzle character for a spark value.
pub open spec fn drizzle_char(spark: u32) -> char {
    if spark % 5 == 1 {
        ','
    } else if spark % 5 == 2 {
        '\''
    } else {
        '.'
    }
}

/// A drizzle speck at `(x, y)` when the cell's spark, modulo 180, is below `density`.
pub open spec fn drizzle_cell(y: int, frame: i32, density: i32) -> spec_fn(int) -> Seq<Plot> {
    |x: int|
        {
            let spark = spec_hash_cell(x as i32, y as i32, (frame + 29) as i32);
            if spark % 180 < density {
                seq![
                    Plot {
                        x: x as i32,
                        y: y as i32,
                        ch: drizzle_char(spark),
                        color: if spark % 13 == 0 {
                            Color::Cyan
                        } else {
                            Color::Gray
                        },
                    },
                ]
            } else {
                seq![]
            }
        }
}

pub open spec fn drizzle_rows(width: i32, frame: i32, density: i32) -> spec_fn(int) -> Seq<Plot> {
    |y: int| concat_range(drizzle_cell(y, frame, density), 0, width as int)
}

/// Fine drizzle over a `width` x `height` canvas, row by row.
pub open spec fn spec_fine_particle_plots(width: i32, height: i32, frame: i32, density: i32) -> Seq<Plot> {
    concat_range(drizzle_rows(width, frame, density), 0, height as int)
}

/// The plots of the fine drizzle; `None` when `frame + 29` leaves `i32`.
pub fn fine_particle_plots(width: i32, height: i32, frame: i32, density: i32) -> (plots: Option<Vec<Plot>>)
    requires
        1 <= width <= u16::MAX,
        1 <= height <= u16::MAX,
    ensures
        plots is Some <==> in_i32(frame + 29),
        plots matches Some(p) ==> p@ == spec_fine_particle_plots(width, height, frame, density),
{
    let seed = match frame.checked_add(29) {
        Some(v) => v,
        None => {
            return None;
        },
    };
    let ghost rows = drizzle_rows(width, frame, density);
    let mut plots: Vec<Plot> = Vec::new();
    let mut y: i32 = 0;
    while y < height
        invariant
            0 <= y <= height,
            1 <= width <= u16::MAX,
            seed == frame + 29,
            rows == drizzle_rows(width, frame, density),
            plots@ == concat_range(rows, 0, y as int),
        decreases height - y,
    {
        let ghost base = plots@;
        let ghost cells = drizzle_cell(y as int, frame, density);
        let mut x: i32 = 0;
        while x < width
            invariant
                0 <= x <= width,
                0 <= y < height,
                seed == frame + 29,
                cells == drizzle_cell(y as int, frame, density),
                plots@ == base + concat_range(cells, 0, x as int),
            decreases width - x,
        {
            let spark = hash_cell(x, y, seed);
            if ((spark % 180) as i32) < density {
                let ch = match spark % 5 {
                    0 => '.',
                    1 => ',',
                    2 => '\'',
                    _ => '.',
                };
                let color = if spark % 13 == 0 {
                    Color::Cyan
                } else {
                    Color::Gray
                };
                plots.push(Plot { x, y, ch, color });
            }
            x = x + 1;
        }
        y = y + 1;
    }
    Some(plots)
}

/// The backdrop grain of cell `(x, y)`: a faint dot or blank on about seven
/// cells in a hundred, otherwise a colon on one in 240.
pub open spec fn grain_cell(y: int, frame: i32) -> spec_fn(int) -> Seq<Plot> {
    |x: int|
        {
            let grain = spec_hash_cell(x as i32, y as i32, frame);
            if grain % 100 < 7 {
                seq![
                    Plot {
                        x: x as i32,
                        y: y as i32,
                        ch: if grain % 4 == 0 {
                            '.'
                        } else {
                            ' '
                        },
                        color: if grain % 11 == 0 {
                            Color::Gray
                        } else {
                            Color::DarkGray
                        },
                    },
                ]
            } else if grain % 240 == 0 {
                seq![Plot { x: x as i32, y: y as i32, ch: ':', color: Color::DarkGray }]
            } else {
                seq![]
            }
        }
}

pub open spec fn grain_rows(width: i32, frame: i32) -> spec_fn(int) -> Seq<Plot> {
    |y: int| concat_range(grain_cell(y, frame), 0, width as int)
}

pub open spec fn spec_backdrop_grain_plots(width: i32, height: i32, frame: i32) -> Seq<Plot> {
    concat_range(grain_rows(width, frame), 0, height as int)
}

/// The plots of the backdrop grain over a `width` x `height` canvas.
pub fn backdrop_grain_plots(width: i32, height: i32, frame: i32) -> (plots: Vec<Plot>)
    requires
        1 <= width <= u16::MAX,
        1 <= height <= u16::MAX,
    ensures
        plots@ == spec_backdrop_grain_plots(width, height, frame),
{
    let ghost rows = grain_rows(width, frame);
    let mut plots: Vec<Plot> = Vec::new();
    let mut y: i32 = 0;
    while y < height
        invariant
            0 <= y <= height,
            1 <= width <= u16::MAX,
            rows == grain_rows(width, frame),
            plots@ == concat_range(rows, 0, y as int),
        decreases height - y,
    {
        let ghost base = plots@;
        let ghost cells = grain_cell(y as int, frame);
        let mut x: i32 = 0;
        while x < width
            invariant
                0 <= x <= width,
                0 <= y < height,
                cells == grain_cell(y as int, frame),
                plots@ == base + concat_range(cells, 0, x as int),
            decreases width - x,
        {
            let grain = hash_cell(x, y, frame);
            if grain % 100 < 7 {
                let ch = if grain % 4 == 0 {
                    '.'
                } else {
                    ' '
                };
                let color = if grain % 11 == 0 {
                    Color::Gray
                } else {
                    Color::DarkGray
                };
                plots.push(Plot { x, y, ch, color });
            } else if grain % 240 == 0 {
                plots.push(Plot { x, y, ch: ':', color: Color::DarkGray });
            }
            x = x + 1;
        }
        y = y + 1;
    }
    plots
}

/// Band `band` of the backdrop: a dashed column of apostrophes at `x`, with one
/// row in three left out, staggered from band to band.
pub open spec fn band_rows(x: u16, band: int) -> spec_fn(int) -> Seq<Plot> {
    |y: int|
        if (y + band) % 3 != 0 {
            seq![Plot { x: x as i32, y: y as i32, ch: '\'', color: Color::DarkGray }]
        } else {
            seq![]
        }
}

pub open spec fn bands(xs: Seq<u16>, height: i32) -> spec_fn(int) -> Seq<Plot> {
    |band: int| concat_range(band_rows(xs[band], band), 0, height as int)
}

pub open spec fn spec_backdrop_band_plots(xs: Seq<u16>, height: i32) -> Seq<Plot> {
    concat_range(bands(xs, height), 0, xs.len() as int)
}

/// The plots of the vertical rain bands of the backdrop, one at each column in `xs`.
pub fn backdrop_band_plots(xs: &Vec<u16>, height: i32) -> (plots: Vec<Plot>)
    requires
        1 <= height <= u16::MAX,
        xs@.len() <= i32::MAX - u16::MAX,
    ensures
        plots@ == spec_backdrop_band_plots(xs@, height),
{
    let ghost bs = bands(xs@, height);
    let mut plots: Vec<Plot> = Vec::new();
    let mut band: usize = 0;
    while band < xs.len()
        invariant
            band <= xs@.len(),
            xs@.len() <= i32::MAX - u16::MAX,
            1 <= height <= u16::MAX,
            bs == bands(xs@, height),
            plots@ == concat_range(bs, 0, band as int),
        decreases xs.len() - band,
    {
        let x = xs[band];
        let ghost base = plots@;
        let ghost rows = band_rows(x, band as int);
        let mut y: i32 = 0;
        while y < height
            invariant
                0 <= y <= height,
                height <= u16::MAX,
                band < xs@.len(),
                xs@.len() <= i32::MAX - u16::MAX,
                x == xs@[band as int],
                rows == band_rows(x, band as int),
                plots@ == base + concat_range(rows, 0, y as int),
            decreases height - y,
        {
            if (y + band as i32) % 3 != 0 {
                plots.push(Plot { x: x as i32, y, ch: '\'', color: Color::DarkGray });
            }
            y = y + 1;
        }
        band = band + 1;
    }
    plots
}

/// A particle of the burst engine, placed on the canvas.
#[derive(Clone, Copy, Debug, PartialEq, Eq, Structural)]
pub struct Mark {
    pub x: u16,
    pub y: u16,
    pub bright: bool,
    pub color_index: usize,
}

/// Fresh particles are white stars; fading ones are dots in cyan or gray by colour slot.
pub open spec fn mark_plot(m: Mark) -> Plot {
    Plot {
        x: m.x as i32,
        y: m.y as i32,
        ch: if m.bright {
            '*'
        } else {
            '.'
        },
        color: if m.bright {
            Color::White
        } else if m.color_index % 2 == 0 {
            Color::Cyan
        } else {
            Color::Gray
        },
    }
}

/// The plots of the burst particles, in order.
pub fn mark_plots(marks: &Vec<Mark>) -> (plots: Vec<Plot>)
    ensures
        plots@ == marks@.map_values(|m: Mark| mark_plot(m)),
{
    let mut plots: Vec<Plot> = Vec::new();
    let mut i: usize = 0;
    while i < marks.len()
        invariant
            i <= marks@.len(),
            plots@ == marks@.take(i as int).map_values(|m: Mark| mark_plot(m)),
        decreases marks.len() - i,
    {
        let m = marks[i];
        let ch = if m.bright {
            '*'
        } else {
            '.'
        };
        let color = if m.bright {
            Color::White
        } else if m.color_index % 2 == 0 {
            Color::Cyan
        } else {
            Color::Gray
        };
        plots.push(Plot { x: m.x as i32, y: m.y as i32, ch, color });
        i = i + 1;
    }
    plots
}

} // verus!
