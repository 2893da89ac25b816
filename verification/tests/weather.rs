use ratherapia::app::{App, NoiseTexture, VisualMode, Waveform};
use ratherapia::canvas::{Canvas, Plot};
use ratherapia::rain::{
    backdrop_band_plots, contact_rain_plots, floor_splash_plots, mark_plots, mouse_wind_hit_plots,
    rain_sheet_plots, Mark,
};
use ratherapia::raster::Color;
use ratherapia::scene::{hash_cell, mouse_contact_y, particle_color};
use ratherapia::sprites::{anchor_shadow_plots, center_plots, mouse_palette, MousePalette};
use ratherapia::view::{draw_scene, SceneParams};

/// A plain grid with the terminal drawing rules of the scene: writes outside
/// the grid are dropped.
struct Grid {
    cells: Vec<Vec<char>>,
    colors: Vec<Vec<Color>>,
}

impl Grid {
    fn new(width: usize, height: usize) -> Grid {
        Grid { cells: vec![vec![' '; width]; height], colors: vec![vec![Color::DarkGray; width]; height] }
    }

    fn height(&self) -> i32 {
        self.cells.len() as i32
    }

    fn width(&self) -> i32 {
        self.cells[0].len() as i32
    }

    fn plot(&mut self, x: i32, y: i32, ch: char, color: Color) {
        if y >= 0 && x >= 0 && y < self.height() && x < self.width() {
            self.cells[y as usize][x as usize] = ch;
            self.colors[y as usize][x as usize] = color;
        }
    }
}

fn reference_backdrop(g: &mut Grid, frame: i32, band_xs: &[u16]) {
    for y in 0..g.height() {
        for x in 0..g.width() {
            let grain = hash_cell(x, y, frame);
            if grain % 100 < 7 {
                g.plot(x, y, if grain % 4 == 0 { '.' } else { ' ' }, if grain % 11 == 0 { Color::Gray } else { Color::DarkGray });
            } else if grain % 240 == 0 {
                g.plot(x, y, ':', Color::DarkGray);
            }
        }
    }
    for (band, x) in band_xs.iter().enumerate() {
        for y in 0..g.height() as usize {
            if (y + band) % 3 != 0 {
                g.plot(*x as i32, y as i32, '\'', Color::DarkGray);
            }
        }
    }
}

fn reference_drizzle(g: &mut Grid, frame: i32, density: i32) {
    for y in 0..g.height() {
        for x in 0..g.width() {
            let spark = hash_cell(x, y, frame + 29);
            if ((spark % 180) as i32) < density {
                let ch = match spark % 5 {
                    0 => '.',
                    1 => ',',
                    2 => '\'',
                    _ => '.',
                };
                g.plot(x, y, ch, if spark % 13 == 0 { Color::Cyan } else { Color::Gray });
            }
        }
    }
}

fn reference_sheet(g: &mut Grid, fall: i32, density: i32, slant: i32, foreground: bool) {
    let height = g.height();
    let max_tail = if foreground { 3 } else { 5 };
    for x in 0..g.width() {
        let lane = hash_cell(x, if foreground { 43 } else { 17 }, 11);
        if ((lane % 100) as i32) >= density {
            continue;
        }
        let base_y = (lane as i32 + fall + x / 3).rem_euclid(height.max(1));
        let tail_len = 2 + (lane % max_tail) as i32;
        for tail in 0..tail_len {
            let y = base_y - tail;
            let px = x - (slant * tail) / 2;
            let ch = if foreground {
                if tail == 0 && lane % 11 == 0 { '!' } else { '|' }
            } else if tail < 2 {
                '|'
            } else {
                '\''
            };
            let color = if foreground && tail == 0 && lane % 11 == 0 {
                Color::White
            } else if foreground {
                Color::Cyan
            } else if tail < 2 {
                Color::Gray
            } else {
                Color::DarkGray
            };
            g.plot(px, y, ch, color);
        }
    }
}

fn reference_splashes(g: &mut Grid, cx: i32, cy: i32, frame: i32) {
    let floor_y = (cy + 8).min(g.height() - 2);
    let mut x = 0;
    while x < g.width() {
        let seed = hash_cell(x, floor_y, frame);
        if seed % 100 < 24 {
            g.plot(x, floor_y + (seed % 3) as i32 - 1, if seed % 2 == 0 { '_' } else { 'o' }, Color::DarkGray);
        }
        x += 8;
    }
    for dx in -17_i32..=17 {
        let seed = hash_cell(cx + dx, floor_y, frame + 7);
        if seed % 100 < 32 {
            g.plot(
                cx + dx,
                floor_y - (seed % 2) as i32,
                if dx.abs() < 6 { '*' } else { '.' },
                if dx.abs() < 6 { Color::White } else { Color::Gray },
            );
        }
    }
}

fn reference_mouse(g: &mut Grid, cx: i32, cy: i32, bob: i32, tail_right: bool, p: MousePalette) {
    let tail = if tail_right { "___" } else { "   " };
    let left_tail = if tail_right { "   " } else { "___" };
    let eye = p.eye;
    let rows = [
        format!("{left_tail}  ()      ()   {tail}"),
        "       .-''''-.       ".to_string(),
        format!("     .'  {eye}  {eye} '.     "),
        "    /   .----.  \\    ".to_string(),
        "   |   /  __  \\  |   ".to_string(),
        "    \\  \\      / /    ".to_string(),
        "     '-.'----'.-'    ".to_string(),
        "       /_/  \\_\\      ".to_string(),
    ];
    let model_width = rows.iter().map(|row| row.len()).max().unwrap_or(0) as i32;
    let start_x = cx - model_width / 2;
    let start_y = cy - rows.len() as i32 / 2 + bob;
    for (row_index, row) in rows.iter().enumerate() {
        for (col_index, ch) in row.chars().enumerate() {
            if ch == ' ' {
                continue;
            }
            let color = match ch {
                'O' | 'o' => p.highlight,
                '\'' | '.' | '_' | '-' => p.shade,
                _ => p.body,
            };
            g.plot(start_x + col_index as i32, start_y + row_index as i32, ch, color);
        }
    }
}

fn reference_anchor(g: &mut Grid, cx: i32, cy: i32, gate_open: bool, ratty_enabled: bool) {
    let pulse = if gate_open { 2 } else { 0 };
    for dx in -11_i32..=11 {
        let edge = dx.abs();
        let ch = if edge > 9 { '.' } else if edge > 6 { '-' } else { '_' };
        g.plot(cx + dx, cy + 5 + pulse / 2, ch, Color::DarkGray);
    }
    for dy in -5_i32..=4 {
        let width = 10 - dy.abs();
        if width > 0 {
            g.plot(cx - width, cy + dy, '.', Color::DarkGray);
            g.plot(cx + width, cy + dy, '.', Color::DarkGray);
        }
    }
    if !ratty_enabled {
        let hint = "ratty 3d";
        let start = cx - hint.len() as i32 / 2;
        for (index, ch) in hint.chars().enumerate() {
            g.plot(start + index as i32, cy, ch, Color::Gray);
        }
    }
}

fn reference_hits(g: &mut Grid, cx: i32, cy: i32, fall: i32, density: i32, slant: i32, phase0: i32) {
    for dx in -16_i32..=16 {
        let lane = hash_cell(cx + dx, 91, 7);
        if ((lane % 100) as i32) >= density {
            continue;
        }
        let base_y = cy - 9 + (lane as i32 + fall).rem_euclid(18);
        for tail in 0..4 {
            let x = cx + dx - (slant * tail) / 2;
            let y = base_y - tail;
            let glint = tail == 0 && lane % 13 == 0;
            g.plot(x, y, if glint { '!' } else { '|' }, if glint { Color::White } else { Color::Gray });
        }
    }
    for dx in -15_i32..=15 {
        let phase = (phase0 + dx.abs() * 3) % 13;
        if phase < 4 {
            g.plot(cx + dx, cy + 5 + (dx.abs() % 3 == 0) as i32, if phase < 2 { 'o' } else { '_' }, Color::Gray);
            if dx.abs() < 8 {
                g.plot(cx + dx / 2, cy - 6, '*', Color::White);
                g.plot(cx + dx / 2, cy + 3, ',', Color::White);
            }
        }
    }
}

fn reference_wind(g: &mut Grid, cx: i32, cy: i32, drift: i32, force: i32) {
    for row in -5..=5 {
        let y = cy + row;
        let offset = (drift + row * 5).rem_euclid(18);
        for index in 0..force {
            let x = cx - 18 + ((offset + index * 5) % 36);
            let ch = if row.abs() < 2 { '>' } else { '~' };
            g.plot(x, y, ch, Color::Green);
            if index % 2 == 0 {
                g.plot(x - 1, y, '-', Color::Gray);
            }
        }
    }
}

fn reference_contact(g: &mut Grid, cx: i32, cy: i32, fall: i32, shimmer0: i32) {
    for dx in -13_i32..=13 {
        let lane = hash_cell(cx + dx, 121, 19);
        if lane % 100 > 68 {
            continue;
        }
        let top = cy - 7 + (lane as i32 + fall + dx.abs()).rem_euclid(5);
        let body = 5.8_f32 - (dx.abs() as f32 * 0.23).min(4.2);
        let contact = cy + body.round() as i32;
        if top <= contact {
            g.plot(cx + dx, contact - 1, '|', Color::Gray);
        }
        let impact = if lane % 9 == 0 { '*' } else if lane % 3 == 0 { '.' } else { '\'' };
        g.plot(cx + dx, contact, impact, if lane % 9 == 0 { Color::White } else { Color::Gray });
        if lane % 7 == 0 {
            g.plot(cx + dx - 1, contact, '.', Color::Gray);
            g.plot(cx + dx + 1, contact, '.', Color::Gray);
        }
    }
    for (dx, dy) in [(-8_i32, -5_i32), (-3, -7), (2, -6), (7, -4), (10, -1)] {
        let shimmer = (shimmer0 + dx.abs()) % 4;
        if shimmer < 2 {
            g.plot(cx + dx, cy + dy, '.', Color::White);
        }
    }
}

fn reference_scene(width: usize, height: usize, app: &App, p: &SceneParams) -> Grid {
    let mut g = Grid::new(width, height);
    let cx = (width / 2) as i32;
    let cy = (height / 2) as i32;
    reference_backdrop(&mut g, p.backdrop_frame, &p.band_xs);
    reference_drizzle(&mut g, p.drizzle_frame, p.drizzle_density);
    for m in &p.marks {
        let color = if m.bright {
            Color::White
        } else if m.color_index % 2 == 0 {
            Color::Cyan
        } else {
            Color::Gray
        };
        g.plot(m.x as i32, m.y as i32, if m.bright { '*' } else { '.' }, color);
    }
    reference_sheet(&mut g, p.back_fall, p.back_density, p.slant, false);
    reference_splashes(&mut g, cx, cy, p.splash_frame);
    if app.visual_mode == VisualMode::TwoD {
        reference_mouse(&mut g, cx, cy, p.bob, p.tail_right, mouse_palette(app));
    } else {
        reference_anchor(&mut g, cx, cy, app.gate_open, p.ratty_enabled);
    }
    reference_hits(&mut g, cx, cy, p.hit_fall, p.hit_density, p.slant, p.hit_phase);
    if app.noise_texture == NoiseTexture::Wind {
        reference_wind(&mut g, cx, cy, p.wind_drift, p.wind_force);
    }
    reference_sheet(&mut g, p.front_fall, p.front_density, p.slant, true);
    reference_contact(&mut g, cx, cy, p.contact_fall, p.shimmer);
    g
}

fn params(step: i32, slant: i32) -> SceneParams {
    SceneParams {
        backdrop_frame: step * 4,
        band_xs: vec![5, 20, 33, 47, 61, 74],
        drizzle_frame: step * 14,
        drizzle_density: 7,
        marks: vec![
            Mark { x: 40, y: 10, bright: true, color_index: 0 },
            Mark { x: 12, y: 3, bright: false, color_index: 2 },
            Mark { x: 70, y: 17, bright: false, color_index: 1 },
        ],
        back_fall: step * 11,
        back_density: 27,
        front_fall: step * 18,
        front_density: 6,
        slant,
        splash_frame: step * 8,
        bob: if step % 2 == 0 { 1 } else { -1 },
        tail_right: step % 3 != 0,
        ratty_enabled: step % 2 == 1,
        hit_fall: step * 16,
        hit_density: 34,
        hit_phase: step * 8,
        wind_drift: step * 7,
        wind_force: 3,
        contact_fall: step * 10,
        shimmer: step * 3,
    }
}

fn assert_matches(canvas: &Canvas, g: &Grid) {
    assert_eq!(canvas.width(), g.cells[0].len());
    assert_eq!(canvas.height(), g.cells.len());
    for y in 0..canvas.height() {
        for x in 0..canvas.width() {
            assert_eq!(canvas.get(x, y), (g.cells[y][x], g.colors[y][x]), "cell ({x}, {y})");
        }
    }
}

#[test]
fn scene_matches_reference_drawing() {
    let mut app = App::new("audio: live".to_string());
    for step in 0..12 {
        match step % 4 {
            0 => {
                app.set_noise_texture(NoiseTexture::Rain);
            }
            1 => {
                app.set_noise_texture(NoiseTexture::Wind);
                app.set_waveform(Waveform::Saw);
            }
            2 => {
                app.toggle_visual_mode();
            }
            _ => {
                app.toggle_gate();
            }
        }
        let slant = if app.noise_texture == NoiseTexture::Wind { 2 } else { 0 };
        let p = params(step, slant);
        let canvas = draw_scene(88, 18, &app, &p).expect("scene fits");
        let g = reference_scene(88, 18, &app, &p);
        assert_matches(&canvas, &g);
    }
}

#[test]
fn tiny_scene_matches_reference_drawing() {
    let mut app = App::new("audio: silent".to_string());
    app.set_noise_texture(NoiseTexture::Wind);
    let mut p = params(5, 3);
    p.band_xs = vec![0, 2];
    p.marks = vec![Mark { x: 1, y: 1, bright: true, color_index: 3 }];
    for (w, h) in [(1u16, 1u16), (3, 2), (12, 5), (30, 9)] {
        let canvas = draw_scene(w, h, &app, &p).expect("scene fits");
        let g = reference_scene(w as usize, h as usize, &app, &p);
        assert_matches(&canvas, &g);
    }
    // A zero-sized area is drawn as one cell.
    let canvas = draw_scene(0, 0, &app, &p).expect("scene fits");
    assert_eq!((canvas.width(), canvas.height()), (1, 1));
}

#[test]
fn scene_refuses_overflowing_clock() {
    let app = App::new("audio: live".to_string());
    let mut p = params(1, 0);
    p.drizzle_frame = i32::MAX;
    assert!(draw_scene(20, 10, &app, &p).is_none());
    let mut p = params(1, 0);
    p.splash_frame = i32::MAX - 3;
    assert!(draw_scene(20, 10, &app, &p).is_none());
}

#[test]
fn canvas_plots_inside_only() {
    let mut canvas = Canvas::new(4, 3, Color::DarkGray);
    assert_eq!(canvas.get(3, 2), (' ', Color::DarkGray));
    canvas.plot(1, 2, '*', Color::White);
    canvas.plot(-1, 0, 'x', Color::Red);
    canvas.plot(4, 0, 'x', Color::Red);
    canvas.plot(0, 3, 'x', Color::Red);
    assert_eq!(canvas.get(1, 2), ('*', Color::White));
    for y in 0..3 {
        for x in 0..4 {
            if (x, y) != (1, 2) {
                assert_eq!(canvas.get(x, y), (' ', Color::DarkGray));
            }
        }
    }
}

#[test]
fn canvas_last_plot_wins() {
    let mut canvas = Canvas::new(2, 2, Color::Black);
    let plots = vec![
        Plot { x: 0, y: 0, ch: 'a', color: Color::Red },
        Plot { x: 1, y: 1, ch: 'b', color: Color::Green },
        Plot { x: 0, y: 0, ch: 'c', color: Color::Blue },
    ];
    canvas.plot_all(&plots);
    assert_eq!(canvas.get(0, 0), ('c', Color::Blue));
    assert_eq!(canvas.get(1, 1), ('b', Color::Green));
    assert_eq!(canvas.get(1, 0), (' ', Color::Black));
}

#[test]
fn sheet_without_density_is_empty() {
    let plots = rain_sheet_plots(40, 10, 3, 0, 0, true).expect("fits");
    assert!(plots.is_empty());
    // Every column is active at full density: each streak has 2 to 4 cells.
    let plots = rain_sheet_plots(5, 10, 0, 100, 0, true).expect("fits");
    assert!(plots.len() >= 10 && plots.len() <= 20);
    assert!(plots.iter().all(|p| p.color == Color::Cyan || p.color == Color::White));
}

#[test]
fn sheet_column_heads() {
    // The head of column x sits at (lane + fall + x / 3) mod height.
    let plots = rain_sheet_plots(3, 7, 5, 100, 0, false).expect("fits");
    let lane = hash_cell(0, 17, 11);
    let head = (lane as i32 + 5).rem_euclid(7);
    assert_eq!(plots[0], Plot { x: 0, y: head, ch: '|', color: Color::Gray });
}

#[test]
fn splashes_refuse_overflow() {
    assert!(floor_splash_plots(10, 10, 5, 5, i32::MAX).is_none());
    assert!(floor_splash_plots(10, 10, 5, 5, i32::MAX - 7).is_some());
}

#[test]
fn wind_gusts_count() {
    let plots = mouse_wind_hit_plots(40, 10, 0, 4).expect("fits");
    // Eleven rows, each with four gusts and a dash behind every other one.
    assert_eq!(plots.len(), 11 * (4 + 2));
    assert_eq!(plots[0], Plot { x: 33, y: 5, ch: '~', color: Color::Green });
    assert_eq!(plots[1], Plot { x: 32, y: 5, ch: '-', color: Color::Gray });
}

#[test]
fn contact_rain_meets_the_body() {
    let plots = contact_rain_plots(40, 10, 0, 0).expect("fits");
    for dx in -13i32..=13 {
        let lane = hash_cell(40 + dx, 121, 19);
        if lane % 100 > 68 {
            continue;
        }
        let contact = mouse_contact_y(dx, 10);
        let impact = if lane % 9 == 0 { '*' } else if lane % 3 == 0 { '.' } else { '\'' };
        assert!(
            plots.iter().any(|p| p.x == 40 + dx && p.y == contact && p.ch == impact),
            "dx {dx}"
        );
    }
}

#[test]
fn marks_become_dots_and_stars() {
    let marks = vec![
        Mark { x: 3, y: 4, bright: true, color_index: 1 },
        Mark { x: 5, y: 6, bright: false, color_index: 2 },
        Mark { x: 7, y: 8, bright: false, color_index: 3 },
    ];
    assert_eq!(
        mark_plots(&marks),
        vec![
            Plot { x: 3, y: 4, ch: '*', color: Color::White },
            Plot { x: 5, y: 6, ch: '.', color: Color::Cyan },
            Plot { x: 7, y: 8, ch: '.', color: Color::Gray },
        ]
    );
}

#[test]
fn backdrop_bands_skip_every_third_row() {
    let plots = backdrop_band_plots(&vec![4, 9], 6);
    let first: Vec<i32> = plots.iter().filter(|p| p.x == 4).map(|p| p.y).collect();
    let second: Vec<i32> = plots.iter().filter(|p| p.x == 9).map(|p| p.y).collect();
    assert_eq!(first, vec![1, 2, 4, 5]);
    assert_eq!(second, vec![0, 1, 3, 4]);
}

#[test]
fn anchor_hint_only_without_ratty() {
    let with = anchor_shadow_plots(40, 10, false, true);
    let without = anchor_shadow_plots(40, 10, false, false);
    assert_eq!(without.len(), with.len() + 8);
    let hint: String = without[with.len()..].iter().map(|p| p.ch).collect();
    assert_eq!(hint, "ratty 3d");
    assert_eq!(without[with.len()].x, 36);
    // The floor line drops a row while `gate_open` holds.
    let open = anchor_shadow_plots(40, 10, true, true);
    assert_eq!(with[0].y, 15);
    assert_eq!(open[0].y, 16);
}

#[test]
fn mouse_palette_follows_gate() {
    let mut app = App::new("audio: live".to_string());
    let idle = mouse_palette(&app);
    assert_eq!(idle, MousePalette { body: Color::Gray, shade: Color::DarkGray, highlight: Color::Gray, eye: 'o' });
    app.set_waveform(Waveform::Square);
    app.toggle_gate();
    let lit = mouse_palette(&app);
    assert_eq!(
        lit,
        MousePalette { body: particle_color(1), shade: particle_color(3), highlight: Color::White, eye: 'O' }
    );
    let plots = center_plots(40, 10, 0, true, lit);
    let eyes: Vec<&Plot> = plots.iter().filter(|p| p.ch == 'O').collect();
    assert_eq!(eyes.len(), 2);
    assert!(eyes.iter().all(|p| p.color == Color::White && p.y == 8));
}
