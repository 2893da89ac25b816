use ratherapia::glyph::{ascii_upper, glyph_pattern};
use ratherapia::raster::{
    brighten, draw_cell, draw_glyph, draw_symbol, fill_rect, indexed_color, rasterize, rgb_for_bg,
    rgb_for_fg, Cell, Color, Image, Rgb, Screen, CELL_HEIGHT, CELL_WIDTH,
};

/// A plain pixel buffer drawn with the renderer's rules, to hold the library to.
struct Pixels {
    width: u32,
    height: u32,
    data: Vec<Rgb>,
}

impl Pixels {
    fn fill(&mut self, x: u32, y: u32, w: u32, h: u32, color: Rgb) {
        for py in y..(y + h).min(self.height) {
            for px in x..(x + w).min(self.width) {
                self.data[(py * self.width + px) as usize] = color;
            }
        }
    }

    fn glyph(&mut self, x: u32, y: u32, ch: char, color: Rgb) {
        let pattern = glyph_pattern(ch);
        for (row, bits) in pattern.iter().enumerate() {
            for col in 0..5 {
                if (bits >> (4 - col)) & 1 == 1 {
                    self.fill(x + col * 2, y + row as u32 * 2, 2, 2, color);
                }
            }
        }
    }

    fn box_symbol(&mut self, x: u32, y: u32, symbol: &str, color: Rgb) {
        let mid_x = x + CELL_WIDTH / 2;
        let mid_y = y + CELL_HEIGHT / 2;
        let left = matches!(symbol, "┐" | "┘" | "┤" | "┬" | "┴" | "┼");
        let right = matches!(symbol, "┌" | "└" | "├" | "┬" | "┴" | "┼");
        let up = matches!(symbol, "└" | "┘" | "├" | "┤" | "┴" | "┼");
        let down = matches!(symbol, "┌" | "┐" | "├" | "┤" | "┬" | "┼");
        if left {
            self.fill(x, mid_y, CELL_WIDTH / 2 + 1, 1, color);
        }
        if right {
            self.fill(mid_x, mid_y, CELL_WIDTH / 2, 1, color);
        }
        if up {
            self.fill(mid_x, y, 1, CELL_HEIGHT / 2 + 1, color);
        }
        if down {
            self.fill(mid_x, mid_y, 1, CELL_HEIGHT / 2, color);
        }
    }

    fn symbol(&mut self, x: u32, y: u32, symbol: &str, color: Rgb) {
        match symbol {
            " " => {}
            "─" | "━" => self.fill(x, y + CELL_HEIGHT / 2, CELL_WIDTH, 1, color),
            "│" | "┃" => self.fill(x + CELL_WIDTH / 2, y, 1, CELL_HEIGHT, color),
            "┌" | "┐" | "└" | "┘" | "├" | "┤" | "┬" | "┴" | "┼" => self.box_symbol(x, y, symbol, color),
            "█" | "▓" | "▒" | "░" => self.fill(x + 1, y + 1, CELL_WIDTH - 2, CELL_HEIGHT - 2, color),
            _ => {
                let ch = symbol.chars().next().unwrap_or(' ');
                self.glyph(x + 1, y + 1, ch, color);
            }
        }
    }
}

fn reference_rasterize(screen: &Screen) -> Pixels {
    let width = screen.width as u32 * CELL_WIDTH;
    let height = screen.height as u32 * CELL_HEIGHT;
    let mut p = Pixels { width, height, data: vec![Rgb(8, 10, 14); (width * height) as usize] };
    for cy in 0..screen.height as u32 {
        for cx in 0..screen.width as u32 {
            let cell = &screen.cells[(cy * screen.width as u32 + cx) as usize];
            let x = cx * CELL_WIDTH;
            let y = cy * CELL_HEIGHT;
            let bg = rgb_for_bg(cell.bg);
            let mut fg = rgb_for_fg(cell.fg);
            if cell.bold {
                fg = brighten(fg);
            }
            p.fill(x, y, CELL_WIDTH, CELL_HEIGHT, bg);
            p.symbol(x, y, &cell.symbol, fg);
        }
    }
    p
}

fn assert_same(image: &Image, p: &Pixels) {
    assert_eq!(image.width(), p.width);
    assert_eq!(image.height(), p.height);
    for y in 0..p.height {
        for x in 0..p.width {
            assert_eq!(image.get(x, y), p.data[(y * p.width + x) as usize], "pixel ({x}, {y})");
        }
    }
}

const SYMBOLS: [&str; 30] = [
    " ", "─", "━", "│", "┃", "┌", "┐", "└", "┘", "├", "┤", "┬", "┴", "┼", "█", "▓", "▒", "░", "a",
    "Q", "7", "*", "@", "#", "'", "", "ab", "ratty", "é", "──",
];

fn sample_screen(width: u16, height: u16) -> Screen {
    let colors = [
        Color::Reset,
        Color::Cyan,
        Color::DarkGray,
        Color::Rgb(1, 200, 3),
        Color::Indexed(4),
        Color::Indexed(200),
        Color::White,
        Color::LightMagenta,
    ];
    let mut cells = Vec::new();
    for i in 0..(width as usize * height as usize) {
        cells.push(Cell {
            symbol: SYMBOLS[(i * 7) % SYMBOLS.len()].to_string(),
            fg: colors[i % colors.len()],
            bg: colors[(i / 3) % colors.len()],
            bold: i % 5 == 0,
        });
    }
    Screen { width, height, cells }
}

#[test]
fn rasterize_matches_reference_renderer() {
    for (w, h) in [(1u16, 1u16), (6, 5), (13, 3)] {
        let screen = sample_screen(w, h);
        assert_same(&rasterize(&screen), &reference_rasterize(&screen));
    }
}

#[test]
fn every_symbol_renders_as_reference() {
    for (i, sym) in SYMBOLS.iter().enumerate() {
        let screen = Screen {
            width: 1,
            height: 1,
            cells: vec![Cell { symbol: sym.to_string(), fg: Color::Yellow, bg: Color::Blue, bold: i % 2 == 0 }],
        };
        assert_same(&rasterize(&screen), &reference_rasterize(&screen));
    }
}

#[test]
fn empty_screen_is_empty_image() {
    let screen = Screen { width: 0, height: 3, cells: vec![] };
    let image = rasterize(&screen);
    assert_eq!((image.width(), image.height()), (0, 48));
}

#[test]
fn each_pixel_follows_its_own_cell() {
    // Changing one cell leaves every pixel outside it as it was.
    let a = sample_screen(5, 4);
    let mut b = sample_screen(5, 4);
    b.cells[7] = Cell { symbol: "┼".to_string(), fg: Color::Red, bg: Color::Green, bold: true };
    let ia = rasterize(&a);
    let ib = rasterize(&b);
    let (cx, cy) = (7 % 5, 7 / 5);
    for y in 0..ia.height() {
        for x in 0..ia.width() {
            if x / CELL_WIDTH != cx || y / CELL_HEIGHT != cy {
                assert_eq!(ia.get(x, y), ib.get(x, y));
            }
        }
    }
    // Inside it, the cross is drawn in the brightened red over green.
    assert_eq!(ib.get(cx * 10 + 5, cy * 16 + 8), Rgb(234, 98, 98));
    assert_eq!(ib.get(cx * 10, cy * 16), Rgb(70, 190, 116));
}

#[test]
fn fill_rect_clips() {
    let mut image = Image::filled(4, 3, Rgb(0, 0, 0));
    fill_rect(&mut image, 2, 1, 10, 10, Rgb(9, 9, 9));
    for y in 0..3 {
        for x in 0..4 {
            let expected = if x >= 2 && y >= 1 { Rgb(9, 9, 9) } else { Rgb(0, 0, 0) };
            assert_eq!(image.get(x, y), expected);
        }
    }
    fill_rect(&mut image, 0, 0, 0, 3, Rgb(1, 1, 1));
    assert_eq!(image.get(0, 0), Rgb(0, 0, 0));
}

#[test]
fn glyph_pixels() {
    let mut image = Image::filled(12, 16, Rgb(0, 0, 0));
    draw_glyph(&mut image, 1, 1, 'i', Rgb(5, 6, 7));
    // 'I' has a full top bar and a single centre column below it.
    for x in 1..11 {
        assert_eq!(image.get(x, 1), Rgb(5, 6, 7));
        assert_eq!(image.get(x, 2), Rgb(5, 6, 7));
    }
    assert_eq!(image.get(5, 3), Rgb(5, 6, 7));
    assert_eq!(image.get(3, 3), Rgb(0, 0, 0));
    assert_eq!(image.get(0, 0), Rgb(0, 0, 0));
    assert_eq!(image.get(11, 15), Rgb(0, 0, 0));
}

#[test]
fn symbol_lines() {
    let mut image = Image::filled(10, 16, Rgb(0, 0, 0));
    draw_symbol(&mut image, 0, 0, "─", Rgb(1, 2, 3));
    for x in 0..10 {
        assert_eq!(image.get(x, 8), Rgb(1, 2, 3));
        assert_eq!(image.get(x, 7), Rgb(0, 0, 0));
    }
    let mut image = Image::filled(10, 16, Rgb(0, 0, 0));
    draw_symbol(&mut image, 0, 0, "│", Rgb(1, 2, 3));
    for y in 0..16 {
        assert_eq!(image.get(5, y), Rgb(1, 2, 3));
        assert_eq!(image.get(4, y), Rgb(0, 0, 0));
    }
}

#[test]
fn cell_background_and_bold() {
    let mut image = Image::filled(20, 16, Rgb(0, 0, 0));
    let cell = Cell { symbol: " ".to_string(), fg: Color::White, bg: Color::Reset, bold: true };
    draw_cell(&mut image, 1, 0, &cell);
    assert_eq!(image.get(10, 0), Rgb(8, 10, 14));
    assert_eq!(image.get(9, 0), Rgb(0, 0, 0));
}

#[test]
fn palette() {
    assert_eq!(rgb_for_fg(Color::Reset), Rgb(214, 222, 235));
    assert_eq!(rgb_for_bg(Color::Reset), Rgb(8, 10, 14));
    assert_eq!(rgb_for_bg(Color::Cyan), Rgb(72, 205, 224));
    assert_eq!(rgb_for_fg(Color::Rgb(1, 2, 3)), Rgb(1, 2, 3));
    assert_eq!(rgb_for_fg(Color::Indexed(9)), Rgb(255, 105, 105));
    assert_eq!(indexed_color(0), Rgb(8, 10, 14));
    assert_eq!(indexed_color(15), Rgb(244, 248, 255));
    assert_eq!(indexed_color(255), Rgb(244, 248, 255));
    assert_eq!(brighten(Rgb(0, 240, 255)), Rgb(24, 255, 255));
}

#[test]
fn glyph_lookup_ignores_case() {
    assert_eq!(ascii_upper('q'), 'Q');
    assert_eq!(ascii_upper('é'), 'é');
    assert_eq!(glyph_pattern('a'), glyph_pattern('A'));
    assert_eq!(glyph_pattern('A'), [0b01110, 0b10001, 0b10001, 0b11111, 0b10001, 0b10001, 0b10001]);
    assert_eq!(glyph_pattern('_'), [0, 0, 0, 0, 0, 0, 0b11111]);
    assert_eq!(glyph_pattern('~'), [0; 7]);
    for c in ['A', 'm', '0', '#', '@', 'z', '?'] {
        assert!(glyph_pattern(c).iter().all(|r| *r < 32));
    }
}

#[test]
fn distinct_glyphs_differ() {
    let chars: Vec<char> = ('A'..='Z').chain('0'..='9').chain(".:-+/#*@=_".chars()).collect();
    assert_eq!(chars.len(), 46);
    for a in &chars {
        for b in &chars {
            if a != b {
                assert_ne!(glyph_pattern(*a), glyph_pattern(*b), "{a} {b}");
            }
        }
    }
    assert_ne!(glyph_pattern('0'), glyph_pattern('O'));
    assert_ne!(glyph_pattern('q'), glyph_pattern('9'));
}
