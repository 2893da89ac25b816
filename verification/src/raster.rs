use vstd::prelude::*;

use crate::glyph::{glyph_pattern, spec_glyph_pattern};

verus! {

/// An 8-bit RGB colour.
#[derive(Clone, Copy, Debug, PartialEq, Eq, Structural)]
pub struct Rgb(pub u8, pub u8, pub u8);

/// A row-major RGB raster: pixel `(x, y)` is stored at `y * width + x`.
pub struct Image {
    width: u32,
    height: u32,
    pixels: Vec<Rgb>,
}

/// Index of pixel `(x, y)` in a row-major raster of the given width.
pub open spec fn pixel_index(width: int, x: int, y: int) -> int {
    y * width + x
}

/// Every in-bounds coordinate pair maps to a distinct index below `width * height`.
pub proof fn lemma_pixel_index(width: int, height: int, x: int, y: int)
    requires
        0 <= x < width,
        0 <= y < height,
    ensures
        0 <= pixel_index(width, x, y) < width * height,
        pixel_index(width, x, y) / width == y,
        pixel_index(width, x, y) % width == x,
{
    assert(0 <= y * width + x < width * height) by (nonlinear_arith)
        requires
            0 <= x < width,
            0 <= y < height,
    ;
    vstd::arithmetic::div_mod::lemma_fundamental_div_mod_converse(y * width + x, width, y, x);
}

impl Image {
    /// The raster holds exactly `width * height` pixels and its size fits in 32 bits.
    pub closed spec fn wf(&self) -> bool {
        &&& self.width * self.height <= u32::MAX
        &&& self.pixels@.len() == self.width * self.height
    }

    pub closed spec fn spec_width(&self) -> u32 {
        self.width
    }

    pub closed spec fn spec_height(&self) -> u32 {
        self.height
    }

    /// The pixel at `(x, y)`.
    pub closed spec fn pixel(&self, x: int, y: int) -> Rgb {
        self.pixels@[pixel_index(self.width as int, x, y)]
    }

    /// Whether `(x, y)` lies inside the raster.
    pub closed spec fn in_bounds(&self, x: int, y: int) -> bool {
        0 <= x < self.width && 0 <= y < self.height
    }

    /// Two rasters of the same size agree on every pixel.
    pub closed spec fn same_pixels(&self, other: &Image) -> bool {
        &&& self.width == other.width
        &&& self.height == other.height
        &&& forall|x: int, y: int|
            self.in_bounds(x, y) ==> #[trigger] self.pixel(x, y) == other.pixel(x, y)
    }

    /// A `width` x `height` raster with every pixel set to `color`.
    pub fn filled(width: u32, height: u32, color: Rgb) -> (image: Image)
        requires
            width * height <= u32::MAX,
        ensures
            image.wf(),
            image.spec_width() == width,
            image.spec_height() == height,
            forall|x: int, y: int| image.in_bounds(x, y) ==> #[trigger] image.pixel(x, y) == color,
    {
        let total = width * height;
        let mut pixels: Vec<Rgb> = Vec::new();
        let mut i: u32 = 0;
        while i < total
            invariant
                i <= total,
                total == width * height,
                pixels@.len() == i,
                forall|j: int| 0 <= j < i ==> #[trigger] pixels@[j] == color,
            decreases total - i,
        {
            pixels.push(color);
            i = i + 1;
        }
        let image = Image { width, height, pixels };
        assert forall|x: int, y: int| image.in_bounds(x, y) implies #[trigger] image.pixel(x, y)
            == color by {
            lemma_pixel_index(width as int, height as int, x, y);
        }
        image
    }

    /// A well-formed raster has at most `u32::MAX` pixels.
    pub proof fn lemma_wf_size(&self)
        requires
            self.wf(),
        ensures
            self.spec_width() * self.spec_height() <= u32::MAX,
            forall|x: int, y: int|
                #![trigger self.in_bounds(x, y)]
                self.in_bounds(x, y) <==> (0 <= x < self.spec_width() && 0 <= y
                    < self.spec_height()),
    {
    }

    pub fn width(&self) -> (w: u32)
        ensures
            w == self.spec_width(),
    {
        self.width
    }

    pub fn height(&self) -> (h: u32)
        ensures
            h == self.spec_height(),
    {
        self.height
    }

    /// The pixel at `(x, y)`.
    pub fn get(&self, x: u32, y: u32) -> (c: Rgb)
        requires
            self.wf(),
            self.in_bounds(x as int, y as int),
        ensures
            c == self.pixel(x as int, y as int),
    {
        proof {
            lemma_pixel_index(self.width as int, self.height as int, x as int, y as int);
        }
        self.pixels[(y * self.width + x) as usize]
    }

    /// Overwrite the pixel at `(x, y)`.
    fn put(&mut self, x: u32, y: u32, color: Rgb)
        requires
            old(self).wf(),
            old(self).in_bounds(x as int, y as int),
        ensures
            final(self).wf(),
            final(self).width == old(self).width,
            final(self).height == old(self).height,
            forall|a: int, b: int| 
                final(self).in_bounds(a, b) ==> #[trigger] final(self).pixel(a, b) == if a == x && b == y {
                    color
                } else {
                    old(self).pixel(a, b)
                },
    {
        proof {
            lemma_pixel_index(self.width as int, self.height as int, x as int, y as int);
        }
        let idx = (y * self.width + x) as usize;
        self.pixels.set(idx, color);
        proof {
            assert forall|a: int, b: int|
                self.in_bounds(a, b) implies #[trigger] self.pixel(a, b) == if a == x && b == y {
                color
            } else {
                old(self).pixel(a, b)
            } by {
                lemma_pixel_index(self.width as int, self.height as int, a, b);
            }
        }
    }
}

/// Whether `(px, py)` lies in the rectangle with corner `(x, y)` and the given size.
pub open spec fn in_rect(px: int, py: int, x: int, y: int, width: int, height: int) -> bool {
    x <= px < x + width && y <= py < y + height
}

/// Paint the rectangle with corner `(x, y)` and size `width` x `height`,
/// clipped to the image, in `color`; every other pixel keeps its colour.
pub fn fill_rect(image: &mut Image, x: u32, y: u32, width: u32, height: u32, color: Rgb)
    requires
        old(image).wf(),
        x + width <= u32::MAX,
        y + height <= u32::MAX,
    ensures
        final(image).wf(),
        final(image).spec_width() == old(image).spec_width(),
        final(image).spec_height() == old(image).spec_height(),
        forall|px: int, py: int| 
            final(image).in_bounds(px, py) ==> #[trigger] final(image).pixel(px, py) == if in_rect(
                px,
                py,
                x as int,
                y as int,
                width as int,
                height as int,
            ) {
                color
            } else {
                old(image).pixel(px, py)
            },
{
    let y_end = if y + height < image.height { y + height } else { image.height };
    let x_end = if x + width < image.width { x + width } else { image.width };
    let ghost start = *image;
    let mut py = y;
    while py < y_end
        invariant
            y <= py,
            py <= y_end || py == y,
            y_end <= image.height,
            x_end <= image.width,
            y_end == if y + height < start.height { y + height } else { start.height as int },
            x_end == if x + width < start.width { x + width } else { start.width as int },
            image.wf(),
            image.width == start.width,
            image.height == start.height,
            forall|px: int, qy: int| 
                image.in_bounds(px, qy) ==> #[trigger] image.pixel(px, qy) == if x <= px < x + width && y
                    <= qy < py {
                    color
                } else {
                    start.pixel(px, qy)
                },
        decreases y_end - py,
    {
        let mut px = x;
        while px < x_end
            invariant
                y <= py < y_end,
                x <= px,
                px <= x_end || px == x,
                y_end <= image.height,
                x_end <= image.width,
                x_end == if x + width < start.width { x + width } else { start.width as int },
                image.wf(),
                image.width == start.width,
                image.height == start.height,
                forall|ax: int, qy: int| 
                    image.in_bounds(ax, qy) ==> #[trigger] image.pixel(ax, qy) == if (x <= ax < x + width
                        && y <= qy < py) || (qy == py && x <= ax < px) {
                        color
                    } else {
                        start.pixel(ax, qy)
                    },
            decreases x_end - px,
        {
            image.put(px, py, color);
            px = px + 1;
        }
        py = py + 1;
    }
}

/// Whether column `col` (0 = leftmost of five) is lit in a font row.
pub open spec fn glyph_bit(bits: u8, col: int) -> bool {
    (bits >> ((4 - col) as u32)) & 1u8 == 1u8
}

/// Whether a glyph with rows `rows`, drawn with its corner at `(x, y)` and every
/// font pixel doubled to a 2x2 block, covers pixel `(px, py)`.
pub open spec fn glyph_covers(rows: Seq<u8>, x: int, y: int, px: int, py: int) -> bool {
    &&& x <= px < x + 10
    &&& y <= py < y + 14
    &&& glyph_bit(rows[(py - y) / 2], (px - x) / 2)
}

/// Draw `ch` from the 5x7 font at `(x, y)`, each font pixel as a 2x2 block in `color`.
pub fn draw_glyph(image: &mut Image, x: u32, y: u32, ch: char, color: Rgb)
    requires
        old(image).wf(),
        x + 10 <= u32::MAX,
        y + 14 <= u32::MAX,
    ensures
        final(image).wf(),
        final(image).spec_width() == old(image).spec_width(),
        final(image).spec_height() == old(image).spec_height(),
        forall|px: int, py: int|
            final(image).in_bounds(px, py) ==> #[trigger] final(image).pixel(px, py) == if glyph_covers(
                spec_glyph_pattern(ch),
                x as int,
                y as int,
                px,
                py,
            ) {
                color
            } else {
                old(image).pixel(px, py)
            },
{
    let pattern = glyph_pattern(ch);
    let ghost rows = spec_glyph_pattern(ch);
    let ghost start = *image;
    let mut row: u32 = 0;
    while row < 7
        invariant
            row <= 7,
            pattern@ == rows,
            rows.len() == 7,
            x + 10 <= u32::MAX,
            y + 14 <= u32::MAX,
            image.wf(),
            image.width == start.width,
            image.height == start.height,
            forall|px: int, py: int|
                image.in_bounds(px, py) ==> #[trigger] image.pixel(px, py) == if x <= px < x + 10
                    && y <= py < y + 2 * row && glyph_bit(rows[(py - y) / 2], (px - x) / 2) {
                    color
                } else {
                    start.pixel(px, py)
                },
        decreases 7 - row,
    {
        let bits = pattern[row as usize];
        let mut col: u32 = 0;
        while col < 5
            invariant
                row < 7,
                col <= 5,
                pattern@ == rows,
                rows.len() == 7,
                bits == rows[row as int],
                x + 10 <= u32::MAX,
                y + 14 <= u32::MAX,
                image.wf(),
                image.width == start.width,
                image.height == start.height,
                forall|px: int, py: int|
                    image.in_bounds(px, py) ==> #[trigger] image.pixel(px, py) == if x <= px < x
                        + 10 && y <= py < y + 14 && (py - y < 2 * row || (py - y < 2 * row + 2
                        && px - x < 2 * col)) && glyph_bit(rows[(py - y) / 2], (px - x) / 2) {
                        color
                    } else {
                        start.pixel(px, py)
                    },
            decreases 5 - col,
        {
            if (bits >> (4 - col)) & 1 == 1 {
                fill_rect(image, x + col * 2, y + row * 2, 2, 2, color);
            }
            col = col + 1;
        }
        row = row + 1;
    }
}

/// Terminal colours, as the renderer reads them from a cell.
#[derive(Clone, Copy, Debug, PartialEq, Eq, Structural)]
pub enum Color {
    Reset,
    Black,
    Red,
    Green,
    Yellow,
    Blue,
    Magenta,
    Cyan,
    Gray,
    DarkGray,
    LightRed,
    LightGreen,
    LightYellow,
    LightBlue,
    LightMagenta,
    LightCyan,
    White,
    Rgb(u8, u8, u8),
    Indexed(u8),
}

/// The sixteen basic palette entries used for indexed colours.
pub open spec fn basic_palette(i: int) -> Rgb {
    if i == 0 {
        Rgb(8, 10, 14)
    } else if i == 1 {
        Rgb(210, 74, 74)
    } else if i == 2 {
        Rgb(70, 190, 116)
    } else if i == 3 {
        Rgb(232, 190, 84)
    } else if i == 4 {
        Rgb(78, 132, 214)
    } else if i == 5 {
        Rgb(204, 104, 214)
    } else if i == 6 {
        Rgb(72, 205, 224)
    } else if i == 7 {
        Rgb(150, 158, 170)
    } else if i == 8 {
        Rgb(80, 88, 100)
    } else if i == 9 {
        Rgb(255, 105, 105)
    } else if i == 10 {
        Rgb(108, 228, 146)
    } else if i == 11 {
        Rgb(255, 218, 112)
    } else if i == 12 {
        Rgb(118, 166, 255)
    } else if i == 13 {
        Rgb(232, 134, 255)
    } else if i == 14 {
        Rgb(108, 232, 246)
    } else {
        Rgb(244, 248, 255)
    }
}

/// Indexed colours above 15 fall back to the last basic entry.
pub open spec fn spec_indexed_color(index: u8) -> Rgb {
    basic_palette(if index < 15 { index as int } else { 15 })
}

/// The palette entry for an indexed colour; indices above 15 use entry 15.
pub fn indexed_color(index: u8) -> (c: Rgb)
    ensures
        c == spec_indexed_color(index),
{
    let basic: [Rgb; 16] = [
        Rgb(8, 10, 14),
        Rgb(210, 74, 74),
        Rgb(70, 190, 116),
        Rgb(232, 190, 84),
        Rgb(78, 132, 214),
        Rgb(204, 104, 214),
        Rgb(72, 205, 224),
        Rgb(150, 158, 170),
        Rgb(80, 88, 100),
        Rgb(255, 105, 105),
        Rgb(108, 228, 146),
        Rgb(255, 218, 112),
        Rgb(118, 166, 255),
        Rgb(232, 134, 255),
        Rgb(108, 232, 246),
        Rgb(244, 248, 255),
    ];
    let i: u8 = if index < 15 { index } else { 15 };
    basic[i as usize]
}

/// The RGB value a foreground colour is drawn in.
pub open spec fn spec_rgb_for_fg(color: Color) -> Rgb {
    match color {
        Color::Reset => Rgb(214, 222, 235),
        Color::Black => Rgb(8, 10, 14),
        Color::Red => Rgb(210, 74, 74),
        Color::Green => Rgb(70, 190, 116),
        Color::Yellow => Rgb(232, 190, 84),
        Color::Blue => Rgb(78, 132, 214),
        Color::Magenta => Rgb(204, 104, 214),
        Color::Cyan => Rgb(72, 205, 224),
        Color::Gray => Rgb(150, 158, 170),
        Color::DarkGray => Rgb(80, 88, 100),
        Color::LightRed => Rgb(255, 105, 105),
        Color::LightGreen => Rgb(108, 228, 146),
        Color::LightYellow => Rgb(255, 218, 112),
        Color::LightBlue => Rgb(118, 166, 255),
        Color::LightMagenta => Rgb(232, 134, 255),
        Color::LightCyan => Rgb(108, 232, 246),
        Color::White => Rgb(244, 248, 255),
        Color::Rgb(r, g, b) => Rgb(r, g, b),
        Color::Indexed(index) => spec_indexed_color(index),
    }
}

/// The RGB value a foreground colour is drawn in.
pub fn rgb_for_fg(color: Color) -> (c: Rgb)
    ensures
        c == spec_rgb_for_fg(color),
{
    match color {
        Color::Reset => Rgb(214, 222, 235),
        Color::Black => Rgb(8, 10, 14),
        Color::Red => Rgb(210, 74, 74),
        Color::Green => Rgb(70, 190, 116),
        Color::Yellow => Rgb(232, 190, 84),
        Color::Blue => Rgb(78, 132, 214),
        Color::Magenta => Rgb(204, 104, 214),
        Color::Cyan => Rgb(72, 205, 224),
        Color::Gray => Rgb(150, 158, 170),
        Color::DarkGray => Rgb(80, 88, 100),
        Color::LightRed => Rgb(255, 105, 105),
        Color::LightGreen => Rgb(108, 228, 146),
        Color::LightYellow => Rgb(255, 218, 112),
        Color::LightBlue => Rgb(118, 166, 255),
        Color::LightMagenta => Rgb(232, 134, 255),
        Color::LightCyan => Rgb(108, 232, 246),
        Color::White => Rgb(244, 248, 255),
        Color::Rgb(r, g, b) => Rgb(r, g, b),
        Color::Indexed(index) => indexed_color(index),
    }
}

/// The ANSI number of a named colour: black, red, green, yellow, blue,
/// magenta, cyan and gray, then dark gray and the light colours up to white;
/// -1 for the others.
pub open spec fn ansi_index(c: Color) -> int {
    match c {
        Color::Black => 0,
        Color::Red => 1,
        Color::Green => 2,
        Color::Yellow => 3,
        Color::Blue => 4,
        Color::Magenta => 5,
        Color::Cyan => 6,
        Color::Gray => 7,
        Color::DarkGray => 8,
        Color::LightRed => 9,
        Color::LightGreen => 10,
        Color::LightYellow => 11,
        Color::LightBlue => 12,
        Color::LightMagenta => 13,
        Color::LightCyan => 14,
        Color::White => 15,
        _ => -1,
    }
}

/// Every named colour is drawn as the indexed colour with its ANSI number, in
/// the foreground and the background alike, and different named colours are
/// drawn in different colours.
pub proof fn lemma_named_colors(c: Color, d: Color)
    requires
        0 <= ansi_index(c),
        0 <= ansi_index(d),
    ensures
        spec_rgb_for_fg(c) == spec_rgb_for_fg(Color::Indexed(ansi_index(c) as u8)),
        spec_rgb_for_bg(c) == spec_rgb_for_fg(c),
        c != d ==> spec_rgb_for_fg(c) != spec_rgb_for_fg(d),
{
}

/// Indexed colours past the sixteen basic entries are drawn as white, and an
/// exact RGB colour is drawn as itself.
pub proof fn lemma_other_colors(index: u8, r: u8, g: u8, b: u8)
    ensures
        index >= 15 ==> spec_rgb_for_fg(Color::Indexed(index)) == spec_rgb_for_fg(Color::White),
        spec_rgb_for_fg(Color::Rgb(r, g, b)) == Rgb(r, g, b),
        spec_rgb_for_bg(Color::Rgb(r, g, b)) == Rgb(r, g, b),
{
}

/// The background colour of the screen: the terminal default is the dark backdrop.
pub open spec fn spec_rgb_for_bg(color: Color) -> Rgb {
    match color {
        Color::Reset => Rgb(8, 10, 14),
        _ => spec_rgb_for_fg(color),
    }
}

/// The RGB value a background colour is drawn in.
pub fn rgb_for_bg(color: Color) -> (c: Rgb)
    ensures
        c == spec_rgb_for_bg(color),
{
    match color {
        Color::Reset => Rgb(8, 10, 14),
        _ => rgb_for_fg(color),
    }
}

/// A channel raised by 24, saturating at 255.
pub open spec fn brighten_channel(c: u8) -> u8 {
    if c + 24 > 255 {
        255
    } else {
        (c + 24) as u8
    }
}

pub open spec fn spec_brighten(color: Rgb) -> Rgb {
    Rgb(brighten_channel(color.0), brighten_channel(color.1), brighten_channel(color.2))
}

/// Bold text: every channel raised by 24, saturating at 255.
pub fn brighten(color: Rgb) -> (c: Rgb)
    ensures
        c == spec_brighten(color),
{
    Rgb(color.0.saturating_add(24), color.1.saturating_add(24), color.2.saturating_add(24))
}

/// Width of one terminal cell in pixels.
pub const CELL_WIDTH: u32 = 10;

/// Height of one terminal cell in pixels.
pub const CELL_HEIGHT: u32 = 16;

/// Box-drawing characters with an arm reaching the left edge of the cell.
pub open spec fn box_left(c: char) -> bool {
    c == '\u{2510}' || c == '\u{2518}' || c == '\u{2524}' || c == '\u{252c}' || c == '\u{2534}'
        || c == '\u{253c}'
}

/// Box-drawing characters with an arm reaching the right edge of the cell.
pub open spec fn box_right(c: char) -> bool {
    c == '\u{250c}' || c == '\u{2514}' || c == '\u{251c}' || c == '\u{252c}' || c == '\u{2534}'
        || c == '\u{253c}'
}

/// Box-drawing characters with an arm reaching the top edge of the cell.
pub open spec fn box_up(c: char) -> bool {
    c == '\u{2514}' || c == '\u{2518}' || c == '\u{251c}' || c == '\u{2524}' || c == '\u{2534}'
        || c == '\u{253c}'
}

/// Box-drawing characters with an arm reaching the bottom edge of the cell.
pub open spec fn box_down(c: char) -> bool {
    c == '\u{250c}' || c == '\u{2510}' || c == '\u{251c}' || c == '\u{2524}' || c == '\u{252c}'
        || c == '\u{253c}'
}

/// The corner, tee and cross characters drawn as arms from the cell centre.
pub open spec fn is_box_corner(c: char) -> bool {
    c == '\u{250c}' || c == '\u{2510}' || c == '\u{2514}' || c == '\u{2518}' || c == '\u{251c}'
        || c == '\u{2524}' || c == '\u{252c}' || c == '\u{2534}' || c == '\u{253c}'
}

/// Light and heavy horizontal lines.
pub open spec fn is_hline(c: char) -> bool {
    c == '\u{2500}' || c == '\u{2501}'
}

/// Light and heavy vertical lines.
pub open spec fn is_vline(c: char) -> bool {
    c == '\u{2502}' || c == '\u{2503}'
}

/// Full and shaded block characters.
pub open spec fn is_block(c: char) -> bool {
    c == '\u{2588}' || c == '\u{2593}' || c == '\u{2592}' || c == '\u{2591}'
}

/// Pixels painted by a box-drawing character in the cell at `(x, y)`.
pub open spec fn box_covers(c: char, x: int, y: int, px: int, py: int) -> bool {
    ||| box_left(c) && in_rect(px, py, x, y + 8, 6, 1)
    ||| box_right(c) && in_rect(px, py, x + 5, y + 8, 5, 1)
    ||| box_up(c) && in_rect(px, py, x + 5, y, 1, 9)
    ||| box_down(c) && in_rect(px, py, x + 5, y + 8, 1, 8)
}

/// The first character of a symbol, or a space for an empty symbol.
pub open spec fn first_char(sym: Seq<char>) -> char {
    if sym.len() > 0 {
        sym[0]
    } else {
        ' '
    }
}

/// Pixels painted in the foreground colour by a cell symbol drawn at `(x, y)`.
pub open spec fn symbol_covers(sym: Seq<char>, x: int, y: int, px: int, py: int) -> bool {
    if sym.len() == 1 && sym[0] == ' ' {
        false
    } else if sym.len() == 1 && is_hline(sym[0]) {
        in_rect(px, py, x, y + 8, 10, 1)
    } else if sym.len() == 1 && is_vline(sym[0]) {
        in_rect(px, py, x + 5, y, 1, 16)
    } else if sym.len() == 1 && is_box_corner(sym[0]) {
        box_covers(sym[0], x, y, px, py)
    } else if sym.len() == 1 && is_block(sym[0]) {
        in_rect(px, py, x + 1, y + 1, 8, 14)
    } else {
        glyph_covers(spec_glyph_pattern(first_char(sym)), x + 1, y + 1, px, py)
    }
}

/// Draw the arms of a box-drawing character from the centre of the cell at `(x, y)`.
fn draw_box_symbol(image: &mut Image, x: u32, y: u32, c: char, color: Rgb)
    requires
        old(image).wf(),
        is_box_corner(c),
        x + CELL_WIDTH + 1 <= u32::MAX,
        y + CELL_HEIGHT <= u32::MAX,
    ensures
        final(image).wf(),
        final(image).spec_width() == old(image).spec_width(),
        final(image).spec_height() == old(image).spec_height(),
        forall|px: int, py: int|
            final(image).in_bounds(px, py) ==> #[trigger] final(image).pixel(px, py) == if box_covers(
                c,
                x as int,
                y as int,
                px,
                py,
            ) {
                color
            } else {
                old(image).pixel(px, py)
            },
{
    let mid_x = x + CELL_WIDTH / 2;
    let mid_y = y + CELL_HEIGHT / 2;
    let left = c == '\u{2510}' || c == '\u{2518}' || c == '\u{2524}' || c == '\u{252c}' || c
        == '\u{2534}' || c == '\u{253c}';
    let right = c == '\u{250c}' || c == '\u{2514}' || c == '\u{251c}' || c == '\u{252c}' || c
        == '\u{2534}' || c == '\u{253c}';
    let up = c == '\u{2514}' || c == '\u{2518}' || c == '\u{251c}' || c == '\u{2524}' || c
        == '\u{2534}' || c == '\u{253c}';
    let down = c == '\u{250c}' || c == '\u{2510}' || c == '\u{251c}' || c == '\u{2524}' || c
        == '\u{252c}' || c == '\u{253c}';
    if left {
        fill_rect(image, x, mid_y, CELL_WIDTH / 2 + 1, 1, color);
    }
    if right {
        fill_rect(image, mid_x, mid_y, CELL_WIDTH / 2, 1, color);
    }
    if up {
        fill_rect(image, mid_x, y, 1, CELL_HEIGHT / 2 + 1, color);
    }
    if down {
        fill_rect(image, mid_x, mid_y, 1, CELL_HEIGHT / 2, color);
    }
}

/// Draw a cell symbol with its cell corner at `(x, y)`: lines, box-drawing
/// characters and blocks are drawn as shapes, anything else as the font glyph
/// of its first character.
pub fn draw_symbol(image: &mut Image, x: u32, y: u32, symbol: &str, color: Rgb)
    requires
        old(image).wf(),
        x + CELL_WIDTH + 1 <= u32::MAX,
        y + CELL_HEIGHT <= u32::MAX,
    ensures
        final(image).wf(),
        final(image).spec_width() == old(image).spec_width(),
        final(image).spec_height() == old(image).spec_height(),
        forall|px: int, py: int|
            final(image).in_bounds(px, py) ==> #[trigger] final(image).pixel(px, py) == if symbol_covers(
                symbol@,
                x as int,
                y as int,
                px,
                py,
            ) {
                color
            } else {
                old(image).pixel(px, py)
            },
{
    let n = symbol.unicode_len();
    let first = if n > 0 { symbol.get_char(0) } else { ' ' };
    let single = n == 1;
    if single && first == ' ' {
    } else if single && (first == '\u{2500}' || first == '\u{2501}') {
        fill_rect(image, x, y + CELL_HEIGHT / 2, CELL_WIDTH, 1, color);
    } else if single && (first == '\u{2502}' || first == '\u{2503}') {
        fill_rect(image, x + CELL_WIDTH / 2, y, 1, CELL_HEIGHT, color);
    } else if single && (first == '\u{250c}' || first == '\u{2510}' || first == '\u{2514}' || first
        == '\u{2518}' || first == '\u{251c}' || first == '\u{2524}' || first == '\u{252c}'
        || first == '\u{2534}' || first == '\u{253c}') {
        draw_box_symbol(image, x, y, first, color);
    } else if single && (first == '\u{2588}' || first == '\u{2593}' || first == '\u{2592}' || first
        == '\u{2591}') {
        fill_rect(image, x + 1, y + 1, CELL_WIDTH - 2, CELL_HEIGHT - 2, color);
    } else {
        draw_glyph(image, x + 1, y + 1, first, color);
    }
}

/// One terminal cell as the renderer sees it.
pub struct Cell {
    pub symbol: String,
    pub fg: Color,
    pub bg: Color,
    pub bold: bool,
}

/// The colour a cell's symbol is drawn in: bold text is brightened.
pub open spec fn cell_fg(cell: Cell) -> Rgb {
    if cell.bold {
        spec_brighten(spec_rgb_for_fg(cell.fg))
    } else {
        spec_rgb_for_fg(cell.fg)
    }
}

/// Pixel `(px, py)` after drawing `cell` with its corner at `(x, y)` over a pixel
/// that was `prev`: the symbol in the foreground colour over the cell filled
/// with the background colour.
pub open spec fn cell_paint(cell: Cell, x: int, y: int, px: int, py: int, prev: Rgb) -> Rgb {
    if symbol_covers(cell.symbol@, x, y, px, py) {
        cell_fg(cell)
    } else if in_rect(px, py, x, y, CELL_WIDTH as int, CELL_HEIGHT as int) {
        spec_rgb_for_bg(cell.bg)
    } else {
        prev
    }
}

/// Draw the cell at column `cell_x`, row `cell_y` of the terminal grid.
pub fn draw_cell(image: &mut Image, cell_x: u32, cell_y: u32, cell: &Cell)
    requires
        old(image).wf(),
        cell_x * CELL_WIDTH + CELL_WIDTH + 1 <= u32::MAX,
        cell_y * CELL_HEIGHT + CELL_HEIGHT <= u32::MAX,
    ensures
        final(image).wf(),
        final(image).spec_width() == old(image).spec_width(),
        final(image).spec_height() == old(image).spec_height(),
        forall|px: int, py: int|
            final(image).in_bounds(px, py) ==> #[trigger] final(image).pixel(px, py) == cell_paint(
                *cell,
                cell_x * CELL_WIDTH,
                cell_y * CELL_HEIGHT,
                px,
                py,
                old(image).pixel(px, py),
            ),
{
    let x = cell_x * CELL_WIDTH;
    let y = cell_y * CELL_HEIGHT;
    let bg = rgb_for_bg(cell.bg);
    let mut fg = rgb_for_fg(cell.fg);
    if cell.bold {
        fg = brighten(fg);
    }
    fill_rect(image, x, y, CELL_WIDTH, CELL_HEIGHT, bg);
    draw_symbol(image, x, y, cell.symbol.as_str(), fg);
}

/// A terminal screen: `width` x `height` cells in row-major order.
pub struct Screen {
    pub width: u16,
    pub height: u16,
    pub cells: Vec<Cell>,
}

impl Screen {
    /// The cell list matches the grid size.
    pub open spec fn wf(&self) -> bool {
        self.cells@.len() == self.width * self.height
    }

    /// The rasterized image fits in a 32-bit pixel count.
    pub open spec fn fits(&self) -> bool {
        (self.width * CELL_WIDTH) * (self.height * CELL_HEIGHT) <= u32::MAX
    }
}

/// The colour of the empty screen.
pub open spec fn backdrop() -> Rgb {
    Rgb(8, 10, 14)
}

/// Pixel `(px, py)` after drawing the first `k` cells of `screen` in row-major
/// order over the backdrop.
pub open spec fn raster_pixel(screen: Screen, k: int, px: int, py: int) -> Rgb
    decreases k,
{
    if k <= 0 {
        backdrop()
    } else {
        let i = k - 1;
        let w = screen.width as int;
        cell_paint(
            screen.cells@[i],
            (i % w) * CELL_WIDTH,
            (i / w) * CELL_HEIGHT,
            px,
            py,
            raster_pixel(screen, k - 1, px, py),
        )
    }
}

/// Render a terminal screen to pixels: each cell becomes a 10x16 block filled
/// with its background, with its symbol drawn on top.
pub fn rasterize(screen: &Screen) -> (image: Image)
    requires
        screen.wf(),
        screen.fits(),
    ensures
        image.wf(),
        image.spec_width() == screen.width * CELL_WIDTH,
        image.spec_height() == screen.height * CELL_HEIGHT,
        forall|px: int, py: int|
            image.in_bounds(px, py) ==> #[trigger] image.pixel(px, py) == raster_pixel(
                *screen,
                screen.width * screen.height,
                px,
                py,
            ),
{
    let cols = screen.width as u32;
    let rows = screen.height as u32;
    let width = cols * CELL_WIDTH;
    let height = rows * CELL_HEIGHT;
    let mut image = Image::filled(width, height, Rgb(8, 10, 14));
    let mut y: u32 = 0;
    while y < rows
        invariant
            y <= rows,
            rows == screen.height,
            cols == screen.width,
            screen.wf(),
            width == cols * CELL_WIDTH,
            height == rows * CELL_HEIGHT,
            width * height <= u32::MAX,
            image.wf(),
            image.width == width,
            image.height == height,
            forall|px: int, py: int|
                image.in_bounds(px, py) ==> #[trigger] image.pixel(px, py) == raster_pixel(
                    *screen,
                    y * cols,
                    px,
                    py,
                ),
        decreases rows - y,
    {
        let mut x: u32 = 0;
        while x < cols
            invariant
                x <= cols,
                y < rows,
                rows == screen.height,
                cols == screen.width,
                screen.wf(),
                width == cols * CELL_WIDTH,
                height == rows * CELL_HEIGHT,
                width * height <= u32::MAX,
                image.wf(),
                image.width == width,
                image.height == height,
                forall|px: int, py: int|
                    image.in_bounds(px, py) ==> #[trigger] image.pixel(px, py) == raster_pixel(
                        *screen,
                        y * cols + x,
                        px,
                        py,
                    ),
            decreases cols - x,
        {
            proof {
                lemma_pixel_index(cols as int, rows as int, x as int, y as int);
                assert(x * CELL_WIDTH + CELL_WIDTH + 1 <= u32::MAX) by (nonlinear_arith)
                    requires
                        x < cols,
                        y < rows,
                        (cols * 10) * (rows * 16) <= u32::MAX,
                ;
                assert(y * CELL_HEIGHT + CELL_HEIGHT <= u32::MAX) by (nonlinear_arith)
                    requires
                        x < cols,
                        y < rows,
                        (cols * 10) * (rows * 16) <= u32::MAX,
                ;
                assert(cols * rows <= u32::MAX) by (nonlinear_arith)
                    requires
                        (cols * 10) * (rows * 16) <= u32::MAX,
                ;
            }
            let idx = (y * cols + x) as usize;
            draw_cell(&mut image, x, y, &screen.cells[idx]);
            x = x + 1;
        }
        assert(y * cols + cols == (y + 1) * cols) by (nonlinear_arith);
        y = y + 1;
    }
    assert(rows * cols == cols * rows) by (nonlinear_arith);
    image
}

/// A symbol only ever paints inside its own cell, plus the column just right of it.
proof fn lemma_symbol_covers_bounds(sym: Seq<char>, x: int, y: int, px: int, py: int)
    requires
        symbol_covers(sym, x, y, px, py),
    ensures
        x <= px <= x + CELL_WIDTH,
        y <= py < y + CELL_HEIGHT,
{
}

/// Cells after the one at `(cx, cy)` in row-major order lie in a later row, or in
/// the same row further right.
proof fn lemma_later_cell(w: int, cx: int, cy: int, i: int)
    requires
        0 <= cx < w,
        0 <= cy,
        cy * w + cx < i,
    ensures
        i / w > cy || (i / w == cy && i % w > cx),
        0 <= i % w < w,
{
    vstd::arithmetic::div_mod::lemma_fundamental_div_mod(i, w);
    vstd::arithmetic::div_mod::lemma_mod_pos_bound(i, w);
    let q = i / w;
    let r = i % w;
    assert(q > cy || (q == cy && r > cx)) by (nonlinear_arith)
        requires
            i == w * q + r,
            0 <= r < w,
            0 <= cx < w,
            0 <= cy,
            cy * w + cx < i,
    ;
}

/// Cells drawn after the one holding `(px, py)` leave that pixel alone.
proof fn lemma_raster_later_cells(screen: Screen, k: int, px: int, py: int)
    requires
        screen.wf(),
        0 <= px < screen.width * CELL_WIDTH,
        0 <= py < screen.height * CELL_HEIGHT,
        (py / CELL_HEIGHT as int) * screen.width + (px / CELL_WIDTH as int) < k,
        k <= screen.width * screen.height,
    ensures
        raster_pixel(screen, k, px, py) == raster_pixel(
            screen,
            (py / CELL_HEIGHT as int) * screen.width + px / CELL_WIDTH as int + 1,
            px,
            py,
        ),
    decreases k,
{
    let w = screen.width as int;
    let cx = px / CELL_WIDTH as int;
    let cy = py / CELL_HEIGHT as int;
    let own = cy * w + cx;
    if k > own + 1 {
        let i = k - 1;
        lemma_raster_later_cells(screen, k - 1, px, py);
        lemma_later_cell(w, cx, cy, i);
        let cell = screen.cells@[i];
        let x0 = (i % w) * CELL_WIDTH;
        let y0 = (i / w) * CELL_HEIGHT;
        if symbol_covers(cell.symbol@, x0, y0, px, py) {
            lemma_symbol_covers_bounds(cell.symbol@, x0, y0, px, py);
        }
    }
}

/// What a cell shows at pixel `(px, py)` of its own 10x16 block: the symbol in
/// the foreground colour over the background colour.
pub open spec fn cell_own_pixel(cell: Cell, x: int, y: int, px: int, py: int) -> Rgb {
    if symbol_covers(cell.symbol@, x, y, px, py) {
        cell_fg(cell)
    } else {
        spec_rgb_for_bg(cell.bg)
    }
}

/// Every pixel of a rasterized screen is decided by the one cell whose 10x16
/// block holds it: neither earlier nor later cells show through.
pub proof fn lemma_raster_cell_local(screen: Screen, px: int, py: int)
    requires
        screen.wf(),
        0 <= px < screen.width * CELL_WIDTH,
        0 <= py < screen.height * CELL_HEIGHT,
    ensures
        ({
            let cx = px / CELL_WIDTH as int;
            let cy = py / CELL_HEIGHT as int;
            raster_pixel(screen, screen.width * screen.height, px, py) == cell_own_pixel(
                screen.cells@[cy * screen.width + cx],
                cx * CELL_WIDTH,
                cy * CELL_HEIGHT,
                px,
                py,
            )
        }),
{
    let w = screen.width as int;
    let h = screen.height as int;
    let cx = px / CELL_WIDTH as int;
    let cy = py / CELL_HEIGHT as int;
    let own = cy * w + cx;
    assert(own < w * h) by (nonlinear_arith)
        requires
            0 <= cx < w,
            0 <= cy < h,
            own == cy * w + cx,
    ;
    lemma_pixel_index(w, h, cx, cy);
    lemma_raster_later_cells(screen, w * h, px, py);
}

} // verus!
