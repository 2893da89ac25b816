use vstd::prelude::*;

use crate::raster::Color;

verus! {

/// One character drawn at a cell; cells outside the canvas are ignored.
#[derive(Clone, Copy, Debug, PartialEq, Eq, Structural)]
pub struct Plot {
    pub x: i32,
    pub y: i32,
    pub ch: char,
    pub color: Color,
}

/// A grid of coloured characters, row-major.
pub struct Canvas {
    width: usize,
    height: usize,
    cells: Vec<char>,
    colors: Vec<Color>,
}

/// What a canvas cell shows after `plots` are drawn in order over `old`: the
/// last plot that lands on `(x, y)`, or `old` when none does.
pub open spec fn painted(plots: Seq<Plot>, x: int, y: int, old: (char, Color)) -> (char, Color)
    decreases plots.len(),
{
    if plots.len() == 0 {
        old
    } else if plots.last().x == x && plots.last().y == y {
        (plots.last().ch, plots.last().color)
    } else {
        painted(plots.drop_last(), x, y, old)
    }
}

/// Drawing `a` then `b` is drawing `a + b`.
pub proof fn lemma_painted_concat(a: Seq<Plot>, b: Seq<Plot>, x: int, y: int, old: (char, Color))
    ensures
        painted(a + b, x, y, old) == painted(b, x, y, painted(a, x, y, old)),
    decreases b.len(),
{
    if b.len() > 0 {
        assert((a + b).drop_last() =~= a + b.drop_last());
        lemma_painted_concat(a, b.drop_last(), x, y, old);
    }
}

impl Canvas {
    /// The grid sizes agree with the storage and fit terminal coordinates.
    pub closed spec fn wf(&self) -> bool {
        &&& 1 <= self.width <= u16::MAX
        &&& 1 <= self.height <= u16::MAX
        &&& self.cells@.len() == self.width * self.height
        &&& self.colors@.len() == self.width * self.height
    }

    pub closed spec fn spec_width(&self) -> usize {
        self.width
    }

    pub closed spec fn spec_height(&self) -> usize {
        self.height
    }

    /// The character and colour at `(x, y)`.
    pub closed spec fn cell(&self, x: int, y: int) -> (char, Color) {
        (self.cells@[y * self.width + x], self.colors@[y * self.width + x])
    }

    pub open spec fn in_bounds(&self, x: int, y: int) -> bool {
        0 <= x < self.spec_width() && 0 <= y < self.spec_height()
    }

    /// Each cell of `self` is each cell of `old` with `plots` drawn over it.
    pub open spec fn drawn_over(&self, old: &Canvas, plots: Seq<Plot>) -> bool {
        &&& self.wf()
        &&& self.spec_width() == old.spec_width()
        &&& self.spec_height() == old.spec_height()
        &&& forall|x: int, y: int|
            self.in_bounds(x, y) ==> #[trigger] self.cell(x, y) == painted(
                plots,
                x,
                y,
                old.cell(x, y),
            )
    }

    /// A `width` x `height` canvas of blanks in `color`.
    pub fn new(width: usize, height: usize, color: Color) -> (c: Canvas)
        requires
            1 <= width <= u16::MAX,
            1 <= height <= u16::MAX,
        ensures
            c.wf(),
            c.spec_width() == width,
            c.spec_height() == height,
            forall|x: int, y: int| c.in_bounds(x, y) ==> #[trigger] c.cell(x, y) == (' ', color),
    {
        assert(width * height <= u16::MAX * u16::MAX) by (nonlinear_arith)
            requires
                1 <= width <= u16::MAX,
                1 <= height <= u16::MAX,
        ;
        let total = width * height;
        let mut cells: Vec<char> = Vec::new();
        let mut colors: Vec<Color> = Vec::new();
        let mut i: usize = 0;
        while i < total
            invariant
                i <= total,
                cells@.len() == i,
                colors@.len() == i,
                forall|j: int| 0 <= j < i ==> #[trigger] cells@[j] == ' ' && colors@[j] == color,
            decreases total - i,
        {
            cells.push(' ');
            colors.push(color);
            i = i + 1;
        }
        let c = Canvas { width, height, cells, colors };
        assert forall|x: int, y: int| c.in_bounds(x, y) implies #[trigger] c.cell(x, y) == (
            ' ',
            color,
        ) by {
            crate::raster::lemma_pixel_index(width as int, height as int, x, y);
        }
        c
    }

    proof fn lemma_size(&self)
        requires
            self.wf(),
        ensures
            self.width * self.height <= u16::MAX * u16::MAX,
    {
        assert(self.width * self.height <= u16::MAX * u16::MAX) by (nonlinear_arith)
            requires
                1 <= self.width <= u16::MAX,
                1 <= self.height <= u16::MAX,
        ;
    }

    pub fn width(&self) -> (w: usize)
        ensures
            w == self.spec_width(),
    {
        self.width
    }

    pub fn height(&self) -> (h: usize)
        ensures
            h == self.spec_height(),
    {
        self.height
    }

    /// The character and colour at `(x, y)`.
    pub fn get(&self, x: usize, y: usize) -> (c: (char, Color))
        requires
            self.wf(),
            self.in_bounds(x as int, y as int),
        ensures
            c == self.cell(x as int, y as int),
    {
        proof {
            self.lemma_size();
            crate::raster::lemma_pixel_index(self.width as int, self.height as int, x as int, y as int);
        }
        let i = y * self.width + x;
        (self.cells[i], self.colors[i])
    }

    /// Draw `ch` in `color` at `(x, y)` if that cell is on the canvas.
    pub fn plot(&mut self, x: i32, y: i32, ch: char, color: Color)
        requires
            old(self).wf(),
        ensures
            final(self).drawn_over(old(self), seq![Plot { x, y, ch, color }]),
    {
        if y >= 0 && x >= 0 && y < self.height as i32 && x < self.width as i32 {
            proof {
                self.lemma_size();
                crate::raster::lemma_pixel_index(
                    self.width as int,
                    self.height as int,
                    x as int,
                    y as int,
                );
            }
            let i = (y as usize) * self.width + (x as usize);
            self.cells.set(i, ch);
            self.colors.set(i, color);
            proof {
                let p = seq![Plot { x, y, ch, color }];
                assert forall|a: int, b: int| self.in_bounds(a, b) implies #[trigger] self.cell(
                    a,
                    b,
                ) == painted(p, a, b, old(self).cell(a, b)) by {
                    crate::raster::lemma_pixel_index(self.width as int, self.height as int, a, b);
                    reveal_with_fuel(painted, 2);
                }
            }
        } else {
            proof {
                let p = seq![Plot { x, y, ch, color }];
                assert forall|a: int, b: int| self.in_bounds(a, b) implies #[trigger] self.cell(
                    a,
                    b,
                ) == painted(p, a, b, old(self).cell(a, b)) by {
                    reveal_with_fuel(painted, 2);
                }
            }
        }
    }

    /// Draw `plots` in order.
    pub fn plot_all(&mut self, plots: &Vec<Plot>)
        requires
            old(self).wf(),
        ensures
            final(self).drawn_over(old(self), plots@),
    {
        let ghost start = *self;
        let mut i: usize = 0;
        while i < plots.len()
            invariant
                i <= plots@.len(),
                start.wf(),
                self.drawn_over(&start, plots@.take(i as int)),
            decreases plots.len() - i,
        {
            let p = plots[i];
            self.plot(p.x, p.y, p.ch, p.color);
            proof {
                assert(plots@.take(i + 1) =~= plots@.take(i as int) + seq![p]);
                assert forall|a: int, b: int| self.in_bounds(a, b) implies #[trigger] self.cell(
                    a,
                    b,
                ) == painted(plots@.take(i + 1), a, b, start.cell(a, b)) by {
                    lemma_painted_concat(plots@.take(i as int), seq![p], a, b, start.cell(a, b));
                }
            }
            i = i + 1;
        }
        assert(plots@.take(plots@.len() as int) =~= plots@);
    }
}

/// The plots of `f(lo)`, `f(lo + 1)`, ..., `f(lo + n - 1)`, in that order.
pub open spec fn concat_range(f: spec_fn(int) -> Seq<Plot>, lo: int, n: int) -> Seq<Plot>
    decreases n,
{
    if n <= 0 {
        Seq::empty()
    } else {
        concat_range(f, lo, n - 1) + f(lo + n - 1)
    }
}

} // verus!
