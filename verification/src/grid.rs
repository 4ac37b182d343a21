//! A rectangular character-cell buffer and rectangular views into it.
//!
//! A [`Grid`] owns its cells, row-major. A [`MutGridView`] is an addressing
//! scheme: a rectangle within a grid, against which every access is bounds-
//! checked by contract. Views nest; a sub-view addresses a rectangle of its
//! parent. The view carries no borrow of its own, so one view value can be
//! used for many reads and writes of the same grid.

use vstd::prelude::*;

verus! {

/// A `height x width` buffer of cells, stored row-major.
pub struct Grid<T> {
    data: Vec<T>,
    width: usize,
}

/// A rectangle of a [`Grid`], used to address reads and writes.
#[derive(Clone, Copy, Debug, PartialEq, Eq, Structural)]
pub struct MutGridView {
    start_line_id: usize,
    start_char_id: usize,
    height: usize,
    width: usize,
}

impl<T: Copy> Grid<T> {
    /// The stored cells, row-major.
    pub closed spec fn cells(self) -> Seq<T> {
        self.data@
    }

    pub closed spec fn spec_width(self) -> int {
        self.width as int
    }

    pub open spec fn wf(self) -> bool {
        &&& 0 < self.spec_width() <= usize::MAX
        &&& self.cells().len() == self.spec_height() * self.spec_width()
        &&& self.cells().len() <= usize::MAX
        &&& self.spec_height() <= self.cells().len()
    }

    pub closed spec fn spec_height(self) -> int {
        self.cells().len() as int / self.width as int
    }

    /// A fresh grid with every cell set to `t`.
    pub fn new(height: usize, width: usize, t: T) -> (g: Grid<T>)
        requires
            height * width <= usize::MAX,
            width > 0,
            height > 0,
        ensures
            g.wf(),
            g.spec_height() == height,
            g.spec_width() == width,
            g.cells() =~= Seq::new((height * width) as nat, |i: int| t),
    {
        let n: usize = height * width;
        let mut data: Vec<T> = Vec::new();
        let mut i: usize = 0;
        while i < n
            invariant
                i <= n,
                data@ =~= Seq::new(i as nat, |j: int| t),
            decreases n - i,
        {
            data.push(t);
            i = i + 1;
        }
        proof {
            vstd::arithmetic::div_mod::lemma_fundamental_div_mod_converse(
                n as int,
                width as int,
                height as int,
                0,
            );
            assert(height <= n) by (nonlinear_arith)
                requires
                    n == height * width,
                    width >= 1,
                    height >= 0,
            ;
        }
        Grid { data, width }
    }

    /// The number of lines.
    pub fn height(&self) -> (h: usize)
        requires
            self.wf(),
        ensures
            h == self.spec_height(),
    {
        self.data.len() / self.width
    }

    /// The number of characters per line.
    pub fn width(&self) -> (w: usize)
        ensures
            w == self.spec_width(),
    {
        self.width
    }

    /// The view covering the whole grid.
    pub fn view(&self) -> (v: MutGridView)
        requires
            self.wf(),
        ensures
            v.fits_grid(*self),
            v.spec_height() == self.spec_height(),
            v.spec_width() == self.spec_width(),
            v.spec_start_line() == 0,
            v.spec_start_char() == 0,
    {
        let width = self.width();
        let height = self.height();
        MutGridView { start_line_id: 0, start_char_id: 0, height, width }
    }

    /// The cell at flat index `i`.
    pub closed spec fn spec_cell(self, i: int) -> T {
        self.cells()[i]
    }
}

impl MutGridView {
    pub closed spec fn spec_start_line(self) -> int {
        self.start_line_id as int
    }

    pub closed spec fn spec_start_char(self) -> int {
        self.start_char_id as int
    }

    pub closed spec fn spec_height(self) -> int {
        self.height as int
    }

    pub closed spec fn spec_width(self) -> int {
        self.width as int
    }

    /// Whether this rectangle lies within `g`.
    pub open spec fn fits_grid<T: Copy>(self, g: Grid<T>) -> bool {
        &&& g.wf()
        &&& self.spec_start_line() + self.spec_height() <= g.spec_height()
        &&& self.spec_start_char() + self.spec_width() <= g.spec_width()
    }

    /// The flat grid index of position `(line, ch)` of this view.
    pub open spec fn spec_index<T: Copy>(self, g: Grid<T>, line: int, ch: int) -> int {
        (self.spec_start_line() + line) * g.spec_width() + self.spec_start_char() + ch
    }

    /// Whether flat grid index `i` lies inside this view's rectangle of `g`.
    pub open spec fn covers<T: Copy>(self, g: Grid<T>, i: int) -> bool {
        exists|line: int, ch: int|
            0 <= line < self.spec_height() && 0 <= ch < self.spec_width() && i
                == #[trigger] self.spec_index(g, line, ch)
    }

    /// The number of lines of the view.
    pub fn height(&self) -> (h: usize)
        ensures
            h == self.spec_height(),
    {
        self.height
    }

    /// The number of characters per line of the view.
    pub fn width(&self) -> (w: usize)
        ensures
            w == self.spec_width(),
    {
        self.width
    }

    /// The flat grid index of position `(line, ch)`, executable.
    fn reference_index<T: Copy>(&self, grid: &Grid<T>, line_id: usize, char_id: usize) -> (i:
        usize)
        requires
            self.fits_grid(*grid),
            line_id < self.spec_height(),
            char_id < self.spec_width(),
        ensures
            i == self.spec_index(*grid, line_id as int, char_id as int),
            0 <= i < grid.cells().len(),
            self.covers(*grid, i as int),
    {
        proof {
            lemma_index_in_range(*grid, *self, line_id as int, char_id as int);
        }
        let line: usize = self.start_line_id + line_id;
        line * grid.width + self.start_char_id + char_id
    }

    /// Reads the cell at `(line, ch)` of the view.
    pub fn get<T: Copy>(&self, grid: &Grid<T>, line_id: usize, char_id: usize) -> (t: T)
        requires
            self.fits_grid(*grid),
            line_id < self.spec_height(),
            char_id < self.spec_width(),
        ensures
            t == grid.spec_cell(self.spec_index(*grid, line_id as int, char_id as int)),
    {
        let i = self.reference_index(grid, line_id, char_id);
        grid.data[i]
    }

    /// Writes the cell at `(line, ch)` of the view.
    pub fn set<T: Copy>(&self, grid: &mut Grid<T>, line_id: usize, char_id: usize, t: T)
        requires
            self.fits_grid(*old(grid)),
            line_id < self.spec_height(),
            char_id < self.spec_width(),
        ensures
            final(grid).cells() == old(grid).cells().update(
                self.spec_index(*old(grid), line_id as int, char_id as int),
                t,
            ),
            final(grid).spec_width() == old(grid).spec_width(),
            final(grid).spec_height() == old(grid).spec_height(),
            self.fits_grid(*final(grid)),
    {
        let i = self.reference_index(grid, line_id, char_id);
        grid.data.set(i, t);
    }

    /// Sets every cell of the view to `t`; cells outside the view keep
    /// their value.
    pub fn fill<T: Copy>(&self, grid: &mut Grid<T>, t: T)
        requires
            self.fits_grid(*old(grid)),
        ensures
            final(grid).spec_width() == old(grid).spec_width(),
            final(grid).spec_height() == old(grid).spec_height(),
            self.fits_grid(*final(grid)),
            final(grid).cells().len() == old(grid).cells().len(),
            forall|line: int, ch: int|
                0 <= line < self.spec_height() && 0 <= ch < self.spec_width()
                    ==> final(grid).spec_cell(#[trigger] self.spec_index(*old(grid), line, ch))
                    == t,
            forall|i: int|
                0 <= i < old(grid).cells().len() && !self.covers(*old(grid), i)
                    ==> final(grid).spec_cell(i) == old(grid).spec_cell(i),
    {
        let mut line_id: usize = 0;
        while line_id < self.height
            invariant
                line_id <= self.spec_height(),
                self.fits_grid(*grid),
                grid.spec_width() == old(grid).spec_width(),
                grid.spec_height() == old(grid).spec_height(),
                grid.cells().len() == old(grid).cells().len(),
                forall|l: int, c: int|
                    0 <= l < line_id && 0 <= c < self.spec_width() ==> grid.spec_cell(
                        #[trigger] self.spec_index(*old(grid), l, c),
                    ) == t,
                forall|i: int|
                    0 <= i < old(grid).cells().len() && !self.covers(*old(grid), i)
                        ==> grid.spec_cell(i) == old(grid).spec_cell(i),
            decreases self.spec_height() - line_id,
        {
            let mut char_id: usize = 0;
            while char_id < self.width
                invariant
                    line_id < self.spec_height(),
                    char_id <= self.spec_width(),
                    self.fits_grid(*grid),
                    grid.spec_width() == old(grid).spec_width(),
                    grid.spec_height() == old(grid).spec_height(),
                    grid.cells().len() == old(grid).cells().len(),
                    forall|l: int, c: int|
                        0 <= l < line_id && 0 <= c < self.spec_width() ==> grid.spec_cell(
                            #[trigger] self.spec_index(*old(grid), l, c),
                        ) == t,
                    forall|c: int|
                        0 <= c < char_id ==> grid.spec_cell(
                            #[trigger] self.spec_index(*old(grid), line_id as int, c),
                        ) == t,
                    forall|i: int|
                        0 <= i < old(grid).cells().len() && !self.covers(*old(grid), i)
                            ==> grid.spec_cell(i) == old(grid).spec_cell(i),
                decreases self.spec_width() - char_id,
            {
                proof {
                    lemma_index_in_range(*grid, *self, line_id as int, char_id as int);
                }
                let ghost pre = *grid;
                self.set(grid, line_id, char_id, t);
                proof {
                    let here = self.spec_index(*old(grid), line_id as int, char_id as int);
                    assert(self.spec_index(pre, line_id as int, char_id as int) == here);
                    assert(grid.cells() == pre.cells().update(here, t));
                    assert(self.covers(*old(grid), here));
                    assert forall|l: int, c: int|
                        0 <= l < line_id && 0 <= c < self.spec_width() implies grid.spec_cell(
                        #[trigger] self.spec_index(*old(grid), l, c),
                    ) == t by {
                        lemma_index_in_range(*old(grid), *self, l, c);
                        lemma_index_injective(
                            *old(grid),
                            *self,
                            l,
                            c,
                            line_id as int,
                            char_id as int,
                        );
                    }
                    assert forall|c: int| 0 <= c < char_id + 1 implies grid.spec_cell(
                        #[trigger] self.spec_index(*old(grid), line_id as int, c),
                    ) == t by {
                        if c < char_id {
                            lemma_index_in_range(*old(grid), *self, line_id as int, c);
                            lemma_index_injective(
                                *old(grid),
                                *self,
                                line_id as int,
                                c,
                                line_id as int,
                                char_id as int,
                            );
                        }
                    }
                }
                char_id = char_id + 1;
            }
            line_id = line_id + 1;
        }
    }

    /// The view on the rectangle at `(start_line_id, start_char_id)` of this
    /// view, of size `height x width`.
    pub fn sub_view(&self, start_line_id: usize, start_char_id: usize, height: usize, width:
        usize) -> (v: MutGridView)
        requires
            start_line_id + height <= self.spec_height(),
            start_char_id + width <= self.spec_width(),
            self.spec_start_line() + start_line_id <= usize::MAX,
            self.spec_start_char() + start_char_id <= usize::MAX,
        ensures
            v.spec_start_line() == self.spec_start_line() + start_line_id,
            v.spec_start_char() == self.spec_start_char() + start_char_id,
            v.spec_height() == height,
            v.spec_width() == width,
    {
        MutGridView {
            start_line_id: self.start_line_id + start_line_id,
            start_char_id: self.start_char_id + start_char_id,
            height,
            width,
        }
    }
}

/// A color with 8-bit channels: 0 is none, 255 is full.
#[derive(Clone, Copy, Debug, PartialEq, Eq, Structural)]
pub struct Color {
    pub r: u8,
    pub g: u8,
    pub b: u8,
    pub a: u8,
}

impl Color {
    pub fn white() -> (c: Color)
        ensures
            c == (Color { r: 255, g: 255, b: 255, a: 255 }),
    {
        Color { r: 255, g: 255, b: 255, a: 255 }
    }

    pub fn black() -> (c: Color)
        ensures
            c == (Color { r: 0, g: 0, b: 0, a: 255 }),
    {
        Color { r: 0, g: 0, b: 0, a: 255 }
    }

    pub fn cyan() -> (c: Color)
        ensures
            c == (Color { r: 0, g: 255, b: 255, a: 255 }),
    {
        Color { r: 0, g: 255, b: 255, a: 255 }
    }

    pub fn red() -> (c: Color)
        ensures
            c == (Color { r: 255, g: 0, b: 0, a: 255 }),
    {
        Color { r: 255, g: 0, b: 0, a: 255 }
    }

    pub fn green() -> (c: Color)
        ensures
            c == (Color { r: 0, g: 255, b: 0, a: 255 }),
    {
        Color { r: 0, g: 255, b: 0, a: 255 }
    }

    pub fn blue() -> (c: Color)
        ensures
            c == (Color { r: 0, g: 0, b: 255, a: 255 }),
    {
        Color { r: 0, g: 0, b: 255, a: 255 }
    }

    pub fn yellow() -> (c: Color)
        ensures
            c == (Color { r: 255, g: 255, b: 0, a: 255 }),
    {
        Color { r: 255, g: 255, b: 0, a: 255 }
    }
}

/// One character cell: a glyph and its two colors.
#[derive(Clone, Copy, Debug, PartialEq, Eq, Structural)]
pub struct Cell {
    pub character: char,
    pub foreground: Color,
    pub background: Color,
}

impl Cell {
    /// A blank cell: a space, white on black.
    pub fn new() -> (c: Cell)
        ensures
            c == (Cell { character: ' ', foreground: Color { r: 255, g: 255, b: 255, a: 255 }, background: Color { r: 0, g: 0, b: 0, a: 255 } }),
    {
        Cell { character: ' ', foreground: Color::white(), background: Color::black() }
    }
}

/// A cell overlay: each part is either set or left as it was.
#[derive(Clone, Copy, Debug, PartialEq, Eq, Structural)]
pub struct PreCell {
    pub character: Option<char>,
    pub foreground: Option<Color>,
    pub background: Option<Color>,
}

impl PreCell {
    pub fn new(character: Option<char>, foreground: Option<Color>, background: Option<Color>)
        -> (p: PreCell)
        ensures
            p == (PreCell { character, foreground, background }),
    {
        PreCell { character, foreground, background }
    }
}

/// The cell `c` with the overlay `p` laid over it.
pub open spec fn apply_pre_cell(c: Cell, p: PreCell) -> Cell {
    Cell {
        character: if p.character is Some {
            p.character->0
        } else {
            c.character
        },
        foreground: if p.foreground is Some {
            p.foreground->0
        } else {
            c.foreground
        },
        background: if p.background is Some {
            p.background->0
        } else {
            c.background
        },
    }
}

impl Cell {
    /// Lays the overlay over this cell.
    pub fn apply(&mut self, pre_cell: &PreCell)
        ensures
            *final(self) == apply_pre_cell(*old(self), *pre_cell),
    {
        if let Some(character) = pre_cell.character {
            self.character = character;
        }
        if let Some(foreground) = pre_cell.foreground {
            self.foreground = foreground;
        }
        if let Some(background) = pre_cell.background {
            self.background = background;
        }
    }
}

/// A run of styled characters, ready to be printed into a grid.
pub struct Text {
    entries: Vec<PreCell>,
}

impl View for Text {
    type V = Seq<PreCell>;

    closed spec fn view(&self) -> Seq<PreCell> {
        self.entries@
    }
}

impl Text {
    /// An empty run.
    pub fn new() -> (t: Text)
        ensures
            t@ =~= Seq::empty(),
    {
        Text { entries: Vec::new() }
    }

    /// Extends the run with unstyled characters.
    pub fn raw(self, string: &str) -> (t: Text)
        ensures
            t@ =~= self@ + Seq::new(string@.len(), |i: int| (PreCell {
                character: Some(string@[i]),
                foreground: None,
                background: None,
            })),
    {
        self.styled(string, None, None)
    }

    /// Extends the run with characters in the given colors.
    pub fn styled(self, string: &str, fg: Option<Color>, bg: Option<Color>) -> (t: Text)
        ensures
            t@ =~= self@ + Seq::new(string@.len(), |i: int| (PreCell {
                character: Some(string@[i]),
                foreground: fg,
                background: bg,
            })),
    {
        let ghost orig = self@;
        let mut out = self;
        let n = string.unicode_len();
        let mut i: usize = 0;
        while i < n
            invariant
                i <= n,
                n == string@.len(),
                out.entries@ =~= orig + Seq::new(i as nat, |j: int| (PreCell {
                    character: Some(string@[j]),
                    foreground: fg,
                    background: bg,
                })),
            decreases n - i,
        {
            let c = string.get_char(i);
            out.entries.push(PreCell { character: Some(c), foreground: fg, background: bg });
            i = i + 1;
        }
        out
    }

    /// The number of cells the run covers.
    pub fn len(&self) -> (n: usize)
        ensures
            n == self@.len(),
    {
        self.entries.len()
    }
}

impl MutGridView {
    /// Prints the run starting at `(line_id, char_id)` of the view: each
    /// covered cell gets the run's overlay, every other cell keeps its
    /// value.
    pub fn print(&self, grid: &mut Grid<Cell>, line_id: usize, char_id: usize, text: &Text)
        requires
            self.fits_grid(*old(grid)),
            line_id < self.spec_height(),
            char_id + text@.len() <= self.spec_width(),
        ensures
            final(grid).spec_width() == old(grid).spec_width(),
            final(grid).spec_height() == old(grid).spec_height(),
            self.fits_grid(*final(grid)),
            final(grid).cells().len() == old(grid).cells().len(),
            forall|j: int|
                0 <= j < text@.len() ==> final(grid).spec_cell(
                    #[trigger] self.spec_index(*old(grid), line_id as int, char_id + j),
                ) == apply_pre_cell(
                    old(grid).spec_cell(self.spec_index(*old(grid), line_id as int, char_id + j)),
                    text@[j],
                ),
            forall|l: int, ch: int|
                0 <= l < self.spec_height() && 0 <= ch < self.spec_width() && (l != line_id || ch
                    < char_id || ch >= char_id + text@.len()) ==> final(grid).spec_cell(
                    #[trigger] self.spec_index(*old(grid), l, ch),
                ) == old(grid).spec_cell(self.spec_index(*old(grid), l, ch)),
            forall|i: int|
                0 <= i < old(grid).cells().len() && !self.covers(*old(grid), i)
                    ==> final(grid).spec_cell(i) == old(grid).spec_cell(i),
    {
        let n = text.len();
        let mut j: usize = 0;
        while j < n
            invariant
                j <= n,
                n == text@.len(),
                line_id < self.spec_height(),
                char_id + n <= self.spec_width(),
                self.fits_grid(*grid),
                grid.spec_width() == old(grid).spec_width(),
                grid.spec_height() == old(grid).spec_height(),
                grid.cells().len() == old(grid).cells().len(),
                forall|k: int|
                    0 <= k < j ==> grid.spec_cell(
                        #[trigger] self.spec_index(*old(grid), line_id as int, char_id + k),
                    ) == apply_pre_cell(
                        old(grid).spec_cell(
                            self.spec_index(*old(grid), line_id as int, char_id + k),
                        ),
                        text@[k],
                    ),
                forall|l: int, ch: int|
                    0 <= l < self.spec_height() && 0 <= ch < self.spec_width() && (l != line_id
                        || ch < char_id || ch >= char_id + j) ==> grid.spec_cell(
                        #[trigger] self.spec_index(*old(grid), l, ch),
                    ) == old(grid).spec_cell(self.spec_index(*old(grid), l, ch)),
                forall|i: int|
                    0 <= i < old(grid).cells().len() && !self.covers(*old(grid), i)
                        ==> grid.spec_cell(i) == old(grid).spec_cell(i),
            decreases n - j,
        {
            proof {
                lemma_index_in_range(*grid, *self, line_id as int, (char_id + j) as int);
            }
            let mut cell = self.get(grid, line_id, char_id + j);
            cell.apply(&text.entries[j]);
            let ghost pre = *grid;
            self.set(grid, line_id, char_id + j, cell);
            proof {
                let here = self.spec_index(*old(grid), line_id as int, char_id + j);
                assert(self.spec_index(pre, line_id as int, char_id + j) == here);
                assert(self.covers(*old(grid), here));
                assert forall|k: int| 0 <= k < j + 1 implies grid.spec_cell(
                    #[trigger] self.spec_index(*old(grid), line_id as int, char_id + k),
                ) == apply_pre_cell(
                    old(grid).spec_cell(self.spec_index(*old(grid), line_id as int, char_id + k)),
                    text@[k],
                ) by {
                    if k < j {
                        lemma_index_in_range(*old(grid), *self, line_id as int, char_id + k);
                        lemma_index_injective(
                            *old(grid),
                            *self,
                            line_id as int,
                            char_id + k,
                            line_id as int,
                            (char_id + j) as int,
                        );
                    }
                }
                assert forall|l: int, ch: int|
                    0 <= l < self.spec_height() && 0 <= ch < self.spec_width() && (l != line_id
                        || ch < char_id || ch >= char_id + j + 1) implies grid.spec_cell(
                    #[trigger] self.spec_index(*old(grid), l, ch),
                ) == old(grid).spec_cell(self.spec_index(*old(grid), l, ch)) by {
                    lemma_index_in_range(*old(grid), *self, l, ch);
                    lemma_index_injective(
                        *old(grid),
                        *self,
                        l,
                        ch,
                        line_id as int,
                        (char_id + j) as int,
                    );
                }
            }
            j = j + 1;
        }
    }

    /// Prints the run starting at the left edge of line `line_id`, wrapping
    /// at the view's right edge onto following lines.
    pub fn print_overflowing(&self, grid: &mut Grid<Cell>, line_id: usize, text: &Text)
        requires
            self.fits_grid(*old(grid)),
            self.spec_width() > 0,
            line_id <= self.spec_height(),
            line_id * self.spec_width() + text@.len() <= self.spec_height() * self.spec_width(),
        ensures
            final(grid).spec_width() == old(grid).spec_width(),
            final(grid).spec_height() == old(grid).spec_height(),
            self.fits_grid(*final(grid)),
            final(grid).cells().len() == old(grid).cells().len(),
            forall|j: int|
                0 <= j < text@.len() ==> final(grid).spec_cell(
                    #[trigger] self.spec_index(
                        *old(grid),
                        line_id + j / self.spec_width(),
                        j % self.spec_width(),
                    ),
                ) == apply_pre_cell(
                    old(grid).spec_cell(
                        self.spec_index(
                            *old(grid),
                            line_id + j / self.spec_width(),
                            j % self.spec_width(),
                        ),
                    ),
                    text@[j],
                ),
            forall|l: int, ch: int|
                0 <= l < self.spec_height() && 0 <= ch < self.spec_width() && (l
                    * self.spec_width() + ch < line_id * self.spec_width() || l
                    * self.spec_width() + ch >= line_id * self.spec_width() + text@.len())
                    ==> final(grid).spec_cell(#[trigger] self.spec_index(*old(grid), l, ch))
                    == old(grid).spec_cell(self.spec_index(*old(grid), l, ch)),
            forall|i: int|
                0 <= i < old(grid).cells().len() && !self.covers(*old(grid), i)
                    ==> final(grid).spec_cell(i) == old(grid).spec_cell(i),
    {
        let n = text.len();
        let w = self.width();
        let mut j: usize = 0;
        while j < n
            invariant
                j <= n,
                n == text@.len(),
                w == self.spec_width(),
                w > 0,
                line_id <= self.spec_height(),
                line_id * w + n <= self.spec_height() * w,
                self.fits_grid(*grid),
                grid.spec_width() == old(grid).spec_width(),
                grid.spec_height() == old(grid).spec_height(),
                grid.cells().len() == old(grid).cells().len(),
                forall|k: int|
                    0 <= k < j ==> grid.spec_cell(
                        #[trigger] self.spec_index(
                            *old(grid),
                            line_id + k / self.spec_width(),
                            k % self.spec_width(),
                        ),
                    ) == apply_pre_cell(
                        old(grid).spec_cell(
                            self.spec_index(
                                *old(grid),
                                line_id + k / self.spec_width(),
                                k % self.spec_width(),
                            ),
                        ),
                        text@[k],
                    ),
                forall|l: int, ch: int|
                    0 <= l < self.spec_height() && 0 <= ch < self.spec_width() && (l
                        * self.spec_width() + ch < line_id * self.spec_width() || l
                        * self.spec_width() + ch >= line_id * self.spec_width() + j)
                        ==> grid.spec_cell(#[trigger] self.spec_index(*old(grid), l, ch)) == old(
                        grid,
                    ).spec_cell(self.spec_index(*old(grid), l, ch)),
                forall|i: int|
                    0 <= i < old(grid).cells().len() && !self.covers(*old(grid), i)
                        ==> grid.spec_cell(i) == old(grid).spec_cell(i),
            decreases n - j,
        {
            proof {
                lemma_wrap_position(
                    line_id as int,
                    j as int,
                    w as int,
                    n as int,
                    self.spec_height(),
                );
            }
            let lj: usize = line_id + j / w;
            let cj: usize = j % w;
            proof {
                lemma_index_in_range(*grid, *self, lj as int, cj as int);
            }
            let mut cell = self.get(grid, lj, cj);
            cell.apply(&text.entries[j]);
            let ghost pre = *grid;
            self.set(grid, lj, cj, cell);
            proof {
                let here = self.spec_index(*old(grid), lj as int, cj as int);
                assert(self.spec_index(pre, lj as int, cj as int) == here);
                assert(self.covers(*old(grid), here));
                assert forall|k: int| 0 <= k < j + 1 implies grid.spec_cell(
                    #[trigger] self.spec_index(
                        *old(grid),
                        line_id + k / self.spec_width(),
                        k % self.spec_width(),
                    ),
                ) == apply_pre_cell(
                    old(grid).spec_cell(
                        self.spec_index(
                            *old(grid),
                            line_id + k / self.spec_width(),
                            k % self.spec_width(),
                        ),
                    ),
                    text@[k],
                ) by {
                    lemma_wrap_position(
                        line_id as int,
                        k,
                        w as int,
                        n as int,
                        self.spec_height(),
                    );
                    if k < j {
                        lemma_index_in_range(
                            *old(grid),
                            *self,
                            line_id + k / self.spec_width(),
                            k % self.spec_width(),
                        );
                        lemma_index_injective(
                            *old(grid),
                            *self,
                            line_id + k / self.spec_width(),
                            k % self.spec_width(),
                            lj as int,
                            cj as int,
                        );
                    }
                }
                assert forall|l: int, ch: int|
                    0 <= l < self.spec_height() && 0 <= ch < self.spec_width() && (l
                        * self.spec_width() + ch < line_id * self.spec_width() || l
                        * self.spec_width() + ch >= line_id * self.spec_width() + j + 1)
                        implies grid.spec_cell(#[trigger] self.spec_index(*old(grid), l, ch))
                    == old(grid).spec_cell(self.spec_index(*old(grid), l, ch)) by {
                    lemma_index_in_range(*old(grid), *self, l, ch);
                    lemma_wrap_position(
                        line_id as int,
                        j as int,
                        w as int,
                        n as int,
                        self.spec_height(),
                    );
                    assert((lj as int) * w + cj == line_id * w + j);
                    if l == lj && ch == cj {
                        assert(l * w + ch == line_id * w + j);
                        assert(false);
                    } else {
                        lemma_index_injective(*old(grid), *self, l, ch, lj as int, cj as int);
                    }
                }
            }
            j = j + 1;
        }
    }

    /// Sets the character of every cell of the view to `c`, keeping each
    /// cell's colors; cells outside the view keep their whole value.
    pub fn fill_char(&self, grid: &mut Grid<Cell>, c: char)
        requires
            self.fits_grid(*old(grid)),
        ensures
            final(grid).spec_width() == old(grid).spec_width(),
            final(grid).spec_height() == old(grid).spec_height(),
            self.fits_grid(*final(grid)),
            final(grid).cells().len() == old(grid).cells().len(),
            forall|line: int, ch: int|
                0 <= line < self.spec_height() && 0 <= ch < self.spec_width()
                    ==> final(grid).spec_cell(#[trigger] self.spec_index(*old(grid), line, ch))
                    == (Cell {
                    character: c,
                    ..old(grid).spec_cell(self.spec_index(*old(grid), line, ch))
                }),
            forall|i: int|
                0 <= i < old(grid).cells().len() && !self.covers(*old(grid), i)
                    ==> final(grid).spec_cell(i) == old(grid).spec_cell(i),
    {
        let mut line_id: usize = 0;
        while line_id < self.height()
            invariant
                line_id <= self.spec_height(),
                self.fits_grid(*grid),
                grid.spec_width() == old(grid).spec_width(),
                grid.spec_height() == old(grid).spec_height(),
                grid.cells().len() == old(grid).cells().len(),
                forall|l: int, ch: int|
                    0 <= l < line_id && 0 <= ch < self.spec_width() ==> grid.spec_cell(
                        #[trigger] self.spec_index(*old(grid), l, ch),
                    ) == (Cell {
                        character: c,
                        ..old(grid).spec_cell(self.spec_index(*old(grid), l, ch))
                    }),
                forall|i: int|
                    0 <= i < old(grid).cells().len() && !self.covers(*old(grid), i)
                        ==> grid.spec_cell(i) == old(grid).spec_cell(i),
                forall|l: int, ch: int|
                    0 <= l < self.spec_height() && 0 <= ch < self.spec_width() && l >= line_id
                        ==> grid.spec_cell(#[trigger] self.spec_index(*old(grid), l, ch)) == old(
                        grid,
                    ).spec_cell(self.spec_index(*old(grid), l, ch)),
            decreases self.spec_height() - line_id,
        {
            let mut char_id: usize = 0;
            while char_id < self.width()
                invariant
                    line_id < self.spec_height(),
                    char_id <= self.spec_width(),
                    self.fits_grid(*grid),
                    grid.spec_width() == old(grid).spec_width(),
                    grid.spec_height() == old(grid).spec_height(),
                    grid.cells().len() == old(grid).cells().len(),
                    forall|l: int, ch: int|
                        0 <= l < line_id && 0 <= ch < self.spec_width() ==> grid.spec_cell(
                            #[trigger] self.spec_index(*old(grid), l, ch),
                        ) == (Cell {
                            character: c,
                            ..old(grid).spec_cell(self.spec_index(*old(grid), l, ch))
                        }),
                    forall|ch: int|
                        0 <= ch < char_id ==> grid.spec_cell(
                            #[trigger] self.spec_index(*old(grid), line_id as int, ch),
                        ) == (Cell {
                            character: c,
                            ..old(grid).spec_cell(
                                self.spec_index(*old(grid), line_id as int, ch),
                            )
                        }),
                    forall|i: int|
                        0 <= i < old(grid).cells().len() && !self.covers(*old(grid), i)
                            ==> grid.spec_cell(i) == old(grid).spec_cell(i),
                    forall|l: int, ch: int|
                        0 <= l < self.spec_height() && 0 <= ch < self.spec_width() && (l > line_id
                            || (l == line_id && ch >= char_id)) ==> grid.spec_cell(
                            #[trigger] self.spec_index(*old(grid), l, ch),
                        ) == old(grid).spec_cell(self.spec_index(*old(grid), l, ch)),
                decreases self.spec_width() - char_id,
            {
                proof {
                    lemma_index_in_range(*grid, *self, line_id as int, char_id as int);
                }
                let old_cell = self.get(grid, line_id, char_id);
                let ghost pre = *grid;
                self.set(
                    grid,
                    line_id,
                    char_id,
                    Cell { character: c, foreground: old_cell.foreground, background: old_cell.background },
                );
                proof {
                    let here = self.spec_index(*old(grid), line_id as int, char_id as int);
                    assert(self.spec_index(pre, line_id as int, char_id as int) == here);
                    assert(self.covers(*old(grid), here));
                    assert forall|l: int, ch: int|
                        0 <= l < line_id && 0 <= ch < self.spec_width() implies grid.spec_cell(
                        #[trigger] self.spec_index(*old(grid), l, ch),
                    ) == (Cell {
                        character: c,
                        ..old(grid).spec_cell(self.spec_index(*old(grid), l, ch))
                    }) by {
                        lemma_index_in_range(*old(grid), *self, l, ch);
                        lemma_index_injective(
                            *old(grid),
                            *self,
                            l,
                            ch,
                            line_id as int,
                            char_id as int,
                        );
                    }
                    assert forall|ch: int| 0 <= ch < char_id + 1 implies grid.spec_cell(
                        #[trigger] self.spec_index(*old(grid), line_id as int, ch),
                    ) == (Cell {
                        character: c,
                        ..old(grid).spec_cell(self.spec_index(*old(grid), line_id as int, ch))
                    }) by {
                        if ch < char_id {
                            lemma_index_in_range(*old(grid), *self, line_id as int, ch);
                            lemma_index_injective(
                                *old(grid),
                                *self,
                                line_id as int,
                                ch,
                                line_id as int,
                                char_id as int,
                            );
                        }
                    }
                    assert forall|l: int, ch: int|
                        0 <= l < self.spec_height() && 0 <= ch < self.spec_width() && (l > line_id
                            || (l == line_id && ch >= char_id + 1)) implies grid.spec_cell(
                        #[trigger] self.spec_index(*old(grid), l, ch),
                    ) == old(grid).spec_cell(self.spec_index(*old(grid), l, ch)) by {
                        lemma_index_in_range(*old(grid), *self, l, ch);
                        lemma_index_injective(
                            *old(grid),
                            *self,
                            l,
                            ch,
                            line_id as int,
                            char_id as int,
                        );
                    }
                }
                char_id = char_id + 1;
            }
            line_id = line_id + 1;
        }
    }
}

impl MutGridView {
    /// Writes only the character of the cell at `(line, ch)` of the view.
    fn set_char(&self, grid: &mut Grid<Cell>, line_id: usize, char_id: usize, c: char)
        requires
            self.fits_grid(*old(grid)),
            line_id < self.spec_height(),
            char_id < self.spec_width(),
        ensures
            final(grid).cells() == old(grid).cells().update(
                self.spec_index(*old(grid), line_id as int, char_id as int),
                (Cell {
                    character: c,
                    ..old(grid).spec_cell(
                        self.spec_index(*old(grid), line_id as int, char_id as int),
                    )
                }),
            ),
            final(grid).spec_width() == old(grid).spec_width(),
            final(grid).spec_height() == old(grid).spec_height(),
            self.fits_grid(*final(grid)),
            self.covers(*old(grid), self.spec_index(*old(grid), line_id as int, char_id as int)),
            0 <= self.spec_index(*old(grid), line_id as int, char_id as int) < old(
                grid,
            ).cells().len(),
    {
        proof {
            lemma_index_in_range(*old(grid), *self, line_id as int, char_id as int);
        }
        let old_cell = self.get(grid, line_id, char_id);
        self.set(
            grid,
            line_id,
            char_id,
            Cell { character: c, foreground: old_cell.foreground, background: old_cell.background },
        );
    }

    /// Draws a one-cell border along the view's edge and returns the view
    /// on the interior. Cells outside the view keep their value; the
    /// border changes only characters, never colors.
    pub fn block(&self, grid: &mut Grid<Cell>) -> (inner: MutGridView)
        requires
            self.fits_grid(*old(grid)),
            2 <= self.spec_height(),
            2 <= self.spec_width(),
        ensures
            final(grid).spec_width() == old(grid).spec_width(),
            final(grid).spec_height() == old(grid).spec_height(),
            final(grid).cells().len() == old(grid).cells().len(),
            self.fits_grid(*final(grid)),
            inner.spec_start_line() == self.spec_start_line() + 1,
            inner.spec_start_char() == self.spec_start_char() + 1,
            inner.spec_height() == self.spec_height() - 2,
            inner.spec_width() == self.spec_width() - 2,
            inner.fits_grid(*final(grid)),
            forall|i: int|
                0 <= i < old(grid).cells().len() && !self.covers(*old(grid), i)
                    ==> final(grid).spec_cell(i) == old(grid).spec_cell(i),
    {
        let last_line = self.height() - 1;
        let last_char = self.width() - 1;

        let mut l: usize = 1;
        while l < last_line
            invariant
                1 <= l <= last_line,
                last_line == self.spec_height() - 1,
                last_char == self.spec_width() - 1,
                self.fits_grid(*grid),
                grid.spec_width() == old(grid).spec_width(),
                grid.spec_height() == old(grid).spec_height(),
                grid.cells().len() == old(grid).cells().len(),
                forall|i: int|
                    0 <= i < old(grid).cells().len() && !self.covers(*old(grid), i)
                        ==> grid.spec_cell(i) == old(grid).spec_cell(i),
            decreases last_line - l,
        {
            let ghost pre1 = *grid;
            self.set_char(grid, l, 0, '│');
            proof {
                lemma_covers_same_geometry(
                    pre1,
                    *old(grid),
                    *self,
                    self.spec_index(pre1, l as int, 0),
                );
            }
            let ghost pre2 = *grid;
            self.set_char(grid, l, last_char, '│');
            proof {
                lemma_covers_same_geometry(
                    pre2,
                    *old(grid),
                    *self,
                    self.spec_index(pre2, l as int, last_char as int),
                );
            }
            l = l + 1;
        }

        let mut c: usize = 1;
        while c < last_char
            invariant
                1 <= c <= last_char,
                last_line == self.spec_height() - 1,
                last_char == self.spec_width() - 1,
                self.fits_grid(*grid),
                grid.spec_width() == old(grid).spec_width(),
                grid.spec_height() == old(grid).spec_height(),
                grid.cells().len() == old(grid).cells().len(),
                forall|i: int|
                    0 <= i < old(grid).cells().len() && !self.covers(*old(grid), i)
                        ==> grid.spec_cell(i) == old(grid).spec_cell(i),
            decreases last_char - c,
        {
            let ghost pre1 = *grid;
            self.set_char(grid, 0, c, '─');
            proof {
                lemma_covers_same_geometry(
                    pre1,
                    *old(grid),
                    *self,
                    self.spec_index(pre1, 0, c as int),
                );
            }
            let ghost pre2 = *grid;
            self.set_char(grid, last_line, c, '─');
            proof {
                lemma_covers_same_geometry(
                    pre2,
                    *old(grid),
                    *self,
                    self.spec_index(pre2, last_line as int, c as int),
                );
            }
            c = c + 1;
        }

        let ghost pre1 = *grid;
        self.set_char(grid, 0, 0, '┌');
        proof {
            lemma_covers_same_geometry(pre1, *old(grid), *self, self.spec_index(pre1, 0, 0));
        }
        let ghost pre2 = *grid;
        self.set_char(grid, 0, last_char, '┐');
        proof {
            lemma_covers_same_geometry(
                pre2,
                *old(grid),
                *self,
                self.spec_index(pre2, 0, last_char as int),
            );
        }
        let ghost pre3 = *grid;
        self.set_char(grid, last_line, 0, '└');
        proof {
            lemma_covers_same_geometry(
                pre3,
                *old(grid),
                *self,
                self.spec_index(pre3, last_line as int, 0),
            );
        }
        let ghost pre4 = *grid;
        self.set_char(grid, last_line, last_char, '┘');
        proof {
            lemma_covers_same_geometry(
                pre4,
                *old(grid),
                *self,
                self.spec_index(pre4, last_line as int, last_char as int),
            );
        }

        self.sub_view(1, 1, last_line - 1, last_char - 1)
    }

    /// Draws the border plus a vertical separator after `left_width` inner
    /// columns, and returns the view on the left pane together with the
    /// rectangle of the right pane, as `(line, ch, height, width)` within
    /// this view.
    pub fn split_block(&self, grid: &mut Grid<Cell>, left_width: usize) -> (r: (
        MutGridView,
        (usize, usize, usize, usize),
    ))
        requires
            self.fits_grid(*old(grid)),
            3 <= self.spec_height(),
            left_width + 3 <= self.spec_width(),
        ensures
            final(grid).spec_width() == old(grid).spec_width(),
            final(grid).spec_height() == old(grid).spec_height(),
            final(grid).cells().len() == old(grid).cells().len(),
            self.fits_grid(*final(grid)),
            r.0.spec_start_line() == self.spec_start_line() + 1,
            r.0.spec_start_char() == self.spec_start_char() + 1,
            r.0.spec_height() == self.spec_height() - 2,
            r.0.spec_width() == left_width,
            r.0.fits_grid(*final(grid)),
            r.1 == (
                1usize,
                (left_width + 2) as usize,
                (self.spec_height() - 2) as usize,
                (self.spec_width() - 3 - left_width) as usize,
            ),
            forall|i: int|
                0 <= i < old(grid).cells().len() && !self.covers(*old(grid), i)
                    ==> final(grid).spec_cell(i) == old(grid).spec_cell(i),
    {
        let inner = self.block(grid);
        let sep_id = left_width + 1;

        let last_line = self.height() - 1;
        let mut l: usize = 1;
        while l < last_line
            invariant
                1 <= l <= last_line,
                last_line == self.spec_height() - 1,
                sep_id == left_width + 1,
                sep_id < self.spec_width() - 1,
                self.fits_grid(*grid),
                grid.spec_width() == old(grid).spec_width(),
                grid.spec_height() == old(grid).spec_height(),
                grid.cells().len() == old(grid).cells().len(),
                forall|i: int|
                    0 <= i < old(grid).cells().len() && !self.covers(*old(grid), i)
                        ==> grid.spec_cell(i) == old(grid).spec_cell(i),
            decreases last_line - l,
        {
            let ghost pre = *grid;
            self.set_char(grid, l, sep_id, '│');
            proof {
                lemma_covers_same_geometry(
                    pre,
                    *old(grid),
                    *self,
                    self.spec_index(pre, l as int, sep_id as int),
                );
            }
            l = l + 1;
        }

        let ghost pre1 = *grid;
        self.set_char(grid, 0, sep_id, '┬');
        proof {
            lemma_covers_same_geometry(
                pre1,
                *old(grid),
                *self,
                self.spec_index(pre1, 0, sep_id as int),
            );
        }
        let ghost pre2 = *grid;
        self.set_char(grid, last_line, sep_id, '┴');
        proof {
            lemma_covers_same_geometry(
                pre2,
                *old(grid),
                *self,
                self.spec_index(pre2, last_line as int, sep_id as int),
            );
        }

        let left = self.sub_view(1, 1, last_line - 1, left_width);
        let right_height = self.height() - 2;
        let right_width = self.width() - 3 - left_width;
        (left, (1, sep_id + 1, right_height, right_width))
    }

    /// Sets the foreground color of every cell of the view, keeping each
    /// cell's character and background; cells outside keep their value.
    pub fn fill_foreground(&self, grid: &mut Grid<Cell>, color: Color)
        requires
            self.fits_grid(*old(grid)),
        ensures
            final(grid).spec_width() == old(grid).spec_width(),
            final(grid).spec_height() == old(grid).spec_height(),
            final(grid).cells().len() == old(grid).cells().len(),
            self.fits_grid(*final(grid)),
            forall|line: int, ch: int|
                0 <= line < self.spec_height() && 0 <= ch < self.spec_width()
                    ==> final(grid).spec_cell(#[trigger] self.spec_index(*old(grid), line, ch))
                    == (Cell {
                    foreground: color,
                    ..old(grid).spec_cell(self.spec_index(*old(grid), line, ch))
                }),
            forall|i: int|
                0 <= i < old(grid).cells().len() && !self.covers(*old(grid), i)
                    ==> final(grid).spec_cell(i) == old(grid).spec_cell(i),
    {
        let mut line_id: usize = 0;
        while line_id < self.height()
            invariant
                line_id <= self.spec_height(),
                self.fits_grid(*grid),
                grid.spec_width() == old(grid).spec_width(),
                grid.spec_height() == old(grid).spec_height(),
                grid.cells().len() == old(grid).cells().len(),
                forall|l: int, ch: int|
                    0 <= l < line_id && 0 <= ch < self.spec_width() ==> grid.spec_cell(
                        #[trigger] self.spec_index(*old(grid), l, ch),
                    ) == (Cell {
                        foreground: color,
                        ..old(grid).spec_cell(self.spec_index(*old(grid), l, ch))
                    }),
                forall|l: int, ch: int|
                    0 <= l < self.spec_height() && 0 <= ch < self.spec_width() && l >= line_id
                        ==> grid.spec_cell(#[trigger] self.spec_index(*old(grid), l, ch)) == old(
                        grid,
                    ).spec_cell(self.spec_index(*old(grid), l, ch)),
                forall|i: int|
                    0 <= i < old(grid).cells().len() && !self.covers(*old(grid), i)
                        ==> grid.spec_cell(i) == old(grid).spec_cell(i),
            decreases self.spec_height() - line_id,
        {
            let mut char_id: usize = 0;
            while char_id < self.width()
                invariant
                    line_id < self.spec_height(),
                    char_id <= self.spec_width(),
                    self.fits_grid(*grid),
                    grid.spec_width() == old(grid).spec_width(),
                    grid.spec_height() == old(grid).spec_height(),
                    grid.cells().len() == old(grid).cells().len(),
                    forall|l: int, ch: int|
                        0 <= l < line_id && 0 <= ch < self.spec_width() ==> grid.spec_cell(
                            #[trigger] self.spec_index(*old(grid), l, ch),
                        ) == (Cell {
                            foreground: color,
                            ..old(grid).spec_cell(self.spec_index(*old(grid), l, ch))
                        }),
                    forall|ch: int|
                        0 <= ch < char_id ==> grid.spec_cell(
                            #[trigger] self.spec_index(*old(grid), line_id as int, ch),
                        ) == (Cell {
                            foreground: color,
                            ..old(grid).spec_cell(
                                self.spec_index(*old(grid), line_id as int, ch),
                            )
                        }),
                    forall|l: int, ch: int|
                        0 <= l < self.spec_height() && 0 <= ch < self.spec_width() && (l > line_id
                            || (l == line_id && ch >= char_id)) ==> grid.spec_cell(
                            #[trigger] self.spec_index(*old(grid), l, ch),
                        ) == old(grid).spec_cell(self.spec_index(*old(grid), l, ch)),
                    forall|i: int|
                        0 <= i < old(grid).cells().len() && !self.covers(*old(grid), i)
                            ==> grid.spec_cell(i) == old(grid).spec_cell(i),
                decreases self.spec_width() - char_id,
            {
                proof {
                    lemma_index_in_range(*grid, *self, line_id as int, char_id as int);
                }
                let old_cell = self.get(grid, line_id, char_id);
                let ghost pre = *grid;
                self.set(
                    grid,
                    line_id,
                    char_id,
                    Cell {
                        character: old_cell.character,
                        foreground: color,
                        background: old_cell.background,
                    },
                );
                proof {
                    let here = self.spec_index(*old(grid), line_id as int, char_id as int);
                    assert(self.spec_index(pre, line_id as int, char_id as int) == here);
                    assert(self.covers(*old(grid), here));
                    assert forall|l: int, ch: int|
                        0 <= l < line_id && 0 <= ch < self.spec_width() implies grid.spec_cell(
                        #[trigger] self.spec_index(*old(grid), l, ch),
                    ) == (Cell {
                        foreground: color,
                        ..old(grid).spec_cell(self.spec_index(*old(grid), l, ch))
                    }) by {
                        lemma_index_in_range(*old(grid), *self, l, ch);
                        lemma_index_injective(
                            *old(grid),
                            *self,
                            l,
                            ch,
                            line_id as int,
                            char_id as int,
                        );
                    }
                    assert forall|ch: int| 0 <= ch < char_id + 1 implies grid.spec_cell(
                        #[trigger] self.spec_index(*old(grid), line_id as int, ch),
                    ) == (Cell {
                        foreground: color,
                        ..old(grid).spec_cell(self.spec_index(*old(grid), line_id as int, ch))
                    }) by {
                        if ch < char_id {
                            lemma_index_in_range(*old(grid), *self, line_id as int, ch);
                            lemma_index_injective(
                                *old(grid),
                                *self,
                                line_id as int,
                                ch,
                                line_id as int,
                                char_id as int,
                            );
                        }
                    }
                    assert forall|l: int, ch: int|
                        0 <= l < self.spec_height() && 0 <= ch < self.spec_width() && (l > line_id
                            || (l == line_id && ch >= char_id + 1)) implies grid.spec_cell(
                        #[trigger] self.spec_index(*old(grid), l, ch),
                    ) == old(grid).spec_cell(self.spec_index(*old(grid), l, ch)) by {
                        lemma_index_in_range(*old(grid), *self, l, ch);
                        lemma_index_injective(
                            *old(grid),
                            *self,
                            l,
                            ch,
                            line_id as int,
                            char_id as int,
                        );
                    }
                }
                char_id = char_id + 1;
            }
            line_id = line_id + 1;
        }
    }
}

/// A view covering a flat index of one grid covers it in every grid of the
/// same width: the rectangle's addressing depends only on the width.
proof fn lemma_covers_same_geometry<T: Copy, U: Copy>(
    g1: Grid<T>,
    g2: Grid<U>,
    v: MutGridView,
    i: int,
)
    requires
        g1.spec_width() == g2.spec_width(),
        v.covers(g1, i),
    ensures
        v.covers(g2, i),
{
    let (line, ch): (int, int) = choose|line: int, ch: int|
        0 <= line < v.spec_height() && 0 <= ch < v.spec_width() && i == #[trigger] v.spec_index(
            g1,
            line,
            ch,
        );
    assert(i == v.spec_index(g2, line, ch));
}

/// A wrapped printing position lies inside the view: the `j`-th character
/// of a run that starts at the left edge of `line_id` sits at line
/// `line_id + j / w`, column `j % w`, and that position's flat offset from
/// the view's origin is `line_id * w + j`.
proof fn lemma_wrap_position(line_id: int, j: int, w: int, n: int, height: int)
    requires
        0 < w,
        0 <= line_id <= height,
        0 <= j < n,
        line_id * w + n <= height * w,
    ensures
        0 <= j % w < w,
        line_id + j / w < height,
        0 <= j / w,
        (line_id + j / w) * w + j % w == line_id * w + j,
{
    vstd::arithmetic::div_mod::lemma_fundamental_div_mod(j, w);
    assert(0 <= j % w < w && 0 <= j / w) by (nonlinear_arith)
        requires
            j == w * (j / w) + j % w,
            0 <= j,
            0 < w,
    ;
    assert((line_id + j / w) * w + j % w == line_id * w + j) by (nonlinear_arith)
        requires
            j == w * (j / w) + j % w,
    ;
    assert(line_id + j / w < height) by (nonlinear_arith)
        requires
            (line_id + j / w) * w + j % w == line_id * w + j,
            line_id * w + j < line_id * w + n,
            line_id * w + n <= height * w,
            0 <= j % w,
            0 < w,
    ;
}

/// A position inside a view maps to a flat index inside the grid, and every
/// intermediate sum and product stays within the grid's cell count.
proof fn lemma_index_in_range<T: Copy>(g: Grid<T>, v: MutGridView, line: int, ch: int)
    requires
        v.fits_grid(g),
        0 <= line < v.spec_height(),
        0 <= ch < v.spec_width(),
    ensures
        0 <= v.spec_index(g, line, ch) < g.cells().len(),
        v.covers(g, v.spec_index(g, line, ch)),
        v.spec_start_line() + line < g.spec_height(),
        0 <= (v.spec_start_line() + line) * g.spec_width() <= v.spec_index(g, line, ch),
{
    let w = g.spec_width();
    let h = g.spec_height();
    let abs_line = v.spec_start_line() + line;
    let abs_ch = v.spec_start_char() + ch;
    assert(0 <= abs_line < h);
    assert(0 <= abs_ch < w);
    assert(abs_line * w + abs_ch < h * w && 0 <= abs_line * w) by (nonlinear_arith)
        requires
            0 <= abs_line < h,
            0 <= abs_ch < w,
            0 < w,
    ;
    assert(g.cells().len() == h * w);
}

/// Distinct positions of a view address distinct flat indexes.
proof fn lemma_index_injective<T: Copy>(
    g: Grid<T>,
    v: MutGridView,
    l1: int,
    c1: int,
    l2: int,
    c2: int,
)
    requires
        v.fits_grid(g),
        0 <= l1 < v.spec_height(),
        0 <= c1 < v.spec_width(),
        0 <= l2 < v.spec_height(),
        0 <= c2 < v.spec_width(),
        (l1, c1) != (l2, c2),
    ensures
        v.spec_index(g, l1, c1) != v.spec_index(g, l2, c2),
{
    let w = g.spec_width();
    let a1 = v.spec_start_line() + l1;
    let b1 = v.spec_start_char() + c1;
    let a2 = v.spec_start_line() + l2;
    let b2 = v.spec_start_char() + c2;
    assert(0 <= b1 < w && 0 <= b2 < w);
    vstd::arithmetic::div_mod::lemma_fundamental_div_mod_converse(a1 * w + b1, w, a1, b1);
    vstd::arithmetic::div_mod::lemma_fundamental_div_mod_converse(a2 * w + b2, w, a2, b2);
}

} // verus!
