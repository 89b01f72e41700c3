use rand::Rng;
use vstd::arithmetic::div_mod::{lemma_fundamental_div_mod, lemma_fundamental_div_mod_converse};
use vstd::prelude::*;

use crate::cell::{alive_count, count_alive, next_state, Cell};

verus! {

/// Why an operation on a grid was refused.
#[derive(Clone, Copy, PartialEq, Eq, Structural, Debug)]
pub enum FieldError {
    /// A coordinate lies outside the grid.
    OutOfRange,
    /// A text pattern is empty or its rows differ in length.
    FormatError,
}

/// The mathematical picture of a grid: its dimensions and its cells in
/// row-major order, the cell at `(x, y)` standing at `x + y * width`.
pub struct FieldModel {
    pub width: nat,
    pub height: nat,
    pub cells: Seq<Cell>,
}

/// The eight Moore offsets, in the order in which neighbours are listed.
pub open spec fn offset(k: int) -> (int, int) {
    if k == 0 {
        (1, 0)
    } else if k == 1 {
        (1, -1)
    } else if k == 2 {
        (0, -1)
    } else if k == 3 {
        (-1, -1)
    } else if k == 4 {
        (-1, 0)
    } else if k == 5 {
        (-1, 1)
    } else if k == 6 {
        (0, 1)
    } else {
        (1, 1)
    }
}

impl FieldModel {
    /// The buffer holds exactly one cell per position.
    pub open spec fn wf(self) -> bool {
        self.cells.len() == self.width * self.height
    }

    pub open spec fn on_field(self, x: int, y: int) -> bool {
        0 <= x < self.width && 0 <= y < self.height
    }

    pub open spec fn cell(self, x: int, y: int) -> Cell {
        self.cells[x + y * self.width]
    }

    /// The cells at the first `k` offsets around `(x, y)` that lie on the
    /// grid, in offset order.
    pub open spec fn neighbors_upto(self, x: int, y: int, k: int) -> Seq<Cell>
        decreases k,
    {
        if k <= 0 {
            Seq::empty()
        } else {
            let prev = self.neighbors_upto(x, y, k - 1);
            let nx = x + offset(k - 1).0;
            let ny = y + offset(k - 1).1;
            if self.on_field(nx, ny) {
                prev.push(self.cell(nx, ny))
            } else {
                prev
            }
        }
    }

    /// The Moore neighbours of the cell at index `i`, without wraparound.
    pub open spec fn neighbors(self, i: int) -> Seq<Cell> {
        self.neighbors_upto(i % (self.width as int), i / (self.width as int), 8)
    }

    /// The state of the cell at index `i` one generation later.
    pub open spec fn next_cell(self, i: int) -> Cell {
        next_state(self.cells[i], alive_count(self.neighbors(i)))
    }

    /// The whole grid one generation later.
    pub open spec fn next(self) -> FieldModel {
        FieldModel {
            width: self.width,
            height: self.height,
            cells: Seq::new(self.cells.len(), |i: int| self.next_cell(i)),
        }
    }
}

/// An index below `width * height` splits into a column below `width` and a
/// row below `height`.
pub proof fn lemma_index_split(i: int, w: int, h: int)
    requires
        0 <= i < w * h,
        0 < w,
    ensures
        0 <= i % w < w,
        0 <= i / w < h,
        i == i % w + (i / w) * w,
{
    lemma_fundamental_div_mod(i, w);
    let q = i / w;
    let r = i % w;
    assert(0 <= r < w);
    assert(0 <= q < h) by (nonlinear_arith)
        requires
            i == w * q + r,
            0 <= r < w,
            0 <= i < w * h,
            0 < w,
    ;
    assert(i == r + q * w) by (nonlinear_arith)
        requires
            i == w * q + r,
    ;
}

/// A position on a `w` by `h` grid has its index below `w * h`.
pub proof fn lemma_index_bound(x: int, y: int, w: int, h: int)
    requires
        0 <= x < w,
        0 <= y < h,
    ensures
        0 <= x + y * w < w * h,
        y * w <= w * h,
{
    assert(0 <= x + y * w < w * h && y * w <= w * h) by (nonlinear_arith)
        requires
            0 <= x < w,
            0 <= y < h,
    ;
}

/// Relies on rand's `thread_rng().gen_range(0..2)`: an integer drawn from the
/// half-open range `[0, 2)`.
#[verifier::external_body]
fn draw_bit() -> (r: u32)
    ensures
        r < 2,
{
    rand::thread_rng().gen_range(0..2)
}

/// The cell that a random draw of `0` or `1` stands for: `1` is alive.
pub fn cell_from_draw(d: u32) -> (r: Cell)
    ensures
        r == (if d == 1 { Cell::Alive } else { Cell::Dead }),
{
    if d == 1 {
        Cell::Alive
    } else {
        Cell::Dead
    }
}

/// The shift of `c` by `d`, where it stays in `[0, bound)`.
fn shift(c: usize, d: i8, bound: usize) -> (r: Option<usize>)
    requires
        c < bound,
        -1 <= d <= 1,
    ensures
        r is Some <==> 0 <= c + d < bound,
        r is Some ==> r->0 == c + d,
{
    if d < 0 {
        if c == 0 {
            None
        } else {
            Some(c - 1)
        }
    } else if d > 0 {
        if c + 1 < bound {
            Some(c + 1)
        } else {
            None
        }
    } else {
        Some(c)
    }
}

/// The offset at position `k` of the neighbour order.
fn direction(k: usize) -> (r: (i8, i8))
    requires
        k < 8,
    ensures
        r.0 as int == offset(k as int).0,
        r.1 as int == offset(k as int).1,
{
    if k == 0 {
        (1, 0)
    } else if k == 1 {
        (1, -1)
    } else if k == 2 {
        (0, -1)
    } else if k == 3 {
        (-1, -1)
    } else if k == 4 {
        (-1, 0)
    } else if k == 5 {
        (-1, 1)
    } else if k == 6 {
        (0, 1)
    } else {
        (1, 1)
    }
}

/// A grid of cells of fixed width and height. Grids are values: a
/// generation step builds a new grid and leaves the old one untouched.
pub struct Field {
    width: usize,
    height: usize,
    data: Vec<Cell>,
}

impl View for Field {
    type V = FieldModel;

    closed spec fn view(&self) -> FieldModel {
        FieldModel { width: self.width as nat, height: self.height as nat, cells: self.data@ }
    }
}

impl Field {
    pub open spec fn wf(&self) -> bool {
        self@.wf()
    }

    /// A `width` by `height` grid whose cells are each drawn alive or dead
    /// at random.
    pub fn new(width: usize, height: usize) -> (r: Field)
        requires
            width * height <= usize::MAX,
        ensures
            r.wf(),
            r@.width == width,
            r@.height == height,
    {
        let n: usize = width * height;
        let mut data: Vec<Cell> = Vec::new();
        let mut i: usize = 0;
        while i < n
            invariant
                i <= n,
                data@.len() == i,
            decreases n - i,
        {
            let d = draw_bit();
            data.push(cell_from_draw(d));
            i = i + 1;
        }
        let r = Field { width, height, data };
        assert(r@.cells.len() == r@.width * r@.height);
        r
    }

    /// The grid made of `data`, read in row-major order.
    pub(crate) fn from_cells(width: usize, height: usize, data: Vec<Cell>) -> (r: Field)
        requires
            data@.len() == width * height,
        ensures
            r@ == (FieldModel { width: width as nat, height: height as nat, cells: data@ }),
    {
        Field { width, height, data }
    }

    /// The cells in row-major order.
    pub(crate) fn cells(&self) -> (r: &Vec<Cell>)
        ensures
            r@ == self@.cells,
    {
        &self.data
    }

    pub fn width(&self) -> (r: usize)
        ensures
            r == self@.width,
    {
        self.width
    }

    pub fn height(&self) -> (r: usize)
        ensures
            r == self@.height,
    {
        self.height
    }

    /// Whether `(x, y)` lies on the grid.
    pub fn on_field(&self, x: usize, y: usize) -> (r: bool)
        ensures
            r == self@.on_field(x as int, y as int),
    {
        x < self.width && y < self.height
    }

    /// The cell at `(x, y)`, or `OutOfRange` where that lies off the grid.
    pub fn get_cell(&self, x: usize, y: usize) -> (r: Result<Cell, FieldError>)
        requires
            self.wf(),
        ensures
            r is Ok <==> self@.on_field(x as int, y as int),
            r is Ok ==> r->Ok_0 == self@.cell(x as int, y as int),
            r is Err ==> r->Err_0 == FieldError::OutOfRange,
    {
        if self.on_field(x, y) {
            let n = self.data.len();
            proof {
                lemma_index_bound(x as int, y as int, self.width as int, self.height as int);
            }
            assert(x + y * self.width < n);
            Ok(self.data[x + y * self.width])
        } else {
            Err(FieldError::OutOfRange)
        }
    }

    /// The Moore neighbours of the cell at `cell_index` that lie on the grid,
    /// in offset order: corner cells have three, edge cells five, the others
    /// eight.
    pub fn get_neighbor_cells(&self, cell_index: usize) -> (r: Vec<Cell>)
        requires
            self.wf(),
            cell_index < self@.cells.len(),
        ensures
            r@ == self@.neighbors(cell_index as int),
    {
        let ghost m = self@;
        proof {
            if self.width == 0 {
                assert(m.width * m.height == 0) by (nonlinear_arith)
                    requires
                        m.width == 0,
                ;
            }
            lemma_index_split(cell_index as int, self.width as int, self.height as int);
        }
        let x = cell_index % self.width;
        let y = (cell_index - x) / self.width;
        assert(y == cell_index / self.width) by {
            lemma_fundamental_div_mod_converse(
                (cell_index - x) as int,
                self.width as int,
                (cell_index / self.width) as int,
                0,
            );
        }
        let n = self.data.len();
        let mut out: Vec<Cell> = Vec::new();
        let mut k: usize = 0;
        while k < 8
            invariant
                self.wf(),
                m == self@,
                k <= 8,
                x < self.width,
                y < self.height,
                n == self.data@.len(),
                out@ == m.neighbors_upto(x as int, y as int, k as int),
            decreases 8 - k,
        {
            let (dx, dy) = direction(k);
            match (shift(x, dx, self.width), shift(y, dy, self.height)) {
                (Some(nx), Some(ny)) => {
                    proof {
                        lemma_index_bound(nx as int, ny as int, self.width as int, self.height as int);
                    }
                    assert(nx + ny * self.width < n);
                    out.push(self.data[nx + ny * self.width]);
                },
                _ => {},
            }
            k = k + 1;
        }
        out
    }

    /// The state of the cell at `cell_index` in the next generation.
    pub fn calc_next_cell_status(&self, cell_index: usize) -> (r: Cell)
        requires
            self.wf(),
            cell_index < self@.cells.len(),
        ensures
            r == self@.next_cell(cell_index as int),
    {
        let neighbors = self.get_neighbor_cells(cell_index);
        let n = count_alive(&neighbors);
        if n <= 1 || 4 <= n {
            Cell::Dead
        } else if n == 3 {
            Cell::Alive
        } else {
            self.data[cell_index]
        }
    }

    /// The next generation: a new grid of the same size whose every cell
    /// follows the rule from this one.
    pub fn update_data(&self) -> (r: Field)
        requires
            self.wf(),
        ensures
            r.wf(),
            r@ == self@.next(),
    {
        let mut new_data: Vec<Cell> = Vec::new();
        let mut i: usize = 0;
        while i < self.data.len()
            invariant
                self.wf(),
                i <= self.data@.len(),
                new_data@ =~= Seq::new(i as nat, |j: int| self@.next_cell(j)),
            decreases self.data@.len() - i,
        {
            let c = self.calc_next_cell_status(i);
            new_data.push(c);
            i = i + 1;
        }
        let r = Field { width: self.width, height: self.height, data: new_data };
        assert(r@ =~= self@.next());
        r
    }
}

} // verus!
