use vstd::arithmetic::div_mod::lemma_fundamental_div_mod_converse;
use vstd::prelude::*;
use vstd::string::StrSliceExecFns;

use crate::cell::Cell;
use crate::field::{lemma_index_bound, Field, FieldError, FieldModel};

verus! {

/// A pattern is usable when it has at least one row and all its rows have
/// the same length.
pub open spec fn rows_rectangular(rows: Seq<Seq<char>>) -> bool {
    &&& rows.len() > 0
    &&& forall|r: int| 0 <= r < rows.len() ==> #[trigger] rows[r].len() == rows[0].len()
}

/// The cell that glyph `c` stands for: alive exactly when it is `alive`.
pub open spec fn glyph_cell(c: char, alive: char) -> Cell {
    if c == alive {
        Cell::Alive
    } else {
        Cell::Dead
    }
}

/// The grid that a rectangular pattern describes: one row per line, one
/// cell per character.
pub open spec fn pattern_model(rows: Seq<Seq<char>>, alive: char) -> FieldModel {
    let w = rows[0].len();
    let h = rows.len();
    FieldModel {
        width: w,
        height: h,
        cells: Seq::new(w * h, |i: int| glyph_cell(rows[i / (w as int)][i % (w as int)], alive)),
    }
}

/// The first `n` cells of the grid that `rows` describes.
spec fn pattern_prefix(rows: Seq<Seq<char>>, alive: char, n: nat) -> Seq<Cell> {
    let w = rows[0].len() as int;
    Seq::new(n, |i: int| glyph_cell(rows[i / w][i % w], alive))
}

/// The glyph that shows cell `c`.
pub open spec fn glyph(c: Cell, alive: char, dead: char) -> char {
    match c {
        Cell::Alive => alive,
        Cell::Dead => dead,
    }
}

/// The lines `rows[0..k]`, each followed by a line break.
pub open spec fn lines_text(rows: Seq<Seq<char>>, k: int) -> Seq<char>
    decreases k,
{
    if k <= 0 {
        Seq::empty()
    } else {
        lines_text(rows, k - 1) + rows[k - 1].push('\n')
    }
}

impl FieldModel {
    /// Row `y` drawn with one glyph per cell.
    pub open spec fn row_text(self, y: int, alive: char, dead: char) -> Seq<char> {
        Seq::new(self.width, |x: int| glyph(self.cell(x, y), alive, dead))
    }

    /// The first `k` rows, each followed by a line break.
    pub open spec fn text_upto(self, k: int, alive: char, dead: char) -> Seq<char>
        decreases k,
    {
        if k <= 0 {
            Seq::empty()
        } else {
            self.text_upto(k - 1, alive, dead) + self.row_text(k - 1, alive, dead).push('\n')
        }
    }

    /// The whole frame.
    pub open spec fn text(self, alive: char, dead: char) -> Seq<char> {
        self.text_upto(self.height as int, alive, dead)
    }
}

/// Relies on `String::push`: appends `c` at the end of `s`.
#[verifier::external_body]
fn push_char(s: &mut String, c: char)
    ensures
        final(s)@ == old(s)@.push(c),
{
    s.push(c);
}

impl Field {
    /// The grid that the text pattern `rows` describes, with `alive` marking
    /// living cells and every other character dead; `FormatError` where
    /// there are no rows or their lengths differ.
    pub fn create_from_pattern(rows: &Vec<String>, alive: char) -> (r: Result<Field, FieldError>)
        ensures
            r is Ok <==> rows_rectangular(rows.deep_view()),
            r is Ok ==> r->Ok_0.wf() && r->Ok_0@ == pattern_model(rows.deep_view(), alive),
            r is Err ==> r->Err_0 == FieldError::FormatError,
    {
        let ghost lines = rows.deep_view();
        let h = rows.len();
        if h == 0 {
            return Err(FieldError::FormatError);
        }
        let w = rows[0].as_str().unicode_len();
        assert(lines[0] == rows@[0]@);
        let mut data: Vec<Cell> = Vec::new();
        let mut y: usize = 0;
        while y < h
            invariant
                lines == rows.deep_view(),
                h == rows@.len(),
                lines.len() == h,
                w == lines[0].len(),
                0 < h,
                y <= h,
                forall|r: int| 0 <= r < y ==> #[trigger] lines[r].len() == w,
                data@ =~= pattern_prefix(lines, alive, (y * w) as nat),
            decreases h - y,
        {
            let line = rows[y].as_str();
            assert(line@ == lines[y as int]);
            if line.unicode_len() != w {
                return Err(FieldError::FormatError);
            }
            let mut x: usize = 0;
            while x < w
                invariant
                    lines == rows.deep_view(),
                    lines.len() == h,
                    w == lines[0].len(),
                    y < h,
                    line@ == lines[y as int],
                    line@.len() == w,
                    x <= w,
                    data@ =~= pattern_prefix(lines, alive, (y * w + x) as nat),
                decreases w - x,
            {
                let c = line.get_char(x);
                proof {
                    lemma_fundamental_div_mod_converse(
                        (y * w + x) as int,
                        w as int,
                        y as int,
                        x as int,
                    );
                }
                data.push(if c == alive { Cell::Alive } else { Cell::Dead });
                x = x + 1;
            }
            assert((y + 1) * w == y * w + w) by (nonlinear_arith);
            y = y + 1;
        }
        assert(h * w == w * h) by (nonlinear_arith);
        Ok(Field::from_cells(w, h, data))
    }

    /// The frame of this grid, drawing living cells as `alive` and dead ones
    /// as `dead`, with a line break after each row.
    pub fn render_with(&self, alive: char, dead: char) -> (r: String)
        requires
            self.wf(),
        ensures
            r@ == self@.text(alive, dead),
    {
        let ghost m = self@;
        let w = self.width();
        let h = self.height();
        let cells = self.cells();
        let n = cells.len();
        let mut s = String::new();
        let mut y: usize = 0;
        while y < h
            invariant
                m == self@,
                m.wf(),
                cells@ == m.cells,
                n == cells@.len(),
                w == m.width,
                h == m.height,
                y <= h,
                s@ == m.text_upto(y as int, alive, dead),
            decreases h - y,
        {
            let mut x: usize = 0;
            while x < w
                invariant
                    m.wf(),
                    cells@ == m.cells,
                    n == cells@.len(),
                    w == m.width,
                    h == m.height,
                    y < h,
                    x <= w,
                    s@ == m.text_upto(y as int, alive, dead) + m.row_text(
                        y as int,
                        alive,
                        dead,
                    ).subrange(0, x as int),
                decreases w - x,
            {
                proof {
                    lemma_index_bound(x as int, y as int, w as int, h as int);
                }
                assert(x + y * w < n);
                let c = cells[x + y * w];
                push_char(&mut s, if c == Cell::Alive { alive } else { dead });
                assert(m.row_text(y as int, alive, dead).subrange(0, x + 1) =~= m.row_text(
                    y as int,
                    alive,
                    dead,
                ).subrange(0, x as int).push(glyph(c, alive, dead)));
                x = x + 1;
            }
            push_char(&mut s, '\n');
            assert(m.row_text(y as int, alive, dead).subrange(0, w as int) =~= m.row_text(
                y as int,
                alive,
                dead,
            ));
            y = y + 1;
        }
        s
    }

    /// The frame of this grid as a terminal shows it: `O` for a living cell,
    /// a space for a dead one, and a line break after each row.
    pub fn render(&self) -> (r: String)
        requires
            self.wf(),
        ensures
            r@ == self@.text('O', ' '),
    {
        self.render_with('O', ' ')
    }
}

} // verus!
