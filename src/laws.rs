use vstd::arithmetic::div_mod::lemma_fundamental_div_mod_converse;
use vstd::prelude::*;

use crate::cell::{alive_count, Cell};
use crate::field::{lemma_index_bound, lemma_index_split, FieldModel};
use crate::pattern::{glyph, glyph_cell, lines_text, pattern_model, rows_rectangular};

verus! {

/// A generation step keeps the width and the height, and yields a
/// well-formed grid.
pub proof fn lemma_next_keeps_size(f: FieldModel)
    requires
        f.wf(),
    ensures
        f.next().width == f.width,
        f.next().height == f.height,
        f.next().wf(),
{
}

/// The rule table: with at most one or at least four living neighbours a
/// cell is dead next generation, with exactly three it is alive, and with
/// exactly two it keeps its state.
pub proof fn lemma_rule_table(f: FieldModel, i: int)
    requires
        f.wf(),
        0 <= i < f.cells.len(),
    ensures
        alive_count(f.neighbors(i)) <= 1 ==> f.next().cells[i] == Cell::Dead,
        alive_count(f.neighbors(i)) >= 4 ==> f.next().cells[i] == Cell::Dead,
        alive_count(f.neighbors(i)) == 3 ==> f.next().cells[i] == Cell::Alive,
        alive_count(f.neighbors(i)) == 2 ==> f.next().cells[i] == f.cells[i],
{
}

/// On a grid at least two cells wide and high, a corner cell has three
/// neighbours, a cell on an edge but not in a corner five, and any other
/// cell eight.
pub proof fn lemma_neighbor_count(f: FieldModel, i: int)
    requires
        f.wf(),
        f.width >= 2,
        f.height >= 2,
        0 <= i < f.cells.len(),
    ensures
        ({
            let x = i % (f.width as int);
            let y = i / (f.width as int);
            let x_edge = x == 0 || x == f.width - 1;
            let y_edge = y == 0 || y == f.height - 1;
            &&& x_edge && y_edge ==> f.neighbors(i).len() == 3
            &&& x_edge != y_edge ==> f.neighbors(i).len() == 5
            &&& !x_edge && !y_edge ==> f.neighbors(i).len() == 8
        }),
{
    lemma_index_split(i, f.width as int, f.height as int);
    reveal_with_fuel(FieldModel::neighbors_upto, 9);
}

/// A grid of a single cell: that cell has no neighbours, so it is dead after
/// one generation whatever its state.
pub proof fn lemma_single_cell_dies(f: FieldModel)
    requires
        f.wf(),
        f.width == 1,
        f.height == 1,
    ensures
        f.neighbors(0).len() == 0,
        f.next().cells[0] == Cell::Dead,
{
    assert(f.cells.len() == 1) by (nonlinear_arith)
        requires
            f.cells.len() == f.width * f.height,
            f.width == 1,
            f.height == 1,
    ;
    reveal_with_fuel(FieldModel::neighbors_upto, 9);
}

/// A pattern without rows, or with two rows of different lengths, is not
/// rectangular, and so is refused with `FormatError`.
pub proof fn lemma_malformed_pattern(rows: Seq<Seq<char>>, a: int, b: int)
    requires
        rows.len() == 0 || (0 <= a < rows.len() && 0 <= b < rows.len() && rows[a].len()
            != rows[b].len()),
    ensures
        !rows_rectangular(rows),
{
}

/// Rendering a parsed pattern with the glyph that marked living cells and
/// the one other glyph it used gives back the pattern's lines, each followed
/// by a line break.
pub proof fn lemma_render_parse_round_trip(rows: Seq<Seq<char>>, alive: char, dead: char)
    requires
        rows_rectangular(rows),
        alive != dead,
        forall|r: int, c: int|
            0 <= r < rows.len() && 0 <= c < rows[r].len() ==> #[trigger] rows[r][c] == alive
                || rows[r][c] == dead,
    ensures
        pattern_model(rows, alive).wf(),
        pattern_model(rows, alive).text(alive, dead) == lines_text(rows, rows.len() as int),
{
    lemma_text_prefix(rows, alive, dead, rows.len() as int);
}

proof fn lemma_text_prefix(rows: Seq<Seq<char>>, alive: char, dead: char, k: int)
    requires
        rows_rectangular(rows),
        alive != dead,
        forall|r: int, c: int|
            0 <= r < rows.len() && 0 <= c < rows[r].len() ==> #[trigger] rows[r][c] == alive
                || rows[r][c] == dead,
        0 <= k <= rows.len(),
    ensures
        pattern_model(rows, alive).text_upto(k, alive, dead) == lines_text(rows, k),
    decreases k,
{
    if k > 0 {
        let m = pattern_model(rows, alive);
        let w = m.width as int;
        let y = k - 1;
        lemma_text_prefix(rows, alive, dead, y);
        assert forall|x: int| 0 <= x < w implies #[trigger] m.row_text(y, alive, dead)[x]
            == rows[y][x] by {
            lemma_fundamental_div_mod_converse(x + y * w, w, y, x);
            lemma_index_bound(x, y, w, m.height as int);
            let c = rows[y][x];
            assert(m.cells[x + y * w] == glyph_cell(c, alive));
            assert(rows[y].len() == w);
            assert(glyph(glyph_cell(c, alive), alive, dead) == c);
        }
        assert(m.row_text(y, alive, dead) =~= rows[y]);
    }
}

} // verus!
