use vstd::prelude::*;

verus! {

/// The state of one cell of the grid.
#[derive(Clone, Copy, PartialEq, Eq, Structural, Debug)]
pub enum Cell {
    Alive,
    Dead,
}

/// Number of living cells in `s`.
pub open spec fn alive_count(s: Seq<Cell>) -> nat
    decreases s.len(),
{
    if s.len() == 0 {
        0
    } else {
        alive_count(s.drop_last()) + if s.last() == Cell::Alive { 1nat } else { 0nat }
    }
}

/// The standard rule: a cell with `n` living neighbours dies of loneliness
/// (`n <= 1`) or crowding (`n >= 4`), is alive with exactly three, and keeps
/// its state with exactly two.
pub open spec fn next_state(current: Cell, n: nat) -> Cell {
    if n <= 1 || n >= 4 {
        Cell::Dead
    } else if n == 3 {
        Cell::Alive
    } else {
        current
    }
}

/// Counts the living cells of `cells`.
pub fn count_alive(cells: &Vec<Cell>) -> (r: usize)
    ensures
        r == alive_count(cells@),
{
    let mut n: usize = 0;
    let mut i: usize = 0;
    while i < cells.len()
        invariant
            i <= cells@.len(),
            n == alive_count(cells@.subrange(0, i as int)),
            n <= i,
        decreases cells@.len() - i,
    {
        assert(cells@.subrange(0, i as int + 1).drop_last() =~= cells@.subrange(0, i as int));
        if cells[i] == Cell::Alive {
            n = n + 1;
        }
        i = i + 1;
    }
    assert(cells@.subrange(0, i as int) =~= cells@);
    n
}


} // verus!
