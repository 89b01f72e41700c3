use game_of_life::cell::count_alive;
use game_of_life::field::cell_from_draw;
use game_of_life::{Cell, Field, FieldError};

const A: Cell = Cell::Alive;
const D: Cell = Cell::Dead;

fn rows(lines: &[&str]) -> Vec<String> {
    lines.iter().map(|l| l.to_string()).collect()
}

fn cells(f: &Field) -> Vec<Cell> {
    let mut out = Vec::new();
    for y in 0..f.height() {
        for x in 0..f.width() {
            out.push(f.get_cell(x, y).unwrap());
        }
    }
    out
}

fn alive_indices(f: &Field) -> Vec<usize> {
    cells(f)
        .iter()
        .enumerate()
        .filter(|(_, c)| **c == Cell::Alive)
        .map(|(i, _)| i)
        .collect()
}

fn scenario() -> Field {
    Field::create_from_pattern(&rows(&["■ ■", "  ■", " ■ "]), '■').unwrap()
}

#[test]
fn scenario_pattern_parses() {
    let f = scenario();
    assert_eq!(f.width(), 3);
    assert_eq!(f.height(), 3);
    assert_eq!(alive_indices(&f), vec![0, 2, 5, 7]);
}

#[test]
fn scenario_next_generation_follows_rule_table() {
    let f = scenario();
    let counts: Vec<usize> = (0..9).map(|i| count_alive(&f.get_neighbor_cells(i))).collect();
    assert_eq!(counts, vec![0, 3, 1, 2, 4, 2, 1, 1, 2]);
    let next = f.update_data();
    assert_eq!(alive_indices(&next), vec![1, 5]);
    assert_eq!(next.get_cell(1, 1), Ok(Cell::Dead));
    for i in 0..9 {
        assert_eq!(next.get_cell(i % 3, i / 3).unwrap(), f.calc_next_cell_status(i));
    }
}

#[test]
fn neighbors_of_center_in_offset_order() {
    let f = scenario();
    assert_eq!(
        f.get_neighbor_cells(4),
        vec![A, A, D, A, D, D, A, D]
    );
}

#[test]
fn next_generation_keeps_size() {
    let f = Field::create_from_pattern(&rows(&["■  ■■", " ■■  "]), '■').unwrap();
    let g = f.update_data();
    assert_eq!((g.width(), g.height()), (5, 2));
    let r = Field::new(7, 4);
    let s = r.update_data();
    assert_eq!((s.width(), s.height()), (7, 4));
}

#[test]
fn blinker_oscillates() {
    let f = Field::create_from_pattern(&rows(&["     ", "  #  ", "  #  ", "  #  ", "     "]), '#')
        .unwrap();
    let g = f.update_data();
    assert_eq!(g.render_with('#', '.'), ".....\n.....\n.###.\n.....\n.....\n");
    let h = g.update_data();
    assert_eq!(h.render_with('#', ' '), "     \n  #  \n  #  \n  #  \n     \n");
}

#[test]
fn block_is_stable() {
    let f = Field::create_from_pattern(&rows(&["    ", " ## ", " ## ", "    "]), '#').unwrap();
    assert_eq!(f.update_data().render_with('#', ' '), "    \n ## \n ## \n    \n");
}

#[test]
fn crowded_cell_dies_and_three_give_birth() {
    let f = Field::create_from_pattern(&rows(&["##.", "##.", "#.."]), '#').unwrap();
    let g = f.update_data();
    // (0,1) is alive with four living neighbours and dies.
    assert_eq!(g.get_cell(0, 1), Ok(Cell::Dead));
    // (1,1) is alive with four living neighbours and dies.
    assert_eq!(g.get_cell(1, 1), Ok(Cell::Dead));
    // (1,2) is dead with three living neighbours and comes alive.
    assert_eq!(g.get_cell(1, 2), Ok(Cell::Alive));
    // (1,0) is alive with three living neighbours and survives.
    assert_eq!(g.get_cell(1, 0), Ok(Cell::Alive));
    // (2,2) is dead with one living neighbour and stays dead.
    assert_eq!(g.get_cell(2, 2), Ok(Cell::Dead));
}

#[test]
fn two_neighbors_keep_state() {
    let f = Field::create_from_pattern(&rows(&["#.#", "...", "..."]), '#').unwrap();
    let g = f.update_data();
    // (1,0) is dead with two living neighbours and stays dead.
    assert_eq!(g.get_cell(1, 0), Ok(Cell::Dead));
    let f = Field::create_from_pattern(&rows(&["##.", "#..", "..."]), '#').unwrap();
    let g = f.update_data();
    // (0,1) is alive with two living neighbours and stays alive.
    assert_eq!(g.get_cell(0, 1), Ok(Cell::Alive));
}

#[test]
fn neighbor_counts_by_position() {
    let f = Field::new(4, 4);
    assert_eq!(f.get_neighbor_cells(0).len(), 3);
    assert_eq!(f.get_neighbor_cells(3).len(), 3);
    assert_eq!(f.get_neighbor_cells(12).len(), 3);
    assert_eq!(f.get_neighbor_cells(15).len(), 3);
    assert_eq!(f.get_neighbor_cells(1).len(), 5);
    assert_eq!(f.get_neighbor_cells(4).len(), 5);
    assert_eq!(f.get_neighbor_cells(7).len(), 5);
    assert_eq!(f.get_neighbor_cells(14).len(), 5);
    assert_eq!(f.get_neighbor_cells(5).len(), 8);
    assert_eq!(f.get_neighbor_cells(10).len(), 8);
    let small = Field::new(2, 2);
    for i in 0..4 {
        assert_eq!(small.get_neighbor_cells(i).len(), 3);
    }
}

#[test]
fn cell_at_out_of_range() {
    let f = scenario();
    assert_eq!(f.get_cell(3, 0), Err(FieldError::OutOfRange));
    assert_eq!(f.get_cell(0, 3), Err(FieldError::OutOfRange));
    assert_eq!(f.get_cell(3, 3), Err(FieldError::OutOfRange));
    assert_eq!(f.get_cell(usize::MAX, usize::MAX), Err(FieldError::OutOfRange));
    assert_eq!(f.get_cell(2, 1), Ok(Cell::Alive));
    assert_eq!(f.get_cell(1, 1), Ok(Cell::Dead));
    assert!(f.on_field(2, 2));
    assert!(!f.on_field(2, 3));
    let empty = Field::new(0, 0);
    assert_eq!(empty.get_cell(0, 0), Err(FieldError::OutOfRange));
}

#[test]
fn render_of_parsed_pattern_gives_it_back() {
    let lines = ["■ ■", "  ■", " ■ "];
    let f = Field::create_from_pattern(&rows(&lines), '■').unwrap();
    assert_eq!(f.render_with('■', ' '), "■ ■\n  ■\n ■ \n");
    assert_eq!(f.render(), "O O\n  O\n O \n");
}

#[test]
fn malformed_patterns_are_refused() {
    assert_eq!(Field::create_from_pattern(&Vec::new(), '■').err(), Some(FieldError::FormatError));
    assert_eq!(
        Field::create_from_pattern(&rows(&["■ ■", "■"]), '■').err(),
        Some(FieldError::FormatError)
    );
    assert_eq!(
        Field::create_from_pattern(&rows(&["■", "■■", "■"]), '■').err(),
        Some(FieldError::FormatError)
    );
}

#[test]
fn empty_rows_make_a_zero_width_grid() {
    let f = Field::create_from_pattern(&rows(&["", ""]), '■').unwrap();
    assert_eq!((f.width(), f.height()), (0, 2));
    assert_eq!(f.render(), "\n\n");
}

#[test]
fn single_cell_always_dies() {
    for glyph in ["#", "."] {
        let f = Field::create_from_pattern(&rows(&[glyph]), '#').unwrap();
        assert!(f.get_neighbor_cells(0).is_empty());
        assert_eq!(f.update_data().get_cell(0, 0), Ok(Cell::Dead));
    }
}

#[test]
fn random_grid_has_requested_size() {
    let f = Field::new(6, 3);
    assert_eq!((f.width(), f.height()), (6, 3));
    let text = f.render();
    assert_eq!(text.chars().count(), 6 * 3 + 3);
    assert!(text.chars().all(|c| c == 'O' || c == ' ' || c == '\n'));
    assert_eq!(text.lines().count(), 3);
}

#[test]
fn draws_map_to_cells() {
    assert_eq!(cell_from_draw(1), Cell::Alive);
    assert_eq!(cell_from_draw(0), Cell::Dead);
}

#[test]
fn counts_living_cells() {
    assert_eq!(count_alive(&vec![]), 0);
    assert_eq!(count_alive(&vec![A, D, A, A, D]), 3);
}
