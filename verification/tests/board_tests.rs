use gridpath::board::Board;
use gridpath::board::BoardError;
use gridpath::board::Pos;
use gridpath::board::MARKER;

const LEVEL_0: [&str; 4] = ["....", "...:", ".::.", "..:."];

fn level_rows(rows: &[&str]) -> Vec<Vec<u8>> {
    rows.iter().map(|s| s.as_bytes().to_vec()).collect()
}

#[test]
fn board_size() {
    let b = Board::new(level_rows(&LEVEL_0), true).unwrap();
    assert_eq!(b.width, 4);
    assert_eq!(b.height, 4);
}

#[test]
fn succ_no_diag() {
    let b = Board::new(level_rows(&LEVEL_0), false).unwrap();

    assert_eq!(4, b.moveable_directions.len());

    let s00 = b.successors(&Pos(0, 0));
    assert_eq!(2, s00.len());
}

#[test]
fn succ_corners() {
    let b = Board::new(level_rows(&LEVEL_0), true).unwrap();
    let max_row: i16 = b.height as i16 - 1;
    let max_col: i16 = b.width as i16 - 1;
    let lt = b.successors(&Pos(0, 0));
    let rt = b.successors(&Pos(max_col, 0));
    let lb = b.successors(&Pos(0, max_row));
    let rb = b.successors(&Pos(max_col, max_row));
    assert_eq!(lt.len(), 3, "RightTop");
    assert_eq!(rt.len(), 3, "RightTop");
    assert_eq!(lb.len(), 3, "LeftBottom");
    assert_eq!(rb.len(), 3, "RightBottom");
}

#[test]
fn succ_1_1() {
    let b = Board::new(level_rows(&LEVEL_0), true).unwrap();
    let p1_1 = b.successors(&Pos(1, 1));
    assert_eq!(p1_1.len(), 8, "frame col cnt");
    assert_eq!(p1_1[0].pos, Pos(0, 0));
    assert_eq!(p1_1[1].pos, Pos(0, 1));
    assert_eq!(p1_1[2].pos, Pos(0, 2));
}

#[test]
fn new_rejects_empty_level() {
    let r = Board::new(Vec::new(), true);
    assert_eq!(r.err(), Some(BoardError::InvalidLevel));
}

#[test]
fn new_rejects_ragged_rows() {
    let r = Board::new(level_rows(&["....", "..."]), false);
    assert_eq!(r.err(), Some(BoardError::InvalidLevel));
}

#[test]
fn new_rejects_empty_rows() {
    let r = Board::new(level_rows(&["", ""]), true);
    assert_eq!(r.err(), Some(BoardError::InvalidLevel));
}

#[test]
fn diag_mask_order() {
    let b = Board::new(level_rows(&LEVEL_0), true).unwrap();
    let expected: Vec<(i16, i16)> = vec![
        (-1, -1),
        (-1, 0),
        (-1, 1),
        (0, -1),
        (0, 1),
        (1, -1),
        (1, 0),
        (1, 1),
    ];
    assert_eq!(b.moveable_directions, expected);
}

#[test]
fn ortho_mask_order() {
    let b = Board::new(level_rows(&LEVEL_0), false).unwrap();
    let expected: Vec<(i16, i16)> = vec![(0, -1), (-1, 0), (1, 0), (1, 1)];
    assert_eq!(b.moveable_directions, expected);
}

#[test]
fn successors_deterministic() {
    let b = Board::new(level_rows(&LEVEL_0), true).unwrap();
    for col in 0..4i16 {
        for row in 0..4i16 {
            let first = b.successors(&Pos(col, row));
            let second = b.successors(&Pos(col, row));
            assert_eq!(first, second);
        }
    }
}

#[test]
fn successors_stay_on_grid() {
    let b = Board::new(level_rows(&LEVEL_0), true).unwrap();
    for col in -2..6i16 {
        for row in -2..6i16 {
            for s in b.successors(&Pos(col, row)) {
                assert!(s.pos.0 >= 0 && s.pos.0 < b.width as i16);
                assert!(s.pos.1 >= 0 && s.pos.1 < b.height as i16);
            }
        }
    }
}

#[test]
fn successor_costs_read_from_grid() {
    let b = Board::new(level_rows(&LEVEL_0), true).unwrap();
    let s = b.successors(&Pos(1, 1));
    // Deltas in cartesian order; '.' is 46, ':' is 58.
    assert_eq!(s[0].pos, Pos(0, 0));
    assert_eq!(s[0].cost, 46);
    assert_eq!(s[4].pos, Pos(1, 2));
    assert_eq!(s[4].cost, 58);
    assert_eq!(s[7].pos, Pos(2, 2));
    assert_eq!(s[7].cost, 58);
}

#[test]
fn ortho_corner_counts() {
    let b = Board::new(level_rows(&LEVEL_0), false).unwrap();
    assert_eq!(b.successors(&Pos(0, 0)).len(), 2);
    assert_eq!(b.successors(&Pos(0, 3)).len(), 2);
    assert_eq!(b.successors(&Pos(3, 3)).len(), 2);
    // The asymmetric 4-delta mask leaves the top-right corner one successor.
    assert_eq!(b.successors(&Pos(3, 0)).len(), 1);
}

#[test]
fn ortho_interior_count() {
    let b = Board::new(level_rows(&LEVEL_0), false).unwrap();
    assert_eq!(b.successors(&Pos(1, 1)).len(), 4);
    assert_eq!(b.successors(&Pos(2, 2)).len(), 4);
}

#[test]
fn end_to_end_masks() {
    let no_diag = Board::new(level_rows(&LEVEL_0), false).unwrap();
    assert_eq!(no_diag.successors(&Pos(0, 0)).len(), 2);

    let diag = Board::new(level_rows(&LEVEL_0), true).unwrap();
    assert_eq!(diag.successors(&Pos(0, 0)).len(), 3);
    let s = diag.successors(&Pos(1, 1));
    assert_eq!(s.len(), 8);
    assert_eq!(s[0].pos, Pos(0, 0));
    assert_eq!(s[1].pos, Pos(0, 1));
    assert_eq!(s[2].pos, Pos(0, 2));
}

#[test]
fn render_without_path() {
    let b = Board::new(level_rows(&LEVEL_0), true).unwrap();
    let rows = b.render(None);
    assert_eq!(rows, level_rows(&LEVEL_0));
}

#[test]
fn render_marks_path_cells() {
    let b = Board::new(level_rows(&LEVEL_0), true).unwrap();
    // Unsorted on purpose: the renderer does not ask for sorted input.
    let rows = b.render(Some(vec![Pos(2, 3), Pos(1, 0)]));
    assert_eq!(rows, level_rows(&[".X..", "...:", ".::.", "..X."]));
    assert_eq!(rows[0][1], MARKER);
}

#[test]
fn render_ignores_positions_off_grid() {
    let b = Board::new(level_rows(&LEVEL_0), true).unwrap();
    let rows = b.render(Some(vec![Pos(-1, 0), Pos(9, 9)]));
    assert_eq!(rows, level_rows(&LEVEL_0));
}
