use tetris_core::cell::{Cell, CellMatrix, Point};
use tetris_core::game::{
    clear_line, full_line, initialize_game_state, left_input, left_rotate_input, render_frame,
    right_input, right_rotate_input, update_state, GameState,
};
use tetris_core::tetromino::{tetromino_from_draw, FallingTetromino, TetrominoState};
use tetris_core::universe::Universe;

fn solid_at(matrix: &CellMatrix) -> Vec<usize> {
    matrix
        .data
        .iter()
        .enumerate()
        .filter(|(_, c)| **c == Cell::Solid)
        .map(|(i, _)| i)
        .collect()
}

#[test]
fn test_fresh_grid_borders_and_floor() {
    let u = Universe::new();
    assert_eq!(u.width, 12);
    assert_eq!(u.height, 23);
    for y in 0..23 {
        assert_eq!(u.get_cell(0, y), Cell::Solid);
        assert_eq!(u.get_cell(11, y), Cell::Solid);
    }
    for x in 0..12 {
        assert_eq!(u.get_cell(x, 22), Cell::Solid);
    }
    for y in 0..22 {
        for x in 1..11 {
            assert_eq!(u.get_cell(x, y), Cell::Empty);
        }
    }
}

#[test]
fn test_concrete_fresh_grid_row0_and_floor() {
    let gs = initialize_game_state(0, 0);
    assert_eq!(gs.universe.get_cell(0, 0), Cell::Solid);
    for x in 1..=10 {
        assert_eq!(gs.universe.get_cell(x, 0), Cell::Empty);
    }
    assert_eq!(gs.universe.get_cell(11, 0), Cell::Solid);
    assert_eq!(gs.universe.get_cell(5, 22), Cell::Solid);
}

#[test]
fn test_rotation_closure_all_shapes() {
    for draw in 0..7u8 {
        for rot in 0..4i8 {
            let mut t = TetrominoState {
                data: tetromino_from_draw(draw),
                rotation: rot,
            };
            let before = t.get_matrix();
            t.rotate_left();
            t.rotate_left();
            t.rotate_left();
            t.rotate_left();
            let after = t.get_matrix();
            assert_eq!(before.data, after.data);
        }
    }
}

#[test]
fn test_rotation_inverse_both_ways() {
    for draw in 0..7u8 {
        for rot in 0..4i8 {
            let mut t = TetrominoState {
                data: tetromino_from_draw(draw),
                rotation: rot,
            };
            let before = t.get_matrix();
            t.rotate_left();
            t.rotate_right();
            assert_eq!(before.data, t.get_matrix().data);
            t.rotate_right();
            t.rotate_left();
            assert_eq!(before.data, t.get_matrix().data);
        }
    }
}

#[test]
fn test_rotated_matrices_of_i_piece() {
    // The I piece occupies column 1 in its base orientation.
    let base = TetrominoState { data: tetromino_from_draw(0), rotation: 0 };
    assert_eq!(solid_at(&base.get_matrix()), vec![1, 5, 9, 13]);
    // One left turn: transpose then mirror within columns puts it on row 2.
    let left = TetrominoState { data: tetromino_from_draw(0), rotation: 1 };
    assert_eq!(solid_at(&left.get_matrix()), vec![8, 9, 10, 11]);
    // A half turn moves the bar to column 2.
    let half = TetrominoState { data: tetromino_from_draw(0), rotation: 2 };
    assert_eq!(solid_at(&half.get_matrix()), vec![2, 6, 10, 14]);
    // The opposite quarter turn puts it on row 1.
    let right = TetrominoState { data: tetromino_from_draw(0), rotation: 3 };
    assert_eq!(solid_at(&right.get_matrix()), vec![4, 5, 6, 7]);
    // Counts congruent modulo 4 materialize identically.
    let left_neg = TetrominoState { data: tetromino_from_draw(0), rotation: -3 };
    assert_eq!(solid_at(&left_neg.get_matrix()), vec![8, 9, 10, 11]);
    let half_neg = TetrominoState { data: tetromino_from_draw(0), rotation: -2 };
    assert_eq!(solid_at(&half_neg.get_matrix()), vec![2, 6, 10, 14]);
    let right_neg = TetrominoState { data: tetromino_from_draw(0), rotation: -1 };
    assert_eq!(solid_at(&right_neg.get_matrix()), vec![4, 5, 6, 7]);
}

#[test]
fn test_shape_draw_reduced_modulo_seven() {
    assert_eq!(tetromino_from_draw(7), tetromino_from_draw(0));
    assert_eq!(tetromino_from_draw(13), tetromino_from_draw(6));
    assert_eq!(tetromino_from_draw(255), tetromino_from_draw(255 % 7));
}

#[test]
fn test_can_place_open_interior_and_wall_overlap() {
    let u = Universe::new();
    let i_piece = TetrominoState { data: tetromino_from_draw(0), rotation: 0 };
    let m = i_piece.get_matrix();
    // Interior placements are free in a fresh grid.
    assert!(u.can_place_matrix(&m, Point { x: 4, y: 0 }));
    assert!(u.can_place_matrix(&m, Point { x: 0, y: 0 }));
    assert!(u.can_place_matrix(&m, Point { x: 9, y: 18 }));
    // Column 1 of the matrix lands on the right wall at x = 10.
    assert!(!u.can_place_matrix(&m, Point { x: 10, y: 0 }));
    // The bar's lowest cell lands on the floor at y = 19.
    assert!(!u.can_place_matrix(&m, Point { x: 4, y: 19 }));
}

#[test]
fn test_can_place_empty_matrix_anywhere() {
    let u = Universe::new();
    let empty = CellMatrix::new(vec![Cell::Empty; 16]);
    assert!(u.can_place_matrix(&empty, Point { x: 0, y: 0 }));
    assert!(u.can_place_matrix(&empty, Point { x: 10, y: 21 }));
    assert!(u.can_place_matrix(&empty, Point { x: 8, y: 19 }));
}

#[test]
fn test_can_place_only_solid_cells_tested() {
    let u = Universe::new();
    // A matrix solid only at its last cell: at (8, 19) that cell lands on
    // (11, 22), the wall-floor corner, so placement fails; one column to
    // the left it lands on (10, 22), still the floor, so it fails too;
    // one row higher it lands on (10, 21), an interior cell, and succeeds
    // even though the matrix frame would overlap walls if empty cells
    // counted.
    let mut cells = vec![Cell::Empty; 16];
    cells[15] = Cell::Solid;
    let m = CellMatrix::new(cells);
    assert!(!u.can_place_matrix(&m, Point { x: 8, y: 19 }));
    assert!(!u.can_place_matrix(&m, Point { x: 7, y: 19 }));
    assert!(u.can_place_matrix(&m, Point { x: 7, y: 18 }));
}

#[test]
fn test_lock_and_respawn() {
    // An O piece (draw 1) falls from the spawn anchor; its solid rows are
    // 1 and 2, so it locks when they rest on the floor-adjacent rows.
    let mut gs = initialize_game_state(1, 0);
    assert_eq!(gs.active_tetromino.position, Point { x: 4, y: 0 });
    for expected_y in 1..=19 {
        update_state(&mut gs, 0, 0);
        assert_eq!(gs.active_tetromino.position, Point { x: 4, y: expected_y });
    }
    // The next tick cannot move the piece down: it locks and a fresh piece
    // spawns at the anchor.
    update_state(&mut gs, 2, 3);
    assert_eq!(gs.active_tetromino.position, Point { x: 4, y: 0 });
    assert_eq!(gs.active_tetromino.tetromino.rotation, 3);
    assert_eq!(gs.active_tetromino.tetromino.data, tetromino_from_draw(2));
    // The O piece's four cells are now solid in the grid.
    assert_eq!(gs.universe.get_cell(5, 20), Cell::Solid);
    assert_eq!(gs.universe.get_cell(6, 20), Cell::Solid);
    assert_eq!(gs.universe.get_cell(5, 21), Cell::Solid);
    assert_eq!(gs.universe.get_cell(6, 21), Cell::Solid);
    // Nothing else changed.
    assert_eq!(gs.universe.get_cell(4, 21), Cell::Empty);
    assert_eq!(gs.universe.get_cell(7, 20), Cell::Empty);
}

#[test]
fn test_fall_leaves_grid_unchanged() {
    let mut gs = initialize_game_state(3, 2);
    let before = gs.universe.cells.clone();
    update_state(&mut gs, 0, 0);
    assert_eq!(gs.universe.cells, before);
    assert_eq!(gs.active_tetromino.position, Point { x: 4, y: 1 });
}

#[test]
fn test_line_clear_shifts_rows_down() {
    let mut u = Universe::new();
    // Fill row 20, mark row 19 and row 0 with distinctive cells.
    for x in 0..12 {
        u.cells[20 * 12 + x] = Cell::Solid;
    }
    u.cells[19 * 12 + 3] = Cell::Solid;
    u.cells[0 * 12 + 4] = Cell::Solid;
    let mut gs = GameState { active_tetromino: FallingTetromino::new(0, 0), universe: u };
    clear_line(&mut gs, 20);
    // Row 20 now holds what row 19 held.
    assert_eq!(gs.universe.get_cell(3, 20), Cell::Solid);
    for x in 1..11 {
        if x != 3 {
            assert_eq!(gs.universe.get_cell(x, 20), Cell::Empty);
        }
    }
    // The marker moved out of row 19: row 19 took row 18, which was empty.
    assert_eq!(gs.universe.get_cell(3, 19), Cell::Empty);
    // Row 1 took row 0's marker.
    assert_eq!(gs.universe.get_cell(4, 1), Cell::Solid);
    // Row 0 keeps its own content: the topmost row is never reset.
    assert_eq!(gs.universe.get_cell(4, 0), Cell::Solid);
    assert_eq!(gs.universe.get_cell(3, 0), Cell::Empty);
    // The floor and the walls are untouched.
    for x in 0..12 {
        assert_eq!(gs.universe.get_cell(x, 22), Cell::Solid);
    }
    for y in 0..23 {
        assert_eq!(gs.universe.get_cell(0, y), Cell::Solid);
        assert_eq!(gs.universe.get_cell(11, y), Cell::Solid);
    }
}

#[test]
fn test_tick_clears_completed_line() {
    // Pre-fill row 21 except the four columns an I bar will cover, then
    // drop a horizontal I into the gap: the lock completes the row and the
    // same tick clears it.
    let mut u = Universe::new();
    for x in 1..11 {
        if !(4..8).contains(&x) {
            u.cells[21 * 12 + x] = Cell::Solid;
        }
    }
    // A horizontal I (row 1 of its matrix solid) at the spawn column.
    let piece = FallingTetromino {
        tetromino: TetrominoState { data: tetromino_from_draw(0), rotation: 3 },
        position: Point { x: 4, y: 0 },
    };
    let mut gs = GameState { active_tetromino: piece, universe: u };
    // It falls until its solid row rests on the floor, then locks.
    for _ in 0..21 {
        update_state(&mut gs, 5, 1);
    }
    assert_eq!(gs.active_tetromino.position, Point { x: 4, y: 0 });
    assert_eq!(gs.active_tetromino.tetromino.data, tetromino_from_draw(5));
    assert_eq!(gs.active_tetromino.tetromino.rotation, 1);
    // Row 21 was completed and cleared: it took row 20, which was empty.
    for x in 1..11 {
        assert_eq!(gs.universe.get_cell(x, 21), Cell::Empty);
    }
}

#[test]
fn test_full_line_detection() {
    let mut u = Universe::new();
    for x in 0..12 {
        u.cells[10 * 12 + x] = Cell::Solid;
    }
    let gs = GameState { active_tetromino: FallingTetromino::new(0, 0), universe: u };
    assert!(full_line(&gs, 10));
    assert!(!full_line(&gs, 9));
    // The floor row is always full; a fresh interior row never is.
    assert!(full_line(&gs, 22));
    assert!(!full_line(&gs, 21));
}

#[test]
fn test_blocked_left_input_at_wall() {
    // The I bar's solid column is column 1 of its matrix, so at x = 0 that
    // column sits at grid column 1, adjacent to the left wall.
    let mut gs = initialize_game_state(0, 0);
    for expected_x in [3, 2, 1, 0] {
        left_input(&mut gs);
        assert_eq!(gs.active_tetromino.position, Point { x: expected_x, y: 0 });
    }
    left_input(&mut gs);
    assert_eq!(gs.active_tetromino.position, Point { x: 0, y: 0 });
    left_input(&mut gs);
    assert_eq!(gs.active_tetromino.position, Point { x: 0, y: 0 });
}

#[test]
fn test_blocked_left_input_by_stack() {
    // A solid cell directly left of the piece's solid column blocks the move.
    let mut u = Universe::new();
    u.cells[3 * 12 + 4] = Cell::Solid;
    let piece = FallingTetromino {
        tetromino: TetrominoState { data: tetromino_from_draw(0), rotation: 0 },
        position: Point { x: 4, y: 0 },
    };
    let mut gs = GameState { active_tetromino: piece, universe: u };
    left_input(&mut gs);
    assert_eq!(gs.active_tetromino.position, Point { x: 4, y: 0 });
}

#[test]
fn test_right_input_until_wall() {
    let mut gs = initialize_game_state(0, 0);
    for expected_x in 5..=9 {
        right_input(&mut gs);
        assert_eq!(gs.active_tetromino.position, Point { x: expected_x, y: 0 });
    }
    // At x = 9 the bar sits on column 10; one more step would put it on
    // the right wall.
    right_input(&mut gs);
    assert_eq!(gs.active_tetromino.position, Point { x: 9, y: 0 });
}

#[test]
fn test_rotation_commits_in_open_space() {
    let mut gs = initialize_game_state(0, 0);
    left_rotate_input(&mut gs);
    assert_eq!(gs.active_tetromino.tetromino.rotation, 1);
    right_rotate_input(&mut gs);
    assert_eq!(gs.active_tetromino.tetromino.rotation, 0);
    right_rotate_input(&mut gs);
    assert_eq!(gs.active_tetromino.tetromino.rotation, -1);
}

#[test]
fn test_rotation_blocked_at_floor() {
    // A horizontal I resting just above the floor cannot turn upright:
    // the upright bar would reach below the floor, so the rotation is
    // rejected in place — there is no kick.
    let piece = FallingTetromino {
        tetromino: TetrominoState { data: tetromino_from_draw(0), rotation: 3 },
        position: Point { x: 4, y: 20 },
    };
    let mut gs = GameState { active_tetromino: piece, universe: Universe::new() };
    left_rotate_input(&mut gs);
    assert_eq!(gs.active_tetromino.tetromino.rotation, 3);
    assert_eq!(gs.active_tetromino.position, Point { x: 4, y: 20 });
    right_rotate_input(&mut gs);
    assert_eq!(gs.active_tetromino.tetromino.rotation, 3);
    assert_eq!(gs.active_tetromino.position, Point { x: 4, y: 20 });
}

#[test]
fn test_rotation_blocked_by_stack() {
    // A solid cell where the rotated bar would land keeps the orientation.
    let mut u = Universe::new();
    u.cells[2 * 12 + 7] = Cell::Solid;
    let piece = FallingTetromino {
        tetromino: TetrominoState { data: tetromino_from_draw(0), rotation: 0 },
        position: Point { x: 4, y: 0 },
    };
    let mut gs = GameState { active_tetromino: piece, universe: u };
    // One left turn would put the bar on matrix row 2, columns 0..4, which
    // covers the blocked cell (7, 2).
    left_rotate_input(&mut gs);
    assert_eq!(gs.active_tetromino.tetromino.rotation, 0);
}

#[test]
fn test_intersects_top() {
    let u = Universe::new();
    let i_piece = TetrominoState { data: tetromino_from_draw(0), rotation: 0 };
    let m = i_piece.get_matrix();
    assert!(u.matrix_intersects_top(&m, Point { x: 4, y: 0 }));
    assert!(u.matrix_intersects_top(&m, Point { x: 4, y: 1 }));
    assert!(!u.matrix_intersects_top(&m, Point { x: 4, y: 2 }));
    // The O piece's top matrix row is empty, so it never intersects.
    let o_piece = TetrominoState { data: tetromino_from_draw(1), rotation: 0 };
    let om = o_piece.get_matrix();
    assert!(!u.matrix_intersects_top(&om, Point { x: 4, y: 0 }));
}

#[test]
fn test_render_fresh_grid() {
    let u = Universe::new();
    let mut expected = String::new();
    for _ in 0..20 {
        for _ in 0..10 {
            expected.push('\u{25fb}');
        }
        expected.push('\n');
    }
    assert_eq!(u.render(), expected);
}

#[test]
fn test_render_frame_shows_piece() {
    // The vertical I at the spawn anchor occupies grid column 5, rows 0..4;
    // rows 2 and 3 are visible, as the first two rendered lines.
    let gs = initialize_game_state(0, 0);
    let frame = render_frame(&gs);
    let lines: Vec<&str> = frame.lines().collect();
    assert_eq!(lines.len(), 20);
    for (i, line) in lines.iter().enumerate() {
        let mut expected = String::new();
        for x in 1..11 {
            expected.push(if i < 2 && x == 5 { '\u{25fc}' } else { '\u{25fb}' });
        }
        assert_eq!(*line, expected, "line {}", i);
    }
    // Rendering leaves the real grid untouched.
    assert_eq!(gs.universe.get_cell(5, 2), Cell::Empty);
}

#[test]
fn test_spawned_shapes_have_four_cells() {
    for draw in 0..7u8 {
        let data = tetromino_from_draw(draw);
        let count = data.iter().filter(|c| **c == Cell::Solid).count();
        assert_eq!(count, 4);
    }
}
