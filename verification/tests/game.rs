use game_of_life::{
    Cell, GameState, GridPosition, State, GRID_HEIGHT, GRID_WIDTH, MILLIS_PER_UPDATE,
    UPDATES_PER_SECOND,
};

/// The cells of `game` that are alive, column by column.
fn live_cells(game: &GameState) -> Vec<(usize, usize)> {
    let mut live = Vec::new();
    for x in 0..GRID_WIDTH {
        for y in 0..GRID_HEIGHT {
            if game.cell(x, y).unwrap().state == State::Alive {
                live.push((x, y));
            }
        }
    }
    live
}

/// A resting game in which exactly `cells` are alive.
fn game_with(cells: &[(usize, usize)]) -> GameState {
    let mut game = GameState::new();
    for &(x, y) in cells {
        assert_eq!(game.toggle_cell(x, y), Some(State::Alive));
    }
    game
}

/// The state of every cell, column by column.
fn snapshot(game: &GameState) -> Vec<State> {
    let mut states = Vec::new();
    for x in 0..GRID_WIDTH {
        for y in 0..GRID_HEIGHT {
            states.push(game.cell(x, y).unwrap().state);
        }
    }
    states
}

#[test]
fn cadence_is_ten_generations_a_second() {
    assert_eq!(UPDATES_PER_SECOND, 10);
    assert_eq!(MILLIS_PER_UPDATE, 100);
    assert_eq!(MILLIS_PER_UPDATE * UPDATES_PER_SECOND, 1000);
}

#[test]
fn new_game_is_dead_and_at_rest() {
    let game = GameState::new();
    assert!(!game.is_running());
    assert!(live_cells(&game).is_empty());
    assert_eq!(snapshot(&game).len(), 400);
}

#[test]
fn every_cell_knows_its_place() {
    let game = GameState::new();
    for x in 0..GRID_WIDTH {
        for y in 0..GRID_HEIGHT {
            let cell = game.cell(x, y).unwrap();
            assert_eq!(cell.pos, GridPosition { x: x as i16, y: y as i16 });
        }
    }
}

#[test]
fn cell_outside_the_grid_is_none() {
    let game = GameState::new();
    assert_eq!(game.cell(20, 0), None);
    assert_eq!(game.cell(0, 20), None);
    assert_eq!(game.cell(20, 20), None);
    assert_eq!(game.cell(usize::MAX, usize::MAX), None);
    assert_eq!(
        game.cell(19, 19),
        Some(Cell { pos: GridPosition { x: 19, y: 19 }, state: State::Dead })
    );
}

#[test]
fn toggle_flips_a_dead_cell_to_alive() {
    let mut game = GameState::new();
    assert_eq!(game.toggle_cell(3, 7), Some(State::Alive));
    assert_eq!(live_cells(&game), vec![(3, 7)]);
}

#[test]
fn toggle_flips_a_live_cell_to_dead() {
    let mut game = game_with(&[(3, 7), (4, 4)]);
    assert_eq!(game.toggle_cell(3, 7), Some(State::Dead));
    assert_eq!(live_cells(&game), vec![(4, 4)]);
}

#[test]
fn toggle_twice_restores_every_cell() {
    for x in 0..GRID_WIDTH {
        for y in 0..GRID_HEIGHT {
            let mut game = game_with(&[(1, 1), (5, 9), (19, 0)]);
            let before = snapshot(&game);
            game.toggle_cell(x, y);
            assert_ne!(snapshot(&game), before);
            game.toggle_cell(x, y);
            assert_eq!(snapshot(&game), before);
        }
    }
}

#[test]
fn toggle_outside_the_grid_is_refused() {
    let mut game = game_with(&[(0, 0), (19, 19)]);
    let before = snapshot(&game);
    assert_eq!(game.toggle_cell(20, 0), None);
    assert_eq!(game.toggle_cell(0, 20), None);
    assert_eq!(game.toggle_cell(usize::MAX, 3), None);
    assert_eq!(game.toggle_cell(3, usize::MAX), None);
    assert_eq!(snapshot(&game), before);
}

#[test]
fn toggle_leaves_the_running_flag_alone() {
    let mut game = GameState::new();
    game.set_running(true);
    game.toggle_cell(2, 2);
    assert!(game.is_running());
    game.toggle_cell(40, 2);
    assert!(game.is_running());
}

#[test]
fn toggled_cell_is_read_at_the_same_coordinates() {
    let mut game = GameState::new();
    game.toggle_cell(3, 7);
    assert_eq!(
        game.cell(3, 7),
        Some(Cell { pos: GridPosition { x: 3, y: 7 }, state: State::Alive })
    );
    assert_eq!(
        game.cell(7, 3),
        Some(Cell { pos: GridPosition { x: 7, y: 3 }, state: State::Dead })
    );
}

#[test]
fn click_toggles_the_cell_under_the_pixel() {
    let mut game = GameState::new();
    assert_eq!(game.click(3 * 32 + 5, 7 * 32 + 30), Some(GridPosition { x: 3, y: 7 }));
    assert_eq!(live_cells(&game), vec![(3, 7)]);
    assert_eq!(game.click(3 * 32, 7 * 32), Some(GridPosition { x: 3, y: 7 }));
    assert!(live_cells(&game).is_empty());
}

#[test]
fn click_in_the_corners() {
    let mut game = GameState::new();
    assert_eq!(game.click(0, 0), Some(GridPosition { x: 0, y: 0 }));
    assert_eq!(game.click(639, 0), Some(GridPosition { x: 19, y: 0 }));
    assert_eq!(game.click(0, 639), Some(GridPosition { x: 0, y: 19 }));
    assert_eq!(game.click(639, 639), Some(GridPosition { x: 19, y: 19 }));
    assert_eq!(live_cells(&game), vec![(0, 0), (0, 19), (19, 0), (19, 19)]);
}

#[test]
fn click_outside_the_grid_changes_nothing() {
    let mut game = game_with(&[(2, 2)]);
    assert_eq!(game.click(640, 10), None);
    assert_eq!(game.click(10, 640), None);
    assert_eq!(game.click(u32::MAX, u32::MAX), None);
    assert_eq!(live_cells(&game), vec![(2, 2)]);
}

#[test]
fn set_running_sets_the_flag() {
    let mut game = game_with(&[(6, 6)]);
    game.set_running(true);
    assert!(game.is_running());
    game.set_running(true);
    assert!(game.is_running());
    game.set_running(false);
    assert!(!game.is_running());
    assert_eq!(live_cells(&game), vec![(6, 6)]);
}

#[test]
fn toggle_running_starts_and_stops() {
    let mut game = game_with(&[(6, 6)]);
    game.toggle_running();
    assert!(game.is_running());
    game.toggle_running();
    assert!(!game.is_running());
    assert_eq!(live_cells(&game), vec![(6, 6)]);
}

#[test]
fn live_neighbors_counts_all_eight() {
    let game = game_with(&[
        (4, 4), (5, 4), (6, 4),
        (4, 5), (6, 5),
        (4, 6), (5, 6), (6, 6),
    ]);
    assert_eq!(game.live_neighbors(5, 5), Some(8));
    assert_eq!(game.live_neighbors(4, 4), Some(2));
    assert_eq!(game.live_neighbors(5, 4), Some(4));
    assert_eq!(game.live_neighbors(3, 3), Some(1));
    assert_eq!(game.live_neighbors(10, 10), Some(0));
}

#[test]
fn live_neighbors_does_not_count_the_cell_itself() {
    let game = game_with(&[(5, 5)]);
    assert_eq!(game.live_neighbors(5, 5), Some(0));
    assert_eq!(game.live_neighbors(4, 5), Some(1));
}

#[test]
fn live_neighbors_tells_columns_from_rows() {
    let game = game_with(&[(7, 2)]);
    assert_eq!(game.live_neighbors(8, 2), Some(1));
    assert_eq!(game.live_neighbors(6, 3), Some(1));
    assert_eq!(game.live_neighbors(2, 7), Some(0));
    assert_eq!(game.live_neighbors(2, 8), Some(0));
}

#[test]
fn live_neighbors_outside_the_grid_is_none() {
    let game = game_with(&[(0, 0)]);
    assert_eq!(game.live_neighbors(20, 0), None);
    assert_eq!(game.live_neighbors(0, 20), None);
}

#[test]
fn opposite_corners_are_neighbors() {
    let far = game_with(&[(19, 19)]);
    assert_eq!(far.live_neighbors(0, 0), Some(1));
    let near = game_with(&[(0, 0)]);
    assert_eq!(near.live_neighbors(19, 19), Some(1));
}

#[test]
fn corner_has_neighbors_on_both_opposite_edges() {
    let game = game_with(&[(19, 0), (0, 19), (19, 19), (1, 1), (19, 1), (1, 19)]);
    assert_eq!(game.live_neighbors(0, 0), Some(6));
    let full = game_with(&[
        (19, 19), (0, 19), (1, 19),
        (19, 0), (1, 0),
        (19, 1), (0, 1), (1, 1),
    ]);
    assert_eq!(full.live_neighbors(0, 0), Some(8));
}

#[test]
fn edges_wrap_along_each_axis_alone() {
    let game = game_with(&[(19, 7)]);
    assert_eq!(game.live_neighbors(0, 7), Some(1));
    assert_eq!(game.live_neighbors(0, 6), Some(1));
    assert_eq!(game.live_neighbors(0, 8), Some(1));
    assert_eq!(game.live_neighbors(0, 9), Some(0));
    let other = game_with(&[(7, 19)]);
    assert_eq!(other.live_neighbors(7, 0), Some(1));
    assert_eq!(other.live_neighbors(0, 7), Some(0));
}

#[test]
fn blinker_turns() {
    let mut game = game_with(&[(1, 0), (1, 1), (1, 2)]);
    game.advance_generation();
    assert_eq!(live_cells(&game), vec![(0, 1), (1, 1), (2, 1)]);
    assert_eq!(game.cell(1, 0).unwrap().state, State::Dead);
    assert_eq!(game.cell(1, 2).unwrap().state, State::Dead);
}

#[test]
fn blinker_returns_after_two_generations() {
    let mut game = game_with(&[(1, 0), (1, 1), (1, 2)]);
    let before = snapshot(&game);
    game.advance_generation();
    assert_ne!(snapshot(&game), before);
    game.advance_generation();
    assert_eq!(snapshot(&game), before);
}

#[test]
fn blinker_turns_across_the_edge() {
    let mut game = game_with(&[(19, 0), (0, 0), (1, 0)]);
    game.advance_generation();
    assert_eq!(live_cells(&game), vec![(0, 0), (0, 1), (0, 19)]);
}

#[test]
fn lone_cell_dies() {
    let mut game = game_with(&[(0, 0)]);
    game.advance_generation();
    assert!(live_cells(&game).is_empty());
}

#[test]
fn block_is_still() {
    let mut game = game_with(&[(8, 8), (8, 9), (9, 8), (9, 9)]);
    let before = snapshot(&game);
    for _ in 0..5 {
        game.advance_generation();
        assert_eq!(snapshot(&game), before);
    }
}

#[test]
fn block_across_all_four_corners_is_still() {
    let mut game = game_with(&[(0, 0), (19, 0), (0, 19), (19, 19)]);
    let before = snapshot(&game);
    game.advance_generation();
    assert_eq!(snapshot(&game), before);
}

#[test]
fn glider_moves_one_cell_diagonally_in_four_generations() {
    let mut game = game_with(&[(1, 0), (2, 1), (0, 2), (1, 2), (2, 2)]);
    for _ in 0..4 {
        game.advance_generation();
    }
    assert_eq!(live_cells(&game), vec![(1, 3), (2, 1), (2, 3), (3, 2), (3, 3)]);
}

#[test]
fn cell_with_three_neighbors_is_alive_next() {
    let mut dead_center = game_with(&[(4, 4), (6, 4), (5, 6)]);
    assert_eq!(dead_center.live_neighbors(5, 5), Some(3));
    dead_center.advance_generation();
    assert_eq!(dead_center.cell(5, 5).unwrap().state, State::Alive);

    let mut live_center = game_with(&[(4, 4), (6, 4), (5, 6), (5, 5)]);
    assert_eq!(live_center.live_neighbors(5, 5), Some(3));
    live_center.advance_generation();
    assert_eq!(live_center.cell(5, 5).unwrap().state, State::Alive);
}

#[test]
fn crowded_cell_dies() {
    let mut game = game_with(&[(5, 5), (4, 4), (6, 4), (4, 6), (6, 6)]);
    assert_eq!(game.live_neighbors(5, 5), Some(4));
    game.advance_generation();
    assert_eq!(game.cell(5, 5).unwrap().state, State::Dead);
}

#[test]
fn dead_grid_stays_dead() {
    let mut game = GameState::new();
    for _ in 0..25 {
        game.advance_generation();
        assert!(live_cells(&game).is_empty());
    }
}

#[test]
fn advance_gives_the_same_grid_from_the_same_start() {
    let seed = [(1, 0), (2, 1), (0, 2), (1, 2), (2, 2), (19, 19), (10, 3)];
    let mut first = game_with(&seed);
    let mut second = game_with(&seed);
    second.set_running(true);
    for _ in 0..10 {
        first.advance_generation();
        second.advance_generation();
        assert_eq!(snapshot(&first), snapshot(&second));
    }
}

#[test]
fn advance_reads_only_the_old_generation() {
    // Three cells in a row: a pass that read its own results would see the
    // first cell of the row already dead when it decides the second.
    let mut game = game_with(&[(0, 5), (1, 5), (2, 5)]);
    game.advance_generation();
    assert_eq!(live_cells(&game), vec![(1, 4), (1, 5), (1, 6)]);
}

#[test]
fn advance_keeps_positions_and_the_running_flag() {
    let mut game = game_with(&[(1, 0), (1, 1), (1, 2)]);
    game.set_running(true);
    game.advance_generation();
    assert!(game.is_running());
    for x in 0..GRID_WIDTH {
        for y in 0..GRID_HEIGHT {
            let cell = game.cell(x, y).unwrap();
            assert_eq!(cell.pos, GridPosition { x: x as i16, y: y as i16 });
        }
    }
}

#[test]
fn update_does_nothing_at_rest() {
    let mut game = game_with(&[(1, 0), (1, 1), (1, 2)]);
    assert!(!game.update(100));
    assert!(!game.update(u64::MAX));
    assert_eq!(live_cells(&game), vec![(1, 0), (1, 1), (1, 2)]);
}

#[test]
fn update_waits_until_a_generation_is_due() {
    let mut game = game_with(&[(1, 0), (1, 1), (1, 2)]);
    game.set_running(true);
    assert!(!game.update(0));
    assert!(!game.update(99));
    assert_eq!(live_cells(&game), vec![(1, 0), (1, 1), (1, 2)]);
}

#[test]
fn update_advances_when_a_generation_is_due() {
    let mut game = game_with(&[(1, 0), (1, 1), (1, 2)]);
    game.set_running(true);
    assert!(game.update(100));
    assert_eq!(live_cells(&game), vec![(0, 1), (1, 1), (2, 1)]);
    assert!(game.update(5000));
    assert_eq!(live_cells(&game), vec![(1, 0), (1, 1), (1, 2)]);
    assert!(game.is_running());
}

#[test]
fn update_advances_by_one_generation_however_late() {
    let mut late = game_with(&[(1, 0), (2, 1), (0, 2), (1, 2), (2, 2)]);
    let mut once = game_with(&[(1, 0), (2, 1), (0, 2), (1, 2), (2, 2)]);
    late.set_running(true);
    assert!(late.update(u64::MAX));
    once.advance_generation();
    assert_eq!(snapshot(&late), snapshot(&once));
}
