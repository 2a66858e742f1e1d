use r_sokoban::{
    border_walls, direction_from_keys, push_target, step, Direction, Game, Grid, Level, Position,
    ARENA_HEIGHT, ARENA_WIDTH, CELL_SIZE,
};

fn pos(x: i32, y: i32) -> Position {
    Position::new(x, y)
}

#[test]
fn keys_pick_first_of_left_up_right_down() {
    assert_eq!(direction_from_keys(true, true, true, true), Some(Direction::Left));
    assert_eq!(direction_from_keys(false, true, true, false), Some(Direction::Up));
    assert_eq!(direction_from_keys(false, false, true, true), Some(Direction::Right));
    assert_eq!(direction_from_keys(false, false, false, true), Some(Direction::Down));
    assert_eq!(direction_from_keys(false, false, false, false), None);
}

#[test]
fn step_gives_neighbours() {
    assert_eq!(step(pos(1, 1), Direction::Left), Some(pos(0, 1)));
    assert_eq!(step(pos(1, 1), Direction::Up), Some(pos(1, 2)));
    assert_eq!(step(pos(1, 1), Direction::Right), Some(pos(2, 1)));
    assert_eq!(step(pos(1, 1), Direction::Down), Some(pos(1, 0)));
    assert_eq!(step(pos(i32::MIN, 0), Direction::Left), None);
}

#[test]
fn push_target_reflects_player_through_crate() {
    assert_eq!(push_target(pos(1, 1), pos(2, 1)), Some(pos(3, 1)));
    assert_eq!(push_target(pos(4, 7), pos(4, 6)), Some(pos(4, 5)));
    assert_eq!(push_target(pos(i32::MAX - 1, 0), pos(i32::MAX, 0)), None);
}

#[test]
fn border_walls_ring_the_arena() {
    let w = border_walls(3, 2);
    assert_eq!(w.len(), 2 * 3 + 2 * 1);
    for x in 0..3 {
        assert!(w.contains(&pos(x, 0)));
        assert!(w.contains(&pos(x, 1)));
    }
    let single = border_walls(1, 1);
    assert_eq!(single, vec![pos(0, 0), pos(0, 0)]);
    let big = border_walls(4, 4);
    assert!(!big.contains(&pos(1, 1)));
    assert!(!big.contains(&pos(2, 2)));
    assert!(big.contains(&pos(3, 2)));
    assert!(big.contains(&pos(0, 3)));
}

#[test]
fn standard_level_layout() {
    let level = Level::standard();
    assert_eq!(level.player, pos(1, 1));
    assert_eq!(level.crates, vec![pos(2, 2), pos(3, 3), pos(3, 4)]);
    assert_eq!(level.goals, vec![pos(1, 4)]);
    assert_eq!(level.walls.len(), 38);
    assert!(level.walls.contains(&pos(9, 5)));
    assert!(!level.walls.contains(&pos(5, 5)));
    let g = Game::new(level);
    assert_eq!(g.moves, 0);
    assert_eq!(g.player, pos(1, 1));
}

#[test]
fn standard_grid_and_cell_offsets() {
    let grid = Grid::standard();
    assert_eq!((grid.width, grid.height, grid.cell_size), (ARENA_WIDTH, ARENA_HEIGHT, CELL_SIZE));
    assert_eq!(grid.cell_offset(pos(3, -2)), (192, -128));
    assert_eq!(grid.cell_offset(pos(i32::MAX, 0)).0, i32::MAX as i64 * 64);
}

#[test]
fn grid_cells_column_by_column() {
    let grid = Grid { width: 2, height: 3, cell_size: 64 };
    assert_eq!(
        grid.cells(),
        vec![pos(0, 0), pos(0, 1), pos(0, 2), pos(1, 0), pos(1, 1), pos(1, 2)]
    );
    assert_eq!(Grid::standard().cells().len(), 100);
}
