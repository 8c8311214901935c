use snake_game::direction::Direction;
use snake_game::food::{first_free_cell, random_position, Food, DRAW_LIMIT};
use snake_game::grid::{GridConfig, Position};
use snake_game::snake::Snake;

fn pos(x: i32, y: i32) -> Position {
    Position { x, y }
}

fn snake_on(cells: &[(i32, i32)]) -> Snake {
    let body: Vec<Position> = cells.iter().map(|&(x, y)| pos(x, y)).collect();
    Snake::from_parts(body, Direction::Right, Direction::Right, None).unwrap()
}

#[test]
fn random_position_lies_on_the_grid() {
    let grid = GridConfig::new(10, 10).unwrap();
    for _ in 0..500 {
        let p = random_position(&grid);
        assert!(grid.in_bounds(p));
        assert!(0 <= p.x && p.x < 10 && 0 <= p.y && p.y < 10);
    }
}

#[test]
fn random_position_on_a_narrow_grid() {
    let grid = GridConfig::new(1, 3).unwrap();
    for _ in 0..200 {
        let p = random_position(&grid);
        assert_eq!(p.x, 0);
        assert!(0 <= p.y && p.y < 3);
    }
    let single = GridConfig::new(1, 1).unwrap();
    assert_eq!(random_position(&single), pos(0, 0));
}

#[test]
fn random_position_reaches_every_cell() {
    let grid = GridConfig::new(2, 2).unwrap();
    let mut seen = [false; 4];
    for _ in 0..400 {
        let p = random_position(&grid);
        seen[(p.y * 2 + p.x) as usize] = true;
    }
    assert_eq!(seen, [true; 4]);
}

#[test]
fn first_free_cell_reads_row_by_row() {
    let grid = GridConfig::new(3, 3).unwrap();
    assert_eq!(first_free_cell(&grid, &snake_on(&[(1, 1), (1, 2)])), Some(pos(0, 0)));
    assert_eq!(first_free_cell(&grid, &snake_on(&[(0, 0), (1, 0)])), Some(pos(2, 0)));
    assert_eq!(first_free_cell(&grid, &snake_on(&[(0, 0), (1, 0), (2, 0)])), Some(pos(0, 1)));
    assert_eq!(
        first_free_cell(&grid, &snake_on(&[(0, 0), (1, 0), (2, 0), (2, 1), (0, 1)])),
        Some(pos(1, 1))
    );
}

#[test]
fn first_free_cell_on_a_full_grid() {
    let grid = GridConfig::new(2, 2).unwrap();
    let full = snake_on(&[(0, 0), (1, 0), (1, 1), (0, 1)]);
    assert_eq!(first_free_cell(&grid, &full), None);
    let almost = snake_on(&[(0, 0), (1, 0), (1, 1)]);
    assert_eq!(first_free_cell(&grid, &almost), Some(pos(0, 1)));
}

#[test]
fn first_free_cell_ignores_segments_off_the_grid() {
    let grid = GridConfig::new(1, 2).unwrap();
    let s = snake_on(&[(-1, 0), (0, 0), (5, 5)]);
    assert_eq!(first_free_cell(&grid, &s), Some(pos(0, 1)));
}

#[test]
fn food_starts_absent() {
    assert_eq!(Food::absent().position(), None);
    assert_eq!(Food::at(pos(2, 7)).position(), Some(pos(2, 7)));
}

#[test]
fn clear_removes_the_piece() {
    let mut f = Food::at(pos(1, 1));
    f.clear();
    assert_eq!(f.position(), None);
    f.clear();
    assert_eq!(f.position(), None);
}

#[test]
fn consumption_needs_the_exact_cell() {
    let mut f = Food::at(pos(5, 5));
    for near in [pos(4, 5), pos(6, 5), pos(5, 4), pos(5, 6), pos(4, 4), pos(6, 6)] {
        assert!(!f.check_consumption(near));
        assert_eq!(f.position(), Some(pos(5, 5)));
    }
    assert!(f.check_consumption(pos(5, 5)));
    assert_eq!(f.position(), None);
}

#[test]
fn consumption_without_food_is_false() {
    let mut f = Food::absent();
    assert!(!f.check_consumption(pos(5, 5)));
    assert_eq!(f.position(), None);
}

#[test]
fn consumption_happens_once() {
    let mut f = Food::at(pos(5, 5));
    assert!(f.check_consumption(pos(5, 5)));
    assert!(!f.check_consumption(pos(5, 5)));
}

#[test]
fn offer_takes_a_free_cell() {
    let grid = GridConfig::arena();
    let s = Snake::spawn();
    let mut f = Food::absent();
    assert!(f.offer(pos(5, 5), &grid, &s));
    assert_eq!(f.position(), Some(pos(5, 5)));
}

#[test]
fn offer_refuses_a_cell_of_the_snake() {
    let grid = GridConfig::arena();
    let s = Snake::spawn();
    let mut f = Food::absent();
    assert!(!f.offer(pos(3, 3), &grid, &s));
    assert!(!f.offer(pos(3, 2), &grid, &s));
    assert_eq!(f.position(), None);
}

#[test]
fn offer_refuses_a_cell_off_the_grid() {
    let grid = GridConfig::arena();
    let s = Snake::spawn();
    let mut f = Food::absent();
    assert!(!f.offer(pos(10, 5), &grid, &s));
    assert!(!f.offer(pos(5, -1), &grid, &s));
    assert_eq!(f.position(), None);
}

#[test]
fn offer_keeps_the_piece_that_is_there() {
    let grid = GridConfig::arena();
    let s = Snake::spawn();
    let mut f = Food::at(pos(1, 1));
    assert!(!f.offer(pos(5, 5), &grid, &s));
    assert_eq!(f.position(), Some(pos(1, 1)));
}

#[test]
fn spawn_avoids_the_snake() {
    let grid = GridConfig::new(4, 4).unwrap();
    let cells = [(0, 0), (1, 0), (2, 0), (3, 0), (3, 1), (2, 1), (1, 1), (0, 1), (0, 2), (1, 2)];
    let s = snake_on(&cells);
    for _ in 0..300 {
        let mut f = Food::absent();
        assert!(f.spawn_if_absent(&grid, &s));
        let p = f.position().unwrap();
        assert!(grid.in_bounds(p));
        assert!(!s.occupies(p));
    }
}

#[test]
fn spawn_keeps_the_piece_that_is_there() {
    let grid = GridConfig::arena();
    let s = Snake::spawn();
    let mut f = Food::at(pos(7, 7));
    assert!(!f.spawn_if_absent(&grid, &s));
    assert_eq!(f.position(), Some(pos(7, 7)));
}

#[test]
fn spawn_finds_the_only_free_cell() {
    let grid = GridConfig::new(40, 40).unwrap();
    let mut cells: Vec<(i32, i32)> = Vec::new();
    for y in 0..40 {
        for x in 0..40 {
            if (x, y) != (17, 23) {
                cells.push((x, y));
            }
        }
    }
    let s = snake_on(&cells);
    let mut f = Food::absent();
    assert!(f.spawn_if_absent(&grid, &s));
    assert_eq!(f.position(), Some(pos(17, 23)));
}

#[test]
fn spawn_on_a_full_grid_places_nothing() {
    let grid = GridConfig::new(1, 2).unwrap();
    let s = snake_on(&[(0, 0), (0, 1)]);
    let mut f = Food::absent();
    assert!(!f.spawn_if_absent(&grid, &s));
    assert_eq!(f.position(), None);
}

#[test]
fn draw_limit_is_positive() {
    assert_eq!(DRAW_LIMIT, 64);
}
