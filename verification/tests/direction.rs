use snake_game::direction::Direction;
use snake_game::grid::{GridConfig, Position, ARENA_HEIGHT, ARENA_WIDTH};
use snake_game::input::KeyState;

const ALL: [Direction; 4] = [Direction::Left, Direction::Up, Direction::Right, Direction::Down];

#[test]
fn opposite_swaps_each_pair() {
    assert_eq!(Direction::Left.opposite(), Direction::Right);
    assert_eq!(Direction::Right.opposite(), Direction::Left);
    assert_eq!(Direction::Up.opposite(), Direction::Down);
    assert_eq!(Direction::Down.opposite(), Direction::Up);
}

#[test]
fn opposite_twice_is_identity() {
    for d in ALL {
        assert_eq!(d.opposite().opposite(), d);
        assert_ne!(d.opposite(), d);
    }
}

#[test]
fn is_reverse_of_holds_only_of_the_opposite() {
    for a in ALL {
        for b in ALL {
            assert_eq!(a.is_reverse_of(b), a == b.opposite());
        }
    }
}

#[test]
fn step_moves_one_cell() {
    let p = Position { x: 3, y: 3 };
    assert_eq!(p.step(Direction::Left), Position { x: 2, y: 3 });
    assert_eq!(p.step(Direction::Right), Position { x: 4, y: 3 });
    assert_eq!(p.step(Direction::Up), Position { x: 3, y: 4 });
    assert_eq!(p.step(Direction::Down), Position { x: 3, y: 2 });
}

#[test]
fn step_may_leave_the_grid() {
    let p = Position { x: 0, y: 0 };
    assert_eq!(p.step(Direction::Left), Position { x: -1, y: 0 });
    assert_eq!(p.step(Direction::Down), Position { x: 0, y: -1 });
}

#[test]
fn step_then_step_back_returns() {
    let p = Position { x: -7, y: 12 };
    for d in ALL {
        assert_eq!(p.step(d).step(d.opposite()), p);
    }
}

#[test]
fn grid_rejects_empty_sides() {
    assert!(GridConfig::new(0, 10).is_none());
    assert!(GridConfig::new(10, 0).is_none());
    assert!(GridConfig::new(0, 0).is_none());
}

#[test]
fn grid_rejects_sides_beyond_coordinates() {
    assert!(GridConfig::new(0x8000_0000, 1).is_none());
    assert!(GridConfig::new(1, u32::MAX).is_none());
    assert!(GridConfig::new(0x7fff_ffff, 0x7fff_ffff).is_some());
}

#[test]
fn grid_keeps_its_size() {
    let g = GridConfig::new(7, 4).unwrap();
    assert_eq!(g.width(), 7);
    assert_eq!(g.height(), 4);
    assert_eq!(GridConfig::new(7, 4), Some(g));
}

#[test]
fn arena_is_ten_by_ten() {
    let g = GridConfig::arena();
    assert_eq!(ARENA_WIDTH, 10);
    assert_eq!(ARENA_HEIGHT, 10);
    assert_eq!(g.width(), 10);
    assert_eq!(g.height(), 10);
    assert_eq!(Some(g), GridConfig::new(10, 10));
}

#[test]
fn in_bounds_is_half_open() {
    let g = GridConfig::new(10, 5).unwrap();
    assert!(g.in_bounds(Position { x: 0, y: 0 }));
    assert!(g.in_bounds(Position { x: 9, y: 4 }));
    assert!(!g.in_bounds(Position { x: 10, y: 4 }));
    assert!(!g.in_bounds(Position { x: 9, y: 5 }));
    assert!(!g.in_bounds(Position { x: -1, y: 0 }));
    assert!(!g.in_bounds(Position { x: 0, y: -1 }));
    assert!(!g.in_bounds(Position { x: i32::MIN, y: i32::MAX }));
}

#[test]
fn no_key_asks_for_nothing() {
    assert_eq!(KeyState::released().request(), None);
}

#[test]
fn single_keys_ask_for_their_heading() {
    let none = KeyState::released();
    assert_eq!(KeyState { left: true, ..none }.request(), Some(Direction::Left));
    assert_eq!(KeyState { right: true, ..none }.request(), Some(Direction::Right));
    assert_eq!(KeyState { down: true, ..none }.request(), Some(Direction::Down));
    assert_eq!(KeyState { up: true, ..none }.request(), Some(Direction::Up));
}

#[test]
fn held_keys_are_ranked() {
    let all = KeyState { left: true, right: true, down: true, up: true };
    assert_eq!(all.request(), Some(Direction::Left));
    assert_eq!(KeyState { left: false, ..all }.request(), Some(Direction::Right));
    assert_eq!(KeyState { left: false, right: false, ..all }.request(), Some(Direction::Down));
    let up_only = KeyState { left: false, right: false, down: false, up: true };
    assert_eq!(up_only.request(), Some(Direction::Up));
}

#[test]
fn checked_step_stops_at_the_coordinate_limits() {
    let far = Position { x: i32::MAX, y: i32::MIN };
    assert_eq!(far.checked_step(Direction::Right), None);
    assert_eq!(far.checked_step(Direction::Down), None);
    assert_eq!(far.checked_step(Direction::Left), Some(Position { x: i32::MAX - 1, y: i32::MIN }));
    assert_eq!(far.checked_step(Direction::Up), Some(Position { x: i32::MAX, y: i32::MIN + 1 }));
    let near = Position { x: i32::MIN, y: i32::MAX };
    assert_eq!(near.checked_step(Direction::Left), None);
    assert_eq!(near.checked_step(Direction::Up), None);
}

#[test]
fn checked_step_agrees_with_step() {
    let p = Position { x: 3, y: 3 };
    for d in ALL {
        assert_eq!(p.checked_step(d), Some(p.step(d)));
    }
}

#[test]
fn cell_names_column_and_row() {
    let g = GridConfig::new(10, 5).unwrap();
    assert_eq!(g.cell(0, 0), Some(Position { x: 0, y: 0 }));
    assert_eq!(g.cell(7, 2), Some(Position { x: 7, y: 2 }));
    assert_eq!(g.cell(9, 4), Some(Position { x: 9, y: 4 }));
}

#[test]
fn cell_outside_the_grid_is_none() {
    let g = GridConfig::new(10, 5).unwrap();
    assert_eq!(g.cell(10, 0), None);
    assert_eq!(g.cell(0, 5), None);
    assert_eq!(g.cell(u32::MAX, u32::MAX), None);
    let widest = GridConfig::new(0x7fff_ffff, 1).unwrap();
    assert_eq!(widest.cell(0x7fff_fffe, 0), Some(Position { x: i32::MAX - 1, y: 0 }));
    assert_eq!(widest.cell(0x7fff_ffff, 0), None);
}
