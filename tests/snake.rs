use bevy_snake::{
    pressed_direction, Direction, Game, Position, SnakeHead, SnakeMovement, TickEvents,
    ARENA_HEIGHT, ARENA_WIDTH,
};

fn pos(x: i32, y: i32) -> Position {
    Position { x, y }
}

fn game_with(chain: Vec<Position>, direction: Direction, last_input: Direction) -> Game {
    let mut g = Game::new();
    g.segments = chain;
    g.head = SnakeHead { direction, last_input };
    g
}

#[test]
fn opposite_pairs() {
    assert_eq!(Direction::Left.opposite(), Direction::Right);
    assert_eq!(Direction::Right.opposite(), Direction::Left);
    assert_eq!(Direction::Up.opposite(), Direction::Down);
    assert_eq!(Direction::Down.opposite(), Direction::Up);
    for d in [Direction::Left, Direction::Right, Direction::Up, Direction::Down] {
        assert_eq!(d.opposite().opposite(), d);
        assert_ne!(d.opposite(), d);
    }
}

#[test]
fn step_moves_one_cell() {
    let p = pos(4, 4);
    assert_eq!(p.step(Direction::Left), pos(3, 4));
    assert_eq!(p.step(Direction::Right), pos(5, 4));
    assert_eq!(p.step(Direction::Up), pos(4, 5));
    assert_eq!(p.step(Direction::Down), pos(4, 3));
    assert!(pos(0, 0).is_in_bounds());
    assert!(pos(9, 9).is_in_bounds());
    assert!(!pos(-1, 0).is_in_bounds());
    assert!(!pos(0, 10).is_in_bounds());
}

#[test]
fn new_game_starts_round() {
    let g = Game::new();
    assert_eq!(g.segments, vec![pos(3, 3), pos(3, 2)]);
    assert_eq!(g.head, SnakeHead { direction: Direction::Up, last_input: Direction::Up });
    assert!(g.food.is_empty());
    assert_eq!(g.last_tail_position, None);
    assert!(g.is_well_formed());
}

#[test]
fn well_formed_checks() {
    let mut g = Game::new();
    g.segments = vec![pos(3, 3)];
    assert!(!g.is_well_formed());
    g.segments = vec![pos(3, 3), pos(3, 10)];
    assert!(!g.is_well_formed());
    g.segments = vec![pos(3, 3), pos(3, 2)];
    g.last_tail_position = Some(pos(-1, 2));
    assert!(!g.is_well_formed());
    g.last_tail_position = Some(pos(3, 1));
    assert!(g.is_well_formed());
}

#[test]
fn pressed_priority() {
    assert_eq!(pressed_direction(true, true, true, true), Some(Direction::Left));
    assert_eq!(pressed_direction(false, true, true, true), Some(Direction::Down));
    assert_eq!(pressed_direction(false, false, true, true), Some(Direction::Up));
    assert_eq!(pressed_direction(false, false, false, true), Some(Direction::Right));
    assert_eq!(pressed_direction(false, false, false, false), None);
}

#[test]
fn latch_is_sticky_and_leaves_direction() {
    let mut g = Game::new();
    g.latch_input(Some(Direction::Left));
    assert_eq!(g.head.last_input, Direction::Left);
    assert_eq!(g.head.direction, Direction::Up);
    g.latch_input(None);
    assert_eq!(g.head.last_input, Direction::Left);
    assert_eq!(g.head.direction, Direction::Up);
}

#[test]
fn chain_integrity_over_ticks() {
    let mut g = Game::new();
    let keys = [
        Some(Direction::Right),
        None,
        Some(Direction::Down),
        Some(Direction::Left),
        None,
        Some(Direction::Up),
    ];
    for round in 0..60 {
        g.latch_input(keys[round % keys.len()]);
        if round % 7 == 0 {
            g.spawn_food();
        }
        g.tick();
        assert!(g.segments.len() >= 2);
        assert!(g.is_well_formed());
    }
}

#[test]
fn reversal_is_ignored() {
    let mut g = Game::new();
    g.latch_input(Some(Direction::Down));
    let over = g.movement();
    assert!(!over);
    assert_eq!(g.head.direction, Direction::Up);
    assert_eq!(g.head.last_input, Direction::Down);
    assert_eq!(g.segments[0], pos(3, 4));
}

#[test]
fn turn_is_committed() {
    let mut g = Game::new();
    g.latch_input(Some(Direction::Right));
    assert!(!g.movement());
    assert_eq!(g.head.direction, Direction::Right);
    assert_eq!(g.segments, vec![pos(4, 3), pos(3, 3)]);
}

#[test]
fn shift_follows_snapshot() {
    let mut g = game_with(vec![pos(5, 5), pos(5, 4), pos(4, 4)], Direction::Up, Direction::Right);
    let over = g.movement();
    assert!(!over);
    assert_eq!(g.segments, vec![pos(6, 5), pos(5, 5), pos(5, 4)]);
    assert_eq!(g.last_tail_position, Some(pos(4, 4)));
}

#[test]
fn wall_collision_ends_round() {
    let mut g = game_with(vec![pos(0, 0), pos(1, 0)], Direction::Left, Direction::Left);
    g.food = vec![pos(7, 7)];
    let ev = g.tick();
    assert_eq!(ev, TickEvents { game_over: true, grew: false });
    assert_eq!(g.segments, vec![pos(3, 3), pos(3, 2)]);
    assert!(g.food.is_empty());
}

#[test]
fn wall_collision_signal() {
    let mut g = game_with(vec![pos(0, 0), pos(1, 0)], Direction::Left, Direction::Left);
    assert!(g.movement());
    assert_eq!(g.segments[0], pos(-1, 0));
}

#[test]
fn self_collision_ends_round() {
    // Head at (2,2) turning down onto a body cell.
    let chain = vec![pos(2, 2), pos(3, 2), pos(3, 1), pos(2, 1), pos(1, 1)];
    let mut g = game_with(chain.clone(), Direction::Left, Direction::Down);
    assert!(g.clone().movement());
    let ev = g.tick();
    assert!(ev.game_over);
    assert_eq!(g.segments, vec![pos(3, 3), pos(3, 2)]);
}

#[test]
fn moving_onto_old_tail_collides() {
    let chain = vec![pos(2, 2), pos(3, 2), pos(3, 1), pos(2, 1)];
    let mut g = game_with(chain, Direction::Left, Direction::Down);
    assert!(g.movement());
}

#[test]
fn growth_uses_pre_shift_tail() {
    let mut g = game_with(vec![pos(5, 5), pos(5, 4), pos(5, 3)], Direction::Up, Direction::Up);
    g.food = vec![pos(5, 6)];
    let ev = g.tick();
    assert_eq!(ev, TickEvents { game_over: false, grew: true });
    assert_eq!(g.segments, vec![pos(5, 6), pos(5, 5), pos(5, 4), pos(5, 3)]);
    assert!(g.food.is_empty());
}

#[test]
fn eating_removes_every_match() {
    let mut g = Game::new();
    g.food = vec![pos(3, 3), pos(1, 1), pos(3, 3)];
    assert_eq!(g.eating(), 2);
    assert_eq!(g.food, vec![pos(1, 1)]);
    assert_eq!(g.eating(), 0);
    assert_eq!(g.food, vec![pos(1, 1)]);
}

#[test]
fn several_pieces_grow_once() {
    let mut g = Game::new();
    g.food = vec![pos(3, 4), pos(3, 4)];
    let ev = g.tick();
    assert!(ev.grew);
    assert_eq!(g.segments, vec![pos(3, 4), pos(3, 3), pos(3, 2)]);
    assert!(g.food.is_empty());
}

#[test]
fn growth_without_signal_changes_nothing() {
    let mut g = Game::new();
    g.last_tail_position = Some(pos(3, 1));
    g.growth(false);
    assert_eq!(g.segments, vec![pos(3, 3), pos(3, 2)]);
    g.growth(true);
    assert_eq!(g.segments, vec![pos(3, 3), pos(3, 2), pos(3, 1)]);
}

#[test]
fn reset_restores_start() {
    let mut g = game_with(vec![pos(7, 7), pos(7, 6), pos(7, 5)], Direction::Right, Direction::Right);
    g.food = vec![pos(1, 1), pos(2, 2)];
    let before = g.clone();
    g.game_over(false);
    assert_eq!(g.segments, before.segments);
    assert_eq!(g.food, before.food);
    g.game_over(true);
    assert_eq!(g.segments, vec![pos(3, 3), pos(3, 2)]);
    assert_eq!(g.head.direction, Direction::Up);
    assert!(g.food.is_empty());
}

#[test]
fn three_ticks_without_input() {
    let mut g = Game::new();
    let expected = [(pos(3, 4), pos(3, 3)), (pos(3, 5), pos(3, 4)), (pos(3, 6), pos(3, 5))];
    for (h, s) in expected {
        let ev = g.tick();
        assert_eq!(ev, TickEvents { game_over: false, grew: false });
        assert_eq!(g.segments, vec![h, s]);
        assert_eq!(g.head.direction, Direction::Up);
    }
}

#[test]
fn free_cells_skip_snake() {
    let g = Game::new();
    let free = g.free_cells();
    assert_eq!(free.len(), (ARENA_WIDTH * ARENA_HEIGHT) as usize - 2);
    assert!(!free.contains(&pos(3, 3)));
    assert!(!free.contains(&pos(3, 2)));
    assert!(free.contains(&pos(0, 0)));
    assert!(free.contains(&pos(9, 9)));
}

#[test]
fn place_food_rejects_snake_and_walls() {
    let mut g = Game::new();
    assert!(!g.place_food(pos(3, 3)));
    assert!(!g.place_food(pos(10, 0)));
    assert!(g.food.is_empty());
    assert!(g.place_food(pos(0, 0)));
    assert_eq!(g.food, vec![pos(0, 0)]);
}

#[test]
fn spawned_food_avoids_snake() {
    let mut seen = Vec::new();
    for _ in 0..200 {
        let mut g = Game::new();
        let p = g.spawn_food().expect("free cells remain");
        assert!(p.is_in_bounds());
        assert!(!g.segments.contains(&p));
        assert_eq!(g.food, vec![p]);
        if !seen.contains(&p) {
            seen.push(p);
        }
    }
    assert!(seen.len() > 1);
}

#[test]
fn spawn_food_on_nearly_full_board() {
    let mut chain = Vec::new();
    for x in 0..ARENA_WIDTH {
        for y in 0..ARENA_HEIGHT {
            if (x, y) != (6, 8) {
                chain.push(pos(x, y));
            }
        }
    }
    let mut g = Game::new();
    g.segments = chain.clone();
    assert_eq!(g.spawn_food(), Some(pos(6, 8)));
    chain.push(pos(6, 8));
    g.segments = chain;
    g.food.clear();
    assert_eq!(g.spawn_food(), None);
    assert!(g.food.is_empty());
}

#[test]
fn stage_order() {
    assert!(SnakeMovement::Input.runs_before(SnakeMovement::Movement));
    assert!(SnakeMovement::Movement.runs_before(SnakeMovement::Eating));
    assert!(SnakeMovement::Eating.runs_before(SnakeMovement::Growth));
    assert!(!SnakeMovement::Growth.runs_before(SnakeMovement::Input));
    assert!(!SnakeMovement::Eating.runs_before(SnakeMovement::Eating));
}

#[test]
fn headless_systems_do_nothing() {
    let mut g = Game::new();
    g.segments.clear();
    g.food = vec![pos(1, 1)];
    assert!(!g.movement());
    assert!(g.segments.is_empty());
    assert_eq!(g.head.direction, Direction::Up);
    assert_eq!(g.last_tail_position, None);
    assert_eq!(g.eating(), 0);
    assert_eq!(g.food, vec![pos(1, 1)]);
}

#[test]
fn single_segment_moves_and_records_tail() {
    let mut g = game_with(vec![pos(4, 4)], Direction::Down, Direction::Down);
    assert!(!g.movement());
    assert_eq!(g.segments, vec![pos(4, 3)]);
    assert_eq!(g.last_tail_position, Some(pos(4, 4)));
}
