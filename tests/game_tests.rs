use snake_game::game::{Game, Key, FOOD_START_X, FOOD_START_Y};
use snake_game::snake::Direction;

fn press(g: &mut Game, keys: &[Key]) {
    for k in keys {
        g.key_pressed(*k);
    }
}

fn initial_cells() -> Vec<(i32, i32)> {
    vec![(4, 2), (3, 2), (2, 2)]
}

#[test]
fn new_game_state() {
    let g = Game::new(20, 20);
    assert_eq!(g.width(), 20);
    assert_eq!(g.height(), 20);
    assert!(g.food_exists());
    assert_eq!(g.food_position(), (FOOD_START_X, FOOD_START_Y));
    assert_eq!(g.food_position(), (6, 4));
    assert!(!g.is_game_over());
    assert_eq!(g.waiting_time(), 0);
    assert_eq!(g.snake().cells(), initial_cells());
}

#[test]
fn timer_gates_movement() {
    let mut g = Game::new(20, 20);
    g.update(50_000);
    g.update(50_000);
    assert_eq!(g.snake().cells(), initial_cells());
    assert_eq!(g.waiting_time(), 100_000);
    g.update(50_000);
    assert_eq!(g.snake().head_position(), (5, 2));
    assert_eq!(g.waiting_time(), 0);
    for _ in 0..7 {
        g.update(50_000);
    }
    assert_eq!(g.snake().head_position(), (7, 2));
    assert_eq!(g.waiting_time(), 50_000);
    assert_eq!(g.snake().cells().len(), 3);
}

#[test]
fn eating_food_grows_snake() {
    let mut g = Game::new(20, 20);
    press(&mut g, &[Key::Down, Key::Down, Key::Right]);
    assert!(g.food_exists());
    assert_eq!(g.snake().cells(), vec![(5, 4), (4, 4), (4, 3)]);
    press(&mut g, &[Key::Right]);
    assert!(!g.food_exists());
    assert_eq!(g.snake().cells(), vec![(6, 4), (5, 4), (4, 4), (4, 3)]);
    assert!(!g.is_game_over());

    g.update(1);
    assert!(g.food_exists());
    let (fx, fy) = g.food_position();
    assert!(fx >= 1 && fx < 19 && fy >= 1 && fy < 19);
    assert!(!g.snake().overlap_tail(fx, fy));
}

#[test]
fn wall_collision_then_restart() {
    let mut g = Game::new(20, 20);
    press(&mut g, &[Key::Up]);
    assert!(!g.is_game_over());
    assert_eq!(g.snake().head_position(), (4, 1));
    press(&mut g, &[Key::Up]);
    assert!(g.is_game_over());
    assert_eq!(g.snake().head_position(), (4, 1));
    assert_eq!(g.waiting_time(), 0);

    press(&mut g, &[Key::Left]);
    assert_eq!(g.snake().head_position(), (4, 1));
    g.update(400_000);
    g.update(400_000);
    assert!(g.is_game_over());
    g.update(400_000);
    assert!(!g.is_game_over());
    assert_eq!(g.snake().cells(), initial_cells());
    assert_eq!(g.snake().head_direction(), Direction::Right);
    assert!(g.food_exists());
    assert_eq!(g.food_position(), (6, 4));
    assert_eq!(g.waiting_time(), 0);
}

#[test]
fn reversing_key_is_ignored() {
    let mut g = Game::new(20, 20);
    g.update(50_000);
    press(&mut g, &[Key::Left]);
    assert_eq!(g.snake().head_direction(), Direction::Right);
    assert_eq!(g.snake().cells(), initial_cells());
    assert_eq!(g.waiting_time(), 50_000);

    press(&mut g, &[Key::Up]);
    press(&mut g, &[Key::Down]);
    assert_eq!(g.snake().head_direction(), Direction::Up);
    assert_eq!(g.snake().head_position(), (4, 1));
}

#[test]
fn other_key_steps_in_current_heading() {
    let mut g = Game::new(20, 20);
    g.update(50_000);
    press(&mut g, &[Key::Other]);
    assert_eq!(g.snake().head_position(), (5, 2));
    assert_eq!(g.snake().head_direction(), Direction::Right);
    assert_eq!(g.waiting_time(), 0);
}

#[test]
fn alive_check_on_body_cells() {
    let g = Game::new(20, 20);
    assert!(!g.check_if_snake_alive(Some(Direction::Left)));
    assert!(g.check_if_snake_alive(Some(Direction::Up)));
    assert!(g.check_if_snake_alive(Some(Direction::Down)));
    assert!(g.check_if_snake_alive(None));
}

#[test]
fn alive_check_allows_tail_cell() {
    let mut g = Game::new(20, 20);
    press(&mut g, &[Key::Down, Key::Down, Key::Right, Key::Right, Key::Up, Key::Left]);
    assert_eq!(g.snake().cells(), vec![(5, 3), (6, 3), (6, 4), (5, 4)]);
    assert!(g.check_if_snake_alive(Some(Direction::Down)));
    assert!(!g.check_if_snake_alive(Some(Direction::Right)));
    assert!(g.check_if_snake_alive(Some(Direction::Up)));
}

#[test]
fn alive_check_on_walls() {
    let mut g = Game::new(20, 20);
    press(&mut g, &[Key::Up]);
    assert!(!g.check_if_snake_alive(Some(Direction::Up)));

    let mut h = Game::new(20, 20);
    press(&mut h, &[Key::Down, Key::Left, Key::Left, Key::Left]);
    assert_eq!(h.snake().head_position(), (1, 3));
    assert!(!h.check_if_snake_alive(Some(Direction::Left)));
    assert!(h.check_if_snake_alive(Some(Direction::Down)));

    let r = Game::new(6, 20);
    assert!(!r.check_if_snake_alive(Some(Direction::Right)));

    let b = Game::new(20, 4);
    assert!(!b.check_if_snake_alive(Some(Direction::Down)));
    assert!(b.check_if_snake_alive(Some(Direction::Up)));
}

#[test]
fn place_food_rules() {
    let mut g = Game::new(20, 20);
    assert!(!g.place_food(0, 5));
    assert!(!g.place_food(5, 19));
    assert!(!g.place_food(4, 2));
    assert!(!g.place_food(3, 2));
    assert_eq!(g.food_position(), (6, 4));
    assert!(g.place_food(2, 2));
    assert_eq!(g.food_position(), (2, 2));
    assert!(g.place_food(18, 18));
    assert_eq!(g.food_position(), (18, 18));
    assert!(g.food_exists());
}

#[test]
fn add_food_picks_free_cell() {
    for _ in 0..50 {
        let mut g = Game::new(8, 6);
        g.add_food();
        assert!(g.food_exists());
        let (fx, fy) = g.food_position();
        assert!(fx >= 1 && fx < 7 && fy >= 1 && fy < 5);
        assert!(!g.snake().overlap_tail(fx, fy));
    }
}

#[test]
fn add_food_single_free_cell() {
    let mut g = Game::new(3, 3);
    g.add_food();
    assert!(g.food_exists());
    assert_eq!(g.food_position(), (1, 1));
}

#[test]
fn timer_saturates() {
    let mut g = Game::new(20, 20);
    press(&mut g, &[Key::Up, Key::Up]);
    assert!(g.is_game_over());
    g.update(10);
    assert!(g.is_game_over());
    assert_eq!(g.waiting_time(), 10);
    g.update(u64::MAX);
    assert!(!g.is_game_over());
    assert_eq!(g.waiting_time(), 0);
}

#[test]
fn add_food_spreads_over_arena() {
    let mut seen: Vec<(i32, i32)> = Vec::new();
    for _ in 0..200 {
        let mut g = Game::new(20, 20);
        g.add_food();
        let cell = g.food_position();
        if !seen.contains(&cell) {
            seen.push(cell);
        }
    }
    assert!(seen.len() > 1);
    assert!(seen.iter().any(|&(x, y)| x > 1 || y > 1));
}
