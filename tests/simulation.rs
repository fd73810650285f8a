use circles::game_controller;
use circles::game_data::{GameData, FOOD_DENSITY};
use circles::player_controller::{self, player_speed, PLAYER_SPEED};
use circles::{
    heading_rules, Camera, Circle, ControllablePlayer, Coord, Direction, DirectionalState, Food,
    Game, GameClock, Heading, InputEvent, MovableCamera, Player, Rgba, Vector2, CAMERA_SPEED,
    DEFAULT_RADIUS, MAX_RANDOM_RADIUS, MIN_RANDOM_RADIUS, PHASE_PERIOD, SPAWN_EXTENT, UNIT,
};

fn keys(up: bool, right: bool, down: bool, left: bool) -> DirectionalState {
    DirectionalState { moving_up: up, moving_right: right, moving_down: down, moving_left: left }
}

fn c(axial: i64, diagonal: i64) -> Coord {
    Coord { axial, diagonal }
}

fn units(c: Coord) -> f64 {
    (c.axial as f64 + c.diagonal as f64 * std::f64::consts::FRAC_1_SQRT_2) / UNIT as f64
}

const RED: Rgba = Rgba { r: 255, g: 0, b: 0, a: 255 };
const GREEN: Rgba = Rgba { r: 0, g: 255, b: 0, a: 255 };

fn circle_at_phase(time: u64) -> Circle {
    Circle { position: Vector2::zero(), radius: 1, time, base_color: RED, new_color: GREEN }
}

#[test]
fn direction_table_all_sixteen() {
    let s = 200i64;
    let z = c(0, 0);
    let table = [
        ((false, false, false, false), None, (z, z)),
        ((true, true, false, false), Some(Heading::NorthEast), (c(0, s), c(0, s))),
        ((true, false, false, true), Some(Heading::NorthWest), (c(0, -s), c(0, s))),
        ((false, false, true, true), Some(Heading::SouthWest), (c(0, -s), c(0, -s))),
        ((false, true, true, false), Some(Heading::SouthEast), (c(0, s), c(0, -s))),
        ((false, true, false, false), Some(Heading::East), (c(s, 0), z)),
        ((true, true, true, false), Some(Heading::East), (c(s, 0), z)),
        ((true, false, false, false), Some(Heading::North), (z, c(s, 0))),
        ((true, true, false, true), Some(Heading::North), (z, c(s, 0))),
        ((false, false, false, true), Some(Heading::West), (c(-s, 0), z)),
        ((true, false, true, true), Some(Heading::West), (c(-s, 0), z)),
        ((false, false, true, false), Some(Heading::South), (z, c(-s, 0))),
        ((false, true, true, true), Some(Heading::South), (z, c(-s, 0))),
        ((true, true, true, true), None, (z, z)),
        ((true, false, true, false), None, (z, z)),
        ((false, true, false, true), None, (z, z)),
    ];
    for ((u, r, d, l), heading, (x, y)) in table {
        let k = keys(u, r, d, l);
        assert_eq!(k.heading(), heading, "{:?}", k);
        assert_eq!(k.velocity(200), Vector2 { x, y }, "{:?}", k);
    }
}

#[test]
fn heading_rules_try_diagonals_first() {
    let rules = heading_rules();
    assert_eq!(rules.len(), 8);
    assert_eq!(rules[0].1, Heading::NorthEast);
    assert_eq!(rules[4].1, Heading::East);
    assert!(rules[4].0.matches(&keys(true, true, false, false)));
    assert!(!rules[0].0.matches(&keys(true, true, true, false)));
}

#[test]
fn magnitude_is_speed_on_every_heading() {
    for bits in 0..16u8 {
        let k = keys(bits & 1 != 0, bits & 2 != 0, bits & 4 != 0, bits & 8 != 0);
        let v = k.velocity(200);
        let len = (units(v.x) * units(v.x) + units(v.y) * units(v.y)).sqrt() * UNIT as f64;
        if k.heading().is_some() {
            assert!((len - 200.0).abs() < 1e-9, "{:?} {}", k, len);
        } else {
            assert_eq!(len, 0.0);
        }
    }
}

#[test]
fn diagonal_move_scenario() {
    let mut player = Player::new();
    *player.mut_state() = keys(true, true, false, false);
    player_controller::update(&mut player, 100_000);
    let p = player.circle.position;
    assert_eq!(p.x, c(0, 20_000_000));
    assert_eq!(p.y, c(0, 20_000_000));
    assert!((units(p.x) - 14.14).abs() < 0.01);
    assert!((units(p.y) - 14.14).abs() < 0.01);
}

#[test]
fn opposed_keys_do_not_move() {
    let k = keys(true, false, true, false);
    assert_eq!(k.velocity(200), Vector2::zero());
    for dt in [0u64, 1, 100_000, u64::MAX] {
        let mut player = Player::new();
        player.state = k;
        player_controller::update(&mut player, dt);
        assert_eq!(player.circle.position, Vector2::zero());
    }
}

#[test]
fn integration_is_linear() {
    let p = Vector2 { x: c(5, -7), y: c(-3, 11) };
    let v = Vector2 { x: c(0, 200), y: c(-200, 0) };
    let twice = p.integrate(v, 30_000).integrate(v, 45_000);
    let once = p.integrate(v, 75_000);
    assert_eq!(twice, once);
    assert_eq!(once.x, c(5, -7 + 200 * 75_000));
    assert_eq!(once.y, c(-3 - 200 * 75_000, 11));
}

#[test]
fn integration_saturates_at_the_range() {
    let p = Vector2 { x: c(i64::MAX - 10, 0), y: c(i64::MIN + 10, 0) };
    let v = Vector2 { x: c(200, 0), y: c(-200, 0) };
    let r = p.integrate(v, 1);
    assert_eq!(r.x.axial, i64::MAX);
    assert_eq!(r.y.axial, i64::MIN);
}

#[test]
fn color_cycle_long_step_swaps_once() {
    let mut circle = circle_at_phase(0);
    circle.update(2 * PHASE_PERIOD + PHASE_PERIOD / 2);
    assert_eq!(circle.time, PHASE_PERIOD / 2);
    assert_eq!(circle.base_color, GREEN);
    assert_eq!(circle.new_color, RED);
}

#[test]
fn color_cycle_exact_period_wraps_once() {
    let mut circle = circle_at_phase(0);
    circle.update(PHASE_PERIOD);
    assert_eq!(circle.time, 0);
    assert_eq!(circle.base_color, GREEN);
    assert_eq!(circle.new_color, RED);
}

#[test]
fn color_cycle_landing_on_period_stays_normalized() {
    let mut circle = circle_at_phase(400_000);
    circle.update(600_000);
    assert_eq!(circle.time, 0);
    assert_eq!(circle.base_color, GREEN);
    circle.update(PHASE_PERIOD - 1);
    assert_eq!(circle.time, PHASE_PERIOD - 1);
    assert_eq!(circle.base_color, GREEN);
}

#[test]
fn spawned_at_keeps_drawn_values() {
    let circle = Circle::spawned_at(-5, 7, MIN_RANDOM_RADIUS as u64, 123, RED, GREEN);
    assert_eq!(circle.position, Vector2 { x: c(-5, 0), y: c(7, 0) });
    assert_eq!(circle.radius, MIN_RANDOM_RADIUS as u64);
    assert_eq!(circle.time, 123);
    assert_eq!((circle.base_color, circle.new_color), (RED, GREEN));
}

#[test]
fn player_motion_splits_linearly() {
    let mut split = Player::new();
    split.state = keys(false, true, true, false);
    let mut whole = split;
    player_controller::update(&mut split, 40_000);
    player_controller::update(&mut split, 60_000);
    player_controller::update(&mut whole, 100_000);
    assert_eq!(split.circle.position, whole.circle.position);
    let mut cam_split = Camera::new();
    cam_split.mut_state().apply(InputEvent::KeyPressed(Direction::Up));
    let mut cam_whole = cam_split;
    cam_split.compute(40_000);
    cam_split.compute(60_000);
    cam_whole.compute(100_000);
    assert_eq!(cam_split.position(), cam_whole.position());
}

#[test]
fn color_cycle_within_period_keeps_colors() {
    let mut circle = circle_at_phase(200_000);
    circle.update(300_000);
    assert_eq!(circle.time, 500_000);
    assert_eq!(circle.base_color, RED);
    assert_eq!(circle.new_color, GREEN);
}

#[test]
fn food_wrap_scenario() {
    let mut data = GameData::new();
    data.food[0].circle = Circle { time: 950_000, ..circle_at_phase(0) };
    let others: Vec<Circle> = data.food[1..].iter().map(|f| f.circle).collect();
    game_controller::update(&mut data, 100_000);
    let food = &data.food[0].circle;
    assert_eq!(food.time, 50_000);
    assert_eq!(food.base_color, GREEN);
    assert_eq!(food.new_color, RED);
    for (f, before) in data.food[1..].iter().zip(others) {
        let mut expected = before;
        expected.update(100_000);
        assert_eq!(f.circle, expected);
    }
}

#[test]
fn swap_colors_trades_endpoints() {
    let mut circle = circle_at_phase(3);
    circle.swap_colors();
    assert_eq!((circle.base_color, circle.new_color, circle.time), (GREEN, RED, 3));
}

#[test]
fn press_twice_stays_held() {
    let mut player = Player::new();
    player_controller::process_event(&mut player, InputEvent::KeyPressed(Direction::Up));
    player_controller::process_event(&mut player, InputEvent::KeyPressed(Direction::Up));
    assert!(player.state.moving_up);
    assert_eq!(player.state, keys(true, false, false, false));
}

#[test]
fn release_clears_and_repeats_harmlessly() {
    let mut k = keys(true, true, true, true);
    k.apply(InputEvent::KeyReleased(Direction::Left));
    k.apply(InputEvent::KeyReleased(Direction::Left));
    k.apply(InputEvent::KeyReleased(Direction::Down));
    assert_eq!(k, keys(true, true, false, false));
}

#[test]
fn later_event_in_batch_wins() {
    let mut k = DirectionalState::new();
    k.apply_all(&vec![
        InputEvent::KeyPressed(Direction::Right),
        InputEvent::KeyPressed(Direction::Up),
        InputEvent::KeyReleased(Direction::Up),
    ]);
    assert_eq!(k, keys(false, true, false, false));
}

#[test]
fn new_player_and_camera_start_still() {
    let player = Player::new();
    assert_eq!(player.circle, Circle::new());
    assert_eq!(player.circle.radius, DEFAULT_RADIUS);
    assert_eq!(player.circle.base_color, Rgba { r: 0, g: 0, b: 0, a: 255 });
    assert_eq!(player.circle.new_color, Rgba { r: 255, g: 255, b: 255, a: 255 });
    assert_eq!(player.state, DirectionalState::new());
    let camera = Camera::new();
    assert_eq!(camera.position(), Vector2::zero());
    assert_eq!(camera.camera_speed(), Vector2::zero());
}

#[test]
fn camera_moves_under_its_keys() {
    let mut camera = Camera::new();
    camera.mut_state().apply(InputEvent::KeyPressed(Direction::Left));
    camera.compute(500_000);
    assert_eq!(camera.position(), Vector2 { x: c(-(CAMERA_SPEED as i64) * 500_000, 0), y: c(0, 0) });
}

#[test]
fn player_speed_follows_keys() {
    let v = player_speed(&keys(false, false, true, true));
    let s = PLAYER_SPEED as i64;
    assert_eq!(v, Vector2 { x: c(0, -s), y: c(0, -s) });
}

#[test]
fn random_food_within_bounds() {
    let data = GameData::new();
    assert_eq!(data.food.len(), FOOD_DENSITY as usize);
    assert_eq!(data.circle_density, FOOD_DENSITY);
    for f in &data.food {
        let circle = f.circle;
        assert!(-SPAWN_EXTENT <= circle.position.x.axial && circle.position.x.axial < SPAWN_EXTENT);
        assert!(-SPAWN_EXTENT <= circle.position.y.axial && circle.position.y.axial < SPAWN_EXTENT);
        assert_eq!(circle.position.x.diagonal, 0);
        assert!(MIN_RANDOM_RADIUS as u64 <= circle.radius && circle.radius < MAX_RANDOM_RADIUS as u64);
        assert!(circle.time < PHASE_PERIOD);
        assert_eq!((circle.base_color.a, circle.new_color.a), (255, 255));
    }
}

#[test]
fn random_food_differs() {
    let foods: Vec<Food> = (0..8).map(|_| Food::new()).collect();
    let first = foods[0].circle;
    assert!(foods.iter().any(|f| f.circle.position != first.position));
    assert!(foods.iter().any(|f| f.circle.radius != first.radius));
    assert!(foods.iter().any(|f| f.circle.position.x.axial != -SPAWN_EXTENT));
}

#[test]
fn clock_never_runs_backwards() {
    let mut clock = GameClock::new();
    assert_eq!(clock.record(1_000), (1_000, 1_000));
    assert_eq!(clock.record(4_500), (3_500, 4_500));
    assert_eq!(clock.record(2_000), (0, 4_500));
    assert_eq!(clock.record(u128::MAX), (u64::MAX - 4_500, u64::MAX));
    assert_eq!(clock.elapsed_since_start(), u64::MAX);
}

#[test]
fn clock_tick_is_monotonic() {
    let mut clock = GameClock::new();
    let (_, first) = clock.tick();
    let (since_last, second) = clock.tick();
    assert!(second >= first);
    assert_eq!(since_last, second - first);
}

#[test]
fn game_frame_moves_player_and_camera() {
    let mut game = Game::new();
    game.update_time();
    game.process_events(&vec![
        InputEvent::KeyPressed(Direction::Up),
        InputEvent::KeyPressed(Direction::Right),
    ]);
    assert!(game.player().state.moving_up && game.player().state.moving_right);
    let food_before: Vec<Circle> = game.food().iter().map(|f| f.circle).collect();
    let dt = game.last_frame_elapsed();
    game.play();
    let expected = dt as i64 * PLAYER_SPEED as i64;
    assert_eq!(game.player().circle.position, Vector2 { x: c(0, expected), y: c(0, expected) });
    assert_eq!(game.camera_position(), game.player().circle.position);
    for (f, before) in game.food().iter().zip(food_before) {
        let mut e = before;
        e.update(dt);
        assert_eq!(f.circle, e);
    }
    assert_eq!(game.food().len(), FOOD_DENSITY as usize);
    assert!(game.time_played() >= dt);
}

#[test]
fn game_event_reaches_player_and_camera() {
    let mut game = Game::new();
    game.process_event(InputEvent::KeyPressed(Direction::Down));
    game.process_event(InputEvent::KeyReleased(Direction::Down));
    game.process_event(InputEvent::KeyPressed(Direction::Left));
    assert_eq!(game.player().state, keys(false, false, false, true));
}
