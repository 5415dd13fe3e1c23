use square_game::{
    apply_velocity, bounce, int_sqrt, make_random_position, make_random_velocity, overlaps,
    velocity_toward, Bounds, Enemy, Game, GameState, Point, ENEMY_SPEED,
};

fn in_game_with_food(food: Point) -> Game {
    let mut g = Game::new();
    g.enter_game_at(food);
    g
}

#[test]
fn window_bounds_are_half_extents() {
    let b = Bounds::from_window(800, 600);
    assert_eq!(b.half_w, 400_000);
    assert_eq!(b.half_h, 300_000);
    let odd = Bounds::from_window(801, 1);
    assert_eq!(odd.half_w, 400_500);
    assert_eq!(odd.half_h, 500);
}

#[test]
fn bounds_contain_their_edges() {
    let b = Bounds::from_window(800, 600);
    assert!(b.contains(Point::new(400_000, -300_000)));
    assert!(!b.contains(Point::new(400_001, 0)));
    assert!(!b.contains(Point::new(0, -300_001)));
}

#[test]
fn overlap_includes_box_edges() {
    let p = Point::origin();
    assert!(overlaps(p, Point::new(50_000, -50_000)));
    assert!(!overlaps(p, Point::new(50_001, 0)));
    assert!(!overlaps(p, Point::new(0, -50_001)));
    assert!(overlaps(Point::new(i64::MAX, i64::MIN), Point::new(i64::MAX - 50_000, i64::MIN)));
}

#[test]
fn food_overlap_scenario() {
    let b = Bounds::from_window(800, 600);
    let mut g = in_game_with_food(Point::new(10_000, 10_000));
    assert!(g.food_reached());
    let out = g.tick(b, None);
    assert!(out.food_eaten);
    assert!(!out.enemy_hit);
    assert_eq!(g.state(), GameState::InGame);
    assert_eq!(g.score(), 1);
    assert_eq!(g.enemy_count(), 1);
    let food = g.food_position().unwrap();
    assert!(-400_000 <= food.x && food.x <= 400_000);
    assert!(-300_000 <= food.y && food.y <= 300_000);
    let e = g.enemy(0);
    assert!(b.contains(e.pos));
}

#[test]
fn one_pickup_counts_once() {
    let b = Bounds::from_window(800, 600);
    let mut g = in_game_with_food(Point::new(0, 0));
    let out = g.tick(b, Some(Point::new(20_000, 0)));
    assert!(out.food_eaten);
    assert_eq!(g.score(), 1);
    assert_eq!(g.enemy_count(), 1);
    g.eat_food(Point::new(300_000, 300_000));
    assert_eq!(g.score(), 2);
    assert!(!g.food_reached());
}

#[test]
fn no_pickup_leaves_score() {
    let b = Bounds::from_window(800, 600);
    let mut g = in_game_with_food(Point::new(200_000, 0));
    let out = g.tick(b, Some(Point::new(-100_000, 0)));
    assert!(!out.food_eaten);
    assert!(!out.enemy_hit);
    assert_eq!(g.score(), 0);
    assert_eq!(g.enemy_count(), 0);
    assert_eq!(g.player_position(), Some(Point::new(-100_000, 0)));
    assert_eq!(g.food_position(), Some(Point::new(200_000, 0)));
}

#[test]
fn missing_pointer_keeps_player() {
    let mut g = in_game_with_food(Point::new(200_000, 0));
    g.move_player(Some(Point::new(7, -8)));
    g.move_player(None);
    assert_eq!(g.player_position(), Some(Point::new(7, -8)));
}

#[test]
fn enemy_bounce_scenario() {
    let b = Bounds::from_window(800, 600);
    let mut e = Enemy::new(Point::new(399_000, 0), Point::new(3_000, 0));
    e.step(b);
    assert_eq!(e.pos, Point::new(400_000, 0));
    assert_eq!(e.vel, Point::new(-3_000, 0));
}

#[test]
fn enemy_bounces_off_both_axes_at_a_corner() {
    let b = Bounds::from_window(800, 600);
    let mut e = Enemy::new(Point::new(-399_000, -299_000), Point::new(-4_000, -4_000));
    e.step(b);
    assert_eq!(e.pos, Point::new(-400_000, -300_000));
    assert_eq!(e.vel, Point::new(4_000, 4_000));
}

#[test]
fn enemy_inside_keeps_velocity() {
    let b = Bounds::from_window(800, 600);
    let mut e = Enemy::new(Point::new(0, 299_000), Point::new(2_000, 1_000));
    e.step(b);
    assert_eq!(e.pos, Point::new(2_000, 300_000));
    assert_eq!(e.vel, Point::new(2_000, 1_000));
    let mut f = Enemy::new(Point::new(0, 299_000), Point::new(2_000, 1_001));
    f.step(b);
    assert_eq!(f.pos, Point::new(2_000, 300_000));
    assert_eq!(f.vel, Point::new(2_000, -1_001));
}

#[test]
fn bounce_one_axis() {
    assert_eq!(bounce(-12, -5, 10), (-10, 5));
    assert_eq!(bounce(12, 5, 10), (10, -5));
    assert_eq!(bounce(10, 5, 10), (10, 5));
}

#[test]
fn velocity_is_added() {
    let mut p = Point::new(1, 2);
    apply_velocity(&mut p, Point::new(-3, 4));
    assert_eq!(p, Point::new(-2, 6));
}

#[test]
fn move_enemies_steps_each() {
    let b = Bounds::from_window(800, 600);
    let mut g = in_game_with_food(Point::new(300_000, 0));
    g.spawn_enemy(Enemy::new(Point::new(399_000, 0), Point::new(3_000, 0)));
    g.spawn_enemy(Enemy::new(Point::new(0, 0), Point::new(1_000, -1_000)));
    g.move_enemies(b);
    assert_eq!(g.enemy(0), Enemy::new(Point::new(400_000, 0), Point::new(-3_000, 0)));
    assert_eq!(g.enemy(1), Enemy::new(Point::new(1_000, -1_000), Point::new(1_000, -1_000)));
}

#[test]
fn entering_spawns_player_and_food() {
    let b = Bounds::from_window(800, 600);
    let mut g = Game::new();
    assert_eq!(g.state(), GameState::Menu);
    assert_eq!(g.player_position(), None);
    g.press_play(b);
    assert_eq!(g.state(), GameState::InGame);
    assert_eq!(g.player_position(), Some(Point::new(0, 0)));
    assert!(b.contains(g.food_position().unwrap()));
    assert_eq!(g.enemy_count(), 0);
    assert_eq!(g.score(), 0);
    let food = g.food_position();
    g.press_play(b);
    assert_eq!(g.food_position(), food);
    assert_eq!(g.state(), GameState::InGame);
}

#[test]
fn exit_resets_score_and_despawns() {
    let mut g = in_game_with_food(Point::new(300_000, 0));
    for i in 0..5 {
        g.eat_food(Point::new(300_000, i));
        g.spawn_enemy(Enemy::new(Point::new(i, i), Point::new(1, 1)));
    }
    assert_eq!(g.score(), 5);
    assert_eq!(g.enemy_count(), 5);
    g.exit_game();
    assert_eq!(g.state(), GameState::Menu);
    assert_eq!(g.score(), 0);
    assert_eq!(g.enemy_count(), 0);
    assert_eq!(g.player_position(), None);
    assert_eq!(g.food_position(), None);
}

#[test]
fn enemy_contact_ends_session() {
    let b = Bounds::from_window(800, 600);
    let mut g = in_game_with_food(Point::new(0, 0));
    g.spawn_enemy(Enemy::new(Point::new(100_000, 0), Point::new(0, 0)));
    assert!(!g.check_enemies());
    let out = g.tick(b, Some(Point::new(60_000, 0)));
    assert!(out.enemy_hit);
    assert!(!out.food_eaten);
    assert_eq!(g.state(), GameState::Menu);
    assert_eq!(g.score(), 0);
    assert_eq!(g.enemy_count(), 0);
    assert_eq!(g.player_position(), None);
    assert_eq!(g.food_position(), None);
    g.press_play(b);
    assert_eq!(g.state(), GameState::InGame);
    assert_eq!(g.enemy_count(), 0);
}

#[test]
fn square_roots() {
    assert_eq!(int_sqrt(0), 0);
    assert_eq!(int_sqrt(1), 1);
    assert_eq!(int_sqrt(24), 4);
    assert_eq!(int_sqrt(25), 5);
    assert_eq!(int_sqrt(2_000_000), 1414);
    assert_eq!(int_sqrt(4_000_000_000_000), 2_000_000);
}

#[test]
fn velocity_has_enemy_speed() {
    assert_eq!(velocity_toward(3, 4), Point::new(2_400, 3_200));
    assert_eq!(velocity_toward(1_000, 1_000), Point::new(2_828, 2_828));
    assert_eq!(velocity_toward(5, 0), Point::new(ENEMY_SPEED, 0));
}

#[test]
fn random_velocity_points_into_first_quadrant() {
    for _ in 0..100 {
        let v = make_random_velocity();
        assert!(v.x > 0 && v.y > 0);
        assert!(v.x <= ENEMY_SPEED && v.y <= ENEMY_SPEED);
        let len2 = (v.x * v.x + v.y * v.y) as f64;
        assert!((len2.sqrt() - ENEMY_SPEED as f64).abs() < 10.0);
        assert!(v.x >= 1_788 && v.y >= 1_788);
    }
}

#[test]
fn random_positions_stay_inside_and_vary() {
    let b = Bounds::from_window(800, 600);
    let mut seen_other = false;
    for _ in 0..100 {
        let p = make_random_position(b);
        assert!(b.contains(p));
        if p.x != -400_000 || p.y != -300_000 {
            seen_other = true;
        }
    }
    assert!(seen_other);
    let flat = Bounds::from_window(0, 0);
    assert_eq!(make_random_position(flat), Point::new(0, 0));
}
