use space_ship::entity::{Shape, Tint};
use space_ship::game::{FrameInput, Game, GamePhase, PLAYER_SIZE};
use space_ship::spawn::{
    launch_projectile, obstacle_from_draws, roll_obstacle, SPAWN_THRESHOLD, MAX_FALL_SPEED, MAX_OBSTACLE_SIZE, MIN_FALL_SPEED, MIN_OBSTACLE_SIZE,
};

const WIDTH: i64 = 800_000;
const HEIGHT: i64 = 600_000;

fn idle(dt: u64, now: u64) -> FrameInput {
    FrameInput {
        dt,
        now,
        width: WIDTH,
        height: HEIGHT,
        up: false,
        down: false,
        left: false,
        right: false,
        fire: false,
        pause: false,
        confirm: false,
    }
}

fn confirm() -> FrameInput {
    FrameInput { confirm: true, ..idle(0, 0) }
}

fn obstacle(x: i64, y: i64, size: i64, speed: i64) -> Shape {
    Shape { size, speed, x, y, color: Tint::Purple, collided: false }
}

fn shot(x: i64, y: i64) -> Shape {
    Shape { size: 5_000, speed: 400_000, x, y, color: Tint::Magenta, collided: false }
}

fn playing(high_score: u32) -> Game {
    let mut g = Game::new(high_score, WIDTH, HEIGHT);
    assert_eq!(g.advance(&confirm(), None), None);
    assert_eq!(g.phase(), GamePhase::Playing);
    g
}

#[test]
fn starts_in_menu_with_centered_player() {
    let g = Game::new(42, WIDTH, HEIGHT);
    assert_eq!(g.phase(), GamePhase::MainMenu);
    assert_eq!((g.player().x, g.player().y), (400_000, 300_000));
    assert_eq!((g.score(), g.high_score()), (0, 42));
}

#[test]
fn obstacle_at_threshold_is_pruned() {
    // Falls from y = 100 to y = 150 in one second.
    let mut g = playing(0);
    g.insert_obstacle(obstacle(100_000, 100_000, 40_000, 50_000));
    let input = FrameInput { height: 150_000, ..idle(1_000_000, 0) };
    g.advance(&input, None);
    assert_eq!(g.obstacles().len(), 1);
    assert_eq!((g.obstacles()[0].x, g.obstacles()[0].y), (100_000, 150_000));

    // At exactly height + size the obstacle is gone.
    let mut g = playing(0);
    g.insert_obstacle(obstacle(100_000, 100_000, 40_000, 50_000));
    let input = FrameInput { height: 110_000, ..idle(1_000_000, 0) };
    g.advance(&input, None);
    assert_eq!(g.obstacles().len(), 0);
}

#[test]
fn projectile_destroys_obstacle_and_scores() {
    let mut g = playing(0);
    g.insert_projectile(shot(50_000, 50_000));
    g.insert_obstacle(obstacle(48_000, 48_000, 10_000, 0));
    assert_eq!(g.advance(&idle(0, 0), None), None);
    assert_eq!(g.score(), 10);
    assert_eq!(g.high_score(), 10);
    assert!(g.obstacles().is_empty());
    assert!(g.projectiles().is_empty());
    assert_eq!(g.phase(), GamePhase::Playing);
}

#[test]
fn one_projectile_scores_every_obstacle_it_touches() {
    let mut g = playing(0);
    g.insert_projectile(shot(50_000, 50_000));
    g.insert_projectile(shot(51_000, 51_000));
    g.insert_obstacle(obstacle(40_000, 40_000, 12_000, 0));
    g.insert_obstacle(obstacle(49_000, 49_000, 20_000, 0));
    g.insert_obstacle(obstacle(200_000, 40_000, 30_000, 0));
    g.advance(&idle(0, 0), None);
    assert_eq!(g.score(), 12 + 20);
    assert_eq!(g.obstacles().len(), 1);
    assert_eq!(g.obstacles()[0].x, 200_000);
    assert!(g.projectiles().is_empty());
}

#[test]
fn record_is_stored_once_and_only_when_reached() {
    let mut g = playing(100);
    // Earn exactly 100 points, then get hit in the same frame.
    g.insert_projectile(shot(50_000, 50_000));
    g.insert_obstacle(obstacle(10_000, 10_000, 100_000, 0));
    g.insert_obstacle(obstacle(390_000, 290_000, 20_000, 0));
    assert_eq!(g.advance(&idle(0, 0), None), Some(100));
    assert_eq!(g.phase(), GamePhase::GameOver);
    assert_eq!((g.score(), g.high_score()), (100, 100));
    // Later frames in GameOver store nothing.
    assert_eq!(g.advance(&idle(16_000, 0), None), None);

    assert_eq!(g.advance(&confirm(), None), None);
    assert_eq!(g.phase(), GamePhase::MainMenu);
    assert_eq!(g.advance(&confirm(), None), None);
    assert_eq!(g.score(), 0);
    g.insert_projectile(shot(50_000, 50_000));
    g.insert_obstacle(obstacle(10_000, 10_000, 80_000, 0));
    g.insert_obstacle(obstacle(390_000, 290_000, 20_000, 0));
    assert_eq!(g.advance(&idle(0, 0), None), None);
    assert_eq!(g.phase(), GamePhase::GameOver);
    assert_eq!((g.score(), g.high_score()), (80, 100));
}

#[test]
fn restart_twice_equals_restart_once() {
    let mut once = playing(5);
    once.insert_obstacle(obstacle(0, 0, 20_000, 0));
    once.start(WIDTH, HEIGHT);
    let mut twice = playing(5);
    twice.insert_obstacle(obstacle(0, 0, 20_000, 0));
    twice.start(WIDTH, HEIGHT);
    twice.start(WIDTH, HEIGHT);
    for g in [&once, &twice] {
        assert_eq!(g.phase(), GamePhase::Playing);
        assert!(g.obstacles().is_empty() && g.projectiles().is_empty());
        assert_eq!(g.score(), 0);
        assert_eq!((g.player().x, g.player().y), (WIDTH / 2, HEIGHT / 2));
    }
    assert_eq!(once.player(), twice.player());
    assert_eq!(once.high_score(), twice.high_score());
}

#[test]
fn pause_freezes_and_confirm_resumes() {
    let mut g = playing(0);
    g.insert_obstacle(obstacle(100_000, 100_000, 20_000, 100_000));
    let pause = FrameInput { pause: true, ..idle(100_000, 0) };
    g.advance(&pause, None);
    assert_eq!(g.phase(), GamePhase::Paused);
    let y = g.obstacles()[0].y;
    assert_eq!(y, 110_000);
    g.advance(&idle(1_000_000, 0), None);
    assert_eq!(g.obstacles()[0].y, y);
    g.advance(&confirm(), None);
    assert_eq!(g.phase(), GamePhase::Playing);
    assert_eq!(g.obstacles()[0].y, y);
}

#[test]
fn shooting_waits_for_cooldown() {
    let mut g = playing(0);
    let fire = |now: u64| FrameInput { fire: true, ..idle(0, now) };
    g.advance(&fire(100_000), None);
    assert_eq!(g.projectiles().len(), 0);
    g.advance(&fire(500_000), None);
    assert_eq!(g.projectiles().len(), 1);
    let p = g.projectiles()[0];
    assert_eq!((p.x, p.y, p.size, p.speed), (400_000, 300_000 - PLAYER_SIZE / 2, 5_000, 400_000));
    g.advance(&fire(900_000), None);
    assert_eq!(g.projectiles().len(), 1);
    g.advance(&fire(1_000_000), None);
    assert_eq!(g.projectiles().len(), 2);
}

#[test]
fn player_is_kept_on_screen() {
    let mut g = playing(0);
    let left_up = FrameInput { left: true, up: true, ..idle(10_000_000, 0) };
    g.advance(&left_up, None);
    assert_eq!((g.player().x, g.player().y), (PLAYER_SIZE / 2, PLAYER_SIZE / 2));
    let right = FrameInput { right: true, ..idle(100_000, 0) };
    g.advance(&right, None);
    assert_eq!(g.player().x, PLAYER_SIZE / 2 + 20_000);
    let far_right = FrameInput { right: true, width: 300_000, ..idle(10_000_000, 0) };
    g.advance(&far_right, None);
    assert_eq!(g.player().x, 300_000 - PLAYER_SIZE / 2);
}

#[test]
fn spawned_obstacle_enters_and_falls() {
    let mut g = playing(0);
    let o = obstacle(100_000, -30_000, 30_000, 60_000);
    g.advance(&idle(500_000, 0), Some(o));
    assert_eq!(g.obstacles().len(), 1);
    assert_eq!(g.obstacles()[0].y, 0);
}

#[test]
fn menu_and_game_over_ignore_the_world() {
    let mut g = Game::new(0, WIDTH, HEIGHT);
    g.advance(&idle(1_000_000, 0), Some(obstacle(0, -20_000, 20_000, 60_000)));
    assert!(g.obstacles().is_empty());
    assert_eq!(g.phase(), GamePhase::MainMenu);
}

#[test]
fn frames_keep_obstacles_above_the_bottom() {
    let mut g = playing(0);
    let mut now: u64 = 0;
    for _ in 0..2_000 {
        now += 16_667;
        let input = FrameInput { fire: true, ..idle(16_667, now) };
        g.frame(&input);
        if g.phase() != GamePhase::Playing {
            break;
        }
        for o in g.obstacles() {
            assert!(o.y < HEIGHT + o.size);
            assert!(!o.collided);
        }
        assert!(g.score() <= g.high_score());
    }
}

#[test]
fn rolled_obstacles_fit_the_screen() {
    let mut seen = 0;
    for i in 0..5_000 {
        let width = if i % 2 == 0 { WIDTH } else { 10_000 };
        if let Some(o) = roll_obstacle(width) {
            seen += 1;
            assert!(o.size >= MIN_OBSTACLE_SIZE && o.size <= MAX_OBSTACLE_SIZE);
            assert!(o.speed >= MIN_FALL_SPEED && o.speed <= MAX_FALL_SPEED);
            assert_eq!(o.y, -o.size);
            if width >= o.size {
                assert!(o.x >= 0 && o.x <= width - o.size);
            } else {
                assert!(o.x <= 0 && o.x >= width - o.size);
            }
            assert!(!o.collided);
        }
    }
    assert!(seen > 0);
}

#[test]
fn projectile_leaves_from_top_edge() {
    let player = Shape { size: 32_000, speed: 200_000, x: 10_000, y: 50_000, color: Tint::Yellow, collided: false };
    let p = launch_projectile(&player);
    assert_eq!((p.x, p.y, p.speed, p.size), (10_000, 34_000, 400_000, 5_000));
    assert_eq!(p.color, Tint::Magenta);
}

#[test]
fn projectile_at_minus_size_is_kept() {
    let mut g = playing(0);
    g.insert_projectile(shot(100_000, -5_000));
    g.advance(&idle(0, 0), None);
    assert_eq!(g.projectiles().len(), 1);
    assert_eq!(g.projectiles()[0].y, -5_000);

    // One more milli-pixel up and it is gone.
    let mut g = playing(0);
    g.insert_projectile(shot(100_000, -5_001));
    g.advance(&idle(0, 0), None);
    assert!(g.projectiles().is_empty());

    // Rising onto the boundary keeps it; rising past it does not.
    let mut g = playing(0);
    g.insert_projectile(shot(100_000, 35_000));
    g.advance(&idle(100_000, 0), None);
    assert_eq!(g.projectiles()[0].y, -5_000);
    g.advance(&idle(2_500, 0), None);
    assert!(g.projectiles().is_empty());
}

#[test]
fn draws_below_threshold_spawn_nothing() {
    assert_eq!(obstacle_from_draws(0, 20_000, 60_000, 100, Tint::Red), None);
    assert_eq!(obstacle_from_draws(SPAWN_THRESHOLD - 1, 20_000, 60_000, 100, Tint::Red), None);
}

#[test]
fn draws_at_threshold_build_the_obstacle() {
    let o = obstacle_from_draws(SPAWN_THRESHOLD, 20_000, 60_000, 1_234, Tint::Pink).unwrap();
    assert_eq!(o, Shape { size: 20_000, speed: 60_000, x: 1_234, y: -20_000, color: Tint::Pink, collided: false });
    assert!(obstacle_from_draws(98, 64_000, 150_000, 0, Tint::Red).is_some());
}
