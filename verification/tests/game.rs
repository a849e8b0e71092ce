use pong::ball::Ball;
use pong::game::{Game, GameState};
use pong::geometry::{Rect, Vec2};
use pong::input::Input;
use pong::paddle::Player;
use pong::units::{BALL_SIZE, PIXEL, REACH};

const WIDTH: i64 = 800 * PIXEL;
const HEIGHT: i64 = 600 * PIXEL;

const IDLE: Input = Input { up: false, alt_up: false, down: false, alt_down: false, confirm: false };
const CONFIRM: Input = Input { up: false, alt_up: false, down: false, alt_down: false, confirm: true };
const UP: Input = Input { up: true, alt_up: false, down: false, alt_down: false, confirm: false };

fn playing(x: i64, y: i64, vx: i32, vy: i32) -> Game {
    let mut g = Game::with_heading(WIDTH, HEIGHT, 0);
    g.state = GameState::Game;
    g.ball = Ball { rect: Rect::new(x, y, BALL_SIZE, BALL_SIZE), vel: Vec2::new(vx, vy) };
    g
}

#[test]
fn a_game_is_set_up_in_the_menu() {
    let g = Game::with_heading(WIDTH, HEIGHT, 600);
    assert_eq!(g.state, GameState::Menu);
    assert_eq!(g.left_player.rect, Rect::new(10_000_000, 250_000_000, 20_000_000, 100_000_000));
    assert_eq!(g.right_player.rect, Rect::new(770_000_000, 250_000_000, 20_000_000, 100_000_000));
    assert_eq!(g.ball.rect, Rect::new(395_000_000, 295_000_000, 10_000_000, 10_000_000));
    assert_eq!(g.ball.vel, Vec2::new(514, 857));
    assert_eq!(g.score, 0);
    assert_eq!(g.ball_speed, 200);
    assert_eq!(g.ai_target, 250_000_000);
}

#[test]
fn a_new_game_has_a_ball_of_unit_velocity_in_the_middle() {
    let g = Game::new(WIDTH, HEIGHT);
    assert_eq!(g.state, GameState::Menu);
    assert_eq!(g.ball.rect, Rect::new(395_000_000, 295_000_000, 10_000_000, 10_000_000));
    assert!(-707 <= g.ball.vel.x && g.ball.vel.x <= 707);
    assert!(707 <= g.ball.vel.y && g.ball.vel.y <= 1000);
    assert_eq!(g.left_player, Player::new(10 * PIXEL, HEIGHT));
    assert_eq!(g.right_player, Player::new(770 * PIXEL, HEIGHT));
    assert_eq!(g.score, 0);
    assert_eq!(g.ball_speed, 200);
}

#[test]
fn confirm_starts_play_from_the_menu() {
    let mut g = Game::new(WIDTH, HEIGHT);
    let before = g;
    g.step(&CONFIRM, 16, WIDTH, HEIGHT);
    assert_eq!(g.state, GameState::Game);
    assert_eq!(g.ball, before.ball);
    assert_eq!(g.left_player, before.left_player);
    assert_eq!(g.right_player, before.right_player);
    assert_eq!(g.score, 0);
    assert_eq!(g.ball_speed, 200);
}

#[test]
fn the_menu_waits_for_confirm() {
    let mut g = Game::with_heading(WIDTH, HEIGHT, 300);
    let before = g;
    g.step(&IDLE, 16, WIDTH, HEIGHT);
    assert_eq!(g, before);
    g.step(&UP, 16, WIDTH, HEIGHT);
    assert_eq!(g, before);
}

#[test]
fn holding_confirm_during_play_changes_nothing() {
    let mut g = playing(395 * PIXEL, 295 * PIXEL, 0, 1000);
    let mut h = g;
    g.step(&CONFIRM, 16, WIDTH, HEIGHT);
    h.step(&IDLE, 16, WIDTH, HEIGHT);
    assert_eq!(g, h);
    assert_eq!(g.state, GameState::Game);
}

#[test]
fn a_ball_past_the_left_side_loses_the_game() {
    let mut g = playing(-PIXEL, 295 * PIXEL, -600, 800);
    let before = g;
    g.step(&IDLE, 16, WIDTH, HEIGHT);
    assert_eq!(g.state, GameState::Lose);
    assert_eq!(g.ball, before.ball);
    assert_eq!(g.score, before.score);
    assert_eq!(g.ball_speed, before.ball_speed);
    assert_eq!(g.judged(WIDTH), GameState::Lose);
}

#[test]
fn a_ball_past_the_right_side_wins_the_game() {
    let mut g = playing(WIDTH + PIXEL, 295 * PIXEL, 600, 800);
    let before = g;
    g.step(&IDLE, 16, WIDTH, HEIGHT);
    assert_eq!(g.state, GameState::Win);
    assert_eq!(g.ball, before.ball);
    assert_eq!(g.right_player, before.right_player);
}

#[test]
fn a_ball_on_the_side_lines_is_still_in_play() {
    let mut g = playing(0, 295 * PIXEL, 0, 1000);
    g.step(&IDLE, 16, WIDTH, HEIGHT);
    assert_eq!(g.state, GameState::Game);
    let mut h = playing(WIDTH, 295 * PIXEL, 0, 1000);
    h.step(&IDLE, 16, WIDTH, HEIGHT);
    assert_eq!(h.state, GameState::Game);
    assert_eq!(playing(-1, 0, 0, 0).judged(WIDTH), GameState::Lose);
    assert_eq!(playing(WIDTH + 1, 0, 0, 0).judged(WIDTH), GameState::Win);
}

#[test]
fn the_ball_is_judged_in_every_state() {
    let mut g = playing(-PIXEL, 295 * PIXEL, 0, 1000);
    g.state = GameState::Menu;
    g.step(&IDLE, 16, WIDTH, HEIGHT);
    assert_eq!(g.state, GameState::Lose);
    g.state = GameState::Win;
    g.step(&IDLE, 16, WIDTH, HEIGHT);
    assert_eq!(g.state, GameState::Lose);
    assert_eq!(playing(5, 0, 0, 0).judged(-3), GameState::Win);
    assert_eq!(playing(-2, 0, 0, 0).judged(-3), GameState::Win);
    assert_eq!(playing(-5, 0, 0, 0).judged(-3), GameState::Lose);
}

#[test]
fn starting_again_resets_nothing() {
    let mut g = playing(-PIXEL, 295 * PIXEL, -600, 800);
    g.score = 7;
    g.ball_speed = 550;
    g.step(&IDLE, 16, WIDTH, HEIGHT);
    assert_eq!(g.state, GameState::Lose);
    let lost = g;
    g.step(&CONFIRM, 16, WIDTH, HEIGHT);
    assert_eq!(g.state, GameState::Game);
    assert_eq!(g.ball, lost.ball);
    assert_eq!(g.score, 7);
    assert_eq!(g.ball_speed, 550);
    g.step(&IDLE, 16, WIDTH, HEIGHT);
    assert_eq!(g.state, GameState::Lose);
    assert_eq!(g.ball, lost.ball);
}

#[test]
fn a_wider_screen_lets_a_won_game_go_on() {
    let mut g = playing(WIDTH + PIXEL, 295 * PIXEL, 0, 1000);
    g.step(&IDLE, 16, WIDTH, HEIGHT);
    assert_eq!(g.state, GameState::Win);
    g.step(&CONFIRM, 16, 2 * WIDTH, HEIGHT);
    assert_eq!(g.state, GameState::Game);
    g.step(&IDLE, 16, 2 * WIDTH, HEIGHT);
    assert_eq!(g.state, GameState::Game);
    assert_eq!(g.ball.rect.y, 298_200_000);
}

#[test]
fn a_frame_of_play_moves_paddle_and_ball() {
    let mut g = playing(395 * PIXEL, 295 * PIXEL, -600, 800);
    g.step(&UP, 16, WIDTH, HEIGHT);
    assert_eq!(g.state, GameState::Game);
    assert_eq!(g.left_player.rect.y, 238_800_000);
    assert_eq!(g.right_player.rect.y, 250_000_000);
    assert_eq!(g.ball.rect, Rect::new(393_080_000, 297_560_000, 10_000_000, 10_000_000));
    assert_eq!(g.ball.vel, Vec2::new(-600, 800));
    assert_eq!(g.score, 0);
    assert_eq!(g.ball_speed, 200);
    assert_eq!(g.ai_target, 250_000_000);
}

#[test]
fn the_seeking_paddle_follows_a_ball_that_moves_right() {
    let mut g = playing(395 * PIXEL, 295 * PIXEL, 600, 800);
    g.step(&IDLE, 16, WIDTH, HEIGHT);
    assert_eq!(g.right_player.rect.y, 261_200_000);
    assert_eq!(g.ai_target, 295_000_000);
    assert_eq!(g.left_player.rect.y, 250_000_000);
    g.ball.rect.y = 100 * PIXEL;
    g.step(&IDLE, 16, WIDTH, HEIGHT);
    assert_eq!(g.right_player.rect.y, 250_000_000);
    assert_eq!(g.ai_target, 100_000_000);
}

#[test]
fn the_seeking_paddle_rests_while_the_ball_moves_left_or_straight() {
    let mut g = playing(395 * PIXEL, 100 * PIXEL, -600, 800);
    g.ai_target = 123;
    g.step(&IDLE, 16, WIDTH, HEIGHT);
    assert_eq!(g.right_player.rect.y, 250_000_000);
    assert_eq!(g.ai_target, 123);
    g.ball.vel = Vec2::new(0, 1000);
    g.step(&IDLE, 16, WIDTH, HEIGHT);
    assert_eq!(g.right_player.rect.y, 250_000_000);
    assert_eq!(g.ai_target, 123);
}

#[test]
fn the_seeking_paddle_rests_on_a_ball_at_its_height() {
    let mut g = playing(395 * PIXEL, 250 * PIXEL, 1000, 0);
    g.step(&IDLE, 16, WIDTH, HEIGHT);
    assert_eq!(g.right_player.rect.y, 250_000_000);
    assert_eq!(g.ai_target, 250_000_000);
}

#[test]
fn a_hit_on_the_players_paddle_scores_and_speeds_up() {
    let mut g = playing(31 * PIXEL, 295 * PIXEL, -1000, 0);
    g.step(&IDLE, 16, WIDTH, HEIGHT);
    assert_eq!(g.ball.rect, Rect::new(30_000_000, 295_000_000, 10_000_000, 10_000_000));
    assert_eq!(g.ball.vel, Vec2::new(1000, 0));
    assert_eq!(g.score, 1);
    assert_eq!(g.ball_speed, 250);
    assert_eq!(g.state, GameState::Game);
}

#[test]
fn a_hit_on_the_seeking_paddle_speeds_up_and_does_not_score() {
    let mut g = playing(759 * PIXEL, 295 * PIXEL, 1000, 0);
    g.step(&IDLE, 16, WIDTH, HEIGHT);
    assert_eq!(g.right_player.rect.y, 261_200_000);
    assert_eq!(g.ball.rect, Rect::new(760_000_000, 295_000_000, 10_000_000, 10_000_000));
    assert_eq!(g.ball.vel, Vec2::new(-1000, 0));
    assert_eq!(g.score, 0);
    assert_eq!(g.ball_speed, 250);
}

#[test]
fn a_frame_without_a_hit_keeps_score_and_speed() {
    let mut g = playing(200 * PIXEL, 295 * PIXEL, -1000, 0);
    g.score = 3;
    g.ball_speed = 350;
    g.step(&IDLE, 16, WIDTH, HEIGHT);
    assert_eq!(g.ball.rect.x, 194_400_000);
    assert_eq!(g.score, 3);
    assert_eq!(g.ball_speed, 350);
}

#[test]
fn each_hit_adds_one_step_of_speed() {
    let mut g = playing(31 * PIXEL, 295 * PIXEL, -1000, 0);
    g.score = 3;
    g.ball_speed = 350;
    g.step(&IDLE, 10, WIDTH, HEIGHT);
    assert_eq!(g.score, 4);
    assert_eq!(g.ball_speed, 400);
    g.ball.rect.x = 31 * PIXEL;
    g.ball.vel = Vec2::new(-1000, 0);
    g.step(&IDLE, 10, WIDTH, HEIGHT);
    assert_eq!(g.score, 5);
    assert_eq!(g.ball_speed, 450);
}

#[test]
fn the_ball_moves_at_the_speed_it_had_before_the_hit() {
    let mut g = playing(31 * PIXEL, 295 * PIXEL, -1000, 1000);
    g.step(&IDLE, 16, WIDTH, HEIGHT);
    assert_eq!(g.ball.rect, Rect::new(30_000_000, 298_200_000, 10_000_000, 10_000_000));
    assert_eq!(g.ball.vel, Vec2::new(1000, 1000));
    g.step(&IDLE, 16, WIDTH, HEIGHT);
    assert_eq!(g.ball.rect, Rect::new(34_000_000, 302_200_000, 10_000_000, 10_000_000));
}

#[test]
fn the_ball_meets_the_paddle_where_the_paddle_has_moved_to() {
    let mut g = playing(15 * PIXEL, 240 * PIXEL, 0, 0);
    g.step(&UP, 16, WIDTH, HEIGHT);
    assert_eq!(g.left_player.rect.y, 238_800_000);
    assert_eq!(g.score, 1);
    let mut h = playing(15 * PIXEL, 239 * PIXEL, 0, 0);
    h.step(&IDLE, 16, WIDTH, HEIGHT);
    assert_eq!(h.score, 0);
}

#[test]
fn play_is_a_frame_of_play_in_any_state() {
    let mut g = playing(31 * PIXEL, 295 * PIXEL, -1000, 0);
    g.state = GameState::Menu;
    g.play(&IDLE, 16, HEIGHT);
    assert_eq!(g.state, GameState::Menu);
    assert_eq!(g.score, 1);
    assert_eq!(g.ball_speed, 250);
    assert_eq!(g.ball.rect.x, 30_000_000);
}

#[test]
fn try_step_runs_a_frame_within_reach() {
    let mut g = playing(31 * PIXEL, 295 * PIXEL, -1000, 0);
    let mut h = g;
    assert!(g.in_reach(16, HEIGHT));
    assert!(g.try_step(&UP, 16, WIDTH, HEIGHT));
    h.step(&UP, 16, WIDTH, HEIGHT);
    assert_eq!(g, h);
}

#[test]
fn try_step_leaves_a_game_out_of_reach_as_it_is() {
    let mut g = playing(31 * PIXEL, 295 * PIXEL, -1000, 0);
    g.ball_speed = u32::MAX;
    let before = g;
    assert!(!g.in_reach(16, HEIGHT));
    assert!(!g.try_step(&IDLE, 16, WIDTH, HEIGHT));
    assert_eq!(g, before);
    g.ball_speed = 200;
    g.score = u32::MAX;
    assert!(!g.try_step(&IDLE, 16, WIDTH, HEIGHT));
    g.score = 0;
    g.left_player.rect.y = REACH + 1;
    assert!(!g.try_step(&IDLE, 16, WIDTH, HEIGHT));
    g.left_player.rect.y = REACH;
    assert!(g.try_step(&IDLE, 16, WIDTH, HEIGHT));
    assert_eq!(g.left_player.rect.y, 500_000_000);
}

#[test]
fn try_step_runs_any_frame_that_is_no_frame_of_play() {
    let mut g = playing(REACH + 1, 295 * PIXEL, -1000, 0);
    g.ball_speed = u32::MAX;
    assert!(!g.in_reach(16, HEIGHT));
    assert!(g.try_step(&IDLE, 16, WIDTH, HEIGHT));
    assert_eq!(g.state, GameState::Win);
    assert!(g.try_step(&CONFIRM, 16, WIDTH, HEIGHT));
    assert_eq!(g.state, GameState::Game);
}

#[test]
fn a_long_rally_stays_within_reach() {
    let mut g = Game::with_heading(WIDTH, HEIGHT, 400);
    assert!(g.try_step(&CONFIRM, 16, WIDTH, HEIGHT));
    let mut frames = 0;
    while g.state == GameState::Game && frames < 100_000 {
        let centre = g.left_player.rect.y + g.left_player.rect.h / 2;
        let input = Input {
            up: g.ball.rect.y < centre,
            alt_up: false,
            down: g.ball.rect.y > centre,
            alt_down: false,
            confirm: false,
        };
        assert!(g.try_step(&input, 16, WIDTH, HEIGHT));
        assert!(0 <= g.left_player.rect.y && g.left_player.rect.y <= 500 * PIXEL);
        assert!(0 <= g.right_player.rect.y && g.right_player.rect.y <= 500 * PIXEL);
        assert_eq!(g.ball_speed as u64 % 50, 0);
        assert!(g.score as u64 * 50 <= g.ball_speed as u64 - 200);
        frames += 1;
    }
    assert!(g.state == GameState::Win || g.state == GameState::Lose || frames == 100_000);
}
