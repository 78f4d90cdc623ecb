use pong::command::{Command, State};
use pong::entity::{Color, Paddle};
use pong::frame::{Circle, Rect};
use pong::game::Game;
use pong::geometry::BoundingBox;
use pong::vector::Vec2;

fn fresh() -> Game {
    Game::new(Vec2::new(1000, 0))
}

fn paddle(left: i64, top: i64, right: i64, bottom: i64) -> Paddle {
    Paddle {
        bounding_box: BoundingBox::new(Vec2::new(left, top), Vec2::new(right, bottom)),
        velocity: Vec2::new(0, 0),
        normal: Vec2::new(1000, 0),
        color: Color::Blue,
    }
}

#[test]
fn a_new_match_draws_as_laid_out() {
    let frame = fresh().draw();
    assert_eq!(frame.background, Color::Black);
    assert_eq!(frame.ball, Circle { x: 400, y: 300, radius: 15, color: Color::Yellow });
    assert_eq!(
        frame.paddles[0],
        Rect { x: 0, y: 250, width: 30, height: 100, color: Color::Green }
    );
    assert_eq!(
        frame.paddles[1],
        Rect { x: 770, y: 250, width: 30, height: 100, color: Color::Blue }
    );
}

#[test]
fn a_frame_follows_the_match() {
    let mut game = fresh();
    game.handle_command(Command::Accelerate(1, -10)).unwrap();
    game.update();
    let frame = game.draw();
    assert_eq!(frame.ball, Circle { x: 405, y: 300, radius: 15, color: Color::Yellow });
    assert_eq!(
        frame.paddles[0],
        Rect { x: 0, y: 250, width: 30, height: 99, color: Color::Green }
    );
    assert_eq!(
        frame.paddles[1],
        Rect { x: 770, y: 230, width: 30, height: 99, color: Color::Blue }
    );
}

#[test]
fn drawing_does_not_change_the_match() {
    let game = fresh();
    let before = game;
    let first = game.draw();
    let second = game.draw();
    assert_eq!(game, before);
    assert_eq!(first, second);
}

#[test]
fn a_paused_ball_is_gray() {
    let mut game = fresh();
    game.handle_command(Command::Pause).unwrap();
    assert_eq!(game.ball_color(), Color::Gray);
    assert_eq!(game.draw().ball.color, Color::Gray);
    game.handle_command(Command::Pause).unwrap();
    assert_eq!(game.ball_color(), Color::Yellow);
    assert_eq!(game.draw().ball.color, Color::Yellow);
}

#[test]
fn a_won_ball_takes_the_colour_of_the_winner() {
    let mut game = fresh();
    game.state = State::Victory(0);
    assert_eq!(game.ball_color(), Color::Green);
    assert_eq!(game.draw().ball.color, Color::Green);
    game.state = State::Victory(1);
    assert_eq!(game.ball_color(), Color::Blue);
    assert_eq!(game.draw().ball.color, Color::Blue);
}

#[test]
fn a_winner_outside_the_match_leaves_the_ball_its_colour() {
    let mut game = fresh();
    game.state = State::Victory(2);
    assert_eq!(game.ball_color(), Color::Yellow);
    assert_eq!(game.draw().ball.color, Color::Yellow);
}

#[test]
fn the_state_does_not_colour_the_paddles() {
    let mut game = fresh();
    game.state = State::Paused;
    assert_eq!(game.draw().paddles[0].color, Color::Green);
    assert_eq!(game.draw().paddles[1].color, Color::Blue);
    game.state = State::Victory(1);
    assert_eq!(game.draw().paddles[0].color, Color::Green);
    assert_eq!(game.draw().paddles[1].color, Color::Blue);
}

#[test]
fn pixels_round_toward_zero() {
    let r = paddle(1_999, -1_999, 31_998, 98_000).rect();
    assert_eq!(r, Rect { x: 1, y: -1, width: 29, height: 99, color: Color::Blue });
    let s = paddle(-500, 500, 499, 1_499).rect();
    assert_eq!(s, Rect { x: 0, y: 0, width: 0, height: 0, color: Color::Blue });
}

#[test]
fn a_box_out_of_order_has_no_extent() {
    let r = paddle(30_000, 350_000, 0, 250_000).rect();
    assert_eq!(r, Rect { x: 30, y: 350, width: 0, height: 0, color: Color::Blue });
}

#[test]
fn a_rectangle_saturates_in_its_pixel_types() {
    let far = 5_000_000_000_000;
    let r = paddle(-far, far, far, 3 * far).rect();
    assert_eq!(
        r,
        Rect { x: i32::MIN, y: i32::MAX, width: u32::MAX, height: u32::MAX, color: Color::Blue }
    );
    let near = 2_000_000_000_000;
    let s = paddle(-near, near, near, 3 * near).rect();
    assert_eq!(
        s,
        Rect {
            x: -2_000_000_000,
            y: 2_000_000_000,
            width: 4_000_000_000,
            height: 4_000_000_000,
            color: Color::Blue
        }
    );
}

#[test]
fn a_circle_saturates_in_its_pixel_type() {
    let mut game = fresh();
    game.ball.bounding_box = BoundingBox::new(
        Vec2::new(40_000_000, -40_000_000),
        Vec2::new(40_030_000, -39_970_000),
    );
    game.ball.radius = 50_000_000;
    let circle = game.draw().ball;
    assert_eq!(circle, Circle { x: i16::MAX, y: 10_000, radius: i16::MAX, color: Color::Yellow });
    game.ball.radius = 15_000;
    game.ball.bounding_box = BoundingBox::new(
        Vec2::new(-40_000_000, 32_752_999),
        Vec2::new(-39_970_000, 32_782_999),
    );
    let other = game.draw().ball;
    assert_eq!(other, Circle { x: i16::MIN, y: 32_767, radius: 15, color: Color::Yellow });
}

#[test]
fn a_circle_is_centred_on_the_corner_plus_the_radius() {
    let mut game = fresh();
    game.ball.bounding_box = BoundingBox::new(Vec2::new(-20_500, 7_250), Vec2::new(9_500, 37_250));
    let circle = game.draw().ball;
    assert_eq!(circle, Circle { x: -5, y: 22, radius: 15, color: Color::Yellow });
}
