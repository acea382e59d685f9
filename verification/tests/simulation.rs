use bouncing_balls::ball::{ball_from_samples, Ball, BallSamples};
use bouncing_balls::color::Color;
use bouncing_balls::num::{SUBPIXEL, UNIT};
use bouncing_balls::render::DrawCmd;
use bouncing_balls::sim::{App, AppError, AppOptions, DEFAULT_N_BALLS};
use bouncing_balls::vec2d::Vec2d;

fn ok_app(width: u32, height: u32) -> App {
    match App::new(options(width, height)) {
        Ok(app) => app,
        Err(_) => panic!("valid options must be accepted"),
    }
}

fn options(width: u32, height: u32) -> AppOptions {
    AppOptions {
        canvas_id: String::from("canvas"),
        window_x: Some(width),
        window_y: Some(height),
    }
}

fn plain_ball(position: Vec2d, direction: Vec2d, speed: i64, is_inverse: bool) -> Ball {
    Ball {
        position,
        direction,
        speed,
        size: 60 * UNIT,
        is_inverse,
        color: Color { red: 10, green: 20, blue: 30, alpha: 750 },
    }
}

#[test]
fn ball_from_samples_is_deterministic() {
    let samples = BallSamples {
        pos_x: 123 * SUBPIXEL,
        pos_y: 456 * SUBPIXEL,
        dir_x: -250,
        dir_y: 400,
        speed: 7 * UNIT,
        size: 75 * UNIT,
        coin: 314,
        red: 100,
        green: 150,
        blue: 200,
        alpha: 600,
    };
    let first = ball_from_samples(samples);
    let second = ball_from_samples(samples);
    assert_eq!(first, second);
    assert_eq!(first.position, Vec2d { x: 123 * SUBPIXEL, y: 456 * SUBPIXEL });
    assert_eq!(first.direction, Vec2d { x: -250, y: 400 });
    assert_eq!(first.speed, 7 * UNIT);
    assert_eq!(first.size, 75 * UNIT);
    assert!(first.is_inverse);
    assert_eq!(first.color, Color { red: 100, green: 150, blue: 200, alpha: 600 });
}

#[test]
fn coin_must_be_strictly_positive_to_reflect() {
    let mut samples = BallSamples {
        pos_x: 0,
        pos_y: 0,
        dir_x: 0,
        dir_y: 0,
        speed: 5 * UNIT,
        size: 50 * UNIT,
        coin: 0,
        red: 8,
        green: 8,
        blue: 8,
        alpha: 500,
    };
    assert!(!ball_from_samples(samples).is_inverse);
    samples.coin = 1;
    assert!(ball_from_samples(samples).is_inverse);
    samples.coin = -1;
    assert!(!ball_from_samples(samples).is_inverse);
}

#[test]
fn generated_balls_stay_in_their_ranges() {
    let app = ok_app(800, 600);
    for _ in 0..100 {
        let b = app.generate_ball();
        assert!(0 <= b.position.x && b.position.x < 800 * SUBPIXEL);
        assert!(0 <= b.position.y && b.position.y < 600 * SUBPIXEL);
        assert!(-UNIT / 2 <= b.direction.x && b.direction.x < UNIT / 2);
        assert!(-UNIT / 2 <= b.direction.y && b.direction.y < UNIT / 2);
        assert!(5 * UNIT <= b.speed && b.speed < 10 * UNIT);
        assert!(50 * UNIT <= b.size && b.size < 100 * UNIT);
        assert!(8 <= b.color.red && b.color.red < 248);
        assert!(8 <= b.color.green && b.color.green < 248);
        assert!(8 <= b.color.blue && b.color.blue < 248);
        assert!(UNIT / 2 <= b.color.alpha && b.color.alpha < UNIT);
    }
}

#[test]
fn generated_balls_vary() {
    // If the random source handed a constant back, every ball would be equal.
    let app = ok_app(800, 600);
    let first = app.generate_ball();
    let mut saw_difference = false;
    for _ in 0..50 {
        if app.generate_ball() != first {
            saw_difference = true;
        }
    }
    assert!(saw_difference);
}

#[test]
fn non_inverse_ball_drifts_past_the_edge() {
    let width: u32 = 640;
    let mut ball = plain_ball(
        Vec2d { x: (width as i64 - 1) * SUBPIXEL, y: 100 * SUBPIXEL },
        Vec2d { x: UNIT, y: 0 },
        5 * UNIT,
        false,
    );
    ball.step(width, 480);
    // position.x = width - 1 + 1.0 * 5 = width + 4, no clamping, no reflection
    assert_eq!(ball.position.x, (width as i64 + 4) * SUBPIXEL);
    assert_eq!(ball.position.y, 100 * SUBPIXEL);
    assert_eq!(ball.direction, Vec2d { x: UNIT, y: 0 });
}

#[test]
fn inverse_ball_reflects_with_the_asymmetric_undo() {
    let width: u32 = 640;
    let mut ball = plain_ball(
        Vec2d { x: (width as i64 - 2) * SUBPIXEL, y: 100 * SUBPIXEL },
        Vec2d { x: UNIT / 2, y: 0 },
        10 * UNIT,
        true,
    );
    ball.step(width, 480);
    // drift by 0.5 * 10 = 5 to width + 3, out of bounds, undo by 0.5 only
    assert_eq!(ball.position.x, (width as i64) * SUBPIXEL + 5 * SUBPIXEL / 2);
    assert_eq!(ball.direction.x, -UNIT / 2);
    assert_eq!(ball.position.y, 100 * SUBPIXEL);
    assert_eq!(ball.direction.y, 0);
}

#[test]
fn inverse_ball_reflects_off_the_low_edge() {
    let mut ball = plain_ball(
        Vec2d { x: 2 * SUBPIXEL, y: 2 * SUBPIXEL },
        Vec2d { x: -UNIT / 2, y: -UNIT / 2 },
        10 * UNIT,
        true,
    );
    ball.step(640, 480);
    // drift by -5 to -3 on each axis, undo by -0.5: -3 + 0.5 = -2.5
    assert_eq!(ball.position.x, -5 * SUBPIXEL / 2);
    assert_eq!(ball.position.y, -5 * SUBPIXEL / 2);
    assert_eq!(ball.direction, Vec2d { x: UNIT / 2, y: UNIT / 2 });
}

#[test]
fn position_saturates_instead_of_overflowing() {
    let mut ball = plain_ball(
        Vec2d { x: i64::MAX - 1, y: 0 },
        Vec2d { x: UNIT, y: 0 },
        5 * UNIT,
        false,
    );
    ball.step(640, 480);
    assert_eq!(ball.position.x, i64::MAX);
    assert_eq!(ball.position.y, 0);
}

#[test]
fn new_without_width_is_a_configuration_error() {
    let opts = AppOptions { canvas_id: String::from("canvas"), window_x: None, window_y: Some(600) };
    match App::new(opts) {
        Err(e) => assert_eq!(e, AppError::ConfigurationError),
        Ok(_) => panic!("a missing width must be rejected"),
    }
}

#[test]
fn new_without_height_is_a_configuration_error() {
    let opts = AppOptions { canvas_id: String::from("canvas"), window_x: Some(800), window_y: None };
    match App::new(opts) {
        Err(e) => assert_eq!(e, AppError::ConfigurationError),
        Ok(_) => panic!("a missing height must be rejected"),
    }
}

#[test]
fn new_records_the_given_dimensions() {
    let app = ok_app(800, 600);
    assert_eq!(app.window_x, 800);
    assert_eq!(app.window_y, 600);
    assert_eq!(app.initial_n_balls, DEFAULT_N_BALLS);
    assert!(app.balls.is_empty());
}

#[test]
fn init_populates_the_default_number_of_balls() {
    let mut app = ok_app(800, 600);
    app.init();
    assert_eq!(app.balls.len(), DEFAULT_N_BALLS as usize);
}

#[test]
fn init_twice_resets_to_the_same_count() {
    let mut app = ok_app(800, 600);
    app.init();
    let extra = app.generate_ball();
    app.balls.push(extra);
    assert_eq!(app.balls.len(), DEFAULT_N_BALLS as usize + 1);
    app.init();
    assert_eq!(app.balls.len(), DEFAULT_N_BALLS as usize);
    app.init();
    assert_eq!(app.balls.len(), DEFAULT_N_BALLS as usize);
}

#[test]
fn init_works_on_the_smallest_surface() {
    let mut app = ok_app(1, 1);
    app.init();
    assert_eq!(app.balls.len(), DEFAULT_N_BALLS as usize);
    for b in &app.balls {
        assert!(0 <= b.position.x && b.position.x < SUBPIXEL);
        assert!(0 <= b.position.y && b.position.y < SUBPIXEL);
    }
}

#[test]
fn tick_renders_the_background_before_any_ball() {
    let mut app = ok_app(320, 200);
    app.init();
    let cmds = app.on_animation_frame();
    assert_eq!(cmds[0], DrawCmd::Save);
    assert_eq!(cmds[1], DrawCmd::SetFillColor(Color { red: 0, green: 0, blue: 0, alpha: UNIT }));
    assert_eq!(cmds[2], DrawCmd::FillRect { width: 320, height: 200 });
    assert_eq!(cmds[cmds.len() - 1], DrawCmd::Restore);
    for (k, cmd) in cmds.iter().enumerate() {
        if matches!(cmd, DrawCmd::Arc { .. }) {
            assert!(k > 2);
        }
    }
}

#[test]
fn tick_moves_and_draws_one_ball_exactly() {
    let mut app = ok_app(640, 480);
    let ball = plain_ball(
        Vec2d { x: 10 * SUBPIXEL, y: 20 * SUBPIXEL },
        Vec2d { x: 100, y: -200 },
        5 * UNIT,
        true,
    );
    app.balls.push(ball);
    let cmds = app.on_animation_frame();
    // displacement: 0.1 * 5 = 0.5 on x, -0.2 * 5 = -1 on y; both in bounds
    let moved = &app.balls[0];
    assert_eq!(moved.position, Vec2d { x: 10 * SUBPIXEL + SUBPIXEL / 2, y: 19 * SUBPIXEL });
    assert_eq!(moved.direction, Vec2d { x: 100, y: -200 });
    let expected = vec![
        DrawCmd::Save,
        DrawCmd::SetFillColor(Color { red: 0, green: 0, blue: 0, alpha: UNIT }),
        DrawCmd::FillRect { width: 640, height: 480 },
        DrawCmd::BeginPath,
        DrawCmd::Arc { x: moved.position.x, y: moved.position.y, radius: moved.size },
        DrawCmd::SetFillColor(moved.color),
        DrawCmd::Fill,
        DrawCmd::Restore,
    ];
    assert_eq!(cmds, expected);
}

#[test]
fn tick_always_returns_a_frame() {
    let mut app = ok_app(640, 480);
    // even with no balls at all, a tick succeeds and paints the background
    let cmds = app.on_animation_frame();
    assert_eq!(cmds.len(), 4);
    app.init();
    for _ in 0..25 {
        let cmds = app.on_animation_frame();
        assert_eq!(cmds.len(), 4 + 4 * DEFAULT_N_BALLS as usize);
    }
}
