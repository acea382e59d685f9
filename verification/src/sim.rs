//! The simulation and renderer: the app that owns the balls, advances them
//! every tick and lays out one frame's drawing commands.

use vstd::prelude::*;
use vstd::pervasive::VecAdditionalExecFns;
use crate::ball::{ball_from_samples, ball_ranges_ok, stepped, Ball, BallSamples};
use crate::color::bg_color;
use crate::render::{balls_cmds, lemma_balls_cmds_push, render_cmds, DrawCmd};
use crate::num::{SUBPIXEL, UNIT};
use crate::rng::sample_range;

verus! {

/// How many balls a fresh run starts with.
pub const DEFAULT_N_BALLS: u32 = 10;

/// Construction options. `canvas_id` names the drawing surface for the caller
/// that acquires it; the two dimensions are the surface's pixel size and are
/// required.
pub struct AppOptions {
    pub canvas_id: String,
    pub window_x: Option<u32>,
    pub window_y: Option<u32>,
}

/// What can go fatally wrong in the simulation core. A failing call into the
/// drawing surface is the embedding's error, not this library's: a tick here
/// only lays out commands and cannot fail.
#[derive(Clone, Copy, Debug, PartialEq, Eq, Structural)]
pub enum AppError {
    /// A required construction option is missing.
    ConfigurationError,
}

/// The simulation and renderer. It owns the live balls; the surface
/// dimensions are fixed at construction.
pub struct App {
    pub window_x: u32,
    pub window_y: u32,
    pub initial_n_balls: u32,
    pub balls: Vec<Ball>,
}

impl App {
    /// Builds an app from its options, with an empty ball collection and the
    /// default ball count. A missing dimension is a configuration error.
    pub fn new(options: AppOptions) -> (r: Result<App, AppError>)
        ensures
            match r {
                Ok(app) => {
                    &&& options.window_x is Some
                    &&& options.window_y is Some
                    &&& app.window_x == options.window_x.unwrap()
                    &&& app.window_y == options.window_y.unwrap()
                    &&& app.initial_n_balls == DEFAULT_N_BALLS
                    &&& app.balls@.len() == 0
                },
                Err(e) => {
                    &&& e == AppError::ConfigurationError
                    &&& (options.window_x is None || options.window_y is None)
                },
            },
    {
        let window_x = match options.window_x {
            Some(x) => x,
            None => {
                return Err(AppError::ConfigurationError);
            },
        };
        let window_y = match options.window_y {
            Some(y) => y,
            None => {
                return Err(AppError::ConfigurationError);
            },
        };
        Ok(App { window_x, window_y, initial_n_balls: DEFAULT_N_BALLS, balls: Vec::new() })
    }

    /// One freshly randomized ball for this surface: position on the
    /// surface, direction in `[-0.5, 0.5)` per axis, speed in `[5, 10)`,
    /// radius in `[50, 100)`, a fair reflection coin, and an RGBA color with
    /// channels in `[8, 248)` and alpha in `[0.5, 1)`.
    pub fn generate_ball(&self) -> (b: Ball)
        requires
            self.window_x >= 1,
            self.window_y >= 1,
        ensures
            ball_ranges_ok(b, self.window_x, self.window_y),
    {
        let samples = BallSamples {
            pos_x: sample_range(0, (self.window_x as i64) * SUBPIXEL),
            pos_y: sample_range(0, (self.window_y as i64) * SUBPIXEL),
            dir_x: sample_range(-UNIT / 2, UNIT / 2),
            dir_y: sample_range(-UNIT / 2, UNIT / 2),
            speed: sample_range(5 * UNIT, 10 * UNIT),
            size: sample_range(50 * UNIT, 100 * UNIT),
            coin: sample_range(-UNIT, UNIT),
            red: sample_range(8, 248),
            green: sample_range(8, 248),
            blue: sample_range(8, 248),
            alpha: sample_range(UNIT / 2, UNIT),
        };
        ball_from_samples(samples)
    }

    /// Starts a run afresh: whatever the collection held before, it is
    /// discarded and exactly `initial_n_balls` newly generated balls take its
    /// place. Calling this twice with the same dimensions resets the state
    /// identically, modulo the random draws.
    pub fn init(&mut self)
        requires
            old(self).window_x >= 1,
            old(self).window_y >= 1,
        ensures
            final(self).window_x == old(self).window_x,
            final(self).window_y == old(self).window_y,
            final(self).initial_n_balls == old(self).initial_n_balls,
            final(self).balls@.len() == old(self).initial_n_balls,
            forall|i: int|
                0 <= i < final(self).balls@.len() ==> ball_ranges_ok(
                    #[trigger] final(self).balls@[i],
                    old(self).window_x,
                    old(self).window_y,
                ),
    {
        let n = self.initial_n_balls;
        let mut balls: Vec<Ball> = Vec::with_capacity(n as usize);
        let mut i: u32 = 0;
        while i < n
            invariant
                i <= n,
                balls@.len() == i,
                self.window_x >= 1,
                self.window_y >= 1,
                forall|j: int|
                    0 <= j < i ==> ball_ranges_ok(
                        #[trigger] balls@[j],
                        self.window_x,
                        self.window_y,
                    ),
            decreases n - i,
        {
            let b = self.generate_ball();
            balls.push(b);
            i += 1;
        }
        self.balls = balls;
    }

    /// Advances every ball one tick, in place. Balls move independently: each
    /// new ball is its old self stepped against the surface bounds.
    fn moves(&mut self)
        ensures
            final(self).window_x == old(self).window_x,
            final(self).window_y == old(self).window_y,
            final(self).initial_n_balls == old(self).initial_n_balls,
            final(self).balls@.len() == old(self).balls@.len(),
            forall|i: int|
                0 <= i < old(self).balls@.len() ==> final(self).balls@[i] == stepped(
                    #[trigger] old(self).balls@[i],
                    old(self).window_x,
                    old(self).window_y,
                ),
    {
        let n = self.balls.len();
        let mut i: usize = 0;
        while i < n
            invariant
                i <= n,
                n == self.balls@.len(),
                self.window_x == old(self).window_x,
                self.window_y == old(self).window_y,
                self.initial_n_balls == old(self).initial_n_balls,
                self.balls@.len() == old(self).balls@.len(),
                forall|j: int|
                    0 <= j < i ==> self.balls@[j] == stepped(
                        #[trigger] old(self).balls@[j],
                        old(self).window_x,
                        old(self).window_y,
                    ),
                forall|j: int| i <= j < n ==> self.balls@[j] == #[trigger] old(self).balls@[j],
            decreases n - i,
        {
            let window_x = self.window_x;
            let window_y = self.window_y;
            let mut b = self.balls[i];
            b.step(window_x, window_y);
            self.balls.set(i, b);
            i += 1;
        }
    }

    /// Lays out the commands that paint the background: the fixed background
    /// color, then a fill of the whole surface rectangle.
    fn render_bg(&self, cmds: &mut Vec<DrawCmd>)
        ensures
            final(cmds)@ == old(cmds)@ + seq![
                DrawCmd::SetFillColor(crate::color::bg_color_spec()),
                DrawCmd::FillRect { width: self.window_x, height: self.window_y },
            ],
    {
        cmds.push(DrawCmd::SetFillColor(bg_color()));
        cmds.push(DrawCmd::FillRect { width: self.window_x, height: self.window_y });
        proof {
            assert(cmds@ =~= old(cmds)@ + seq![
                DrawCmd::SetFillColor(crate::color::bg_color_spec()),
                DrawCmd::FillRect { width: self.window_x, height: self.window_y },
            ]);
        }
    }

    /// Lays out the commands that draw every ball, in collection order.
    fn render_balls(&self, cmds: &mut Vec<DrawCmd>)
        ensures
            final(cmds)@ == old(cmds)@ + balls_cmds(self.balls@),
    {
        let n = self.balls.len();
        let mut i: usize = 0;
        while i < n
            invariant
                i <= n,
                n == self.balls@.len(),
                cmds@ == old(cmds)@ + balls_cmds(self.balls@.take(i as int)),
            decreases n - i,
        {
            let b = self.balls[i];
            cmds.push(DrawCmd::BeginPath);
            cmds.push(DrawCmd::Arc { x: b.position.x, y: b.position.y, radius: b.size });
            cmds.push(DrawCmd::SetFillColor(b.color));
            cmds.push(DrawCmd::Fill);
            proof {
                lemma_balls_cmds_push(self.balls@.take(i as int), self.balls@[i as int]);
                assert(self.balls@.take(i as int + 1) =~= self.balls@.take(i as int).push(
                    self.balls@[i as int],
                ));
                assert(cmds@ =~= old(cmds)@ + balls_cmds(self.balls@.take(i as int + 1)));
            }
            i += 1;
        }
        proof {
            assert(self.balls@.take(n as int) =~= self.balls@);
        }
    }

    /// One frame's commands, in their fixed order: save the surface state,
    /// fill the background, draw the balls in collection order, restore.
    fn render(&self) -> (cmds: Vec<DrawCmd>)
        ensures
            cmds@ == render_cmds(self.window_x, self.window_y, self.balls@),
    {
        let mut cmds: Vec<DrawCmd> = Vec::new();
        cmds.push(DrawCmd::Save);
        self.render_bg(&mut cmds);
        self.render_balls(&mut cmds);
        cmds.push(DrawCmd::Restore);
        proof {
            assert(cmds@ =~= render_cmds(self.window_x, self.window_y, self.balls@));
        }
        cmds
    }

    /// One tick: every ball moves, then the frame's drawing commands are laid
    /// out, background before any ball. The tick itself always succeeds; only
    /// the surface that later executes the commands can fail.
    pub fn on_animation_frame(&mut self) -> (cmds: Vec<DrawCmd>)
        ensures
            final(self).window_x == old(self).window_x,
            final(self).window_y == old(self).window_y,
            final(self).initial_n_balls == old(self).initial_n_balls,
            final(self).balls@.len() == old(self).balls@.len(),
            forall|i: int|
                0 <= i < old(self).balls@.len() ==> final(self).balls@[i] == stepped(
                    #[trigger] old(self).balls@[i],
                    old(self).window_x,
                    old(self).window_y,
                ),
            cmds@ == render_cmds(old(self).window_x, old(self).window_y, final(self).balls@),
    {
        self.moves();
        self.render()
    }
}

} // verus!
