//! The drawing commands of one frame, and their fixed order.

use vstd::prelude::*;
use crate::ball::Ball;
use crate::color::{bg_color_spec, Color};

verus! {

/// One instruction to the drawing surface. Circle centers are in `SUBPIXEL`s
/// and radii in `UNIT`s, copied from the ball fields they come from; the
/// surface rectangle is in pixels.
#[derive(Clone, Copy, Debug, PartialEq, Eq, Structural)]
pub enum DrawCmd {
    /// Save the drawing state; it is restored by the matching `Restore`.
    Save,
    /// Set the fill color used by the commands that follow.
    SetFillColor(Color),
    /// Fill the whole surface rectangle from the origin.
    FillRect { width: u32, height: u32 },
    /// Start a fresh path.
    BeginPath,
    /// Trace a full circle around `(x, y)`.
    Arc { x: i64, y: i64, radius: i64 },
    /// Fill the traced path.
    Fill,
    /// Restore the drawing state saved last.
    Restore,
}

/// The four commands that draw one ball.
pub open spec fn ball_cmds(b: Ball) -> Seq<DrawCmd> {
    seq![
        DrawCmd::BeginPath,
        DrawCmd::Arc { x: b.position.x, y: b.position.y, radius: b.size },
        DrawCmd::SetFillColor(b.color),
        DrawCmd::Fill,
    ]
}

/// The commands that draw a sequence of balls, in collection order.
pub open spec fn balls_cmds(balls: Seq<Ball>) -> Seq<DrawCmd>
    decreases balls.len(),
{
    if balls.len() == 0 {
        Seq::empty()
    } else {
        ball_cmds(balls[0]) + balls_cmds(balls.drop_first())
    }
}

/// Every command of one frame: save the surface state, fill the background,
/// draw the balls in collection order, restore the state.
pub open spec fn render_cmds(window_x: u32, window_y: u32, balls: Seq<Ball>) -> Seq<DrawCmd> {
    seq![
        DrawCmd::Save,
        DrawCmd::SetFillColor(bg_color_spec()),
        DrawCmd::FillRect { width: window_x, height: window_y },
    ] + balls_cmds(balls) + seq![DrawCmd::Restore]
}

/// Appending one ball to the collection appends its four commands.
pub proof fn lemma_balls_cmds_push(balls: Seq<Ball>, b: Ball)
    ensures
        balls_cmds(balls.push(b)) == balls_cmds(balls) + ball_cmds(b),
    decreases balls.len(),
{
    if balls.len() == 0 {
        assert(balls.push(b)[0] == b);
        assert(balls =~= Seq::<Ball>::empty());
        assert(balls.push(b).drop_first() =~= Seq::<Ball>::empty());
        assert(balls_cmds(Seq::<Ball>::empty()) == Seq::<DrawCmd>::empty());
        assert(balls_cmds(balls.push(b)) =~= balls_cmds(balls) + ball_cmds(b));
    } else {
        lemma_balls_cmds_push(balls.drop_first(), b);
        assert(balls.push(b).drop_first() =~= balls.drop_first().push(b));
        assert(balls_cmds(balls.push(b)) =~= balls_cmds(balls) + ball_cmds(b));
    }
}

/// Law: in every rendered frame the full-surface background fill stands at
/// index 2, right after the save and the background fill color, and every
/// circle command stands strictly later — the background is filled before
/// any ball is drawn.
pub proof fn lemma_background_fill_first(window_x: u32, window_y: u32, balls: Seq<Ball>)
    ensures
        render_cmds(window_x, window_y, balls)[0] == DrawCmd::Save,
        render_cmds(window_x, window_y, balls)[1] == DrawCmd::SetFillColor(bg_color_spec()),
        render_cmds(window_x, window_y, balls)[2] == (DrawCmd::FillRect {
            width: window_x,
            height: window_y,
        }),
        forall|k: int|
            0 <= k < render_cmds(window_x, window_y, balls).len()
                && #[trigger] render_cmds(window_x, window_y, balls)[k] is Arc ==> k > 2,
{
    let cmds = render_cmds(window_x, window_y, balls);
    assert(cmds[0] == DrawCmd::Save);
    assert(cmds[1] == DrawCmd::SetFillColor(bg_color_spec()));
    assert(cmds[2] == (DrawCmd::FillRect { width: window_x, height: window_y }));
    assert forall|k: int|
        0 <= k < cmds.len() && #[trigger] cmds[k] is Arc implies k > 2 by {
        if k <= 2 {
            assert(!(cmds[k] is Arc));
        }
    }
}

} // verus!
