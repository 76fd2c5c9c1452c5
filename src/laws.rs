use vstd::prelude::*;
use crate::geometry::{FVec, Rect, RectObject, SUBPIXELS, overlaps, world_of};
use crate::game::{
    GameState, abs, bounce_paddles, bounce_walls, can_step, centre, clamped, highest,
    integrate, lowest, paddle_fits, stepped,
};

verus! {

/// Integration moves the ball by exactly its velocity times the elapsed time,
/// and a step in which nobody scores leaves the ball there.
pub proof fn lemma_ball_moves_by_velocity(s: GameState, dt: int, up: bool, down: bool)
    requires
        can_step(s, dt, up, down),
    ensures
        integrate(s, dt).ball.position.x == s.ball.position.x + s.ball.velocity.x * dt,
        integrate(s, dt).ball.position.y == s.ball.position.y + s.ball.velocity.y * dt,
        0 < s.ball.position.x + s.ball.velocity.x * dt < s.screen.w * SUBPIXELS ==> {
            &&& stepped(s, dt, up, down).ball.position.x == s.ball.position.x + s.ball.velocity.x * dt
            &&& stepped(s, dt, up, down).ball.position.y == s.ball.position.y + s.ball.velocity.y * dt
        },
{
}

/// After a step, a ball that touched the right paddle moves left, and one that
/// touched only the left paddle moves right, whatever its direction before.
pub proof fn lemma_paddle_sends_ball_away(s: GameState, dt: int, up: bool, down: bool)
    requires
        can_step(s, dt, up, down),
    ensures
        ({
            let m = integrate(s, dt);
            let r = stepped(s, dt, up, down);
            &&& overlaps(world_of(m.ball), world_of(m.paddle_2)) ==> r.ball.velocity.x == -abs(s.ball.velocity.x)
                && r.ball.velocity.x <= 0
            &&& overlaps(world_of(m.ball), world_of(m.paddle_1)) && !overlaps(world_of(m.ball), world_of(m.paddle_2))
                ==> r.ball.velocity.x == abs(s.ball.velocity.x) && r.ball.velocity.x >= 0
        }),
{
}

/// A ball that leaves the court puts the ball back at the centre and adds one
/// point to the side it passed, the other score unchanged.
pub proof fn lemma_score_resets_ball(s: GameState, dt: int, up: bool, down: bool)
    requires
        can_step(s, dt, up, down),
        s.screen.w > 0,
    ensures
        ({
            let x = s.ball.position.x + s.ball.velocity.x * dt;
            let r = stepped(s, dt, up, down);
            &&& x <= 0 ==> r.ball.position == centre(s.screen) && r.score_2 == s.score_2 + 1
                && r.score_1 == s.score_1
            &&& x >= s.screen.w * SUBPIXELS ==> r.ball.position == centre(s.screen) && r.score_1
                == s.score_1 + 1 && r.score_2 == s.score_2
        }),
{
}

/// Clamping keeps a paddle on the screen, and a clamped paddle stays as it is.
pub proof fn lemma_clamp_total_and_idempotent(p: RectObject, screen: Rect)
    requires
        paddle_fits(p, screen),
    ensures
        lowest(p) <= clamped(p, screen).position.y <= highest(p, screen),
        clamped(clamped(p, screen), screen) == clamped(p, screen),
{
}

/// After any step both paddles lie within the screen's height.
pub proof fn lemma_paddles_stay_on_screen(s: GameState, dt: int, up: bool, down: bool)
    requires
        can_step(s, dt, up, down),
    ensures
        ({
            let r = stepped(s, dt, up, down);
            &&& lowest(r.paddle_1) <= r.paddle_1.position.y <= highest(r.paddle_1, r.screen)
            &&& lowest(r.paddle_2) <= r.paddle_2.position.y <= highest(r.paddle_2, r.screen)
        }),
{
}

/// A step over no time leaves a ball inside the court where it is, while the
/// bounces and the paddles' corrections still apply.
pub proof fn lemma_zero_step(s: GameState, up: bool, down: bool)
    requires
        can_step(s, 0, up, down),
        0 < s.ball.position.x < s.screen.w * SUBPIXELS,
    ensures
        ({
            let r = stepped(s, 0, up, down);
            &&& r.ball.position == s.ball.position
            &&& r.ball.velocity == bounce_walls(bounce_paddles(s)).ball.velocity
            &&& r.paddle_1 == clamped(s.paddle_1, s.screen)
            &&& r.paddle_2 == clamped(
                RectObject {
                    position: FVec { y: s.ball.position.y, ..s.paddle_2.position },
                    ..s.paddle_2
                },
                s.screen,
            )
        }),
{
}

} // verus!
