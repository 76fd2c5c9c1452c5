use vstd::prelude::*;
use crate::geometry::{FVec, Rect, RectObject, SUBPIXELS, overlaps, world_of};

verus! {

/// How far the player's paddle moves per microsecond while a key is held, in sub-pixels.
pub const PADDLE_SPEED: i64 = 1000;

/// Everything that one game holds: the two paddles, the ball, the screen and the scores.
/// `paddle_1` is the player's (left), `paddle_2` the opponent's (right).
#[derive(Clone, Copy, Debug, PartialEq, Eq, Structural)]
pub struct GameState {
    pub paddle_1: RectObject,
    pub paddle_2: RectObject,
    pub ball: RectObject,
    pub screen: Rect,
    pub score_1: i32,
    pub score_2: i32,
}

pub open spec fn abs(v: i64) -> i64 {
    if v < 0 {
        (-v) as i64
    } else {
        v
    }
}

pub open spec fn with_ball(s: GameState, ball: RectObject) -> GameState {
    GameState { ball, ..s }
}

pub open spec fn with_ball_position(s: GameState, position: FVec) -> GameState {
    with_ball(s, RectObject { position, ..s.ball })
}

pub open spec fn with_ball_velocity(s: GameState, velocity: FVec) -> GameState {
    with_ball(s, RectObject { velocity, ..s.ball })
}

/// The ball moved by its velocity over `dt` microseconds.
pub open spec fn integrate(s: GameState, dt: int) -> GameState {
    with_ball_position(
        s,
        FVec {
            x: (s.ball.position.x + s.ball.velocity.x * dt) as i64,
            y: (s.ball.position.y + s.ball.velocity.y * dt) as i64,
        },
    )
}

/// The ball's horizontal velocity after touching the paddles: away from the
/// left paddle it touches, then towards the left if it touches the right one.
pub open spec fn paddle_bounce_x(s: GameState) -> i64 {
    let b = world_of(s.ball);
    let v1 = if overlaps(b, world_of(s.paddle_1)) {
        abs(s.ball.velocity.x)
    } else {
        s.ball.velocity.x
    };
    if overlaps(b, world_of(s.paddle_2)) {
        (-abs(v1)) as i64
    } else {
        v1
    }
}

pub open spec fn bounce_paddles(s: GameState) -> GameState {
    with_ball_velocity(s, FVec { x: paddle_bounce_x(s), ..s.ball.velocity })
}

/// The ball's vertical velocity after meeting the top or bottom edge of the screen.
pub open spec fn wall_bounce_y(s: GameState) -> i64 {
    let b = world_of(s.ball);
    let v1 = if b.y <= 0 {
        abs(s.ball.velocity.y)
    } else {
        s.ball.velocity.y
    };
    if b.y + b.h >= s.screen.h {
        (-abs(v1)) as i64
    } else {
        v1
    }
}

pub open spec fn bounce_walls(s: GameState) -> GameState {
    with_ball_velocity(s, FVec { y: wall_bounce_y(s), ..s.ball.velocity })
}

/// The middle of the screen, in sub-pixels.
pub open spec fn centre(screen: Rect) -> FVec {
    FVec {
        x: ((screen.w / 2) * SUBPIXELS) as i64,
        y: ((screen.h / 2) * SUBPIXELS) as i64,
    }
}

/// A ball at or past the left edge scores for the right side, one at or past
/// the right edge for the left side; a scoring ball goes back to the centre.
pub open spec fn score(s: GameState) -> GameState {
    let s1 = if s.ball.position.x <= 0 {
        GameState { score_2: (s.score_2 + 1) as i32, ..with_ball_position(s, centre(s.screen)) }
    } else {
        s
    };
    if s1.ball.position.x >= s1.screen.w * SUBPIXELS {
        GameState { score_1: (s1.score_1 + 1) as i32, ..with_ball_position(s1, centre(s1.screen)) }
    } else {
        s1
    }
}

/// The opponent's paddle follows the ball's height.
pub open spec fn track(s: GameState) -> GameState {
    GameState {
        paddle_2: RectObject {
            position: FVec { y: s.ball.position.y, ..s.paddle_2.position },
            ..s.paddle_2
        },
        ..s
    }
}

/// The player's paddle moves up while `up` is held and down while `down` is held.
pub open spec fn steer(s: GameState, dt: int, up: bool, down: bool) -> GameState {
    let y0 = s.paddle_1.position.y as int;
    let y1 = if up { y0 - PADDLE_SPEED * dt } else { y0 };
    let y2 = if down { y1 + PADDLE_SPEED * dt } else { y1 };
    GameState {
        paddle_1: RectObject {
            position: FVec { y: y2 as i64, ..s.paddle_1.position },
            ..s.paddle_1
        },
        ..s
    }
}

/// The lowest height of a paddle's position that keeps it on the screen.
pub open spec fn lowest(p: RectObject) -> int {
    (p.rect.h / 2) * SUBPIXELS
}

/// The greatest height of a paddle's position that keeps it on the screen.
pub open spec fn highest(p: RectObject, screen: Rect) -> int {
    (screen.h - p.rect.h / 2) * SUBPIXELS
}

pub open spec fn clamp(v: int, lo: int, hi: int) -> int {
    if v < lo {
        lo
    } else if v > hi {
        hi
    } else {
        v
    }
}

pub open spec fn clamped(p: RectObject, screen: Rect) -> RectObject {
    RectObject {
        position: FVec {
            y: clamp(p.position.y as int, lowest(p), highest(p, screen)) as i64,
            ..p.position
        },
        ..p
    }
}

/// Both paddles brought back within the screen.
pub open spec fn clamp_paddles(s: GameState) -> GameState {
    GameState {
        paddle_1: clamped(s.paddle_1, s.screen),
        paddle_2: clamped(s.paddle_2, s.screen),
        ..s
    }
}

/// One whole step of the game over `dt` microseconds, with the player's keys `up` and `down`.
pub open spec fn stepped(s: GameState, dt: int, up: bool, down: bool) -> GameState {
    clamp_paddles(
        steer(track(score(bounce_walls(bounce_paddles(integrate(s, dt))))), dt, up, down),
    )
}

/// A paddle fits between the top and the bottom of the screen.
pub open spec fn paddle_fits(p: RectObject, screen: Rect) -> bool {
    &&& p.wf()
    &&& p.rect.h / 2 <= screen.h - p.rect.h / 2
}

/// The arithmetic of one step over `dt` microseconds stays within the machine's integers.
pub open spec fn can_step(s: GameState, dt: int, up: bool, down: bool) -> bool {
    &&& dt >= 0
    &&& s.ball.wf()
    &&& paddle_fits(s.paddle_1, s.screen)
    &&& paddle_fits(s.paddle_2, s.screen)
    &&& s.ball.velocity.x > i64::MIN
    &&& s.ball.velocity.y > i64::MIN
    &&& i64::MIN <= s.ball.velocity.x * dt <= i64::MAX
    &&& i64::MIN <= s.ball.velocity.y * dt <= i64::MAX
    &&& i64::MIN <= s.ball.position.x + s.ball.velocity.x * dt <= i64::MAX
    &&& i64::MIN <= s.ball.position.y + s.ball.velocity.y * dt <= i64::MAX
    &&& (up || down) ==> PADDLE_SPEED * dt <= i64::MAX
    &&& up ==> s.paddle_1.position.y - PADDLE_SPEED * dt >= i64::MIN
    &&& (down && !up) ==> s.paddle_1.position.y + PADDLE_SPEED * dt <= i64::MAX
    &&& s.score_1 < i32::MAX
    &&& s.score_2 < i32::MAX
}

fn within_i64(v: i128) -> (r: bool)
    ensures
        r == (i64::MIN <= v <= i64::MAX),
{
    i64::MIN as i128 <= v && v <= i64::MAX as i128
}

fn wide_product(a: i64, b: i64) -> (r: i128)
    ensures
        r == a * b,
{
    proof {
        let (x, y) = (a as int, b as int);
        assert(-0x4000_0000_0000_0000_0000_0000_0000_0000 <= x * y <= 0x4000_0000_0000_0000_0000_0000_0000_0000)
            by (nonlinear_arith)
            requires
                -0x8000_0000_0000_0000 <= x <= 0x7fff_ffff_ffff_ffff,
                -0x8000_0000_0000_0000 <= y <= 0x7fff_ffff_ffff_ffff,
        ;
    }
    a as i128 * b as i128
}

fn paddle_fits_screen(p: &RectObject, screen: &Rect) -> (r: bool)
    ensures
        r == paddle_fits(*p, *screen),
{
    let half = (p.rect.h / 2) as i64;
    i32::MIN as i64 <= p.rect.x && p.rect.x <= i32::MAX as i64 && i32::MIN as i64 <= p.rect.y
        && p.rect.y <= i32::MAX as i64 && half <= screen.h as i64 - half
}

/// Whether `update` may be called on this state with these arguments.
pub fn can_update(state: &GameState, delta_time: i64, up: bool, down: bool) -> (r: bool)
    ensures
        r == can_step(*state, delta_time as int, up, down),
{
    let b = &state.ball;
    let ball_wf = i32::MIN as i64 <= b.rect.x && b.rect.x <= i32::MAX as i64
        && i32::MIN as i64 <= b.rect.y && b.rect.y <= i32::MAX as i64;
    let dx = wide_product(b.velocity.x, delta_time);
    let dy = wide_product(b.velocity.y, delta_time);
    let run = wide_product(PADDLE_SPEED, delta_time);
    let y1 = state.paddle_1.position.y as i128;
    delta_time >= 0 && ball_wf && paddle_fits_screen(&state.paddle_1, &state.screen)
        && paddle_fits_screen(&state.paddle_2, &state.screen) && b.velocity.x > i64::MIN
        && b.velocity.y > i64::MIN && within_i64(dx) && within_i64(dy)
        && within_i64(b.position.x as i128 + dx) && within_i64(b.position.y as i128 + dy)
        && (!(up || down) || run <= i64::MAX as i128)
        && (!up || y1 - run >= i64::MIN as i128)
        && (!(down && !up) || y1 + run <= i64::MAX as i128)
        && state.score_1 < i32::MAX && state.score_2 < i32::MAX
}

fn abs_of(v: i64) -> (r: i64)
    requires
        v > i64::MIN,
    ensures
        r == abs(v),
{
    if v < 0 {
        -v
    } else {
        v
    }
}

fn integrate_ball(state: &mut GameState, dt: i64)
    requires
        i64::MIN <= old(state).ball.velocity.x * dt <= i64::MAX,
        i64::MIN <= old(state).ball.velocity.y * dt <= i64::MAX,
        i64::MIN <= old(state).ball.position.x + old(state).ball.velocity.x * dt <= i64::MAX,
        i64::MIN <= old(state).ball.position.y + old(state).ball.velocity.y * dt <= i64::MAX,
    ensures
        *final(state) == integrate(*old(state), dt as int),
{
    state.ball.position.x = state.ball.position.x + state.ball.velocity.x * dt;
    state.ball.position.y = state.ball.position.y + state.ball.velocity.y * dt;
}

fn bounce_off_paddles(state: &mut GameState)
    requires
        old(state).ball.wf(),
        old(state).paddle_1.wf(),
        old(state).paddle_2.wf(),
        old(state).ball.velocity.x > i64::MIN,
    ensures
        *final(state) == bounce_paddles(*old(state)),
{
    let ball = state.ball.world_rect();
    if ball.has_intersection(&state.paddle_1.world_rect()) {
        state.ball.velocity.x = abs_of(state.ball.velocity.x);
    }
    if ball.has_intersection(&state.paddle_2.world_rect()) {
        state.ball.velocity.x = -abs_of(state.ball.velocity.x);
    }
}

fn bounce_off_walls(state: &mut GameState)
    requires
        old(state).ball.wf(),
        old(state).ball.velocity.y > i64::MIN,
    ensures
        *final(state) == bounce_walls(*old(state)),
{
    let ball = state.ball.world_rect();
    if ball.y <= 0 {
        state.ball.velocity.y = abs_of(state.ball.velocity.y);
    }
    if ball.y + ball.h as i64 >= state.screen.h as i64 {
        state.ball.velocity.y = -abs_of(state.ball.velocity.y);
    }
}

fn award_points(state: &mut GameState)
    requires
        old(state).score_1 < i32::MAX,
        old(state).score_2 < i32::MAX,
    ensures
        *final(state) == score(*old(state)),
{
    let middle = FVec {
        x: (state.screen.w / 2) as i64 * SUBPIXELS,
        y: (state.screen.h / 2) as i64 * SUBPIXELS,
    };
    if state.ball.position.x <= 0 {
        state.score_2 = state.score_2 + 1;
        state.ball.position = middle;
    }
    if state.ball.position.x >= state.screen.w as i64 * SUBPIXELS {
        state.score_1 = state.score_1 + 1;
        state.ball.position = middle;
    }
}

fn steer_player(state: &mut GameState, dt: i64, up: bool, down: bool)
    requires
        dt >= 0,
        (up || down) ==> PADDLE_SPEED * dt <= i64::MAX,
        up ==> old(state).paddle_1.position.y - PADDLE_SPEED * dt >= i64::MIN,
        (down && !up) ==> old(state).paddle_1.position.y + PADDLE_SPEED * dt <= i64::MAX,
    ensures
        *final(state) == steer(*old(state), dt as int, up, down),
{
    if up {
        state.paddle_1.position.y = state.paddle_1.position.y - PADDLE_SPEED * dt;
    }
    if down {
        state.paddle_1.position.y = state.paddle_1.position.y + PADDLE_SPEED * dt;
    }
}

fn clamp_paddle(paddle: &mut RectObject, screen: Rect)
    requires
        old(paddle).rect.h / 2 <= screen.h - old(paddle).rect.h / 2,
    ensures
        *final(paddle) == clamped(*old(paddle), screen),
{
    let half = (paddle.rect.h / 2) as i64;
    let lo = half * SUBPIXELS;
    let hi = (screen.h as i64 - half) * SUBPIXELS;
    if paddle.position.y < lo {
        paddle.position.y = lo;
    } else if paddle.position.y > hi {
        paddle.position.y = hi;
    }
}

/// Advances the game by `delta_time` microseconds, with the player holding
/// `up` and/or `down`: the ball moves, bounces off paddles and walls, scores
/// at either side, the opponent follows the ball, the player's paddle moves,
/// and both paddles are kept on the screen.
pub fn update(state: &mut GameState, delta_time: i64, up: bool, down: bool)
    requires
        can_step(*old(state), delta_time as int, up, down),
    ensures
        *final(state) == stepped(*old(state), delta_time as int, up, down),
{
    integrate_ball(state, delta_time);
    bounce_off_paddles(state);
    bounce_off_walls(state);
    award_points(state);
    state.paddle_2.position.y = state.ball.position.y;
    steer_player(state, delta_time, up, down);
    let screen = state.screen;
    clamp_paddle(&mut state.paddle_1, screen);
    clamp_paddle(&mut state.paddle_2, screen);
}

/// Width of each paddle, in pixels.
pub const PADDLE_WIDTH: u32 = 25;

/// Height of each paddle, in pixels.
pub const PADDLE_HEIGHT: u32 = 100;

/// Side of the square ball, in pixels.
pub const BALL_SIZE: u32 = 25;

/// Distance of each paddle's centre from its side of the screen, in pixels.
pub const PADDLE_MARGIN: i64 = 25;

/// The ball's starting speed along each axis, in sub-pixels per microsecond
/// (a quarter of a pixel per millisecond).
pub const BALL_SPEED: i64 = 250;

pub open spec fn paddle_at(x: int, y: int) -> RectObject {
    RectObject {
        rect: Rect { x: -12i64, y: -50i64, w: PADDLE_WIDTH, h: PADDLE_HEIGHT },
        position: FVec { x: x as i64, y: y as i64 },
        velocity: FVec { x: 0, y: 0 },
    }
}

/// The game at its start on a screen of `w` by `h` pixels: paddles at the
/// middle height of either side, the ball at the centre heading up and left,
/// both scores zero.
pub open spec fn initial(w: u32, h: u32) -> GameState {
    GameState {
        paddle_1: paddle_at(PADDLE_MARGIN * SUBPIXELS, (h / 2) * SUBPIXELS),
        paddle_2: paddle_at((w - PADDLE_MARGIN) * SUBPIXELS, (h / 2) * SUBPIXELS),
        ball: RectObject {
            rect: Rect { x: -12i64, y: -12i64, w: BALL_SIZE, h: BALL_SIZE },
            position: centre(Rect { x: 0, y: 0, w, h }),
            velocity: FVec { x: (-BALL_SPEED) as i64, y: BALL_SPEED },
        },
        screen: Rect { x: 0, y: 0, w, h },
        score_1: 0,
        score_2: 0,
    }
}

impl GameState {
    pub fn new(w: u32, h: u32) -> (r: GameState)
        ensures
            r == initial(w, h),
    {
        let paddle_rect = Rect::new(-(PADDLE_WIDTH as i64) / 2, -(PADDLE_HEIGHT as i64) / 2, PADDLE_WIDTH, PADDLE_HEIGHT);
        let middle_y = (h / 2) as i64 * SUBPIXELS;
        GameState {
            paddle_1: RectObject::new(
                paddle_rect,
                FVec { x: PADDLE_MARGIN * SUBPIXELS, y: middle_y },
                FVec::zero(),
            ),
            paddle_2: RectObject::new(
                paddle_rect,
                FVec { x: (w as i64 - PADDLE_MARGIN) * SUBPIXELS, y: middle_y },
                FVec::zero(),
            ),
            ball: RectObject::new(
                Rect::new(-(BALL_SIZE as i64) / 2, -(BALL_SIZE as i64) / 2, BALL_SIZE, BALL_SIZE),
                FVec { x: (w / 2) as i64 * SUBPIXELS, y: middle_y },
                FVec { x: -BALL_SPEED, y: BALL_SPEED },
            ),
            screen: Rect::new(0, 0, w, h),
            score_1: 0,
            score_2: 0,
        }
    }
}

} // verus!
