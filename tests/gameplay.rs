use pong::game::{update, GameState, PADDLE_SPEED};
use pong::geometry::{to_pixel, FVec, Rect, RectObject, SUBPIXELS};

const PX: i64 = SUBPIXELS;
/// One millisecond, in microseconds.
const MS: i64 = 1000;

fn court() -> GameState {
    GameState::new(800, 600)
}

#[test]
fn vector_zero_is_origin() {
    let v = FVec::zero();
    assert_eq!(v, FVec { x: 0, y: 0 });
}

#[test]
fn rect_object_new_keeps_fields() {
    let r = Rect::new(-12, -50, 25, 100);
    let o = RectObject::new(r, FVec { x: 5, y: 6 }, FVec { x: 7, y: 8 });
    assert_eq!(o.rect, Rect { x: -12, y: -50, w: 25, h: 100 });
    assert_eq!(o.position, FVec { x: 5, y: 6 });
    assert_eq!(o.velocity, FVec { x: 7, y: 8 });
}

#[test]
fn world_rect_floors_position() {
    let o = RectObject::new(Rect::new(-12, -12, 25, 25), FVec { x: 400 * PX + PX / 2, y: -PX / 2 }, FVec::zero());
    assert_eq!(o.world_rect(), Rect { x: 388, y: -13, w: 25, h: 25 });
    assert_eq!(to_pixel(-1), -1);
    assert_eq!(to_pixel(-PX), -1);
    assert_eq!(to_pixel(PX - 1), 0);
}

#[test]
fn touching_edges_do_not_intersect() {
    let a = Rect::new(0, 0, 10, 10);
    assert!(!a.has_intersection(&Rect::new(10, 0, 10, 10)));
    assert!(!a.has_intersection(&Rect::new(0, 10, 10, 10)));
    assert!(a.has_intersection(&Rect::new(9, 9, 10, 10)));
    assert!(!a.has_intersection(&Rect::new(3, 3, 0, 5)));
}

#[test]
fn initial_state_layout() {
    let s = court();
    assert_eq!(s.paddle_1.position, FVec { x: 25 * PX, y: 300 * PX });
    assert_eq!(s.paddle_2.position, FVec { x: 775 * PX, y: 300 * PX });
    assert_eq!(s.paddle_1.rect, Rect { x: -12, y: -50, w: 25, h: 100 });
    assert_eq!(s.ball.rect, Rect { x: -12, y: -12, w: 25, h: 25 });
    assert_eq!(s.ball.position, FVec { x: 400 * PX, y: 300 * PX });
    assert_eq!(s.ball.velocity, FVec { x: -250, y: 250 });
    assert_eq!(s.screen, Rect { x: 0, y: 0, w: 800, h: 600 });
    assert_eq!((s.score_1, s.score_2), (0, 0));
}

#[test]
fn ball_moves_by_velocity_times_time() {
    let mut s = court();
    s.ball.velocity = FVec { x: 300, y: -200 };
    update(&mut s, 16 * MS, false, false);
    assert_eq!(s.ball.position, FVec { x: 400 * PX + 300 * 16 * MS, y: 300 * PX - 200 * 16 * MS });
    assert_eq!(s.paddle_2.position.y, s.ball.position.y);
}

#[test]
fn ball_leaving_left_scores_for_right() {
    let mut s = court();
    s.ball.position = FVec { x: 0, y: 300 * PX };
    s.ball.velocity = FVec { x: -5 * MS, y: 0 };
    update(&mut s, 10 * MS, false, false);
    assert_eq!(s.score_2, 1);
    assert_eq!(s.score_1, 0);
    assert_eq!(s.ball.position, FVec { x: 400 * PX, y: 300 * PX });
    assert_eq!(s.ball.velocity, FVec { x: -5 * MS, y: 0 });
}

#[test]
fn ball_leaving_right_scores_for_left() {
    let mut s = court();
    s.score_1 = 4;
    s.ball.position = FVec { x: 799 * PX, y: 200 * PX };
    s.ball.velocity = FVec { x: 1000, y: 0 };
    update(&mut s, 2 * MS, false, false);
    assert_eq!(s.score_1, 5);
    assert_eq!(s.score_2, 0);
    assert_eq!(s.ball.position, FVec { x: 400 * PX, y: 300 * PX });
}

#[test]
fn ball_at_top_bounces_down() {
    let mut s = court();
    s.ball.position = FVec { x: 400 * PX, y: 11 * PX };
    s.ball.velocity = FVec { x: 0, y: -3 * MS };
    assert_eq!(s.ball.world_rect().y, -1);
    update(&mut s, 1, false, false);
    assert_eq!(s.ball.velocity.y, 3 * MS);
}

#[test]
fn ball_at_bottom_bounces_up() {
    let mut s = court();
    s.ball.position = FVec { x: 400 * PX, y: 590 * PX };
    s.ball.velocity = FVec { x: 0, y: 7 };
    update(&mut s, 0, false, false);
    assert_eq!(s.ball.velocity.y, -7);
}

#[test]
fn left_paddle_sends_ball_right() {
    let mut s = court();
    s.ball.position = FVec { x: 30 * PX, y: 300 * PX };
    s.ball.velocity = FVec { x: -250, y: 0 };
    update(&mut s, 0, false, false);
    assert_eq!(s.ball.velocity.x, 250);
}

#[test]
fn right_paddle_sends_ball_left() {
    let mut s = court();
    s.ball.position = FVec { x: 770 * PX, y: 300 * PX };
    s.ball.velocity = FVec { x: 250, y: 0 };
    update(&mut s, 0, false, false);
    assert_eq!(s.ball.velocity.x, -250);
    s.ball.velocity = FVec { x: -250, y: 0 };
    update(&mut s, 0, false, false);
    assert_eq!(s.ball.velocity.x, -250);
}

#[test]
fn paddle_above_screen_is_clamped() {
    let mut s = court();
    s.paddle_1.position.y = 0;
    update(&mut s, 0, false, false);
    assert_eq!(s.paddle_1.position.y, 50 * PX);
}

#[test]
fn paddles_stay_on_screen() {
    let mut s = court();
    s.paddle_1.position.y = 1000 * PX;
    s.ball.position = FVec { x: 400 * PX, y: 580 * PX };
    update(&mut s, 0, false, false);
    assert_eq!(s.paddle_1.position.y, 550 * PX);
    assert_eq!(s.paddle_2.position.y, 550 * PX);
}

#[test]
fn keys_move_player_paddle() {
    let mut s = court();
    update(&mut s, 20 * MS, true, false);
    assert_eq!(s.paddle_1.position.y, 300 * PX - PADDLE_SPEED * 20 * MS);
    update(&mut s, 20 * MS, false, true);
    assert_eq!(s.paddle_1.position.y, 300 * PX);
    update(&mut s, 20 * MS, true, true);
    assert_eq!(s.paddle_1.position.y, 300 * PX);
}

#[test]
fn zero_time_keeps_ball_and_corrects() {
    let mut s = court();
    s.ball.position = FVec { x: 123 * PX + 7, y: -5 * PX };
    s.ball.velocity = FVec { x: 9, y: -9 };
    s.paddle_1.position.y = 700 * PX;
    update(&mut s, 0, false, false);
    assert_eq!(s.ball.position, FVec { x: 123 * PX + 7, y: -5 * PX });
    assert_eq!(s.ball.velocity, FVec { x: 9, y: 9 });
    assert_eq!(s.paddle_1.position.y, 550 * PX);
}
