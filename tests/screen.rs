use pong::game::GameState;
use pong::session::{any_ends_session, ends_session, Key, LoopEvent};

#[test]
fn score_text_shows_both_scores() {
    let mut s = GameState::new(800, 600);
    assert_eq!(s.score_text(), "0 - 0");
    s.score_1 = 3;
    s.score_2 = 12;
    assert_eq!(s.score_text(), "3 - 12");
    s.score_1 = -7;
    assert_eq!(s.score_text(), "-7 - 12");
}

#[test]
fn text_is_centred() {
    let s = GameState::new(800, 600);
    assert_eq!(s.text_left(100), 350);
    assert_eq!(s.text_left(101), 350);
    assert_eq!(s.text_left(1000), -100);
}

#[test]
fn quit_escape_and_q_end_the_game() {
    assert!(ends_session(LoopEvent::Quit));
    assert!(ends_session(LoopEvent::KeyDown(Key::Escape)));
    assert!(ends_session(LoopEvent::KeyDown(Key::Q)));
    assert!(!ends_session(LoopEvent::KeyDown(Key::Other)));
    assert!(!ends_session(LoopEvent::Other));
}

#[test]
fn any_event_of_a_frame_ends_the_game() {
    assert!(!any_ends_session(&vec![]));
    assert!(!any_ends_session(&vec![LoopEvent::Other, LoopEvent::KeyDown(Key::Other)]));
    assert!(any_ends_session(&vec![LoopEvent::Other, LoopEvent::KeyDown(Key::Q)]));
}
