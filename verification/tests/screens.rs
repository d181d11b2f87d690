//! The screen state machine and the high score carried across sessions.

use hopper::game::{
    handle_key, record_game_over, session_tick_with, start_session, update_high_score, Action,
    Game, Key, Screen,
};
use hopper::obstacle::Obstacle;
use hopper::{MAX_GAP, PLAYER_COL};

fn playing_game() -> Game {
    let mut g = Game::new();
    assert_eq!(handle_key(&mut g, Key::Jump), Action::StartSession);
    start_session(&mut g, 80, 24);
    g
}

#[test]
fn title_jump_asks_for_a_session() {
    let mut g = Game::new();
    assert_eq!(g.screen, Screen::Title);
    let a = handle_key(&mut g, Key::Jump);
    assert_eq!(a, Action::StartSession);
    assert_eq!(g.screen, Screen::Title);
    start_session(&mut g, 80, 24);
    assert_eq!(g.screen, Screen::Playing);
    assert_eq!(g.session.as_ref().unwrap().score, 0);
}

#[test]
fn quit_leads_to_exit_from_every_screen() {
    let mut g = Game::new();
    handle_key(&mut g, Key::Quit);
    assert_eq!(g.screen, Screen::Exit);

    let mut g = playing_game();
    handle_key(&mut g, Key::Quit);
    assert_eq!(g.screen, Screen::Exit);
    assert!(g.session.is_none());
}

#[test]
fn pause_toggles_and_freezes_input() {
    let mut g = playing_game();
    handle_key(&mut g, Key::Pause);
    assert_eq!(g.screen, Screen::Paused);
    assert!(g.session.as_ref().unwrap().paused);
    let before = g.session.as_ref().unwrap().player;
    handle_key(&mut g, Key::Jump);
    assert_eq!(g.screen, Screen::Paused);
    assert_eq!(g.session.as_ref().unwrap().player, before);
    handle_key(&mut g, Key::Pause);
    assert_eq!(g.screen, Screen::Playing);
    assert!(!g.session.as_ref().unwrap().paused);
}

#[test]
fn jump_key_starts_one_arc_only() {
    let mut g = playing_game();
    handle_key(&mut g, Key::Jump);
    let p = g.session.as_ref().unwrap().player;
    assert!(p.jumping);
    handle_key(&mut g, Key::Jump);
    assert_eq!(g.session.as_ref().unwrap().player, p);
}

#[test]
fn lower_score_keeps_high_score() {
    let mut g = playing_game();
    g.high_score = 10;
    if let Some(s) = &mut g.session {
        s.score = 7;
        s.ticks = 7;
    }
    record_game_over(&mut g);
    assert_eq!(g.screen, Screen::GameOver);
    assert_eq!(g.high_score, 10);
    assert_eq!(g.last_score, 7);
    assert!(!g.last_was_best);
}

#[test]
fn higher_score_sets_new_best() {
    let mut g = playing_game();
    g.high_score = 10;
    if let Some(s) = &mut g.session {
        s.score = 12;
        s.ticks = 12;
    }
    record_game_over(&mut g);
    assert_eq!(g.screen, Screen::GameOver);
    assert_eq!(g.high_score, 12);
    assert_eq!(g.last_score, 12);
    assert!(g.last_was_best);
}

#[test]
fn update_high_score_is_a_maximum() {
    assert_eq!(update_high_score(10, 7), (10, false));
    assert_eq!(update_high_score(10, 12), (12, true));
    assert_eq!(update_high_score(10, 10), (10, false));
    assert_eq!(update_high_score(0, 0), (0, false));
}

#[test]
fn game_over_confirm_returns_to_title() {
    let mut g = playing_game();
    record_game_over(&mut g);
    handle_key(&mut g, Key::Confirm);
    assert_eq!(g.screen, Screen::Title);
    assert!(g.session.is_none());
}

#[test]
fn collision_ends_the_session() {
    let mut g = playing_game();
    if let Some(s) = &mut g.session {
        // An obstacle one column ahead of the player's span: the next tick
        // moves it into the span at ground level.
        s.obstacles.push(Obstacle { pos: PLAYER_COL + 3, height: 1 });
    }
    let over = session_tick_with(&mut g, MAX_GAP, 1);
    assert!(over);
    assert_eq!(g.screen, Screen::GameOver);
    assert!(g.session.is_none());
}

#[test]
fn clear_tick_keeps_playing() {
    let mut g = playing_game();
    let over = session_tick_with(&mut g, MAX_GAP, 1);
    assert!(!over);
    assert_eq!(g.screen, Screen::Playing);
    assert_eq!(g.session.as_ref().unwrap().ticks, 1);
}
