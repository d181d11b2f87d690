//! The screen state machine and the top-level game state: Title to Playing,
//! Playing to and from Paused, Playing to GameOver on collision, GameOver
//! back to Title or out through Exit. The high score is owned here and
//! carried across sessions within the process.

use vstd::prelude::*;
use crate::collision::{check_collision, spec_collision};
use crate::obstacle::spec_height_band;
use crate::physics::{spec_jump, trigger_jump};
use crate::session::{advance_tick_with, spec_advanced, Session};
use crate::speed::{spec_speed_for_score, speed_for_score};
use crate::{MAX_GAP, MIN_GAP, MIN_HEIGHT, MIN_WIDTH, PLAYER_COL};

verus! {

/// Which screen the game is on.
#[derive(Clone, Copy, PartialEq, Eq, Structural, Debug)]
pub enum Screen {
    /// Waiting to start a run.
    Title,
    /// A run is in progress.
    Playing,
    /// A run is suspended; physics and spawning do not advance.
    Paused,
    /// A run just ended; its final score is on display.
    GameOver,
    /// The process is shutting down.
    Exit,
}

/// A discrete key event, as the input backend classifies it.
#[derive(Clone, Copy, PartialEq, Eq, Structural, Debug)]
pub enum Key {
    /// Leave the game from any screen.
    Quit,
    /// Advance past the title or game-over screen.
    Confirm,
    /// Start a jump (also advances past the title screen).
    Jump,
    /// Suspend or resume play.
    Pause,
    /// Any other key; ignored.
    Other,
}

/// What the caller must do after handing a key to the state machine.
#[derive(Clone, Copy, PartialEq, Eq, Structural, Debug)]
pub enum Action {
    /// Nothing beyond reading the new screen state.
    Nothing,
    /// Sample the play-field dimensions and call `start_session`.
    StartSession,
}

/// The top-level game state: the current screen, the high score carried
/// across sessions, what the last finished run scored, and the live session
/// while one is running.
pub struct Game {
    /// Which screen the game is on.
    pub screen: Screen,
    /// Best score of any finished session this process; never decreases.
    pub high_score: u64,
    /// Final score of the most recently finished session.
    pub last_score: u64,
    /// Whether the most recently finished session set a new high score.
    pub last_was_best: bool,
    /// The live session; present exactly while on Playing or Paused.
    pub session: Option<Session>,
}

impl Game {
    /// Well-formedness: a session exists exactly on the Playing and Paused
    /// screens, well formed and with its pause flag matching the screen,
    /// and the last finished score never exceeds the high score.
    pub open spec fn wf(self) -> bool {
        &&& (self.screen is Playing ==> self.session is Some && self.session->0.wf()
            && !self.session->0.paused)
        &&& (self.screen is Paused ==> self.session is Some && self.session->0.wf()
            && self.session->0.paused)
        &&& (self.screen is Title || self.screen is GameOver || self.screen is Exit
            ==> self.session is None)
        &&& self.last_score <= self.high_score
    }

    /// A fresh game at the title screen with no score history.
    pub fn new() -> (g: Game)
        ensures
            g.wf(),
            g.screen is Title,
            g.high_score == 0,
            g.last_score == 0,
            !g.last_was_best,
            g.session is None,
    {
        Game {
            screen: Screen::Title,
            high_score: 0,
            last_score: 0,
            last_was_best: false,
            session: None,
        }
    }
}

/// How one key event transforms the game state, and what it asks of the
/// caller. Quit leads to Exit from every screen. On the title screen, Jump
/// or Confirm asks the caller to start a session. While playing, Pause
/// suspends, and Jump starts a jump arc only if the player is not already
/// jumping. While paused, only Pause (resume) and Quit act. On the
/// game-over screen, Confirm returns to the title. Everything else is
/// ignored.
pub open spec fn spec_handled(pre: Game, k: Key, post: Game, a: Action) -> bool {
    match pre.screen {
        Screen::Title => match k {
            Key::Quit => post == (Game { screen: Screen::Exit, ..pre }) && a is Nothing,
            Key::Jump | Key::Confirm => post == pre && a is StartSession,
            _ => post == pre && a is Nothing,
        },
        Screen::Playing => {
            let s = pre.session->0;
            a is Nothing && match k {
                Key::Quit => post == (Game { screen: Screen::Exit, session: None, ..pre }),
                Key::Pause => post == (Game {
                    screen: Screen::Paused,
                    session: Some(Session { paused: true, ..s }),
                    ..pre
                }),
                Key::Jump => if !s.player.jumping {
                    post == (Game { session: Some(Session { player: spec_jump(s.player), ..s }), ..pre })
                } else {
                    post == pre
                },
                _ => post == pre,
            }
        },
        Screen::Paused => {
            let s = pre.session->0;
            a is Nothing && match k {
                Key::Quit => post == (Game { screen: Screen::Exit, session: None, ..pre }),
                Key::Pause => post == (Game {
                    screen: Screen::Playing,
                    session: Some(Session { paused: false, ..s }),
                    ..pre
                }),
                _ => post == pre,
            }
        },
        Screen::GameOver => a is Nothing && match k {
            Key::Quit => post == (Game { screen: Screen::Exit, ..pre }),
            Key::Confirm => post == (Game { screen: Screen::Title, ..pre }),
            _ => post == pre,
        },
        Screen::Exit => post == pre && a is Nothing,
    }
}

/// Feed one key event to the state machine.
pub fn handle_key(g: &mut Game, k: Key) -> (a: Action)
    requires
        old(g).wf(),
    ensures
        final(g).wf(),
        spec_handled(*old(g), k, *final(g), a),
        final(g).high_score == old(g).high_score,
{
    match g.screen {
        Screen::Title => match k {
            Key::Quit => {
                g.screen = Screen::Exit;
                Action::Nothing
            },
            Key::Jump | Key::Confirm => Action::StartSession,
            _ => Action::Nothing,
        },
        Screen::Playing => {
            match k {
                Key::Quit => {
                    g.screen = Screen::Exit;
                    g.session = None;
                },
                Key::Pause => {
                    g.screen = Screen::Paused;
                    if let Some(s) = &mut g.session {
                        s.paused = true;
                    }
                },
                Key::Jump => {
                    if let Some(s) = &mut g.session {
                        if !s.player.jumping {
                            trigger_jump(&mut s.player);
                        }
                    }
                },
                _ => {},
            }
            Action::Nothing
        },
        Screen::Paused => {
            match k {
                Key::Quit => {
                    g.screen = Screen::Exit;
                    g.session = None;
                },
                Key::Pause => {
                    g.screen = Screen::Playing;
                    if let Some(s) = &mut g.session {
                        s.paused = false;
                    }
                },
                _ => {},
            }
            Action::Nothing
        },
        Screen::GameOver => {
            match k {
                Key::Quit => {
                    g.screen = Screen::Exit;
                },
                Key::Confirm => {
                    g.screen = Screen::Title;
                },
                _ => {},
            }
            Action::Nothing
        },
        Screen::Exit => Action::Nothing,
    }
}

/// Begin a fresh run on a play field of the given dimensions, keeping the
/// high score carried over from earlier sessions.
pub fn start_session(g: &mut Game, width: u16, height: u16)
    requires
        old(g).wf(),
        old(g).screen is Title,
        width >= MIN_WIDTH,
        height >= MIN_HEIGHT,
    ensures
        final(g).wf(),
        final(g).screen is Playing,
        final(g).high_score == old(g).high_score,
        final(g).last_score == old(g).last_score,
        final(g).session is Some,
        final(g).session->0.width == width,
        final(g).session->0.height == height,
        final(g).session->0.score == 0,
        final(g).session->0.ticks == 0,
        final(g).session->0.obstacles@.len() == 0,
        !final(g).session->0.player.jumping,
{
    g.session = Some(Session::new(width, height));
    g.screen = Screen::Playing;
}

/// The greater of the carried high score and a finished session's score,
/// and whether that session set a new best: the high score never decreases,
/// and rises exactly when the session's score beat it.
pub fn update_high_score(high_score: u64, score: u64) -> (r: (u64, bool))
    ensures
        r.0 == (if score > high_score { score } else { high_score }),
        r.1 == (score > high_score),
        r.0 >= high_score,
        r.0 >= score,
{
    if score > high_score {
        (score, true)
    } else {
        (high_score, false)
    }
}

/// How a finished session folds into the game state: the session is
/// discarded, its score is recorded, the high score becomes the maximum of
/// the old high score and the session's score, and the new-best flag says
/// whether the session beat the old high score.
pub open spec fn spec_game_over(pre: Game, post: Game) -> bool {
    let score = pre.session->0.score;
    &&& post.screen is GameOver
    &&& post.session is None
    &&& post.last_score == score
    &&& post.high_score == (if score > pre.high_score { score } else { pre.high_score })
    &&& post.last_was_best == (score > pre.high_score)
}

/// End the running session: record its score against the high score and
/// move to the game-over screen.
pub fn record_game_over(g: &mut Game)
    requires
        old(g).wf(),
        old(g).screen is Playing,
    ensures
        final(g).wf(),
        spec_game_over(*old(g), *final(g)),
        final(g).high_score >= old(g).high_score,
{
    let score = match &g.session {
        Some(s) => s.score,
        None => 0,
    };
    let r = update_high_score(g.high_score, score);
    g.high_score = r.0;
    g.last_was_best = r.1;
    g.last_score = score;
    g.session = None;
    g.screen = Screen::GameOver;
}

/// How one playing tick transforms the game state, given the session state
/// `s1` that the tick's update produced: on collision the session ends as
/// `spec_game_over` says; otherwise play goes on with `s1`.
pub open spec fn spec_tick_outcome(pre: Game, s1: Session, post: Game) -> bool {
    if spec_collision(s1.obstacles@, s1.spec_ground_row(), s1.player.offset, PLAYER_COL) {
        spec_game_over(Game { session: Some(s1), ..pre }, post)
    } else {
        post == (Game { session: Some(s1), ..pre })
    }
}

/// One tick of play with the tick's random draws passed in: advance the
/// session, then test for collision; on collision, fold the session's score
/// into the high score and move to the game-over screen.
pub fn session_tick_with(g: &mut Game, gap: u16, new_height: u8) -> (over: bool)
    requires
        old(g).wf(),
        old(g).screen is Playing,
        old(g).session->0.ticks < u64::MAX,
        MIN_GAP <= gap <= MAX_GAP,
        spec_height_band(old(g).session->0.score).0 <= new_height,
        new_height <= spec_height_band(old(g).session->0.score).1,
    ensures
        final(g).wf(),
        exists|s1: Session|
            {
                &&& #[trigger] spec_advanced(old(g).session->0, gap, new_height, s1)
                &&& s1.wf()
                &&& spec_tick_outcome(*old(g), s1, *final(g))
            },
        over == (final(g).screen is GameOver),
{
    let mut hit: bool = false;
    if let Some(s) = &mut g.session {
        advance_tick_with(s, gap, new_height);
        let row = s.ground_row();
        hit = check_collision(&s.obstacles, row, s.player.offset, PLAYER_COL);
    }
    if hit {
        record_game_over(g);
        true
    } else {
        false
    }
}

/// One tick of play, drawing the spawn gap and obstacle height from the
/// given generator: whatever the draws, the session advances as
/// `spec_advanced` for some gap in `[MIN_GAP, MAX_GAP]` and some height in
/// the score band, and the outcome folds in as `spec_tick_outcome`.
pub fn session_tick(g: &mut Game, rng: &mut rand::rngs::ThreadRng) -> (over: bool)
    requires
        old(g).wf(),
        old(g).screen is Playing,
        old(g).session->0.ticks < u64::MAX,
    ensures
        final(g).wf(),
        exists|gap: u16, h: u8, s1: Session|
            {
                &&& MIN_GAP <= gap <= MAX_GAP
                &&& spec_height_band(old(g).session->0.score).0 <= h
                &&& h <= spec_height_band(old(g).session->0.score).1
                &&& #[trigger] spec_advanced(old(g).session->0, gap, h, s1)
                &&& s1.wf()
                &&& spec_tick_outcome(*old(g), s1, *final(g))
            },
        over == (final(g).screen is GameOver),
{
    let gap = crate::rng::draw_gap(rng);
    let h = match &g.session {
        Some(s) => crate::rng::draw_height(rng, s.score),
        None => 1,
    };
    session_tick_with(g, gap, h)
}

/// The tick interval owed on the current screen: a deterministic function
/// of the running session's score alone.
pub fn current_interval(g: &Game) -> (ms: u64)
    requires
        g.wf(),
        g.screen is Playing || g.screen is Paused,
    ensures
        ms == spec_speed_for_score(g.session->0.score),
{
    match &g.session {
        Some(s) => speed_for_score(s.score),
        None => speed_for_score(0),
    }
}

} // verus!
