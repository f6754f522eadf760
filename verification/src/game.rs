//! The state of a game in progress: the countdown, the level and the score,
//! the screen that is shown, and the text blocks that display them. Time is
//! what the host's clock says, in milliseconds since a start of the host's
//! choosing.

use vstd::prelude::*;
use crate::color::Color;
use crate::pause_menu::PauseMenuAction;
use crate::text::{
    Slant, TextPosition, TextRenderer, TextRendererView, TextStyle, TextStyleView,
    not_found_message,
};
use crate::units::{from_pixels, half, pixels, store, stored, WindowSize};

verus! {

/// The screen that is shown.
#[derive(Clone, Copy, Debug, PartialEq, Eq, Structural)]
pub enum CurrentScreen {
    Loading,
    Game,
    Pause,
    GameOver,
    NewGame,
    Upgrade,
}

/// How long a countdown runs, when its display changes colour, and to
/// which.
#[derive(Clone, Copy, Debug, PartialEq, Eq, Structural)]
pub struct TimerConfig {
    pub duration: u64,
    pub warning_threshold: u64,
    pub critical_threshold: u64,
    pub normal_color: Color,
    pub warning_color: Color,
    pub critical_color: Color,
}

/// A minute, with a warning at thirty and at fifteen seconds.
pub open spec fn default_timer_config() -> TimerConfig {
    TimerConfig {
        duration: 60000,
        warning_threshold: 30000,
        critical_threshold: 15000,
        normal_color: Color { r: 100, g: 255, b: 100, a: 255 },
        warning_color: Color { r: 255, g: 255, b: 100, a: 255 },
        critical_color: Color { r: 255, g: 100, b: 100, a: 255 },
    }
}

impl Default for TimerConfig {
    fn default() -> (out: Self)
        ensures
            out == default_timer_config(),
    {
        TimerConfig {
            duration: 60000,
            warning_threshold: 30000,
            critical_threshold: 15000,
            normal_color: Color::rgb(100, 255, 100),
            warning_color: Color::rgb(255, 255, 100),
            critical_color: Color::rgb(255, 100, 100),
        }
    }
}

/// A countdown that can be paused.
#[derive(Clone, Copy, Debug, PartialEq, Eq, Structural)]
pub struct GameTimer {
    pub start_time: u64,
    pub config: TimerConfig,
    pub is_running: bool,
    pub is_expired: bool,
    /// When the countdown was paused, while it is.
    pub paused_at: Option<u64>,
    /// The time spent paused since the start, pauses that ended only.
    pub elapsed_paused: u64,
}

/// `a - b`, or nothing where `b` is the larger.
pub open spec fn minus(a: int, b: int) -> int {
    if a >= b {
        a - b
    } else {
        0
    }
}

/// `a + b`, held at the largest time.
pub open spec fn plus(a: int, b: int) -> int {
    if a + b > u64::MAX {
        u64::MAX as int
    } else {
        a + b
    }
}

impl GameTimer {
    /// The time that has counted at `now`: the time since the start, up
    /// to the pause while the countdown is paused, less the pauses that
    /// ended.
    pub open spec fn elapsed_at(self, now: u64) -> int {
        let until = match self.paused_at {
            Some(p) => p,
            None => now,
        };
        minus(minus(until as int, self.start_time as int), self.elapsed_paused as int)
    }

    /// The time that is left at `now`: nothing for a countdown that does
    /// not run or has expired.
    pub open spec fn remaining_at(self, now: u64) -> int {
        if !self.is_running || self.is_expired {
            0
        } else {
            minus(self.config.duration as int, self.elapsed_at(now))
        }
    }

    /// The countdown started at `now`.
    pub open spec fn started(self, now: u64) -> GameTimer {
        GameTimer {
            start_time: now,
            is_running: true,
            is_expired: false,
            paused_at: None,
            elapsed_paused: 0,
            ..self
        }
    }

    /// The countdown paused at `now`: only a running countdown that is not
    /// paused already takes note.
    pub open spec fn paused(self, now: u64) -> GameTimer {
        if self.is_running && self.paused_at.is_none() {
            GameTimer { paused_at: Some(now), ..self }
        } else {
            self
        }
    }

    /// The countdown resumed at `now`: the time since the pause is added to
    /// the time spent paused.
    pub open spec fn resumed(self, now: u64) -> GameTimer {
        match self.paused_at {
            Some(p) => GameTimer {
                paused_at: None,
                elapsed_paused: plus(self.elapsed_paused as int, minus(now as int, p as int)) as u64,
                ..self
            },
            None => self,
        }
    }

    /// The countdown set back to its start at `now`, running or not as it
    /// was.
    pub open spec fn reset_at(self, now: u64) -> GameTimer {
        GameTimer {
            start_time: now,
            is_expired: false,
            paused_at: None,
            elapsed_paused: 0,
            ..self
        }
    }

    /// Whether `update` looks at the clock: the countdown runs and is not
    /// paused.
    pub open spec fn ticks(self) -> bool {
        self.is_running && self.paused_at.is_none()
    }

    /// The countdown after `update` at `now`.
    pub open spec fn updated(self, now: u64) -> GameTimer {
        if self.ticks() {
            GameTimer { is_expired: self.remaining_at(now) == 0, ..self }
        } else {
            self
        }
    }

    /// The colour of the display at `now`.
    pub open spec fn color_at(self, now: u64) -> Color {
        if self.remaining_at(now) <= self.config.critical_threshold {
            self.config.critical_color
        } else if self.remaining_at(now) <= self.config.warning_threshold {
            self.config.warning_color
        } else {
            self.config.normal_color
        }
    }

    /// A countdown that does not run yet.
    pub open spec fn fresh(config: TimerConfig, now: u64) -> GameTimer {
        GameTimer {
            start_time: now,
            config,
            is_running: false,
            is_expired: false,
            paused_at: None,
            elapsed_paused: 0,
        }
    }

    /// A countdown that does not run yet.
    pub fn new(config: TimerConfig, now: u64) -> (timer: GameTimer)
        ensures
            timer == Self::fresh(config, now),
    {
        GameTimer {
            start_time: now,
            config,
            is_running: false,
            is_expired: false,
            paused_at: None,
            elapsed_paused: 0,
        }
    }

    /// Starts the countdown from its full duration.
    pub fn start(&mut self, now: u64)
        ensures
            *final(self) == old(self).started(now),
    {
        self.start_time = now;
        self.is_running = true;
        self.is_expired = false;
        self.paused_at = None;
        self.elapsed_paused = 0;
    }

    /// Pauses the countdown.
    pub fn pause(&mut self, now: u64)
        ensures
            *final(self) == old(self).paused(now),
    {
        if self.is_running && self.paused_at.is_none() {
            self.paused_at = Some(now);
        }
    }

    /// Lets a paused countdown go on. The time it was paused does not
    /// count.
    pub fn resume(&mut self, now: u64)
        ensures
            *final(self) == old(self).resumed(now),
    {
        match self.paused_at {
            Some(paused_at) => {
                let pause: u64 = if now >= paused_at {
                    now - paused_at
                } else {
                    0
                };
                self.elapsed_paused = if pause > u64::MAX - self.elapsed_paused {
                    u64::MAX
                } else {
                    self.elapsed_paused + pause
                };
                self.paused_at = None;
            },
            None => {},
        }
    }

    /// Stops the countdown.
    pub fn stop(&mut self)
        ensures
            *final(self) == (GameTimer { is_running: false, ..*old(self) }),
    {
        self.is_running = false;
    }

    /// Sets the countdown back to its start.
    pub fn reset(&mut self, now: u64)
        ensures
            *final(self) == old(self).reset_at(now),
    {
        self.start_time = now;
        self.is_expired = false;
        self.paused_at = None;
        self.elapsed_paused = 0;
    }

    /// The time that is left.
    pub fn get_remaining_time(&self, now: u64) -> (remaining: u64)
        ensures
            remaining == self.remaining_at(now),
    {
        if !self.is_running || self.is_expired {
            return 0;
        }
        let until: u64 = match self.paused_at {
            Some(p) => p,
            None => now,
        };
        let since: u64 = if until >= self.start_time {
            until - self.start_time
        } else {
            0
        };
        let elapsed: u64 = if since >= self.elapsed_paused {
            since - self.elapsed_paused
        } else {
            0
        };
        if self.config.duration >= elapsed {
            self.config.duration - elapsed
        } else {
            0
        }
    }

    /// Whether the countdown has run out: it was seen to, or it does not
    /// run.
    pub fn is_expired(&self, now: u64) -> (expired: bool)
        ensures
            expired == (self.is_expired || (!self.is_running && self.remaining_at(now) == 0)),
            expired == (self.is_expired || !self.is_running),
    {
        self.is_expired || (!self.is_running && self.get_remaining_time(now) == 0)
    }

    /// Looks at the clock. Returns whether the countdown ran out just now.
    pub fn update(&mut self, now: u64) -> (just_expired: bool)
        ensures
            *final(self) == old(self).updated(now),
            just_expired == (old(self).ticks() && !old(self).is_expired && old(
                self,
            ).remaining_at(now) == 0),
    {
        if !self.is_running || self.paused_at.is_some() {
            return false;
        }
        let remaining = self.get_remaining_time(now);
        let was_expired = self.is_expired;
        self.is_expired = remaining == 0;
        !was_expired && self.is_expired
    }

    /// The colour of the display: the critical one at or below the
    /// critical threshold, the warning one at or below the warning
    /// threshold, else the normal one.
    pub fn get_current_color(&self, now: u64) -> (color: Color)
        ensures
            color == self.color_at(now),
    {
        let remaining = self.get_remaining_time(now);
        if remaining <= self.config.critical_threshold {
            self.config.critical_color
        } else if remaining <= self.config.warning_threshold {
            self.config.warning_color
        } else {
            self.config.normal_color
        }
    }

    /// The time that is left, as seconds with two decimals.
    pub fn format_time(&self, now: u64) -> (text: String)
        ensures
            text@ == seconds_text(self.remaining_at(now) as nat),
    {
        format_seconds(self.get_remaining_time(now))
    }
}

/// While a countdown is paused the time that is left stands still, and
/// resuming it at any later time leaves what was left when it was paused.
pub proof fn lemma_pause_is_not_counted(timer: GameTimer, paused_at: u64, later: u64, resumed_at: u64)
    requires
        timer.is_running,
        !timer.is_expired,
        timer.paused_at.is_none(),
        timer.start_time <= paused_at <= later <= resumed_at,
        timer.elapsed_paused <= paused_at - timer.start_time,
    ensures
        timer.paused(paused_at).remaining_at(later) == timer.remaining_at(paused_at),
        timer.paused(paused_at).resumed(resumed_at).remaining_at(resumed_at)
            == timer.remaining_at(paused_at),
{
}

/// The character of a digit.
pub open spec fn digit_char(d: nat) -> char {
    if d == 0 {
        '0'
    } else if d == 1 {
        '1'
    } else if d == 2 {
        '2'
    } else if d == 3 {
        '3'
    } else if d == 4 {
        '4'
    } else if d == 5 {
        '5'
    } else if d == 6 {
        '6'
    } else if d == 7 {
        '7'
    } else if d == 8 {
        '8'
    } else {
        '9'
    }
}

/// A number in decimal digits.
pub open spec fn decimal(n: nat) -> Seq<char>
    decreases n,
{
    if n < 10 {
        seq![digit_char(n)]
    } else {
        decimal(n / 10).push(digit_char(n % 10))
    }
}

/// A number with its sign in decimal digits.
pub open spec fn signed_decimal(n: int) -> Seq<char> {
    if n < 0 {
        seq!['-'] + decimal((-n) as nat)
    } else {
        decimal(n as nat)
    }
}

/// A time in milliseconds as seconds with two decimals, rounded half up,
/// with at least two digits before the point.
pub open spec fn seconds_text(millis: nat) -> Seq<char> {
    let hundredths = (millis + 5) / 10;
    let seconds = hundredths / 100;
    (if seconds < 10 {
        seq!['0']
    } else {
        Seq::<char>::empty()
    }) + decimal(seconds) + seq!['.', digit_char((hundredths % 100) / 10), digit_char(hundredths % 10)]
}

/// The display of a level.
pub open spec fn level_text(level: i32) -> Seq<char> {
    "Level: "@ + signed_decimal(level as int)
}

/// The display of a score.
pub open spec fn score_text(score: u32) -> Seq<char> {
    "Score: "@ + decimal(score as nat)
}

fn digit_text(d: u64) -> (text: &'static str)
    requires
        d < 10,
    ensures
        text@ == seq![digit_char(d as nat)],
{
    proof {
        reveal_strlit("0");
        reveal_strlit("1");
        reveal_strlit("2");
        reveal_strlit("3");
        reveal_strlit("4");
        reveal_strlit("5");
        reveal_strlit("6");
        reveal_strlit("7");
        reveal_strlit("8");
        reveal_strlit("9");
    }
    let text = if d == 0 {
        "0"
    } else if d == 1 {
        "1"
    } else if d == 2 {
        "2"
    } else if d == 3 {
        "3"
    } else if d == 4 {
        "4"
    } else if d == 5 {
        "5"
    } else if d == 6 {
        "6"
    } else if d == 7 {
        "7"
    } else if d == 8 {
        "8"
    } else {
        "9"
    };
    assert(text@ =~= seq![digit_char(d as nat)]);
    text
}

fn push_decimal(out: &mut String, n: u64)
    ensures
        final(out)@ == old(out)@ + decimal(n as nat),
    decreases n,
{
    if n >= 10 {
        push_decimal(out, n / 10);
    }
    out.append(digit_text(n % 10));
    proof {
        if n >= 10 {
            assert(out@ =~= old(out)@ + decimal(n as nat));
        } else {
            assert(out@ =~= old(out)@ + decimal(n as nat));
        }
    }
}

/// A time in milliseconds as seconds with two decimals.
pub fn format_seconds(millis: u64) -> (text: String)
    ensures
        text@ == seconds_text(millis as nat),
{
    let hundredths: u64 = millis / 10 + (if millis % 10 >= 5 {
        1
    } else {
        0
    });
    let seconds: u64 = hundredths / 100;
    let mut text = String::new();
    if seconds < 10 {
        text.append("0");
    }
    push_decimal(&mut text, seconds);
    text.append(".");
    text.append(digit_text((hundredths % 100) / 10));
    text.append(digit_text(hundredths % 10));
    proof {
        reveal_strlit("0");
        reveal_strlit(".");
        assert(text@ =~= seconds_text(millis as nat));
    }
    text
}

/// The display of a level.
pub fn format_level(level: i32) -> (text: String)
    ensures
        text@ == level_text(level),
{
    let mut text = String::from_str("Level: ");
    if level < 0 {
        text.append("-");
        push_decimal(&mut text, (-(level as i64)) as u64);
    } else {
        push_decimal(&mut text, level as u64);
    }
    proof {
        reveal_strlit("-");
        assert(text@ =~= level_text(level));
    }
    text
}

/// The display of a score.
pub fn format_score(score: u32) -> (text: String)
    ensures
        text@ == score_text(score),
{
    let mut text = String::from_str("Score: ");
    push_decimal(&mut text, score as u64);
    text
}

/// The countdown, the level and the score of a game.
#[derive(Clone, Copy, Debug, PartialEq, Eq, Structural)]
pub struct GameUIManager {
    pub timer: Option<GameTimer>,
    pub level: i32,
    pub score: u32,
}

impl Default for GameUIManager {
    fn default() -> (out: Self)
        ensures
            out == (GameUIManager { timer: None, level: 1, score: 0 }),
    {
        GameUIManager::new()
    }
}

impl GameUIManager {
    /// The text of the countdown at `now`: nothing left where there is no
    /// countdown.
    pub open spec fn timer_text_at(self, now: u64) -> Seq<char> {
        match self.timer {
            Some(t) => seconds_text(t.remaining_at(now) as nat),
            None => "00.00"@,
        }
    }

    /// The colour of the countdown at `now`: white where there is no
    /// countdown.
    pub open spec fn timer_color_at(self, now: u64) -> Color {
        match self.timer {
            Some(t) => t.color_at(now),
            None => Color { r: 255, g: 255, b: 255, a: 255 },
        }
    }

    /// The game after `update_timer` at `now`.
    pub open spec fn updated(self, now: u64) -> GameUIManager {
        match self.timer {
            Some(t) => GameUIManager { timer: Some(t.updated(now)), ..self },
            None => self,
        }
    }

    /// A game at level one with no score and no countdown.
    pub fn new() -> (out: Self)
        ensures
            out == (GameUIManager { timer: None, level: 1, score: 0 }),
    {
        GameUIManager { timer: None, level: 1, score: 0 }
    }

    /// Starts a new countdown, with the default configuration where none
    /// is given.
    pub fn start_timer(&mut self, config: Option<TimerConfig>, now: u64)
        ensures
            *final(self) == (GameUIManager {
                timer: Some(
                    GameTimer::fresh(
                        match config {
                            Some(c) => c,
                            None => default_timer_config(),
                        },
                        now,
                    ).started(now),
                ),
                ..*old(self)
            }),
    {
        let config = match config {
            Some(c) => c,
            None => TimerConfig::default(),
        };
        let mut timer = GameTimer::new(config, now);
        timer.start(now);
        self.timer = Some(timer);
    }

    /// Stops the countdown, where there is one.
    pub fn stop_timer(&mut self)
        ensures
            *final(self) == (GameUIManager {
                timer: match old(self).timer {
                    Some(t) => Some(GameTimer { is_running: false, ..t }),
                    None => None,
                },
                ..*old(self)
            }),
    {
        match self.timer {
            Some(timer) => {
                let mut timer = timer;
                timer.stop();
                self.timer = Some(timer);
            },
            None => {},
        }
    }

    /// Starts the countdown anew, where there is one.
    pub fn reset_timer(&mut self, now: u64)
        ensures
            *final(self) == (GameUIManager {
                timer: match old(self).timer {
                    Some(t) => Some(t.reset_at(now).started(now)),
                    None => None,
                },
                ..*old(self)
            }),
    {
        match self.timer {
            Some(timer) => {
                let mut timer = timer;
                timer.reset(now);
                timer.start(now);
                self.timer = Some(timer);
            },
            None => {},
        }
    }

    /// Looks at the clock. Returns whether the countdown ran out just now.
    pub fn update_timer(&mut self, now: u64) -> (just_expired: bool)
        ensures
            *final(self) == old(self).updated(now),
            just_expired == match old(self).timer {
                Some(t) => t.ticks() && !t.is_expired && t.remaining_at(now) == 0,
                None => false,
            },
    {
        match self.timer {
            Some(timer) => {
                let mut timer = timer;
                let just_expired = timer.update(now);
                self.timer = Some(timer);
                just_expired
            },
            None => false,
        }
    }

    /// Whether there is a countdown and it has run out.
    pub fn is_timer_expired(&self, now: u64) -> (expired: bool)
        ensures
            expired == match self.timer {
                Some(t) => t.is_expired || !t.is_running,
                None => false,
            },
    {
        match &self.timer {
            Some(timer) => timer.is_expired(now),
            None => false,
        }
    }

    /// The text of the countdown.
    pub fn get_timer_text(&self, now: u64) -> (text: String)
        ensures
            text@ == self.timer_text_at(now),
    {
        match &self.timer {
            Some(timer) => timer.format_time(now),
            None => String::from_str("00.00"),
        }
    }

    /// The colour of the countdown.
    pub fn get_timer_color(&self, now: u64) -> (color: Color)
        ensures
            color == self.timer_color_at(now),
    {
        match &self.timer {
            Some(timer) => timer.get_current_color(now),
            None => Color::rgb(255, 255, 255),
        }
    }

    /// Sets the level.
    pub fn set_level(&mut self, level: i32)
        ensures
            *final(self) == (GameUIManager { level, ..*old(self) }),
    {
        self.level = level;
    }

    /// The level.
    pub fn get_level(&self) -> (level: i32)
        ensures
            level == self.level,
    {
        self.level
    }

    /// The display of the level.
    pub fn get_level_text(&self) -> (text: String)
        ensures
            text@ == level_text(self.level),
    {
        format_level(self.level)
    }

    /// Sets the score.
    pub fn set_score(&mut self, score: u32)
        ensures
            *final(self) == (GameUIManager { score, ..*old(self) }),
    {
        self.score = score;
    }

    /// The score.
    pub fn get_score(&self) -> (score: u32)
        ensures
            score == self.score,
    {
        self.score
    }

    /// The display of the score.
    pub fn get_score_text(&self) -> (text: String)
        ensures
            text@ == score_text(self.score),
    {
        format_score(self.score)
    }

    /// Pauses the countdown, where there is one.
    pub fn pause_timer(&mut self, now: u64)
        ensures
            *final(self) == (GameUIManager {
                timer: match old(self).timer {
                    Some(t) => Some(t.paused(now)),
                    None => None,
                },
                ..*old(self)
            }),
    {
        match self.timer {
            Some(timer) => {
                let mut timer = timer;
                timer.pause(now);
                self.timer = Some(timer);
            },
            None => {},
        }
    }

    /// Lets the countdown go on, where there is one.
    pub fn resume_timer(&mut self, now: u64)
        ensures
            *final(self) == (GameUIManager {
                timer: match old(self).timer {
                    Some(t) => Some(t.resumed(now)),
                    None => None,
                },
                ..*old(self)
            }),
    {
        match self.timer {
            Some(timer) => {
                let mut timer = timer;
                timer.resume(now);
                self.timer = Some(timer);
            },
            None => {},
        }
    }
}

/// A key that the game listens to.
#[derive(Clone, Copy, Debug, PartialEq, Eq, Structural)]
pub enum GameKey {
    /// Toggles the pause.
    Escape,
    /// Opens the upgrade menu.
    Upgrade,
    /// Any other key.
    Other,
}

/// The state of a game in progress.
#[derive(Debug)]
pub struct GameState {
    /// The time of the last frame.
    pub last_frame_time: u64,
    /// The time between the last two frames.
    pub delta_time: u64,
    /// The number of frames since the start.
    pub frame_count: u32,
    pub current_fps: u32,
    /// The time when the frames were last counted.
    pub last_fps_time: u64,
    /// The maze that is loaded, if any.
    pub maze_path: Option<String>,
    pub capture_mouse: bool,
    pub exit_reached: bool,
    pub game_ui: GameUIManager,
    pub current_screen: CurrentScreen,
    pub test_mode: bool,
}

/// What a game keeps besides its countdown, level and score.
pub struct GameFrame {
    pub last_frame_time: u64,
    pub delta_time: u64,
    pub frame_count: u32,
    pub current_fps: u32,
    pub last_fps_time: u64,
    pub maze_path: Option<String>,
    pub capture_mouse: bool,
    pub exit_reached: bool,
    pub current_screen: CurrentScreen,
    pub test_mode: bool,
}

impl GameState {
    /// What the game keeps besides its countdown, level and score.
    pub open spec fn frame(self) -> GameFrame {
        GameFrame {
            last_frame_time: self.last_frame_time,
            delta_time: self.delta_time,
            frame_count: self.frame_count,
            current_fps: self.current_fps,
            last_fps_time: self.last_fps_time,
            maze_path: self.maze_path,
            capture_mouse: self.capture_mouse,
            exit_reached: self.exit_reached,
            current_screen: self.current_screen,
            test_mode: self.test_mode,
        }
    }

    /// A game that is loading, at level one with no score and no
    /// countdown.
    pub fn new(now: u64) -> (state: Self)
        ensures
            state.last_frame_time == now,
            state.delta_time == 0,
            state.frame_count == 0,
            state.current_fps == 0,
            state.last_fps_time == now,
            state.maze_path.is_none(),
            state.capture_mouse,
            !state.exit_reached,
            state.game_ui == (GameUIManager { timer: None, level: 1, score: 0 }),
            state.current_screen == CurrentScreen::Loading,
            !state.test_mode,
    {
        GameState {
            last_frame_time: now,
            delta_time: 0,
            frame_count: 0,
            current_fps: 0,
            last_fps_time: now,
            maze_path: None,
            capture_mouse: true,
            exit_reached: false,
            game_ui: GameUIManager::new(),
            current_screen: CurrentScreen::Loading,
            test_mode: false,
        }
    }

    /// Starts the countdown of the game.
    pub fn start_game_timer(&mut self, config: Option<TimerConfig>, now: u64)
        ensures
            final(self).game_ui == (GameUIManager {
                timer: Some(
                    GameTimer::fresh(
                        match config {
                            Some(c) => c,
                            None => default_timer_config(),
                        },
                        now,
                    ).started(now),
                ),
                ..old(self).game_ui
            }),
            final(self).frame() == old(self).frame(),
    {
        self.game_ui.start_timer(config, now);
    }

    /// Stops the countdown of the game.
    pub fn stop_game_timer(&mut self)
        ensures
            final(self).game_ui == (GameUIManager {
                timer: match old(self).game_ui.timer {
                    Some(t) => Some(GameTimer { is_running: false, ..t }),
                    None => None,
                },
                ..old(self).game_ui
            }),
            final(self).frame() == old(self).frame(),
    {
        self.game_ui.stop_timer();
    }

    /// Starts the countdown of the game anew.
    pub fn reset_game_timer(&mut self, now: u64)
        ensures
            final(self).game_ui == (GameUIManager {
                timer: match old(self).game_ui.timer {
                    Some(t) => Some(t.reset_at(now).started(now)),
                    None => None,
                },
                ..old(self).game_ui
            }),
            final(self).frame() == old(self).frame(),
    {
        self.game_ui.reset_timer(now);
    }

    /// Whether the countdown of the game has run out.
    pub fn is_game_timer_expired(&self, now: u64) -> (expired: bool)
        ensures
            expired == match self.game_ui.timer {
                Some(t) => t.is_expired || !t.is_running,
                None => false,
            },
    {
        self.game_ui.is_timer_expired(now)
    }

    /// Sets the level of the game.
    pub fn set_level(&mut self, level: i32)
        ensures
            final(self).game_ui == (GameUIManager { level, ..old(self).game_ui }),
            final(self).frame() == old(self).frame(),
    {
        self.game_ui.set_level(level);
    }

    /// Sets the score of the game.
    pub fn set_score(&mut self, score: u32)
        ensures
            final(self).game_ui == (GameUIManager { score, ..old(self).game_ui }),
            final(self).frame() == old(self).frame(),
    {
        self.game_ui.set_score(score);
    }

    /// Takes a key. Escape leaves the pause for the game and lets the
    /// countdown go on, or enters the pause from any other screen and
    /// pauses the countdown; the upgrade key opens the upgrade menu.
    /// Returns whether the window is to be drawn again.
    pub fn handle_key(&mut self, key: GameKey, now: u64) -> (redraw: bool)
        ensures
            redraw == (key != GameKey::Other),
            final(self).frame() == (GameFrame {
                current_screen: final(self).current_screen,
                ..old(self).frame()
            }),
            final(self).current_screen == match key {
                GameKey::Escape => if old(self).current_screen == CurrentScreen::Pause {
                    CurrentScreen::Game
                } else {
                    CurrentScreen::Pause
                },
                GameKey::Upgrade => CurrentScreen::Upgrade,
                GameKey::Other => old(self).current_screen,
            },
            final(self).game_ui == (GameUIManager {
                timer: match old(self).game_ui.timer {
                    Some(t) => Some(
                        match key {
                            GameKey::Escape => if old(self).current_screen == CurrentScreen::Pause {
                                t.resumed(now)
                            } else {
                                t.paused(now)
                            },
                            _ => t,
                        },
                    ),
                    None => None,
                },
                ..old(self).game_ui
            }),
    {
        match key {
            GameKey::Escape => {
                if self.current_screen == CurrentScreen::Pause {
                    self.current_screen = CurrentScreen::Game;
                    self.game_ui.resume_timer(now);
                } else {
                    self.current_screen = CurrentScreen::Pause;
                    self.game_ui.pause_timer(now);
                }
                true
            },
            GameKey::Upgrade => {
                self.current_screen = CurrentScreen::Upgrade;
                true
            },
            GameKey::Other => false,
        }
    }

    /// Carries out what a click in the pause menu asked for. Resuming
    /// shows the game and lets the countdown go on; toggling the test mode
    /// does so. Returns whether the application is to quit.
    pub fn apply_pause_action(&mut self, action: PauseMenuAction, now: u64) -> (quit: bool)
        ensures
            quit == (action == PauseMenuAction::QuitToMenu),
            final(self).frame() == (GameFrame {
                current_screen: final(self).current_screen,
                test_mode: final(self).test_mode,
                ..old(self).frame()
            }),
            final(self).current_screen == if action == PauseMenuAction::Resume {
                CurrentScreen::Game
            } else {
                old(self).current_screen
            },
            final(self).test_mode == if action == PauseMenuAction::ToggleTestMode {
                !old(self).test_mode
            } else {
                old(self).test_mode
            },
            final(self).game_ui == if action == PauseMenuAction::Resume {
                GameUIManager {
                    timer: match old(self).game_ui.timer {
                        Some(t) => Some(t.resumed(now)),
                        None => None,
                    },
                    ..old(self).game_ui
                }
            } else {
                old(self).game_ui
            },
    {
        match action {
            PauseMenuAction::Resume => {
                self.current_screen = CurrentScreen::Game;
                self.game_ui.resume_timer(now);
                false
            },
            PauseMenuAction::ToggleTestMode => {
                self.test_mode = !self.test_mode;
                false
            },
            PauseMenuAction::QuitToMenu => true,
            _ => false,
        }
    }
}

/// The size of the countdown's font, its line height and its box, by the
/// size of the window in pixels: large from a width of 1920, medium from a
/// width of 1600 or a height of 900, else small.
pub open spec fn timer_sizes(window: WindowSize) -> (i32, i32, i32, i32) {
    if window.width >= 1920 {
        (80000i32, 100000i32, 300000i32, 120000i32)
    } else if window.width >= 1600 || window.height >= 900 {
        (60000i32, 76000i32, 200000i32, 80000i32)
    } else {
        (48000i32, 60000i32, 150000i32, 60000i32)
    }
}

/// The size of the font of the level and the score, its line height and
/// its box: larger from a width of 1600 or a height of 900.
pub open spec fn label_sizes(window: WindowSize) -> (i32, i32, i32, i32) {
    if window.width >= 1600 || window.height >= 900 {
        (24000i32, 28000i32, 160000i32, 32000i32)
    } else {
        (18000i32, 22000i32, 120000i32, 25000i32)
    }
}

/// A style in the bundled family.
pub open spec fn display_style(sizes: (i32, i32, i32, i32), color: Color, weight: u16) -> TextStyleView {
    TextStyleView {
        font_family: "HankenGrotesk"@,
        font_size: sizes.0,
        line_height: sizes.1,
        color,
        weight,
        style: Slant::Normal,
    }
}

/// Where the countdown stands: at the top, its box starting four elevenths
/// of its width left of the middle of the window.
pub open spec fn timer_position(window: WindowSize) -> TextPosition {
    let sizes = timer_sizes(window);
    TextPosition {
        x: stored(pixels(window.width as int) / 2 - (sizes.2 * 4) / 11),
        y: 10000,
        max_width: Some(sizes.2),
        max_height: Some(sizes.3),
    }
}

/// Where a label stands: twenty pixels from the left, `y` from the top.
pub open spec fn label_position(window: WindowSize, y: i32) -> TextPosition {
    let sizes = label_sizes(window);
    TextPosition { x: 20000, y, max_width: Some(sizes.2), max_height: Some(sizes.3) }
}

/// The engine with the displays of the countdown, the level and the score.
pub open spec fn game_ui_initialized(
    text: TextRendererView,
    game_ui: GameUIManager,
    window: WindowSize,
    now: u64,
) -> TextRendererView {
    text.created(
        "main_timer"@,
        game_ui.timer_text_at(now),
        Some(display_style(timer_sizes(window), Color { r: 100, g: 255, b: 100, a: 255 }, 700)),
        Some(timer_position(window)),
    ).created(
        "level"@,
        level_text(game_ui.level),
        Some(display_style(label_sizes(window), Color { r: 255, g: 255, b: 150, a: 255 }, 400)),
        Some(label_position(window, 20000)),
    ).created(
        "score"@,
        score_text(game_ui.score),
        Some(display_style(label_sizes(window), Color { r: 150, g: 255, b: 255, a: 255 }, 400)),
        Some(label_position(window, 50000)),
    )
}

/// The engine with the text of a block replaced and its style applied
/// anew; unchanged where no block has that name.
pub open spec fn content_updated(text: TextRendererView, id: Seq<char>, content: Seq<char>) -> TextRendererView {
    if text.has(id) {
        text.with_text(id, content).restyled(id, text.buffer(id).style)
    } else {
        text
    }
}

/// The engine with a block in another colour; unchanged where no block has
/// that name.
pub open spec fn recolored(text: TextRendererView, id: Seq<char>, color: Color) -> TextRendererView {
    if text.has(id) {
        text.restyled(id, TextStyleView { color, ..text.buffer(id).style })
    } else {
        text
    }
}

/// The engine with the displays brought up to date.
pub open spec fn game_ui_updated(text: TextRendererView, game_ui: GameUIManager, now: u64) -> TextRendererView {
    content_updated(
        content_updated(
            recolored(
                content_updated(text, "main_timer"@, game_ui.timer_text_at(now)),
                "main_timer"@,
                game_ui.timer_color_at(now),
            ),
            "level"@,
            level_text(game_ui.level),
        ),
        "score"@,
        score_text(game_ui.score),
    )
}

fn make_display_style(sizes: (i32, i32, i32, i32), color: Color, weight: u16) -> (style: TextStyle)
    ensures
        style@ == display_style(sizes, color, weight),
{
    TextStyle {
        font_family: String::from_str("HankenGrotesk"),
        font_size: sizes.0,
        line_height: sizes.1,
        color,
        weight,
        style: Slant::Normal,
    }
}

/// Creates the displays of the countdown, the level and the score for a
/// window of the given size.
pub fn initialize_game_ui(
    text_renderer: &mut TextRenderer,
    game_ui: &GameUIManager,
    window: WindowSize,
    now: u64,
)
    ensures
        final(text_renderer)@ == game_ui_initialized(old(text_renderer)@, *game_ui, window, now),
{
    let timer: (i32, i32, i32, i32) = if window.width >= 1920 {
        (80000, 100000, 300000, 120000)
    } else if window.width >= 1600 || window.height >= 900 {
        (60000, 76000, 200000, 80000)
    } else {
        (48000, 60000, 150000, 60000)
    };
    let label: (i32, i32, i32, i32) = if window.width >= 1600 || window.height >= 900 {
        (24000, 28000, 160000, 32000)
    } else {
        (18000, 22000, 120000, 25000)
    };
    let timer_text = game_ui.get_timer_text(now);
    text_renderer.create_text_buffer(
        "main_timer",
        timer_text.as_str(),
        Some(make_display_style(timer, Color::rgb(100, 255, 100), 700)),
        Some(
            TextPosition {
                x: store(half(from_pixels(window.width)) - (timer.2 as i64 * 4) / 11),
                y: 10000,
                max_width: Some(timer.2),
                max_height: Some(timer.3),
            },
        ),
    );
    let level = game_ui.get_level_text();
    text_renderer.create_text_buffer(
        "level",
        level.as_str(),
        Some(make_display_style(label, Color::rgb(255, 255, 150), 400)),
        Some(
            TextPosition {
                x: 20000,
                y: 20000,
                max_width: Some(label.2),
                max_height: Some(label.3),
            },
        ),
    );
    let score = game_ui.get_score_text();
    text_renderer.create_text_buffer(
        "score",
        score.as_str(),
        Some(make_display_style(label, Color::rgb(150, 255, 255), 400)),
        Some(
            TextPosition {
                x: 20000,
                y: 50000,
                max_width: Some(label.2),
                max_height: Some(label.3),
            },
        ),
    );
}

/// Replaces the text of a block and applies its style anew. Fails,
/// changing nothing, exactly where no block has that name.
pub fn update_text_content(text_renderer: &mut TextRenderer, id: &str, new_text: &str) -> (result:
    Result<(), String>)
    ensures
        final(text_renderer)@ == content_updated(old(text_renderer)@, id@, new_text@),
        result.is_ok() == old(text_renderer)@.has(id@),
        match result {
            Ok(_) => true,
            Err(msg) => msg@ == not_found_message(id@),
        },
{
    match text_renderer.find(id) {
        Some(i) => {
            let style = text_renderer.text_buffers[i].buffer.style.clone();
            text_renderer.set_text(id, new_text);
            proof {
                crate::text::lemma_with_entry(
                    old(text_renderer)@.text_buffers,
                    id@,
                    crate::text::TextBufferView {
                        text_content: new_text@,
                        ..old(text_renderer)@.buffer(id@)
                    },
                );
            }
            text_renderer.update_style(id, style)
        },
        None => {
            let mut message = String::from_str("Text buffer '");
            message.append(id);
            message.append("' not found");
            Err(message)
        },
    }
}

/// Looks at the clock and brings the displays of the countdown, the level
/// and the score up to date. Returns whether the countdown ran out just
/// now.
pub fn update_game_ui(
    text_renderer: &mut TextRenderer,
    game_ui: &mut GameUIManager,
    _current_screen: &CurrentScreen,
    now: u64,
) -> (just_expired: bool)
    ensures
        *final(game_ui) == old(game_ui).updated(now),
        final(text_renderer)@ == game_ui_updated(
            old(text_renderer)@,
            old(game_ui).updated(now),
            now,
        ),
        just_expired == match old(game_ui).timer {
            Some(t) => t.ticks() && !t.is_expired && t.remaining_at(now) == 0,
            None => false,
        },
{
    let just_expired = game_ui.update_timer(now);
    let timer_text = game_ui.get_timer_text(now);
    let _ = update_text_content(text_renderer, "main_timer", timer_text.as_str());
    match text_renderer.find("main_timer") {
        Some(i) => {
            let mut style = text_renderer.text_buffers[i].buffer.style.clone();
            style.color = game_ui.get_timer_color(now);
            let _ = text_renderer.update_style("main_timer", style);
        },
        None => {},
    }
    let level = game_ui.get_level_text();
    let _ = update_text_content(text_renderer, "level", level.as_str());
    let score = game_ui.get_score_text();
    let _ = update_text_content(text_renderer, "score", score.as_str());
    just_expired
}

} // verus!
