//! The game state machine: menu, run and end screen.
//!
//! A tick takes the microseconds since the last tick and the key that was
//! pressed, if any. It moves the state on and hands back the frame to draw.

use crate::config::{FRAME_DURATION, SCREEN_HEIGHT, SCREEN_WIDTH, START_ROW, START_X};
use crate::display::{Color, Draw, Key, Text};
use crate::obstacle::{Obstacle, ObstacleView};
use crate::player::{Player, PlayerView};
use vstd::prelude::*;

verus! {

/// Which of its three screens the game is on.
#[derive(Clone, Copy, Debug, PartialEq, Eq, Structural)]
pub enum GameMode {
    Menu,
    Playing,
    End,
}

/// What one tick asks of the outside: the commands to draw, in order, and
/// whether the player asked to leave.
pub struct Frame {
    pub draws: Vec<Draw>,
    pub quit: bool,
}

/// The game as a mathematical value.
pub struct StateView {
    pub player: PlayerView,
    /// Microseconds gathered since the last physics step.
    pub frame_time: int,
    pub mode: GameMode,
    pub obstacle: ObstacleView,
    /// Obstacles passed in this run.
    pub score: int,
}

impl StateView {
    /// The state at the start of a run, on the given screen: the player at
    /// rest in its start position, the first obstacle one screen width from
    /// column zero and made for score zero, no score and no time gathered.
    pub open spec fn fresh(mode: GameMode) -> StateView {
        StateView {
            player: PlayerView::start(START_X as int, START_ROW as int),
            frame_time: 0,
            mode,
            obstacle: ObstacleView::spawned(SCREEN_WIDTH, 0),
            score: 0,
        }
    }

    /// The state the game starts in: a fresh run behind the menu.
    pub open spec fn initial() -> StateView {
        Self::fresh(GameMode::Menu)
    }

    /// The state after a restart: a fresh run under way.
    pub open spec fn restarted() -> StateView {
        Self::fresh(GameMode::Playing)
    }

    /// What every reachable state satisfies.
    pub open spec fn wf(self) -> bool {
        &&& self.player.wf()
        &&& self.obstacle.wf()
        // Time gathered beyond the duration of a frame is spent on a step at once.
        &&& 0 <= self.frame_time <= FRAME_DURATION
        &&& 0 <= self.score
        // Each obstacle stands more than a screen beyond the one before.
        &&& SCREEN_WIDTH * (self.score + 1) <= self.obstacle.x <= i32::MAX
        // The obstacle is never behind the player nor more than a screen ahead.
        &&& self.player.x <= self.obstacle.x <= self.player.x + SCREEN_WIDTH
        &&& 0 <= self.player.y
        // A run is over as soon as the player is below the last row.
        &&& self.mode == GameMode::Playing ==> self.player.row() <= SCREEN_HEIGHT
    }

    /// There is room for the next tick: during a run the next obstacle, a
    /// screen ahead of the player's next column, has a representable column.
    pub open spec fn can_tick(self) -> bool {
        self.mode == GameMode::Playing ==> self.player.x + SCREEN_WIDTH < i32::MAX
    }

    /// The state after a key on the menu or on the end screen: the play key
    /// starts a run, anything else changes nothing.
    pub open spec fn chosen(self, key: Option<Key>) -> StateView {
        if key == Some(Key::Play) {
            Self::restarted()
        } else {
            self
        }
    }

    /// Whether a key on the menu or on the end screen asks to leave.
    pub open spec fn quits(key: Option<Key>) -> bool {
        key == Some(Key::Quit)
    }

    /// The frame of the menu.
    pub open spec fn menu_frame() -> Seq<Draw> {
        seq![
            Draw::Clear,
            Draw::PrintCentered { row: 5, text: Text::Welcome },
            Draw::PrintCentered { row: 8, text: Text::Play },
            Draw::PrintCentered { row: 9, text: Text::Quit },
        ]
    }

    /// The frame of the end screen.
    pub open spec fn end_frame(self) -> Seq<Draw> {
        seq![
            Draw::Clear,
            Draw::PrintCentered { row: 5, text: Text::GameOver },
            Draw::PrintCentered { row: 6, text: Text::FinalScore(self.score as i32) },
            Draw::PrintCentered { row: 8, text: Text::PlayAgain },
            Draw::PrintCentered { row: 9, text: Text::Quit },
        ]
    }

    /// Whether the time gathered, with `elapsed` added, exceeds the duration
    /// of a frame, so that a physics step is due.
    pub open spec fn step_due(self, elapsed: int) -> bool {
        self.frame_time + elapsed > FRAME_DURATION
    }

    /// First part of a tick of a run. The elapsed time is added to the time
    /// gathered; if a step is due, the time gathered starts again at zero and
    /// the player moves by one step. Then a flap key flaps, step or no step.
    pub open spec fn advanced(self, elapsed: int, key: Option<Key>) -> StateView {
        let due = self.step_due(elapsed);
        let moved = if due {
            self.player.moved()
        } else {
            self.player
        };
        StateView {
            player: if key == Some(Key::Flap) {
                moved.flapped()
            } else {
                moved
            },
            frame_time: if due {
                0
            } else {
                self.frame_time + elapsed
            },
            ..self
        }
    }

    /// The frame of a run, drawn between the two parts of a tick: background,
    /// player, the two lines of text, then the wall as the player sees it.
    pub open spec fn play_frame(self) -> Seq<Draw> {
        seq![
            Draw::Fill(Color::Navy),
            self.player.glyph(),
            Draw::Print { column: 0, row: 0, text: Text::FlapHint },
            Draw::Print { column: 0, row: 1, text: Text::Score(self.score as i32) },
        ] + self.obstacle.walls(self.player.x)
    }

    /// The player has gone past the obstacle.
    pub open spec fn passed(self) -> bool {
        self.player.x > self.obstacle.x
    }

    /// Passing an obstacle scores a point and replaces the obstacle by one a
    /// screen width ahead of the player, made for the new score.
    pub open spec fn scored(self) -> StateView {
        if self.passed() {
            StateView {
                score: self.score + 1,
                obstacle: ObstacleView::spawned(
                    (self.player.x + SCREEN_WIDTH) as i32,
                    self.score + 1,
                ),
                ..self
            }
        } else {
            self
        }
    }

    /// The run is lost: the player is below the last row of the screen or has
    /// hit the obstacle.
    pub open spec fn lost(self) -> bool {
        self.player.row() > SCREEN_HEIGHT || self.obstacle.hits(self.player)
    }

    /// A lost run goes to the end screen.
    pub open spec fn judged(self) -> StateView {
        if self.lost() {
            StateView { mode: GameMode::End, ..self }
        } else {
            self
        }
    }

    /// One tick of a run.
    pub open spec fn played(self, elapsed: int, key: Option<Key>) -> StateView {
        self.advanced(elapsed, key).scored().judged()
    }

    /// One tick, whatever the screen.
    pub open spec fn ticked(self, elapsed: int, key: Option<Key>) -> StateView {
        match self.mode {
            GameMode::Menu => self.chosen(key),
            GameMode::End => self.chosen(key),
            GameMode::Playing => self.played(elapsed, key),
        }
    }

    /// The frame that a tick draws.
    pub open spec fn frame(self, elapsed: int, key: Option<Key>) -> Seq<Draw> {
        match self.mode {
            GameMode::Menu => Self::menu_frame(),
            GameMode::End => self.end_frame(),
            GameMode::Playing => self.advanced(elapsed, key).play_frame(),
        }
    }

    /// Whether a tick asks to leave the game.
    pub open spec fn leaves(self, key: Option<Key>) -> bool {
        self.mode != GameMode::Playing && Self::quits(key)
    }
}

/// The whole game: its screen, the player, the obstacle ahead and the score.
pub struct State {
    player: Player,
    frame_time: u64,
    mode: GameMode,
    obstacle: Obstacle,
    score: i32,
}

impl View for State {
    type V = StateView;

    closed spec fn view(&self) -> StateView {
        StateView {
            player: self.player@,
            frame_time: self.frame_time as int,
            mode: self.mode,
            obstacle: self.obstacle@,
            score: self.score as int,
        }
    }
}

impl State {
    #[verifier::type_invariant]
    spec fn inv(self) -> bool {
        self@.wf()
    }

    /// The game as it starts: on the menu.
    pub fn new() -> (state: State)
        ensures
            state@ == StateView::initial(),
            state@.wf(),
    {
        State::fresh(GameMode::Menu)
    }

    /// A run at its start, on the given screen.
    fn fresh(mode: GameMode) -> (state: State)
        ensures
            state@ == StateView::fresh(mode),
            state@.wf(),
    {
        State {
            player: Player::new(START_X, START_ROW),
            frame_time: 0,
            mode,
            score: 0,
            obstacle: Obstacle::new(SCREEN_WIDTH, 0),
        }
    }

    /// Starts a run afresh, whatever the state was: player, obstacle, score
    /// and time gathered are all replaced.
    pub fn restart(&mut self)
        ensures
            final(self)@ == StateView::restarted(),
            final(self)@.wf(),
    {
        *self = State::fresh(GameMode::Playing);
    }

    /// One tick on the menu: the play key starts a run, the quit key asks to
    /// leave, any other key or none changes nothing.
    pub fn main_menu(&mut self, key: Option<Key>) -> (frame: Frame)
        ensures
            final(self)@ == old(self)@.chosen(key),
            frame.draws@ == StateView::menu_frame(),
            frame.quit == StateView::quits(key),
            final(self)@.wf(),
    {
        let mut draws: Vec<Draw> = Vec::new();
        draws.push(Draw::Clear);
        draws.push(Draw::PrintCentered { row: 5, text: Text::Welcome });
        draws.push(Draw::PrintCentered { row: 8, text: Text::Play });
        draws.push(Draw::PrintCentered { row: 9, text: Text::Quit });
        let quit = self.act_on(key);
        Frame { draws, quit }
    }

    /// One tick on the end screen, which shows the score of the run: the play
    /// key starts the next run, the quit key asks to leave, any other key or
    /// none changes nothing.
    pub fn dead(&mut self, key: Option<Key>) -> (frame: Frame)
        ensures
            final(self)@ == old(self)@.chosen(key),
            frame.draws@ == old(self)@.end_frame(),
            frame.quit == StateView::quits(key),
            final(self)@.wf(),
    {
        let mut draws: Vec<Draw> = Vec::new();
        draws.push(Draw::Clear);
        draws.push(Draw::PrintCentered { row: 5, text: Text::GameOver });
        draws.push(Draw::PrintCentered { row: 6, text: Text::FinalScore(self.score) });
        draws.push(Draw::PrintCentered { row: 8, text: Text::PlayAgain });
        draws.push(Draw::PrintCentered { row: 9, text: Text::Quit });
        let quit = self.act_on(key);
        Frame { draws, quit }
    }

    /// Acts on a key of the menu or the end screen; the result says whether
    /// the key asks to leave.
    fn act_on(&mut self, key: Option<Key>) -> (quit: bool)
        ensures
            final(self)@ == old(self)@.chosen(key),
            quit == StateView::quits(key),
            final(self)@.wf(),
    {
        proof {
            use_type_invariant(&*self);
        }
        match key {
            Some(Key::Play) => {
                self.restart();
                false
            },
            Some(Key::Quit) => true,
            _ => false,
        }
    }

    /// One tick of a run. A physics step is taken when the time gathered
    /// exceeds the duration of a frame; a flap key flaps at once; the frame is
    /// drawn; a passed obstacle scores and is replaced; and the run ends when
    /// the player has fallen off the screen or hit the wall.
    pub fn play(&mut self, elapsed: u64, key: Option<Key>) -> (frame: Frame)
        requires
            old(self)@.mode == GameMode::Playing,
            old(self)@.can_tick(),
        ensures
            final(self)@ == old(self)@.played(elapsed as int, key),
            frame.draws@ == old(self)@.advanced(elapsed as int, key).play_frame(),
            !frame.quit,
            final(self)@.wf(),
    {
        proof {
            use_type_invariant(&*self);
        }
        let mut draws: Vec<Draw> = Vec::new();
        draws.push(Draw::Fill(Color::Navy));

        let mut player = self.player;
        let mut frame_time = self.frame_time;
        if elapsed > FRAME_DURATION || frame_time > FRAME_DURATION - elapsed {
            frame_time = 0;
            player.gravity_and_move();
        } else {
            frame_time = frame_time + elapsed;
        }
        match key {
            Some(Key::Flap) => {
                player.flap();
            },
            _ => {},
        }

        draws.push(player.render());
        draws.push(Draw::Print { column: 0, row: 0, text: Text::FlapHint });
        draws.push(Draw::Print { column: 0, row: 1, text: Text::Score(self.score) });
        let mut walls = self.obstacle.render(player.x_pos());
        draws.append(&mut walls);

        let mut score = self.score;
        let mut obstacle = self.obstacle;
        if player.x_pos() > obstacle.x_pos() {
            score = score + 1;
            obstacle = Obstacle::new(player.x_pos() + SCREEN_WIDTH, score);
        }
        let mode = if player.y_pos() > SCREEN_HEIGHT || obstacle.hit_obstacle(&player) {
            GameMode::End
        } else {
            GameMode::Playing
        };
        *self = State { player, frame_time, mode, obstacle, score };
        Frame { draws, quit: false }
    }

    /// One tick of the game: the menu, a run or the end screen, by the mode.
    pub fn tick(&mut self, elapsed: u64, key: Option<Key>) -> (frame: Frame)
        requires
            old(self)@.can_tick(),
        ensures
            final(self)@ == old(self)@.ticked(elapsed as int, key),
            frame.draws@ == old(self)@.frame(elapsed as int, key),
            frame.quit == old(self)@.leaves(key),
            final(self)@.wf(),
    {
        match self.mode {
            GameMode::Menu => self.main_menu(key),
            GameMode::End => self.dead(key),
            GameMode::Playing => self.play(elapsed, key),
        }
    }

    /// Whether there is room for the next tick.
    pub fn can_tick(&self) -> (ok: bool)
        ensures
            ok == self@.can_tick(),
    {
        match self.mode {
            GameMode::Playing => self.player.x_pos() < i32::MAX - SCREEN_WIDTH,
            _ => true,
        }
    }

    /// The screen the game is on.
    pub fn mode(&self) -> (mode: GameMode)
        ensures
            mode == self@.mode,
    {
        self.mode
    }

    /// Obstacles passed in this run.
    pub fn score(&self) -> (score: i32)
        ensures
            score == self@.score,
    {
        self.score
    }

    /// Microseconds gathered since the last physics step.
    pub fn frame_time(&self) -> (frame_time: u64)
        ensures
            frame_time == self@.frame_time,
    {
        self.frame_time
    }

    /// The player.
    pub fn player(&self) -> (player: &Player)
        ensures
            player@ == self@.player,
    {
        &self.player
    }

    /// The obstacle ahead.
    pub fn obstacle(&self) -> (obstacle: &Obstacle)
        ensures
            obstacle@ == self@.obstacle,
    {
        &self.obstacle
    }
}

/// Every tick that there is room for leads from a well-formed state to a
/// well-formed state.
pub proof fn tick_keeps_wf(state: StateView, elapsed: int, key: Option<Key>)
    requires
        state.wf(),
        state.can_tick(),
        0 <= elapsed,
    ensures
        state.ticked(elapsed, key).wf(),
{
}

/// The mode changes only for a cause: the menu and the end screen are left
/// only by the play key, and only for a run; a run is left only when it is
/// lost, and only for the end screen.
pub proof fn transitions_have_causes(state: StateView, elapsed: int, key: Option<Key>)
    ensures
        state.ticked(elapsed, key).mode != state.mode ==> match state.mode {
            GameMode::Menu => key == Some(Key::Play) && state.ticked(elapsed, key).mode
                == GameMode::Playing,
            GameMode::End => key == Some(Key::Play) && state.ticked(elapsed, key).mode
                == GameMode::Playing,
            GameMode::Playing => state.advanced(elapsed, key).scored().lost() && state.ticked(
                elapsed,
                key,
            ).mode == GameMode::End,
        },
{
}

/// A tick of a run that leaves the player below the last row of the screen
/// ends the run, whether the player has hit the obstacle or not.
pub proof fn fall_ends_run(state: StateView, elapsed: int, key: Option<Key>)
    requires
        state.mode == GameMode::Playing,
        state.advanced(elapsed, key).player.row() > SCREEN_HEIGHT,
    ensures
        state.ticked(elapsed, key).mode == GameMode::End,
{
}

/// A tick of a run scores at most one point, and exactly one when the player
/// has gone past the obstacle; the new obstacle then stands a screen width
/// ahead of the player. Otherwise score and obstacle stay as they are.
pub proof fn passing_scores_once(state: StateView, elapsed: int, key: Option<Key>)
    requires
        state.wf(),
        state.can_tick(),
        state.mode == GameMode::Playing,
    ensures
        state.advanced(elapsed, key).passed() ==> {
            &&& state.ticked(elapsed, key).score == state.score + 1
            &&& state.ticked(elapsed, key).obstacle.x == state.ticked(elapsed, key).player.x
                + SCREEN_WIDTH
        },
        !state.advanced(elapsed, key).passed() ==> {
            &&& state.ticked(elapsed, key).score == state.score
            &&& state.ticked(elapsed, key).obstacle == state.obstacle
        },
{
}

} // verus!
