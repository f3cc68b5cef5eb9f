//! The game loop's decisions: what one tick does to the bird, the pipes and
//! the frame, and when the game is over.
//!
//! The caller owns the terminal and the clock. Once per tick it polls for a
//! key for at most [`TICK_MILLIS`], hands what it got to [`Game::tick`],
//! and does what the [`Action`] that comes back says: shows the frame and
//! sleeps for [`remaining_wait`], or leaves the last frame up for
//! [`HOLD_MILLIS`] and stops, or stops at once.

use crate::bird::{Bird, BIRD_HEIGHT, GRAVITY};
use crate::collision::{check_pipes, hits_any};
use crate::pipe::{
    all_left_of, ascending, has_room, lemma_scroll_and_prune_keeps_order, maybe_spawn,
    scroll_and_prune, spawnable, update_pipes, Pipe,
};
use crate::screen::{frame, render, Screen};
use rand::rngs::ThreadRng;
use vstd::prelude::*;

verus! {

/// Length of one tick in milliseconds. Polling for a key takes at most this
/// long, and a tick that got its key sooner sleeps for the rest.
pub const TICK_MILLIS: u64 = 25;

/// Milliseconds for which the last frame stays up after the bird has died.
pub const HOLD_MILLIS: u64 = 2000;

/// The character whose key makes the bird jump.
pub const JUMP_KEY: char = ' ';

/// A key press, as far as the game tells keys apart.
#[derive(Clone, Copy, Debug, PartialEq, Eq, Structural)]
pub enum Key {
    /// The escape key.
    Esc,
    /// A key that types a character.
    Char(char),
    /// Any other key.
    Other,
}

/// What the player asked for during one tick.
#[derive(Clone, Copy, Debug, PartialEq, Eq, Structural)]
pub enum Input {
    /// Nothing.
    Idle,
    /// A jump.
    Jump,
    /// The end of the game.
    Quit,
}

/// Why a game is over.
#[derive(Clone, Copy, Debug, PartialEq, Eq, Structural)]
pub enum Cause {
    /// The player quit.
    Quit,
    /// The bird touched the ground.
    GroundCollision,
    /// The bird hit a pipe.
    PipeCollision,
}

/// The state of the loop.
#[derive(Clone, Copy, Debug, PartialEq, Eq, Structural)]
pub enum Status {
    Running,
    Terminated(Cause),
}

/// What the caller is to do once a tick is played.
#[derive(Clone, Copy, Debug, PartialEq, Eq, Structural)]
pub enum Action {
    /// Show the frame, sleep for the rest of the tick and play the next one.
    Continue,
    /// Show the frame, leave it up for [`HOLD_MILLIS`] and stop: the bird
    /// has died.
    HoldAndStop,
    /// Stop at once: the player quit, or the game was over before, and the
    /// tick drew no frame.
    Stop,
}

/// A game in a window of fixed size.
pub struct Game {
    pub window_width: u16,
    pub window_height: u16,
    pub bird: Bird,
    /// The pipes in the order in which they were spawned.
    pub pipes: Vec<Pipe>,
    pub status: Status,
}

/// A game as a value: the model that the contracts speak of.
pub struct GameState {
    pub window_width: u16,
    pub window_height: u16,
    pub bird: Bird,
    pub pipes: Seq<Pipe>,
    pub status: Status,
}

impl GameState {
    /// The same game with another bird.
    pub open spec fn with_bird(self, bird: Bird) -> GameState {
        GameState { bird, ..self }
    }

    /// The same game with another status.
    pub open spec fn with_status(self, status: Status) -> GameState {
        GameState { status, ..self }
    }
}

impl View for Game {
    type V = GameState;

    open spec fn view(&self) -> GameState {
        GameState {
            window_width: self.window_width,
            window_height: self.window_height,
            bird: self.bird,
            pipes: self.pipes@,
            status: self.status,
        }
    }
}

/// What a key press, or none, asks for: escape quits, [`JUMP_KEY`] jumps,
/// and everything else is passed over.
pub open spec fn input_of(key: Option<Key>) -> Input {
    match key {
        Some(Key::Esc) => Input::Quit,
        Some(Key::Char(c)) => if c == JUMP_KEY {
            Input::Jump
        } else {
            Input::Idle
        },
        _ => Input::Idle,
    }
}

/// The game at its start: the bird at rest, centred vertically, and no pipe.
pub open spec fn initial(window_width: u16, window_height: u16) -> GameState {
    GameState {
        window_width,
        window_height,
        bird: Bird {
            x: crate::bird::BIRD_WIDTH,
            y: crate::bird::spawn_row(window_height as int) as u16,
            y_vel: 0,
        },
        pipes: Seq::empty(),
        status: Status::Running,
    }
}

/// A tick goes beyond the input: the game was running, and the player did not
/// quit. Only such a tick draws a frame.
pub open spec fn plays(state: GameState, input: Input) -> bool {
    state.status == Status::Running && input != Input::Quit
}

/// The first half of a tick, which leads to the frame that is shown: a
/// jump, if one was asked for, and the new pipe, if one was spawned.
pub open spec fn prepared(state: GameState, input: Input, spawned: Option<Pipe>) -> GameState {
    GameState {
        bird: if input == Input::Jump {
            state.bird.jumped()
        } else {
            state.bird
        },
        pipes: match spawned {
            Some(pipe) => state.pipes.push(pipe),
            None => state.pipes,
        },
        ..state
    }
}

/// The second half of a tick, on the state that was shown. A bird that
/// overlaps a pipe, or that would fall below the floor, ends the game where
/// it is. Otherwise the bird moves, and the pipes scroll.
pub open spec fn settled(shown: GameState) -> GameState {
    if hits_any(shown.bird, shown.pipes) {
        GameState { status: Status::Terminated(Cause::PipeCollision), ..shown }
    } else if shown.bird.touches_ground(shown.window_height as int) {
        GameState { status: Status::Terminated(Cause::GroundCollision), ..shown }
    } else {
        GameState { bird: shown.bird.fallen(), pipes: scroll_and_prune(shown.pipes), ..shown }
    }
}

/// One tick. A game that is over stays as it is. A request to quit ends the
/// game at once. Otherwise the tick is played in its two halves.
pub open spec fn step(state: GameState, input: Input, spawned: Option<Pipe>) -> GameState {
    if state.status != Status::Running {
        state
    } else if input == Input::Quit {
        GameState { status: Status::Terminated(Cause::Quit), ..state }
    } else {
        settled(prepared(state, input, spawned))
    }
}

/// What the screen shows after a tick: the frame of the state between the
/// tick's two halves, or, where the tick drew nothing, what it showed
/// before.
pub open spec fn shown_after(
    before: Seq<Seq<crate::screen::Cell>>,
    width: nat,
    height: nat,
    state: GameState,
    input: Input,
    spawned: Option<Pipe>,
) -> Seq<Seq<crate::screen::Cell>> {
    if plays(state, input) {
        let shown = prepared(state, input, spawned);
        frame(shown.bird, shown.pipes, width, height)
    } else {
        before
    }
}

/// What the caller is to do after this tick.
pub open spec fn action_of(state: GameState, input: Input, spawned: Option<Pipe>) -> Action {
    if !plays(state, input) {
        Action::Stop
    } else if step(state, input, spawned).status == Status::Running {
        Action::Continue
    } else {
        Action::HoldAndStop
    }
}

/// What a spawn trial in a window of this width may hand to a tick: nothing,
/// or, if the window has room for a gap, a pipe at the right edge with its
/// gap in the allowed rows.
pub open spec fn may_spawn(window_width: u16, spawned: Option<Pipe>) -> bool {
    spawned matches Some(pipe) ==> has_room(window_width as int) && spawnable(
        window_width as int,
        pipe,
    )
}

/// `n` ticks in a row on which the player does nothing and no pipe is
/// spawned.
pub open spec fn idle_ticks(state: GameState, n: nat) -> GameState
    decreases n,
{
    if n == 0 {
        state
    } else {
        step(idle_ticks(state, (n - 1) as nat), Input::Idle, None)
    }
}

/// Ticks for which a bird at rest in row `y` falls before the floor of a
/// window `window_height` rows high stops it.
pub open spec fn ticks_in_the_air(y: int, window_height: int) -> int {
    (window_height - BIRD_HEIGHT - y) / (GRAVITY as int)
}

/// A bird that fits the window at the start of a tick fits it at the end,
/// whatever the tick brings.
pub proof fn lemma_bird_stays_in_window(state: GameState, input: Input, spawned: Option<Pipe>)
    requires
        state.bird.in_window(state.window_height as int),
    ensures
        step(state, input, spawned).bird.in_window(state.window_height as int),
        step(state, input, spawned).window_width == state.window_width,
        step(state, input, spawned).window_height == state.window_height,
{
}

/// A game that is over stays as it is, and a running game that a tick ends
/// keeps the bird and the pipes that its last frame shows.
pub proof fn lemma_last_frame_is_final(state: GameState, input: Input, spawned: Option<Pipe>)
    ensures
        state.status != Status::Running ==> step(state, input, spawned) == state,
        plays(state, input) && step(state, input, spawned).status != Status::Running ==> {
            &&& step(state, input, spawned).bird == prepared(state, input, spawned).bird
            &&& step(state, input, spawned).pipes == prepared(state, input, spawned).pipes
        },
{
}

/// The pipes stand from left to right in the order of their spawning, and,
/// while the game runs, all of them to the left of the window's right edge.
pub open spec fn in_order(state: GameState) -> bool {
    &&& ascending(state.pipes)
    &&& state.status == Status::Running ==> all_left_of(state.pipes, state.window_width as int)
}

/// A new game has its pipes in order.
pub proof fn lemma_new_game_in_order(window_width: u16, window_height: u16)
    ensures
        in_order(initial(window_width, window_height)),
{
}

/// A tick whose new pipe, if any, is one that the spawn trial may hand to
/// it keeps the pipes in order.
pub proof fn lemma_pipes_stay_in_order(state: GameState, input: Input, spawned: Option<Pipe>)
    requires
        in_order(state),
        may_spawn(state.window_width, spawned),
    ensures
        in_order(step(state, input, spawned)),
{
    if plays(state, input) {
        lemma_scroll_and_prune_keeps_order(
            prepared(state, input, spawned).pipes,
            state.window_width + 1,
        );
    }
}

/// Free fall: with no jump and no pipe, a bird at rest in row `y` falls
/// [`GRAVITY`] rows on each of the next `ticks_in_the_air(y, window_height)`
/// ticks, and the tick after those ends the game on the ground, with the
/// bird where the last of them left it.
pub proof fn lemma_free_fall(state: GameState, n: nat)
    requires
        state.status == Status::Running,
        state.pipes.len() == 0,
        state.bird.y_vel == 0,
        state.bird.in_window(state.window_height as int),
    ensures
        n <= ticks_in_the_air(state.bird.y as int, state.window_height as int) ==> idle_ticks(
            state,
            n,
        ) == state.with_bird(state.bird.at_row(state.bird.y + n * GRAVITY)),
        n > ticks_in_the_air(state.bird.y as int, state.window_height as int) ==> idle_ticks(
            state,
            n,
        ) == state.with_bird(
            state.bird.at_row(
                state.bird.y + ticks_in_the_air(state.bird.y as int, state.window_height as int)
                    * GRAVITY,
            ),
        ).with_status(Status::Terminated(Cause::GroundCollision)),
    decreases n,
{
    let room = state.window_height - BIRD_HEIGHT - state.bird.y;
    let air = ticks_in_the_air(state.bird.y as int, state.window_height as int);
    let g = GRAVITY as int;
    assert(g > 0 ==> 0 <= air * g <= room < air * g + g) by (nonlinear_arith)
        requires
            room >= 0,
            air == room / g,
    ;
    if n > 0 {
        let m = (n - 1) as nat;
        lemma_free_fall(state, m);
        assert(n * g == m * g + g) by (nonlinear_arith)
            requires
                n == m + 1,
        ;
        assert(scroll_and_prune(state.pipes) == state.pipes);
        if m < air {
            assert(m * g + g <= air * g) by (nonlinear_arith)
                requires
                    m < air,
                    g > 0,
            ;
        }
    }
}

/// Reads a key press, or none, as the player's request.
pub fn input_for_key(key: Option<Key>) -> (input: Input)
    ensures
        input == input_of(key),
{
    match key {
        Some(Key::Esc) => Input::Quit,
        Some(Key::Char(c)) => if c == JUMP_KEY {
            Input::Jump
        } else {
            Input::Idle
        },
        _ => Input::Idle,
    }
}

/// Milliseconds that are left of a tick of which `elapsed_millis` have gone
/// by: none, if the tick is used up.
pub fn remaining_wait(elapsed_millis: u64) -> (wait: u64)
    ensures
        elapsed_millis <= TICK_MILLIS ==> wait == TICK_MILLIS - elapsed_millis,
        elapsed_millis > TICK_MILLIS ==> wait == 0,
{
    TICK_MILLIS.saturating_sub(elapsed_millis)
}

impl Game {
    /// A new game in a window of the given size.
    pub fn new(window_width: u16, window_height: u16) -> (game: Game)
        ensures
            game@ == initial(window_width, window_height),
    {
        Game {
            window_width,
            window_height,
            bird: Bird::spawn(window_height),
            pipes: Vec::new(),
            status: Status::Running,
        }
    }

    /// Whether the game goes on.
    pub fn is_running(&self) -> (running: bool)
        ensures
            running == (self.status == Status::Running),
    {
        match self.status {
            Status::Running => true,
            Status::Terminated(_) => false,
        }
    }

    /// Plays one tick of which the spawn trial's outcome is given, and draws
    /// its frame on `screen`.
    ///
    /// The game becomes [`step`] of what it was, and what is returned tells
    /// the caller how to go on. The frame is drawn between the tick's two
    /// halves, so it shows the jump and the new pipe, and the bird and the
    /// pipes where they were when the tick began. A tick that ends the game
    /// by a collision leaves both there: the frame on the screen is the one
    /// in which the bird died.
    pub fn advance(&mut self, input: Input, spawned: Option<Pipe>, screen: &mut Screen) -> (action:
        Action)
        ensures
            final(self)@ == step(old(self)@, input, spawned),
            action == action_of(old(self)@, input, spawned),
            final(screen).spec_width() == old(screen).spec_width(),
            final(screen).spec_height() == old(screen).spec_height(),
            final(screen)@ == shown_after(
                old(screen)@,
                old(screen).spec_width() as nat,
                old(screen).spec_height() as nat,
                old(self)@,
                input,
                spawned,
            ),
    {
        if !self.is_running() {
            return Action::Stop;
        }
        match input {
            Input::Quit => {
                self.status = Status::Terminated(Cause::Quit);
                return Action::Stop;
            },
            Input::Jump => {
                self.bird.jump();
            },
            Input::Idle => {},
        }
        match spawned {
            Some(pipe) => {
                self.pipes.push(pipe);
            },
            None => {},
        }
        render(screen, &self.bird, &self.pipes);
        if check_pipes(&self.bird, &self.pipes).is_err() {
            self.status = Status::Terminated(Cause::PipeCollision);
            return Action::HoldAndStop;
        }
        if self.bird.update_height(self.window_height).is_err() {
            self.status = Status::Terminated(Cause::GroundCollision);
            return Action::HoldAndStop;
        }
        let mut scrolled: Vec<Pipe> = Vec::new();
        core::mem::swap(&mut scrolled, &mut self.pipes);
        self.pipes = update_pipes(scrolled);
        Action::Continue
    }

    /// Plays one tick: runs the spawn trial on `rng`, then [`Game::advance`]
    /// with its outcome.
    ///
    /// Whatever the trial drew, the tick was a [`step`] with an outcome that
    /// the trial allows. A game that is over, and a tick on which the player
    /// quits, draw nothing from `rng`.
    pub fn tick(&mut self, input: Input, rng: &mut ThreadRng, screen: &mut Screen) -> (action:
        Action)
        ensures
            final(screen).spec_width() == old(screen).spec_width(),
            final(screen).spec_height() == old(screen).spec_height(),
            exists|spawned: Option<Pipe>|
                {
                    &&& may_spawn(old(self).window_width, spawned)
                    &&& final(self)@ == #[trigger] step(old(self)@, input, spawned)
                    &&& action == action_of(old(self)@, input, spawned)
                    &&& final(screen)@ == shown_after(
                        old(screen)@,
                        old(screen).spec_width() as nat,
                        old(screen).spec_height() as nat,
                        old(self)@,
                        input,
                        spawned,
                    )
                },
    {
        let spawned: Option<Pipe> = if self.is_running() && input != Input::Quit {
            maybe_spawn(self.window_width, rng)
        } else {
            None
        };
        self.advance(input, spawned, screen)
    }
}

} // verus!
