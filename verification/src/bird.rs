//! The bird: its position, its vertical speed and the physics of one tick.

use vstd::prelude::*;

verus! {

/// Columns the bird covers.
pub const BIRD_WIDTH: u16 = 6;

/// Rows the bird covers.
pub const BIRD_HEIGHT: u16 = 2;

/// Upward speed that one jump adds.
pub const JUMP_STRENGTH: u16 = 4;

/// Rows the bird falls per tick before its upward speed is taken off.
pub const GRAVITY: u16 = 1;

/// The player's bird. `x` and `y` are the column and row of its top-left
/// cell; row 0 is the top of the window. `y_vel` is its upward speed in rows
/// per tick: it is never negative, falling is the work of [`GRAVITY`].
#[derive(Clone, Copy, Debug, PartialEq, Eq, Structural)]
pub struct Bird {
    pub x: u16,
    pub y: u16,
    pub y_vel: u16,
}

/// The bird's next fall would take it below the floor.
#[derive(Clone, Copy, Debug, PartialEq, Eq, Structural)]
pub struct BirdTouchedGround;

/// The row a new bird starts on: one above the middle of the room that is
/// left over its own height, and row 0 where the window is too low for that.
pub open spec fn spawn_row(window_height: int) -> int {
    if (window_height - BIRD_HEIGHT) / 2 - 1 >= 0 {
        (window_height - BIRD_HEIGHT) / 2 - 1
    } else {
        0
    }
}

impl Bird {
    /// The bird on another row.
    pub open spec fn at_row(self, y: int) -> Bird {
        Bird { x: self.x, y: y as u16, y_vel: self.y_vel }
    }

    /// The bird fits between the top of the window and its floor.
    pub open spec fn in_window(self, window_height: int) -> bool {
        self.y + BIRD_HEIGHT <= window_height
    }

    /// One more fall of [`GRAVITY`] rows would put the bird below the floor.
    pub open spec fn touches_ground(self, window_height: int) -> bool {
        self.y + GRAVITY > window_height - BIRD_HEIGHT
    }

    /// The bird after one tick in the air: it falls by [`GRAVITY`], rises by
    /// its speed, stops at row 0, and loses one unit of speed.
    pub open spec fn fallen(self) -> Bird {
        Bird {
            x: self.x,
            y: if self.y + GRAVITY - self.y_vel >= 0 {
                (self.y + GRAVITY - self.y_vel) as u16
            } else {
                0
            },
            y_vel: if self.y_vel >= 1 {
                (self.y_vel - 1) as u16
            } else {
                0
            },
        }
    }

    /// The bird after one jump: [`JUMP_STRENGTH`] more speed. Jumps add up
    /// without a limit of the game's own; the speed only stops at the largest
    /// number its type holds.
    pub open spec fn jumped(self) -> Bird {
        Bird {
            x: self.x,
            y: self.y,
            y_vel: if self.y_vel + JUMP_STRENGTH <= u16::MAX {
                (self.y_vel + JUMP_STRENGTH) as u16
            } else {
                u16::MAX
            },
        }
    }

    /// The bird after `n` jumps in a row.
    pub open spec fn jumped_times(self, n: nat) -> Bird
        decreases n,
    {
        if n == 0 {
            self
        } else {
            self.jumped_times((n - 1) as nat).jumped()
        }
    }

    /// A bird at rest in column [`BIRD_WIDTH`], centred vertically.
    pub fn spawn(window_height: u16) -> (bird: Bird)
        ensures
            bird.x == BIRD_WIDTH,
            bird.y == spawn_row(window_height as int),
            bird.y_vel == 0,
            window_height >= BIRD_HEIGHT ==> bird.in_window(window_height as int),
    {
        let room: u16 = window_height.saturating_sub(BIRD_HEIGHT);
        Bird { x: BIRD_WIDTH, y: (room / 2).saturating_sub(1), y_vel: 0 }
    }

    /// Adds one jump's worth of upward speed.
    pub fn jump(&mut self)
        ensures
            *final(self) == old(self).jumped(),
    {
        self.y_vel = self.y_vel.saturating_add(JUMP_STRENGTH);
    }

    /// Moves the bird by one tick, unless that would take it below the floor
    /// of a window `window_height` rows high.
    ///
    /// The floor is tested first, on the fall alone: if `y + GRAVITY` is
    /// greater than `window_height - BIRD_HEIGHT`, the bird has touched the
    /// ground and is left as it was. Otherwise it becomes [`Bird::fallen`].
    /// A speed greater than the fall does not fail: the bird stops at the top
    /// row.
    pub fn update_height(&mut self, window_height: u16) -> (result: Result<(), BirdTouchedGround>)
        ensures
            result is Err <==> old(self).touches_ground(window_height as int),
            result is Err ==> *final(self) == *old(self),
            result is Ok ==> *final(self) == old(self).fallen(),
            result is Ok ==> final(self).in_window(window_height as int),
    {
        if self.y as u32 + GRAVITY as u32 + BIRD_HEIGHT as u32 > window_height as u32 {
            return Err(BirdTouchedGround);
        }
        self.y = (self.y + GRAVITY).saturating_sub(self.y_vel);
        self.y_vel = self.y_vel.saturating_sub(1);
        Ok(())
    }
}

/// `n` jumps add `n` times [`JUMP_STRENGTH`] to the bird's speed and move
/// nothing else, as long as the sum fits the speed's type; beyond that the
/// speed stays at the type's largest value.
pub proof fn lemma_jumps_add_up(bird: Bird, n: nat)
    ensures
        bird.jumped_times(n).x == bird.x,
        bird.jumped_times(n).y == bird.y,
        bird.y_vel + n * JUMP_STRENGTH <= u16::MAX ==> bird.jumped_times(n).y_vel == bird.y_vel + n
            * JUMP_STRENGTH,
        bird.y_vel + n * JUMP_STRENGTH > u16::MAX ==> bird.jumped_times(n).y_vel == u16::MAX,
    decreases n,
{
    if n > 0 {
        lemma_jumps_add_up(bird, (n - 1) as nat);
    }
}

} // verus!
