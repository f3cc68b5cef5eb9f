//! Pipes: how they enter at the right edge, scroll to the left and leave.

use crate::rng::{draw_byte, draw_in_range};
use rand::rngs::ThreadRng;
use vstd::prelude::*;

verus! {

/// Columns a pipe covers.
pub const PIPE_WIDTH: u16 = 3;

/// Rows of a pipe's gap.
pub const PIPE_GAP_HEIGHT: u16 = 6;

/// Columns a pipe moves to the left per tick.
pub const PIPE_VEL: u16 = 1;

/// Rows kept free above the first and below the last row on which a gap may
/// start.
pub const GAP_MARGIN: u16 = 2;

/// The one value of the byte drawn each tick on which a pipe is spawned: a
/// chance of 1 in 256.
pub const SPAWN_BYTE: u8 = 1;

/// A pipe: a column of [`PIPE_WIDTH`] cells from the top of the window to its
/// bottom, open on the [`PIPE_GAP_HEIGHT`] rows that start at `gap_y`. `x` is
/// its leftmost column.
#[derive(Clone, Copy, Debug, PartialEq, Eq, Structural)]
pub struct Pipe {
    pub x: u16,
    pub gap_y: u16,
}

impl Pipe {
    /// The pipe one tick later: [`PIPE_VEL`] columns further left, and at
    /// column 0 where it had fewer than that to go.
    pub open spec fn scrolled(self) -> Pipe {
        Pipe {
            x: if self.x >= PIPE_VEL {
                (self.x - PIPE_VEL) as u16
            } else {
                0
            },
            gap_y: self.gap_y,
        }
    }

    /// The pipe in another column.
    pub open spec fn at_column(self, x: int) -> Pipe {
        Pipe { x: x as u16, gap_y: self.gap_y }
    }

    /// The pipe is still in the stream after a scroll: it has not reached
    /// column 0.
    pub open spec fn stays(self) -> bool {
        self.x > 0
    }

    /// Moves the pipe by one tick.
    pub fn scroll(&mut self)
        ensures
            *final(self) == old(self).scrolled(),
    {
        self.x = self.x.saturating_sub(PIPE_VEL);
    }
}

/// One tick of the stream: every pipe scrolls, then those that reached
/// column 0 are dropped. The others keep their order.
pub open spec fn scroll_and_prune(pipes: Seq<Pipe>) -> Seq<Pipe> {
    pipes.map_values(|p: Pipe| p.scrolled()).filter(|p: Pipe| p.stays())
}

/// `n` ticks of the stream.
pub open spec fn scroll_and_prune_times(pipes: Seq<Pipe>, n: nat) -> Seq<Pipe>
    decreases n,
{
    if n == 0 {
        pipes
    } else {
        scroll_and_prune(scroll_and_prune_times(pipes, (n - 1) as nat))
    }
}

/// Ticks after which a pipe that starts in column `x` has left the stream:
/// `x / PIPE_VEL`, rounded up.
pub open spec fn ticks_to_leave(x: int) -> int {
    (x + PIPE_VEL - 1) / (PIPE_VEL as int)
}

/// What one more pipe at the end of the stream adds to the next tick's
/// stream.
pub proof fn lemma_scroll_and_prune_push(pipes: Seq<Pipe>, pipe: Pipe)
    ensures
        scroll_and_prune(pipes.push(pipe)) == if pipe.scrolled().stays() {
            scroll_and_prune(pipes).push(pipe.scrolled())
        } else {
            scroll_and_prune(pipes)
        },
{
    let scroll = |p: Pipe| p.scrolled();
    assert(pipes.push(pipe).map_values(scroll).drop_last() == pipes.map_values(scroll));
    reveal_with_fuel(Seq::filter, 2);
}

/// Scrolls every pipe by one tick and drops those that reached column 0,
/// keeping the order of the rest.
pub fn update_pipes(pipes: Vec<Pipe>) -> (kept: Vec<Pipe>)
    ensures
        kept@ == scroll_and_prune(pipes@),
{
    let mut kept: Vec<Pipe> = Vec::new();
    let mut i: usize = 0;
    while i < pipes.len()
        invariant
            i <= pipes.len(),
            kept@ == scroll_and_prune(pipes@.take(i as int)),
        decreases pipes.len() - i,
    {
        let mut pipe = pipes[i];
        pipe.scroll();
        proof {
            lemma_scroll_and_prune_push(pipes@.take(i as int), pipes@[i as int]);
            assert(pipes@.take(i + 1) == pipes@.take(i as int).push(pipes@[i as int]));
        }
        if pipe.x > 0 {
            kept.push(pipe);
        }
        i += 1;
    }
    proof {
        assert(pipes@.take(pipes.len() as int) == pipes@);
    }
    kept
}

/// A scroll never moves a pipe to the right, and moves every pipe that has
/// not reached column 0 to the left.
pub proof fn lemma_scroll_moves_left(pipe: Pipe)
    ensures
        pipe.scrolled().x <= pipe.x,
        pipe.x > 0 ==> pipe.scrolled().x < pipe.x,
        pipe.scrolled().gap_y == pipe.gap_y,
{
}

/// Two streams side by side go through a tick as each would alone.
pub proof fn lemma_scroll_and_prune_concat(left: Seq<Pipe>, right: Seq<Pipe>)
    ensures
        scroll_and_prune(left + right) == scroll_and_prune(left) + scroll_and_prune(right),
{
    let scroll = |p: Pipe| p.scrolled();
    let stays = |p: Pipe| p.stays();
    assert((left + right).map_values(scroll) == left.map_values(scroll) + right.map_values(
        scroll,
    ));
    Seq::filter_distributes_over_add(left.map_values(scroll), right.map_values(scroll), stays);
}

/// Two streams side by side go through any number of ticks as each would
/// alone: what becomes of a pipe does not depend on the pipes around it.
pub proof fn lemma_streams_independent(left: Seq<Pipe>, right: Seq<Pipe>, n: nat)
    ensures
        scroll_and_prune_times(left + right, n) == scroll_and_prune_times(left, n)
            + scroll_and_prune_times(right, n),
    decreases n,
{
    if n > 0 {
        let m = (n - 1) as nat;
        lemma_streams_independent(left, right, m);
        lemma_scroll_and_prune_concat(
            scroll_and_prune_times(left, m),
            scroll_and_prune_times(right, m),
        );
    }
}

/// Fewer than `ticks_to_leave(x)` scrolls are exactly those that leave a pipe
/// short of column 0.
proof fn lemma_ticks_to_leave(x: int, n: int)
    requires
        x >= 0,
        n >= 0,
    ensures
        n < ticks_to_leave(x) <==> n * PIPE_VEL < x,
{
    let vel = PIPE_VEL as int;
    assert(vel > 0 ==> (n < (x + vel - 1) / vel <==> n * vel < x)) by (nonlinear_arith)
        requires
            x >= 0,
            n >= 0,
    ;
}

/// A pipe that starts in column `x > 0` is in the stream, `n * PIPE_VEL`
/// columns further left, after each of the first `ticks_to_leave(x) - 1`
/// ticks, and is gone from the tick `ticks_to_leave(x)` on. Its column
/// falls with every tick and never goes below 0.
pub proof fn lemma_pipe_leaves_on_time(pipe: Pipe, n: nat)
    requires
        pipe.x > 0,
    ensures
        n < ticks_to_leave(pipe.x as int) ==> 0 < pipe.x - n * PIPE_VEL && scroll_and_prune_times(
            seq![pipe],
            n,
        ) == seq![pipe.at_column(pipe.x - n * PIPE_VEL)],
        n >= ticks_to_leave(pipe.x as int) ==> scroll_and_prune_times(seq![pipe], n)
            == Seq::<Pipe>::empty(),
    decreases n,
{
    lemma_ticks_to_leave(pipe.x as int, n as int);
    if n > 0 {
        let m = (n - 1) as nat;
        lemma_pipe_leaves_on_time(pipe, m);
        lemma_ticks_to_leave(pipe.x as int, m as int);
        assert(n * PIPE_VEL == m * PIPE_VEL + PIPE_VEL) by (nonlinear_arith)
            requires
                n == m + 1,
        ;
        if m < ticks_to_leave(pipe.x as int) {
            lemma_scroll_and_prune_push(Seq::empty(), pipe.at_column(pipe.x - m * PIPE_VEL));
        }
    }
}

/// The same for a pipe anywhere in a stream: the pipes before it and after
/// it change neither the ticks it stays nor the column it is in.
pub proof fn lemma_pipe_in_stream_leaves_on_time(
    before: Seq<Pipe>,
    pipe: Pipe,
    after: Seq<Pipe>,
    n: nat,
)
    requires
        pipe.x > 0,
    ensures
        n < ticks_to_leave(pipe.x as int) ==> scroll_and_prune_times(
            before + seq![pipe] + after,
            n,
        ) == scroll_and_prune_times(before, n) + seq![pipe.at_column(pipe.x - n * PIPE_VEL)]
            + scroll_and_prune_times(after, n),
        n >= ticks_to_leave(pipe.x as int) ==> scroll_and_prune_times(
            before + seq![pipe] + after,
            n,
        ) == scroll_and_prune_times(before, n) + scroll_and_prune_times(after, n),
{
    lemma_pipe_leaves_on_time(pipe, n);
    lemma_streams_independent(before, seq![pipe], n);
    lemma_streams_independent(before + seq![pipe], after, n);
}

/// Every pipe of the stream stands to the left of the one after it: the
/// order of the stream is the order on the screen.
pub open spec fn ascending(pipes: Seq<Pipe>) -> bool {
    forall|i: int, j: int| 0 <= i < j < pipes.len() ==> pipes[i].x < pipes[j].x
}

/// Every pipe of the stream stands to the left of column `bound`.
pub open spec fn all_left_of(pipes: Seq<Pipe>, bound: int) -> bool {
    forall|i: int| 0 <= i < pipes.len() ==> (#[trigger] pipes[i]).x < bound
}

/// A tick keeps a stream from left to right in that order, and moves its
/// right end [`PIPE_VEL`] columns to the left.
pub proof fn lemma_scroll_and_prune_keeps_order(pipes: Seq<Pipe>, bound: int)
    requires
        ascending(pipes),
        all_left_of(pipes, bound),
    ensures
        ascending(scroll_and_prune(pipes)),
        all_left_of(scroll_and_prune(pipes), bound - PIPE_VEL),
    decreases pipes.len(),
{
    if pipes.len() > 0 {
        let rest = pipes.drop_last();
        let last = pipes.last();
        assert(pipes == rest.push(last));
        lemma_scroll_and_prune_keeps_order(rest, last.x as int);
        lemma_scroll_and_prune_push(rest, last);
    }
}

/// One past the last row on which a gap may start in a window
/// `window_width` columns wide.
///
/// The bound is taken from the window's width, although the gap's start is a
/// row. In a window wider than it is high, a gap may therefore start below
/// the last row, and such a pipe is closed from top to bottom.
pub open spec fn gap_limit(window_width: int) -> int {
    window_width - PIPE_GAP_HEIGHT - GAP_MARGIN
}

/// There is at least one row on which a gap may start.
pub open spec fn has_room(window_width: int) -> bool {
    GAP_MARGIN < gap_limit(window_width)
}

/// `pipe` is one that a spawn in a window of this width may produce: it
/// stands at the right edge, and its gap starts in
/// `[GAP_MARGIN, gap_limit(window_width))`.
pub open spec fn spawnable(window_width: int, pipe: Pipe) -> bool {
    &&& pipe.x == window_width
    &&& GAP_MARGIN <= pipe.gap_y < gap_limit(window_width)
}

/// Decides the spawn trial of one tick from the byte that was drawn for it.
///
/// A pipe is due when the byte is [`SPAWN_BYTE`] and the window has room for
/// a gap; the result is then the half-open range of rows from which the
/// gap's start is to be drawn. Otherwise nothing is spawned this tick.
pub fn spawn_trial(window_width: u16, byte: u8) -> (rows: Option<(u16, u16)>)
    ensures
        rows is Some <==> byte == SPAWN_BYTE && has_room(window_width as int),
        rows matches Some((low, high)) ==> low == GAP_MARGIN && high == gap_limit(
            window_width as int,
        ),
{
    if byte != SPAWN_BYTE || window_width <= PIPE_GAP_HEIGHT + 2 * GAP_MARGIN {
        return None;
    }
    Some((GAP_MARGIN, window_width - PIPE_GAP_HEIGHT - GAP_MARGIN))
}

/// Runs the spawn trial of one tick: draws a byte and, where
/// [`spawn_trial`] finds a pipe due, the row of its gap.
///
/// Whatever is drawn, a pipe that comes back stands at the right edge with
/// its gap inside the allowed rows, and none comes back in a window without
/// room for a gap.
pub fn maybe_spawn(window_width: u16, rng: &mut ThreadRng) -> (spawned: Option<Pipe>)
    ensures
        spawned matches Some(pipe) ==> spawnable(window_width as int, pipe),
        !has_room(window_width as int) ==> spawned is None,
{
    let byte: u8 = draw_byte(rng);
    match spawn_trial(window_width, byte) {
        None => None,
        Some((low, high)) => {
            let gap_y: u16 = draw_in_range(rng, low, high);
            Some(Pipe { x: window_width, gap_y })
        },
    }
}

} // verus!
