//! The collision rule between the bird and the pipes.

use crate::bird::{Bird, BIRD_HEIGHT, BIRD_WIDTH};
use crate::pipe::{Pipe, PIPE_GAP_HEIGHT, PIPE_WIDTH};
use crate::screen::{bird_covers, pipe_covers};
use vstd::prelude::*;

verus! {

/// The bird overlaps the body of a pipe.
#[derive(Clone, Copy, Debug, PartialEq, Eq, Structural)]
pub struct PipeCollision;

/// The half-open spans `[a, a + a_len)` and `[b, b + b_len)` share a point.
pub open spec fn spans_overlap(a: int, a_len: int, b: int, b_len: int) -> bool {
    &&& a_len > 0
    &&& b_len > 0
    &&& a < b + b_len
    &&& b < a + a_len
}

/// The half-open span `[a, a + a_len)` lies entirely within
/// `[b, b + b_len)`.
pub open spec fn span_within(a: int, a_len: int, b: int, b_len: int) -> bool {
    a_len > 0 ==> b <= a && a + a_len <= b + b_len
}

/// The bird collides with the pipe: its columns overlap the pipe's columns,
/// and its rows are not all rows of the pipe's gap.
pub open spec fn hits(bird: Bird, pipe: Pipe) -> bool {
    &&& spans_overlap(bird.x as int, BIRD_WIDTH as int, pipe.x as int, PIPE_WIDTH as int)
    &&& !span_within(bird.y as int, BIRD_HEIGHT as int, pipe.gap_y as int, PIPE_GAP_HEIGHT as int)
}

/// The bird collides with at least one pipe of the stream.
pub open spec fn hits_any(bird: Bird, pipes: Seq<Pipe>) -> bool {
    exists|i: int| 0 <= i < pipes.len() && hits(bird, #[trigger] pipes[i])
}

/// Some cell is covered both by the bird and by the body of the pipe.
pub open spec fn share_a_cell(bird: Bird, pipe: Pipe) -> bool {
    exists|row: int, col: int| #[trigger]
        bird_covers(bird, row, col) && pipe_covers(pipe, row, col)
}

/// The collision rule and the frame agree: the bird collides with a pipe
/// exactly when, drawn without the window's borders, the two would share a
/// cell.
pub proof fn lemma_hits_iff_share_a_cell(bird: Bird, pipe: Pipe)
    ensures
        hits(bird, pipe) <==> share_a_cell(bird, pipe),
{
    if hits(bird, pipe) {
        let col = if bird.x >= pipe.x {
            bird.x as int
        } else {
            pipe.x as int
        };
        let row = if bird.y < pipe.gap_y {
            bird.y as int
        } else {
            bird.y + BIRD_HEIGHT - 1
        };
        assert(bird_covers(bird, row, col) && pipe_covers(pipe, row, col));
    }
}

/// Whether two half-open spans, each given by its start and its length,
/// share a point.
pub fn overlaps(a: u16, a_len: u16, b: u16, b_len: u16) -> (shared: bool)
    ensures
        shared == spans_overlap(a as int, a_len as int, b as int, b_len as int),
{
    a_len > 0 && b_len > 0 && (a as u32) < b as u32 + b_len as u32 && (b as u32) < a as u32
        + a_len as u32
}

/// Whether the first half-open span lies entirely within the second, each
/// given by its start and its length.
pub fn within(a: u16, a_len: u16, b: u16, b_len: u16) -> (inside: bool)
    ensures
        inside == span_within(a as int, a_len as int, b as int, b_len as int),
{
    a_len == 0 || (b <= a && a as u32 + a_len as u32 <= b as u32 + b_len as u32)
}

/// Whether the bird collides with the pipe.
pub fn collides(bird: &Bird, pipe: &Pipe) -> (hit: bool)
    ensures
        hit == hits(*bird, *pipe),
{
    overlaps(bird.x, BIRD_WIDTH, pipe.x, PIPE_WIDTH) && !within(
        bird.y,
        BIRD_HEIGHT,
        pipe.gap_y,
        PIPE_GAP_HEIGHT,
    )
}

/// Tests the bird against every pipe of the stream, and fails exactly when
/// it collides with one of them.
pub fn check_pipes(bird: &Bird, pipes: &Vec<Pipe>) -> (result: Result<(), PipeCollision>)
    ensures
        result is Err <==> hits_any(*bird, pipes@),
{
    let mut i: usize = 0;
    while i < pipes.len()
        invariant
            i <= pipes.len(),
            forall|j: int| 0 <= j < i ==> !hits(*bird, #[trigger] pipes@[j]),
        decreases pipes.len() - i,
    {
        if collides(bird, &pipes[i]) {
            return Err(PipeCollision);
        }
        i += 1;
    }
    Ok(())
}

} // verus!
