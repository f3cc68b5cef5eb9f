//! The frame: a grid of cells that is drawn afresh from the bird and the
//! pipes on every tick.

use crate::bird::{Bird, BIRD_HEIGHT, BIRD_WIDTH};
use crate::pipe::{Pipe, PIPE_GAP_HEIGHT, PIPE_WIDTH};
use vstd::prelude::*;

verus! {

/// What one cell of the frame shows.
#[derive(Clone, Copy, Debug, PartialEq, Eq, Structural)]
pub enum Cell {
    /// Nothing: the background.
    Blank,
    /// A part of a pipe's body.
    Pipe,
    /// A part of the bird.
    Bird,
}

/// The body of `pipe` covers the cell: the column is one of the pipe's, and
/// the row is not one of its gap's.
pub open spec fn pipe_covers(pipe: Pipe, row: int, col: int) -> bool {
    &&& pipe.x <= col < pipe.x + PIPE_WIDTH
    &&& !(pipe.gap_y <= row < pipe.gap_y + PIPE_GAP_HEIGHT)
}

/// The bird covers the cell.
pub open spec fn bird_covers(bird: Bird, row: int, col: int) -> bool {
    &&& bird.x <= col < bird.x + BIRD_WIDTH
    &&& bird.y <= row < bird.y + BIRD_HEIGHT
}

/// Some pipe of the stream covers the cell.
pub open spec fn any_pipe_covers(pipes: Seq<Pipe>, row: int, col: int) -> bool {
    exists|i: int| 0 <= i < pipes.len() && pipe_covers(#[trigger] pipes[i], row, col)
}

/// What the frame of this bird and these pipes shows in one cell: the bird
/// before any pipe, a pipe before the background.
pub open spec fn cell_at(bird: Bird, pipes: Seq<Pipe>, row: int, col: int) -> Cell {
    if bird_covers(bird, row, col) {
        Cell::Bird
    } else if any_pipe_covers(pipes, row, col) {
        Cell::Pipe
    } else {
        Cell::Blank
    }
}

/// The frame of this bird and these pipes, `height` rows of `width` cells.
/// What lies outside the window is cut off.
pub open spec fn frame(bird: Bird, pipes: Seq<Pipe>, width: nat, height: nat) -> Seq<Seq<Cell>> {
    Seq::new(height, |row: int| Seq::new(width, |col: int| cell_at(bird, pipes, row, col)))
}

/// An empty frame.
pub open spec fn blank(width: nat, height: nat) -> Seq<Seq<Cell>> {
    Seq::new(height, |row: int| Seq::new(width, |col: int| Cell::Blank))
}

/// `cells` with `cell` in every place of the rectangle of the rows
/// `[top, bottom)` and the columns `[left, right)` that `cells` has.
pub open spec fn with_rect(
    cells: Seq<Seq<Cell>>,
    top: int,
    bottom: int,
    left: int,
    right: int,
    cell: Cell,
) -> Seq<Seq<Cell>> {
    Seq::new(
        cells.len(),
        |row: int|
            Seq::new(
                cells[row].len(),
                |col: int|
                    if top <= row < bottom && left <= col < right {
                        cell
                    } else {
                        cells[row][col]
                    },
            ),
    )
}

/// `cells` with the body of `pipe` drawn over them.
pub open spec fn with_pipe(cells: Seq<Seq<Cell>>, pipe: Pipe) -> Seq<Seq<Cell>> {
    Seq::new(
        cells.len(),
        |row: int|
            Seq::new(
                cells[row].len(),
                |col: int|
                    if pipe_covers(pipe, row, col) {
                        Cell::Pipe
                    } else {
                        cells[row][col]
                    },
            ),
    )
}

/// `cells` with every pipe of the stream drawn over them, in the stream's
/// order.
pub open spec fn with_pipes(cells: Seq<Seq<Cell>>, pipes: Seq<Pipe>) -> Seq<Seq<Cell>>
    decreases pipes.len(),
{
    if pipes.len() == 0 {
        cells
    } else {
        with_pipe(with_pipes(cells, pipes.drop_last()), pipes.last())
    }
}

/// `cells` with the bird drawn over them.
pub open spec fn with_bird(cells: Seq<Seq<Cell>>, bird: Bird) -> Seq<Seq<Cell>> {
    Seq::new(
        cells.len(),
        |row: int|
            Seq::new(
                cells[row].len(),
                |col: int|
                    if bird_covers(bird, row, col) {
                        Cell::Bird
                    } else {
                        cells[row][col]
                    },
            ),
    )
}

/// `cells` is a grid of `height` rows, each of `width` cells.
pub open spec fn is_grid(cells: Seq<Seq<Cell>>, width: nat, height: nat) -> bool {
    &&& cells.len() == height
    &&& forall|row: int| 0 <= row < cells.len() ==> (#[trigger] cells[row]).len() == width
}

/// A frame buffer of fixed size. It is kept between ticks only to save the
/// allocation: every [`render`] overwrites all of it.
pub struct Screen {
    width: u16,
    height: u16,
    rows: Vec<Vec<Cell>>,
}

/// The cells that a buffer of rows holds.
spec fn cells_of(rows: Seq<Vec<Cell>>) -> Seq<Seq<Cell>> {
    rows.map_values(|row: Vec<Cell>| row@)
}

impl View for Screen {
    type V = Seq<Seq<Cell>>;

    /// The cells, row by row from the top.
    closed spec fn view(&self) -> Seq<Seq<Cell>> {
        cells_of(self.rows@)
    }
}

impl Screen {
    /// Columns of the screen.
    pub closed spec fn spec_width(&self) -> u16 {
        self.width
    }

    /// Rows of the screen.
    pub closed spec fn spec_height(&self) -> u16 {
        self.height
    }

    /// The buffer holds every cell of the screen: as many rows as the screen
    /// is high, each as long as the screen is wide.
    #[verifier::type_invariant]
    spec fn inv(self) -> bool {
        is_grid(self@, self.width as nat, self.height as nat)
    }

    /// The cells form a grid of the screen's size. This holds of every
    /// screen, and the functions that read one or write to one say so.
    pub open spec fn wf(&self) -> bool {
        is_grid(self@, self.spec_width() as nat, self.spec_height() as nat)
    }

    /// An empty screen of the given size.
    pub fn new(width: u16, height: u16) -> (screen: Screen)
        ensures
            screen.wf(),
            screen.spec_width() == width,
            screen.spec_height() == height,
            screen@ == blank(width as nat, height as nat),
    {
        let mut rows: Vec<Vec<Cell>> = Vec::new();
        let mut r: u16 = 0;
        while r < height
            invariant
                r <= height,
                rows@.len() == r,
                forall|row: int|
                    0 <= row < r ==> (#[trigger] rows@[row])@ == Seq::new(
                        width as nat,
                        |col: int| Cell::Blank,
                    ),
            decreases height - r,
        {
            let mut line: Vec<Cell> = Vec::new();
            let mut c: u16 = 0;
            while c < width
                invariant
                    c <= width,
                    line@ == Seq::new(c as nat, |col: int| Cell::Blank),
                decreases width - c,
            {
                line.push(Cell::Blank);
                c += 1;
            }
            rows.push(line);
            r += 1;
        }
        let screen = Screen { width, height, rows };
        screen
    }

    /// Columns of the screen.
    #[verifier::when_used_as_spec(spec_width)]
    pub fn width(&self) -> (width: u16)
        ensures
            width == self.spec_width(),
            self.wf(),
    {
        proof {
            use_type_invariant(self);
        }
        self.width
    }

    /// Rows of the screen.
    #[verifier::when_used_as_spec(spec_height)]
    pub fn height(&self) -> (height: u16)
        ensures
            height == self.spec_height(),
            self.wf(),
    {
        proof {
            use_type_invariant(self);
        }
        self.height
    }

    /// The cell in the given row and column, if the screen has it.
    pub fn get(&self, row: u16, col: u16) -> (cell: Option<Cell>)
        ensures
            cell is Some <==> row < self.spec_height() && col < self.spec_width(),
            cell matches Some(shown) ==> shown == self@[row as int][col as int],
            self.wf(),
    {
        proof {
            use_type_invariant(self);
        }
        if row < self.height && col < self.width {
            Some(self.rows[row as usize][col as usize])
        } else {
            None
        }
    }

    /// Puts `cell` in every place of the rectangle of the rows
    /// `[top, bottom)` and the columns `[left, right)` that the screen has.
    ///
    /// The rows are taken out of the screen while they are written and put
    /// back when all are done, so that the screen is whole whenever it can
    /// be seen.
    fn fill(&mut self, top: usize, bottom: usize, left: usize, right: usize, cell: Cell)
        ensures
            final(self).wf(),
            final(self).spec_width() == old(self).spec_width(),
            final(self).spec_height() == old(self).spec_height(),
            final(self)@ == with_rect(
                old(self)@,
                top as int,
                bottom as int,
                left as int,
                right as int,
                cell,
            ),
    {
        proof {
            use_type_invariant(&*self);
        }
        let mut taken = Screen { width: 0, height: 0, rows: Vec::new() };
        core::mem::swap(self, &mut taken);
        let Screen { width, height, mut rows } = taken;
        let ghost before = cells_of(rows@);
        assert forall|row: int| 0 <= row < rows@.len() implies (#[trigger] rows@[row])@.len()
            == width by {
            assert(before[row].len() == width);
        }
        let row_end: usize = if bottom < height as usize {
            bottom
        } else {
            height as usize
        };
        let col_end: usize = if right < width as usize {
            right
        } else {
            width as usize
        };
        assert(before =~~= with_rect(
            before,
            top as int,
            top as int,
            left as int,
            right as int,
            cell,
        ));
        let mut r: usize = top;
        while r < row_end
            invariant
                is_grid(before, width as nat, height as nat),
                row_end == bottom || row_end == height,
                row_end <= bottom,
                row_end <= height,
                col_end == right || col_end == width,
                col_end <= right,
                col_end <= width,
                top <= r,
                r <= row_end || r == top,
                rows@.len() == height,
                forall|row: int| 0 <= row < rows@.len() ==> (#[trigger] rows@[row])@.len() == width,
                cells_of(rows@) == with_rect(
                    before,
                    top as int,
                    r as int,
                    left as int,
                    right as int,
                    cell,
                ),
            decreases row_end - r,
        {
            let ghost above = cells_of(rows@);
            assert(above =~~= with_rect(above, r as int, r + 1, left as int, left as int, cell));
            let mut c: usize = left;
            while c < col_end
                invariant
                    r < row_end <= height,
                    col_end <= width,
                    left <= c,
                    c <= col_end || c == left,
                    is_grid(above, width as nat, height as nat),
                    rows@.len() == height,
                    forall|row: int|
                        0 <= row < rows@.len() ==> (#[trigger] rows@[row])@.len() == width,
                    cells_of(rows@) == with_rect(
                        above,
                        r as int,
                        r + 1,
                        left as int,
                        c as int,
                        cell,
                    ),
                decreases col_end - c,
            {
                let ghost shown = cells_of(rows@);
                rows[r][c] = cell;
                assert(cells_of(rows@) =~~= with_rect(
                    shown,
                    r as int,
                    r + 1,
                    c as int,
                    c + 1,
                    cell,
                ));
                assert(cells_of(rows@) =~~= with_rect(
                    above,
                    r as int,
                    r + 1,
                    left as int,
                    c + 1,
                    cell,
                ));
                c += 1;
            }
            assert(cells_of(rows@) =~~= with_rect(
                before,
                top as int,
                r + 1,
                left as int,
                right as int,
                cell,
            ));
            r += 1;
        }
        assert(cells_of(rows@) =~~= with_rect(
            before,
            top as int,
            bottom as int,
            left as int,
            right as int,
            cell,
        ));
        *self = Screen { width, height, rows };
    }
}

/// Drawing a stream of pipes keeps the grid's size, turns every cell that
/// one of them covers into a pipe cell and leaves the others as they were.
pub proof fn lemma_with_pipes(cells: Seq<Seq<Cell>>, pipes: Seq<Pipe>)
    ensures
        with_pipes(cells, pipes).len() == cells.len(),
        forall|row: int|
            0 <= row < cells.len() ==> (#[trigger] with_pipes(cells, pipes)[row]).len()
                == cells[row].len(),
        forall|row: int, col: int|
            0 <= row < cells.len() && 0 <= col < cells[row].len() ==> #[trigger] with_pipes(
                cells,
                pipes,
            )[row][col] == if any_pipe_covers(pipes, row, col) {
                Cell::Pipe
            } else {
                cells[row][col]
            },
    decreases pipes.len(),
{
    if pipes.len() > 0 {
        let rest = pipes.drop_last();
        lemma_with_pipes(cells, rest);
        assert forall|row: int, col: int|
            0 <= row < cells.len() && 0 <= col < cells[row].len() implies (any_pipe_covers(
            pipes,
            row,
            col,
        ) <==> any_pipe_covers(rest, row, col) || pipe_covers(pipes.last(), row, col)) by {
            if any_pipe_covers(rest, row, col) {
                let i = choose|i: int| 0 <= i < rest.len() && pipe_covers(rest[i], row, col);
            }
            if pipe_covers(pipes.last(), row, col) {
            }
            if any_pipe_covers(pipes, row, col) {
                let i = choose|i: int| 0 <= i < pipes.len() && pipe_covers(pipes[i], row, col);
                if i < rest.len() {
                    assert(pipe_covers(rest[i], row, col));
                }
            }
        }
    }
}

/// Whatever a grid held before, clearing it, drawing the pipes and then the
/// bird leaves exactly the frame of that bird and those pipes: no cell of an
/// earlier frame is left over, and drawing the same state again gives the
/// same frame.
pub proof fn lemma_redraw_is_frame(
    stale: Seq<Seq<Cell>>,
    bird: Bird,
    pipes: Seq<Pipe>,
    width: nat,
    height: nat,
)
    requires
        is_grid(stale, width, height),
    ensures
        with_bird(
            with_pipes(with_rect(stale, 0, height as int, 0, width as int, Cell::Blank), pipes),
            bird,
        ) == frame(bird, pipes, width, height),
{
    let cleared = with_rect(stale, 0, height as int, 0, width as int, Cell::Blank);
    lemma_with_pipes(cleared, pipes);
    assert(with_bird(with_pipes(cleared, pipes), bird) =~~= frame(bird, pipes, width, height));
}

/// Empties the screen.
pub fn clear(screen: &mut Screen)
    ensures
        final(screen).wf(),
        final(screen).spec_width() == old(screen).spec_width(),
        final(screen).spec_height() == old(screen).spec_height(),
        final(screen)@ == blank(old(screen).spec_width() as nat, old(screen).spec_height() as nat),
{
    proof {
        use_type_invariant(&*screen);
    }
    let width: usize = screen.width as usize;
    let height: usize = screen.height as usize;
    screen.fill(0, height, 0, width, Cell::Blank);
    assert(screen@ =~~= blank(width as nat, height as nat));
}

/// Draws the body of one pipe: its columns from the top of the screen to its
/// bottom, but for the rows of its gap. What lies outside the screen is cut
/// off.
pub fn draw_pipe(screen: &mut Screen, pipe: &Pipe)
    ensures
        final(screen).wf(),
        final(screen).spec_width() == old(screen).spec_width(),
        final(screen).spec_height() == old(screen).spec_height(),
        final(screen)@ == with_pipe(old(screen)@, *pipe),
{
    proof {
        use_type_invariant(&*screen);
    }
    let left: usize = pipe.x as usize;
    let right: usize = left + PIPE_WIDTH as usize;
    let gap_top: usize = pipe.gap_y as usize;
    let gap_bottom: usize = gap_top + PIPE_GAP_HEIGHT as usize;
    let height: usize = screen.height as usize;
    screen.fill(0, gap_top, left, right, Cell::Pipe);
    screen.fill(gap_bottom, height, left, right, Cell::Pipe);
    assert(screen@ =~~= with_pipe(old(screen)@, *pipe));
}

/// Draws every pipe of the stream.
pub fn draw_pipes(screen: &mut Screen, pipes: &Vec<Pipe>)
    ensures
        final(screen).wf(),
        final(screen).spec_width() == old(screen).spec_width(),
        final(screen).spec_height() == old(screen).spec_height(),
        final(screen)@ == with_pipes(old(screen)@, pipes@),
{
    proof {
        use_type_invariant(&*screen);
    }
    let mut i: usize = 0;
    while i < pipes.len()
        invariant
            i <= pipes.len(),
            screen.wf(),
            screen.spec_width() == old(screen).spec_width(),
            screen.spec_height() == old(screen).spec_height(),
            screen@ == with_pipes(old(screen)@, pipes@.take(i as int)),
        decreases pipes.len() - i,
    {
        draw_pipe(screen, &pipes[i]);
        proof {
            assert(pipes@.take(i + 1).drop_last() == pipes@.take(i as int));
        }
        i += 1;
    }
    proof {
        assert(pipes@.take(pipes.len() as int) == pipes@);
    }
}

/// Draws the bird's rectangle. What lies outside the screen is cut off.
pub fn draw_bird(screen: &mut Screen, bird: &Bird)
    ensures
        final(screen).wf(),
        final(screen).spec_width() == old(screen).spec_width(),
        final(screen).spec_height() == old(screen).spec_height(),
        final(screen)@ == with_bird(old(screen)@, *bird),
{
    proof {
        use_type_invariant(&*screen);
    }
    let left: usize = bird.x as usize;
    let top: usize = bird.y as usize;
    screen.fill(top, top + BIRD_HEIGHT as usize, left, left + BIRD_WIDTH as usize, Cell::Bird);
    assert(screen@ =~~= with_bird(old(screen)@, *bird));
}

/// Draws the whole frame of the bird and the pipes: the screen is emptied,
/// then the pipes are drawn, then the bird over them.
///
/// The frame that results is a function of the bird, the pipes and the
/// screen's size alone. Nothing of what the screen showed before is left,
/// and rendering the same state twice gives the same frame twice.
pub fn render(screen: &mut Screen, bird: &Bird, pipes: &Vec<Pipe>)
    ensures
        final(screen).wf(),
        final(screen).spec_width() == old(screen).spec_width(),
        final(screen).spec_height() == old(screen).spec_height(),
        final(screen)@ == frame(
            *bird,
            pipes@,
            old(screen).spec_width() as nat,
            old(screen).spec_height() as nat,
        ),
{
    proof {
        use_type_invariant(&*screen);
    }
    clear(screen);
    draw_pipes(screen, pipes);
    draw_bird(screen, bird);
    proof {
        let width = old(screen).spec_width() as nat;
        let height = old(screen).spec_height() as nat;
        assert(blank(width, height) =~~= with_rect(
            old(screen)@,
            0,
            height as int,
            0,
            width as int,
            Cell::Blank,
        ));
        lemma_redraw_is_frame(old(screen)@, *bird, pipes@, width, height);
    }
}

} // verus!
