use vstd::prelude::*;

verus! {

/// A row index into a grid, counted from the top starting at zero.
#[derive(Debug, Eq, PartialEq, Clone, Hash)]
pub struct Row(pub usize);

/// A column index into a grid, counted from the left starting at zero.
#[derive(Debug, Eq, PartialEq, Clone, Hash)]
pub struct Column(pub usize);

/// The dimensions of a grid: the valid coordinates are
/// `[0, height) x [0, width)`.
#[derive(Debug, Eq, PartialEq, Clone, Copy)]
pub struct Size {
    pub height: usize,
    pub width: usize,
}

/// Whether `(row, column)` lies inside the coordinate range of `size`.
pub open spec fn in_range(size: Size, row: int, column: int) -> bool {
    0 <= row < size.height as int && 0 <= column < size.width as int
}

/// An immutable snapshot of which cells are alive within a fixed bound.
///
/// The two spec members carry default bodies describing a grid with nothing
/// in it, so that implementations outside the verifier's reach need not
/// spell them out; a verified implementation overrides both.
pub trait Grid {
    /// The dimensions the grid was created with.
    open spec fn spec_size(&self) -> Size {
        Size { height: 0, width: 0 }
    }

    /// Whether the cell at `(row, column)` is alive. Coordinates outside the
    /// grid's range never hold a live cell.
    open spec fn live(&self, row: int, column: int) -> bool {
        false
    }

    fn size(&self) -> (s: Size)
        ensures
            s == self.spec_size(),
    ;

    /// Point-membership query. Out-of-range coordinates report a dead cell
    /// rather than an error, so neighbour counting at the boundary needs no
    /// special cases.
    fn has_cell_at(&self, row: Row, column: Column) -> (alive: bool)
        ensures
            alive == self.live(row.0 as int, column.0 as int),
            !in_range(self.spec_size(), row.0 as int, column.0 as int) ==> !alive,
    ;
}

/// Counts a cell's state as a summand: one when alive, zero when dead.
pub open spec fn alive_count(alive: bool) -> int {
    if alive {
        1
    } else {
        0
    }
}

/// How many of the eight cells of the Moore neighbourhood of `(row, column)`
/// are alive in `g`. Off-grid neighbours are permanently dead, so corner and
/// edge cells simply see fewer live neighbours.
pub open spec fn neighbor_count<G: Grid>(g: G, row: int, column: int) -> int {
    alive_count(g.live(row - 1, column - 1)) + alive_count(g.live(row - 1, column))
        + alive_count(g.live(row - 1, column + 1)) + alive_count(g.live(row, column - 1))
        + alive_count(g.live(row, column + 1)) + alive_count(g.live(row + 1, column - 1))
        + alive_count(g.live(row + 1, column)) + alive_count(g.live(row + 1, column + 1))
}

/// The Game of Life rule for one cell: exactly three live neighbours give a
/// live cell regardless of its current state, exactly two keep the current
/// state, and any other count leaves the cell dead.
pub open spec fn next_state<G: Grid>(g: G, row: int, column: int) -> bool {
    let n = neighbor_count(g, row, column);
    n == 3 || (n == 2 && g.live(row, column))
}

/// A value that can produce its successor generation.
pub trait Evolving: Sized {
    /// The relation between a value and its successor generation; each
    /// implementation pins down what advancing by one step observes. The
    /// default body claims nothing, so a verified implementation must
    /// override it before `next_generation` can be shown to meet its
    /// contract; an implementation outside the verifier's reach need not
    /// spell it out.
    open spec fn evolves_to(self, next: Self) -> bool {
        false
    }

    fn next_generation(self) -> (next: Self)
        ensures
            self.evolves_to(next),
    ;
}

} // verus!
