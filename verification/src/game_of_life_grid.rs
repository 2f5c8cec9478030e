use vstd::prelude::*;

use crate::api_types::{in_range, neighbor_count, next_state, Column, Evolving, Grid, Row, Size};

verus! {

/// A finite Game of Life board: fixed dimensions together with the set of
/// live cells, stored row by row. Values are immutable snapshots; advancing
/// a generation builds a fresh grid and never mutates its predecessor.
#[derive(Clone, Debug)]
pub struct GameOfLifeGrid {
    size: Size,
    cells: Vec<Vec<bool>>,
}

impl GameOfLifeGrid {
    /// Builds a grid of the given dimensions, asking `initializer` once per
    /// coordinate in range whether that cell starts alive.
    pub fn new<F: Fn(usize, usize) -> bool>(size: Size, initializer: F) -> (grid: Self)
        requires
            forall|row: int, column: int|
                in_range(size, row, column) ==> #[trigger] call_requires(
                    initializer,
                    ((row as usize), (column as usize)),
                ),
        ensures
            grid.spec_size() == size,
            forall|row: int, column: int|
                !in_range(size, row, column) ==> !(#[trigger] grid.live(row, column)),
            forall|row: int, column: int|
                in_range(size, row, column) ==> call_ensures(
                    initializer,
                    ((row as usize), (column as usize)),
                    #[trigger] grid.live(row, column),
                ),
    {
        let mut cells: Vec<Vec<bool>> = Vec::new();
        let mut r: usize = 0;
        while r < size.height
            invariant
                r <= size.height,
                cells.len() == r,
                forall|i: int| 0 <= i < r ==> #[trigger] cells[i].len() == size.width,
                forall|i: usize, j: usize|
                    i < r && j < size.width ==> call_ensures(
                        initializer,
                        (i, j),
                        #[trigger] cells[i as int][j as int],
                    ),
                forall|row: int, column: int|
                    in_range(size, row, column) ==> #[trigger] call_requires(
                        initializer,
                        ((row as usize), (column as usize)),
                    ),
            decreases size.height - r,
        {
            let mut row_cells: Vec<bool> = Vec::new();
            let mut c: usize = 0;
            while c < size.width
                invariant
                    r < size.height,
                    c <= size.width,
                    row_cells.len() == c,
                    forall|j: usize|
                        j < c ==> call_ensures(
                            initializer,
                            (r, j),
                            #[trigger] row_cells[j as int],
                        ),
                    forall|row: int, column: int|
                        in_range(size, row, column) ==> #[trigger] call_requires(
                            initializer,
                            ((row as usize), (column as usize)),
                        ),
                decreases size.width - c,
            {
                proof {
                    assert(call_requires(initializer, (((r as int) as usize), ((c as int) as usize))));
                }
                let alive = initializer(r, c);
                row_cells.push(alive);
                c = c + 1;
            }
            cells.push(row_cells);
            r = r + 1;
        }
        let grid = GameOfLifeGrid { size, cells };
        proof {
            assert forall|row: int, column: int| in_range(size, row, column) implies call_ensures(
                initializer,
                ((row as usize), (column as usize)),
                #[trigger] grid.live(row, column),
            ) by {
                let r = row as usize;
                let c = column as usize;
                assert(call_ensures(initializer, (r, c), grid.cells[r as int][c as int]));
                assert(grid.live(row, column) == grid.cells[row][column]);
            }
        }
        grid
    }

    /// Counts the live cells among the eight Moore neighbours of
    /// `(row, column)`. Each neighbour is looked up with `has_cell_at`, so
    /// coordinates that fall off the grid simply count as dead; nothing
    /// underflows at row or column zero because those lookups are skipped
    /// outright, and a skipped lookup could only have answered "dead".
    fn count_live_neighbors(&self, row: usize, column: usize) -> (n: u8)
        ensures
            n as int == neighbor_count(*self, row as int, column as int),
    {
        let mut n: u8 = 0;
        if row > 0 && column > 0 && self.has_cell_at(Row(row - 1), Column(column - 1)) {
            n = n + 1;
        }
        if row > 0 && self.has_cell_at(Row(row - 1), Column(column)) {
            n = n + 1;
        }
        if row > 0 && column < usize::MAX && self.has_cell_at(Row(row - 1), Column(column + 1)) {
            n = n + 1;
        }
        if column > 0 && self.has_cell_at(Row(row), Column(column - 1)) {
            n = n + 1;
        }
        if column < usize::MAX && self.has_cell_at(Row(row), Column(column + 1)) {
            n = n + 1;
        }
        if row < usize::MAX && column > 0 && self.has_cell_at(Row(row + 1), Column(column - 1)) {
            n = n + 1;
        }
        if row < usize::MAX && self.has_cell_at(Row(row + 1), Column(column)) {
            n = n + 1;
        }
        if row < usize::MAX && column < usize::MAX && self.has_cell_at(
            Row(row + 1),
            Column(column + 1),
        ) {
            n = n + 1;
        }
        n
    }

    /// Applies the rule to one cell, reading only this grid.
    fn next_cell(&self, row: usize, column: usize) -> (alive: bool)
        ensures
            alive == next_state(*self, row as int, column as int),
    {
        let neighbors = self.count_live_neighbors(row, column);
        match neighbors {
            2 => self.has_cell_at(Row(row), Column(column)),
            3 => true,
            _ => false,
        }
    }
}

impl Grid for GameOfLifeGrid {
    closed spec fn spec_size(&self) -> Size {
        self.size
    }

    closed spec fn live(&self, row: int, column: int) -> bool {
        &&& in_range(self.size, row, column)
        &&& row < self.cells.len()
        &&& column < self.cells[row].len()
        &&& self.cells[row][column]
    }

    fn size(&self) -> (s: Size) {
        self.size
    }

    fn has_cell_at(&self, row: Row, column: Column) -> (alive: bool) {
        // The constructors always size `cells` to match `size`; the lookup
        // still re-checks those bounds so that the query is total over every
        // value of the type and needs no well-formedness premise.
        if row.0 < self.size.height && column.0 < self.size.width && row.0 < self.cells.len() {
            let row_cells = &self.cells[row.0];
            if column.0 < row_cells.len() {
                row_cells[column.0]
            } else {
                false
            }
        } else {
            false
        }
    }
}

impl Evolving for GameOfLifeGrid {
    /// The successor grid keeps the dimensions, holds at every coordinate in
    /// range exactly the state the rule produces from this grid, and holds
    /// nothing anywhere else. All queries in the rule read the predecessor
    /// alone, so every cell is recomputed from the same snapshot.
    open spec fn evolves_to(self, next: Self) -> bool {
        &&& next.spec_size() == self.spec_size()
        &&& forall|row: int, column: int|
            #[trigger] next.live(row, column) == (in_range(self.spec_size(), row, column)
                && next_state(self, row, column))
    }

    fn next_generation(self) -> (next: Self) {
        let me = &self;
        let stepper = |row: usize, column: usize| -> (alive: bool)
            ensures
                alive == next_state(*me, row as int, column as int),
            { me.next_cell(row, column) };
        let ghost stepper_spec = stepper;
        let next = GameOfLifeGrid::new(me.size, stepper);
        proof {
            assert forall|row: int, column: int|
                #[trigger] next.live(row, column) == (in_range(self.spec_size(), row, column)
                    && next_state(self, row, column)) by {
                if in_range(self.spec_size(), row, column) {
                    assert(call_ensures(
                        stepper_spec,
                        ((row as usize), (column as usize)),
                        next.live(row, column),
                    ));
                }
            }
        }
        next
    }
}

/// Advancing a generation never changes the grid's dimensions.
pub proof fn advance_preserves_size(g: GameOfLifeGrid, next: GameOfLifeGrid)
    requires
        g.evolves_to(next),
    ensures
        next.spec_size() == g.spec_size(),
{
}

/// A cell with exactly three live neighbours is alive in the next
/// generation, whatever its current state: a dead one is born, a live one
/// survives.
pub proof fn three_neighbors_give_life(
    g: GameOfLifeGrid,
    next: GameOfLifeGrid,
    row: int,
    column: int,
)
    requires
        g.evolves_to(next),
        in_range(g.spec_size(), row, column),
        neighbor_count(g, row, column) == 3,
    ensures
        next.live(row, column),
{
    assert(next.live(row, column) == (in_range(g.spec_size(), row, column) && next_state(
        g,
        row,
        column,
    )));
}

/// Overpopulation: a cell all eight of whose neighbours are alive is dead in
/// the next generation.
pub proof fn eight_neighbors_kill(
    g: GameOfLifeGrid,
    next: GameOfLifeGrid,
    row: int,
    column: int,
)
    requires
        g.evolves_to(next),
        g.live(row - 1, column - 1),
        g.live(row - 1, column),
        g.live(row - 1, column + 1),
        g.live(row, column - 1),
        g.live(row, column + 1),
        g.live(row + 1, column - 1),
        g.live(row + 1, column),
        g.live(row + 1, column + 1),
    ensures
        !next.live(row, column),
{
    assert(next.live(row, column) == (in_range(g.spec_size(), row, column) && next_state(
        g,
        row,
        column,
    )));
}

/// A two-by-two block of live cells on an otherwise empty grid is left
/// unchanged by advancing a generation: each block cell has exactly three
/// live neighbours, and every cell outside the block sees at most two.
pub proof fn block_is_stable(g: GameOfLifeGrid, next: GameOfLifeGrid, r0: int, c0: int)
    requires
        g.evolves_to(next),
        in_range(g.spec_size(), r0, c0),
        in_range(g.spec_size(), r0 + 1, c0 + 1),
        forall|row: int, column: int|
            #[trigger] g.live(row, column) <==> (r0 <= row <= r0 + 1 && c0 <= column <= c0 + 1),
    ensures
        forall|row: int, column: int| #[trigger] next.live(row, column) == g.live(row, column),
{
    assert forall|row: int, column: int|
        #[trigger] next.live(row, column) == g.live(row, column) by {
        assert(next.live(row, column) == (in_range(g.spec_size(), row, column) && next_state(
            g,
            row,
            column,
        )));
        assert(neighbor_count(g, row, column) == alive_count_block(r0, c0, row - 1, column - 1)
            + alive_count_block(r0, c0, row - 1, column) + alive_count_block(
            r0,
            c0,
            row - 1,
            column + 1,
        ) + alive_count_block(r0, c0, row, column - 1) + alive_count_block(
            r0,
            c0,
            row,
            column + 1,
        ) + alive_count_block(r0, c0, row + 1, column - 1) + alive_count_block(
            r0,
            c0,
            row + 1,
            column,
        ) + alive_count_block(r0, c0, row + 1, column + 1));
    }
}

/// Counts a coordinate as one exactly when it lies in the two-by-two block
/// whose top-left corner is `(r0, c0)`.
spec fn alive_count_block(r0: int, c0: int, row: int, column: int) -> int {
    if r0 <= row <= r0 + 1 && c0 <= column <= c0 + 1 {
        1
    } else {
        0
    }
}

} // verus!
