//! The square board, the cells on it, and where a new apple may go.

use vstd::prelude::*;

verus! {

/// A board position: column, then row.
pub type Cell = (i32, i32);

/// Number of columns, and of rows, of the board.
pub const GRID_SIZE: i32 = 20;

/// Number of cells on the board.
pub const CELL_COUNT: usize = 400;

/// `c` lies on the board.
pub open spec fn in_grid(c: Cell) -> bool {
    0 <= c.0 < GRID_SIZE && 0 <= c.1 < GRID_SIZE
}

/// Every cell of `cells` lies on the board.
pub open spec fn all_in_grid(cells: Seq<Cell>) -> bool {
    forall|i: int| 0 <= i < cells.len() ==> in_grid(#[trigger] cells[i])
}

/// The cells of the board, row by row.
pub open spec fn board_cells() -> Seq<Cell> {
    Seq::new(CELL_COUNT as nat, |i: int| ((i % 20) as i32, (i / 20) as i32))
}

/// The place of a cell when the board is read row by row.
pub open spec fn reading_order(c: Cell) -> int {
    20 * c.1 + c.0
}

/// The test that a cell is not among `cells`.
pub open spec fn vacant(cells: Seq<Cell>) -> spec_fn(Cell) -> bool {
    |c: Cell| !cells.contains(c)
}

/// The cells of the board that `cells` leaves free, in reading order.
pub open spec fn free_list(cells: Seq<Cell>) -> Seq<Cell> {
    board_cells().filter(vacant(cells))
}

/// The cells of the board that `cells` leaves free.
pub open spec fn free_of(cells: Seq<Cell>) -> Set<Cell> {
    Set::new(|c: Cell| in_grid(c) && !cells.contains(c))
}

proof fn lemma_board_cells()
    ensures
        board_cells().no_duplicates(),
        forall|c: Cell| in_grid(c) ==> board_cells().contains(c),
        board_cells().to_set().len() == CELL_COUNT,
{
    let b = board_cells();
    assert forall|i: int, j: int| 0 <= i < b.len() && 0 <= j < b.len() && i != j implies b[i]
        != b[j] by {
        assert(i == 20 * (i / 20) + i % 20);
        assert(j == 20 * (j / 20) + j % 20);
    }
    assert forall|c: Cell| in_grid(c) implies b.contains(c) by {
        let k: int = 20 * c.1 + c.0;
        assert(k / 20 == c.1 && k % 20 == c.0) by (nonlinear_arith)
            requires
                k == 20 * c.1 + c.0,
                0 <= c.0 < 20,
                0 <= c.1 < 20,
        ;
        assert(b[k] == c);
    }
    b.unique_seq_to_set();
}

/// A run of distinct cells on the board has at most as many cells as the
/// board, and while it is shorter, some cell of the board is free.
pub proof fn lemma_distinct_cells_leave_room(cells: Seq<Cell>)
    requires
        cells.no_duplicates(),
        all_in_grid(cells),
    ensures
        cells.len() <= CELL_COUNT,
        cells.len() < CELL_COUNT ==> exists|c: Cell| #[trigger] free_of(cells).contains(c),
{
    broadcast use vstd::seq_lib::seq_to_set_is_finite;

    lemma_board_cells();
    cells.unique_seq_to_set();
    let s = cells.to_set();
    let g = board_cells().to_set();
    assert(s.subset_of(g)) by {
        assert forall|c: Cell| s.contains(c) implies g.contains(c) by {
            let i = choose|i: int| 0 <= i < cells.len() && cells[i] == c;
            assert(in_grid(cells[i]));
        }
    }
    vstd::set_lib::lemma_len_subset(s, g);
    if cells.len() < CELL_COUNT && !(exists|c: Cell| #[trigger] free_of(cells).contains(c)) {
        assert(g.subset_of(s)) by {
            assert forall|c: Cell| g.contains(c) implies s.contains(c) by {
                let i = choose|i: int| 0 <= i < board_cells().len() && board_cells()[i] == c;
                assert(!free_of(cells).contains(c));
            }
        }
        vstd::set_lib::lemma_len_subset(g, s);
    }
}

/// Every free cell of the board has a place in the list of free cells, and
/// the list holds nothing else.
pub proof fn lemma_free_list_holds_every_free_cell(cells: Seq<Cell>, c: Cell)
    ensures
        free_of(cells).contains(c) <==> exists|i: int|
            0 <= i < free_list(cells).len() && free_list(cells)[i] == c,
{
    broadcast use vstd::seq_lib::group_filter_ensures;

    lemma_board_cells();
    let b = board_cells();
    if free_of(cells).contains(c) {
        let k = choose|k: int| 0 <= k < b.len() && b[k] == c;
        assert(vacant(cells)(b[k]));
        b.lemma_filter_contains(vacant(cells), k);
        assert(free_list(cells).contains(c));
        let i = choose|i: int| 0 <= i < free_list(cells).len() && free_list(cells)[i] == c;
    }
    if exists|i: int| 0 <= i < free_list(cells).len() && free_list(cells)[i] == c {
        let i = choose|i: int| 0 <= i < free_list(cells).len() && free_list(cells)[i] == c;
        b.lemma_filter_pred(vacant(cells), i);
        assert(free_list(cells).contains(c));
        b.lemma_filter_contains_rev(vacant(cells), c);
        let k = choose|k: int| 0 <= k < b.len() && b[k] == c;
        assert(in_grid(b[k]));
        assert(!cells.contains(c));
        assert(free_of(cells).contains(c));
    }
}

/// Whether `cell` is among the first `count` cells of `cells`.
pub fn contains_cell(cells: &Vec<Cell>, count: usize, cell: Cell) -> (found: bool)
    requires
        count <= cells.len(),
    ensures
        found == cells@.take(count as int).contains(cell),
{
    let mut i: usize = 0;
    while i < count
        invariant
            i <= count <= cells.len(),
            forall|j: int| 0 <= j < i ==> cells@[j] != cell,
        decreases count - i,
    {
        if cells[i].0 == cell.0 && cells[i].1 == cell.1 {
            assert(cells@.take(count as int)[i as int] == cell);
            return true;
        }
        i += 1;
    }
    assert forall|j: int| 0 <= j < count implies cells@.take(count as int)[j] != cell by {
        assert(cells@.take(count as int)[j] == cells@[j]);
    }
    false
}

/// The cells of the board that no cell of `cells` occupies, row by row.
pub fn free_cells(cells: &Vec<Cell>) -> (free: Vec<Cell>)
    ensures
        free@.no_duplicates(),
        forall|c: Cell| free@.contains(c) <==> free_of(cells@).contains(c),
        forall|i: int, j: int|
            0 <= i < j < free@.len() ==> reading_order(free@[i]) < reading_order(free@[j]),
        free@ == free_list(cells@),
{
    let mut free: Vec<Cell> = Vec::new();
    proof {
        reveal_with_fuel(Seq::filter, 1);
        assert(board_cells().take(0) =~= Seq::<Cell>::empty());
    }
    let mut row: i32 = 0;
    while row < GRID_SIZE
        invariant
            0 <= row <= GRID_SIZE,
            free@.no_duplicates(),
            forall|i: int, j: int|
                0 <= i < j < free@.len() ==> reading_order(free@[i]) < reading_order(free@[j]),
            forall|k: int| 0 <= k < free@.len() ==> (#[trigger] free@[k]).1 < row,
            free@ == board_cells().take(20 * row).filter(vacant(cells@)),
            forall|c: Cell|
                free@.contains(c) <==> (in_grid(c) && c.1 < row && !cells@.contains(c)),
        decreases GRID_SIZE - row,
    {
        let mut column: i32 = 0;
        while column < GRID_SIZE
            invariant
                0 <= row < GRID_SIZE,
                0 <= column <= GRID_SIZE,
                free@.no_duplicates(),
                forall|i: int, j: int|
                    0 <= i < j < free@.len() ==> reading_order(free@[i]) < reading_order(free@[j]),
                forall|k: int| 0 <= k < free@.len() ==> in_grid(#[trigger] free@[k]),
                forall|k: int|
                    0 <= k < free@.len() ==> (#[trigger] free@[k]).1 < row || (free@[k].1 == row
                        && free@[k].0 < column),
                free@ == board_cells().take(20 * row + column).filter(vacant(cells@)),
                forall|c: Cell|
                    free@.contains(c) <==> (in_grid(c) && (c.1 < row || (c.1 == row && c.0
                        < column)) && !cells@.contains(c)),
            decreases GRID_SIZE - column,
        {
            let cell: Cell = (column, row);
            let taken = contains_cell(cells, cells.len(), cell);
            assert(cells@.take(cells@.len() as int) =~= cells@);
            let ghost before = free@;
            assert(in_grid(cell));
            proof {
                let k: int = 20 * row + column;
                assert(k / 20 == row && k % 20 == column) by (nonlinear_arith)
                    requires
                        k == 20 * row + column,
                        0 <= column < 20,
                        0 <= row < 20,
                ;
                let t = board_cells().take(k + 1);
                assert(t.drop_last() =~= board_cells().take(k));
                assert(t.last() == cell);
                reveal_with_fuel(Seq::filter, 1);
            }
            if !taken {
                free.push(cell);
            }
            assert forall|c: Cell|
                free@.contains(c) <==> (in_grid(c) && (c.1 < row || (c.1 == row && c.0 <= column))
                    && !cells@.contains(c)) by {
                if c == cell {
                    if taken {
                        assert(free@ == before);
                    } else {
                        assert(free@[free@.len() - 1] == c);
                    }
                } else {
                    if free@.contains(c) {
                        let k = choose|k: int| 0 <= k < free@.len() && free@[k] == c;
                        assert(before[k] == c);
                    }
                    if before.contains(c) {
                        let k = choose|k: int| 0 <= k < before.len() && before[k] == c;
                        assert(free@[k] == c);
                    }
                    assert(!(c.1 == row && c.0 == column));
                    assert(before.contains(c) ==> in_grid(c));
                    assert(free@.contains(c) ==> in_grid(c));
                }
            }
            column += 1;
        }
        assert(20 * row + 20 == 20 * (row + 1));
        assert forall|k: int| 0 <= k < free@.len() implies (#[trigger] free@[k]).1 < row + 1 by {
            assert(in_grid(free@[k]));
        }
        row += 1;
    }
    assert(board_cells().take(400) =~= board_cells());
    free
}

} // verus!
