//! A disk that was just placed on a grid, with how far a line through it
//! can reach on each side.

use vstd::prelude::*;
use vstd::array::array_fill_for_copy_types;
use crate::disks::DiskColor;

verus! {

/// The smaller of two numbers.
pub open spec fn spec_min(a: int, b: int) -> int {
    if a <= b {
        a
    } else {
        b
    }
}

/// The smaller of two numbers.
fn min(a: usize, b: usize) -> (m: usize)
    ensures
        m == spec_min(a as int, b as int),
{
    if a <= b {
        a
    } else {
        b
    }
}

/// A disk on a grid of six rows and seven columns, the top row first.
#[derive(Debug, Clone, Copy)]
pub struct DiskData {
    pub row: usize,
    pub col: usize,
    pub color: DiskColor,
    /// How many cells, three at most, lie to the left of the disk.
    pub left_range: usize,
    /// How many cells, three at most, lie to the right of the disk.
    pub right_range: usize,
    /// How many cells, three at most, lie above the disk.
    pub up_range: usize,
    /// How many cells, three at most, lie below the disk.
    pub down_range: usize,
}

impl DiskData {
    /// The ranges are those of the cell.
    pub open spec fn wf(&self) -> bool {
        &&& self.row < 6
        &&& self.col < 7
        &&& self.left_range == spec_min(3, self.col as int)
        &&& self.right_range == spec_min(3, 6 - self.col)
        &&& self.up_range == spec_min(3, self.row as int)
        &&& self.down_range == spec_min(3, 5 - self.row)
    }

    /// The disk of `color` at `row` and `col`, with its ranges.
    pub fn new(row: usize, col: usize, color: DiskColor) -> (disk: Self)
        requires
            row < 6,
            col < 7,
        ensures
            disk.wf(),
            disk.row == row,
            disk.col == col,
            disk.color == color,
    {
        Self {
            row,
            col,
            color,
            left_range: min(3, col),
            right_range: min(3, 7 - col - 1),
            up_range: min(3, row),
            down_range: min(3, 6 - row - 1),
        }
    }
}

/// A grid of six rows of seven cells, `board_state[row][col]`, the top row
/// first.
pub type DiskGrid = [[DiskColor; 7]; 6];

/// Whether `row`, `col` is a cell of the grid that holds `color`.
pub open spec fn cell_is(grid: DiskGrid, color: DiskColor, row: int, col: int) -> bool {
    0 <= row < 6 && 0 <= col < 7 && grid@[row]@[col] == color
}

/// How many cells in a row hold `color`, from the cell next to `row`, `col`
/// on in steps of `drow`, `dcol`: three at most.
pub open spec fn run_length(
    grid: DiskGrid,
    color: DiskColor,
    row: int,
    col: int,
    drow: int,
    dcol: int,
) -> int {
    if !cell_is(grid, color, row + drow, col + dcol) {
        0
    } else if !cell_is(grid, color, row + 2 * drow, col + 2 * dcol) {
        1
    } else if !cell_is(grid, color, row + 3 * drow, col + 3 * dcol) {
        2
    } else {
        3
    }
}

/// Whether the first `n` cells from the cell next to `row`, `col` on, in
/// steps of `drow`, `dcol`, hold `color`, for `n` up to three.
pub open spec fn runs(
    grid: DiskGrid,
    color: DiskColor,
    row: int,
    col: int,
    drow: int,
    dcol: int,
    n: int,
) -> bool {
    &&& n >= 1 ==> cell_is(grid, color, row + drow, col + dcol)
    &&& n >= 2 ==> cell_is(grid, color, row + 2 * drow, col + 2 * dcol)
    &&& n >= 3 ==> cell_is(grid, color, row + 3 * drow, col + 3 * dcol)
}

/// Whether the cells on both sides of `row`, `col` along `drow`, `dcol` hold
/// `color` three times in a row, the cell itself not counted.
pub open spec fn completes_line(
    grid: DiskGrid,
    color: DiskColor,
    row: int,
    col: int,
    drow: int,
    dcol: int,
) -> bool {
    run_length(grid, color, row, col, -drow, -dcol) + run_length(grid, color, row, col, drow, dcol)
        >= 3
}

/// The grid with the player whose turn it is, and whether the game is won.
pub struct BoardState {
    pub board_state: DiskGrid,
    pub current_player: DiskColor,
    pub game_won: bool,
}

impl Default for BoardState {
    /// The empty grid, with the first player to move.
    fn default() -> (state: Self)
        ensures
            forall|r: int, c: int|
                0 <= r < 6 && 0 <= c < 7 ==> state.board_state@[r]@[c] == DiskColor::Empty,
            state.current_player == DiskColor::P1,
            !state.game_won,
    {
        let row: [DiskColor; 7] = array_fill_for_copy_types(DiskColor::Empty);
        let board_state: DiskGrid = array_fill_for_copy_types(row);
        assert forall|r: int, c: int| 0 <= r < 6 && 0 <= c < 7 implies board_state@[r]@[c]
            == DiskColor::Empty by {
            assert(board_state@[r] == row);
            assert(row@[c] == DiskColor::Empty);
        }
        Self { board_state, current_player: DiskColor::P1, game_won: false }
    }
}

/// The first row from the top in which the column holds a disk, 6 where it
/// holds none.
pub open spec fn top_disk_row(grid: DiskGrid, col: int) -> int {
    if grid@[0]@[col] != DiskColor::Empty {
        0
    } else if grid@[1]@[col] != DiskColor::Empty {
        1
    } else if grid@[2]@[col] != DiskColor::Empty {
        2
    } else if grid@[3]@[col] != DiskColor::Empty {
        3
    } else if grid@[4]@[col] != DiskColor::Empty {
        4
    } else if grid@[5]@[col] != DiskColor::Empty {
        5
    } else {
        6
    }
}

impl BoardState {
    /// Whether `after` is the state after the last move, made in column
    /// `col`, was taken back: the top disk of the column is gone, the game
    /// is not won, and it is the turn of the first player if it was not,
    /// else of the second.
    pub open spec fn took_back(self, after: BoardState, col: int) -> bool {
        &&& !after.game_won
        &&& after.current_player == if self.current_player == DiskColor::P1 {
            DiskColor::P2
        } else {
            DiskColor::P1
        }
        &&& forall|r: int, c: int|
            0 <= r < 6 && 0 <= c < 7 ==> after.board_state@[r]@[c] == if c == col && r
                == top_disk_row(self.board_state, col) {
                DiskColor::Empty
            } else {
                self.board_state@[r]@[c]
            }
    }

    /// Takes the last move back, which was made in column `col`: see
    /// `took_back`.
    pub fn undo_move(&mut self, col: usize)
        requires
            col < 7,
        ensures
            old(self).took_back(*final(self), col as int),
    {
        self.game_won = false;
        self.current_player =
        if self.current_player == DiskColor::P1 {
            DiskColor::P2
        } else {
            DiskColor::P1
        };
        let mut row: usize = 0;
        while row < 6
            invariant
                row <= 6,
                col < 7,
                self.board_state == old(self).board_state,
                !self.game_won,
                self.current_player == if old(self).current_player == DiskColor::P1 {
                    DiskColor::P2
                } else {
                    DiskColor::P1
                },
                forall|r: int| 0 <= r < row ==> self.board_state@[r]@[col as int] == DiskColor::Empty,
            decreases 6 - row,
        {
            // the first disk from the top is the last move in this column
            if self.board_state[row][col] != DiskColor::Empty {
                let mut cells: [DiskColor; 7] = self.board_state[row];
                cells[col] = DiskColor::Empty;
                self.board_state[row] = cells;
                return ;
            }
            row += 1;
        }
    }

    /// Whether the disk that was just placed wins the game: with the three
    /// cells below it, or with three cells in a row on its two sides, along
    /// the row or one of the two diagonals.
    pub fn check_winner(&self, new_disk: DiskData) -> (won: bool)
        requires
            new_disk.wf(),
        ensures
            won == (run_length(
                self.board_state,
                new_disk.color,
                new_disk.row as int,
                new_disk.col as int,
                1,
                0,
            ) == 3 || completes_line(
                self.board_state,
                new_disk.color,
                new_disk.row as int,
                new_disk.col as int,
                0,
                1,
            ) || completes_line(
                self.board_state,
                new_disk.color,
                new_disk.row as int,
                new_disk.col as int,
                1,
                1,
            ) || completes_line(
                self.board_state,
                new_disk.color,
                new_disk.row as int,
                new_disk.col as int,
                1,
                -1,
            )),
    {
        if new_disk.row < 6 - 3 && self.board_state[new_disk.row + 1][new_disk.col]
            == new_disk.color && self.board_state[new_disk.row + 2][new_disk.col] == new_disk.color
            && self.board_state[new_disk.row + 3][new_disk.col] == new_disk.color {
            return true;
        }
        if self.check_lateral(&new_disk) || self.check_right_diag(&new_disk)
            || self.check_left_diag(&new_disk) {
            return true;
        }
        false
    }

    /// Whether the disk completes a line along its row.
    fn check_lateral(&self, new_disk: &DiskData) -> (won: bool)
        requires
            new_disk.wf(),
        ensures
            won == completes_line(
                self.board_state,
                new_disk.color,
                new_disk.row as int,
                new_disk.col as int,
                0,
                1,
            ),
    {
        let mut left_count: usize = 0;
        while left_count < new_disk.left_range
            invariant_except_break
                left_count <= new_disk.left_range,
            invariant
                new_disk.wf(),
                left_count <= 3,
                runs(
                    self.board_state,
                    new_disk.color,
                    new_disk.row as int,
                    new_disk.col as int,
                    0,
                    -1,
                    left_count as int,
                ),
            ensures
                left_count == run_length(
                    self.board_state,
                    new_disk.color,
                    new_disk.row as int,
                    new_disk.col as int,
                    0,
                    -1,
                ),
            decreases new_disk.left_range - left_count,
        {
            if self.board_state[new_disk.row][new_disk.col - 1 - left_count] != new_disk.color {
                break ;
            }
            left_count += 1;
        }
        if left_count == 3 {
            return true;
        }
        let mut right_count: usize = 0;
        while right_count < new_disk.right_range
            invariant_except_break
                right_count <= new_disk.right_range,
            invariant
                new_disk.wf(),
                left_count + right_count < 3,
                left_count == run_length(
                    self.board_state,
                    new_disk.color,
                    new_disk.row as int,
                    new_disk.col as int,
                    0,
                    -1,
                ),
                runs(
                    self.board_state,
                    new_disk.color,
                    new_disk.row as int,
                    new_disk.col as int,
                    0,
                    1,
                    right_count as int,
                ),
            ensures
                right_count == run_length(
                    self.board_state,
                    new_disk.color,
                    new_disk.row as int,
                    new_disk.col as int,
                    0,
                    1,
                ),
                left_count + right_count < 3,
            decreases new_disk.right_range - right_count,
        {
            if self.board_state[new_disk.row][new_disk.col + 1 + right_count] != new_disk.color {
                break ;
            }
            right_count += 1;
            if left_count + right_count == 3 {
                return true;
            }
        }
        false
    }

    /// Whether the disk completes a line along the diagonal that falls to
    /// the right.
    fn check_right_diag(&self, new_disk: &DiskData) -> (won: bool)
        requires
            new_disk.wf(),
        ensures
            won == completes_line(
                self.board_state,
                new_disk.color,
                new_disk.row as int,
                new_disk.col as int,
                1,
                1,
            ),
    {
        let top_left_range: usize = min(new_disk.up_range, new_disk.left_range);
        let mut top_left_count: usize = 0;
        while top_left_count < top_left_range
            invariant_except_break
                top_left_count <= top_left_range,
            invariant
                new_disk.wf(),
                top_left_range == spec_min(new_disk.up_range as int, new_disk.left_range as int),
                top_left_count <= 3,
                runs(
                    self.board_state,
                    new_disk.color,
                    new_disk.row as int,
                    new_disk.col as int,
                    -1,
                    -1,
                    top_left_count as int,
                ),
            ensures
                top_left_count == run_length(
                    self.board_state,
                    new_disk.color,
                    new_disk.row as int,
                    new_disk.col as int,
                    -1,
                    -1,
                ),
            decreases top_left_range - top_left_count,
        {
            if self.board_state[new_disk.row - 1 - top_left_count][new_disk.col - 1
                - top_left_count] != new_disk.color {
                break ;
            }
            top_left_count += 1;
        }
        if top_left_count == 3 {
            return true;
        }
        let bottom_right_range: usize = min(new_disk.down_range, new_disk.right_range);
        let mut bottom_right_count: usize = 0;
        while bottom_right_count < bottom_right_range
            invariant_except_break
                bottom_right_count <= bottom_right_range,
            invariant
                new_disk.wf(),
                bottom_right_range == spec_min(
                    new_disk.down_range as int,
                    new_disk.right_range as int,
                ),
                top_left_count + bottom_right_count < 3,
                top_left_count == run_length(
                    self.board_state,
                    new_disk.color,
                    new_disk.row as int,
                    new_disk.col as int,
                    -1,
                    -1,
                ),
                runs(
                    self.board_state,
                    new_disk.color,
                    new_disk.row as int,
                    new_disk.col as int,
                    1,
                    1,
                    bottom_right_count as int,
                ),
            ensures
                bottom_right_count == run_length(
                    self.board_state,
                    new_disk.color,
                    new_disk.row as int,
                    new_disk.col as int,
                    1,
                    1,
                ),
                top_left_count + bottom_right_count < 3,
            decreases bottom_right_range - bottom_right_count,
        {
            if self.board_state[new_disk.row + 1 + bottom_right_count][new_disk.col + 1
                + bottom_right_count] != new_disk.color {
                break ;
            }
            bottom_right_count += 1;
            if top_left_count + bottom_right_count == 3 {
                return true;
            }
        }
        false
    }

    /// Whether the disk completes a line along the diagonal that rises to
    /// the right.
    fn check_left_diag(&self, new_disk: &DiskData) -> (won: bool)
        requires
            new_disk.wf(),
        ensures
            won == completes_line(
                self.board_state,
                new_disk.color,
                new_disk.row as int,
                new_disk.col as int,
                1,
                -1,
            ),
    {
        let top_right_range: usize = min(new_disk.up_range, new_disk.right_range);
        let mut top_right_count: usize = 0;
        while top_right_count < top_right_range
            invariant_except_break
                top_right_count <= top_right_range,
            invariant
                new_disk.wf(),
                top_right_range == spec_min(new_disk.up_range as int, new_disk.right_range as int),
                top_right_count <= 3,
                runs(
                    self.board_state,
                    new_disk.color,
                    new_disk.row as int,
                    new_disk.col as int,
                    -1,
                    1,
                    top_right_count as int,
                ),
            ensures
                top_right_count == run_length(
                    self.board_state,
                    new_disk.color,
                    new_disk.row as int,
                    new_disk.col as int,
                    -1,
                    1,
                ),
            decreases top_right_range - top_right_count,
        {
            if self.board_state[new_disk.row - 1 - top_right_count][new_disk.col + 1
                + top_right_count] != new_disk.color {
                break ;
            }
            top_right_count += 1;
        }
        if top_right_count == 3 {
            return true;
        }
        let bottom_left_range: usize = min(new_disk.down_range, new_disk.left_range);
        let mut bottom_left_count: usize = 0;
        while bottom_left_count < bottom_left_range
            invariant_except_break
                bottom_left_count <= bottom_left_range,
            invariant
                new_disk.wf(),
                bottom_left_range == spec_min(
                    new_disk.down_range as int,
                    new_disk.left_range as int,
                ),
                top_right_count + bottom_left_count < 3,
                top_right_count == run_length(
                    self.board_state,
                    new_disk.color,
                    new_disk.row as int,
                    new_disk.col as int,
                    -1,
                    1,
                ),
                runs(
                    self.board_state,
                    new_disk.color,
                    new_disk.row as int,
                    new_disk.col as int,
                    1,
                    -1,
                    bottom_left_count as int,
                ),
            ensures
                bottom_left_count == run_length(
                    self.board_state,
                    new_disk.color,
                    new_disk.row as int,
                    new_disk.col as int,
                    1,
                    -1,
                ),
                top_right_count + bottom_left_count < 3,
            decreases bottom_left_range - bottom_left_count,
        {
            if self.board_state[new_disk.row + 1 + bottom_left_count][new_disk.col - 1
                - bottom_left_count] != new_disk.color {
                break ;
            }
            bottom_left_count += 1;
            if top_right_count + bottom_left_count == 3 {
                return true;
            }
        }
        false
    }
}

/// A game on the grid, with the columns of the moves made so far.
pub struct GameRecord {
    pub state: BoardState,
    pub game_history: [usize; 42],
    pub num_moves: usize,
}

impl GameRecord {
    /// The moves made fit the history, and every column of the history is
    /// one of the grid.
    pub open spec fn wf(&self) -> bool {
        &&& self.num_moves <= 42
        &&& forall|i: int| 0 <= i < 42 ==> #[trigger] self.game_history@[i] < 7
    }

    /// A game with no move made.
    pub fn new() -> (record: Self)
        ensures
            record.wf(),
            record.num_moves == 0,
            forall|r: int, c: int|
                0 <= r < 6 && 0 <= c < 7 ==> record.state.board_state@[r]@[c] == DiskColor::Empty,
            record.state.current_player == DiskColor::P1,
            !record.state.game_won,
    {
        Self { state: BoardState::default(), game_history: [0usize;42], num_moves: 0 }
    }

    /// Takes the last move of the history back and says whether there was
    /// one: at the start of the game nothing changes.
    pub fn undo_last_move(&mut self) -> (undone: bool)
        requires
            old(self).wf(),
        ensures
            final(self).wf(),
            undone == (old(self).num_moves != 0),
            !undone ==> *final(self) == *old(self),
            undone ==> final(self).num_moves == old(self).num_moves - 1 && final(self).game_history
                == old(self).game_history && old(self).state.took_back(
                final(self).state,
                old(self).game_history@[old(self).num_moves - 1] as int,
            ),
    {
        if self.num_moves == 0 {
            return false;
        }
        self.num_moves -= 1;
        // the column the last move was made in
        let col: usize = self.game_history[self.num_moves];
        self.state.undo_move(col);
        true
    }
}

} // verus!
