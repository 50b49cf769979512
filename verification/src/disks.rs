//! The board: two 64-bit words, one bit per cell, with win detection and
//! dropping and removing of disks in constant time.

use vstd::prelude::*;
use crate::bits::{
    bit_set, four_mask, lemma_cell_bit, lemma_drop, lemma_drop_undo, lemma_empty, lemma_foot_fits,
    lemma_four, lemma_gravity, lemma_key_fits, lemma_key_injective, lemma_place, lemma_single_bit,
    lemma_some_bit, lemma_swap, lemma_undo, lemma_xor_bit, wf_bits, BOARD_MASK, BOTTOM_MASK,
};
use crate::constants::{BOARD_HEIGHT, BOARD_WIDTH};
use crate::protocol::GameUpdate;
use vstd::std_specs::convert::FromSpecImpl;

verus! {

/// What a cell of the board holds; also names the player that a client is.
#[derive(Clone, Copy, PartialEq, Eq, Structural, Debug)]
pub enum DiskColor {
    Empty,
    P1,
    P2,
}

impl DiskColor {
    /// The other player; `Empty` stays `Empty`.
    pub open spec fn spec_opposite(self) -> DiskColor {
        match self {
            DiskColor::Empty => DiskColor::Empty,
            DiskColor::P1 => DiskColor::P2,
            DiskColor::P2 => DiskColor::P1,
        }
    }

    /// Switches from P1 to P2 and vice versa.
    pub fn opposite(&self) -> (other: DiskColor)
        ensures
            other == self.spec_opposite(),
    {
        match self {
            DiskColor::Empty => DiskColor::Empty,
            DiskColor::P1 => DiskColor::P2,
            DiskColor::P2 => DiskColor::P1,
        }
    }

    /// The style class of a disk of the colour.
    pub fn style_of_disk(&self) -> (class: &'static str)
        ensures
            *self == DiskColor::Empty ==> class@ == "disk-empty"@,
            *self == DiskColor::P1 ==> class@ == "disk-p1"@,
            *self == DiskColor::P2 ==> class@ == "disk-p2"@,
    {
        match self {
            DiskColor::Empty => "disk-empty",
            DiskColor::P1 => "disk-p1",
            DiskColor::P2 => "disk-p2",
        }
    }

    /// The lower-case name of the colour.
    pub fn to_str(&self) -> (name: &'static str)
        ensures
            *self == DiskColor::Empty ==> name@ == "empty"@,
            *self == DiskColor::P1 ==> name@ == "p1"@,
            *self == DiskColor::P2 ==> name@ == "p2"@,
    {
        match self {
            DiskColor::Empty => "empty",
            DiskColor::P1 => "p1",
            DiskColor::P2 => "p2",
        }
    }
}

/// Why a move could not be made.
#[derive(Clone, Copy, PartialEq, Eq, Structural, Debug)]
pub enum Error {
    /// The column has no open cell left.
    ColumnFull,
    /// No column of the board has an open cell.
    NoLegalMove,
}

impl Error {
    /// The error in words.
    pub fn message(&self) -> (text: &'static str)
        ensures
            *self == Error::ColumnFull ==> text@ == "Cannot drop disk in full column"@,
            *self == Error::NoLegalMove ==> text@ == "No column has an open slot"@,
    {
        match self {
            Error::ColumnFull => "Cannot drop disk in full column",
            Error::NoLegalMove => "No column has an open slot",
        }
    }
}

/// The board as a grid of cells: `cells[col][row]`, seven columns of six
/// rows, row 0 at the bottom.
pub struct Grid {
    pub cells: Seq<Seq<DiskColor>>,
    pub is_p1_turn: bool,
}

impl Grid {
    /// Seven columns of six cells each.
    pub open spec fn well_shaped(self) -> bool {
        &&& self.cells.len() == 7
        &&& forall|c: int| 0 <= c < 7 ==> (#[trigger] self.cells[c]).len() == 6
    }

    /// The cell at `row` and `col`; `Empty` outside the board.
    pub open spec fn at(self, row: int, col: int) -> DiskColor {
        if 0 <= row < 6 && 0 <= col < 7 {
            self.cells[col][row]
        } else {
            DiskColor::Empty
        }
    }

    /// The lowest empty row of `col`, 6 where it has none.
    pub open spec fn height(self, col: int) -> int {
        if self.at(0, col) == DiskColor::Empty {
            0
        } else if self.at(1, col) == DiskColor::Empty {
            1
        } else if self.at(2, col) == DiskColor::Empty {
            2
        } else if self.at(3, col) == DiskColor::Empty {
            3
        } else if self.at(4, col) == DiskColor::Empty {
            4
        } else if self.at(5, col) == DiskColor::Empty {
            5
        } else {
            6
        }
    }

    /// No disk floats: the cells from the height of a column up are empty.
    pub open spec fn settled(self) -> bool {
        forall|r: int, c: int|
            0 <= c < 7 && self.height(c) <= r < 6 ==> #[trigger] self.at(r, c) == DiskColor::Empty
    }

    /// The player whose turn it is.
    pub open spec fn to_move(self) -> DiskColor {
        if self.is_p1_turn {
            DiskColor::P1
        } else {
            DiskColor::P2
        }
    }

    /// The player who moved last.
    pub open spec fn last_mover(self) -> DiskColor {
        self.to_move().spec_opposite()
    }

    /// Whether the top cell of `col` holds a disk.
    pub open spec fn col_full(self, col: int) -> bool {
        self.at(5, col) != DiskColor::Empty
    }

    /// The number of columns whose top cell is empty, among the first `n`.
    pub open spec fn open_cols_below(self, n: int) -> int
        decreases n,
    {
        if n <= 0 {
            0
        } else {
            self.open_cols_below(n - 1) + if self.col_full(n - 1) {
                0int
            } else {
                1int
            }
        }
    }

    /// The sum of the heights of the first `n` columns.
    pub open spec fn disks_below(self, n: int) -> int
        decreases n,
    {
        if n <= 0 {
            0
        } else {
            self.disks_below(n - 1) + self.height(n - 1)
        }
    }

    /// The number of disks on a settled board.
    pub open spec fn num_disks(self) -> int {
        self.disks_below(7)
    }

    /// The grid with `cell` set to `color`.
    pub open spec fn with_cell(self, row: int, col: int, color: DiskColor) -> Grid {
        Grid { cells: self.cells.update(col, self.cells[col].update(row, color)), ..self }
    }

    /// The grid after the side to move has let a disk fall into `col`.
    pub open spec fn drop(self, col: int) -> Grid {
        Grid {
            cells: self.with_cell(self.height(col), col, self.to_move()).cells,
            is_p1_turn: !self.is_p1_turn,
        }
    }

    /// The grid after the top disk of `col` was taken back.
    pub open spec fn undo(self, col: int) -> Grid {
        Grid {
            cells: self.with_cell(self.height(col) - 1, col, DiskColor::Empty).cells,
            is_p1_turn: !self.is_p1_turn,
        }
    }

    /// Whether `row`, `col` is a cell of the board that holds `color`.
    pub open spec fn holds(self, color: DiskColor, row: int, col: int) -> bool {
        0 <= row < 6 && 0 <= col < 7 && self.cells[col][row] == color
    }

    /// Four cells in a line from `row`, `col` in steps of `drow`, `dcol`, all
    /// on the board and all of `color`.
    pub open spec fn line_of_four(
        self,
        color: DiskColor,
        row: int,
        col: int,
        drow: int,
        dcol: int,
    ) -> bool {
        &&& self.holds(color, row, col)
        &&& self.holds(color, row + drow, col + dcol)
        &&& self.holds(color, row + 2 * drow, col + 2 * dcol)
        &&& self.holds(color, row + 3 * drow, col + 3 * dcol)
    }

    /// Whether a line of four of `color` begins at `row`, `col`: upwards, to
    /// the right, or along one of the two diagonals.
    pub open spec fn four_from(self, color: DiskColor, row: int, col: int) -> bool {
        ||| self.line_of_four(color, row, col, 1, 0)
        ||| self.line_of_four(color, row, col, 0, 1)
        ||| self.line_of_four(color, row, col, 1, 1)
        ||| self.line_of_four(color, row, col, -1, 1)
    }

    /// Whether `color` has four in a row somewhere on the board.
    pub open spec fn has_four(self, color: DiskColor) -> bool {
        exists|row: int, col: int| #[trigger] self.four_from(color, row, col)
    }
}

/// Internal storage of the entire board.
#[derive(Clone, Copy, PartialEq, Eq, Structural, Debug)]
pub struct Disks {
    /// The disks of the player whose turn it is.
    position: u64,
    /// All disks.
    mask: u64,
    is_p1_turn: bool,
}

/// The index of the bit that stands for the cell at `row` and `col`.
pub open spec fn cell_index(row: int, col: int) -> u64 {
    (col * 7 + row) as u64
}

/// The colour that the two words and the turn give to one cell.
pub open spec fn cell_color(mask: u64, position: u64, is_p1_turn: bool, row: int, col: int) -> DiskColor {
    if !bit_set(mask, cell_index(row, col)) {
        DiskColor::Empty
    } else if bit_set(position, cell_index(row, col)) == is_p1_turn {
        DiskColor::P1
    } else {
        DiskColor::P2
    }
}

/// The index of the lowest bit of the field of `col`.
fn column_shift(col: u8) -> (shift: u64)
    requires
        col < BOARD_WIDTH,
    ensures
        shift == col * 7,
{
    let stride: u8 = BOARD_HEIGHT + 1;
    assert(col * stride <= 42) by (nonlinear_arith)
        requires
            col < 7,
            stride == 7,
    ;
    (col * stride) as u64
}

impl View for Disks {
    type V = Grid;

    closed spec fn view(&self) -> Grid {
        Grid {
            cells: Seq::new(
                7,
                |c: int|
                    Seq::new(
                        6,
                        |r: int| cell_color(self.mask, self.position, self.is_p1_turn, r, c),
                    ),
            ),
            is_p1_turn: self.is_p1_turn,
        }
    }
}

/// The board as it is at the very start of a match.
impl Default for Disks {
    fn default() -> (d: Self)
        ensures
            d.mask_bits() == 0,
            d.position_bits() == 0,
            d.p1_to_move(),
            d.wf(),
            d == Disks::spec_empty(),
            d@.well_shaped(),
            d@.is_p1_turn,
            forall|r: int, c: int| d@.at(r, c) == DiskColor::Empty,
    {
        let d = Self { position: 0, mask: 0, is_p1_turn: true };
        proof {
            Disks::lemma_empty();
        }
        d
    }
}

/// Whether the words of a game update are those of a board that play can
/// produce.
pub open spec fn valid_update(game: GameUpdate) -> bool {
    wf_bits(game.mask, game.position)
}

/// A board with the words and the turn of a game update.
impl From<GameUpdate> for Disks {
    fn from(game: GameUpdate) -> (d: Self)
        ensures
            d.mask_bits() == game.mask,
            d.position_bits() == game.position,
            d.p1_to_move() == game.is_p1_turn,
            d.wf() == valid_update(game),
            d@.well_shaped(),
            d@.is_p1_turn == game.is_p1_turn,
    {
        Self { position: game.position, mask: game.mask, is_p1_turn: game.is_p1_turn }
    }
}

impl FromSpecImpl<GameUpdate> for Disks {
    open spec fn obeys_from_spec() -> bool {
        true
    }

    closed spec fn from_spec(game: GameUpdate) -> Disks {
        Disks { position: game.position, mask: game.mask, is_p1_turn: game.is_p1_turn }
    }
}

impl Disks {
    /// The word that records all disks.
    pub closed spec fn mask_bits(&self) -> u64 {
        self.mask
    }

    /// The word that records the disks of the player whose turn it is.
    pub closed spec fn position_bits(&self) -> u64 {
        self.position
    }

    /// A board as play produces it: every disk lies on a cell, no disk
    /// floats, and the disks of the side to move are disks of the board.
    pub closed spec fn wf(&self) -> bool {
        wf_bits(self.mask, self.position)
    }

    /// The view has the shape of a board and reads its cells off the bits.
    pub proof fn lemma_view(&self)
        ensures
            self@.well_shaped(),
            self@.is_p1_turn == self.p1_to_move(),
            forall|r: int, c: int|
                0 <= r < 6 && 0 <= c < 7 ==> #[trigger] self@.at(r, c) == cell_color(
                    self.mask_bits(),
                    self.position_bits(),
                    self.p1_to_move(),
                    r,
                    c,
                ),
    {
    }

    /// Whether it is the first player's turn.
    pub closed spec fn p1_to_move(&self) -> bool {
        self.is_p1_turn
    }

    /// The board after the side to move has let a disk fall into `col`.
    pub closed spec fn spec_drop(self, col: u8) -> Disks {
        Disks {
            position: self.position ^ self.mask,
            mask: self.mask | ((self.mask + (1u64 << ((col * 7) as u64))) as u64),
            is_p1_turn: !self.is_p1_turn,
        }
    }

    /// Letting a disk fall into a column with an open cell keeps the board
    /// well-formed and puts the disk of the side to move on the lowest open
    /// cell of the column.
    pub proof fn lemma_drop_view(self, col: u8)
        requires
            self.wf(),
            col < 7,
            !self@.col_full(col as int),
        ensures
            self.spec_drop(col).wf(),
            self.spec_drop(col)@ == self@.drop(col as int),
            self.spec_drop(col).mask_bits() == self.mask_bits() | (1u64 << cell_index(
                self@.height(col as int),
                col as int,
            )),
            self.spec_drop(col).position_bits() == self.position_bits() ^ self.mask_bits(),
            self.spec_drop(col).p1_to_move() == !self.p1_to_move(),
            self.mask_bits() + (1u64 << ((col * 7) as u64)) <= u64::MAX,
    {
        let h = self@.height(col as int);
        let k = cell_index(h, col as int);
        let sh = (col * 7) as u64;
        let below = if h > 0 {
            cell_index(h - 1, col as int)
        } else {
            0
        };
        let after = self.spec_drop(col);
        lemma_drop(self.mask, self.position, sh, k, below);
        assert(after.mask == self.mask | (1u64 << k));
        let target = self@.drop(col as int);
        assert forall|c: int| 0 <= c < 7 implies #[trigger] after@.cells[c] =~= target.cells[c] by {
            assert forall|r: int| 0 <= r < 6 implies #[trigger] after@.cells[c][r]
                == target.cells[c][r] by {
                let j = cell_index(r, c);
                lemma_single_bit(self.mask, k, j);
                lemma_xor_bit(self.position, self.mask, j);
            }
        }
        assert(after@.cells =~= target.cells);
    }

    /// On a well-formed board a disk rests on a disk.
    pub proof fn lemma_rests(self, row: int, col: int)
        requires
            self.wf(),
            0 <= row < 5,
            0 <= col < 7,
            self@.at(row + 1, col) != DiskColor::Empty,
        ensures
            self@.at(row, col) != DiskColor::Empty,
    {
        lemma_gravity(self.mask, cell_index(row, col), cell_index(row + 1, col));
    }

    /// On a well-formed board no disk floats.
    pub proof fn lemma_settled(self)
        requires
            self.wf(),
        ensures
            self@.settled(),
    {
        assert forall|r: int, c: int| 0 <= c < 7 && self@.height(c) <= r < 6 implies #[trigger] self@.at(
            r,
            c,
        ) == DiskColor::Empty by {
            if self@.at(1, c) != DiskColor::Empty {
                self.lemma_rests(0, c);
            }
            if self@.at(2, c) != DiskColor::Empty {
                self.lemma_rests(1, c);
            }
            if self@.at(3, c) != DiskColor::Empty {
                self.lemma_rests(2, c);
            }
            if self@.at(4, c) != DiskColor::Empty {
                self.lemma_rests(3, c);
            }
            if self@.at(5, c) != DiskColor::Empty {
                self.lemma_rests(4, c);
            }
        }
    }

    /// The board after the top disk of `col` was taken back; the board
    /// itself where the column is empty.
    pub closed spec fn spec_undo(self, col: u8) -> Disks {
        let h = self@.height(col as int);
        if h == 0 {
            self
        } else {
            let cleared = self.mask ^ (1u64 << cell_index(h - 1, col as int));
            Disks {
                position: self.position ^ cleared,
                mask: cleared,
                is_p1_turn: !self.is_p1_turn,
            }
        }
    }

    /// Taking back the top disk of a column empties its cell, keeps every
    /// other disk and its colour, and hands the turn back. The board stays
    /// well-formed exactly where that disk was the last mover's.
    pub proof fn lemma_undo_view(self, col: u8)
        requires
            self.wf(),
            col < 7,
            self@.height(col as int) > 0,
        ensures
            self.spec_undo(col)@ == self@.undo(col as int),
            self.spec_undo(col).wf() == (self@.at(self@.height(col as int) - 1, col as int)
                == self@.last_mover()),
            self.spec_undo(col).mask_bits() == self.mask_bits() ^ (1u64 << cell_index(
                self@.height(col as int) - 1,
                col as int,
            )),
            self.spec_undo(col).position_bits() == self.position_bits() ^ self.spec_undo(
                col,
            ).mask_bits(),
            self.spec_undo(col).p1_to_move() == !self.p1_to_move(),
    {
        let h = self@.height(col as int);
        let k = cell_index(h - 1, col as int);
        let above = cell_index(h, col as int);
        let after = self.spec_undo(col);
        let target = self@.undo(col as int);
        lemma_undo(self.mask, self.position, k, above);
        lemma_single_bit(self.mask, k, k);
        assert forall|c: int| 0 <= c < 7 implies #[trigger] after@.cells[c] =~= target.cells[c] by {
            assert forall|r: int| 0 <= r < 6 implies #[trigger] after@.cells[c][r]
                == target.cells[c][r] by {
                let j = cell_index(r, c);
                lemma_single_bit(self.mask, k, j);
                lemma_xor_bit(self.position, after.mask, j);
            }
        }
        assert(after@.cells =~= target.cells);
    }

    /// Taking back a disk that was just dropped restores the board: both
    /// words and the turn.
    pub proof fn lemma_drop_then_undo(self, col: u8)
        requires
            self.wf(),
            col < 7,
            !self@.col_full(col as int),
        ensures
            self.spec_drop(col).spec_undo(col) == self,
    {
        let h = self@.height(col as int);
        let k = cell_index(h, col as int);
        let after = self.spec_drop(col);
        self.lemma_drop_view(col);
        self.lemma_settled();
        let below = if h > 0 {
            cell_index(h - 1, col as int)
        } else {
            0
        };
        lemma_drop(self.mask, self.position, (col * 7) as u64, k, below);
        assert(after@.height(col as int) == h + 1) by {
            assert(forall|r: int| 0 <= r < 6 ==> after@.at(r, col as int) == self@.drop(
                col as int,
            ).at(r, col as int));
        }
        lemma_drop_undo(self.mask, self.position, k);
    }

    /// The disks of the player who moved last.
    pub closed spec fn mover_bits(self) -> u64 {
        self.position ^ self.mask
    }

    /// Whether the disks of the player who moved last hold four set bits in
    /// a line, by the shifts of the four directions.
    pub closed spec fn spec_won(self) -> bool {
        ||| four_mask(self.mover_bits(), 7) != 0
        ||| four_mask(self.mover_bits(), 6) != 0
        ||| four_mask(self.mover_bits(), 8) != 0
        ||| four_mask(self.mover_bits(), 1) != 0
    }

    /// A bit of the last mover's disks is set exactly where a cell holds a
    /// disk of the last mover.
    proof fn lemma_mover_bit(self, j: u64)
        requires
            self.wf(),
            j < 64,
        ensures
            bit_set(self.mover_bits(), j) ==> j < 49 && j % 7 != 6 && self@.holds(
                self@.last_mover(),
                j as int % 7,
                j as int / 7,
            ),
            forall|r: int, c: int|
                0 <= r < 6 && 0 <= c < 7 && cell_index(r, c) == j && #[trigger] self@.holds(
                    self@.last_mover(),
                    r,
                    c,
                ) ==> bit_set(self.mover_bits(), j),
    {
        lemma_xor_bit(self.position, self.mask, j);
        if bit_set(self.mask, j) {
            lemma_cell_bit(self.mask, j);
            assert(cell_index(j as int % 7, j as int / 7) == j);
        }
    }

    /// A line of four of the last mover shows in the bits.
    proof fn lemma_line_wins(self, row: int, col: int, drow: int, dcol: int)
        requires
            self.wf(),
            self@.line_of_four(self@.last_mover(), row, col, drow, dcol),
            (drow == 1 && dcol == 0) || (drow == 0 && dcol == 1) || (drow == 1 && dcol == 1) || (drow
                == -1 && dcol == 1),
        ensures
            four_mask(self.mover_bits(), (7 * dcol + drow) as u64) != 0,
    {
        let s = (7 * dcol + drow) as u64;
        let i = cell_index(row, col);
        self.lemma_mover_bit(i);
        self.lemma_mover_bit((i + s) as u64);
        self.lemma_mover_bit((i + 2 * s) as u64);
        self.lemma_mover_bit((i + 3 * s) as u64);
        assert(self@.holds(self@.last_mover(), row, col));
        assert(self@.holds(self@.last_mover(), row + drow, col + dcol));
        assert(self@.holds(self@.last_mover(), row + 2 * drow, col + 2 * dcol));
        assert(self@.holds(self@.last_mover(), row + 3 * drow, col + 3 * dcol));
        assert(cell_index(row + drow, col + dcol) == i + s);
        assert(cell_index(row + 2 * drow, col + 2 * dcol) == i + 2 * s);
        assert(cell_index(row + 3 * drow, col + 3 * dcol) == i + 3 * s);
        lemma_four(self.mover_bits(), s, i);
    }

    /// Four set bits in a line are a line of four of the last mover.
    proof fn lemma_win_line(self, drow: int, dcol: int)
        requires
            self.wf(),
            (drow == 1 && dcol == 0) || (drow == 0 && dcol == 1) || (drow == 1 && dcol == 1) || (drow
                == -1 && dcol == 1),
            four_mask(self.mover_bits(), (7 * dcol + drow) as u64) != 0,
        ensures
            self@.has_four(self@.last_mover()),
    {
        let s = (7 * dcol + drow) as u64;
        let i = lemma_some_bit(four_mask(self.mover_bits(), s));
        lemma_four(self.mover_bits(), s, i);
        self.lemma_mover_bit(i);
        self.lemma_mover_bit((i + s) as u64);
        self.lemma_mover_bit((i + 2 * s) as u64);
        self.lemma_mover_bit((i + 3 * s) as u64);
        let row = i as int % 7;
        let col = i as int / 7;
        let color = self@.last_mover();
        assert(self@.line_of_four(color, row, col, drow, dcol));
        assert(self@.four_from(color, row, col));
    }

    /// The bits show a win exactly where the player who moved last has four
    /// in a row on the grid.
    pub proof fn lemma_won_iff(self)
        requires
            self.wf(),
        ensures
            self.spec_won() == self@.has_four(self@.last_mover()),
    {
        let color = self@.last_mover();
        if self.spec_won() {
            if four_mask(self.mover_bits(), 7) != 0 {
                self.lemma_win_line(0, 1);
            } else if four_mask(self.mover_bits(), 6) != 0 {
                self.lemma_win_line(-1, 1);
            } else if four_mask(self.mover_bits(), 8) != 0 {
                self.lemma_win_line(1, 1);
            } else {
                self.lemma_win_line(1, 0);
            }
        }
        if self@.has_four(color) {
            let (row, col) = choose|row: int, col: int| #[trigger]
                self@.four_from(color, row, col);
            if self@.line_of_four(color, row, col, 1, 0) {
                self.lemma_line_wins(row, col, 1, 0);
            } else if self@.line_of_four(color, row, col, 0, 1) {
                self.lemma_line_wins(row, col, 0, 1);
            } else if self@.line_of_four(color, row, col, 1, 1) {
                self.lemma_line_wins(row, col, 1, 1);
            } else {
                self.lemma_line_wins(row, col, -1, 1);
            }
        }
    }

    /// The empty board is well-formed and all its cells are empty.
    pub proof fn lemma_empty()
        ensures
            Disks::spec_empty().wf(),
            Disks::spec_empty().mask_bits() == 0,
            Disks::spec_empty().position_bits() == 0,
            Disks::spec_empty().p1_to_move(),
            Disks::spec_empty()@.well_shaped(),
            Disks::spec_empty()@.is_p1_turn,
            forall|r: int, c: int| Disks::spec_empty()@.at(r, c) == DiskColor::Empty,
    {
        lemma_empty(0);
        assert forall|r: int, c: int| Disks::spec_empty()@.at(r, c) == DiskColor::Empty by {
            if 0 <= r < 6 && 0 <= c < 7 {
                lemma_empty(cell_index(r, c));
            }
        }
    }

    /// The key of the board: the sum of its two words.
    pub closed spec fn spec_key(self) -> u64 {
        (self.mask + self.position) as u64
    }

    /// The empty board, with the first player to move.
    pub closed spec fn spec_empty() -> Disks {
        Disks { position: 0, mask: 0, is_p1_turn: true }
    }

    /// The board that the drops `moves`, made in turn from the empty board,
    /// lead to; `None` where one of them names no column or a full one.
    pub open spec fn after_moves(moves: Seq<u8>) -> Option<Disks>
        decreases moves.len(),
    {
        if moves.len() == 0 {
            Some(Disks::spec_empty())
        } else {
            match Disks::after_moves(moves.drop_last()) {
                Some(before) => if moves.last() < 7 && !before@.col_full(moves.last() as int) {
                    Some(before.spec_drop(moves.last()))
                } else {
                    None
                },
                None => None,
            }
        }
    }

    /// Whether legal play from the empty board leads to this board.
    pub open spec fn reachable(self) -> bool {
        exists|moves: Seq<u8>| Disks::after_moves(moves) == Some(self)
    }

    /// Whether a cell is empty depends on the word of all disks alone, and so
    /// do the heights of the columns and the number of disks.
    pub proof fn lemma_same_mask(self, other: Disks)
        requires
            self.mask_bits() == other.mask_bits(),
        ensures
            forall|r: int, c: int|
                (#[trigger] self@.at(r, c) == DiskColor::Empty) == (other@.at(r, c)
                    == DiskColor::Empty),
            forall|c: int| #[trigger] self@.height(c) == other@.height(c),
            self@.num_disks() == other@.num_disks(),
    {
        assert forall|r: int, c: int|
            (#[trigger] self@.at(r, c) == DiskColor::Empty) == (other@.at(r, c)
                == DiskColor::Empty) by {}
        assert forall|c: int| #[trigger] self@.height(c) == other@.height(c) by {
            assert((self@.at(0, c) == DiskColor::Empty) == (other@.at(0, c) == DiskColor::Empty));
            assert((self@.at(1, c) == DiskColor::Empty) == (other@.at(1, c) == DiskColor::Empty));
            assert((self@.at(2, c) == DiskColor::Empty) == (other@.at(2, c) == DiskColor::Empty));
            assert((self@.at(3, c) == DiskColor::Empty) == (other@.at(3, c) == DiskColor::Empty));
            assert((self@.at(4, c) == DiskColor::Empty) == (other@.at(4, c) == DiskColor::Empty));
            assert((self@.at(5, c) == DiskColor::Empty) == (other@.at(5, c) == DiskColor::Empty));
        }
        reveal_with_fuel(Grid::disks_below, 8);
    }

    /// A board holds at most 42 disks.
    pub proof fn lemma_counts(self)
        ensures
            0 <= self@.num_disks() <= 42,
    {
        reveal_with_fuel(Grid::disks_below, 8);
    }

    /// A drop adds one disk.
    pub proof fn lemma_drop_count(self, col: u8)
        requires
            self.wf(),
            col < 7,
            !self@.col_full(col as int),
        ensures
            self.spec_drop(col)@.num_disks() == self@.num_disks() + 1,
    {
        self.lemma_drop_view(col);
        self.lemma_settled();
        let after = self@.drop(col as int);
        assert forall|c: int| 0 <= c < 7 implies #[trigger] after.height(c) == self@.height(c) + if c
            == col {
            1int
        } else {
            0int
        } by {
            assert(forall|r: int| 0 <= r < 6 ==> after.at(r, c) == if r == self@.height(col as int)
                && c == col {
                self@.to_move()
            } else {
                self@.at(r, c)
            });
        }
        reveal_with_fuel(Grid::disks_below, 8);
    }

    /// Legal play leads to well-formed boards on which the first player is
    /// to move exactly when the number of disks is even.
    pub proof fn lemma_after_moves(moves: Seq<u8>)
        requires
            Disks::after_moves(moves) is Some,
        ensures
            Disks::after_moves(moves)->0.wf(),
            Disks::after_moves(moves)->0@.num_disks() == moves.len(),
            Disks::after_moves(moves)->0.p1_to_move() == (moves.len() % 2 == 0),
        decreases moves.len(),
    {
        if moves.len() == 0 {
            Disks::lemma_empty();
            reveal_with_fuel(Grid::disks_below, 8);
        } else {
            Disks::lemma_after_moves(moves.drop_last());
            let before = Disks::after_moves(moves.drop_last())->0;
            before.lemma_drop_view(moves.last());
            before.lemma_drop_count(moves.last());
        }
    }

    /// Two well-formed boards with the same key have the same words: the
    /// same cells hold disks, and the same cells hold disks of the side to
    /// move.
    pub proof fn lemma_key_determines_words(self, other: Disks)
        requires
            self.wf(),
            other.wf(),
            self.spec_key() == other.spec_key(),
        ensures
            self.mask_bits() == other.mask_bits(),
            self.position_bits() == other.position_bits(),
    {
        lemma_key_fits(self.mask, self.position);
        lemma_key_fits(other.mask, other.position);
        lemma_key_injective(self.mask, self.position, other.mask, other.position);
    }

    /// No two boards that legal play leads to have the same key.
    pub proof fn lemma_key_injective_on_reachable(self, other: Disks)
        requires
            self.reachable(),
            other.reachable(),
            self.spec_key() == other.spec_key(),
        ensures
            self == other,
    {
        let m1 = choose|moves: Seq<u8>| Disks::after_moves(moves) == Some(self);
        let m2 = choose|moves: Seq<u8>| Disks::after_moves(moves) == Some(other);
        Disks::lemma_after_moves(m1);
        Disks::lemma_after_moves(m2);
        self.lemma_key_determines_words(other);
        self.lemma_same_mask(other);
    }

    /// The board with the same disks and the other player to move.
    pub closed spec fn spec_swapped(self) -> Disks {
        Disks {
            position: self.position ^ self.mask,
            mask: self.mask,
            is_p1_turn: !self.is_p1_turn,
        }
    }

    /// The board with the colours of all disks exchanged, and of the
    /// players: the same two words, the other turn.
    pub closed spec fn spec_recolored(self) -> Disks {
        Disks { position: self.position, mask: self.mask, is_p1_turn: !self.is_p1_turn }
    }

    /// Handing the turn over keeps every disk and its colour.
    pub proof fn lemma_swapped(self)
        requires
            self.wf(),
        ensures
            self.spec_swapped().wf(),
            self.spec_swapped()@.cells == self@.cells,
            self.spec_swapped()@.is_p1_turn == !self@.is_p1_turn,
    {
        let after = self.spec_swapped();
        lemma_swap(self.mask, self.position);
        assert forall|c: int| 0 <= c < 7 implies #[trigger] after@.cells[c] =~= self@.cells[c] by {
            assert forall|r: int| 0 <= r < 6 implies #[trigger] after@.cells[c][r]
                == self@.cells[c][r] by {
                lemma_xor_bit(self.position, self.mask, cell_index(r, c));
            }
        }
        assert(after@.cells =~= self@.cells);
    }

    /// Exchanging the colours keeps the words, and with them the key, the
    /// full columns and what a drop does to the words.
    pub proof fn lemma_recolored(self, col: u8)
        requires
            self.wf(),
        ensures
            self.spec_recolored().wf(),
            self.spec_recolored().spec_key() == self.spec_key(),
            self.spec_recolored().spec_won() == self.spec_won(),
            self.spec_recolored().spec_drop(col) == self.spec_drop(col).spec_recolored(),
            forall|c: int| self.spec_recolored()@.col_full(c) == self@.col_full(c),
            forall|r: int, c: int|
                #[trigger] self.spec_recolored()@.at(r, c) == self@.at(r, c).spec_opposite(),
            self.spec_recolored()@.is_p1_turn == !self@.is_p1_turn,
    {
    }

    /// Two boards with the same words and the same turn are one board.
    pub proof fn lemma_same_bits(self, other: Disks)
        requires
            self.mask_bits() == other.mask_bits(),
            self.position_bits() == other.position_bits(),
            self.p1_to_move() == other.p1_to_move(),
        ensures
            self == other,
    {
    }

    /// The board that holds the disks of a grid given row by row,
    /// `cells[row][col]`, with the first player to move or not. No check is
    /// made that no disk floats.
    pub fn from_cells(cells: &[[DiskColor; 7]; 6], is_p1_turn: bool) -> (d: Self)
        ensures
            d.p1_to_move() == is_p1_turn,
            d@.well_shaped(),
            d@.is_p1_turn == is_p1_turn,
            forall|r: int, c: int| 0 <= r < 6 && 0 <= c < 7 ==> d@.at(r, c) == cells@[r]@[c],
            d.mask_bits() & !BOARD_MASK == 0,
            d.position_bits() & !d.mask_bits() == 0,
    {
        let mut position: u64 = 0;
        let mut mask: u64 = 0;
        proof {
            lemma_empty(0);
            assert forall|j: u64| j < 64 implies !bit_set(0u64, j) by {
                lemma_empty(j);
            }
        }
        let mut col: u8 = 0;
        while col < 7
            invariant
                col <= 7,
                mask & !BOARD_MASK == 0,
                position & !mask == 0,
                forall|r: int, c: int|
                    0 <= r < 6 && 0 <= c < col ==> #[trigger] cell_color(
                        mask,
                        position,
                        is_p1_turn,
                        r,
                        c,
                    ) == cells@[r]@[c],
                forall|j: u64| col * 7 <= j < 64 ==> !#[trigger] bit_set(mask, j),
            decreases 7 - col,
        {
            let mut row: u8 = 0;
            while row < 6
                invariant
                    row <= 6,
                    col < 7,
                    mask & !BOARD_MASK == 0,
                    position & !mask == 0,
                    forall|r: int, c: int|
                        0 <= r < 6 && (0 <= c < col || (c == col && r < row)) ==> #[trigger] cell_color(
                            mask,
                            position,
                            is_p1_turn,
                            r,
                            c,
                        ) == cells@[r]@[c],
                    forall|j: u64| col * 7 + row <= j < 64 ==> !#[trigger] bit_set(mask, j),
                decreases 6 - row,
            {
                let disk: DiskColor = cells[row as usize][col as usize];
                let shift: u64 = column_shift(col) + row as u64;
                let ghost mask_before = mask;
                let ghost position_before = position;
                if disk != DiskColor::Empty {
                    proof {
                        lemma_place(mask, position, shift);
                    }
                    mask |= 1u64 << shift;
                    if is_p1_turn == (disk == DiskColor::P1) {
                        position |= 1u64 << shift;
                    }
                }
                proof {
                    assert forall|j: u64| j < 64 implies bit_set(mask, j) == (bit_set(
                        mask_before,
                        j,
                    ) || (j == shift && disk != DiskColor::Empty)) && bit_set(position, j) == (
                    bit_set(position_before, j) || (j == shift && disk != DiskColor::Empty
                        && is_p1_turn == (disk == DiskColor::P1))) by {
                        lemma_single_bit(mask_before, shift, j);
                        lemma_single_bit(position_before, shift, j);
                    }
                    lemma_xor_bit(position_before, mask_before, shift);
                    assert forall|r: int, c: int|
                        0 <= r < 6 && (0 <= c < col || (c == col && r < row + 1)) implies #[trigger] cell_color(
                        mask,
                        position,
                        is_p1_turn,
                        r,
                        c,
                    ) == cells@[r]@[c] by {
                        let j = cell_index(r, c);
                        assert(bit_set(mask, j) == (bit_set(mask_before, j) || (j == shift && disk
                            != DiskColor::Empty)));
                        if j != shift {
                            assert(cell_color(mask_before, position_before, is_p1_turn, r, c)
                                == cells@[r]@[c]);
                        }
                    }
                }
                row += 1;
            }
            col += 1;
        }
        let d = Self { position, mask, is_p1_turn };
        proof {
            d.lemma_view();
        }
        d
    }

    /// Whether the board is one that play can produce.
    pub fn is_valid(&self) -> (valid: bool)
        ensures
            valid == self.wf(),
    {
        proof {
            if self.mask & !BOARD_MASK == 0 {
                lemma_foot_fits(self.mask);
            }
        }
        self.mask & !BOARD_MASK == 0 && self.mask & (self.mask + BOTTOM_MASK) == 0
            && self.position & !self.mask == 0
    }

    /// Returns whether the given column is full (has no open slots).
    pub fn is_col_full(&self, col: u8) -> (full: bool)
        requires
            col < BOARD_WIDTH,
        ensures
            full == self@.col_full(col as int),
    {
        let shift: u64 = column_shift(col) + (BOARD_HEIGHT - 1) as u64;
        proof {
            lemma_single_bit(self.mask, shift, shift);
            assert(shift == cell_index(5, col as int));
        }
        self.mask & (1u64 << shift) != 0
    }

    /// Returns whether the player who made the last move has four in a row.
    pub fn check_last_drop_won(&self) -> (won: bool)
        requires
            self.wf(),
        ensures
            won == self@.has_four(self@.last_mover()),
            won == self.spec_won(),
    {
        proof {
            self.lemma_won_iff();
        }
        let other_player_position: u64 = self.position ^ self.mask;
        // horizontal
        let mut temp: u64 = other_player_position & (other_player_position >> 7u64);
        if (temp & (temp >> 14u64)) != 0 {
            return true;
        }
        // diagonal, falling to the right
        temp = other_player_position & (other_player_position >> 6u64);
        if (temp & (temp >> 12u64)) != 0 {
            return true;
        }
        // diagonal, rising to the right
        temp = other_player_position & (other_player_position >> 8u64);
        if (temp & (temp >> 16u64)) != 0 {
            return true;
        }
        // vertical
        temp = other_player_position & (other_player_position >> 1u64);
        if (temp & (temp >> 2u64)) != 0 {
            return true;
        }
        false
    }

    /// Returns a key that tells this board from every other well-formed
    /// board with the same side to move: the sum of the two words.
    pub fn get_key(&self) -> (key: u64)
        requires
            self.wf(),
        ensures
            key == self.spec_key(),
            key == self.mask_bits() + self.position_bits(),
    {
        proof {
            lemma_key_fits(self.mask, self.position);
        }
        self.mask + self.position
    }

    /// Puts a disk of the player whose turn it is into the given column.
    /// Fails, and leaves the board as it is, where the column is full.
    pub fn drop_disk(&mut self, col: u8) -> (res: Result<(), Error>)
        requires
            old(self).wf(),
            col < BOARD_WIDTH,
        ensures
            old(self)@.col_full(col as int) ==> res == Err::<(), Error>(Error::ColumnFull)
                && *final(self) == *old(self),
            !old(self)@.col_full(col as int) ==> res is Ok && *final(self) == old(self).spec_drop(
                col,
            ) && final(self).wf() && final(self)@ == old(self)@.drop(col as int),
            !old(self)@.col_full(col as int) ==> final(self).mask_bits() == old(self).mask_bits() | (
            1u64 << cell_index(old(self)@.height(col as int), col as int)),
            !old(self)@.col_full(col as int) ==> final(self).position_bits()
                == old(self).position_bits() ^ old(self).mask_bits(),
    {
        if self.is_col_full(col) {
            Err(Error::ColumnFull)
        } else {
            proof {
                self.lemma_drop_view(col);
            }
            self.is_p1_turn = !self.is_p1_turn;
            self.position ^= self.mask;
            self.mask |= self.mask + (1u64 << column_shift(col));
            Ok(())
        }
    }

    /// Takes the top disk off the given column and hands the turn back;
    /// does nothing where the column is empty.
    pub fn rm_disk_from_col(&mut self, col: u8)
        requires
            old(self).wf(),
            col < BOARD_WIDTH,
        ensures
            *final(self) == old(self).spec_undo(col),
            old(self)@.height(col as int) == 0 ==> *final(self) == *old(self),
            old(self)@.height(col as int) > 0 ==> final(self)@ == old(self)@.undo(col as int),
            final(self).wf() == (old(self)@.height(col as int) == 0 || old(self)@.at(
                old(self)@.height(col as int) - 1,
                col as int,
            ) == old(self)@.last_mover()),
    {
        let row: u8 = self.first_opening_in_col(col);
        if row > 0 {
            proof {
                self.lemma_undo_view(col);
            }
            self.mask ^= 1u64 << (column_shift(col) + (row - 1) as u64);
            self.position ^= self.mask;
            self.is_p1_turn = !self.is_p1_turn;
        }
    }

    /// Returns the color of the disk at the given location.
    pub fn get_disk(&self, row: u8, col: u8) -> (color: DiskColor)
        requires
            row < BOARD_HEIGHT,
            col < BOARD_WIDTH,
        ensures
            color == self@.at(row as int, col as int),
    {
        let shift: u64 = column_shift(col) + row as u64;
        proof {
            lemma_single_bit(self.mask, shift, shift);
            lemma_single_bit(self.position, shift, shift);
            assert(shift == cell_index(row as int, col as int));
        }
        if self.mask & (1u64 << shift) == 0 {
            DiskColor::Empty
        } else if (self.position & (1u64 << shift) != 0) == self.is_p1_turn {
            DiskColor::P1
        } else {
            DiskColor::P2
        }
    }

    /// Returns the first empty row in the column, or `BOARD_HEIGHT` if the
    /// column has none.
    pub fn first_opening_in_col(&self, col: u8) -> (row: u8)
        requires
            col < BOARD_WIDTH,
        ensures
            row == self@.height(col as int),
    {
        let base: u64 = column_shift(col);
        let mut row: u8 = 0;
        while row < BOARD_HEIGHT
            invariant
                row <= 6,
                col < 7,
                base == col * 7,
                forall|r: int| 0 <= r < row ==> self@.at(r, col as int) != DiskColor::Empty,
            decreases 6 - row,
        {
            let shift: u64 = base + row as u64;
            proof {
                lemma_single_bit(self.mask, shift, shift);
                assert(shift == cell_index(row as int, col as int));
            }
            if self.mask & (1u64 << shift) == 0 {
                return row;
            }
            row += 1;
        }
        BOARD_HEIGHT
    }

    /// Returns the total number of disks on the board.
    pub fn get_num_disks(&self) -> (count: u8)
        ensures
            count == self@.num_disks(),
            count <= 42,
    {
        let mut num_disks: u8 = 0;
        let mut col: u8 = 0;
        while col < BOARD_WIDTH
            invariant
                col <= 7,
                num_disks == self@.disks_below(col as int),
                num_disks <= 6 * col,
            decreases 7 - col,
        {
            num_disks += self.first_opening_in_col(col);
            col += 1;
        }
        num_disks
    }

    /// Returns whether the entire board is full (has no open slots).
    pub fn is_full(&self) -> (full: bool)
        ensures
            full == (forall|c: int| 0 <= c < 7 ==> self@.col_full(c)),
    {
        let mut col: u8 = 0;
        while col < BOARD_WIDTH
            invariant
                col <= 7,
                forall|c: int| 0 <= c < col ==> self@.col_full(c),
            decreases 7 - col,
        {
            if !self.is_col_full(col) {
                return false;
            }
            col += 1;
        }
        true
    }

    /// Gets the number of columns that are not full.
    pub fn num_open_cols(&self) -> (count: u8)
        ensures
            count == self@.open_cols_below(7),
            count <= 7,
    {
        let mut num_open_cols: u8 = 0;
        let mut col: u8 = 0;
        while col < BOARD_WIDTH
            invariant
                col <= 7,
                num_open_cols == self@.open_cols_below(col as int),
                num_open_cols <= col,
            decreases 7 - col,
        {
            if !self.is_col_full(col) {
                num_open_cols += 1;
            }
            col += 1;
        }
        num_open_cols
    }

    /// Turns the board into a game update that says whether the game is won.
    pub fn to_game_update(&self, game_won: bool) -> (update: GameUpdate)
        ensures
            update.position == self.position_bits(),
            update.mask == self.mask_bits(),
            update.is_p1_turn == self.p1_to_move(),
            update.game_won == game_won,
    {
        GameUpdate {
            position: self.position,
            mask: self.mask,
            is_p1_turn: self.is_p1_turn,
            game_won,
        }
    }

    /// Returns whether it is the first player's turn.
    pub fn get_is_p1_turn(&self) -> (turn: bool)
        ensures
            turn == self@.is_p1_turn,
            turn == self.p1_to_move(),
    {
        self.is_p1_turn
    }
}

} // verus!
