//! The search of the brute-force player: it looks at every line of play a
//! set number of moves ahead, and picks the move that wins soonest or loses
//! latest.

use vstd::prelude::*;
use crate::ai::util::random_col_from_options;
use crate::constants::{BOARD_WIDTH, LOOKUP_TABLE_SIZE};
use crate::disks::Disks;
use crate::position_lookup_table::PositionLookupTable;

verus! {

/// The score that stands for a column that cannot be played. It lies
/// below every score of a column that can: those are at least -100.
pub const UNPLAYABLE_SCORE: i8 = -101;

/// Whether `col` can be played and no column that can be played has a
/// higher score.
pub open spec fn is_best_column(scores: Seq<i8>, playable: Seq<bool>, col: int) -> bool {
    &&& 0 <= col < 7
    &&& playable[col]
    &&& forall|c: int| 0 <= c < 7 && playable[c] ==> scores[c] <= scores[col]
}

/// The best columns among the first `n`, ascending.
pub open spec fn best_columns_below(scores: Seq<i8>, playable: Seq<bool>, n: int) -> Seq<u8>
    decreases n,
{
    if n <= 0 {
        Seq::empty()
    } else if is_best_column(scores, playable, n - 1) {
        best_columns_below(scores, playable, n - 1).push((n - 1) as u8)
    } else {
        best_columns_below(scores, playable, n - 1)
    }
}

/// All best columns, ascending: the list that the choice is made from.
pub open spec fn spec_best_columns(scores: Seq<i8>, playable: Seq<bool>) -> Seq<u8> {
    best_columns_below(scores, playable, 7)
}

/// Whether `col` is a move that the scores allow: a best column where some
/// column can be played, and column 0 where none can.
pub open spec fn is_best_move(scores: Seq<i8>, playable: Seq<bool>, col: u8) -> bool {
    if exists|c: int| 0 <= c < 7 && playable[c] {
        is_best_column(scores, playable, col as int)
    } else {
        col == 0
    }
}

/// Which columns of the board can be played: those that are not full.
pub open spec fn open_columns(board: Disks) -> Seq<bool> {
    Seq::new(7, |c: int| !board@.col_full(c))
}

/// The columns that a move is chosen from: those that win at once where
/// there is one, as no score is better than that of a win at once, and
/// else those that are not full.
pub open spec fn candidate_columns(board: Disks) -> Seq<bool> {
    if can_win_now(board) {
        Seq::new(7, |c: int| wins_by(board, c))
    } else {
        open_columns(board)
    }
}

/// The list of the best columns among the first `n` holds exactly those,
/// in ascending order.
pub proof fn lemma_best_columns_below(scores: Seq<i8>, playable: Seq<bool>, n: int)
    requires
        0 <= n <= 7,
    ensures
        forall|i: int|
            0 <= i < best_columns_below(scores, playable, n).len() ==> {
                &&& (#[trigger] best_columns_below(scores, playable, n)[i]) < n
                &&& is_best_column(scores, playable, best_columns_below(scores, playable, n)[i] as int)
            },
        forall|c: int|
            0 <= c < n && is_best_column(scores, playable, c) ==> best_columns_below(
                scores,
                playable,
                n,
            ).contains(c as u8),
        forall|i: int, j: int|
            0 <= i < j < best_columns_below(scores, playable, n).len() ==> best_columns_below(
                scores,
                playable,
                n,
            )[i] < best_columns_below(scores, playable, n)[j],
    decreases n,
{
    if n > 0 {
        lemma_best_columns_below(scores, playable, n - 1);
        let before = best_columns_below(scores, playable, n - 1);
        let now = best_columns_below(scores, playable, n);
        assert forall|c: int| 0 <= c < n && is_best_column(scores, playable, c) implies now.contains(
            c as u8,
        ) by {
            if c < n - 1 {
                let i = choose|i: int| 0 <= i < before.len() && before[i] == c as u8;
                assert(now[i] == c as u8);
            } else {
                assert(now[now.len() - 1] == c as u8);
            }
        }
    }
}

/// Where some column can be played, the list of the best columns is not
/// empty, and its entries are exactly the best columns.
pub proof fn lemma_best_columns(scores: Seq<i8>, playable: Seq<bool>)
    requires
        scores.len() == 7,
        playable.len() == 7,
    ensures
        (exists|c: int| 0 <= c < 7 && playable[c]) == (spec_best_columns(scores, playable).len() > 0),
        forall|c: int|
            is_best_column(scores, playable, c) <==> 0 <= c < 7 && spec_best_columns(
                scores,
                playable,
            ).contains(c as u8),
{
    lemma_best_columns_below(scores, playable, 7);
    let best = spec_best_columns(scores, playable);
    assert forall|c: int| 0 <= c < 7 && best.contains(c as u8) implies is_best_column(
        scores,
        playable,
        c,
    ) by {
        let i = choose|i: int| 0 <= i < best.len() && best[i] == c as u8;
        assert(is_best_column(scores, playable, best[i] as int));
    }
    if exists|c: int| 0 <= c < 7 && playable[c] {
        let top = lemma_top_playable(scores, playable, 7);
        assert(is_best_column(scores, playable, top));
        assert(best.contains(top as u8));
    }
    if best.len() > 0 {
        assert(is_best_column(scores, playable, best[0] as int));
    }
}

/// Among the first `n` columns, one of those that can be played has the
/// highest score of them: the lemma hands it back.
pub proof fn lemma_top_playable(scores: Seq<i8>, playable: Seq<bool>, n: int) -> (top: int)
    requires
        0 <= n <= 7,
        exists|c: int| 0 <= c < n && playable[c],
    ensures
        0 <= top < n,
        playable[top],
        forall|c: int| 0 <= c < n && playable[c] ==> scores[c] <= scores[top],
    decreases n,
{
    if exists|c: int| 0 <= c < n - 1 && playable[c] {
        let before = lemma_top_playable(scores, playable, n - 1);
        if playable[n - 1] && scores[n - 1] > scores[before] {
            n - 1
        } else {
            before
        }
    } else {
        n - 1
    }
}

/// The columns in the order in which the search tries them: from the
/// centre outwards, as edge columns are often worse moves.
pub open spec fn spec_column_order(idx: int) -> u8 {
    if idx == 0 {
        3
    } else if idx == 1 {
        2
    } else if idx == 2 {
        4
    } else if idx == 3 {
        1
    } else if idx == 4 {
        5
    } else if idx == 5 {
        0
    } else {
        6
    }
}

/// The column that the search tries in place `idx`.
pub fn column_order(idx: usize) -> (col: u8)
    requires
        idx < 7,
    ensures
        col == spec_column_order(idx as int),
        col < 7,
{
    if idx == 0 {
        3
    } else if idx == 1 {
        2
    } else if idx == 2 {
        4
    } else if idx == 3 {
        1
    } else if idx == 4 {
        5
    } else if idx == 5 {
        0
    } else {
        6
    }
}

/// Whether the side to move wins at once by a disk in `col`.
pub open spec fn wins_by(board: Disks, col: int) -> bool {
    0 <= col < 7 && !board@.col_full(col) && board@.drop(col).has_four(board@.to_move())
}

/// Whether the side to move can win at once.
pub open spec fn can_win_now(board: Disks) -> bool {
    exists|col: int| #[trigger] wins_by(board, col)
}

/// The score of a win with the disk that follows `moves` disks: the sooner
/// the win, the higher the score.
pub open spec fn win_score(moves: int) -> int {
    43 - moves
}

/// The most that the side to move can still score after `moves` disks.
pub open spec fn best_possible_score(moves: int) -> int {
    42 - moves
}

/// What a search hands back: the score, and the table as the search left it.
pub struct Outcome {
    pub score: int,
    pub table: Map<u64, i8>,
}

/// The score of `board` for the side to move, `moves` disks into the game,
/// looking `depth` moves ahead, within the window from `alpha` to `beta`,
/// with the scores of `table` at hand.
///
/// A win at once scores `win_score`. At the horizon the score is 0. The
/// bound stored for the position, or else the best possible score, lowers
/// `beta`; where it then does not exceed `alpha` it is the score. Else the
/// columns are searched in order.
pub open spec fn negamax(
    board: Disks,
    moves: int,
    depth: int,
    alpha: int,
    beta: int,
    table: Map<u64, i8>,
) -> Outcome
    decreases depth, 8int,
{
    if can_win_now(board) {
        Outcome { score: win_score(moves), table }
    } else if depth <= 1 {
        Outcome { score: 0, table }
    } else {
        let bound = if table.contains_key(board.spec_key()) {
            table[board.spec_key()] as int
        } else {
            best_possible_score(moves)
        };
        if bound < beta && alpha >= bound {
            Outcome { score: bound, table }
        } else {
            search_columns(
                board,
                moves,
                depth,
                alpha,
                if bound < beta {
                    bound
                } else {
                    beta
                },
                table,
                0,
            )
        }
    }
}

/// The search of the columns from place `idx` of the order on. A full
/// column is passed over. The score of a move is the score of the board
/// after it for the opponent, negated; the first that reaches `beta` is
/// the result, and one above `alpha` raises `alpha`. When every column has
/// been tried, `alpha` is the result and is stored for the position.
pub open spec fn search_columns(
    board: Disks,
    moves: int,
    depth: int,
    alpha: int,
    beta: int,
    table: Map<u64, i8>,
    idx: int,
) -> Outcome
    decreases depth, 7 - idx,
{
    if idx < 0 || idx >= 7 || depth <= 1 {
        Outcome { score: alpha, table: table.insert(board.spec_key(), alpha as i8) }
    } else if board@.col_full(spec_column_order(idx) as int) {
        search_columns(board, moves, depth, alpha, beta, table, idx + 1)
    } else {
        let child = negamax(
            board.spec_drop(spec_column_order(idx)),
            moves + 1,
            depth - 1,
            -beta,
            -alpha,
            table,
        );
        if -child.score >= beta {
            Outcome { score: -child.score, table: child.table }
        } else {
            search_columns(
                board,
                moves,
                depth,
                if -child.score > alpha {
                    -child.score
                } else {
                    alpha
                },
                beta,
                child.table,
                idx + 1,
            )
        }
    }
}

/// The score of a disk in `col` for the side to move, and the table after
/// it was found: the unplayable score for a full column, the score of a win
/// for a move that wins at once, and else what the opponent scores on the
/// board after the move, negated.
pub open spec fn move_outcome(
    board: Disks,
    moves: int,
    depth: int,
    table: Map<u64, i8>,
    col: int,
) -> Outcome {
    if board@.col_full(col) {
        Outcome { score: UNPLAYABLE_SCORE as int, table }
    } else if wins_by(board, col) {
        Outcome { score: win_score(moves), table }
    } else {
        let child = negamax(board.spec_drop(col as u8), moves + 1, depth, -100, 100, table);
        Outcome { score: -child.score, table: child.table }
    }
}

/// The table after the first `n` columns were scored in turn.
pub open spec fn table_after(
    board: Disks,
    moves: int,
    depth: int,
    table: Map<u64, i8>,
    n: int,
) -> Map<u64, i8>
    decreases n,
{
    if n <= 0 {
        table
    } else {
        move_outcome(board, moves, depth, table_after(board, moves, depth, table, n - 1), n - 1).table
    }
}

/// The scores of the seven columns, each found with the table that the
/// columns before it left.
pub open spec fn move_scores(board: Disks, moves: int, depth: int, table: Map<u64, i8>) -> Seq<
    i8,
> {
    Seq::new(
        7,
        |col: int|
            move_outcome(board, moves, depth, table_after(board, moves, depth, table, col), col).score as i8,
    )
}

/// A move wins at once exactly where the bits of the board after it show
/// four in a line.
pub proof fn lemma_wins_by(board: Disks, col: int)
    requires
        board.wf(),
        0 <= col < 7,
        !board@.col_full(col),
    ensures
        wins_by(board, col) == board.spec_drop(col as u8).spec_won(),
{
    board.lemma_drop_view(col as u8);
    board.spec_drop(col as u8).lemma_won_iff();
}

/// Exchanging the colours of the disks and of the players does not change
/// who can win at once.
pub proof fn lemma_color_win(board: Disks)
    requires
        board.wf(),
    ensures
        can_win_now(board.spec_recolored()) == can_win_now(board),
{
    let other = board.spec_recolored();
    board.lemma_recolored(0);
    assert forall|col: int| #[trigger] wins_by(other, col) == wins_by(board, col) by {
        if 0 <= col < 7 && !board@.col_full(col) {
            board.lemma_recolored(col as u8);
            lemma_wins_by(board, col);
            lemma_wins_by(other, col);
            board.lemma_drop_view(col as u8);
            board.spec_drop(col as u8).lemma_recolored(0);
        }
    }
    if can_win_now(board) {
        let col = choose|col: int| #[trigger] wins_by(board, col);
        assert(wins_by(other, col));
    }
    if can_win_now(other) {
        let col = choose|col: int| #[trigger] wins_by(other, col);
        assert(wins_by(board, col));
    }
}

/// The score does not depend on the colours: with the colours of the disks
/// and of the players exchanged, the search finds the same score and leaves
/// the same table.
pub proof fn lemma_color_symmetry(
    board: Disks,
    moves: int,
    depth: int,
    alpha: int,
    beta: int,
    table: Map<u64, i8>,
)
    requires
        board.wf(),
    ensures
        negamax(board.spec_recolored(), moves, depth, alpha, beta, table) == negamax(
            board,
            moves,
            depth,
            alpha,
            beta,
            table,
        ),
    decreases depth, 8int,
{
    lemma_color_win(board);
    board.lemma_recolored(0);
    if !can_win_now(board) && depth > 1 {
        let bound = if table.contains_key(board.spec_key()) {
            table[board.spec_key()] as int
        } else {
            best_possible_score(moves)
        };
        if !(bound < beta && alpha >= bound) {
            lemma_color_search(
                board,
                moves,
                depth,
                alpha,
                if bound < beta {
                    bound
                } else {
                    beta
                },
                table,
                0,
            );
        }
    }
}

/// The search of the columns does not depend on the colours either.
pub proof fn lemma_color_search(
    board: Disks,
    moves: int,
    depth: int,
    alpha: int,
    beta: int,
    table: Map<u64, i8>,
    idx: int,
)
    requires
        board.wf(),
    ensures
        search_columns(board.spec_recolored(), moves, depth, alpha, beta, table, idx)
            == search_columns(board, moves, depth, alpha, beta, table, idx),
    decreases depth, 7 - idx,
{
    let col = spec_column_order(idx);
    board.lemma_recolored(col);
    if 0 <= idx < 7 && depth > 1 {
        if board@.col_full(col as int) {
            lemma_color_search(board, moves, depth, alpha, beta, table, idx + 1);
        } else {
            board.lemma_drop_view(col);
            lemma_color_symmetry(board.spec_drop(col), moves + 1, depth - 1, -beta, -alpha, table);
            let child = negamax(board.spec_drop(col), moves + 1, depth - 1, -beta, -alpha, table);
            if -child.score < beta {
                lemma_color_search(
                    board,
                    moves,
                    depth,
                    if -child.score > alpha {
                        -child.score
                    } else {
                        alpha
                    },
                    beta,
                    child.table,
                    idx + 1,
                );
            }
        }
    }
}

/// At the horizon, on a board on which neither side can win at once, the
/// score is the negation of the score of the board with the other player
/// to move, searched within the negated window: both are 0, whatever the
/// window and the tables, and neither search changes its table.
pub proof fn lemma_sign_symmetry_at_horizon(
    board: Disks,
    moves: int,
    alpha: int,
    beta: int,
    table: Map<u64, i8>,
    other_table: Map<u64, i8>,
)
    requires
        !can_win_now(board),
        !can_win_now(board.spec_swapped()),
    ensures
        negamax(board, moves, 1, alpha, beta, table).score == -negamax(
            board.spec_swapped(),
            moves,
            1,
            -beta,
            -alpha,
            other_table,
        ).score,
        negamax(board, moves, 1, alpha, beta, table).score == 0,
        negamax(board.spec_swapped(), moves, 1, -beta, -alpha, other_table).score == 0,
        negamax(board, moves, 1, alpha, beta, table).table == table,
        negamax(board.spec_swapped(), moves, 1, -beta, -alpha, other_table).table == other_table,
{
}

/// The score of a column that wins at once, and of a column after which the
/// opponent wins at once, depends neither on the look-ahead nor on the
/// table: a win or a loss that one move of look-ahead shows scores the same
/// with every larger look-ahead.
pub proof fn lemma_outcome_at_once_at_every_depth(
    board: Disks,
    col: int,
    depth: int,
    other_depth: int,
    table: Map<u64, i8>,
    other_table: Map<u64, i8>,
)
    requires
        0 <= col < 7,
        !board@.col_full(col),
        wins_by(board, col) || can_win_now(board.spec_drop(col as u8)),
    ensures
        move_outcome(board, board@.num_disks(), depth, table, col).score == move_outcome(
            board,
            board@.num_disks(),
            other_depth,
            other_table,
            col,
        ).score,
        wins_by(board, col) ==> move_outcome(board, board@.num_disks(), depth, table, col).score
            == 43 - board@.num_disks(),
        !wins_by(board, col) ==> move_outcome(board, board@.num_disks(), depth, table, col).score
            == board@.num_disks() - 42,
{
}

/// Whether every score of the table lies between -100 and 100, the
/// widest window that a search is given.
pub open spec fn scores_bounded(table: Map<u64, i8>) -> bool {
    forall|key: u64| table.contains_key(key) ==> -100 <= #[trigger] table[key] <= 100
}

/// The brute-force search with what it keeps between two moves.
pub struct BruteForceAIHelper {
    /// How many moves the search looks ahead: the level of difficulty.
    pub max_moves_look_ahead: u8,
    /// The scores of positions that the search has met.
    pub position_lookup_table: PositionLookupTable,
}

impl BruteForceAIHelper {
    /// Creates a new helper that looks `max_moves_look_ahead` moves ahead,
    /// with an empty table.
    pub fn new(max_moves_look_ahead: u8) -> (helper: BruteForceAIHelper)
        ensures
            helper.max_moves_look_ahead == max_moves_look_ahead,
            helper.position_lookup_table@ == Map::<u64, i8>::empty(),
    {
        BruteForceAIHelper {
            max_moves_look_ahead,
            position_lookup_table: PositionLookupTable::new(LOOKUP_TABLE_SIZE),
        }
    }

    /// Returns a copy of the board with a disk of the side to move dropped in
    /// the given column, or `None` where the column is full.
    pub fn place_disk_in_copy(board: &Disks, col: u8) -> (copy: Option<Disks>)
        requires
            board.wf(),
            col < BOARD_WIDTH,
        ensures
            board@.col_full(col as int) ==> copy is None,
            !board@.col_full(col as int) ==> copy == Some(board.spec_drop(col)) && copy->0.wf()
                && copy->0@ == board@.drop(col as int),
    {
        let mut new_board: Disks = board.clone();
        match new_board.drop_disk(col) {
            Ok(_) => Some(new_board),
            Err(_) => None,
        }
    }

    /// Get the score of a board for the player whose turn it is: see
    /// `negamax`. The table takes up the scores that the search finds.
    pub fn get_score(
        &mut self,
        board: &Disks,
        num_moves_into_game: u8,
        num_moves_look_ahead: u8,
        min_self_score: i8,
        min_opponent_score: i8,
    ) -> (score: i8)
        requires
            board.wf(),
            num_moves_into_game <= board@.num_disks(),
            num_moves_look_ahead >= 1,
            -100 <= min_self_score <= 100,
            -100 <= min_opponent_score <= 100,
            scores_bounded(old(self).position_lookup_table@),
        ensures
            score == negamax(
                *board,
                num_moves_into_game as int,
                num_moves_look_ahead as int,
                min_self_score as int,
                min_opponent_score as int,
                old(self).position_lookup_table@,
            ).score,
            final(self).position_lookup_table@ == negamax(
                *board,
                num_moves_into_game as int,
                num_moves_look_ahead as int,
                min_self_score as int,
                min_opponent_score as int,
                old(self).position_lookup_table@,
            ).table,
            final(self).max_moves_look_ahead == old(self).max_moves_look_ahead,
            -100 <= score <= 100,
            scores_bounded(final(self).position_lookup_table@),
        decreases num_moves_look_ahead,
    {
        let ghost result = negamax(
            *board,
            num_moves_into_game as int,
            num_moves_look_ahead as int,
            min_self_score as int,
            min_opponent_score as int,
            self.position_lookup_table@,
        );
        proof {
            board.lemma_counts();
        }
        // check if the current player can win on this move
        let mut col: u8 = 0;
        while col < BOARD_WIDTH
            invariant
                col <= 7,
                board.wf(),
                num_moves_into_game <= 42,
                *self == *old(self),
                scores_bounded(self.position_lookup_table@),
                forall|c: int| 0 <= c < col ==> !wins_by(*board, c),
            decreases 7 - col,
        {
            if let Some(copy) = Self::place_disk_in_copy(board, col) {
                if copy.check_last_drop_won() {
                    assert(wins_by(*board, col as int));
                    return 43i8 - num_moves_into_game as i8;
                }
            }
            col += 1;
        }
        assert(!can_win_now(*board));

        // if we've already searched deep enough, stop
        if num_moves_look_ahead == 1 {
            return 0;
        }
        let mut self_score: i8 = min_self_score;
        let mut opponent_score: i8 = min_opponent_score;
        let min_possible_opponent_score: i8 = match self.position_lookup_table.get(board) {
            Some(stored) => stored,
            None => 42i8 - num_moves_into_game as i8,
        };
        if min_possible_opponent_score < opponent_score {
            opponent_score = min_possible_opponent_score;
            // prune: the opponent cannot be held below what we already have
            if self_score >= opponent_score {
                return opponent_score;
            }
        }
        // calculate the score of each possible move

        let mut idx: usize = 0;
        while idx < 7
            invariant
                idx <= 7,
                board.wf(),
                num_moves_into_game <= board@.num_disks(),
                board@.num_disks() <= 42,
                num_moves_look_ahead > 1,
                -100 <= self_score <= 100,
                -100 <= opponent_score <= 100,
                scores_bounded(self.position_lookup_table@),
                self.max_moves_look_ahead == old(self).max_moves_look_ahead,
                result == negamax(
                    *board,
                    num_moves_into_game as int,
                    num_moves_look_ahead as int,
                    min_self_score as int,
                    min_opponent_score as int,
                    old(self).position_lookup_table@,
                ),
                result == search_columns(
                    *board,
                    num_moves_into_game as int,
                    num_moves_look_ahead as int,
                    self_score as int,
                    opponent_score as int,
                    self.position_lookup_table@,
                    idx as int,
                ),
            decreases 7 - idx,
        {
            let col: u8 = column_order(idx);
            if let Some(child) = Self::place_disk_in_copy(board, col) {
                proof {
                    board.lemma_drop_count(col);
                }
                let score: i8 = -self.get_score(
                    &child,
                    num_moves_into_game + 1,
                    num_moves_look_ahead - 1,
                    -opponent_score,
                    -self_score,
                );
                if score >= opponent_score {
                    return score;
                }
                if score > self_score {
                    self_score = score;
                }
            }
            idx += 1;
        }
        // store this position for future use
        self.position_lookup_table.insert(board, self_score);
        self_score
    }

    /// Returns which column the player chose to drop a disk into. Where a
    /// column wins at once, the answer is such a column. Else, where the
    /// board has an open column, the answer is an open column, and no open
    /// column has a higher score. Where it has none, the answer is 0.
    pub fn get_move(&mut self, board: &Disks) -> (col: u8)
        requires
            board.wf(),
            old(self).max_moves_look_ahead >= 1,
            scores_bounded(old(self).position_lookup_table@),
        ensures
            col < 7,
            is_best_move(
                move_scores(
                    *board,
                    board@.num_disks(),
                    old(self).max_moves_look_ahead as int,
                    old(self).position_lookup_table@,
                ),
                candidate_columns(*board),
                col,
            ),
            can_win_now(*board) ==> wins_by(*board, col as int),
            (exists|c: int| 0 <= c < 7 && !board@.col_full(c)) ==> !board@.col_full(col as int),
            (forall|c: int| 0 <= c < 7 ==> board@.col_full(c)) ==> col == 0,
            forall|c: int|
                0 <= c < 7 && !board@.col_full(c) ==> -100 <= #[trigger] move_scores(
                    *board,
                    board@.num_disks(),
                    old(self).max_moves_look_ahead as int,
                    old(self).position_lookup_table@,
                )[c] <= 100,
            final(self).position_lookup_table@ == table_after(
                *board,
                board@.num_disks(),
                old(self).max_moves_look_ahead as int,
                old(self).position_lookup_table@,
                7,
            ),
            final(self).max_moves_look_ahead == old(self).max_moves_look_ahead,
            scores_bounded(final(self).position_lookup_table@),
    {
        // start each column with a bad (unplayable) score
        let mut score: [i8; 7] = [UNPLAYABLE_SCORE;7];
        let mut playable: [bool; 7] = [false;7];
        let mut winning: [bool; 7] = [false;7];
        let mut any_win: bool = false;
        let num_moves_into_game: u8 = board.get_num_disks();
        let ghost table0 = self.position_lookup_table@;
        let ghost depth = self.max_moves_look_ahead as int;
        let ghost expected = move_scores(*board, num_moves_into_game as int, depth, table0);
        // calculate the actual score of each column
        let mut col: u8 = 0;
        while col < BOARD_WIDTH
            invariant
                col <= 7,
                board.wf(),
                num_moves_into_game == board@.num_disks(),
                num_moves_into_game <= 42,
                self.max_moves_look_ahead == old(self).max_moves_look_ahead,
                self.max_moves_look_ahead >= 1,
                depth == self.max_moves_look_ahead,
                table0 == old(self).position_lookup_table@,
                expected == move_scores(*board, num_moves_into_game as int, depth, table0),
                scores_bounded(self.position_lookup_table@),
                self.position_lookup_table@ == table_after(
                    *board,
                    num_moves_into_game as int,
                    depth,
                    table0,
                    col as int,
                ),
                forall|c: int| 0 <= c < col ==> score@[c] == expected[c],
                forall|c: int| 0 <= c < col ==> playable@[c] == !board@.col_full(c),
                forall|c: int| 0 <= c < col ==> winning@[c] == wins_by(*board, c),
                any_win == (exists|c: int| 0 <= c < col && wins_by(*board, c)),
                forall|c: int| 0 <= c < col && playable@[c] ==> -100 <= score@[c] <= 100,
            decreases 7 - col,
        {
            let ghost table_before = self.position_lookup_table@;
            let ghost outcome = move_outcome(
                *board,
                num_moves_into_game as int,
                depth,
                table_before,
                col as int,
            );
            let mut found: i8 = UNPLAYABLE_SCORE;
            let mut can_play: bool = false;
            let mut wins: bool = false;
            if let Some(child) = Self::place_disk_in_copy(board, col) {
                can_play = true;
                // if going in one column results in a win, set the score to the best possible score.
                if child.check_last_drop_won() {
                    found = 43i8 - num_moves_into_game as i8;
                    wins = true;
                } else {
                    // otherwise, calculate the score of the board state after the move
                    proof {
                        board.lemma_drop_count(col);
                    }
                    found =
                    -self.get_score(
                        &child,
                        num_moves_into_game + 1,
                        self.max_moves_look_ahead,
                        -100,
                        100,
                    );
                }
            }
            assert(found == outcome.score);
            assert(self.position_lookup_table@ == outcome.table);
            assert(wins == wins_by(*board, col as int));
            score[col as usize] = found;
            playable[col as usize] = can_play;
            winning[col as usize] = wins;
            any_win = any_win || wins;
            col += 1;
        }
        assert(score@ =~= expected);
        assert(playable@ =~= open_columns(*board));
        assert(any_win == can_win_now(*board)) by {
            if can_win_now(*board) {
                let c = choose|c: int| #[trigger] wins_by(*board, c);
                assert(0 <= c < 7 && wins_by(*board, c));
            }
        }
        // Chose any one of the best columns at random (if there are multiple):
        // among those that win at once, if there are any.
        if any_win {
            assert(winning@ =~= candidate_columns(*board));
            let c = Self::random_move_from_scores(score, winning);
            assert(winning@[c as int]) by {
                let w = choose|c: int| 0 <= c < 7 && wins_by(*board, c);
                assert(winning@[w]);
            }
            c
        } else {
            Self::random_move_from_scores(score, playable)
        }
    }

    /// The list of all best columns, ascending: the columns that can be
    /// played and whose score no column that can be played exceeds.
    pub fn best_columns(scores: &[i8; 7], playable: &[bool; 7]) -> (best_cols: Vec<u8>)
        ensures
            best_cols@ == spec_best_columns(scores@, playable@),
    {
        // find the highest score out of all the columns that can be played
        let mut max: i8 = i8::MIN;
        let mut any: bool = false;
        let mut col: u8 = 0;
        while col < BOARD_WIDTH
            invariant
                col <= 7,
                any == (exists|c: int| 0 <= c < col && playable@[c]),
                forall|c: int| 0 <= c < col && playable@[c] ==> scores@[c] <= max,
                any ==> exists|c: int| 0 <= c < col && playable@[c] && scores@[c] == max,
            decreases 7 - col,
        {
            if playable[col as usize] {
                if !any || scores[col as usize] > max {
                    max = scores[col as usize];
                }
                any = true;
            }
            col += 1;
        }
        // find all of the columns that have the highest score
        let mut best_cols: Vec<u8> = Vec::with_capacity(BOARD_WIDTH as usize);
        let mut col: u8 = 0;
        while col < BOARD_WIDTH
            invariant
                col <= 7,
                any == (exists|c: int| 0 <= c < 7 && playable@[c]),
                forall|c: int| 0 <= c < 7 && playable@[c] ==> scores@[c] <= max,
                any ==> exists|c: int| 0 <= c < 7 && playable@[c] && scores@[c] == max,
                best_cols@ == best_columns_below(scores@, playable@, col as int),
            decreases 7 - col,
        {
            proof {
                if playable@[col as int] {
                    let top = choose|c: int| 0 <= c < 7 && playable@[c] && scores@[c] == max;
                    assert(is_best_column(scores@, playable@, col as int) ==> scores@[top]
                        <= scores@[col as int]);
                }
                assert(is_best_column(scores@, playable@, col as int) == (playable@[col as int]
                    && scores@[col as int] == max));
            }
            if playable[col as usize] && scores[col as usize] == max {
                best_cols.push(col);
            }
            col += 1;
        }
        best_cols
    }

    /// Choose which column to drop the disk in given the scores of the
    /// columns and which of them can be played: one of the best columns,
    /// picked at random from the list of all of them, and 0 where no column
    /// can be played.
    pub fn random_move_from_scores(scores: [i8; 7], playable: [bool; 7]) -> (col: u8)
        ensures
            col < 7,
            is_best_move(scores@, playable@, col),
            spec_best_columns(scores@, playable@).len() > 0 ==> spec_best_columns(
                scores@,
                playable@,
            ).contains(col),
    {
        let best_cols: Vec<u8> = Self::best_columns(&scores, &playable);
        proof {
            lemma_best_columns(scores@, playable@);
            lemma_best_columns_below(scores@, playable@, 7);
        }
        // chose one of the best columns at random
        match random_col_from_options(&best_cols) {
            Some(col) => *col,
            None => 0,
        }
    }
}

} // verus!
