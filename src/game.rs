//! The game: turn order, move application with its bookkeeping, and the
//! classification of the position after every move.
use crate::board::{
    colour_can_move, is_capture_move, is_legal, king_in_check, legal_destinations, piece_at, BoardState,
};
use crate::error::ChessError;
use crate::history::{count_occurrences, key_for, key_of, occurrences, HistoryEntry, HistoryModel};
use crate::material::{dead_position, is_dead_position};
use crate::piece::{Colour, Piece, PieceType};
use crate::position::{pos_at, square_of_text, Position};
use crate::text::trim_result;
use crate::rules::{
    apply, at, capture, captured_piece, has_legal_move, in_check, last_rank, legal, on_board, wanted, Setup,
};
use vstd::prelude::*;

verus! {

/// The state of the game.
#[derive(Copy, Clone, Debug, PartialEq, Eq, Hash, Structural)]
pub enum GameState {
    /// The game is playable and the side to move is not in check. A new game
    /// starts here.
    InProgress,
    /// The side to move is in check and has a legal move.
    Check,
    /// A pawn has reached its last rank; the game waits for `set_promotion`.
    WaitingOnPromotionChoice,
    /// The game is over; see `GameOverReason`. Nothing changes the game any more.
    GameOver,
}

/// Why the game ended.
#[derive(Copy, Clone, Debug, PartialEq, Eq, Hash, Structural)]
pub enum GameOverReason {
    /// The side to move is in check and has no legal move.
    Checkmate,
    /// The side to move is not in check and has no legal move.
    Stalemate,
    /// 150 half-moves passed without a pawn move or a capture.
    SeventyFiveMoveRule,
    /// The position occurred four times before.
    FivefoldRepetitionRule,
    /// Neither side has the material to checkmate.
    InsufficientMaterial,
    /// The game was drawn by `submit_draw`.
    ManualDraw,
}

/// The mathematical value of a `Game`.
pub struct GameModel {
    pub state: GameState,
    pub reason: Option<GameOverReason>,
    pub active: Colour,
    pub setup: Setup,
    pub history: Seq<HistoryModel>,
    pub halfmoves: int,
    pub fullmoves: int,
}

/// A game of chess: the board, whose turn it is, the castling rights, the
/// en-passant target, the move clocks, the history of moves and the state.
#[derive(Clone, Debug)]
pub struct Game {
    pub state: GameState,
    pub game_over_reason: Option<GameOverReason>,
    pub active_colour: Colour,
    pub board: [Option<Piece>; 64],
    pub history: Vec<HistoryEntry>,
    /// Half-moves since the last capture or pawn move.
    pub halfmoves: u8,
    /// Completed moves of black.
    pub fullmoves: u32,
    /// The square passed over by a pawn's double step in the last move, or
    /// `Position::null()`.
    pub en_passant_target: Position,
    pub white_has_right_to_castle_queenside: bool,
    pub white_has_right_to_castle_kingside: bool,
    pub black_has_right_to_castle_queenside: bool,
    pub black_has_right_to_castle_kingside: bool,
}

impl View for Game {
    type V = GameModel;

    open spec fn view(&self) -> GameModel {
        GameModel {
            state: self.state,
            reason: self.game_over_reason,
            active: self.active_colour,
            setup: Setup {
                squares: self.board@,
                en_passant: self.en_passant_target,
                white_queenside: self.white_has_right_to_castle_queenside,
                white_kingside: self.white_has_right_to_castle_kingside,
                black_queenside: self.black_has_right_to_castle_queenside,
                black_kingside: self.black_has_right_to_castle_kingside,
            },
            history: self.history@.map_values(|e: HistoryEntry| e@),
            halfmoves: self.halfmoves as int,
            fullmoves: self.fullmoves as int,
        }
    }
}

/// The piece type that starts on file `f` of the home rank.
pub open spec fn back_rank_type(f: int) -> PieceType {
    if f == 0 || f == 7 {
        PieceType::Rook
    } else if f == 1 || f == 6 {
        PieceType::Knight
    } else if f == 2 || f == 5 {
        PieceType::Bishop
    } else if f == 3 {
        PieceType::Queen
    } else {
        PieceType::King
    }
}

/// What stands on (r, f) at the start of a game.
pub open spec fn start_piece(r: int, f: int) -> Option<Piece> {
    if r == 0 {
        Some(Piece { piece_type: back_rank_type(f), colour: Colour::White })
    } else if r == 1 {
        Some(Piece { piece_type: PieceType::Pawn, colour: Colour::White })
    } else if r == 6 {
        Some(Piece { piece_type: PieceType::Pawn, colour: Colour::Black })
    } else if r == 7 {
        Some(Piece { piece_type: back_rank_type(f), colour: Colour::Black })
    } else {
        None
    }
}

/// The lowest file, from `f` on, where a pawn of colour `c` stands on its
/// last rank; 8 where there is none.
pub open spec fn pawn_file(s: Setup, c: Colour, f: int) -> int
    decreases 8 - f,
{
    if f >= 8 {
        8
    } else if at(s, last_rank(c), f) == Some(Piece { piece_type: PieceType::Pawn, colour: c }) {
        f
    } else {
        pawn_file(s, c, f + 1)
    }
}

/// Where `pawn_file` finds a file, a pawn of colour `c` stands there on its
/// last rank.
pub proof fn lemma_pawn_file_found(s: Setup, c: Colour, f: int)
    requires
        0 <= f,
        pawn_file(s, c, f) < 8,
    ensures
        at(s, last_rank(c), pawn_file(s, c, f)) == Some(Piece { piece_type: PieceType::Pawn, colour: c }),
    decreases 8 - f,
{
    if f < 8 && at(s, last_rank(c), f) != Some(Piece { piece_type: PieceType::Pawn, colour: c }) {
        lemma_pawn_file_found(s, c, f + 1);
    }
}

/// `pawn_file` searches from `f` up to 8.
pub proof fn lemma_pawn_file_bounds(s: Setup, c: Colour, f: int)
    requires
        0 <= f,
    ensures
        f <= pawn_file(s, c, f) || f > 8,
        pawn_file(s, c, f) <= 8,
    decreases 8 - f,
{
    if f < 8 {
        lemma_pawn_file_bounds(s, c, f + 1);
    }
}

/// A pawn of colour `c` stands on its last rank.
pub open spec fn promotion_pending(s: Setup, c: Colour) -> bool {
    pawn_file(s, c, 0) < 8
}

pub open spec fn min(a: int, b: int) -> int {
    if a < b { a } else { b }
}

/// The game after the piece on (r, f) moves to (tr, tf), before the new
/// position is classified: the board changes, the move is recorded with the
/// fingerprint of the position it was made from, the half-move clock resets
/// on a pawn move or a capture and counts up otherwise, and black's move
/// completes a full move.
pub open spec fn played(m: GameModel, r: int, f: int, tr: int, tf: int) -> GameModel {
    let p = at(m.setup, r, f)->0;
    let cap = captured_piece(m.setup, r, f, tr, tf);
    GameModel {
        setup: apply(m.setup, r, f, tr, tf),
        history: m.history.push(
            HistoryModel {
                key: key_of(m.setup, m.active),
                from: pos_at(r, f),
                to: pos_at(tr, tf),
                piece_moved: p,
                piece_captured: cap,
            },
        ),
        halfmoves: if p.piece_type == PieceType::Pawn || cap is Some { 0 } else { min(m.halfmoves + 1, 255) },
        fullmoves: if m.active == Colour::Black { min(m.fullmoves + 1, 0xffff_ffff) } else { m.fullmoves },
        ..m
    }
}

/// The state and reason for a position with colour `c` to move, half-move
/// clock `halfmoves`, that occurred `prior` times before: fivefold
/// repetition, then insufficient material, then checkmate or stalemate,
/// then the 75-move rule, then check or play on.
pub open spec fn outcome(s: Setup, c: Colour, halfmoves: int, prior: nat) -> (GameState, Option<GameOverReason>) {
    if prior >= 4 {
        (GameState::GameOver, Some(GameOverReason::FivefoldRepetitionRule))
    } else if dead_position(s.squares) {
        (GameState::GameOver, Some(GameOverReason::InsufficientMaterial))
    } else if !has_legal_move(s, c) {
        if in_check(s, c) {
            (GameState::GameOver, Some(GameOverReason::Checkmate))
        } else {
            (GameState::GameOver, Some(GameOverReason::Stalemate))
        }
    } else if halfmoves >= 150 {
        (GameState::GameOver, Some(GameOverReason::SeventyFiveMoveRule))
    } else if in_check(s, c) {
        (GameState::Check, None)
    } else {
        (GameState::InProgress, None)
    }
}

/// Classification reaches "in check with a legal move", which takes both
/// castling rights of the side to move.
pub open spec fn check_revokes(s: Setup, c: Colour, prior: nat) -> bool {
    prior < 4 && !dead_position(s.squares) && in_check(s, c) && has_legal_move(s, c)
}

/// The game with the position classified for the side to move.
pub open spec fn classified(m: GameModel) -> GameModel {
    let prior = occurrences(m.history, key_of(m.setup, m.active));
    let o = outcome(m.setup, m.active, m.halfmoves, prior);
    let rv = check_revokes(m.setup, m.active, prior);
    let w = m.active == Colour::White;
    GameModel {
        state: o.0,
        reason: o.1,
        setup: Setup {
            white_queenside: m.setup.white_queenside && !(rv && w),
            white_kingside: m.setup.white_kingside && !(rv && w),
            black_queenside: m.setup.black_queenside && !(rv && !w),
            black_kingside: m.setup.black_kingside && !(rv && !w),
            ..m.setup
        },
        ..m
    }
}

/// After a move: wait for a promotion choice where the mover has a pawn on
/// its last rank; otherwise pass the turn and classify.
pub open spec fn recompute(m: GameModel) -> GameModel {
    if promotion_pending(m.setup, m.active) {
        GameModel { state: GameState::WaitingOnPromotionChoice, ..m }
    } else {
        classified(GameModel { active: m.active.opponent(), ..m })
    }
}

/// The first reason, in the order checked, why a move is refused.
pub open spec fn move_error(m: GameModel, from: Position, to: Position) -> Option<ChessError> {
    if !(m.state == GameState::InProgress || m.state == GameState::Check) {
        Some(ChessError::WrongState)
    } else if !from.spec_valid() || !to.spec_valid() {
        Some(ChessError::OutOfRange)
    } else if at(m.setup, from.rank as int, from.file as int) is None {
        Some(ChessError::EmptySource)
    } else if at(m.setup, from.rank as int, from.file as int)->0.colour != m.active {
        Some(ChessError::WrongColour)
    } else if !legal(m.setup, from.rank as int, from.file as int, to.rank as int, to.file as int) {
        Some(ChessError::IllegalMove)
    } else {
        None
    }
}

/// The game after a move from `from` to `to` that `move_error` accepts.
pub open spec fn moved(m: GameModel, from: Position, to: Position) -> GameModel {
    recompute(played(m, from.rank as int, from.file as int, to.rank as int, to.file as int))
}

/// The game after the pending promotion to `t`: the pawn becomes a piece of
/// type `t`, the turn passes, and the position is classified.
pub open spec fn promoted(m: GameModel, t: PieceType) -> GameModel {
    let i = last_rank(m.active) * 8 + pawn_file(m.setup, m.active, 0);
    classified(
        GameModel {
            active: m.active.opponent(),
            setup: Setup {
                squares: m.setup.squares.update(i, Some(Piece { piece_type: t, colour: m.active })),
                ..m.setup
            },
            ..m
        },
    )
}

/// The square with index `i` holds the king of colour `c`.
pub open spec fn king_on(sq: Seq<Option<Piece>>, i: int, c: Colour) -> bool {
    sq[i] == Some(Piece { piece_type: PieceType::King, colour: c })
}

/// Each colour has at most one king among the 64 squares.
pub open spec fn one_king_each(sq: Seq<Option<Piece>>) -> bool {
    forall|i: int, j: int, c: Colour|
        0 <= i < 64 && 0 <= j < 64 && #[trigger] king_on(sq, i, c) && #[trigger] king_on(sq, j, c) ==> i == j
}

proof fn lemma_clear_keeps_one_king(sq: Seq<Option<Piece>>, i: int)
    requires
        one_king_each(sq),
        sq.len() == 64,
        0 <= i < 64,
    ensures
        one_king_each(sq.update(i, None)),
{
    let t = sq.update(i, None);
    assert forall|a: int, b: int, c: Colour|
        0 <= a < 64 && 0 <= b < 64 && #[trigger] king_on(t, a, c) && #[trigger] king_on(t, b, c) implies a == b by {
        assert(king_on(sq, a, c) && king_on(sq, b, c));
    }
}

proof fn lemma_place_keeps_one_king(sq: Seq<Option<Piece>>, i: int, p: Piece)
    requires
        one_king_each(sq),
        sq.len() == 64,
        0 <= i < 64,
        p.piece_type == PieceType::King ==> forall|j: int| 0 <= j < 64 && j != i ==> !#[trigger] king_on(sq, j, p.colour),
    ensures
        one_king_each(sq.update(i, Some(p))),
{
    let t = sq.update(i, Some(p));
    assert forall|a: int, b: int, c: Colour|
        0 <= a < 64 && 0 <= b < 64 && #[trigger] king_on(t, a, c) && #[trigger] king_on(t, b, c) implies a == b by {
        if a != i && b != i {
            assert(king_on(sq, a, c) && king_on(sq, b, c));
        } else if a == i && b != i {
            assert(king_on(sq, b, c));
        } else if b == i && a != i {
            assert(king_on(sq, a, c));
        }
    }
}

/// Moving what stands on `i` to `j`, in either order of the two updates,
/// keeps at most one king per colour.
proof fn lemma_move_keeps_one_king(sq: Seq<Option<Piece>>, i: int, j: int)
    requires
        one_king_each(sq),
        sq.len() == 64,
        0 <= i < 64,
        0 <= j < 64,
    ensures
        one_king_each(sq.update(i, None).update(j, sq[i])),
        i != j ==> one_king_each(sq.update(j, sq[i]).update(i, None)),
{
    let t = sq.update(i, None).update(j, sq[i]);
    assert forall|a: int, b: int, c: Colour|
        0 <= a < 64 && 0 <= b < 64 && #[trigger] king_on(t, a, c) && #[trigger] king_on(t, b, c) implies a == b by {
        let a1 = if a == j { i } else { a };
        let b1 = if b == j { i } else { b };
        assert(king_on(sq, a1, c) && king_on(sq, b1, c));
    }
    if i != j {
        assert(sq.update(j, sq[i]).update(i, None) =~= t);
    }
}

/// The move from (r, f) to (tr, tf) keeps at most one king per colour.
pub proof fn lemma_apply_keeps_one_king(s: Setup, r: int, f: int, tr: int, tf: int)
    requires
        one_king_each(s.squares),
        s.squares.len() == 64,
        on_board(r, f),
        on_board(tr, tf),
        at(s, r, f) is Some,
    ensures
        one_king_each(apply(s, r, f, tr, tf).squares),
{
    let sq = s.squares;
    lemma_move_keeps_one_king(sq, r * 8 + f, tr * 8 + tf);
    let moved = sq.update(r * 8 + f, None).update(tr * 8 + tf, sq[r * 8 + f]);
    assert(relocated_base(s, r, f, tr, tf) == moved);
    let rel = crate::rules::relocated(s, r, f, tr, tf);
    if crate::rules::en_passant_capture(s, r, f, tr, tf) {
        lemma_clear_keeps_one_king(moved, (tr - at(s, r, f)->0.colour.forward()) * 8 + tf);
    }
    assert(one_king_each(rel));
    if crate::rules::castling_move(s, r, f, tr, tf) {
        let h = r * 8;
        if tf == 2 {
            lemma_move_keeps_one_king(rel, h, h + 3);
        } else {
            lemma_move_keeps_one_king(rel, h + 7, h + 5);
        }
    }
}

spec fn relocated_base(s: Setup, r: int, f: int, tr: int, tf: int) -> Seq<Option<Piece>> {
    s.squares.update(r * 8 + f, None).update(tr * 8 + tf, Some(at(s, r, f)->0))
}

/// Colour `c` has a king on the board.
pub open spec fn has_king(s: Setup, c: Colour) -> bool {
    exists|r: int, f: int| on_board(r, f) && #[trigger] at(s, r, f) == Some(Piece { piece_type: PieceType::King, colour: c })
}

/// Returns the piece that starts on (r, f).
fn start_piece_at(r: usize, f: usize) -> (p: Option<Piece>)
    requires
        r < 8,
        f < 8,
    ensures
        p == start_piece(r as int, f as int),
{
    let t = if f == 0 || f == 7 {
        PieceType::Rook
    } else if f == 1 || f == 6 {
        PieceType::Knight
    } else if f == 2 || f == 5 {
        PieceType::Bishop
    } else if f == 3 {
        PieceType::Queen
    } else {
        PieceType::King
    };
    if r == 0 {
        Some(Piece { piece_type: t, colour: Colour::White })
    } else if r == 1 {
        Some(Piece { piece_type: PieceType::Pawn, colour: Colour::White })
    } else if r == 6 {
        Some(Piece { piece_type: PieceType::Pawn, colour: Colour::Black })
    } else if r == 7 {
        Some(Piece { piece_type: t, colour: Colour::Black })
    } else {
        None
    }
}

impl Game {
    /// Each colour has at most one king on the board. `new` establishes
    /// this, and every operation that changes the board keeps it.
    pub open spec fn wf(&self) -> bool {
        one_king_each(self.board@)
    }

    /// Returns a new game with the pieces on their starting squares, white
    /// to move, all castling rights, no en-passant target and clocks at 0.
    pub fn new() -> (g: Game)
        ensures
            g.state == GameState::InProgress,
            g.game_over_reason is None,
            g.active_colour == Colour::White,
            forall|r: int, f: int| on_board(r, f) ==> #[trigger] at(g@.setup, r, f) == start_piece(r, f),
            g.en_passant_target == Position::spec_null(),
            g.white_has_right_to_castle_queenside,
            g.white_has_right_to_castle_kingside,
            g.black_has_right_to_castle_queenside,
            g.black_has_right_to_castle_kingside,
            g.halfmoves == 0,
            g.fullmoves == 0,
            g.history@.len() == 0,
            g.wf(),
    {
        let mut board: [Option<Piece>; 64] = [None; 64];
        let mut i: usize = 0;
        while i < 64
            invariant
                i <= 64,
                forall|j: int| 0 <= j < i ==> #[trigger] board@[j] == start_piece(j / 8, j % 8),
            decreases 64 - i,
        {
            board[i] = start_piece_at(i / 8, i % 8);
            i = i + 1;
        }
        proof {
            assert forall|r: int, f: int| on_board(r, f) implies #[trigger] board@[r * 8 + f] == start_piece(r, f) by {
                assert((r * 8 + f) / 8 == r && (r * 8 + f) % 8 == f);
            }
            assert forall|a: int, b: int, c: Colour|
                0 <= a < 64 && 0 <= b < 64 && #[trigger] king_on(board@, a, c) && #[trigger] king_on(board@, b, c)
                implies a == b by {
                assert(board@[a] == start_piece(a / 8, a % 8));
                assert(board@[b] == start_piece(b / 8, b % 8));
                assert(a == (a / 8) * 8 + a % 8);
                assert(b == (b / 8) * 8 + b % 8);
            }
        }
        Game {
            state: GameState::InProgress,
            game_over_reason: None,
            active_colour: Colour::White,
            board,
            history: Vec::new(),
            halfmoves: 0,
            fullmoves: 0,
            en_passant_target: Position::null(),
            white_has_right_to_castle_queenside: true,
            white_has_right_to_castle_kingside: true,
            black_has_right_to_castle_queenside: true,
            black_has_right_to_castle_kingside: true,
        }
    }

    /// Returns the squares, en-passant target and castling rights.
    pub(crate) fn board_state(&self) -> (b: BoardState)
        ensures
            b@ == self@.setup,
    {
        BoardState {
            board: self.board,
            en_passant_target: self.en_passant_target,
            white_queenside: self.white_has_right_to_castle_queenside,
            white_kingside: self.white_has_right_to_castle_kingside,
            black_queenside: self.black_has_right_to_castle_queenside,
            black_kingside: self.black_has_right_to_castle_kingside,
        }
    }

    /// Returns what stands on `pos`; `OutOfRange` where `pos` is not valid.
    pub fn get(&self, pos: Position) -> (r: Result<Option<Piece>, ChessError>)
        ensures
            r is Ok <==> pos.spec_valid(),
            r is Ok ==> r->Ok_0 == at(self@.setup, pos.rank as int, pos.file as int),
            r is Err ==> r->Err_0 == ChessError::OutOfRange,
    {
        match pos.valid() {
            Ok(()) => Ok(self.board[pos.idx]),
            Err(e) => Err(e),
        }
    }

    /// Returns the square of the king of `colour`, the first in index order
    /// where there is more than one; None where it has none.
    fn find_king(&self, colour: Colour) -> (r: Option<Position>)
        ensures
            r is None <==> !has_king(self@.setup, colour),
            r is Some ==> r->0.spec_valid() && self.board@[r->0.idx as int] == Some(
                Piece { piece_type: PieceType::King, colour },
            ),
    {
        let mut i: usize = 0;
        while i < 64
            invariant
                i <= 64,
                forall|j: int| 0 <= j < i ==> self.board@[j] != Some(Piece { piece_type: PieceType::King, colour }),
            decreases 64 - i,
        {
            match self.board[i] {
                Some(p) => {
                    if p.piece_type == PieceType::King && p.colour == colour {
                        proof {
                            let r = i as int / 8;
                            let f = i as int % 8;
                            assert(r * 8 + f == i);
                            assert(on_board(r, f) && at(self@.setup, r, f) == Some(Piece { piece_type: PieceType::King, colour }));
                        }
                        return Some(Position { rank: i / 8, file: i % 8, idx: i });
                    }
                },
                None => {},
            }
            i = i + 1;
        }
        proof {
            assert forall|r: int, f: int| on_board(r, f) implies #[trigger] at(self@.setup, r, f) != Some(
                Piece { piece_type: PieceType::King, colour },
            ) by {
                assert(0 <= r * 8 + f < 64);
            }
        }
        None
    }

    /// Puts `piece` on `pos`, replacing what stood there. Refused with
    /// `OutOfRange` where `pos` is not valid, and with `SecondKing` where the
    /// piece is a king and its colour already has one on the board.
    pub fn put(&mut self, pos: Position, piece: Piece) -> (r: Result<(), ChessError>)
        ensures
            r is Ok <==> pos.spec_valid() && !(piece.piece_type == PieceType::King && has_king(
                old(self)@.setup,
                piece.colour,
            )),
            r is Err ==> *final(self) == *old(self),
            old(self).wf() ==> final(self).wf(),
            r is Err ==> (r->Err_0 == if !pos.spec_valid() {
                ChessError::OutOfRange
            } else {
                ChessError::SecondKing
            }),
            r is Ok ==> final(self)@ == (GameModel {
                setup: Setup {
                    squares: old(self)@.setup.squares.update(pos.idx as int, Some(piece)),
                    ..old(self)@.setup
                },
                ..old(self)@
            }),
    {
        if let Err(e) = pos.valid() {
            return Err(e);
        }
        if piece.piece_type == PieceType::King {
            if self.find_king(piece.colour).is_some() {
                return Err(ChessError::SecondKing);
            }
        }
        proof {
            let sq = old(self).board@;
            if old(self).wf() && piece.piece_type == PieceType::King {
                assert forall|j: int| 0 <= j < 64 && j != pos.idx implies !#[trigger] king_on(sq, j, piece.colour) by {
                    let r = j / 8;
                    let f = j % 8;
                    assert(r * 8 + f == j);
                    if king_on(sq, j, piece.colour) {
                        assert(on_board(r, f) && at(old(self)@.setup, r, f) == Some(
                            Piece { piece_type: PieceType::King, colour: piece.colour },
                        ));
                    }
                }
            }
            if old(self).wf() {
                lemma_place_keeps_one_king(sq, pos.idx as int, piece);
            }
        }
        self.board[pos.idx] = Some(piece);
        proof {
            assert(self@.setup.squares =~= old(self)@.setup.squares.update(pos.idx as int, Some(piece)));
        }
        Ok(())
    }

    /// Empties `pos` and returns what stood there; `OutOfRange` where `pos` is
    /// not valid.
    pub fn remove(&mut self, pos: Position) -> (r: Result<Option<Piece>, ChessError>)
        ensures
            r is Ok <==> pos.spec_valid(),
            r is Err ==> *final(self) == *old(self) && r->Err_0 == ChessError::OutOfRange,
            old(self).wf() ==> final(self).wf(),
            r is Ok ==> r->Ok_0 == old(self).board@[pos.idx as int] && final(self)@ == (GameModel {
                setup: Setup { squares: old(self)@.setup.squares.update(pos.idx as int, None), ..old(self)@.setup },
                ..old(self)@
            }),
    {
        if let Err(e) = pos.valid() {
            return Err(e);
        }
        let removed = self.board[pos.idx];
        self.board[pos.idx] = None;
        proof {
            assert(self@.setup.squares =~= old(self)@.setup.squares.update(pos.idx as int, None));
            if old(self).wf() {
                lemma_clear_keeps_one_king(old(self).board@, pos.idx as int);
            }
        }
        Ok(removed)
    }

    /// Writes back the squares, en-passant target and castling rights.
    fn store(&mut self, b: &BoardState)
        ensures
            final(self)@ == (GameModel { setup: b@, ..old(self)@ }),
    {
        self.board = b.board;
        self.en_passant_target = b.en_passant_target;
        self.white_has_right_to_castle_queenside = b.white_queenside;
        self.white_has_right_to_castle_kingside = b.white_kingside;
        self.black_has_right_to_castle_queenside = b.black_queenside;
        self.black_has_right_to_castle_kingside = b.black_kingside;
    }

    /// Moves the piece on `from` to `to` with its bookkeeping: records the
    /// move, changes the board, the en-passant target and the castling
    /// rights, and advances the clocks. The turn does not pass here.
    fn perform_move(&mut self, from: Position, to: Position)
        requires
            from.spec_valid(),
            to.spec_valid(),
            at(old(self)@.setup, from.rank as int, from.file as int) is Some,
        ensures
            final(self)@ == played(old(self)@, from.rank as int, from.file as int, to.rank as int, to.file as int),
    {
        let ghost m = self@;
        let mut b = self.board_state();
        let moved_piece = match piece_at(&b, from.rank, from.file) {
            Some(p) => p,
            None => {
                return;
            },
        };
        let key = key_for(&b, self.active_colour);
        let captured = b.apply_move(from.rank, from.file, to.rank, to.file);
        let entry = HistoryEntry { key, from, to, piece_moved: moved_piece, piece_captured: captured };
        self.history.push(entry);
        self.store(&b);
        if moved_piece.piece_type == PieceType::Pawn || captured.is_some() {
            self.halfmoves = 0;
        } else if self.halfmoves < 255 {
            self.halfmoves = self.halfmoves + 1;
        }
        if self.active_colour == Colour::Black && self.fullmoves < 0xffff_ffff {
            self.fullmoves = self.fullmoves + 1;
        }
        proof {
            assert(from == pos_at(from.rank as int, from.file as int));
            assert(to == pos_at(to.rank as int, to.file as int));
            assert(self@.history =~= m.history.push(entry@));
        }
    }

    /// Returns the square of the pawn of the side to move that stands on its
    /// last rank, the lowest file first; `NoPawnToPromote` where there is none.
    fn find_pawn_to_promote(&self) -> (r: Result<Position, ChessError>)
        ensures
            r is Ok <==> promotion_pending(self@.setup, self.active_colour),
            r is Ok ==> r->Ok_0 == pos_at(last_rank(self.active_colour), pawn_file(self@.setup, self.active_colour, 0))
                && r->Ok_0.spec_valid(),
            r is Err ==> r->Err_0 == ChessError::NoPawnToPromote,
    {
        let rank: usize = match self.active_colour {
            Colour::White => 7,
            Colour::Black => 0,
        };
        let mut file: usize = 0;
        while file < 8
            invariant
                file <= 8,
                rank == last_rank(self.active_colour),
                pawn_file(self@.setup, self.active_colour, 0) == pawn_file(self@.setup, self.active_colour, file as int),
            decreases 8 - file,
        {
            match self.board[rank * 8 + file] {
                Some(p) => {
                    if p.piece_type == PieceType::Pawn && p.colour == self.active_colour {
                        return Ok(Position { rank, file, idx: rank * 8 + file });
                    }
                },
                None => {},
            }
            file = file + 1;
        }
        Err(ChessError::NoPawnToPromote)
    }

    /// Classifies the position for the side to move: fivefold repetition,
    /// insufficient material, checkmate or stalemate, the 75-move rule, check
    /// (which takes that side's castling rights) or play on.
    fn classify(&mut self)
        ensures
            final(self)@ == classified(old(self)@),
    {
        let ghost m = self@;
        let b = self.board_state();
        let c = self.active_colour;
        let key = key_for(&b, c);
        let prior = count_occurrences(&self.history, &key);
        if prior >= 4 {
            self.state = GameState::GameOver;
            self.game_over_reason = Some(GameOverReason::FivefoldRepetitionRule);
            return;
        }
        if is_dead_position(&self.board) {
            self.state = GameState::GameOver;
            self.game_over_reason = Some(GameOverReason::InsufficientMaterial);
            return;
        }
        let check = king_in_check(&b, c);
        let can_move = colour_can_move(&b, c);
        if !can_move {
            self.state = GameState::GameOver;
            self.game_over_reason = Some(
                if check {
                    GameOverReason::Checkmate
                } else {
                    GameOverReason::Stalemate
                },
            );
            return;
        }
        if check {
            if c == Colour::White {
                self.white_has_right_to_castle_queenside = false;
                self.white_has_right_to_castle_kingside = false;
            } else {
                self.black_has_right_to_castle_queenside = false;
                self.black_has_right_to_castle_kingside = false;
            }
        }
        if self.halfmoves >= 150 {
            self.state = GameState::GameOver;
            self.game_over_reason = Some(GameOverReason::SeventyFiveMoveRule);
        } else if check {
            self.state = GameState::Check;
            self.game_over_reason = None;
        } else {
            self.state = GameState::InProgress;
            self.game_over_reason = None;
        }
    }

    /// After a move: waits for a promotion choice where the mover has a pawn
    /// on its last rank; otherwise passes the turn and classifies.
    fn update_game_state(&mut self)
        ensures
            final(self)@ == recompute(old(self)@),
    {
        if self.find_pawn_to_promote().is_ok() {
            self.state = GameState::WaitingOnPromotionChoice;
            return;
        }
        self.active_colour = self.active_colour.invert();
        self.classify();
    }

    /// Makes the move from `from_pos` to `to_pos` and returns the new state.
    ///
    /// Refused, with the game unchanged, while a promotion is pending or the
    /// game is over (`WrongState`), for an invalid square (`OutOfRange`), an
    /// empty source (`EmptySource`), a piece of the side not to move
    /// (`WrongColour`) or a destination outside the piece's legal moves
    /// (`IllegalMove`).
    pub fn make_move_pos(&mut self, from_pos: Position, to_pos: Position) -> (r: Result<GameState, ChessError>)
        ensures
            r is Err <==> move_error(old(self)@, from_pos, to_pos) is Some,
            r is Err ==> r->Err_0 == move_error(old(self)@, from_pos, to_pos)->0 && *final(self) == *old(self),
            r is Ok ==> final(self)@ == moved(old(self)@, from_pos, to_pos) && r->Ok_0 == final(self).state,
            old(self).wf() ==> final(self).wf(),
    {
        if !(self.state == GameState::InProgress || self.state == GameState::Check) {
            return Err(ChessError::WrongState);
        }
        if from_pos.valid().is_err() || to_pos.valid().is_err() {
            return Err(ChessError::OutOfRange);
        }
        let b = self.board_state();
        match piece_at(&b, from_pos.rank, from_pos.file) {
            None => {
                return Err(ChessError::EmptySource);
            },
            Some(p) => {
                if p.colour != self.active_colour {
                    return Err(ChessError::WrongColour);
                }
            },
        }
        if !is_legal(&b, from_pos.rank, from_pos.file, to_pos.rank, to_pos.file) {
            return Err(ChessError::IllegalMove);
        }
        proof {
            if old(self).wf() {
                lemma_apply_keeps_one_king(
                    old(self)@.setup,
                    from_pos.rank as int,
                    from_pos.file as int,
                    to_pos.rank as int,
                    to_pos.file as int,
                );
            }
        }
        self.perform_move(from_pos, to_pos);
        self.update_game_state();
        Ok(self.state)
    }

    /// Makes the move between two squares written as text, such as "e2" and
    /// "e4" (see `Position::parse_str`), and returns the new state. Refused,
    /// with the game unchanged, where a square does not parse or
    /// `make_move_pos` refuses the move.
    pub fn make_move(&mut self, from_str: &str, to_str: &str) -> (r: Result<GameState, ChessError>)
        ensures
            r is Err ==> *final(self) == *old(self),
            old(self).wf() ==> final(self).wf(),
            ({
                let from = square_of_text(trim_result(from_str@));
                let to = square_of_text(trim_result(to_str@));
                &&& from is Err ==> r == Err::<GameState, ChessError>(from->Err_0)
                &&& from is Ok && to is Err ==> r == Err::<GameState, ChessError>(to->Err_0)
                &&& from is Ok && to is Ok ==> {
                    &&& r is Err <==> move_error(old(self)@, from->Ok_0, to->Ok_0) is Some
                    &&& r is Err ==> r->Err_0 == move_error(old(self)@, from->Ok_0, to->Ok_0)->0
                    &&& r is Ok ==> final(self)@ == moved(old(self)@, from->Ok_0, to->Ok_0) && r->Ok_0
                        == final(self).state
                }
            }),
    {
        let from_pos = match Position::parse_str(from_str) {
            Ok(p) => p,
            Err(e) => {
                return Err(e);
            },
        };
        let to_pos = match Position::parse_str(to_str) {
            Ok(p) => p,
            Err(e) => {
                return Err(e);
            },
        };
        self.make_move_pos(from_pos, to_pos)
    }

    /// Promotes the waiting pawn to a piece of type `piece_type`, passes the
    /// turn, classifies the position and returns the new state.
    ///
    /// Refused, with the game unchanged, where no promotion is pending
    /// (`WrongState`) or the type is a king or a pawn (`BadPromotion`).
    pub fn set_promotion(&mut self, piece_type: PieceType) -> (r: Result<GameState, ChessError>)
        ensures
            r is Err ==> *final(self) == *old(self),
            old(self).wf() ==> final(self).wf(),
            old(self).state != GameState::WaitingOnPromotionChoice ==> r == Err::<GameState, ChessError>(
                ChessError::WrongState,
            ),
            old(self).state == GameState::WaitingOnPromotionChoice && (piece_type == PieceType::King || piece_type
                == PieceType::Pawn) ==> r == Err::<GameState, ChessError>(ChessError::BadPromotion),
            old(self).state == GameState::WaitingOnPromotionChoice && piece_type != PieceType::King && piece_type
                != PieceType::Pawn ==> if promotion_pending(old(self)@.setup, old(self).active_colour) {
                r is Ok && final(self)@ == promoted(old(self)@, piece_type) && r->Ok_0 == final(self).state
            } else {
                r == Err::<GameState, ChessError>(ChessError::NoPawnToPromote)
            },
    {
        if self.state != GameState::WaitingOnPromotionChoice {
            return Err(ChessError::WrongState);
        }
        match piece_type {
            PieceType::King | PieceType::Pawn => {
                return Err(ChessError::BadPromotion);
            },
            _ => {},
        }
        let pos = match self.find_pawn_to_promote() {
            Ok(p) => p,
            Err(e) => {
                return Err(e);
            },
        };
        let ghost m = self@;
        proof {
            let pf = pawn_file(m.setup, m.active, 0);
            lemma_pawn_file_bounds(m.setup, m.active, 0);
            assert(pos.rank == last_rank(m.active) && pos.file == pf);
            assert(pos.idx == last_rank(m.active) * 8 + pf);
            if old(self).wf() {
                lemma_place_keeps_one_king(self.board@, pos.idx as int, Piece { piece_type, colour: self.active_colour });
            }
        }
        self.board[pos.idx] = Some(Piece { piece_type, colour: self.active_colour });
        self.active_colour = self.active_colour.invert();
        proof {
            assert(self@.setup.squares =~= m.setup.squares.update(
                last_rank(m.active) * 8 + pawn_file(m.setup, m.active, 0),
                Some(Piece { piece_type, colour: m.active }),
            ));
        }
        self.classify();
        Ok(self.state)
    }

    /// Ends the game as a manual draw, unless it is already over.
    pub fn submit_draw(&mut self)
        ensures
            final(self).board@ == old(self).board@,
            old(self).state == GameState::GameOver ==> *final(self) == *old(self),
            old(self).state != GameState::GameOver ==> final(self)@ == (GameModel {
                state: GameState::GameOver,
                reason: Some(GameOverReason::ManualDraw),
                ..old(self)@
            }),
    {
        if self.state == GameState::GameOver {
            return;
        }
        self.state = GameState::GameOver;
        self.game_over_reason = Some(GameOverReason::ManualDraw);
    }

    /// Returns the state of the game.
    pub fn get_game_state(&self) -> (r: GameState)
        ensures
            r == self.state,
    {
        self.state
    }

    /// Returns why the game ended; None while it is not over.
    pub fn get_game_over_reason(&self) -> (r: Option<GameOverReason>)
        ensures
            r == self.game_over_reason,
    {
        self.game_over_reason
    }

    /// Returns the colour to move (during a pending promotion: the colour
    /// that promotes).
    pub fn get_active_colour(&self) -> (r: Colour)
        ensures
            r == self.active_colour,
    {
        self.active_colour
    }

    /// Returns a copy of the board, indexed by `rank * 8 + file`.
    pub fn get_board(&self) -> (r: [Option<Piece>; 64])
        ensures
            r@ == self.board@,
            self.wf() ==> one_king_each(r@),
    {
        self.board
    }

    /// Returns a copy of the history of moves, oldest first.
    pub fn get_history(&self) -> (r: Vec<HistoryEntry>)
        ensures
            r@ == self.history@,
    {
        let mut out: Vec<HistoryEntry> = Vec::new();
        let mut i: usize = 0;
        while i < self.history.len()
            invariant
                i <= self.history.len(),
                out@ == self.history@.take(i as int),
            decreases self.history.len() - i,
        {
            out.push(self.history[i]);
            i = i + 1;
            assert(out@ =~= self.history@.take(i as int));
        }
        assert(self.history@.take(i as int) =~= self.history@);
        out
    }

    /// Returns how often the current position, with the current side to
    /// move, occurred before.
    pub fn repetitions(&self) -> (n: usize)
        ensures
            n == occurrences(self@.history, key_of(self@.setup, self.active_colour)),
    {
        let b = self.board_state();
        let key = key_for(&b, self.active_colour);
        count_occurrences(&self.history, &key)
    }

    /// Returns true if the current position occurred at least twice before,
    /// so that a draw by threefold repetition may be claimed.
    pub fn is_threefold_repetition(&self) -> (r: bool)
        ensures
            r == (occurrences(self@.history, key_of(self@.setup, self.active_colour)) >= 2),
    {
        self.repetitions() >= 2
    }

    /// Returns true if the current position occurred at least four times
    /// before, which ends the game.
    pub fn is_fivefold_repetition(&self) -> (r: bool)
        ensures
            r == (occurrences(self@.history, key_of(self@.setup, self.active_colour)) >= 4),
    {
        self.repetitions() >= 4
    }

    /// Returns true if 100 half-moves passed without a pawn move or a capture.
    pub fn is_50_move_rule(&self) -> (r: bool)
        ensures
            r == (self.halfmoves >= 100),
    {
        self.halfmoves >= 100
    }

    /// Returns true if 150 half-moves passed without a pawn move or a capture.
    pub fn is_75_move_rule(&self) -> (r: bool)
        ensures
            r == (self.halfmoves >= 150),
    {
        self.halfmoves >= 150
    }

    /// Returns true if the game is over.
    pub fn is_gameover(&self) -> (r: bool)
        ensures
            r == (self.state == GameState::GameOver),
    {
        self.state == GameState::GameOver
    }

    /// Returns true if the side to move is in check (and has a legal move).
    pub fn is_check(&self) -> (r: bool)
        ensures
            r == (self.state == GameState::Check),
    {
        self.state == GameState::Check
    }

    /// Returns true if the game ended in checkmate.
    pub fn is_checkmate(&self) -> (r: bool)
        ensures
            r == (self.game_over_reason == Some(GameOverReason::Checkmate)),
    {
        match self.game_over_reason {
            Some(GameOverReason::Checkmate) => true,
            _ => false,
        }
    }

    /// Returns the squares to which the piece on `pos` may legally move,
    /// in increasing index order; none where `pos` is empty. `OutOfRange`
    /// where `pos` is not valid.
    pub fn get_possible_moves(&self, pos: Position) -> (r: Result<Vec<Position>, ChessError>)
        ensures
            r is Ok <==> pos.spec_valid(),
            r is Err ==> r->Err_0 == ChessError::OutOfRange,
            r is Ok ==> forall|tr: int, tf: int|
                on_board(tr, tf) ==> (r->Ok_0@.contains(pos_at(tr, tf)) <==> legal(
                    self@.setup,
                    pos.rank as int,
                    pos.file as int,
                    tr,
                    tf,
                )),
            r is Ok ==> forall|i: int| 0 <= i < r->Ok_0@.len() ==> (#[trigger] r->Ok_0@[i]).spec_valid(),
            r is Ok ==> forall|i: int, j: int| 0 <= i < j < r->Ok_0@.len() ==> r->Ok_0@[i].idx < r->Ok_0@[j].idx,
    {
        self.moves_selected(pos, None)
    }

    /// Returns the legal moves of the piece on `pos` that take a piece.
    /// `OutOfRange` where `pos` is not valid.
    pub fn get_possible_capture_moves(&self, pos: Position) -> (r: Result<Vec<Position>, ChessError>)
        ensures
            r is Ok <==> pos.spec_valid(),
            r is Err ==> r->Err_0 == ChessError::OutOfRange,
            r is Ok ==> forall|tr: int, tf: int|
                on_board(tr, tf) ==> (r->Ok_0@.contains(pos_at(tr, tf)) <==> legal(
                    self@.setup,
                    pos.rank as int,
                    pos.file as int,
                    tr,
                    tf,
                ) && capture(self@.setup, pos.rank as int, pos.file as int, tr, tf)),
            r is Ok ==> forall|i: int| 0 <= i < r->Ok_0@.len() ==> (#[trigger] r->Ok_0@[i]).spec_valid(),
            r is Ok ==> forall|i: int, j: int| 0 <= i < j < r->Ok_0@.len() ==> r->Ok_0@[i].idx < r->Ok_0@[j].idx,
    {
        self.moves_selected(pos, Some(true))
    }

    /// Returns the legal moves of the piece on `pos` that take no piece.
    /// `OutOfRange` where `pos` is not valid.
    pub fn get_possible_non_capture_moves(&self, pos: Position) -> (r: Result<Vec<Position>, ChessError>)
        ensures
            r is Ok <==> pos.spec_valid(),
            r is Err ==> r->Err_0 == ChessError::OutOfRange,
            r is Ok ==> forall|tr: int, tf: int|
                on_board(tr, tf) ==> (r->Ok_0@.contains(pos_at(tr, tf)) <==> legal(
                    self@.setup,
                    pos.rank as int,
                    pos.file as int,
                    tr,
                    tf,
                ) && !capture(self@.setup, pos.rank as int, pos.file as int, tr, tf)),
            r is Ok ==> forall|i: int| 0 <= i < r->Ok_0@.len() ==> (#[trigger] r->Ok_0@[i]).spec_valid(),
            r is Ok ==> forall|i: int, j: int| 0 <= i < j < r->Ok_0@.len() ==> r->Ok_0@[i].idx < r->Ok_0@[j].idx,
    {
        self.moves_selected(pos, Some(false))
    }

    /// Returns the legal moves of the piece on `pos` that `want` selects.
    fn moves_selected(&self, pos: Position, want: Option<bool>) -> (r: Result<Vec<Position>, ChessError>)
        ensures
            r is Ok <==> pos.spec_valid(),
            r is Err ==> r->Err_0 == ChessError::OutOfRange,
            r is Ok ==> forall|tr: int, tf: int|
                on_board(tr, tf) ==> (r->Ok_0@.contains(pos_at(tr, tf)) <==> wanted(
                    self@.setup,
                    pos.rank as int,
                    pos.file as int,
                    tr,
                    tf,
                    want,
                )),
            r is Ok ==> forall|i: int| 0 <= i < r->Ok_0@.len() ==> (#[trigger] r->Ok_0@[i]).spec_valid(),
            r is Ok ==> forall|i: int, j: int| 0 <= i < j < r->Ok_0@.len() ==> r->Ok_0@[i].idx < r->Ok_0@[j].idx,
    {
        if let Err(e) = pos.valid() {
            return Err(e);
        }
        let b = self.board_state();
        Ok(legal_destinations(&b, pos.rank, pos.file, want))
    }

    /// Returns true if the move from `from_pos` to `to_pos` takes a piece:
    /// it lands on a piece of the other colour, or it is a pawn landing on the
    /// empty en-passant target. `OutOfRange` where a square is not valid,
    /// `EmptySource` where `from_pos` is empty.
    pub fn is_capture(&self, from_pos: Position, to_pos: Position) -> (r: Result<bool, ChessError>)
        ensures
            r is Ok <==> from_pos.spec_valid() && to_pos.spec_valid() && at(
                self@.setup,
                from_pos.rank as int,
                from_pos.file as int,
            ) is Some,
            r is Ok ==> r->Ok_0 == capture(
                self@.setup,
                from_pos.rank as int,
                from_pos.file as int,
                to_pos.rank as int,
                to_pos.file as int,
            ),
            r is Err ==> r->Err_0 == if from_pos.spec_valid() && to_pos.spec_valid() {
                ChessError::EmptySource
            } else {
                ChessError::OutOfRange
            },
    {
        if from_pos.valid().is_err() || to_pos.valid().is_err() {
            return Err(ChessError::OutOfRange);
        }
        let b = self.board_state();
        if piece_at(&b, from_pos.rank, from_pos.file).is_none() {
            return Err(ChessError::EmptySource);
        }
        Ok(is_capture_move(&b, from_pos.rank, from_pos.file, to_pos.rank, to_pos.file))
    }
}

} // verus!
