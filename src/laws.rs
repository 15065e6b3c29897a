//! Laws that relate several operations of the engine, proved over the model.
use crate::game::{
    move_error, moved, played, promotion_pending, recompute, GameModel, GameOverReason, GameState,
};
use crate::history::{key_of, occurrences};
use crate::material::{dead_position, occupied, piece, tally};
use crate::piece::{Colour, Piece, PieceType};
use crate::position::{pos_at, Position};
use crate::rules::{abs, apply, at, captured_piece, castling_move, has_legal_move, in_check, relocated, rook_castled, Setup};
use vstd::prelude::*;

verus! {

/// The en-passant target lives for one move: after a pawn's double step it
/// is the square passed over, and after any other move there is none.
pub proof fn en_passant_lasts_one_move(m: GameModel, from: Position, to: Position)
    requires
        move_error(m, from, to) is None,
    ensures
        ({
            let p = at(m.setup, from.rank as int, from.file as int)->0;
            let e = moved(m, from, to).setup.en_passant;
            if p.piece_type == PieceType::Pawn && abs(to.rank - from.rank) == 2 {
                e == pos_at((from.rank + to.rank) / 2, from.file as int)
            } else {
                e == Position::spec_null()
            }
        }),
{
}

/// Only a white king on square `a` and a black king on square `b`.
pub open spec fn bare_kings(sq: Seq<Option<Piece>>, a: int, b: int) -> bool {
    &&& sq.len() == 64
    &&& 0 <= a < 64
    &&& 0 <= b < 64
    &&& a != b
    &&& sq[a] == Some(piece(PieceType::King, Colour::White))
    &&& sq[b] == Some(piece(PieceType::King, Colour::Black))
    &&& forall|i: int| 0 <= i < 64 && i != a && i != b ==> #[trigger] sq[i] is None
}

proof fn lemma_bare_kings_counts(sq: Seq<Option<Piece>>, a: int, b: int, n: int)
    requires
        bare_kings(sq, a, b),
        0 <= n <= 64,
    ensures
        occupied(sq, n) == (if a < n { 1nat } else { 0nat }) + (if b < n { 1nat } else { 0nat }),
        tally(sq, piece(PieceType::King, Colour::White), n) == if a < n { 1nat } else { 0nat },
        tally(sq, piece(PieceType::King, Colour::Black), n) == if b < n { 1nat } else { 0nat },
    decreases n,
{
    if n > 0 {
        lemma_bare_kings_counts(sq, a, b, n - 1);
        if n - 1 != a && n - 1 != b {
            assert(sq[n - 1] is None);
        }
    }
}

/// A board with only the two kings is dead.
pub proof fn bare_kings_are_dead(sq: Seq<Option<Piece>>, a: int, b: int)
    requires
        bare_kings(sq, a, b),
    ensures
        dead_position(sq),
{
    lemma_bare_kings_counts(sq, a, b, 64);
}

/// With only the two kings on the board, a legal move that does not take
/// the other king leaves only the two kings.
proof fn lemma_king_move_keeps_bare_kings(s: Setup, r: int, f: int, tr: int, tf: int, a: int, b: int) -> (k: (
    int,
    int,
))
    requires
        bare_kings(s.squares, a, b),
        0 <= r < 8 && 0 <= f < 8 && 0 <= tr < 8 && 0 <= tf < 8,
        at(s, r, f) is Some,
        at(s, tr, tf) is None,
        castling_move(s, r, f, tr, tf) ==> (if tf == 2 {
            at(s, r, 3) is None
        } else {
            at(s, r, 5) is None
        }),
    ensures
        bare_kings(apply(s, r, f, tr, tf).squares, k.0, k.1),
{
    let sq = s.squares;
    let from = r * 8 + f;
    let to = tr * 8 + tf;
    assert(from == a || from == b);
    assert(to != a && to != b);
    let mid = relocated(s, r, f, tr, tf);
    assert(mid == sq.update(from, None).update(to, sq[from]));
    let (a1, b1) = if from == a { (to, b) } else { (a, to) };
    assert(bare_kings(mid, a1, b1));
    if castling_move(s, r, f, tr, tf) {
        let h = r * 8;
        let (rf, rt) = if tf == 2 { (h, h + 3) } else { (h + 7, h + 5) };
        assert(mid[rt] is None);
        let fin = rook_castled(mid, r, tf);
        assert(fin == mid.update(rt, mid[rf]).update(rf, None));
        let a2 = if a1 == rf { rt } else { a1 };
        let b2 = if b1 == rf { rt } else { b1 };
        assert(bare_kings(fin, a2, b2));
        (a2, b2)
    } else {
        (a1, b1)
    }
}

/// With only the two kings on the board, every legal move that does not
/// take the other king ends the game for insufficient material, unless the
/// new position occurred four times before.
pub proof fn bare_kings_end_the_game(m: GameModel, from: Position, to: Position, a: int, b: int)
    requires
        bare_kings(m.setup.squares, a, b),
        move_error(m, from, to) is None,
        at(m.setup, to.rank as int, to.file as int) is None,
        occurrences(
            played(m, from.rank as int, from.file as int, to.rank as int, to.file as int).history,
            key_of(apply(m.setup, from.rank as int, from.file as int, to.rank as int, to.file as int), m.active.opponent()),
        ) < 4,
    ensures
        moved(m, from, to).state == GameState::GameOver,
        moved(m, from, to).reason == Some(GameOverReason::InsufficientMaterial),
{
    let s = m.setup;
    let (r, f, tr, tf) = (from.rank as int, from.file as int, to.rank as int, to.file as int);
    if castling_move(s, r, f, tr, tf) {
        assert(!crate::rules::reaches(s, r, f, tr, tf));
        assert(crate::rules::castles(s, r, f, tr, tf));
    }
    let k = lemma_king_move_keeps_bare_kings(s, r, f, tr, tf, a, b);
    let n = played(m, r, f, tr, tf);
    bare_kings_are_dead(n.setup.squares, k.0, k.1);
    if promotion_pending(n.setup, m.active) {
        let pf = crate::game::pawn_file(n.setup, m.active, 0);
        crate::game::lemma_pawn_file_found(n.setup, m.active, 0);
        crate::game::lemma_pawn_file_bounds(n.setup, m.active, 0);
        let i = crate::rules::last_rank(m.active) * 8 + pf;
        assert(n.setup.squares[i] is Some);
        assert(i == k.0 || i == k.1);
        assert(false);
    }
    assert(!promotion_pending(n.setup, m.active));
    assert(n.setup == apply(s, r, f, tr, tf));
}

/// The 75-move rule: a move without a pawn move or a capture that brings
/// the half-move clock to 150 ends the game, unless, in the order in which
/// the position is classified, a promotion is pending or the position ends
/// the game by fivefold repetition, insufficient material, checkmate or
/// stalemate first.
pub proof fn seventy_five_move_rule(m: GameModel, from: Position, to: Position)
    requires
        move_error(m, from, to) is None,
        m.halfmoves >= 149,
        at(m.setup, from.rank as int, from.file as int)->0.piece_type != PieceType::Pawn,
        captured_piece(m.setup, from.rank as int, from.file as int, to.rank as int, to.file as int) is None,
        ({
            let n = played(m, from.rank as int, from.file as int, to.rank as int, to.file as int);
            let c = m.active.opponent();
            &&& !promotion_pending(n.setup, m.active)
            &&& occurrences(n.history, key_of(n.setup, c)) < 4
            &&& !dead_position(n.setup.squares)
            &&& has_legal_move(n.setup, c)
        }),
    ensures
        moved(m, from, to).state == GameState::GameOver,
        moved(m, from, to).reason == Some(GameOverReason::SeventyFiveMoveRule),
{
}

/// Fivefold repetition: once a move is made and no promotion is pending, the
/// game ends by fivefold repetition exactly when the new position, with the
/// other side to move, occurred at least four times before.
pub proof fn fivefold_repetition_rule(m: GameModel)
    requires
        !promotion_pending(m.setup, m.active),
    ensures
        ({
            let n = occurrences(m.history, key_of(m.setup, m.active.opponent()));
            let after = recompute(m);
            &&& n >= 4 ==> after.state == GameState::GameOver && after.reason == Some(
                GameOverReason::FivefoldRepetitionRule,
            )
            &&& n < 4 ==> after.reason != Some(GameOverReason::FivefoldRepetitionRule)
        }),
{
}

/// Once a move is made, with no promotion pending, no fivefold repetition
/// and no dead position: a side to move without a legal move is checkmated
/// or stalemated, whatever the half-move clock; one with a legal move loses
/// nothing to those rules, and the game ends by the 75-move rule where the
/// clock has reached 150.
pub proof fn game_end_precedence(m: GameModel)
    requires
        !promotion_pending(m.setup, m.active),
        occurrences(m.history, key_of(m.setup, m.active.opponent())) < 4,
        !dead_position(m.setup.squares),
    ensures
        ({
            let c = m.active.opponent();
            let after = recompute(m);
            &&& !has_legal_move(m.setup, c) ==> after.state == GameState::GameOver && after.reason == Some(
                if in_check(m.setup, c) {
                    GameOverReason::Checkmate
                } else {
                    GameOverReason::Stalemate
                },
            )
            &&& has_legal_move(m.setup, c) && m.halfmoves >= 150 ==> after.state == GameState::GameOver
                && after.reason == Some(GameOverReason::SeventyFiveMoveRule)
        }),
{
}

} // verus!
