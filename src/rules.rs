//! The rules of movement, stated over a mathematical model of the board.
use crate::piece::{Colour, Piece, PieceType};
use crate::position::{pos_at, Position};
use vstd::prelude::*;

verus! {

/// What the rules read of a game: the 64 squares (index `rank * 8 + file`),
/// the en-passant target (`Position::spec_null()` when there is none) and the
/// four castling rights.
pub struct Setup {
    pub squares: Seq<Option<Piece>>,
    pub en_passant: Position,
    pub white_queenside: bool,
    pub white_kingside: bool,
    pub black_queenside: bool,
    pub black_kingside: bool,
}

pub open spec fn on_board(r: int, f: int) -> bool {
    0 <= r < 8 && 0 <= f < 8
}

pub open spec fn at(s: Setup, r: int, f: int) -> Option<Piece> {
    s.squares[r * 8 + f]
}

pub open spec fn vacant(s: Setup, r: int, f: int) -> bool {
    at(s, r, f) is None
}

/// The square holds a piece of the colour other than `c`.
pub open spec fn enemy_at(s: Setup, c: Colour, r: int, f: int) -> bool {
    at(s, r, f) matches Some(p) && p.colour != c
}

/// The square is empty or holds a piece of the colour other than `c`.
pub open spec fn open_to(s: Setup, c: Colour, r: int, f: int) -> bool {
    !(at(s, r, f) matches Some(p) && p.colour == c)
}

pub open spec fn abs(x: int) -> int {
    if x < 0 { -x } else { x }
}

pub open spec fn max(a: int, b: int) -> int {
    if a < b { b } else { a }
}

/// `k` steps in the direction of the sign of `d`.
pub open spec fn walk(k: int, d: int) -> int {
    if d > 0 { k } else if d < 0 { -k } else { 0 }
}

/// The `k`-th square from (r, f) towards (r + dr, f + df) is empty.
pub open spec fn vacant_step(s: Setup, r: int, f: int, dr: int, df: int, k: int) -> bool {
    vacant(s, r + walk(k, dr), f + walk(k, df))
}

/// Every square strictly between (r, f) and (tr, tf) on the line that joins
/// them is empty.
pub open spec fn clear_between(s: Setup, r: int, f: int, tr: int, tf: int) -> bool {
    let dr = tr - r;
    let df = tf - f;
    forall|k: int| 1 <= k < max(abs(dr), abs(df)) ==> #[trigger] vacant_step(s, r, f, dr, df, k)
}

pub open spec fn straight(dr: int, df: int) -> bool {
    (dr == 0) != (df == 0)
}

pub open spec fn diagonal(dr: int, df: int) -> bool {
    dr != 0 && abs(dr) == abs(df)
}

/// The rank from which a pawn of colour `c` may advance two squares.
pub open spec fn pawn_start(c: Colour) -> int {
    if c == Colour::White { 1 } else { 6 }
}

/// The rank on which the pieces of colour `c` start.
pub open spec fn home_rank(c: Colour) -> int {
    if c == Colour::White { 0 } else { 7 }
}

/// The rank on which a pawn of colour `c` is promoted.
pub open spec fn last_rank(c: Colour) -> int {
    if c == Colour::White { 7 } else { 0 }
}

/// The en-passant target is the square (r, f).
pub open spec fn ep_here(s: Setup, r: int, f: int) -> bool {
    s.en_passant == pos_at(r, f)
}

/// A pawn of colour `c` on (r, f) may step to (tr, tf): one square forward
/// onto an empty square; two from its starting rank over an empty square onto
/// an empty square; one square diagonally forward onto an enemy piece or onto
/// the empty en-passant target.
pub open spec fn pawn_step(s: Setup, c: Colour, r: int, f: int, tr: int, tf: int) -> bool {
    let d = c.forward();
    ||| tf == f && tr == r + d && vacant(s, tr, tf)
    ||| tf == f && tr == r + 2 * d && r == pawn_start(c) && vacant(s, r + d, f) && vacant(s, tr, tf)
    ||| tr == r + d && abs(tf - f) == 1 && (enemy_at(s, c, tr, tf) || (vacant(s, tr, tf) && ep_here(s, tr, tf)))
}

/// The piece on (r, f) may move to (tr, tf) by its movement pattern, with
/// obstruction and capture rules, but without castling and without regard
/// to the safety of its own king.
pub open spec fn reaches(s: Setup, r: int, f: int, tr: int, tf: int) -> bool {
    &&& on_board(r, f)
    &&& on_board(tr, tf)
    &&& at(s, r, f) is Some
    &&& {
        let p = at(s, r, f)->0;
        let dr = tr - r;
        let df = tf - f;
        match p.piece_type {
            PieceType::King => abs(dr) <= 1 && abs(df) <= 1 && (dr != 0 || df != 0) && open_to(s, p.colour, tr, tf),
            PieceType::Knight => ((abs(dr) == 1 && abs(df) == 2) || (abs(dr) == 2 && abs(df) == 1))
                && open_to(s, p.colour, tr, tf),
            PieceType::Rook => straight(dr, df) && clear_between(s, r, f, tr, tf) && open_to(s, p.colour, tr, tf),
            PieceType::Bishop => diagonal(dr, df) && clear_between(s, r, f, tr, tf) && open_to(s, p.colour, tr, tf),
            PieceType::Queen => (straight(dr, df) || diagonal(dr, df)) && clear_between(s, r, f, tr, tf)
                && open_to(s, p.colour, tr, tf),
            PieceType::Pawn => pawn_step(s, p.colour, r, f, tr, tf),
        }
    }
}

/// Some piece of colour `by` reaches the square (tr, tf).
pub open spec fn attacked(s: Setup, tr: int, tf: int, by: Colour) -> bool {
    exists|r: int, f: int|
        on_board(r, f) && #[trigger] reaches(s, r, f, tr, tf) && at(s, r, f)->0.colour == by
}

/// A king of colour `c` stands on a square that the other colour reaches.
/// Without a king of that colour on the board this is false.
pub open spec fn in_check(s: Setup, c: Colour) -> bool {
    exists|r: int, f: int|
        on_board(r, f) && #[trigger] at(s, r, f) == Some(Piece { piece_type: PieceType::King, colour: c })
            && attacked(s, r, f, c.opponent())
}

/// The move from (r, f) to (tr, tf) is a king's castling move: from its
/// starting square two files along its home rank.
pub open spec fn castling_move(s: Setup, r: int, f: int, tr: int, tf: int) -> bool {
    &&& at(s, r, f) matches Some(p)
    &&& p.piece_type == PieceType::King
    &&& r == home_rank(p.colour)
    &&& f == 4
    &&& tr == r
    &&& (tf == 2 || tf == 6)
}

/// A pawn moves onto the en-passant target, with a square behind it.
pub open spec fn en_passant_capture(s: Setup, r: int, f: int, tr: int, tf: int) -> bool {
    &&& at(s, r, f) matches Some(p)
    &&& p.piece_type == PieceType::Pawn
    &&& ep_here(s, tr, tf)
    &&& on_board(tr - p.colour.forward(), tf)
}

/// The piece that a move takes off the board: the one on the destination,
/// or, for a pawn moving onto the en-passant target, the one behind it.
pub open spec fn captured_piece(s: Setup, r: int, f: int, tr: int, tf: int) -> Option<Piece> {
    if en_passant_capture(s, r, f, tr, tf) {
        at(s, tr - at(s, r, f)->0.colour.forward(), tf)
    } else {
        at(s, tr, tf)
    }
}

/// The castling right that belongs to the corner (r, f) stays only if no
/// rook leaves that corner and no piece is captured on it.
pub open spec fn keeps_corner(s: Setup, r: int, f: int, tr: int, tf: int, cr: int, cf: int) -> bool {
    let p = at(s, r, f)->0;
    !(p.piece_type == PieceType::Rook && r == cr && f == cf) && !(at(s, tr, tf) is Some && tr == cr && tf == cf)
}

/// The squares after the piece on (r, f) is relocated to (tr, tf), with the
/// pawn behind the destination removed where a pawn lands on the en-passant
/// target.
pub open spec fn relocated(s: Setup, r: int, f: int, tr: int, tf: int) -> Seq<Option<Piece>> {
    let p = at(s, r, f)->0;
    let moved = s.squares.update(r * 8 + f, None).update(tr * 8 + tf, Some(p));
    if en_passant_capture(s, r, f, tr, tf) {
        moved.update((tr - p.colour.forward()) * 8 + tf, None)
    } else {
        moved
    }
}

/// The squares `sq` with the rook of a castling move along rank `r` brought
/// next to the king: from the a-file to the d-file when the king goes to the
/// c-file, from the h-file to the f-file otherwise.
pub open spec fn rook_castled(sq: Seq<Option<Piece>>, r: int, tf: int) -> Seq<Option<Piece>> {
    let h = r * 8;
    if tf == 2 {
        sq.update(h + 3, sq[h]).update(h, None)
    } else {
        sq.update(h + 5, sq[h + 7]).update(h + 7, None)
    }
}

/// The position after the piece on (r, f) moves to (tr, tf): it is
/// relocated; a pawn landing on the en-passant target removes the pawn behind
/// it; a pawn's double step makes the passed-over square the en-passant
/// target, any other move clears it; castling relocates the rook; a king
/// move gives up both rights of its colour; a rook leaving a corner, or a
/// capture on a corner, gives up that corner's right.
pub open spec fn apply(s: Setup, r: int, f: int, tr: int, tf: int) -> Setup {
    let p = at(s, r, f)->0;
    let king = p.piece_type == PieceType::King;
    Setup {
        squares: if castling_move(s, r, f, tr, tf) {
            rook_castled(relocated(s, r, f, tr, tf), r, tf)
        } else {
            relocated(s, r, f, tr, tf)
        },
        en_passant: if p.piece_type == PieceType::Pawn && abs(tr - r) == 2 {
            pos_at((r + tr) / 2, f)
        } else {
            Position::spec_null()
        },
        white_queenside: s.white_queenside && !(king && p.colour == Colour::White) && keeps_corner(s, r, f, tr, tf, 0, 0),
        white_kingside: s.white_kingside && !(king && p.colour == Colour::White) && keeps_corner(s, r, f, tr, tf, 0, 7),
        black_queenside: s.black_queenside && !(king && p.colour == Colour::Black) && keeps_corner(s, r, f, tr, tf, 7, 0),
        black_kingside: s.black_kingside && !(king && p.colour == Colour::Black) && keeps_corner(s, r, f, tr, tf, 7, 7),
    }
}

/// The move leaves the mover's own king out of check.
pub open spec fn safe(s: Setup, r: int, f: int, tr: int, tf: int) -> bool {
    !in_check(apply(s, r, f, tr, tf), at(s, r, f)->0.colour)
}

pub open spec fn castle_right(s: Setup, c: Colour, kingside: bool) -> bool {
    if c == Colour::White {
        if kingside { s.white_kingside } else { s.white_queenside }
    } else {
        if kingside { s.black_kingside } else { s.black_queenside }
    }
}

/// The king on (r, f) may castle to (tr, tf): the right is held, the squares
/// between king and rook are empty, the king's square is not attacked, a
/// one-square king step onto the square it passes over would not leave it in
/// check (so that square is not attacked, by a pawn either), and the king is
/// not in check on arrival.
pub open spec fn castles(s: Setup, r: int, f: int, tr: int, tf: int) -> bool {
    &&& castling_move(s, r, f, tr, tf)
    &&& {
        let c = at(s, r, f)->0.colour;
        let kingside = tf == 6;
        &&& castle_right(s, c, kingside)
        &&& if kingside {
            vacant(s, r, 5) && vacant(s, r, 6) && safe(s, r, 4, r, 5)
        } else {
            vacant(s, r, 1) && vacant(s, r, 2) && vacant(s, r, 3) && safe(s, r, 4, r, 3)
        }
        &&& !attacked(s, r, 4, c.opponent())
        &&& safe(s, r, f, tr, tf)
    }
}

/// The piece on (r, f) may legally move to (tr, tf).
pub open spec fn legal(s: Setup, r: int, f: int, tr: int, tf: int) -> bool {
    (reaches(s, r, f, tr, tf) && safe(s, r, f, tr, tf)) || castles(s, r, f, tr, tf)
}

/// The move from (r, f) to (tr, tf) takes a piece: it lands on an enemy
/// piece, or it is a pawn landing on the empty en-passant target.
pub open spec fn capture(s: Setup, r: int, f: int, tr: int, tf: int) -> bool {
    &&& at(s, r, f) matches Some(p)
    &&& enemy_at(s, p.colour, tr, tf) || (p.piece_type == PieceType::Pawn && vacant(s, tr, tf) && ep_here(s, tr, tf))
}

/// A move is selected by `want`: every move for None, captures for
/// Some(true), the other moves for Some(false).
pub open spec fn selected(want: Option<bool>, is_capture: bool) -> bool {
    match want {
        None => true,
        Some(w) => w == is_capture,
    }
}

/// The legal move from (r, f) to (tr, tf) is one that `want` selects.
pub open spec fn wanted(s: Setup, r: int, f: int, tr: int, tf: int, want: Option<bool>) -> bool {
    legal(s, r, f, tr, tf) && selected(want, capture(s, r, f, tr, tf))
}

/// Colour `c` has a legal move.
pub open spec fn has_legal_move(s: Setup, c: Colour) -> bool {
    exists|r: int, f: int, tr: int, tf: int|
        on_board(r, f) && on_board(tr, tf) && at(s, r, f) is Some && at(s, r, f)->0.colour == c
            && #[trigger] legal(s, r, f, tr, tf)
}

} // verus!
