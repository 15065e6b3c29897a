//! Position fingerprints and the move history, with repetition counting.
use crate::board::{is_legal, piece_at, BoardState};
use crate::piece::{Colour, Piece, PieceType};
use crate::position::Position;
use crate::rules::{at, legal, on_board, Setup};
use vstd::prelude::*;

verus! {

/// What decides whether two positions repeat: the squares, the side to move,
/// the castling rights, and the en-passant target where a capture onto it
/// is legal (`Position::null()` otherwise).
#[derive(Copy, Clone, Debug, PartialEq, Eq, Hash)]
pub struct PositionKey {
    pub board: [Option<Piece>; 64],
    pub active_colour: Colour,
    pub white_queenside: bool,
    pub white_kingside: bool,
    pub black_queenside: bool,
    pub black_kingside: bool,
    pub en_passant: Position,
}

/// The mathematical value of a `PositionKey`.
pub struct KeyModel {
    pub squares: Seq<Option<Piece>>,
    pub active: Colour,
    pub white_queenside: bool,
    pub white_kingside: bool,
    pub black_queenside: bool,
    pub black_kingside: bool,
    pub en_passant: Position,
}

impl View for PositionKey {
    type V = KeyModel;

    open spec fn view(&self) -> KeyModel {
        KeyModel {
            squares: self.board@,
            active: self.active_colour,
            white_queenside: self.white_queenside,
            white_kingside: self.white_kingside,
            black_queenside: self.black_queenside,
            black_kingside: self.black_kingside,
            en_passant: self.en_passant,
        }
    }
}

/// One completed move: the fingerprint of the position it was made from,
/// its squares, the piece moved and the piece it took, if any.
#[derive(Copy, Clone, Debug, PartialEq, Eq, Hash)]
pub struct HistoryEntry {
    pub key: PositionKey,
    pub from: Position,
    pub to: Position,
    pub piece_moved: Piece,
    pub piece_captured: Option<Piece>,
}

/// The mathematical value of a `HistoryEntry`.
pub struct HistoryModel {
    pub key: KeyModel,
    pub from: Position,
    pub to: Position,
    pub piece_moved: Piece,
    pub piece_captured: Option<Piece>,
}

impl View for HistoryEntry {
    type V = HistoryModel;

    open spec fn view(&self) -> HistoryModel {
        HistoryModel {
            key: self.key@,
            from: self.from,
            to: self.to,
            piece_moved: self.piece_moved,
            piece_captured: self.piece_captured,
        }
    }
}

/// A pawn of colour `c` on (r, f) may legally capture onto the en-passant
/// target.
pub open spec fn ep_capturer(s: Setup, c: Colour, r: int, f: int) -> bool {
    &&& on_board(r, f)
    &&& at(s, r, f) == Some(Piece { piece_type: PieceType::Pawn, colour: c })
    &&& legal(s, r, f, s.en_passant.rank as int, s.en_passant.file as int)
}

/// Colour `c`, to move, may legally capture en passant.
pub open spec fn ep_executable(s: Setup, c: Colour) -> bool {
    let e = s.en_passant;
    let r = e.rank - c.forward();
    &&& e.spec_valid()
    &&& (ep_capturer(s, c, r, e.file - 1) || ep_capturer(s, c, r, e.file + 1))
}

/// The fingerprint of a position with colour `c` to move.
pub open spec fn key_of(s: Setup, c: Colour) -> KeyModel {
    KeyModel {
        squares: s.squares,
        active: c,
        white_queenside: s.white_queenside,
        white_kingside: s.white_kingside,
        black_queenside: s.black_queenside,
        black_kingside: s.black_kingside,
        en_passant: if ep_executable(s, c) { s.en_passant } else { Position::spec_null() },
    }
}

/// How many entries of the history were made from a position with
/// fingerprint `k`.
pub open spec fn occurrences(h: Seq<HistoryModel>, k: KeyModel) -> nat
    decreases h.len(),
{
    if h.len() == 0 {
        0
    } else {
        occurrences(h.drop_last(), k) + if h.last().key == k { 1nat } else { 0nat }
    }
}

/// Returns true if colour `c`, to move, may legally capture en passant.
pub fn en_passant_live(b: &BoardState, c: Colour) -> (ok: bool)
    ensures
        ok == ep_executable(b@, c),
{
    let e = b.en_passant_target;
    if !(e.rank < 8 && e.file < 8 && e.idx == e.rank * 8 + e.file) {
        return false;
    }
    let r: usize = if c == Colour::White {
        if e.rank == 0 {
            return false;
        }
        e.rank - 1
    } else {
        if e.rank == 7 {
            return false;
        }
        e.rank + 1
    };
    let pawn = Piece { piece_type: PieceType::Pawn, colour: c };
    if e.file >= 1 {
        match piece_at(b, r, e.file - 1) {
            Some(p) => {
                if p.piece_type == PieceType::Pawn && p.colour == c && is_legal(b, r, e.file - 1, e.rank, e.file) {
                    return true;
                }
            },
            None => {},
        }
    }
    if e.file + 1 < 8 {
        match piece_at(b, r, e.file + 1) {
            Some(p) => {
                if p.piece_type == PieceType::Pawn && p.colour == c && is_legal(b, r, e.file + 1, e.rank, e.file) {
                    return true;
                }
            },
            None => {},
        }
    }
    assert(!ep_capturer(b@, c, r as int, e.file - 1));
    assert(!ep_capturer(b@, c, r as int, e.file + 1));
    false
}

/// Returns the fingerprint of the position `b` with colour `c` to move.
pub fn key_for(b: &BoardState, c: Colour) -> (k: PositionKey)
    ensures
        k@ == key_of(b@, c),
{
    let live = en_passant_live(b, c);
    PositionKey {
        board: b.board,
        active_colour: c,
        white_queenside: b.white_queenside,
        white_kingside: b.white_kingside,
        black_queenside: b.black_queenside,
        black_kingside: b.black_kingside,
        en_passant: if live { b.en_passant_target } else { Position { rank: 255, file: 255, idx: 255 } },
    }
}

/// Returns true if the two squares hold the same thing.
fn same_occupant(a: Option<Piece>, b: Option<Piece>) -> (ok: bool)
    ensures
        ok == (a == b),
{
    match (a, b) {
        (None, None) => true,
        (Some(p), Some(q)) => p.piece_type == q.piece_type && p.colour == q.colour,
        _ => false,
    }
}

/// Returns true if the two fingerprints are equal.
pub fn same_key(a: &PositionKey, b: &PositionKey) -> (ok: bool)
    ensures
        ok == (a@ == b@),
{
    if !(a.active_colour == b.active_colour && a.white_queenside == b.white_queenside && a.white_kingside
        == b.white_kingside && a.black_queenside == b.black_queenside && a.black_kingside == b.black_kingside
        && a.en_passant == b.en_passant) {
        return false;
    }
    let mut i: usize = 0;
    while i < 64
        invariant
            i <= 64,
            forall|j: int| 0 <= j < i ==> a.board@[j] == b.board@[j],
        decreases 64 - i,
    {
        if !same_occupant(a.board[i], b.board[i]) {
            return false;
        }
        i = i + 1;
    }
    assert(a.board@ =~= b.board@);
    true
}

/// Returns how many entries of `history` were made from a position with the
/// fingerprint `k`.
pub fn count_occurrences(history: &Vec<HistoryEntry>, k: &PositionKey) -> (n: usize)
    ensures
        n == occurrences(history@.map_values(|e: HistoryEntry| e@), k@),
{
    let ghost h = history@.map_values(|e: HistoryEntry| e@);
    let mut n: usize = 0;
    let mut i: usize = 0;
    while i < history.len()
        invariant
            i <= history.len(),
            h == history@.map_values(|e: HistoryEntry| e@),
            n == occurrences(h.take(i as int), k@),
            n <= i,
        decreases history.len() - i,
    {
        assert(h.take(i + 1).drop_last() =~= h.take(i as int));
        if same_key(&history[i].key, k) {
            n = n + 1;
        }
        i = i + 1;
    }
    assert(h.take(i as int) =~= h);
    n
}

} // verus!
