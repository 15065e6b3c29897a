//! The board state that move generation reads and move application changes.
use crate::piece::{Colour, Piece, PieceType};
use crate::position::{pos_at, Position};
use crate::rules::{
    abs, apply, at, attacked, captured_piece, castles, castling_move, clear_between, diagonal,
    en_passant_capture, has_legal_move, in_check, relocated, rook_castled, capture, wanted, legal, max, on_board, reaches, safe, straight, vacant_step, walk,
    Setup,
};
use vstd::prelude::*;

verus! {

/// The squares, the en-passant target and the castling rights: what the
/// movement rules read. Cheap to copy, so that a candidate move can be tried
/// on a copy.
#[derive(Copy, Clone)]
pub struct BoardState {
    pub board: [Option<Piece>; 64],
    pub en_passant_target: Position,
    pub white_queenside: bool,
    pub white_kingside: bool,
    pub black_queenside: bool,
    pub black_kingside: bool,
}

impl View for BoardState {
    type V = Setup;

    open spec fn view(&self) -> Setup {
        Setup {
            squares: self.board@,
            en_passant: self.en_passant_target,
            white_queenside: self.white_queenside,
            white_kingside: self.white_kingside,
            black_queenside: self.black_queenside,
            black_kingside: self.black_kingside,
        }
    }
}

/// Returns the piece on (r, f).
pub fn piece_at(b: &BoardState, r: usize, f: usize) -> (p: Option<Piece>)
    requires
        r < 8,
        f < 8,
    ensures
        p == at(b@, r as int, f as int),
{
    b.board[r * 8 + f]
}

/// Returns true if the piece on (r, f) may move to (tr, tf) by its movement
/// pattern, ignoring castling and the safety of its own king.
pub fn reaches_square(b: &BoardState, r: usize, f: usize, tr: usize, tf: usize) -> (ok: bool)
    requires
        r < 8,
        f < 8,
        tr < 8,
        tf < 8,
    ensures
        ok == reaches(b@, r as int, f as int, tr as int, tf as int),
{
    let p = match piece_at(b, r, f) {
        None => return false,
        Some(p) => p,
    };
    let target = piece_at(b, tr, tf);
    let open = match target {
        None => true,
        Some(q) => q.colour != p.colour,
    };
    let dr: i64 = tr as i64 - r as i64;
    let df: i64 = tf as i64 - f as i64;
    let adr: i64 = if dr < 0 { -dr } else { dr };
    let adf: i64 = if df < 0 { -df } else { df };
    match p.piece_type {
        PieceType::King => adr <= 1 && adf <= 1 && (dr != 0 || df != 0) && open,
        PieceType::Knight => ((adr == 1 && adf == 2) || (adr == 2 && adf == 1)) && open,
        PieceType::Pawn => {
            let d: i64 = if p.colour == Colour::White { 1 } else { -1 };
            let start: i64 = if p.colour == Colour::White { 1 } else { 6 };
            let empty = target.is_none();
            if df == 0 && dr == d {
                empty
            } else if df == 0 && dr == 2 * d {
                if r as i64 != start {
                    false
                } else {
                    let mid: usize = if d > 0 { r + 1 } else { r - 1 };
                    empty && piece_at(b, mid, f).is_none()
                }
            } else if dr == d && adf == 1 {
                let ep = b.en_passant_target;
                (target.is_some() && open) || (empty && ep.rank == tr && ep.file == tf && ep.idx == tr * 8 + tf)
            } else {
                false
            }
        },
        _ => {
            let line = (dr == 0) != (df == 0);
            let diag = dr != 0 && adr == adf;
            let shape = match p.piece_type {
                PieceType::Rook => line,
                PieceType::Bishop => diag,
                _ => line || diag,
            };
            if !shape || !open {
                return false;
            }
            clear_path(b, r, f, tr, tf)
        },
    }
}

/// Returns true if every square strictly between (r, f) and (tr, tf), which
/// lie on one rank, file or diagonal, is empty.
fn clear_path(b: &BoardState, r: usize, f: usize, tr: usize, tf: usize) -> (ok: bool)
    requires
        r < 8,
        f < 8,
        tr < 8,
        tf < 8,
        straight(tr - r, tf - f) || diagonal(tr - r, tf - f),
    ensures
        ok == clear_between(b@, r as int, f as int, tr as int, tf as int),
{
    let ghost dr = tr - r;
    let ghost df = tf - f;
    let adr: usize = if tr < r { r - tr } else { tr - r };
    let adf: usize = if tf < f { f - tf } else { tf - f };
    let n: usize = if adr < adf { adf } else { adr };
    assert(n == max(abs(dr), abs(df)));
    let mut k: usize = 1;
    while k < n
        invariant
            1 <= k,
            n == max(abs(dr), abs(df)),
            n <= 7,
            r < 8,
            f < 8,
            tr < 8,
            tf < 8,
            dr == tr - r,
            df == tf - f,
            straight(dr, df) || diagonal(dr, df),
            forall|j: int| 1 <= j < k ==> #[trigger] vacant_step(b@, r as int, f as int, dr, df, j),
        decreases n - k,
    {
        let rr: usize = if tr > r { r + k } else if tr < r { r - k } else { r };
        let ff: usize = if tf > f { f + k } else if tf < f { f - k } else { f };
        assert(rr == r + walk(k as int, dr) && ff == f + walk(k as int, df));
        if piece_at(b, rr, ff).is_some() {
            assert(!vacant_step(b@, r as int, f as int, dr, df, k as int));
            return false;
        }
        k = k + 1;
    }
    true
}

/// Returns true if some piece of colour `by` reaches the square (tr, tf).
pub fn is_attacked(b: &BoardState, tr: usize, tf: usize, by: Colour) -> (ok: bool)
    requires
        tr < 8,
        tf < 8,
    ensures
        ok == attacked(b@, tr as int, tf as int, by),
{
    let mut r: usize = 0;
    while r < 8
        invariant
            r <= 8,
            tr < 8,
            tf < 8,
            forall|r2: int, f2: int|
                0 <= r2 < r && 0 <= f2 < 8 ==> !(#[trigger] reaches(b@, r2, f2, tr as int, tf as int)
                    && at(b@, r2, f2)->0.colour == by),
        decreases 8 - r,
    {
        let mut f: usize = 0;
        while f < 8
            invariant
                r < 8,
                f <= 8,
                tr < 8,
                tf < 8,
                forall|r2: int, f2: int|
                    (0 <= r2 < r && 0 <= f2 < 8) || (r2 == r && 0 <= f2 < f) ==> !(#[trigger] reaches(
                        b@,
                        r2,
                        f2,
                        tr as int,
                        tf as int,
                    ) && at(b@, r2, f2)->0.colour == by),
            decreases 8 - f,
        {
            if reaches_square(b, r, f, tr, tf) {
                let p = piece_at(b, r, f);
                match p {
                    Some(q) => {
                        if q.colour == by {
                            assert(on_board(r as int, f as int));
                            return true;
                        }
                    },
                    None => {},
                }
            }
            f = f + 1;
        }
        r = r + 1;
    }
    proof {
        assert forall|r2: int, f2: int| on_board(r2, f2) implies !(#[trigger] reaches(
            b@,
            r2,
            f2,
            tr as int,
            tf as int,
        ) && at(b@, r2, f2)->0.colour == by) by {}
    }
    false
}

/// Returns true if a king of colour `c` stands on a square that the other
/// colour reaches; false where that colour has no king.
pub fn king_in_check(b: &BoardState, c: Colour) -> (ok: bool)
    ensures
        ok == in_check(b@, c),
{
    let king = Piece { piece_type: PieceType::King, colour: c };
    let mut r: usize = 0;
    while r < 8
        invariant
            r <= 8,
            king == (Piece { piece_type: PieceType::King, colour: c }),
            forall|r2: int, f2: int|
                0 <= r2 < r && 0 <= f2 < 8 ==> !(#[trigger] at(b@, r2, f2) == Some(king)
                    && attacked(b@, r2, f2, c.opponent())),
        decreases 8 - r,
    {
        let mut f: usize = 0;
        while f < 8
            invariant
                r < 8,
                f <= 8,
                king == (Piece { piece_type: PieceType::King, colour: c }),
                forall|r2: int, f2: int|
                    (0 <= r2 < r && 0 <= f2 < 8) || (r2 == r && 0 <= f2 < f) ==> !(#[trigger] at(
                        b@,
                        r2,
                        f2,
                    ) == Some(king) && attacked(b@, r2, f2, c.opponent())),
            decreases 8 - f,
        {
            match piece_at(b, r, f) {
                Some(p) => {
                    if p.piece_type == PieceType::King && p.colour == c {
                        if is_attacked(b, r, f, c.invert()) {
                            assert(on_board(r as int, f as int));
                            return true;
                        }
                    }
                },
                None => {},
            }
            f = f + 1;
        }
        r = r + 1;
    }
    proof {
        assert forall|r2: int, f2: int| on_board(r2, f2) implies !(#[trigger] at(b@, r2, f2) == Some(king)
            && attacked(b@, r2, f2, c.opponent())) by {}
    }
    false
}

impl BoardState {
    /// Relocates the piece on (r, f) to (tr, tf), removing the pawn behind
    /// the destination where a pawn lands on the en-passant target, and
    /// returns the piece taken off the board.
    fn relocate(&mut self, r: usize, f: usize, tr: usize, tf: usize) -> (captured: Option<Piece>)
        requires
            r < 8,
            f < 8,
            tr < 8,
            tf < 8,
            at(old(self)@, r as int, f as int) is Some,
        ensures
            final(self).board@ == relocated(old(self)@, r as int, f as int, tr as int, tf as int),
            final(self).en_passant_target == old(self).en_passant_target,
            final(self).white_queenside == old(self).white_queenside,
            final(self).white_kingside == old(self).white_kingside,
            final(self).black_queenside == old(self).black_queenside,
            final(self).black_kingside == old(self).black_kingside,
            captured == captured_piece(old(self)@, r as int, f as int, tr as int, tf as int),
    {
        let ghost s0 = self@;
        let p = match self.board[r * 8 + f] {
            Some(p) => p,
            None => {
                return None;
            },
        };
        let ep = self.en_passant_target;
        let behind: Option<usize> = if p.piece_type == PieceType::Pawn && ep.rank == tr && ep.file == tf
            && ep.idx == tr * 8 + tf {
            if p.colour == Colour::White {
                if tr >= 1 { Some(tr - 1) } else { None }
            } else {
                if tr + 1 < 8 { Some(tr + 1) } else { None }
            }
        } else {
            None
        };
        assert(behind is Some <==> en_passant_capture(s0, r as int, f as int, tr as int, tf as int));
        let captured = match behind {
            Some(cr) => self.board[cr * 8 + tf],
            None => self.board[tr * 8 + tf],
        };
        self.board[r * 8 + f] = None;
        self.board[tr * 8 + tf] = Some(p);
        match behind {
            Some(cr) => {
                self.board[cr * 8 + tf] = None;
            },
            None => {},
        }
        assert(self.board@ =~= relocated(s0, r as int, f as int, tr as int, tf as int));
        captured
    }

    /// Brings the rook of a castling move along rank `r` next to the king.
    fn move_castling_rook(&mut self, r: usize, tf: usize)
        requires
            r < 8,
        ensures
            final(self).board@ == rook_castled(old(self).board@, r as int, tf as int),
            final(self).en_passant_target == old(self).en_passant_target,
            final(self).white_queenside == old(self).white_queenside,
            final(self).white_kingside == old(self).white_kingside,
            final(self).black_queenside == old(self).black_queenside,
            final(self).black_kingside == old(self).black_kingside,
    {
        let ghost b0 = self.board@;
        let h = r * 8;
        if tf == 2 {
            let rook = self.board[h];
            self.board[h + 3] = rook;
            self.board[h] = None;
        } else {
            let rook = self.board[h + 7];
            self.board[h + 5] = rook;
            self.board[h + 7] = None;
        }
        assert(self.board@ =~= rook_castled(b0, r as int, tf as int));
    }

    /// Moves the piece on (r, f) to (tr, tf) with all that the move entails
    /// (see `apply`), and returns the piece that it takes off the board.
    pub fn apply_move(&mut self, r: usize, f: usize, tr: usize, tf: usize) -> (captured: Option<Piece>)
        requires
            r < 8,
            f < 8,
            tr < 8,
            tf < 8,
            at(old(self)@, r as int, f as int) is Some,
        ensures
            final(self)@ == apply(old(self)@, r as int, f as int, tr as int, tf as int),
            captured == captured_piece(old(self)@, r as int, f as int, tr as int, tf as int),
    {
        let ghost s0 = self@;
        let p = match self.board[r * 8 + f] {
            Some(p) => p,
            None => {
                return None;
            },
        };
        let target = self.board[tr * 8 + tf];
        let white = p.colour == Colour::White;
        let captured = self.relocate(r, f, tr, tf);
        if p.piece_type == PieceType::King && f == 4 && tr == r && (tf == 2 || tf == 6) && r == (if white {
            0
        } else {
            7
        }) {
            assert(castling_move(s0, r as int, f as int, tr as int, tf as int));
            self.move_castling_rook(r, tf);
        } else {
            assert(!castling_move(s0, r as int, f as int, tr as int, tf as int));
        }
        self.en_passant_target = if p.piece_type == PieceType::Pawn && (tr == r + 2 || r == tr + 2) {
            Position { rank: (r + tr) / 2, file: f, idx: ((r + tr) / 2) * 8 + f }
        } else {
            Position { rank: 255, file: 255, idx: 255 }
        };
        let king = p.piece_type == PieceType::King;
        let rook_moves = p.piece_type == PieceType::Rook;
        let takes = target.is_some();
        self.white_queenside = self.white_queenside && !(king && white) && !(rook_moves && r == 0 && f == 0)
            && !(takes && tr == 0 && tf == 0);
        self.white_kingside = self.white_kingside && !(king && white) && !(rook_moves && r == 0 && f == 7)
            && !(takes && tr == 0 && tf == 7);
        self.black_queenside = self.black_queenside && !(king && !white) && !(rook_moves && r == 7 && f == 0)
            && !(takes && tr == 7 && tf == 0);
        self.black_kingside = self.black_kingside && !(king && !white) && !(rook_moves && r == 7 && f == 7)
            && !(takes && tr == 7 && tf == 7);
        captured
    }
}

/// Returns true if moving the piece on (r, f) to (tr, tf) leaves its own
/// king out of check. The move is tried on a copy.
pub fn is_safe(b: &BoardState, r: usize, f: usize, tr: usize, tf: usize) -> (ok: bool)
    requires
        r < 8,
        f < 8,
        tr < 8,
        tf < 8,
        at(b@, r as int, f as int) is Some,
    ensures
        ok == safe(b@, r as int, f as int, tr as int, tf as int),
{
    let c = match piece_at(b, r, f) {
        Some(p) => p.colour,
        None => Colour::White,
    };
    let mut trial = *b;
    trial.apply_move(r, f, tr, tf);
    !king_in_check(&trial, c)
}

/// Returns true if the king on (r, f) may castle to (tr, tf).
pub fn can_castle(b: &BoardState, r: usize, f: usize, tr: usize, tf: usize) -> (ok: bool)
    requires
        r < 8,
        f < 8,
        tr < 8,
        tf < 8,
    ensures
        ok == castles(b@, r as int, f as int, tr as int, tf as int),
{
    let p = match piece_at(b, r, f) {
        None => return false,
        Some(p) => p,
    };
    let white = p.colour == Colour::White;
    let home: usize = if white { 0 } else { 7 };
    if p.piece_type != PieceType::King || f != 4 || tr != r || !(tf == 2 || tf == 6) || r != home {
        return false;
    }
    let kingside = tf == 6;
    let right = if white {
        if kingside { b.white_kingside } else { b.white_queenside }
    } else {
        if kingside { b.black_kingside } else { b.black_queenside }
    };
    if !right {
        return false;
    }
    let opp = p.colour.invert();
    if kingside {
        if piece_at(b, r, 5).is_some() || piece_at(b, r, 6).is_some() || !is_safe(b, r, 4, r, 5) {
            return false;
        }
    } else {
        if piece_at(b, r, 1).is_some() || piece_at(b, r, 2).is_some() || piece_at(b, r, 3).is_some()
            || !is_safe(b, r, 4, r, 3) {
            return false;
        }
    }
    if is_attacked(b, r, 4, opp) {
        return false;
    }
    is_safe(b, r, f, tr, tf)
}

/// Returns true if the piece on (r, f) may legally move to (tr, tf).
pub fn is_legal(b: &BoardState, r: usize, f: usize, tr: usize, tf: usize) -> (ok: bool)
    requires
        r < 8,
        f < 8,
        tr < 8,
        tf < 8,
    ensures
        ok == legal(b@, r as int, f as int, tr as int, tf as int),
{
    if piece_at(b, r, f).is_none() {
        return false;
    }
    (reaches_square(b, r, f, tr, tf) && is_safe(b, r, f, tr, tf)) || can_castle(b, r, f, tr, tf)
}

/// Returns true if the move from (r, f) to (tr, tf) takes a piece.
pub fn is_capture_move(b: &BoardState, r: usize, f: usize, tr: usize, tf: usize) -> (ok: bool)
    requires
        r < 8,
        f < 8,
        tr < 8,
        tf < 8,
    ensures
        ok == capture(b@, r as int, f as int, tr as int, tf as int),
{
    let p = match piece_at(b, r, f) {
        None => return false,
        Some(p) => p,
    };
    match piece_at(b, tr, tf) {
        Some(q) => q.colour != p.colour,
        None => {
            let ep = b.en_passant_target;
            p.piece_type == PieceType::Pawn && ep.rank == tr && ep.file == tf && ep.idx == tr * 8 + tf
        },
    }
}

/// Returns the squares to which the piece on (r, f) may legally move, in
/// increasing index order, keeping captures only for `want` Some(true) and
/// the other moves only for Some(false); none where (r, f) is empty.
pub fn legal_destinations(b: &BoardState, r: usize, f: usize, want: Option<bool>) -> (v: Vec<Position>)
    requires
        r < 8,
        f < 8,
    ensures
        forall|tr: int, tf: int|
            on_board(tr, tf) ==> (v@.contains(pos_at(tr, tf)) <==> #[trigger] wanted(
                b@,
                r as int,
                f as int,
                tr,
                tf,
                want,
            )),
        forall|i: int| 0 <= i < v@.len() ==> (#[trigger] v@[i]).spec_valid(),
        forall|i: int, j: int| 0 <= i < j < v@.len() ==> v@[i].idx < v@[j].idx,
{
    let mut v: Vec<Position> = Vec::new();
    let mut tr: usize = 0;
    while tr < 8
        invariant
            tr <= 8,
            r < 8,
            f < 8,
            forall|i: int| 0 <= i < v@.len() ==> (#[trigger] v@[i]).spec_valid() && v@[i].idx < tr * 8,
            forall|i: int, j: int| 0 <= i < j < v@.len() ==> v@[i].idx < v@[j].idx,
            forall|a: int, c: int|
                0 <= a < tr && 0 <= c < 8 ==> (v@.contains(pos_at(a, c)) <==> #[trigger] wanted(
                    b@,
                    r as int,
                    f as int,
                    a,
                    c,
                    want,
                )),
        decreases 8 - tr,
    {
        let mut tf: usize = 0;
        while tf < 8
            invariant
                tr < 8,
                tf <= 8,
                r < 8,
                f < 8,
                forall|i: int|
                    0 <= i < v@.len() ==> (#[trigger] v@[i]).spec_valid() && v@[i].idx < tr * 8 + tf,
                forall|i: int, j: int| 0 <= i < j < v@.len() ==> v@[i].idx < v@[j].idx,
                forall|a: int, c: int|
                    (0 <= a < tr && 0 <= c < 8) || (a == tr && 0 <= c < tf) ==> (v@.contains(pos_at(a, c))
                        <==> #[trigger] wanted(b@, r as int, f as int, a, c, want)),
            decreases 8 - tf,
        {
            let ghost old_v = v@;
            let keep = is_legal(b, r, f, tr, tf) && match want {
                None => true,
                Some(w) => w == is_capture_move(b, r, f, tr, tf),
            };
            assert(keep == wanted(b@, r as int, f as int, tr as int, tf as int, want));
            if keep {
                v.push(Position { rank: tr, file: tf, idx: tr * 8 + tf });
                proof {
                    assert forall|a: int, c: int|
                        (0 <= a < tr && 0 <= c < 8) || (a == tr && 0 <= c < tf) implies (v@.contains(
                            pos_at(a, c),
                        ) <==> old_v.contains(pos_at(a, c))) by {
                        if v@.contains(pos_at(a, c)) && !old_v.contains(pos_at(a, c)) {
                            let i = choose|i: int| 0 <= i < v@.len() && v@[i] == pos_at(a, c);
                            if i < old_v.len() {
                                assert(old_v[i] == v@[i]);
                            }
                        }
                        if old_v.contains(pos_at(a, c)) {
                            let i = choose|i: int| 0 <= i < old_v.len() && old_v[i] == pos_at(a, c);
                            assert(v@[i] == old_v[i]);
                        }
                    }
                    assert(v@[v@.len() - 1] == pos_at(tr as int, tf as int));
                }
            } else {
                proof {
                    assert forall|i: int| 0 <= i < old_v.len() implies old_v[i] != pos_at(tr as int, tf as int) by {
                        assert(old_v[i].idx < tr * 8 + tf);
                    }
                }
            }
            tf = tf + 1;
        }
        tr = tr + 1;
    }
    v
}

/// Returns true if the piece on (r, f) has a legal move.
pub fn piece_can_move(b: &BoardState, r: usize, f: usize) -> (ok: bool)
    requires
        r < 8,
        f < 8,
    ensures
        ok == exists|tr: int, tf: int| on_board(tr, tf) && #[trigger] legal(b@, r as int, f as int, tr, tf),
{
    let mut tr: usize = 0;
    while tr < 8
        invariant
            tr <= 8,
            r < 8,
            f < 8,
            forall|a: int, c: int| 0 <= a < tr && 0 <= c < 8 ==> !#[trigger] legal(b@, r as int, f as int, a, c),
        decreases 8 - tr,
    {
        let mut tf: usize = 0;
        while tf < 8
            invariant
                tr < 8,
                tf <= 8,
                r < 8,
                f < 8,
                forall|a: int, c: int|
                    (0 <= a < tr && 0 <= c < 8) || (a == tr && 0 <= c < tf) ==> !#[trigger] legal(
                        b@,
                        r as int,
                        f as int,
                        a,
                        c,
                    ),
            decreases 8 - tf,
        {
            if is_legal(b, r, f, tr, tf) {
                assert(on_board(tr as int, tf as int));
                return true;
            }
            tf = tf + 1;
        }
        tr = tr + 1;
    }
    false
}

/// Returns true if colour `c` has a legal move.
pub fn colour_can_move(b: &BoardState, c: Colour) -> (ok: bool)
    ensures
        ok == has_legal_move(b@, c),
{
    let mut r: usize = 0;
    while r < 8
        invariant
            r <= 8,
            forall|a: int, d: int, tr: int, tf: int|
                0 <= a < r && 0 <= d < 8 && on_board(tr, tf) && at(b@, a, d) is Some && at(b@, a, d)->0.colour
                    == c ==> !#[trigger] legal(b@, a, d, tr, tf),
        decreases 8 - r,
    {
        let mut f: usize = 0;
        while f < 8
            invariant
                r < 8,
                f <= 8,
                forall|a: int, d: int, tr: int, tf: int|
                    ((0 <= a < r && 0 <= d < 8) || (a == r && 0 <= d < f)) && on_board(tr, tf) && at(b@, a, d)
                        is Some && at(b@, a, d)->0.colour == c ==> !#[trigger] legal(b@, a, d, tr, tf),
            decreases 8 - f,
        {
            match piece_at(b, r, f) {
                Some(p) => {
                    if p.colour == c && piece_can_move(b, r, f) {
                        let ghost w = choose|tr: int, tf: int|
                            on_board(tr, tf) && #[trigger] legal(b@, r as int, f as int, tr, tf);
                        assert(on_board(r as int, f as int) && on_board(w.0, w.1) && legal(
                            b@,
                            r as int,
                            f as int,
                            w.0,
                            w.1,
                        ));
                        return true;
                    }
                },
                None => {},
            }
            f = f + 1;
        }
        r = r + 1;
    }
    false
}

} // verus!
