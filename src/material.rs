//! The enumerated dead positions: too little material for a checkmate.
use crate::piece::{Colour, Piece, PieceType};
use vstd::prelude::*;

verus! {

/// How many of the first `n` squares hold exactly the piece `p`.
pub open spec fn tally(sq: Seq<Option<Piece>>, p: Piece, n: int) -> nat
    decreases n,
{
    if n <= 0 {
        0
    } else {
        tally(sq, p, n - 1) + if sq[n - 1] == Some(p) { 1nat } else { 0nat }
    }
}

/// How many of the first `n` squares hold a piece.
pub open spec fn occupied(sq: Seq<Option<Piece>>, n: int) -> nat
    decreases n,
{
    if n <= 0 {
        0
    } else {
        occupied(sq, n - 1) + if sq[n - 1] is Some { 1nat } else { 0nat }
    }
}

/// The colour (0 or 1) of the square with index `i`.
pub open spec fn shade(i: int) -> int {
    (i / 8 + i % 8) % 2
}

pub open spec fn is_bishop_at(sq: Seq<Option<Piece>>, i: int) -> bool {
    sq[i] matches Some(p) && p.piece_type == PieceType::Bishop
}

/// All bishops among the first `n` squares stand on squares of one colour.
pub open spec fn bishops_share_shade(sq: Seq<Option<Piece>>, n: int) -> bool {
    forall|i: int, j: int|
        0 <= i < n && 0 <= j < n && #[trigger] is_bishop_at(sq, i) && #[trigger] is_bishop_at(sq, j) ==> shade(i)
            == shade(j)
}

pub open spec fn piece(t: PieceType, c: Colour) -> Piece {
    Piece { piece_type: t, colour: c }
}

/// One king of each colour and nothing else; or with one knight or bishop
/// besides; or with one bishop of each colour, both on squares of one colour.
pub open spec fn dead_position(sq: Seq<Option<Piece>>) -> bool {
    let n = occupied(sq, 64);
    let minors = tally(sq, piece(PieceType::Knight, Colour::White), 64) + tally(
        sq,
        piece(PieceType::Knight, Colour::Black),
        64,
    ) + tally(sq, piece(PieceType::Bishop, Colour::White), 64) + tally(
        sq,
        piece(PieceType::Bishop, Colour::Black),
        64,
    );
    &&& tally(sq, piece(PieceType::King, Colour::White), 64) == 1
    &&& tally(sq, piece(PieceType::King, Colour::Black), 64) == 1
    &&& {
        ||| n == 2
        ||| n == 3 && minors == 1
        ||| n == 4 && tally(sq, piece(PieceType::Bishop, Colour::White), 64) == 1 && tally(
            sq,
            piece(PieceType::Bishop, Colour::Black),
            64,
        ) == 1 && bishops_share_shade(sq, 64)
    }
}

/// Returns true if the board is one of the enumerated dead positions.
pub fn is_dead_position(board: &[Option<Piece>; 64]) -> (ok: bool)
    ensures
        ok == dead_position(board@),
{
    let ghost sq = board@;
    let mut n: usize = 0;
    let mut wk: usize = 0;
    let mut bk: usize = 0;
    let mut wn: usize = 0;
    let mut bn: usize = 0;
    let mut wb: usize = 0;
    let mut bb: usize = 0;
    let mut first_shade: Option<usize> = None;
    let mut mixed = false;
    let mut i: usize = 0;
    while i < 64
        invariant
            i <= 64,
            sq == board@,
            n == occupied(sq, i as int),
            wk == tally(sq, piece(PieceType::King, Colour::White), i as int),
            bk == tally(sq, piece(PieceType::King, Colour::Black), i as int),
            wn == tally(sq, piece(PieceType::Knight, Colour::White), i as int),
            bn == tally(sq, piece(PieceType::Knight, Colour::Black), i as int),
            wb == tally(sq, piece(PieceType::Bishop, Colour::White), i as int),
            bb == tally(sq, piece(PieceType::Bishop, Colour::Black), i as int),
            n <= i,
            wk <= i,
            bk <= i,
            wn <= i,
            bn <= i,
            wb <= i,
            bb <= i,
            first_shade is None ==> forall|j: int| 0 <= j < i ==> !#[trigger] is_bishop_at(sq, j),
            first_shade is Some ==> exists|j: int| 0 <= j < i && #[trigger] is_bishop_at(sq, j) && shade(j) == first_shade->0,
            !mixed ==> first_shade is Some ==> forall|j: int| 0 <= j < i && #[trigger] is_bishop_at(sq, j) ==> shade(j) == first_shade->0,
            mixed <==> !bishops_share_shade(sq, i as int),
        decreases 64 - i,
    {
        let ghost prev_first = first_shade;
        let ghost prev_mixed = mixed;
        match board[i] {
            Some(p) => {
                n = n + 1;
                match p.piece_type {
                    PieceType::King => {
                        if p.colour == Colour::White { wk = wk + 1; } else { bk = bk + 1; }
                    },
                    PieceType::Knight => {
                        if p.colour == Colour::White { wn = wn + 1; } else { bn = bn + 1; }
                    },
                    PieceType::Bishop => {
                        if p.colour == Colour::White { wb = wb + 1; } else { bb = bb + 1; }
                        let s = (i / 8 + i % 8) % 2;
                        match first_shade {
                            None => {
                                first_shade = Some(s);
                            },
                            Some(x) => {
                                if x != s {
                                    mixed = true;
                                }
                            },
                        }
                    },
                    _ => {},
                }
            },
            None => {},
        }
        proof {
            let ni = i + 1;
            if is_bishop_at(sq, i as int) {
                if prev_first is Some {
                    let w = choose|j: int| 0 <= j < i && #[trigger] is_bishop_at(sq, j) && shade(j) == prev_first->0;
                    if shade(i as int) != prev_first->0 {
                        assert(!bishops_share_shade(sq, ni as int)) by {
                            assert(is_bishop_at(sq, w) && is_bishop_at(sq, i as int));
                        }
                    }
                }
            }
            if !mixed {
                assert(bishops_share_shade(sq, ni as int)) by {
                    assert forall|a: int, b: int|
                        0 <= a < ni && 0 <= b < ni && #[trigger] is_bishop_at(sq, a) && #[trigger] is_bishop_at(sq, b)
                        implies shade(a) == shade(b) by {
                        assert(shade(a) == first_shade->0);
                        assert(shade(b) == first_shade->0);
                    }
                }
            }
            if prev_mixed {
                assert(!bishops_share_shade(sq, ni as int)) by {
                    let (a, b) = choose|a: int, b: int|
                        0 <= a < i && 0 <= b < i && #[trigger] is_bishop_at(sq, a) && #[trigger] is_bishop_at(sq, b)
                            && shade(a) != shade(b);
                    assert(is_bishop_at(sq, a) && is_bishop_at(sq, b));
                }
            }
        }
        i = i + 1;
    }
    wk == 1 && bk == 1 && (n == 2 || (n == 3 && wn + bn + wb + bb == 1) || (n == 4 && wb == 1 && bb == 1
        && !mixed))
}

} // verus!
