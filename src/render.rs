//! Text views of a game: the board as a grid and the position as FEN.
use crate::board::BoardState;
use crate::game::Game;
use crate::history::{en_passant_live, ep_executable};
use crate::piece::{piece_letter, Colour, Piece};
use crate::position::square_text;
use crate::rules::Setup;
use crate::text::push_char;
use vstd::prelude::*;

verus! {

/// The character for a decimal digit 0-9.
pub open spec fn digit(n: int) -> char {
    ('0' as int + n) as char
}

/// The decimal digits of `n`, most significant first.
pub open spec fn decimal(n: nat) -> Seq<char>
    decreases n,
{
    if n < 10 {
        seq![digit(n as int)]
    } else {
        decimal(n / 10).push(digit((n % 10) as int))
    }
}

/// The character of a square in the grid: the piece's letter, or '*'.
pub open spec fn cell(o: Option<Piece>) -> char {
    match o {
        Some(p) => piece_letter(p),
        None => '*',
    }
}

/// The cells of rank `r` from file `f` on, separated by spaces.
pub open spec fn grid_cells(sq: Seq<Option<Piece>>, r: int, f: int) -> Seq<char>
    decreases 8 - f,
{
    if f >= 8 {
        seq![]
    } else {
        seq![cell(sq[r * 8 + f])] + (if f < 7 { seq![' '] } else { seq![] }) + grid_cells(sq, r, f + 1)
    }
}

/// The grid lines of ranks `r` down to 0.
pub open spec fn grid_rows(sq: Seq<Option<Piece>>, r: int) -> Seq<char>
    decreases r + 1,
{
    if r < 0 {
        seq![]
    } else {
        seq!['|'] + grid_cells(sq, r, 0) + seq!['|', '\n'] + grid_rows(sq, r - 1)
    }
}

/// The top and bottom line of the grid, without its line break.
pub open spec fn grid_border() -> Seq<char> {
    seq!['|', ':'] + Seq::new(13, |i: int| '-') + seq![':', '|']
}

/// The board as a grid: rank 8 on top, white pieces in upper case, black
/// pieces in lower case, empty squares as '*'.
pub open spec fn grid_text(sq: Seq<Option<Piece>>) -> Seq<char> {
    grid_border() + seq!['\n'] + grid_rows(sq, 7) + grid_border()
}

/// FEN's text for rank `r` from file `f` on, after `run` empty squares.
pub open spec fn fen_rank(sq: Seq<Option<Piece>>, r: int, f: int, run: int) -> Seq<char>
    decreases 8 - f,
{
    if f >= 8 {
        if run > 0 { seq![digit(run)] } else { seq![] }
    } else {
        match sq[r * 8 + f] {
            None => fen_rank(sq, r, f + 1, run + 1),
            Some(p) => (if run > 0 { seq![digit(run)] } else { seq![] }) + seq![piece_letter(p)] + fen_rank(
                sq,
                r,
                f + 1,
                0,
            ),
        }
    }
}

/// FEN's piece placement for ranks `r` down to 0, separated by '/'.
pub open spec fn fen_ranks(sq: Seq<Option<Piece>>, r: int) -> Seq<char>
    decreases r,
{
    if r <= 0 {
        fen_rank(sq, 0, 0, 0)
    } else {
        fen_rank(sq, r, 0, 0) + seq!['/'] + fen_ranks(sq, r - 1)
    }
}

/// What FEN's placement still needs after ranks 7 down to `r` are written.
pub open spec fn fen_rest(sq: Seq<Option<Piece>>, r: int) -> Seq<char> {
    if r >= 8 {
        fen_ranks(sq, 7)
    } else if r <= 0 {
        seq![]
    } else {
        seq!['/'] + fen_ranks(sq, r - 1)
    }
}

/// FEN's castling field: K, Q, k, q for the rights held, or '-'.
pub open spec fn fen_castling(s: Setup) -> Seq<char> {
    let t = (if s.white_kingside { seq!['K'] } else { seq![] }) + (if s.white_queenside { seq!['Q'] } else { seq![] })
        + (if s.black_kingside { seq!['k'] } else { seq![] }) + (if s.black_queenside { seq!['q'] } else { seq![] });
    if t.len() == 0 { seq!['-'] } else { t }
}

/// The position in Forsyth-Edwards Notation: placement, side to move,
/// castling rights, en-passant target (only where a capture onto it is
/// legal), half-move clock and full-move counter.
pub open spec fn fen_text(s: Setup, c: Colour, halfmoves: nat, fullmoves: nat) -> Seq<char> {
    fen_ranks(s.squares, 7) + seq![' ', if c == Colour::White { 'w' } else { 'b' }, ' '] + fen_castling(s) + seq![' ']
        + (if ep_executable(s, c) { square_text(s.en_passant) } else { seq!['-'] }) + seq![' '] + decimal(halfmoves)
        + seq![' '] + decimal(fullmoves)
}

/// Appends the decimal digits of `n`.
fn push_decimal(s: &mut String, n: u32)
    ensures
        final(s)@ == old(s)@ + decimal(n as nat),
    decreases n,
{
    if n >= 10 {
        push_decimal(s, n / 10);
    }
    let d = (n % 10) as u8;
    push_char(s, (48u8 + d) as char);
    proof {
        if n >= 10 {
            assert(final(s)@ =~= old(s)@ + decimal(n as nat));
        } else {
            assert(final(s)@ =~= old(s)@ + decimal(n as nat));
        }
    }
}

/// Appends the grid's border line.
fn push_border(s: &mut String)
    ensures
        final(s)@ == old(s)@ + grid_border(),
{
    push_char(s, '|');
    push_char(s, ':');
    let mut i: usize = 0;
    while i < 13
        invariant
            i <= 13,
            s@ == old(s)@ + seq!['|', ':'] + Seq::new(i as nat, |j: int| '-'),
        decreases 13 - i,
    {
        push_char(s, '-');
        i = i + 1;
        assert(s@ =~= old(s)@ + seq!['|', ':'] + Seq::new(i as nat, |j: int| '-'));
    }
    push_char(s, ':');
    push_char(s, '|');
    assert(s@ =~= old(s)@ + grid_border());
}

impl Game {
    /// Returns the board as a grid of eight lines between two border lines:
    /// rank 8 on top, white pieces in upper case, black pieces in lower case,
    /// empty squares as '*'.
    pub fn to_string(&self) -> (r: String)
        ensures
            r@ == grid_text(self.board@),
    {
        let ghost sq = self.board@;
        let mut s = String::new();
        push_border(&mut s);
        push_char(&mut s, '\n');
        let ghost head = s@;
        let mut r: usize = 8;
        while r > 0
            invariant
                r <= 8,
                sq == self.board@,
                s@ + grid_rows(sq, r - 1) == head + grid_rows(sq, 7),
            decreases r,
        {
            let rank = r - 1;
            let ghost before = s@;
            push_char(&mut s, '|');
            let mut f: usize = 0;
            while f < 8
                invariant
                    f <= 8,
                    rank < 8,
                    sq == self.board@,
                    s@ + grid_cells(sq, rank as int, f as int) == before + seq!['|'] + grid_cells(sq, rank as int, 0),
                decreases 8 - f,
            {
                let ghost mid = s@;
                let c = match self.board[rank * 8 + f] {
                    Some(p) => p.to_char_colourcased(),
                    None => '*',
                };
                push_char(&mut s, c);
                if f < 7 {
                    push_char(&mut s, ' ');
                }
                assert(mid + grid_cells(sq, rank as int, f as int) =~= s@ + grid_cells(sq, rank as int, f + 1));
                f = f + 1;
            }
            push_char(&mut s, '|');
            push_char(&mut s, '\n');
            assert(before + grid_rows(sq, rank as int) =~= s@ + grid_rows(sq, rank - 1));
            r = r - 1;
        }
        push_border(&mut s);
        assert(s@ =~= grid_text(sq));
        s
    }

    /// Returns the position in Forsyth-Edwards Notation: placement, side to
    /// move, castling rights, en-passant target (only where a capture onto it
    /// is legal), half-move clock and full-move counter.
    pub fn fen(&self) -> (r: String)
        ensures
            r@ == fen_text(self@.setup, self.active_colour, self.halfmoves as nat, self.fullmoves as nat),
    {
        let mut s = String::new();
        push_placement(&mut s, &self.board);
        push_char(&mut s, ' ');
        push_char(&mut s, self.active_colour.to_char());
        push_char(&mut s, ' ');
        let b = self.board_state();
        push_castling(&mut s, &b);
        push_char(&mut s, ' ');
        push_en_passant(&mut s, &b, self.active_colour);
        push_char(&mut s, ' ');
        push_decimal(&mut s, self.halfmoves as u32);
        push_char(&mut s, ' ');
        push_decimal(&mut s, self.fullmoves);
        assert(s@ =~= fen_text(self@.setup, self.active_colour, self.halfmoves as nat, self.fullmoves as nat));
        s
    }
}

/// Appends FEN's text for rank `rank`.
fn push_fen_rank(s: &mut String, board: &[Option<Piece>; 64], rank: usize)
    requires
        rank < 8,
    ensures
        final(s)@ == old(s)@ + fen_rank(board@, rank as int, 0, 0),
{
    let ghost sq = board@;
    let mut run: usize = 0;
    let mut f: usize = 0;
    while f < 8
        invariant
            f <= 8,
            rank < 8,
            run <= f,
            sq == board@,
            s@ + fen_rank(sq, rank as int, f as int, run as int) == old(s)@ + fen_rank(sq, rank as int, 0, 0),
        decreases 8 - f,
    {
        let ghost mid = s@;
        let ghost run0 = run;
        match board[rank * 8 + f] {
            None => {
                run = run + 1;
            },
            Some(p) => {
                if run > 0 {
                    push_char(s, (48u8 + run as u8) as char);
                }
                push_char(s, p.to_char_colourcased());
                run = 0;
                assert(mid + fen_rank(sq, rank as int, f as int, run0 as int) =~= s@ + fen_rank(
                    sq,
                    rank as int,
                    f + 1,
                    0,
                ));
            },
        }
        f = f + 1;
    }
    let ghost mid = s@;
    if run > 0 {
        push_char(s, (48u8 + run as u8) as char);
    }
    assert(mid + fen_rank(sq, rank as int, 8, run as int) =~= s@);
}

/// Appends FEN's piece placement.
fn push_placement(s: &mut String, board: &[Option<Piece>; 64])
    ensures
        final(s)@ == old(s)@ + fen_ranks(board@, 7),
{
    let ghost sq = board@;
    let mut r: usize = 8;
    while r > 0
        invariant
            r <= 8,
            sq == board@,
            s@ + fen_rest(sq, r as int) == old(s)@ + fen_ranks(sq, 7),
        decreases r,
    {
        let rank = r - 1;
        let ghost start = s@;
        if rank < 7 {
            push_char(s, '/');
        }
        let ghost before = s@;
        if rank < 7 {
            assert(fen_rest(sq, r as int) =~= seq!['/'] + fen_rank(sq, rank as int, 0, 0) + fen_rest(sq, rank as int));
        } else {
            assert(fen_rest(sq, r as int) =~= fen_rank(sq, rank as int, 0, 0) + fen_rest(sq, rank as int));
        }
        push_fen_rank(s, board, rank);
        assert(s@ + fen_rest(sq, rank as int) =~= start + fen_rest(sq, r as int));
        r = r - 1;
    }
    assert(s@ =~= old(s)@ + fen_ranks(sq, 7));
}

/// Appends FEN's castling field.
fn push_castling(s: &mut String, b: &BoardState)
    ensures
        final(s)@ == old(s)@ + fen_castling(b@),
{
    let any = b.white_kingside || b.white_queenside || b.black_kingside || b.black_queenside;
    if b.white_kingside {
        push_char(s, 'K');
    }
    if b.white_queenside {
        push_char(s, 'Q');
    }
    if b.black_kingside {
        push_char(s, 'k');
    }
    if b.black_queenside {
        push_char(s, 'q');
    }
    if !any {
        push_char(s, '-');
    }
    assert(s@ =~= old(s)@ + fen_castling(b@));
}

/// Appends FEN's en-passant field.
fn push_en_passant(s: &mut String, b: &BoardState, c: Colour)
    ensures
        final(s)@ == old(s)@ + (if ep_executable(b@, c) { square_text(b@.en_passant) } else { seq!['-'] }),
{
    if en_passant_live(b, c) {
        let e = b.en_passant_target;
        push_char(s, (97u8 + e.file as u8) as char);
        push_char(s, (49u8 + e.rank as u8) as char);
        assert(s@ =~= old(s)@ + square_text(e));
    } else {
        push_char(s, '-');
        assert(s@ =~= old(s)@ + seq!['-']);
    }
}

} // verus!
