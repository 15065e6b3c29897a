use crate::error::ChessError;
use crate::text::{push_char, trim_result, trim_text, trimmed};
use vstd::prelude::*;
use vstd::string::*;

verus! {

/// A square of the board: its rank (row, 0-7), its file (column, 0-7) and
/// its index `rank * 8 + file` into the board.
///
/// The constructors accept only squares of the board. `Position::null()`
/// stands for "no square" and is not valid.
#[derive(Copy, Clone, Debug, PartialEq, Eq, Hash, Structural)]
pub struct Position {
    /// The rank (row), 0-7.
    pub rank: usize,
    /// The file (column), 0-7.
    pub file: usize,
    /// The index into the board, 0-63.
    pub idx: usize,
}

/// The position at rank `r` and file `f`.
pub open spec fn pos_at(r: int, f: int) -> Position {
    Position { rank: r as usize, file: f as usize, idx: (r * 8 + f) as usize }
}

/// The position with board index `i`.
pub open spec fn pos_of(i: int) -> Position {
    pos_at(i / 8, i % 8)
}

/// The file that a character names: 'a'-'h' or 'A'-'H' give 0-7.
pub open spec fn file_of_char(c: char) -> Option<int> {
    if 'a' <= c && c <= 'h' {
        Some(c as int - 'a' as int)
    } else if 'A' <= c && c <= 'H' {
        Some(c as int - 'A' as int)
    } else {
        None
    }
}

/// The rank that a character names: '1'-'8' give 0-7.
pub open spec fn rank_of_char(c: char) -> Option<int> {
    if '1' <= c && c <= '8' {
        Some(c as int - '1' as int)
    } else {
        None
    }
}

/// The square that a text of exactly two characters names, file letter first.
pub open spec fn square_of_text(s: Seq<char>) -> Result<Position, ChessError> {
    if s.len() != 2 {
        Err(ChessError::BadLength)
    } else if file_of_char(s[0]) is None {
        Err(ChessError::BadFile)
    } else if rank_of_char(s[1]) is None {
        Err(ChessError::BadRank)
    } else {
        Ok(pos_at(rank_of_char(s[1])->0, file_of_char(s[0])->0))
    }
}

/// The two characters that name a valid square, file letter first.
pub open spec fn square_text(p: Position) -> Seq<char> {
    seq![('a' as int + p.file) as char, ('1' as int + p.rank) as char]
}

impl Position {
    /// "No square": rank, file and index 255.
    pub open spec fn spec_null() -> Position {
        Position { rank: 255, file: 255, idx: 255 }
    }

    /// Returns the position that stands for "no square". It is not valid.
    pub fn null() -> (r: Position)
        ensures
            r == Position::spec_null(),
            !r.spec_valid(),
    {
        Position { rank: 255, file: 255, idx: 255 }
    }

    /// A position is valid when it is a square of the board with a
    /// consistent index.
    pub open spec fn spec_valid(self) -> bool {
        self.rank < 8 && self.file < 8 && self.idx == self.rank * 8 + self.file
    }

    /// Returns the position at `rank` and `file` (both 0-7).
    pub fn new(rank: usize, file: usize) -> (r: Result<Position, ChessError>)
        ensures
            r is Ok <==> (rank < 8 && file < 8),
            r is Ok ==> r->Ok_0 == pos_at(rank as int, file as int) && r->Ok_0.spec_valid(),
            r is Ok ==> r->Ok_0.rank == rank && r->Ok_0.file == file && r->Ok_0.idx == rank * 8 + file,
            r is Err ==> r->Err_0 == ChessError::OutOfRange,
    {
        if rank >= 8 || file >= 8 {
            return Err(ChessError::OutOfRange);
        }
        Ok(Position { rank, file, idx: Position::idx(rank, file) })
    }

    /// Returns the position with board index `idx` (0-63).
    pub fn new_from_idx(idx: usize) -> (r: Result<Position, ChessError>)
        ensures
            r is Ok <==> idx < 64,
            r is Ok ==> r->Ok_0 == pos_of(idx as int) && r->Ok_0.spec_valid() && r->Ok_0.idx == idx,
            r is Err ==> r->Err_0 == ChessError::OutOfRange,
    {
        if idx > 63 {
            return Err(ChessError::OutOfRange);
        }
        Ok(Position { rank: idx / 8, file: idx % 8, idx })
    }

    /// Returns the square named by a text such as "e4" or " E4 ": a file
    /// letter a-h in either case, then a rank digit 1-8, with white space
    /// around it ignored.
    pub fn parse_str(str: &str) -> (r: Result<Position, ChessError>)
        ensures
            r == square_of_text(trimmed(str@)),
            r == square_of_text(trim_result(str@)),
    {
        let t = trim_text(str);
        Position::parse_trimmed(t)
    }

    /// Returns the square named by exactly two characters: a file letter a-h
    /// in either case, then a rank digit 1-8.
    pub fn parse_trimmed(text: &str) -> (r: Result<Position, ChessError>)
        ensures
            r == square_of_text(text@),
            r is Ok ==> r->Ok_0.spec_valid(),
    {
        if text.unicode_len() != 2 {
            return Err(ChessError::BadLength);
        }
        let c0 = text.get_char(0);
        let c1 = text.get_char(1);
        let file: usize = if 'a' <= c0 && c0 <= 'h' {
            (c0 as u32 - 'a' as u32) as usize
        } else if 'A' <= c0 && c0 <= 'H' {
            (c0 as u32 - 'A' as u32) as usize
        } else {
            return Err(ChessError::BadFile);
        };
        let rank: usize = if '1' <= c1 && c1 <= '8' {
            (c1 as u32 - '1' as u32) as usize
        } else {
            return Err(ChessError::BadRank);
        };
        Position::new(rank, file)
    }

    /// Returns the index of the square at `rank` and `file`.
    fn idx(rank: usize, file: usize) -> (r: usize)
        requires
            rank < 8,
            file < 8,
        ensures
            r == rank * 8 + file,
    {
        rank * 8 + file
    }

    /// Returns the position moved by `rank_offset` ranks and `file_offset`
    /// files, or `OffBoard` where that leaves the board.
    pub fn offset(&self, rank_offset: i32, file_offset: i32) -> (r: Result<Position, ChessError>)
        requires
            self.spec_valid(),
        ensures
            ({
                let nr = self.rank + rank_offset;
                let nf = self.file + file_offset;
                &&& r is Ok <==> (0 <= nr < 8 && 0 <= nf < 8)
                &&& r is Ok ==> r->Ok_0 == pos_at(nr, nf) && r->Ok_0.spec_valid()
                &&& r is Err ==> r->Err_0 == ChessError::OffBoard
            }),
    {
        let mut res = *self;
        match res.offset_self(rank_offset, file_offset) {
            Ok(()) => Ok(res),
            Err(e) => Err(e),
        }
    }

    /// Moves self by `rank_offset` ranks and `file_offset` files. Where that
    /// leaves the board, returns `OffBoard` and leaves self as it was.
    pub fn offset_self(&mut self, rank_offset: i32, file_offset: i32) -> (r: Result<(), ChessError>)
        requires
            old(self).spec_valid(),
        ensures
            ({
                let nr = old(self).rank + rank_offset;
                let nf = old(self).file + file_offset;
                &&& r is Ok <==> (0 <= nr < 8 && 0 <= nf < 8)
                &&& r is Ok ==> *final(self) == pos_at(nr, nf) && final(self).spec_valid()
                &&& r is Err ==> *final(self) == *old(self) && r->Err_0 == ChessError::OffBoard
            }),
    {
        let rank_result: i64 = self.rank as i64 + rank_offset as i64;
        let file_result: i64 = self.file as i64 + file_offset as i64;
        if rank_result < 0 || rank_result > 7 || file_result < 0 || file_result > 7 {
            return Err(ChessError::OffBoard);
        }
        self.rank = rank_result as usize;
        self.file = file_result as usize;
        self.idx = self.rank * 8 + self.file;
        Ok(())
    }

    /// Returns the square's name, such as "e4"; `Position::null()` gives "-".
    pub fn to_string(&self) -> (r: String)
        requires
            self.spec_valid() || *self == Position::spec_null(),
        ensures
            r@ == (if *self == Position::spec_null() { seq!['-'] } else { square_text(*self) }),
    {
        let mut s = String::new();
        if self.rank == 255 && self.file == 255 && self.idx == 255 {
            push_char(&mut s, '-');
            return s;
        }
        let f = self.file as u8;
        let rk = self.rank as u8;
        push_char(&mut s, (97u8 + f) as char);
        push_char(&mut s, (49u8 + rk) as char);
        s
    }

    /// Returns `Ok` if self is a valid square, `OutOfRange` otherwise.
    /// `Position::null()` is not valid.
    pub fn valid(&self) -> (r: Result<(), ChessError>)
        ensures
            r is Ok <==> self.spec_valid(),
            r is Err ==> r->Err_0 == ChessError::OutOfRange,
    {
        if self.rank < 8 && self.file < 8 && self.idx == self.rank * 8 + self.file {
            Ok(())
        } else {
            Err(ChessError::OutOfRange)
        }
    }
}

} // verus!
