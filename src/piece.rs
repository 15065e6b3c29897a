use crate::error::ChessError;
use crate::text::{trim_result, trim_text, trimmed};
use vstd::prelude::*;
use vstd::string::*;

verus! {

/// The colour of a piece or of a player.
#[derive(Copy, Clone, Debug, PartialEq, Eq, Hash, Structural)]
pub enum Colour {
    White,
    Black,
}

/// The kind of a piece.
#[derive(Copy, Clone, Debug, PartialEq, Eq, Hash, Structural)]
pub enum PieceType {
    King,
    Queen,
    Rook,
    Knight,
    Bishop,
    Pawn,
}

/// A piece: its kind and its colour. Equality is field-wise.
#[derive(Copy, Clone, Debug, PartialEq, Eq, Hash, Structural)]
pub struct Piece {
    pub piece_type: PieceType,
    pub colour: Colour,
}

impl Colour {
    /// The other colour.
    pub open spec fn opponent(self) -> Colour {
        match self {
            Colour::White => Colour::Black,
            Colour::Black => Colour::White,
        }
    }

    /// The rank direction in which this colour's pawns advance.
    pub open spec fn forward(self) -> int {
        match self {
            Colour::White => 1,
            Colour::Black => -1,
        }
    }

    /// Returns true if self is white.
    pub fn is_white(&self) -> (r: bool)
        ensures
            r == (*self == Colour::White),
    {
        match self {
            Colour::White => true,
            Colour::Black => false,
        }
    }

    /// Returns true if self is black.
    pub fn is_black(&self) -> (r: bool)
        ensures
            r == (*self == Colour::Black),
    {
        match self {
            Colour::White => false,
            Colour::Black => true,
        }
    }

    /// Returns the opposite colour.
    pub fn invert(&self) -> (r: Colour)
        ensures
            r == self.opponent(),
            r != *self,
    {
        match self {
            Colour::White => Colour::Black,
            Colour::Black => Colour::White,
        }
    }

    /// Returns 'w' for white and 'b' for black.
    pub fn to_char(&self) -> (r: char)
        ensures
            r == (if *self == Colour::White { 'w' } else { 'b' }),
    {
        match self {
            Colour::White => 'w',
            Colour::Black => 'b',
        }
    }

    /// The rank direction in which this colour's pawns advance: 1 for white, -1 for black.
    pub fn pawn_dir(&self) -> (r: i32)
        ensures
            r as int == self.forward(),
    {
        match self {
            Colour::White => 1,
            Colour::Black => -1,
        }
    }
}

/// The upper-case letter of a piece type.
pub open spec fn type_letter(t: PieceType) -> char {
    match t {
        PieceType::King => 'K',
        PieceType::Queen => 'Q',
        PieceType::Rook => 'R',
        PieceType::Knight => 'N',
        PieceType::Bishop => 'B',
        PieceType::Pawn => 'P',
    }
}

/// The lower-case letter of a piece type.
pub open spec fn type_letter_lower(t: PieceType) -> char {
    match t {
        PieceType::King => 'k',
        PieceType::Queen => 'q',
        PieceType::Rook => 'r',
        PieceType::Knight => 'n',
        PieceType::Bishop => 'b',
        PieceType::Pawn => 'p',
    }
}

/// The piece type that a single character names: its letter in either case,
/// or its chess symbol of either colour.
pub open spec fn type_of_char(c: char) -> Option<PieceType> {
    if c == 'K' || c == 'k' || c == '\u{2654}' || c == '\u{265A}' {
        Some(PieceType::King)
    } else if c == 'Q' || c == 'q' || c == '\u{2655}' || c == '\u{265B}' {
        Some(PieceType::Queen)
    } else if c == 'R' || c == 'r' || c == '\u{2656}' || c == '\u{265C}' {
        Some(PieceType::Rook)
    } else if c == 'N' || c == 'n' || c == '\u{2658}' || c == '\u{265E}' {
        Some(PieceType::Knight)
    } else if c == 'B' || c == 'b' || c == '\u{2657}' || c == '\u{265D}' {
        Some(PieceType::Bishop)
    } else if c == 'P' || c == 'p' || c == '\u{2659}' || c == '\u{265F}' {
        Some(PieceType::Pawn)
    } else {
        None
    }
}

/// The chess symbol of a piece.
pub open spec fn piece_symbol(p: Piece) -> char {
    match (p.colour, p.piece_type) {
        (Colour::White, PieceType::King) => '\u{2654}',
        (Colour::White, PieceType::Queen) => '\u{2655}',
        (Colour::White, PieceType::Rook) => '\u{2656}',
        (Colour::White, PieceType::Knight) => '\u{2658}',
        (Colour::White, PieceType::Bishop) => '\u{2657}',
        (Colour::White, PieceType::Pawn) => '\u{2659}',
        (Colour::Black, PieceType::King) => '\u{265A}',
        (Colour::Black, PieceType::Queen) => '\u{265B}',
        (Colour::Black, PieceType::Rook) => '\u{265C}',
        (Colour::Black, PieceType::Knight) => '\u{265E}',
        (Colour::Black, PieceType::Bishop) => '\u{265D}',
        (Colour::Black, PieceType::Pawn) => '\u{265F}',
    }
}

/// The letter of a piece: upper case for white, lower case for black.
pub open spec fn piece_letter(p: Piece) -> char {
    if p.colour == Colour::White {
        type_letter(p.piece_type)
    } else {
        type_letter_lower(p.piece_type)
    }
}


/// The upper-case form of a letter of the piece names; other characters
/// are kept.
pub open spec fn name_upper(l: char) -> char {
    match l {
        'a' => 'A',
        'b' => 'B',
        'e' => 'E',
        'g' => 'G',
        'h' => 'H',
        'i' => 'I',
        'k' => 'K',
        'n' => 'N',
        'o' => 'O',
        'p' => 'P',
        'q' => 'Q',
        'r' => 'R',
        's' => 'S',
        't' => 'T',
        'u' => 'U',
        'w' => 'W',
        _ => l,
    }
}

/// Returns the upper-case form of a letter of the piece names.
fn to_name_upper(l: char) -> (u: char)
    ensures
        u == name_upper(l),
{
    match l {
        'a' => 'A',
        'b' => 'B',
        'e' => 'E',
        'g' => 'G',
        'h' => 'H',
        'i' => 'I',
        'k' => 'K',
        'n' => 'N',
        'o' => 'O',
        'p' => 'P',
        'q' => 'Q',
        'r' => 'R',
        's' => 'S',
        't' => 'T',
        'u' => 'U',
        'w' => 'W',
        _ => l,
    }
}

/// `c` is the lower-case letter `l` in either case.
pub open spec fn same_letter(c: char, l: char) -> bool {
    c == l || c == name_upper(l)
}

/// The text is the lower-case word `w`, each letter in either case.
pub open spec fn word_matches(t: Seq<char>, w: Seq<char>) -> bool {
    t.len() == w.len() && forall|i: int| 0 <= i < t.len() ==> #[trigger] same_letter(t[i], w[i])
}

/// The piece type that a text names: a single letter or symbol (see
/// `type_of_char`), or the English name of the piece in any mix of case.
pub open spec fn type_of_text(t: Seq<char>) -> Option<PieceType> {
    if t.len() == 1 {
        type_of_char(t[0])
    } else if word_matches(t, seq!['k', 'i', 'n', 'g']) {
        Some(PieceType::King)
    } else if word_matches(t, seq!['q', 'u', 'e', 'e', 'n']) {
        Some(PieceType::Queen)
    } else if word_matches(t, seq!['r', 'o', 'o', 'k']) {
        Some(PieceType::Rook)
    } else if word_matches(t, seq!['b', 'i', 's', 'h', 'o', 'p']) {
        Some(PieceType::Bishop)
    } else if word_matches(t, seq!['k', 'n', 'i', 'g', 'h', 't']) {
        Some(PieceType::Knight)
    } else if word_matches(t, seq!['p', 'a', 'w', 'n']) {
        Some(PieceType::Pawn)
    } else {
        None
    }
}

/// Returns true if `t` is the lower-case word `w`, each letter in either case.
fn matches_word(t: &str, w: &Vec<char>) -> (ok: bool)
    ensures
        ok == word_matches(t@, w@),
{
    let n = t.unicode_len();
    if n != w.len() {
        return false;
    }
    let mut i: usize = 0;
    while i < n
        invariant
            i <= n,
            n == t@.len(),
            n == w@.len(),
            forall|j: int| 0 <= j < i ==> #[trigger] same_letter(t@[j], w@[j]),
        decreases n - i,
    {
        let c = t.get_char(i);
        let l = w[i];
        if !(c == l || c == to_name_upper(l)) {
            assert(!same_letter(t@[i as int], w@[i as int]));
            return false;
        }
        i = i + 1;
    }
    true
}

impl PieceType {
    /// Returns true if the piece type is a king.
    pub fn is_king(&self) -> (r: bool)
        ensures
            r == (*self == PieceType::King),
    {
        matches!(self, PieceType::King)
    }

    /// Returns true if the piece type is a queen.
    pub fn is_queen(&self) -> (r: bool)
        ensures
            r == (*self == PieceType::Queen),
    {
        matches!(self, PieceType::Queen)
    }

    /// Returns true if the piece type is a rook.
    pub fn is_rook(&self) -> (r: bool)
        ensures
            r == (*self == PieceType::Rook),
    {
        matches!(self, PieceType::Rook)
    }

    /// Returns true if the piece type is a bishop.
    pub fn is_bishop(&self) -> (r: bool)
        ensures
            r == (*self == PieceType::Bishop),
    {
        matches!(self, PieceType::Bishop)
    }

    /// Returns true if the piece type is a knight.
    pub fn is_knight(&self) -> (r: bool)
        ensures
            r == (*self == PieceType::Knight),
    {
        matches!(self, PieceType::Knight)
    }

    /// Returns true if the piece type is a pawn.
    pub fn is_pawn(&self) -> (r: bool)
        ensures
            r == (*self == PieceType::Pawn),
    {
        matches!(self, PieceType::Pawn)
    }

    /// Returns the upper-case letter of the piece type.
    pub fn char(&self) -> (r: char)
        ensures
            r == type_letter(*self),
    {
        match self {
            PieceType::King => 'K',
            PieceType::Queen => 'Q',
            PieceType::Rook => 'R',
            PieceType::Knight => 'N',
            PieceType::Bishop => 'B',
            PieceType::Pawn => 'P',
        }
    }

    /// Returns the piece type that the character `ch` names: a letter in
    /// either case, or a chess symbol of either colour.
    pub fn from_char(ch: char) -> (r: Result<PieceType, ChessError>)
        ensures
            r is Ok <==> type_of_char(ch) is Some,
            r is Ok ==> r->Ok_0 == type_of_char(ch)->0,
            r is Err ==> r->Err_0 == ChessError::UnknownPiece,
    {
        if ch == 'K' || ch == 'k' || ch == '\u{2654}' || ch == '\u{265A}' {
            Ok(PieceType::King)
        } else if ch == 'Q' || ch == 'q' || ch == '\u{2655}' || ch == '\u{265B}' {
            Ok(PieceType::Queen)
        } else if ch == 'R' || ch == 'r' || ch == '\u{2656}' || ch == '\u{265C}' {
            Ok(PieceType::Rook)
        } else if ch == 'N' || ch == 'n' || ch == '\u{2658}' || ch == '\u{265E}' {
            Ok(PieceType::Knight)
        } else if ch == 'B' || ch == 'b' || ch == '\u{2657}' || ch == '\u{265D}' {
            Ok(PieceType::Bishop)
        } else if ch == 'P' || ch == 'p' || ch == '\u{2659}' || ch == '\u{265F}' {
            Ok(PieceType::Pawn)
        } else {
            Err(ChessError::UnknownPiece)
        }
    }

    /// Returns the piece type that a text names, with white space around it
    /// ignored: a single letter or symbol (see `from_char`), or the English
    /// name of the piece in any mix of case.
    pub fn from_str(str: &str) -> (r: Result<PieceType, ChessError>)
        ensures
            r is Ok <==> type_of_text(trimmed(str@)) is Some,
            r is Ok ==> r->Ok_0 == type_of_text(trimmed(str@))->0,
            r is Ok <==> type_of_text(trim_result(str@)) is Some,
            r is Ok ==> r->Ok_0 == type_of_text(trim_result(str@))->0,
            r is Err ==> r->Err_0 == ChessError::UnknownPiece,
    {
        let t = trim_text(str);
        PieceType::from_trimmed(t)
    }

    /// Returns the piece type that a text without surrounding white space
    /// names: a single letter or symbol, or the English name in any mix of case.
    pub fn from_trimmed(text: &str) -> (r: Result<PieceType, ChessError>)
        ensures
            r is Ok <==> type_of_text(text@) is Some,
            r is Ok ==> r->Ok_0 == type_of_text(text@)->0,
            r is Err ==> r->Err_0 == ChessError::UnknownPiece,
    {
        if text.unicode_len() == 1 {
            return PieceType::from_char(text.get_char(0));
        }
        if matches_word(text, &vec!['k', 'i', 'n', 'g']) {
            Ok(PieceType::King)
        } else if matches_word(text, &vec!['q', 'u', 'e', 'e', 'n']) {
            Ok(PieceType::Queen)
        } else if matches_word(text, &vec!['r', 'o', 'o', 'k']) {
            Ok(PieceType::Rook)
        } else if matches_word(text, &vec!['b', 'i', 's', 'h', 'o', 'p']) {
            Ok(PieceType::Bishop)
        } else if matches_word(text, &vec!['k', 'n', 'i', 'g', 'h', 't']) {
            Ok(PieceType::Knight)
        } else if matches_word(text, &vec!['p', 'a', 'w', 'n']) {
            Ok(PieceType::Pawn)
        } else {
            Err(ChessError::UnknownPiece)
        }
    }
}

impl Piece {
    /// Returns true if the piece is a king.
    pub fn is_king(&self) -> (r: bool)
        ensures
            r == (self.piece_type == PieceType::King),
    {
        self.piece_type.is_king()
    }

    /// Returns true if the piece is a queen.
    pub fn is_queen(&self) -> (r: bool)
        ensures
            r == (self.piece_type == PieceType::Queen),
    {
        self.piece_type.is_queen()
    }

    /// Returns true if the piece is a rook.
    pub fn is_rook(&self) -> (r: bool)
        ensures
            r == (self.piece_type == PieceType::Rook),
    {
        self.piece_type.is_rook()
    }

    /// Returns true if the piece is a bishop.
    pub fn is_bishop(&self) -> (r: bool)
        ensures
            r == (self.piece_type == PieceType::Bishop),
    {
        self.piece_type.is_bishop()
    }

    /// Returns true if the piece is a knight.
    pub fn is_knight(&self) -> (r: bool)
        ensures
            r == (self.piece_type == PieceType::Knight),
    {
        self.piece_type.is_knight()
    }

    /// Returns true if the piece is a pawn.
    pub fn is_pawn(&self) -> (r: bool)
        ensures
            r == (self.piece_type == PieceType::Pawn),
    {
        self.piece_type.is_pawn()
    }

    /// Returns true if the piece is white.
    pub fn is_white(&self) -> (r: bool)
        ensures
            r == (self.colour == Colour::White),
    {
        self.colour.is_white()
    }

    /// Returns true if the piece is black.
    pub fn is_black(&self) -> (r: bool)
        ensures
            r == (self.colour == Colour::Black),
    {
        self.colour.is_black()
    }

    /// Returns the upper-case letter of the piece's type.
    pub fn to_char(&self) -> (r: char)
        ensures
            r == type_letter(self.piece_type),
    {
        self.piece_type.char()
    }

    /// Returns the piece's letter: upper case for white, lower case for black.
    pub fn to_char_colourcased(&self) -> (r: char)
        ensures
            r == piece_letter(*self),
    {
        match self.colour {
            Colour::White => self.to_char(),
            Colour::Black => match self.piece_type {
                PieceType::King => 'k',
                PieceType::Queen => 'q',
                PieceType::Rook => 'r',
                PieceType::Knight => 'n',
                PieceType::Bishop => 'b',
                PieceType::Pawn => 'p',
            },
        }
    }

    /// Returns the chess symbol of the piece, e.g. '\u{265F}' for a black pawn.
    pub fn to_char_unicode(&self) -> (r: char)
        ensures
            r == piece_symbol(*self),
    {
        match self.colour {
            Colour::White => match self.piece_type {
                PieceType::King => '\u{2654}',
                PieceType::Queen => '\u{2655}',
                PieceType::Rook => '\u{2656}',
                PieceType::Knight => '\u{2658}',
                PieceType::Bishop => '\u{2657}',
                PieceType::Pawn => '\u{2659}',
            },
            Colour::Black => match self.piece_type {
                PieceType::King => '\u{265A}',
                PieceType::Queen => '\u{265B}',
                PieceType::Rook => '\u{265C}',
                PieceType::Knight => '\u{265E}',
                PieceType::Bishop => '\u{265D}',
                PieceType::Pawn => '\u{265F}',
            },
        }
    }
}

} // verus!
