use vstd::prelude::*;

verus! {

/// The broad class of an error.
#[derive(Copy, Clone, Debug, PartialEq, Eq, Hash, Structural)]
pub enum ErrorKind {
    /// Malformed square or piece text, or a square outside the board.
    InputFormat,
    /// A well-formed move or placement that the rules do not allow.
    IllegalMove,
    /// An operation that the current game state forbids.
    WrongState,
    /// Something the engine's own bookkeeping should have ruled out.
    InvariantViolation,
}

/// Why an operation was refused. No refused operation changes the game.
#[derive(Copy, Clone, Debug, PartialEq, Eq, Hash, Structural)]
pub enum ChessError {
    /// A rank, file or index outside the board, or an inconsistent position.
    OutOfRange,
    /// An offset that leaves the board.
    OffBoard,
    /// Square text that is not two characters long.
    BadLength,
    /// Square text whose first character is not a file letter a-h.
    BadFile,
    /// Square text whose second character is not a rank digit 1-8.
    BadRank,
    /// Text that names no piece.
    UnknownPiece,
    /// Placing a king of a colour that already has one on the board.
    SecondKing,
    /// Moving from an empty square.
    EmptySource,
    /// Moving a piece of the colour that is not to move.
    WrongColour,
    /// A destination that is not among the piece's legal moves.
    IllegalMove,
    /// A move while a promotion is pending or the game is over, or a
    /// promotion while none is pending.
    WrongState,
    /// A promotion to a king or a pawn.
    BadPromotion,
    /// A pending promotion without a pawn to promote.
    NoPawnToPromote,
}

impl ChessError {
    /// The class of the error.
    pub open spec fn spec_kind(self) -> ErrorKind {
        match self {
            ChessError::OutOfRange | ChessError::OffBoard | ChessError::BadLength
            | ChessError::BadFile | ChessError::BadRank | ChessError::UnknownPiece => ErrorKind::InputFormat,
            ChessError::SecondKing | ChessError::EmptySource | ChessError::WrongColour
            | ChessError::IllegalMove | ChessError::BadPromotion => ErrorKind::IllegalMove,
            ChessError::WrongState => ErrorKind::WrongState,
            ChessError::NoPawnToPromote => ErrorKind::InvariantViolation,
        }
    }

    /// Returns the class of the error.
    pub fn kind(&self) -> (r: ErrorKind)
        ensures
            r == self.spec_kind(),
    {
        match self {
            ChessError::OutOfRange | ChessError::OffBoard | ChessError::BadLength
            | ChessError::BadFile | ChessError::BadRank | ChessError::UnknownPiece => ErrorKind::InputFormat,
            ChessError::SecondKing | ChessError::EmptySource | ChessError::WrongColour
            | ChessError::IllegalMove | ChessError::BadPromotion => ErrorKind::IllegalMove,
            ChessError::WrongState => ErrorKind::WrongState,
            ChessError::NoPawnToPromote => ErrorKind::InvariantViolation,
        }
    }

    /// A human-readable explanation of the error.
    pub fn message(&self) -> (r: &'static str)
        ensures
            r@.len() > 0,
    {
        match self {
            ChessError::OutOfRange => {
                proof {
                    reveal_strlit("the rank, file or index is outside the board");
                }
                "the rank, file or index is outside the board"
            },
            ChessError::OffBoard => {
                proof {
                    reveal_strlit("the offset leaves the board");
                }
                "the offset leaves the board"
            },
            ChessError::BadLength => {
                proof {
                    reveal_strlit("a square is written as two characters");
                }
                "a square is written as two characters"
            },
            ChessError::BadFile => {
                proof {
                    reveal_strlit("the first character should be a letter between a and h");
                }
                "the first character should be a letter between a and h"
            },
            ChessError::BadRank => {
                proof {
                    reveal_strlit("the second character should be a digit between 1 and 8");
                }
                "the second character should be a digit between 1 and 8"
            },
            ChessError::UnknownPiece => {
                proof {
                    reveal_strlit("the text does not name a piece");
                }
                "the text does not name a piece"
            },
            ChessError::SecondKing => {
                proof {
                    reveal_strlit("that colour already has a king on the board");
                }
                "that colour already has a king on the board"
            },
            ChessError::EmptySource => {
                proof {
                    reveal_strlit("there is no piece on the square to move from");
                }
                "there is no piece on the square to move from"
            },
            ChessError::WrongColour => {
                proof {
                    reveal_strlit("it is not this colour's turn");
                }
                "it is not this colour's turn"
            },
            ChessError::IllegalMove => {
                proof {
                    reveal_strlit("this piece cannot move there, or the move leaves its king in check");
                }
                "this piece cannot move there, or the move leaves its king in check"
            },
            ChessError::WrongState => {
                proof {
                    reveal_strlit("the game is not in a state that allows this");
                }
                "the game is not in a state that allows this"
            },
            ChessError::BadPromotion => {
                proof {
                    reveal_strlit("a pawn cannot be promoted to a king or a pawn");
                }
                "a pawn cannot be promoted to a king or a pawn"
            },
            ChessError::NoPawnToPromote => {
                proof {
                    reveal_strlit("no pawn is waiting for promotion");
                }
                "no pawn is waiting for promotion"
            },
        }
    }
}

} // verus!
