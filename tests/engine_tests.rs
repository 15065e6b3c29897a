use chess_engine::{
    ChessError, Colour, ErrorKind, Game, GameOverReason, GameState, Piece, PieceType, Position,
};

fn play(game: &mut Game, moves: &str) {
    let squares: Vec<&str> = moves.split_whitespace().collect();
    for i in 0..(squares.len() / 2) {
        let result = game.make_move(squares[2 * i], squares[2 * i + 1]);
        assert!(result.is_ok(), "{} {}: {:?}", squares[2 * i], squares[2 * i + 1], result);
    }
}

fn empty_game() -> Game {
    let mut game = Game::new();
    for i in 0..64 {
        game.remove(Position::new_from_idx(i).unwrap()).unwrap();
    }
    game
}

fn piece(piece_type: PieceType, colour: Colour) -> Piece {
    Piece { piece_type, colour }
}

fn at(square: &str) -> Position {
    Position::parse_str(square).unwrap()
}

#[test]
fn position_round_trip_for_every_square() {
    for rank in 0..8 {
        for file in 0..8 {
            let p = Position::new(rank, file).unwrap();
            assert_eq!((p.rank, p.file, p.idx), (rank, file, rank * 8 + file));
            assert!(p.valid().is_ok());
            assert_eq!(Position::new_from_idx(p.idx).unwrap(), p);
        }
    }
}

#[test]
fn parse_e4_gives_index_28() {
    let p = Position::parse_str("e4").unwrap();
    assert_eq!(p.idx, 28);
    assert_eq!((p.rank, p.file), (3, 4));
    assert_eq!(p.to_string(), "e4");
    assert_eq!(Position::parse_str("a1").unwrap().idx, 0);
    assert_eq!(Position::parse_str("h8").unwrap().to_string(), "h8");
}

#[test]
fn parse_ignores_surrounding_space_and_case() {
    assert_eq!(Position::parse_str("  E4 \n").unwrap(), Position::new(3, 4).unwrap());
    assert_eq!(Position::parse_trimmed("H1").unwrap().idx, 7);
    assert_eq!(Position::parse_trimmed(" e4"), Err(ChessError::BadLength));
}

#[test]
fn position_errors() {
    assert_eq!(Position::new(8, 0), Err(ChessError::OutOfRange));
    assert_eq!(Position::new(0, 8), Err(ChessError::OutOfRange));
    assert_eq!(Position::new_from_idx(64), Err(ChessError::OutOfRange));
    assert_eq!(Position::parse_str("e"), Err(ChessError::BadLength));
    assert_eq!(Position::parse_str("e44"), Err(ChessError::BadLength));
    assert_eq!(Position::parse_str("j1"), Err(ChessError::BadFile));
    assert_eq!(Position::parse_str("a0"), Err(ChessError::BadRank));
    assert_eq!(Position::parse_str("a9"), Err(ChessError::BadRank));
    assert_eq!(ChessError::BadRank.kind(), ErrorKind::InputFormat);
    assert!(!ChessError::BadFile.message().is_empty());
    assert_eq!(Position::null().valid(), Err(ChessError::OutOfRange));
    assert_eq!(Position::null().to_string(), "-");
    let inconsistent = Position { rank: 1, file: 1, idx: 3 };
    assert_eq!(inconsistent.valid(), Err(ChessError::OutOfRange));
}

#[test]
fn offsets_stay_on_the_board() {
    let e4 = at("e4");
    assert_eq!(e4.offset(1, -1).unwrap(), at("d5"));
    assert_eq!(at("a1").offset(-1, 0), Err(ChessError::OffBoard));
    let mut h8 = at("h8");
    assert_eq!(h8.offset_self(0, 1), Err(ChessError::OffBoard));
    assert_eq!(h8, at("h8"));
    assert!(h8.offset_self(-7, -7).is_ok());
    assert_eq!(h8, at("a1"));
}

#[test]
fn new_game_state() {
    let game = Game::new();
    assert_eq!(game.get_game_state(), GameState::InProgress);
    assert_eq!(game.get_active_colour(), Colour::White);
    assert!(game.white_has_right_to_castle_queenside);
    assert!(game.white_has_right_to_castle_kingside);
    assert!(game.black_has_right_to_castle_queenside);
    assert!(game.black_has_right_to_castle_kingside);
    assert_eq!(game.en_passant_target, Position::null());
    assert_eq!(game.halfmoves, 0);
    assert_eq!(game.get_game_over_reason(), None);
    assert_eq!(game.get(at("d1")).unwrap(), Some(piece(PieceType::Queen, Colour::White)));
    assert_eq!(game.get(at("g8")).unwrap(), Some(piece(PieceType::Knight, Colour::Black)));
    assert_eq!(game.get(at("e4")).unwrap(), None);
    assert!(game.get_history().is_empty());
}

#[test]
fn scholars_mate_is_checkmate() {
    let mut game = Game::new();
    play(&mut game, "e2 e3 e7 e6 d1 f3 e6 e5 f1 c4 e5 e4 f3 f7");
    assert_eq!(game.get_game_state(), GameState::GameOver);
    assert_eq!(game.get_game_over_reason(), Some(GameOverReason::Checkmate));
    assert!(game.is_checkmate());
    assert!(game.is_gameover());
    assert_eq!(game.make_move("a7", "a6"), Err(ChessError::WrongState));
}

#[test]
fn king_move_takes_only_its_own_rights() {
    let mut game = Game::new();
    play(&mut game, "e2 e4 e7 e5 e1 e2");
    assert!(!game.white_has_right_to_castle_queenside);
    assert!(!game.white_has_right_to_castle_kingside);
    assert!(game.black_has_right_to_castle_queenside);
    assert!(game.black_has_right_to_castle_kingside);
}

#[test]
fn en_passant_target_lives_one_move() {
    let mut game = Game::new();
    play(&mut game, "e2 e4");
    assert_eq!(game.en_passant_target, at("e3"));
    play(&mut game, "g8 f6");
    assert_eq!(game.en_passant_target, Position::null());
    play(&mut game, "d2 d4 c7 c5");
    assert_eq!(game.en_passant_target, at("c6"));
    play(&mut game, "d4 d5");
    assert_eq!(game.en_passant_target, Position::null());
}

#[test]
fn en_passant_capture_removes_the_pawn() {
    let mut game = Game::new();
    play(&mut game, "e2 e4 a7 a6 e4 e5 d7 d5");
    let captures = game.get_possible_capture_moves(at("e5")).unwrap();
    assert_eq!(captures, vec![at("d6")]);
    assert_eq!(game.is_capture(at("e5"), at("d6")), Ok(true));
    play(&mut game, "e5 d6");
    assert_eq!(game.get(at("d5")).unwrap(), None);
    let last = game.get_history().pop().unwrap();
    assert_eq!(last.piece_captured, Some(piece(PieceType::Pawn, Colour::Black)));
    assert_eq!(game.halfmoves, 0);
}

#[test]
fn bare_kings_after_any_move_is_insufficient_material() {
    let mut game = empty_game();
    game.put(at("c3"), piece(PieceType::King, Colour::White)).unwrap();
    game.put(at("f6"), piece(PieceType::King, Colour::Black)).unwrap();
    assert_eq!(game.make_move("c3", "d4"), Ok(GameState::GameOver));
    assert_eq!(game.get_game_over_reason(), Some(GameOverReason::InsufficientMaterial));
}

#[test]
fn king_shuffle_repeats() {
    let mut game = Game::new();
    play(&mut game, "e2 e3 e7 e6");
    let shuffle = ["e1 e2", "e8 e7", "e2 e1", "e7 e8"];
    for i in 0..10 {
        play(&mut game, shuffle[i % 4]);
    }
    assert!(game.repetitions() >= 2);
    assert!(game.is_threefold_repetition());
    assert!(!game.is_fivefold_repetition());
    assert_eq!(game.get_game_state(), GameState::InProgress);
    for i in 10..17 {
        play(&mut game, shuffle[i % 4]);
    }
    assert_eq!(game.get_game_state(), GameState::InProgress);
    play(&mut game, "e8 e7");
    assert_eq!(game.get_game_state(), GameState::GameOver);
    assert_eq!(game.get_game_over_reason(), Some(GameOverReason::FivefoldRepetitionRule));
}

#[test]
fn seventy_five_move_rule_after_150_quiet_half_moves() {
    let mut game = Game::new();
    play(&mut game, "g1 f3");
    assert_eq!(game.halfmoves, 1);
    game.halfmoves = 149;
    assert!(game.is_50_move_rule());
    assert!(!game.is_75_move_rule());
    assert_eq!(game.make_move("g8", "f6"), Ok(GameState::GameOver));
    assert_eq!(game.halfmoves, 150);
    assert!(game.is_75_move_rule());
    assert_eq!(game.get_game_over_reason(), Some(GameOverReason::SeventyFiveMoveRule));
}

#[test]
fn checkmate_takes_precedence_over_the_75_move_rule() {
    let mut game = Game::new();
    play(&mut game, "e2 e3 e7 e6 d1 f3 e6 e5 f1 c4 e5 e4");
    game.halfmoves = 149;
    play(&mut game, "f3 f7");
    assert_eq!(game.get_game_over_reason(), Some(GameOverReason::Checkmate));
}

#[test]
fn stalemate_is_detected() {
    let mut game = empty_game();
    game.put(at("a1"), piece(PieceType::King, Colour::White)).unwrap();
    game.put(at("g5"), piece(PieceType::Queen, Colour::White)).unwrap();
    game.put(at("h8"), piece(PieceType::King, Colour::Black)).unwrap();
    assert_eq!(game.make_move("g5", "g6"), Ok(GameState::GameOver));
    assert_eq!(game.get_game_over_reason(), Some(GameOverReason::Stalemate));
}

fn snapshot(game: &Game) -> ([Option<Piece>; 64], Colour, [bool; 4], Position, u8, u32, GameState, usize) {
    (
        game.get_board(),
        game.get_active_colour(),
        [
            game.white_has_right_to_castle_queenside,
            game.white_has_right_to_castle_kingside,
            game.black_has_right_to_castle_queenside,
            game.black_has_right_to_castle_kingside,
        ],
        game.en_passant_target,
        game.halfmoves,
        game.fullmoves,
        game.get_game_state(),
        game.get_history().len(),
    )
}

#[test]
fn rejected_moves_change_nothing() {
    let mut game = Game::new();
    play(&mut game, "e2 e4");
    let before = snapshot(&game);
    assert_eq!(game.make_move("e7", "e4"), Err(ChessError::IllegalMove));
    assert_eq!(game.make_move("d2", "d4"), Err(ChessError::WrongColour));
    assert_eq!(game.make_move("e5", "e4"), Err(ChessError::EmptySource));
    assert_eq!(game.make_move("z9", "e4"), Err(ChessError::BadFile));
    assert_eq!(game.make_move("e7", "e9"), Err(ChessError::BadRank));
    assert_eq!(game.make_move_pos(Position::null(), at("e5")), Err(ChessError::OutOfRange));
    assert_eq!(game.set_promotion(PieceType::Queen), Err(ChessError::WrongState));
    assert_eq!(snapshot(&game), before);
    assert_eq!(ChessError::IllegalMove.kind(), ErrorKind::IllegalMove);
    assert_eq!(ChessError::WrongState.kind(), ErrorKind::WrongState);
}

#[test]
fn moving_into_check_is_illegal() {
    let mut game = Game::new();
    play(&mut game, "e2 e4 e7 e5 d1 h5");
    assert_eq!(game.make_move("f7", "f6"), Err(ChessError::IllegalMove));
    let mut game = Game::new();
    play(&mut game, "e2 e4 f7 f6 d1 h5");
    assert_eq!(game.get_game_state(), GameState::Check);
    assert!(game.is_check());
    assert_eq!(game.make_move("a7", "a6"), Err(ChessError::IllegalMove));
    assert_eq!(game.make_move("g7", "g6"), Ok(GameState::InProgress));
}

#[test]
fn promotion_choices() {
    let mut game = Game::new();
    play(&mut game, "e2 e3 d7 d6 e3 e4 d6 d5 e4 d5 e8 d7 d5 d6 d7 c6 d6 d7 d8 e8 d7 d8");
    assert_eq!(game.get_game_state(), GameState::WaitingOnPromotionChoice);
    assert_eq!(game.get_active_colour(), Colour::White);
    assert_eq!(game.make_move("a7", "a6"), Err(ChessError::WrongState));
    assert_eq!(game.set_promotion(PieceType::King), Err(ChessError::BadPromotion));
    assert_eq!(game.set_promotion(PieceType::Pawn), Err(ChessError::BadPromotion));
    assert_eq!(game.set_promotion(PieceType::Knight), Ok(GameState::Check));
    assert_eq!(game.get(at("d8")).unwrap(), Some(piece(PieceType::Knight, Colour::White)));
    assert_eq!(game.get_active_colour(), Colour::Black);
}

#[test]
fn waiting_without_a_pawn_is_an_invariant_violation() {
    let mut game = Game::new();
    game.state = GameState::WaitingOnPromotionChoice;
    assert_eq!(game.set_promotion(PieceType::Queen), Err(ChessError::NoPawnToPromote));
    assert_eq!(ChessError::NoPawnToPromote.kind(), ErrorKind::InvariantViolation);
}

#[test]
fn manual_draw() {
    let mut game = Game::new();
    game.submit_draw();
    assert_eq!(game.get_game_state(), GameState::GameOver);
    assert_eq!(game.get_game_over_reason(), Some(GameOverReason::ManualDraw));
    assert_eq!(game.make_move("e2", "e4"), Err(ChessError::WrongState));
}

#[test]
fn board_access() {
    let mut game = Game::new();
    assert_eq!(game.get(Position::null()), Err(ChessError::OutOfRange));
    assert_eq!(
        game.put(at("e4"), piece(PieceType::King, Colour::White)),
        Err(ChessError::SecondKing)
    );
    assert_eq!(ChessError::SecondKing.kind(), ErrorKind::IllegalMove);
    assert!(game.put(at("e4"), piece(PieceType::Knight, Colour::Black)).is_ok());
    assert_eq!(game.remove(at("e4")), Ok(Some(piece(PieceType::Knight, Colour::Black))));
    assert_eq!(game.remove(at("e4")), Ok(None));
    assert_eq!(game.remove(Position::null()), Err(ChessError::OutOfRange));
    game.remove(at("e1")).unwrap();
    assert!(game.put(at("e4"), piece(PieceType::King, Colour::White)).is_ok());
}

#[test]
fn move_lists_split_by_capture() {
    let game = Game::new();
    assert_eq!(game.get_possible_moves(at("b1")).unwrap(), vec![at("a3"), at("c3")]);
    assert_eq!(game.get_possible_non_capture_moves(at("e2")).unwrap(), vec![at("e3"), at("e4")]);
    assert!(game.get_possible_capture_moves(at("e2")).unwrap().is_empty());
    assert!(game.get_possible_moves(at("e4")).unwrap().is_empty());
    assert_eq!(game.get_possible_moves(Position::null()), Err(ChessError::OutOfRange));
    assert_eq!(game.is_capture(at("e4"), at("e5")), Err(ChessError::EmptySource));
    let mut game = Game::new();
    play(&mut game, "e2 e4 d7 d5");
    assert_eq!(game.get_possible_capture_moves(at("e4")).unwrap(), vec![at("d5")]);
    assert_eq!(game.get_possible_non_capture_moves(at("e4")).unwrap(), vec![at("e5")]);
}

#[test]
fn castling_moves_the_rook() {
    let mut game = Game::new();
    play(&mut game, "g1 f3 g8 f6 e2 e4 e7 e5 f1 e2 f8 e7");
    assert!(game.get_possible_moves(at("e1")).unwrap().contains(&at("g1")));
    play(&mut game, "e1 g1");
    assert_eq!(game.get(at("f1")).unwrap(), Some(piece(PieceType::Rook, Colour::White)));
    assert_eq!(game.get(at("h1")).unwrap(), None);
}

#[test]
fn fen_of_new_game_and_after_moves() {
    let mut game = Game::new();
    assert_eq!(game.fen(), "rnbqkbnr/pppppppp/8/8/8/8/PPPPPPPP/RNBQKBNR w KQkq - 0 0");
    play(&mut game, "e2 e4");
    assert_eq!(game.fen(), "rnbqkbnr/pppppppp/8/8/4P3/8/PPPP1PPP/RNBQKBNR b KQkq - 0 0");
    play(&mut game, "a7 a6 e4 e5 d7 d5");
    assert_eq!(game.fen(), "rnbqkbnr/1pp1pppp/p7/3pP3/8/8/PPPP1PPP/RNBQKBNR w KQkq d6 0 2");
    play(&mut game, "e1 e2 g8 f6");
    assert_eq!(game.fen(), "rnbqkb1r/1pp1pppp/p4n2/3pP3/8/8/PPPPKPPP/RNBQ1BNR w kq - 2 3");
}

#[test]
fn repeated_position_counts_en_passant_only_when_capturable() {
    let mut a = Game::new();
    play(&mut a, "e2 e4");
    assert_eq!(a.en_passant_target, at("e3"));
    assert_eq!(a.fen().split(' ').nth(3), Some("-"));
    let mut b = Game::new();
    play(&mut b, "e2 e4 g8 f6 g1 f3 f6 g8 f3 g1");
    assert_eq!(a.get_board(), b.get_board());
    assert_eq!(b.get_active_colour(), Colour::Black);
    assert_eq!(b.repetitions(), 1);
}

#[test]
fn piece_type_text() {
    assert_eq!(PieceType::from_char('N'), Ok(PieceType::Knight));
    assert_eq!(PieceType::from_char('p'), Ok(PieceType::Pawn));
    assert_eq!(PieceType::from_char('\u{265E}'), Ok(PieceType::Knight));
    assert_eq!(PieceType::from_char('\u{2655}'), Ok(PieceType::Queen));
    assert_eq!(PieceType::from_char('x'), Err(ChessError::UnknownPiece));
    assert_eq!(PieceType::from_str(" queen "), Ok(PieceType::Queen));
    assert_eq!(PieceType::from_str("KNIGHT"), Ok(PieceType::Knight));
    assert_eq!(PieceType::from_str("BiShOp"), Ok(PieceType::Bishop));
    assert_eq!(PieceType::from_str("\tr\n"), Ok(PieceType::Rook));
    assert_eq!(PieceType::from_str("bishops"), Err(ChessError::UnknownPiece));
    assert_eq!(PieceType::from_str(""), Err(ChessError::UnknownPiece));
    assert_eq!(PieceType::from_trimmed(" k"), Err(ChessError::UnknownPiece));
    assert_eq!(ChessError::UnknownPiece.kind(), ErrorKind::InputFormat);
}

#[test]
fn piece_characters() {
    let black_knight = piece(PieceType::Knight, Colour::Black);
    assert_eq!(black_knight.to_char(), 'N');
    assert_eq!(black_knight.to_char_colourcased(), 'n');
    assert_eq!(black_knight.to_char_unicode(), '\u{265E}');
    assert!(black_knight.is_knight() && !black_knight.is_pawn() && black_knight.is_black());
    let white_pawn = piece(PieceType::Pawn, Colour::White);
    assert_eq!(white_pawn.to_char_colourcased(), 'P');
    assert_eq!(white_pawn.to_char_unicode(), '\u{2659}');
    assert!(white_pawn.is_pawn() && white_pawn.is_white() && !white_pawn.is_knight());
    assert_eq!(PieceType::Bishop.char(), 'B');
    assert_eq!(Colour::White.invert(), Colour::Black);
    assert_eq!(Colour::Black.to_char(), 'b');
    assert_eq!(Colour::Black.pawn_dir(), -1);
}

#[test]
fn history_records_moves() {
    let mut game = Game::new();
    play(&mut game, "e2 e4 d7 d5 e4 d5");
    let history = game.get_history();
    assert_eq!(history.len(), 3);
    assert_eq!(history[0].from, at("e2"));
    assert_eq!(history[0].to, at("e4"));
    assert_eq!(history[0].piece_moved, piece(PieceType::Pawn, Colour::White));
    assert_eq!(history[0].piece_captured, None);
    assert_eq!(history[2].piece_captured, Some(piece(PieceType::Pawn, Colour::Black)));
    assert_eq!(history[0].key.active_colour, Colour::White);
    assert_eq!(history[1].key.en_passant, Position::null());
    assert_eq!(game.fullmoves, 1);
}

#[test]
fn grid_after_a_move() {
    let mut game = Game::new();
    play(&mut game, "e2 e4");
    let grid = game.to_string();
    let lines: Vec<&str> = grid.lines().collect();
    assert_eq!(lines.len(), 10);
    assert_eq!(lines[5], "|* * * * P * * *|");
    assert_eq!(lines[7], "|P P P P * P P P|");
}

#[test]
fn castling_refused_through_a_square_a_pawn_attacks() {
    let mut game = empty_game();
    game.put(at("e1"), piece(PieceType::King, Colour::White)).unwrap();
    game.put(at("h1"), piece(PieceType::Rook, Colour::White)).unwrap();
    game.put(at("a1"), piece(PieceType::Rook, Colour::White)).unwrap();
    game.put(at("e8"), piece(PieceType::King, Colour::Black)).unwrap();
    let moves = game.get_possible_moves(at("e1")).unwrap();
    assert!(moves.contains(&at("g1")) && moves.contains(&at("c1")));
    game.put(at("e2"), piece(PieceType::Pawn, Colour::Black)).unwrap();
    let moves = game.get_possible_moves(at("e1")).unwrap();
    assert!(!moves.contains(&at("g1")));
    assert!(!moves.contains(&at("c1")));
    assert_eq!(game.make_move("e1", "g1"), Err(ChessError::IllegalMove));
    game.remove(at("e2")).unwrap();
    game.put(at("c2"), piece(PieceType::Pawn, Colour::Black)).unwrap();
    let moves = game.get_possible_moves(at("e1")).unwrap();
    assert!(moves.contains(&at("g1")));
    assert!(!moves.contains(&at("c1")));
    assert_eq!(game.make_move("e1", "c1"), Err(ChessError::IllegalMove));
}

#[test]
fn every_error_explains_itself() {
    let all = [
        ChessError::OutOfRange,
        ChessError::OffBoard,
        ChessError::BadLength,
        ChessError::BadFile,
        ChessError::BadRank,
        ChessError::UnknownPiece,
        ChessError::SecondKing,
        ChessError::EmptySource,
        ChessError::WrongColour,
        ChessError::IllegalMove,
        ChessError::WrongState,
        ChessError::BadPromotion,
        ChessError::NoPawnToPromote,
    ];
    for e in all {
        assert!(!e.message().is_empty());
    }
    assert_eq!(ChessError::OffBoard.message(), "the offset leaves the board");
}
