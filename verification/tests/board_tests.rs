use wolfchess::board::{FenError, MailboxBoard};
use wolfchess::types::{Color, Piece, PieceType, Square};

const STARTPOS: &str = "rnbqkbnr/pppppppp/8/8/8/8/PPPPPPPP/RNBQKBNR w KQkq - 0 1";

#[test]
fn startpos_parses_and_round_trips() {
    let board = MailboxBoard::new(STARTPOS).unwrap();
    assert_eq!(board.to_fen(), STARTPOS);
}

#[test]
fn middlegame_fen_round_trips() {
    let fen = "r3k2r/p1ppqpb1/bn2pnp1/3PN3/1p2P3/2N2Q1p/PPPBBPPP/R3K2R w KQkq - 0 1";
    let board = MailboxBoard::new(fen).unwrap();
    assert_eq!(board.to_fen(), fen);
}

#[test]
fn empty_board_writes_empty_placement() {
    let board = MailboxBoard::empty();
    assert_eq!(board.to_fen(), "8/8/8/8/8/8/8/8 w KQkq - 0 1");
}

#[test]
fn parse_reads_clocks_and_turn() {
    let board = MailboxBoard::new("8/8/8/8/8/8/8/8 b KQkq - 13 37").unwrap();
    assert_eq!(board.turn, Color::Black);
    assert_eq!(board.half_move_clock, 13);
    assert_eq!(board.full_move_number, 37);
}

#[test]
fn parse_places_pieces_where_fen_says() {
    let board = MailboxBoard::new(STARTPOS).unwrap();
    assert_eq!(
        board.get_piece(&Square::E1),
        Some(Piece { piece_type: PieceType::King, color: Color::White })
    );
    assert_eq!(
        board.get_piece(&Square::D8),
        Some(Piece { piece_type: PieceType::Queen, color: Color::Black })
    );
    assert_eq!(
        board.get_piece(&Square::A2),
        Some(Piece { piece_type: PieceType::Pawn, color: Color::White })
    );
    assert_eq!(board.get_piece(&Square::E4), None);
}

#[test]
fn parse_rejects_wrong_part_count() {
    assert_eq!(MailboxBoard::new("abc").unwrap_err(), FenError::UnknownPartCount);
    assert_eq!(MailboxBoard::new("").unwrap_err(), FenError::UnknownPartCount);
}

#[test]
fn parse_rejects_wrong_rank_count() {
    assert_eq!(
        MailboxBoard::new("8/8/8/8/8/8/8 w KQkq - 0 1").unwrap_err(),
        FenError::UnknownRankCount
    );
}

#[test]
fn parse_rejects_unknown_piece_symbol() {
    assert_eq!(
        MailboxBoard::new("x7/8/8/8/8/8/8/8 w KQkq - 0 1").unwrap_err(),
        FenError::UnknownPieceSymbol
    );
}

#[test]
fn parse_rejects_overlong_rank() {
    assert_eq!(
        MailboxBoard::new("ppppppppp/8/8/8/8/8/8/8 w KQkq - 0 1").unwrap_err(),
        FenError::TooManyFilesForRank
    );
}

#[test]
fn parse_rejects_unknown_turn() {
    assert_eq!(
        MailboxBoard::new("8/8/8/8/8/8/8/8 x KQkq - 0 1").unwrap_err(),
        FenError::UnknownTurnSymbol
    );
}

#[test]
fn parse_rejects_partial_castling_field() {
    assert_eq!(
        MailboxBoard::new("8/8/8/8/8/8/8/8 w Kq - 0 1").unwrap_err(),
        FenError::UnknownCastlingSymbol
    );
}

#[test]
fn parse_rejects_en_passant_square() {
    assert_eq!(
        MailboxBoard::new("8/8/8/8/8/8/8/8 w KQkq e3 0 1").unwrap_err(),
        FenError::UnknownEnPassantSquareSymbol
    );
}

#[test]
fn parse_rejects_bad_half_move_clock() {
    assert_eq!(
        MailboxBoard::new("8/8/8/8/8/8/8/8 w KQkq - x 1").unwrap_err(),
        FenError::NoNumberForHalfMoveClock
    );
    assert_eq!(
        MailboxBoard::new("8/8/8/8/8/8/8/8 w KQkq - 99999 1").unwrap_err(),
        FenError::NoNumberForHalfMoveClock
    );
}

#[test]
fn parse_rejects_bad_full_move_number() {
    assert_eq!(
        MailboxBoard::new("8/8/8/8/8/8/8/8 w KQkq - 0 x").unwrap_err(),
        FenError::NoNumberForFullMoveNumber
    );
}

#[test]
fn place_and_remove_piece() {
    let mut board = MailboxBoard::empty();
    let knight = Piece { piece_type: PieceType::Knight, color: Color::Black };
    board.place_piece(knight, Square::C3);
    assert_eq!(board.get_piece(&Square::C3), Some(knight));
    let taken = board.remove_piece(Square::C3);
    assert_eq!(taken, knight);
    assert_eq!(board.get_piece(&Square::C3), None);
}

#[test]
fn render_shows_the_whole_board() {
    let board = MailboxBoard::new(STARTPOS).unwrap();
    let rendered = board.console_render();
    assert!(rendered.starts_with("  a  b  c  d  e  f  g  h\n"));
    assert_eq!(rendered.matches('\n').count(), 9);
    assert!(rendered.contains('\u{2659}'));
    let empty = MailboxBoard::empty().console_render();
    assert!(!empty.contains('\u{2659}'));
}

#[test]
fn fen_error_message_text() {
    assert_eq!(FenError::UnknownPartCount.message(), "Error during FEN parsing");
}

#[test]
fn square_coordinates() {
    assert_eq!(Square::A1.file(), 0);
    assert_eq!(Square::A1.rank(), 0);
    assert_eq!(Square::H8.file(), 7);
    assert_eq!(Square::H8.rank(), 7);
    assert_eq!(Square::E4.file(), 4);
    assert_eq!(Square::E4.rank(), 3);
    assert_eq!(Square::from_coords(4, 3), Square::E4);
    assert_eq!(Square::from_index(0), Square::A1);
    assert_eq!(Square::from_index(63), Square::H8);
}

#[test]
fn square_background_colors_alternate() {
    assert_eq!(Square::A1.background_color(), Color::Black);
    assert_eq!(Square::B1.background_color(), Color::White);
    assert_eq!(Square::A2.background_color(), Color::White);
    assert_eq!(Square::H8.background_color(), Color::Black);
}

#[test]
fn piece_type_symbols_decode() {
    assert_eq!(PieceType::from_symbol('K'), Some((PieceType::King, Color::White)));
    assert_eq!(PieceType::from_symbol('q'), Some((PieceType::Queen, Color::Black)));
    assert_eq!(PieceType::from_symbol('P'), Some((PieceType::Pawn, Color::White)));
    assert_eq!(PieceType::from_symbol('n'), Some((PieceType::Knight, Color::Black)));
    assert_eq!(PieceType::from_symbol('Z'), None);
}

#[test]
fn piece_symbols_round_trip() {
    let rook = Piece { piece_type: PieceType::Rook, color: Color::Black };
    assert_eq!(rook.symbol(), 'r');
    assert_eq!(Piece::from_symbol('r'), Some(rook));
    assert_eq!(rook.piece_type(), PieceType::Rook);
    assert_eq!(rook.color(), Color::Black);
}
