//! Trusted declarations for the move-generation collaborator.
//!
//! The engine's searcher and evaluator work on positions of the `chess`
//! crate: move generation, make-move, hashing and FEN parsing for that
//! position type are the collaborator's job and are not re-specified
//! here.  Each outside call is wrapped once, and what a call returns is
//! given a name (an uninterpreted spec function of the position value),
//! so that verified code can reason about the calls compositionally.

use vstd::prelude::*;
use crate::types::{Color, PieceType};
use std::str::FromStr;

verus! {

#[verifier::external_type_specification]
#[verifier::external_body]
pub struct ExBoard(chess::Board);

#[verifier::external_type_specification]
#[verifier::external_body]
pub struct ExChessMove(chess::ChessMove);

#[verifier::external_type_specification]
#[verifier::external_body]
#[verifier::reject_recursive_types(T)]
pub struct ExCacheTable<T: Copy + Clone + PartialEq + PartialOrd>(chess::CacheTable<T>);

/// What a position's `status` call reports: the game is either still
/// going, or over by stalemate or checkmate.
#[derive(Copy, Clone, Debug, PartialEq, Eq, Structural)]
pub enum GameStatus {
    Ongoing,
    Stalemate,
    Checkmate,
}

/// Relies on the derived `Clone` of `chess::Board`, a `Copy` struct:
/// cloning yields the same value.
pub assume_specification[ <chess::Board as Clone>::clone ](b: &chess::Board) -> (r: chess::Board)
    ensures
        r == *b,
;

/// Relies on the derived `Clone` of `chess::ChessMove`, a `Copy` struct:
/// cloning yields the same value.
pub assume_specification[ <chess::ChessMove as Clone>::clone ](m: &chess::ChessMove) -> (r:
    chess::ChessMove)
    ensures
        r == *m,
;

/// The Zobrist hash of a position, as `chess::Board::get_hash` computes it.
pub uninterp spec fn board_hash_of(b: chess::Board) -> u64;

/// The status of a position, as `chess::Board::status` reports it.
pub uninterp spec fn board_status_of(b: chess::Board) -> GameStatus;

/// The legal moves of a position, in the order `chess::MoveGen` yields them.
pub uninterp spec fn legal_moves_of(b: chess::Board) -> Seq<chess::ChessMove>;

/// The position reached by playing a legal move, as `chess::Board::make_move_new`
/// computes it.
pub uninterp spec fn child_of(b: chess::Board, m: chess::ChessMove) -> chess::Board;

/// The side to move in a position.
pub uninterp spec fn side_to_move_of(b: chess::Board) -> Color;

/// The position after passing the turn, as `chess::Board::null_move` computes
/// it; `None` when the side to move is in check.
pub uninterp spec fn null_move_of(b: chess::Board) -> Option<chess::Board>;

/// The indices (0..64, file-first from a1) of the squares holding a given
/// side's pieces of a given kind.
pub uninterp spec fn piece_squares_of(b: chess::Board, color: Color, piece_type: PieceType) -> Seq<u8>;

/// The position a FEN string denotes, if the collaborator accepts the string.
pub uninterp spec fn parsed_board_of(s: Seq<char>) -> Option<chess::Board>;

/// Relies on `chess::Board::get_hash`: the hash is a function of the
/// position value alone.
#[verifier::external_body]
pub(crate) fn board_hash(b: &chess::Board) -> (r: u64)
    ensures
        r == board_hash_of(*b),
{
    b.get_hash()
}

/// Relies on `chess::Board::status`: a position with no legal moves is
/// stalemate or checkmate, one with a legal move is ongoing.
#[verifier::external_body]
pub(crate) fn board_status(b: &chess::Board) -> (r: GameStatus)
    ensures
        r == board_status_of(*b),
        (r == GameStatus::Ongoing) == (legal_moves_of(*b).len() > 0),
{
    match b.status() {
        chess::BoardStatus::Ongoing => GameStatus::Ongoing,
        chess::BoardStatus::Stalemate => GameStatus::Stalemate,
        chess::BoardStatus::Checkmate => GameStatus::Checkmate,
    }
}

/// Relies on `chess::MoveGen::new_legal`: it enumerates the legal moves;
/// the generator holds at most 18 origin entries, each yielding at most
/// 64 destinations with at most 4 promotions, so at most 4608 moves.
#[verifier::external_body]
pub(crate) fn legal_moves(b: &chess::Board) -> (r: Vec<chess::ChessMove>)
    ensures
        r@ == legal_moves_of(*b),
        r@.len() <= 4608,
        (r@.len() == 0) == (board_status_of(*b) != GameStatus::Ongoing),
{
    chess::MoveGen::new_legal(b).collect()
}

/// Relies on `chess::Board::legal`: whether the move is among the
/// position's legal moves.
#[verifier::external_body]
pub(crate) fn is_legal(b: &chess::Board, m: chess::ChessMove) -> (r: bool)
    ensures
        r == legal_moves_of(*b).contains(m),
{
    b.legal(m)
}

/// Relies on `chess::Board::make_move_new`: playing a legal move yields
/// the resulting position and never panics.
#[verifier::external_body]
pub(crate) fn make_move(b: &chess::Board, m: chess::ChessMove) -> (r: chess::Board)
    requires
        legal_moves_of(*b).contains(m),
    ensures
        r == child_of(*b, m),
{
    b.make_move_new(m)
}

/// Relies on `chess::Board::side_to_move`.
#[verifier::external_body]
pub(crate) fn board_side_to_move(b: &chess::Board) -> (r: Color)
    ensures
        r == side_to_move_of(*b),
{
    match b.side_to_move() {
        chess::Color::White => Color::White,
        chess::Color::Black => Color::Black,
    }
}

/// Relies on `chess::Board::null_move`: passing the turn is possible
/// exactly when the side to move is not in check.
#[verifier::external_body]
pub(crate) fn board_null_move(b: &chess::Board) -> (r: Option<chess::Board>)
    ensures
        r == null_move_of(*b),
{
    b.null_move()
}

/// Relies on `chess::Board::pieces` and `chess::Board::color_combined`:
/// their intersection holds the given side's pieces of the given kind,
/// one bit per square of a 64-square board, and `Square::to_index` is
/// below 64.
#[verifier::external_body]
pub(crate) fn piece_squares(b: &chess::Board, color: Color, piece_type: PieceType) -> (r: Vec<u8>)
    ensures
        r@ == piece_squares_of(*b, color, piece_type),
        r@.len() <= 64,
        forall|i: int| 0 <= i < r@.len() ==> r@[i] < 64,
{
    let c = match color {
        Color::White => chess::Color::White,
        Color::Black => chess::Color::Black,
    };
    let p = match piece_type {
        PieceType::Pawn => chess::Piece::Pawn,
        PieceType::Knight => chess::Piece::Knight,
        PieceType::Bishop => chess::Piece::Bishop,
        PieceType::Rook => chess::Piece::Rook,
        PieceType::Queen => chess::Piece::Queen,
        PieceType::King => chess::Piece::King,
    };
    let bb = *b.pieces(p) & *b.color_combined(c);
    bb.map(|sq| sq.to_index() as u8).collect()
}

/// Relies on `FromStr for chess::Board`: the position a FEN string
/// denotes is a function of the string alone.
#[verifier::external_body]
pub(crate) fn parse_board(fen: &str) -> (r: Option<chess::Board>)
    ensures
        r == parsed_board_of(fen@),
{
    match chess::Board::from_str(fen) {
        Ok(b) => Some(b),
        Err(_) => None,
    }
}

/// Relies on `Default for chess::Board`: the default position is the one
/// the standard starting FEN denotes, which parses.
#[verifier::external_body]
pub(crate) fn startpos_board() -> (r: chess::Board)
    ensures
        Some(r) == parsed_board_of("rnbqkbnr/pppppppp/8/8/8/8/PPPPPPPP/RNBQKBNR w KQkq - 0 1"@),
{
    chess::Board::default()
}

/// Relies on `Default for chess::ChessMove`: some fixed move value, used
/// only to fill table slots.
#[verifier::external_body]
pub(crate) fn default_move() -> chess::ChessMove {
    chess::ChessMove::default()
}

} // verus!
