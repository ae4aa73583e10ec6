//! A UCI chess engine library: a negamax alpha-beta searcher with a
//! transposition table and iterative deepening, a static evaluator with
//! piece-square weights blended by game phase, the brokers that carry
//! out protocol commands and manage search time, and a mailbox board
//! with FEN reading and writing.
//!
//! Move generation, make-move, position hashing and FEN parsing for the
//! searched position come from the `chess` crate; every call into it is
//! wrapped once and specified in `chessapi`.

pub mod types;
pub mod chessapi;
pub mod weights;
pub mod eval;
pub mod channel;
pub mod clock;
pub mod game;
pub mod search;
pub mod time_broker;
pub mod broker;
pub mod text;
pub mod board;
pub mod frontend;
