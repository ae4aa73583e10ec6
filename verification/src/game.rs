//! A game: a current position together with the moves made so far.

use vstd::prelude::*;
use crate::chessapi::{legal_moves_of, child_of, parsed_board_of, parse_board, startpos_board, make_move};

verus! {

#[derive(Clone, Debug)]
pub struct Game {
    pub current_position: chess::Board,
    pub moves: Vec<chess::ChessMove>,
}

impl Game {
    /// A new game from the initial position.
    pub fn new() -> (g: Game)
        ensures
            Some(g.current_position) == parsed_board_of(
                "rnbqkbnr/pppppppp/8/8/8/8/PPPPPPPP/RNBQKBNR w KQkq - 0 1"@,
            ),
            g.moves@.len() == 0,
    {
        Game { current_position: startpos_board(), moves: Vec::new() }
    }

    /// A new game from a specific starting position.
    pub fn new_with_board(board: chess::Board) -> (g: Game)
        ensures
            g.current_position == board,
            g.moves@.len() == 0,
    {
        Game { current_position: board, moves: Vec::new() }
    }

    /// The moves made in this game.
    pub fn moves(&self) -> (r: &Vec<chess::ChessMove>)
        ensures
            r@ == self.moves@,
    {
        &self.moves
    }

    /// The current position.
    pub fn position(&self) -> (r: &chess::Board)
        ensures
            *r == self.current_position,
    {
        &self.current_position
    }

    /// A new game from a FEN string, if the collaborator accepts it.
    pub fn new_from_fen(fen: &str) -> (r: Option<Game>)
        ensures
            match parsed_board_of(fen@) {
                Some(b) => r matches Some(g) && g.current_position == b && g.moves@.len() == 0,
                None => r is None,
            },
    {
        match parse_board(fen) {
            Some(b) => Some(Game::new_with_board(b)),
            None => None,
        }
    }

    /// The game continued by one legal move; the move list carries over.
    pub fn make_move_new(&self, mv: chess::ChessMove) -> (g: Game)
        requires
            legal_moves_of(self.current_position).contains(mv),
        ensures
            g.current_position == child_of(self.current_position, mv),
            g.moves@ == self.moves@,
    {
        let copy = make_move(&self.current_position, mv);
        let mut moved: Vec<chess::ChessMove> = Vec::new();
        let mut i: usize = 0;
        while i < self.moves.len()
            invariant
                0 <= i <= self.moves@.len(),
                moved@ == self.moves@.take(i as int),
            decreases self.moves@.len() - i,
        {
            moved.push(self.moves[i]);
            proof {
                assert(self.moves@.take(i + 1 as int) =~= self.moves@.take(i as int).push(
                    self.moves@[i as int],
                ));
            }
            i = i + 1;
        }
        proof {
            assert(self.moves@.take(self.moves@.len() as int) =~= self.moves@);
        }
        Game { current_position: copy, moves: moved }
    }
}

} // verus!
