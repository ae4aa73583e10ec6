//! The engine broker: the single actor that owns the current position
//! and carries out the commands of the command queue.
//!
//! The broker's decisions are verified here; the surrounding program
//! runs the queue loop, spawns the search worker and emits the replies.

use vstd::prelude::*;
use crate::types::Color;
use crate::chessapi::{
    legal_moves_of, child_of, parsed_board_of, parse_board, startpos_board, make_move, is_legal,
    board_side_to_move, side_to_move_of,
};
use crate::time_broker::{TimeBroker, TimeControl, spec_seed_duration, spec_wants_timer};

verus! {

/// Search bounds of the `go` command that the engine honours.
#[derive(Copy, Clone, Debug)]
pub struct SearchControl {
    pub depth: Option<u8>,
}

/// The commands the broker carries out, in queue order.
#[derive(Clone, Debug)]
pub enum EngineCommand {
    /// Set a position as the current game.
    SetPosition { startpos: bool, fen: Option<String>, moves: Vec<chess::ChessMove> },
    /// Count the leaves of the move tree to the given depth.
    Perft { depth: usize },
    /// Search the current position for the best move.
    Search { time_control: Option<TimeControl>, search_control: Option<SearchControl> },
    /// Stop a running search as soon as possible.
    StopSearch,
    /// Report the static evaluation of the current position.
    EvalCurrentPosition,
    /// Show the current board.
    ShowBoard,
    /// Answer as soon as preceding commands are done.
    IsReady,
}

/// Why a `SetPosition` command was not carried out whole.
#[derive(Copy, Clone, Debug, PartialEq, Eq, Structural)]
pub enum PositionError {
    /// The FEN string was not accepted; the prior position is kept.
    InvalidFen,
    /// A move of the list is not legal where it was to be played; the
    /// position reached so far is kept.
    IllegalMove,
}

/// The position the move list reaches from a base position, together
/// with whether every move was legal; an illegal move stops the walk.
pub open spec fn spec_apply_moves(b: chess::Board, moves: Seq<chess::ChessMove>) -> (chess::Board, bool)
    decreases moves.len(),
{
    if moves.len() == 0 {
        (b, true)
    } else if legal_moves_of(b).contains(moves[0]) {
        spec_apply_moves(child_of(b, moves[0]), moves.drop_first())
    } else {
        (b, false)
    }
}

/// The base position a `SetPosition` command starts from: the parsed
/// FEN when one is given, else the initial position when `startpos` is
/// set, else the current position.
pub open spec fn spec_base_position(
    current: chess::Board,
    startpos: bool,
    fen: Option<Seq<char>>,
) -> Option<chess::Board> {
    match fen {
        Some(s) => parsed_board_of(s),
        None => if startpos {
            parsed_board_of("rnbqkbnr/pppppppp/8/8/8/8/PPPPPPPP/RNBQKBNR w KQkq - 0 1"@)
        } else {
            Some(current)
        },
    }
}

pub struct EngineBroker {
    pub current_game: chess::Board,
    pub time_broker: TimeBroker,
}

impl EngineBroker {
    /// A broker holding the initial position.
    pub fn new() -> (r: EngineBroker)
        ensures
            Some(r.current_game) == parsed_board_of(
                "rnbqkbnr/pppppppp/8/8/8/8/PPPPPPPP/RNBQKBNR w KQkq - 0 1"@,
            ),
            r.time_broker.duration_ms is None,
    {
        EngineBroker { current_game: startpos_board(), time_broker: TimeBroker::new() }
    }

    /// Replace the current position as a `SetPosition` command says: take
    /// the base position, then play the listed moves in order.  A FEN
    /// that does not parse keeps the prior position; an illegal move
    /// stops the list and keeps the position reached so far.
    pub fn set_position(
        &mut self,
        startpos: bool,
        fen: Option<String>,
        moves: &Vec<chess::ChessMove>,
    ) -> (r: Result<(), PositionError>)
        ensures
            final(self).time_broker == old(self).time_broker,
            match spec_base_position(
                old(self).current_game,
                startpos,
                match fen {
                    Some(s) => Some(s@),
                    None => None,
                },
            ) {
                None => {
                    &&& r matches Err(e) && e == PositionError::InvalidFen
                    &&& final(self).current_game == old(self).current_game
                },
                Some(base) => {
                    let walk = spec_apply_moves(base, moves@);
                    &&& final(self).current_game == walk.0
                    &&& walk.1 ==> r is Ok
                    &&& !walk.1 ==> (r matches Err(e) && e == PositionError::IllegalMove)
                },
            },
    {
        let base = match fen {
            Some(s) => {
                match parse_board(s.as_str()) {
                    Some(b) => b,
                    None => {
                        return Err(PositionError::InvalidFen);
                    },
                }
            },
            None => if startpos {
                startpos_board()
            } else {
                let b = self.current_game;
                b
            },
        };
        let mut cur = base;
        let mut i: usize = 0;
        let mut all_legal = true;
        proof {
            assert(moves@.skip(0) =~= moves@);
        }
        while i < moves.len()
            invariant_except_break
                0 <= i <= moves@.len(),
                all_legal,
                spec_apply_moves(base, moves@) == spec_apply_moves(cur, moves@.skip(i as int)),
            ensures
                all_legal ==> i == moves@.len() && spec_apply_moves(base, moves@)
                    == spec_apply_moves(cur, moves@.skip(i as int)),
                !all_legal ==> spec_apply_moves(base, moves@) == (cur, false),
            decreases moves@.len() - i,
        {
            let mv = moves[i];
            proof {
                assert(moves@.skip(i as int)[0] == moves@[i as int]);
                assert(moves@.skip(i as int).drop_first() =~= moves@.skip(i + 1 as int));
            }
            if !is_legal(&cur, mv) {
                all_legal = false;
                break ;
            }
            cur = make_move(&cur, mv);
            i = i + 1;
        }
        proof {
            assert(moves@.skip(moves@.len() as int) =~= Seq::<chess::ChessMove>::empty());
        }
        self.current_game = cur;
        if all_legal {
            Ok(())
        } else {
            Err(PositionError::IllegalMove)
        }
    }

    /// Decide how a `Search` command is run: give the time broker a
    /// fresh cancel latch for this search, seed it from the time control
    /// and the engine's colour, and say which depth cap applies and
    /// whether the deferred stop timer is wanted.
    pub fn prepare_search(
        &mut self,
        time_control: &Option<TimeControl>,
        search_control: &Option<SearchControl>,
    ) -> (r: (Option<usize>, bool))
        ensures
            final(self).current_game == old(self).current_game,
            match *time_control {
                Some(tc) => {
                    &&& final(self).time_broker.duration_ms == spec_seed_duration(
                        side_to_move_of(old(self).current_game),
                        tc,
                    )
                    &&& r.1 == spec_wants_timer(tc)
                },
                None => {
                    &&& final(self).time_broker.duration_ms == old(self).time_broker.duration_ms
                    &&& r.1 == false
                },
            },
            r.0 == (match *search_control {
                Some(sc) => match sc.depth {
                    Some(d) => Some(d as usize),
                    None => None::<usize>,
                },
                None => None::<usize>,
            }),
    {
        let max_depth: Option<usize> = match search_control {
            Some(sc) => match sc.depth {
                Some(d) => Some(d as usize),
                None => None,
            },
            None => None,
        };
        self.time_broker.reset_latch();
        let mut wants_timer = false;
        match time_control {
            Some(tc) => {
                let own_color = board_side_to_move(&self.current_game);
                self.time_broker.seed_time_control(own_color, tc);
                wants_timer = match tc {
                    TimeControl::TimeLeft { .. } => true,
                    TimeControl::MoveTime { .. } => true,
                    _ => false,
                };
            },
            None => {},
        }
        (max_depth, wants_timer)
    }
}

} // verus!
