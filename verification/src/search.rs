//! The search subsystem: negamax alpha-beta with a transposition table,
//! the iterative-deepening driver, and the perft walk.
//!
//! Scores are centipawns from the side to move's point of view; a mate
//! at ply `p` is scored `-(MAX_CP_SCORE - p)`, so that repeated negation
//! across plies prefers faster wins and later losses.

use vstd::prelude::*;
use crate::chessapi::{
    GameStatus, board_hash_of, board_status_of, legal_moves_of, child_of, board_hash, board_status,
    legal_moves, make_move, default_move, is_legal,
};
use crate::eval::{MAX_CP_SCORE, EVAL_BOUND, spec_evaluate, evaluate_position};
use crate::channel::cancel_requested;
use crate::clock::{clock_now, millis_since};
use tokio::sync::watch::Receiver;

verus! {

/// The deepest iteration the deepening driver will run when no depth
/// limit is given.
pub const MAX_SEARCH_DEPTH: usize = 64;

/// No search is deeper than this many plies from the root.
pub const PLY_LIMIT: usize = 1200;

/// Entries of the transposition table: a power of two, sized so that
/// the table takes 256 MiB at 32 bytes per slot.
pub const TT_SIZE: usize = 0x800000;

/// How a cached value bounds the score of its node.
#[derive(Copy, Clone, Debug, PartialEq, Eq, PartialOrd, Structural)]
pub enum AlphaBetaFlag {
    Exact,
    LowerBound,
    UpperBound,
}

impl Default for AlphaBetaFlag {
    fn default() -> (r: Self)
        ensures
            r == AlphaBetaFlag::LowerBound,
    {
        AlphaBetaFlag::LowerBound
    }
}

/// One transposition-table record: the move chosen at the node, the
/// remaining depth it was searched to, and a value bounded as the flag
/// says.
#[derive(Copy, Clone, Debug, PartialEq, PartialOrd)]
pub struct CacheEntry {
    pub chess_move: chess::ChessMove,
    pub depth: usize,
    pub flag: AlphaBetaFlag,
    pub value: i32,
}

impl Default for CacheEntry {
    fn default() -> (r: Self)
        ensures
            r.depth == 0,
            r.flag == AlphaBetaFlag::LowerBound,
            r.value == 0,
    {
        CacheEntry { chess_move: default_move(), depth: 0, flag: AlphaBetaFlag::default(), value: 0 }
    }
}

/// What the table answers when probed with a hash: the entry stored in
/// the hash's slot, provided the slot records that same hash.
pub uninterp spec fn tt_lookup(c: chess::CacheTable<CacheEntry>, h: u64) -> Option<CacheEntry>;

pub open spec fn is_pow2(n: int) -> bool
    decreases n,
{
    if n <= 0 {
        false
    } else if n == 1 {
        true
    } else {
        n % 2 == 0 && is_pow2(n / 2)
    }
}

/// Every value the table holds is strictly inside the mate band.
pub open spec fn entry_in_range(o: Option<CacheEntry>) -> bool {
    match o {
        Some(e) => -MAX_CP_SCORE < e.value < MAX_CP_SCORE,
        None => true,
    }
}

pub open spec fn tt_wf(c: chess::CacheTable<CacheEntry>) -> bool {
    forall|h: u64| #![trigger tt_lookup(c, h)] entry_in_range(tt_lookup(c, h))
}

/// Relies on `chess::CacheTable::new`: it fills every slot with the
/// default entry under the recorded hash 0, so probing hash 0 answers
/// the default entry and every other hash misses; it panics unless the
/// size is a power of two.
#[verifier::external_body]
pub(crate) fn tt_new(size: usize, default: CacheEntry) -> (r: chess::CacheTable<CacheEntry>)
    requires
        is_pow2(size as int),
    ensures
        forall|h: u64|
            #![trigger tt_lookup(r, h)]
            tt_lookup(r, h) == (if h == 0 {
                Some(default)
            } else {
                None::<CacheEntry>
            }),
{
    chess::CacheTable::new(size, default)
}

/// Relies on `chess::CacheTable::get`: answers the entry in the hash's
/// slot when the slot records that hash.
#[verifier::external_body]
pub(crate) fn tt_get(c: &chess::CacheTable<CacheEntry>, h: u64) -> (r: Option<CacheEntry>)
    ensures
        r == tt_lookup(*c, h),
{
    c.get(h)
}

/// Relies on `chess::CacheTable::add`: overwrites the hash's slot, so
/// the hash now answers the entry; any other hash answers what it did
/// before, or misses if it shared the overwritten slot.
#[verifier::external_body]
pub(crate) fn tt_add(c: &mut chess::CacheTable<CacheEntry>, h: u64, e: CacheEntry)
    ensures
        tt_lookup(*final(c), h) == Some(e),
        forall|h2: u64|
            #![trigger tt_lookup(*final(c), h2)]
            h2 != h ==> (tt_lookup(*final(c), h2) == tt_lookup(*old(c), h2) || tt_lookup(
                *final(c),
                h2,
            ) is None),
{
    c.add(h, e)
}

/// Whether a cached entry can stand in for searching this node: it
/// must be at least as deep as the remaining depth, and its stored move
/// must be legal here; an entry failing either test is treated as a
/// missed probe (a hash collision).
pub open spec fn spec_usable_hit(o: Option<CacheEntry>, b: chess::Board, depth_left: int) -> bool {
    match o {
        Some(e) => e.depth >= depth_left && legal_moves_of(b).contains(e.chess_move),
        None => false,
    }
}

/// Negamax alpha-beta search of a position.
///
/// Returns `(score, pv, nodes, cancelled)`.  The score is fail-hard
/// within the `alpha..beta` window.  A cancelled return carries no
/// usable score or variation.  The cancel latch is polled at every node
/// before any child is expanded.  A cached entry is used only after its
/// stored move is revalidated as legal; a failed probe is a miss, and
/// the node is searched normally and its outcome stored.
///
/// Terminal and horizon nodes answer exactly the spec-level
/// `spec_negamax` value.  At searched nodes the table stands in for
/// whole subtrees, so the returned score is tied to the entry stored
/// under the position's hash rather than to `spec_negamax`: an entry
/// searched deeper than asked substitutes a deeper score, and a hash
/// collision whose stored move happens to be legal here can substitute
/// another position's score.  The pruning laws themselves are proved of
/// the table-free calculus (`lemma_alphabeta_window` and its
/// corollaries), which this function's move loop follows.
pub fn alphabeta(
    board: &chess::Board,
    alpha: i32,
    beta: i32,
    cancel_receiver: &Receiver<bool>,
    depth_left: usize,
    ply: usize,
    cache: &mut chess::CacheTable<CacheEntry>,
) -> (r: (i32, Vec<chess::ChessMove>, u32, bool))
    requires
        -MAX_CP_SCORE <= alpha < beta <= MAX_CP_SCORE,
        depth_left + ply <= PLY_LIMIT,
        tt_wf(*old(cache)),
    ensures
        tt_wf(*final(cache)),
        r.2 >= 1,
        r.3 ==> r.0 == 0 && r.1@.len() == 0 && r.2 == 1,
        !r.3 ==> -MAX_CP_SCORE <= r.0 <= MAX_CP_SCORE,
        !r.3 && ply >= 1 ==> -MAX_CP_SCORE < r.0 < MAX_CP_SCORE,
        !r.3 && board_status_of(*board) == GameStatus::Ongoing && depth_left >= 1 ==> r.1@.len()
            >= 1 && legal_moves_of(*board).contains(r.1@[0]),
        // a usable probe that decides the node answers the stored entry,
        // without expanding children and without writing the table
        !r.3 ==> match tt_lookup(*old(cache), board_hash_of(*board)) {
            Some(e) => (e.depth >= depth_left && legal_moves_of(*board).contains(e.chess_move) && (
            e.flag == AlphaBetaFlag::Exact || (e.flag == AlphaBetaFlag::LowerBound && e.value
                >= beta) || (e.flag == AlphaBetaFlag::UpperBound && e.value <= alpha))) ==> (r.0
                == e.value && r.1@ == seq![e.chess_move] && r.2 == 1 && *final(cache) == *old(
                cache,
            )),
            None => true,
        },
        // terminal and horizon nodes answer the spec-level value exactly
        !r.3 && !spec_usable_hit(
            tt_lookup(*old(cache), board_hash_of(*board)),
            *board,
            depth_left as int,
        ) ==> {
            &&& board_status_of(*board) != GameStatus::Ongoing ==> r.0 as int == spec_negamax(
                *board,
                depth_left as nat,
                ply as nat,
            ) && r.1@.len() == 0 && r.2 == 1 && *final(cache) == *old(cache)
            &&& board_status_of(*board) == GameStatus::Ongoing && depth_left == 0 ==> r.0 as int
                == spec_negamax(*board, depth_left as nat, ply as nat) && r.1@.len() == 0 && r.2
                == 1 && *final(cache) == *old(cache)
        },
        // after an uncancelled search of an ongoing node, the position's
        // hash answers an entry carrying the returned score and move
        !r.3 && board_status_of(*board) == GameStatus::Ongoing && depth_left >= 1 ==> match
            tt_lookup(*final(cache), board_hash_of(*board)) {
            Some(e) => e.value == r.0 && e.depth >= depth_left && e.chess_move == r.1@[0],
            None => false,
        },
        // on a missed probe the stored entry is exactly the node's
        // outcome, its flag read off the original window
        !r.3 && board_status_of(*board) == GameStatus::Ongoing && depth_left >= 1
            && !spec_usable_hit(
            tt_lookup(*old(cache), board_hash_of(*board)),
            *board,
            depth_left as int,
        ) ==> tt_lookup(*final(cache), board_hash_of(*board)) == Some(
            (CacheEntry {
                chess_move: r.1@[0],
                depth: depth_left,
                flag: if r.0 <= alpha {
                    AlphaBetaFlag::UpperBound
                } else if r.0 >= beta {
                    AlphaBetaFlag::LowerBound
                } else {
                    AlphaBetaFlag::Exact
                },
                value: r.0,
            }),
        ),
    decreases depth_left,
{
    if cancel_requested(cancel_receiver) {
        return (0, Vec::new(), 1, true);
    }
    let mut cur_alpha = alpha;
    let mut cur_beta = beta;
    let hash = board_hash(board);
    let ghost usable0 = spec_usable_hit(
        tt_lookup(*old(cache), board_hash_of(*board)),
        *board,
        depth_left as int,
    );

    match tt_get(&*cache, hash) {
        Some(entry) => {
            if entry.depth >= depth_left && is_legal(board, entry.chess_move) {
                match entry.flag {
                    AlphaBetaFlag::Exact => {
                        let mut pv: Vec<chess::ChessMove> = Vec::new();
                        pv.push(entry.chess_move);
                        return (entry.value, pv, 1, false);
                    },
                    AlphaBetaFlag::LowerBound => {
                        if entry.value > cur_alpha {
                            cur_alpha = entry.value;
                        }
                    },
                    AlphaBetaFlag::UpperBound => {
                        if entry.value < cur_beta {
                            cur_beta = entry.value;
                        }
                    },
                }
                if cur_alpha >= cur_beta {
                    let mut pv: Vec<chess::ChessMove> = Vec::new();
                    pv.push(entry.chess_move);
                    return (entry.value, pv, 1, false);
                }
            }
        },
        None => {},
    }

    match board_status(board) {
        GameStatus::Stalemate => {
            return (0, Vec::new(), 1, false);
        },
        GameStatus::Checkmate => {
            return (-MAX_CP_SCORE + ply as i32, Vec::new(), 1, false);
        },
        GameStatus::Ongoing => {},
    }

    if depth_left == 0 {
        let score = evaluate_position(board);
        return (score, Vec::new(), 1, false);
    }

    let moves = legal_moves(board);
    let mut best_score: i32 = -MAX_CP_SCORE;
    let mut best_pv: Vec<chess::ChessMove> = Vec::new();
    let mut nodes: u32 = 0;
    let mut i: usize = 0;
    let mut cut = false;

    while i < moves.len() && !cut
        invariant
            moves@ == legal_moves_of(*board),
            1 <= moves@.len() <= 4608,
            0 <= i <= moves@.len(),
            depth_left + ply <= PLY_LIMIT,
            depth_left >= 1,
            tt_wf(*cache),
            hash == board_hash_of(*board),
            usable0 == spec_usable_hit(tt_lookup(*old(cache), hash), *board, depth_left as int),
            !usable0 ==> cur_beta == beta,
            -MAX_CP_SCORE <= cur_alpha < MAX_CP_SCORE,
            cur_beta <= MAX_CP_SCORE,
            !cut ==> cur_alpha < cur_beta,
            i == 0 ==> best_score == -MAX_CP_SCORE && best_pv@.len() == 0,
            i > 0 ==> cur_alpha > -MAX_CP_SCORE,
            i > 0 ==> best_score > -MAX_CP_SCORE && best_pv@.len() >= 1 && legal_moves_of(
                *board,
            ).contains(best_pv@[0]),
            i > 0 ==> nodes >= 1,
            cut ==> i > 0,
        decreases moves@.len() - i,
    {
        if cancel_requested(cancel_receiver) {
            return (0, Vec::new(), 1, true);
        }
        let mv = moves[i];
        assert(legal_moves_of(*board).contains(mv));
        let child = make_move(board, mv);
        let (child_score, child_pv, child_nodes, child_cancelled) = alphabeta(
            &child,
            -cur_beta,
            -cur_alpha,
            cancel_receiver,
            depth_left - 1,
            ply + 1,
            cache,
        );
        if child_cancelled {
            return (0, Vec::new(), 1, true);
        }
        let new_score = -child_score;
        nodes = if nodes > u32::MAX - child_nodes {
            u32::MAX
        } else {
            nodes + child_nodes
        };
        if new_score > best_score {
            best_pv = child_pv;
            best_pv.insert(0, mv);
            best_score = new_score;
        }
        if new_score > cur_alpha {
            cur_alpha = new_score;
        }
        if cur_alpha >= cur_beta {
            cut = true;
        }
        i = i + 1;
    }

    let entry = CacheEntry {
        chess_move: best_pv[0],
        depth: depth_left,
        flag: if cur_alpha <= alpha {
            AlphaBetaFlag::UpperBound
        } else if cur_alpha >= cur_beta {
            AlphaBetaFlag::LowerBound
        } else {
            AlphaBetaFlag::Exact
        },
        value: cur_alpha,
    };
    tt_add(cache, hash, entry);
    (cur_alpha, best_pv, nodes, false)
}

/// The outcome of one completed full-window iteration of the deepening
/// driver.
pub struct IterationOutcome {
    pub score: i32,
    pub pv: Seq<chess::ChessMove>,
    pub nodes: u32,
}

/// The node counts of the iterations, summed with the same clamping the
/// driver applies.
pub open spec fn spec_nodes_sum(s: Seq<IterationOutcome>) -> int
    decreases s.len(),
{
    if s.len() == 0 {
        0
    } else {
        let p = spec_nodes_sum(s.drop_last());
        if p + s.last().nodes > u32::MAX {
            u32::MAX as int
        } else {
            p + s.last().nodes
        }
    }
}

/// What the deepening driver reports: the score and principal variation
/// of the deepest completed iteration, with node, rate and time counts.
/// The ghost `iterations` field logs every completed iteration's
/// outcome, shallowest first.
pub struct SearchInfo {
    pub score: i32,
    pub pv: Vec<chess::ChessMove>,
    pub nodes: u32,
    pub nps: u32,
    pub depth: usize,
    pub time_ms: u64,
    pub iterations: Ghost<Seq<IterationOutcome>>,
}

/// A sink for per-depth progress reports and the final report of a
/// search.
pub trait SearchReporter {
    fn report(&mut self, info: &SearchInfo);
}

/// Nodes per second, from a node count and elapsed milliseconds, clamped
/// into `u32`; a zero elapsed time counts as one millisecond.
pub open spec fn spec_nps(nodes: int, ms: int) -> int {
    let d = if ms == 0 {
        1
    } else {
        ms
    };
    let v = nodes * 1000 / d;
    if v > u32::MAX {
        u32::MAX as int
    } else {
        v
    }
}

pub fn nps_value(nodes: u32, ms: u64) -> (r: u32)
    ensures
        r as int == spec_nps(nodes as int, ms as int),
{
    let denom: u64 = if ms == 0 {
        1
    } else {
        ms
    };
    let v: u64 = nodes as u64 * 1000 / denom;
    if v > u32::MAX as u64 {
        u32::MAX
    } else {
        v as u32
    }
}

/// Iterative deepening: search at depths 1, 2, 3, … until cancelled or
/// the depth cap is reached, reporting progress after each completed
/// iteration and once more at the end.
///
/// A cancelled iteration is discarded whole: the result is the deepest
/// fully completed iteration's outcome, the last entry of the ghost
/// iteration log, and the node count is the clamped sum of the logged
/// iterations' counts.  When nothing completed the result is the empty
/// one.  On an over position every completed iteration answers the
/// spec-level terminal value, so the result does too.
pub fn iterative_deepening<S: SearchReporter>(
    board: &chess::Board,
    max_depth: Option<usize>,
    cancel_receiver: Receiver<bool>,
    output: &mut S,
) -> (r: SearchInfo)
    ensures
        r.depth >= 1,
        match max_depth {
            Some(d) => r.depth == 1 || r.depth <= d,
            None => r.depth <= MAX_SEARCH_DEPTH,
        },
        r.nodes == 0 ==> r.score == 0 && r.pv@.len() == 0 && r.depth == 1,
        (r.iterations@.len() >= 1) == (r.nodes >= 1),
        r.iterations@.len() >= 1 ==> {
            &&& r.score == r.iterations@.last().score
            &&& r.pv@ == r.iterations@.last().pv
            &&& r.depth == r.iterations@.len()
        },
        r.nodes as int == spec_nodes_sum(r.iterations@),
        forall|j: int|
            0 <= j < r.iterations@.len() ==> {
                let it = #[trigger] r.iterations@[j];
                &&& -MAX_CP_SCORE <= it.score <= MAX_CP_SCORE
                &&& it.nodes >= 1
                &&& (board_status_of(*board) == GameStatus::Ongoing ==> it.pv.len() >= 1
                    && legal_moves_of(*board).contains(it.pv[0]))
            },
        r.nodes >= 1 ==> -MAX_CP_SCORE <= r.score <= MAX_CP_SCORE,
        r.nodes >= 1 && board_status_of(*board) == GameStatus::Ongoing ==> r.pv@.len() >= 1
            && legal_moves_of(*board).contains(r.pv@[0]),
        legal_moves_of(*board).len() == 0 && board_status_of(*board) == GameStatus::Checkmate
            && r.nodes >= 1 ==> r.score == -MAX_CP_SCORE && r.pv@.len() == 0,
        legal_moves_of(*board).len() == 0 && board_status_of(*board) == GameStatus::Stalemate
            && r.nodes >= 1 ==> r.score == 0 && r.pv@.len() == 0,
        r.nps as int == spec_nps(r.nodes as int, r.time_ms as int),
{
    let start = clock_now();
    proof {
        reveal_with_fuel(is_pow2, 25);
        assert(is_pow2(TT_SIZE as int));
    }
    let mut cache = tt_new(TT_SIZE, CacheEntry::default());
    let mut result = SearchInfo {
        score: 0,
        pv: Vec::new(),
        nodes: 0,
        nps: 0,
        depth: 1,
        time_ms: 0,
        iterations: Ghost(Seq::empty()),
    };
    let cap = match max_depth {
        Some(d) => if d > PLY_LIMIT {
            PLY_LIMIT
        } else {
            d
        },
        None => MAX_SEARCH_DEPTH,
    };
    let mut depth: usize = 1;
    while depth <= cap
        invariant
            1 <= depth <= cap + 1,
            cap <= PLY_LIMIT,
            (match max_depth {
                Some(d) => cap <= d,
                None => cap == MAX_SEARCH_DEPTH,
            }),
            tt_wf(cache),
            result.iterations@.len() + 1 == depth,
            (result.iterations@.len() >= 1) == (result.nodes >= 1),
            result.nodes == 0 ==> result.score == 0 && result.pv@.len() == 0 && result.depth == 1,
            result.iterations@.len() >= 1 ==> {
                &&& result.score == result.iterations@.last().score
                &&& result.pv@ == result.iterations@.last().pv
                &&& result.depth == result.iterations@.len()
            },
            result.nodes as int == spec_nodes_sum(result.iterations@),
            forall|j: int|
                0 <= j < result.iterations@.len() ==> {
                    let it = #[trigger] result.iterations@[j];
                    &&& -MAX_CP_SCORE <= it.score <= MAX_CP_SCORE
                    &&& it.nodes >= 1
                    &&& (board_status_of(*board) == GameStatus::Ongoing ==> it.pv.len() >= 1
                        && legal_moves_of(*board).contains(it.pv[0]))
                },
            result.depth >= 1,
            legal_moves_of(*board).len() == 0 && board_status_of(*board) == GameStatus::Checkmate
                && result.nodes >= 1 ==> result.score == -MAX_CP_SCORE && result.pv@.len() == 0,
            legal_moves_of(*board).len() == 0 && board_status_of(*board) == GameStatus::Stalemate
                && result.nodes >= 1 ==> result.score == 0 && result.pv@.len() == 0,
        ensures
            result.depth >= 1,
            result.iterations@.len() >= 1 ==> result.depth <= cap,
            result.nodes == 0 ==> result.score == 0 && result.pv@.len() == 0 && result.depth == 1,
            (result.iterations@.len() >= 1) == (result.nodes >= 1),
            result.iterations@.len() >= 1 ==> {
                &&& result.score == result.iterations@.last().score
                &&& result.pv@ == result.iterations@.last().pv
                &&& result.depth == result.iterations@.len()
            },
            result.nodes as int == spec_nodes_sum(result.iterations@),
            forall|j: int|
                0 <= j < result.iterations@.len() ==> {
                    let it = #[trigger] result.iterations@[j];
                    &&& -MAX_CP_SCORE <= it.score <= MAX_CP_SCORE
                    &&& it.nodes >= 1
                    &&& (board_status_of(*board) == GameStatus::Ongoing ==> it.pv.len() >= 1
                        && legal_moves_of(*board).contains(it.pv[0]))
                },
            legal_moves_of(*board).len() == 0 && board_status_of(*board) == GameStatus::Checkmate
                && result.nodes >= 1 ==> result.score == -MAX_CP_SCORE && result.pv@.len() == 0,
            legal_moves_of(*board).len() == 0 && board_status_of(*board) == GameStatus::Stalemate
                && result.nodes >= 1 ==> result.score == 0 && result.pv@.len() == 0,
        decreases cap + 1 - depth,
    {
        let (score, pv, n, cancelled) = alphabeta(
            board,
            -MAX_CP_SCORE,
            MAX_CP_SCORE,
            &cancel_receiver,
            depth,
            0,
            &mut cache,
        );
        if cancelled {
            break ;
        }
        let ghost logged_pv = pv@;
        result.score = score;
        result.pv = pv;
        result.nodes = if result.nodes > u32::MAX - n {
            u32::MAX
        } else {
            result.nodes + n
        };
        result.depth = depth;
        result.time_ms = millis_since(&start);
        proof {
            let prior = result.iterations@;
            assert(prior.push(
                IterationOutcome { score, pv: logged_pv, nodes: n },
            ).drop_last() =~= prior);
        }
        result.iterations = Ghost(
            result.iterations@.push(IterationOutcome { score, pv: logged_pv, nodes: n }),
        );
        output.report(&result);
        depth = depth + 1;
    }
    result.time_ms = millis_since(&start);
    result.nps = nps_value(result.nodes, result.time_ms);
    output.report(&result);
    result
}

/// The perft value: the number of leaves of the legal move tree at the
/// given depth; at depth 1 (or 0) the number of legal moves.
pub open spec fn spec_perft(b: chess::Board, depth: nat) -> nat
    decreases depth, legal_moves_of(b).len() + 1,
{
    if depth <= 1 {
        legal_moves_of(b).len()
    } else {
        spec_perft_children(b, legal_moves_of(b), depth)
    }
}

pub open spec fn spec_perft_children(b: chess::Board, moves: Seq<chess::ChessMove>, depth: nat) -> nat
    decreases depth, moves.len(),
{
    if depth <= 1 || moves.len() == 0 {
        0
    } else {
        spec_perft_children(b, moves.drop_last(), depth) + spec_perft(
            child_of(b, moves.last()),
            (depth - 1) as nat,
        )
    }
}

/// Count the leaves of the legal move tree at the given depth, clamping
/// at `u64::MAX`.
pub fn perft(board: &chess::Board, depth: usize) -> (r: u64)
    ensures
        r as int == (if spec_perft(*board, depth as nat) <= u64::MAX {
            spec_perft(*board, depth as nat) as int
        } else {
            u64::MAX as int
        }),
    decreases depth,
{
    let moves = legal_moves(board);
    if depth <= 1 {
        return moves.len() as u64;
    }
    let mut total: u64 = 0;
    let mut i: usize = 0;
    while i < moves.len()
        invariant
            moves@ == legal_moves_of(*board),
            0 <= i <= moves@.len(),
            depth >= 2,
            total as int == (if spec_perft_children(*board, moves@.take(i as int), depth as nat)
                <= u64::MAX {
                spec_perft_children(*board, moves@.take(i as int), depth as nat) as int
            } else {
                u64::MAX as int
            }),
        decreases moves@.len() - i,
    {
        let mv = moves[i];
        assert(legal_moves_of(*board).contains(mv));
        let child = make_move(board, mv);
        let child_count = perft(&child, depth - 1);
        proof {
            assert(moves@.take(i + 1 as int).drop_last() =~= moves@.take(i as int));
            assert(moves@.take(i + 1 as int).last() == moves@[i as int]);
        }
        total = if total > u64::MAX - child_count {
            u64::MAX
        } else {
            total + child_count
        };
        i = i + 1;
    }
    proof {
        assert(moves@.take(moves@.len() as int) =~= moves@);
    }
    total
}


// ---------------------------------------------------------------------
// The search calculus: the unpruned negamax value of a position, the
// pruned fail-hard value, and the laws that relate them.

/// The facts the trusted wrappers state of every single position,
/// lifted to the whole model: the static evaluation stays inside its
/// band, and a position is ongoing exactly when it has a legal move.
pub open spec fn spec_model_consistent() -> bool {
    &&& forall|b: chess::Board|
        -EVAL_BOUND <= #[trigger] spec_evaluate(b) <= EVAL_BOUND
    &&& forall|b: chess::Board|
        (board_status_of(b) == GameStatus::Ongoing) == (#[trigger] legal_moves_of(b).len() > 0)
}

/// The unpruned negamax value of a position: the exact score of the
/// bounded game tree, checkmate and stalemate scored at the node, the
/// static evaluation at the horizon, and otherwise the best negated
/// child value.
pub open spec fn spec_negamax(b: chess::Board, depth: nat, ply: nat) -> int
    decreases depth, legal_moves_of(b).len() + 1,
{
    match board_status_of(b) {
        GameStatus::Checkmate => ply - MAX_CP_SCORE,
        GameStatus::Stalemate => 0,
        GameStatus::Ongoing => if depth == 0 {
            spec_evaluate(b)
        } else {
            spec_negamax_best(b, legal_moves_of(b), depth, ply)
        },
    }
}

/// The best negated child value over a list of moves; the empty list
/// gives the mate floor.
pub open spec fn spec_negamax_best(
    b: chess::Board,
    moves: Seq<chess::ChessMove>,
    depth: nat,
    ply: nat,
) -> int
    decreases depth, moves.len(),
{
    if moves.len() == 0 || depth == 0 {
        -MAX_CP_SCORE as int
    } else {
        let v1 = -spec_negamax(child_of(b, moves[0]), (depth - 1) as nat, ply + 1);
        let rest = spec_negamax_best(b, moves.drop_first(), depth, ply);
        if v1 > rest {
            v1
        } else {
            rest
        }
    }
}

/// The fail-hard alpha-beta value of a position: as the searcher's main
/// loop computes it, without a transposition table.
pub open spec fn spec_alphabeta(b: chess::Board, alpha: int, beta: int, depth: nat, ply: nat) -> int
    decreases depth, legal_moves_of(b).len() + 1,
{
    match board_status_of(b) {
        GameStatus::Checkmate => ply - MAX_CP_SCORE,
        GameStatus::Stalemate => 0,
        GameStatus::Ongoing => if depth == 0 {
            spec_evaluate(b)
        } else {
            spec_alphabeta_moves(b, legal_moves_of(b), alpha, beta, depth, ply)
        },
    }
}

/// The searcher's move loop: raise alpha by each negated child value in
/// turn and stop at a cutoff.
pub open spec fn spec_alphabeta_moves(
    b: chess::Board,
    moves: Seq<chess::ChessMove>,
    alpha: int,
    beta: int,
    depth: nat,
    ply: nat,
) -> int
    decreases depth, moves.len(),
{
    if moves.len() == 0 || depth == 0 {
        alpha
    } else {
        let s = -spec_alphabeta(child_of(b, moves[0]), -beta, -alpha, (depth - 1) as nat, ply + 1);
        let a2 = if s > alpha {
            s
        } else {
            alpha
        };
        if a2 >= beta {
            a2
        } else {
            spec_alphabeta_moves(b, moves.drop_first(), a2, beta, depth, ply)
        }
    }
}

proof fn lemma_alphabeta_moves_window(
    b: chess::Board,
    moves: Seq<chess::ChessMove>,
    alpha: int,
    beta: int,
    depth: nat,
    ply: nat,
)
    requires
        -MAX_CP_SCORE <= alpha < beta <= MAX_CP_SCORE,
        depth >= 1,
    ensures
        ({
            let v = spec_negamax_best(b, moves, depth, ply);
            let r = spec_alphabeta_moves(b, moves, alpha, beta, depth, ply);
            &&& v <= alpha ==> r == alpha
            &&& v >= beta ==> r >= beta
            &&& alpha < v < beta ==> r == v
        }),
    decreases depth, moves.len(),
{
    if moves.len() == 0 {
    } else {
        let child = child_of(b, moves[0]);
        let vc = spec_negamax(child, (depth - 1) as nat, ply + 1);
        let rc = spec_alphabeta(child, -beta, -alpha, (depth - 1) as nat, ply + 1);
        lemma_alphabeta_window(child, -beta, -alpha, (depth - 1) as nat, ply + 1);
        let v1 = -vc;
        let s = -rc;
        let a2 = if s > alpha {
            s
        } else {
            alpha
        };
        let v_rest = spec_negamax_best(b, moves.drop_first(), depth, ply);
        if a2 >= beta {
            assert(v1 >= beta);
        } else {
            lemma_alphabeta_moves_window(b, moves.drop_first(), a2, beta, depth, ply);
            if v1 <= alpha {
                assert(a2 == alpha);
            } else {
                assert(alpha < v1 < beta);
                assert(s == v1 && a2 == v1);
            }
        }
    }
}

/// Alpha-beta pruning is sound: against the unpruned negamax value, a
/// fail-hard search answers alpha when the value is at or below the
/// window, at least beta when it is at or above it, and the value
/// itself when the window brackets it.
pub proof fn lemma_alphabeta_window(b: chess::Board, alpha: int, beta: int, depth: nat, ply: nat)
    requires
        -MAX_CP_SCORE <= alpha < beta <= MAX_CP_SCORE,
    ensures
        ({
            let v = spec_negamax(b, depth, ply);
            let r = spec_alphabeta(b, alpha, beta, depth, ply);
            &&& v <= alpha ==> r <= alpha
            &&& v >= beta ==> r >= beta
            &&& alpha < v < beta ==> r == v
        }),
    decreases depth, legal_moves_of(b).len() + 2,
{
    if board_status_of(b) == GameStatus::Ongoing && depth >= 1 {
        lemma_alphabeta_moves_window(b, legal_moves_of(b), alpha, beta, depth, ply);
    }
}

/// Full-window equivalence: searched over the whole mate band, the
/// pruned search answers exactly the unpruned negamax value, whenever
/// that value lies strictly inside the band.
pub proof fn lemma_full_window_matches_negamax(b: chess::Board, depth: nat, ply: nat)
    requires
        -MAX_CP_SCORE < spec_negamax(b, depth, ply) < MAX_CP_SCORE,
    ensures
        spec_alphabeta(b, -MAX_CP_SCORE as int, MAX_CP_SCORE as int, depth, ply) == spec_negamax(
            b,
            depth,
            ply,
        ),
{
    lemma_alphabeta_window(b, -MAX_CP_SCORE as int, MAX_CP_SCORE as int, depth, ply);
}

/// Window-narrowing equivalence: any window that still brackets the
/// true score answers that same score, so narrowing the window around
/// the full-window score does not change it.
pub proof fn lemma_narrowed_window_keeps_score(
    b: chess::Board,
    alpha: int,
    beta: int,
    depth: nat,
    ply: nat,
)
    requires
        -MAX_CP_SCORE <= alpha < beta <= MAX_CP_SCORE,
        alpha < spec_negamax(b, depth, ply) < beta,
    ensures
        spec_alphabeta(b, alpha, beta, depth, ply) == spec_negamax(b, depth, ply),
        spec_alphabeta(b, alpha, beta, depth, ply) == spec_alphabeta(
            b,
            -MAX_CP_SCORE as int,
            MAX_CP_SCORE as int,
            depth,
            ply,
        ),
{
    lemma_alphabeta_window(b, alpha, beta, depth, ply);
    lemma_full_window_matches_negamax(b, depth, ply);
}

proof fn lemma_negamax_best_band(
    b: chess::Board,
    moves: Seq<chess::ChessMove>,
    depth: nat,
    ply: nat,
)
    requires
        spec_model_consistent(),
        moves.len() >= 1,
        depth >= 1,
        ply + depth <= PLY_LIMIT,
    ensures
        ply + 2 - MAX_CP_SCORE <= spec_negamax_best(b, moves, depth, ply) <= MAX_CP_SCORE - ply
            - 1,
    decreases depth, moves.len(),
{
    let child = child_of(b, moves[0]);
    lemma_negamax_band(child, (depth - 1) as nat, ply + 1);
    if moves.len() > 1 {
        lemma_negamax_best_band(b, moves.drop_first(), depth, ply);
    } else {
        assert(moves.drop_first().len() == 0);
        assert(spec_negamax_best(b, moves.drop_first(), depth, ply) == -MAX_CP_SCORE as int);
    }
}

/// Every negamax value stays inside the mate band: no score is better
/// than a mate at the next ply nor worse than a mate at this one.
pub proof fn lemma_negamax_band(b: chess::Board, depth: nat, ply: nat)
    requires
        spec_model_consistent(),
        ply + depth <= PLY_LIMIT,
    ensures
        ply - MAX_CP_SCORE <= spec_negamax(b, depth, ply) <= MAX_CP_SCORE - ply - 1,
    decreases depth, legal_moves_of(b).len() + 2,
{
    if board_status_of(b) == GameStatus::Ongoing && depth >= 1 {
        assert(legal_moves_of(b).len() > 0);
        lemma_negamax_best_band(b, legal_moves_of(b), depth, ply);
    }
}

proof fn lemma_negamax_best_ge_member(
    b: chess::Board,
    moves: Seq<chess::ChessMove>,
    depth: nat,
    ply: nat,
    i: int,
)
    requires
        0 <= i < moves.len(),
        depth >= 1,
    ensures
        spec_negamax_best(b, moves, depth, ply) >= -spec_negamax(
            child_of(b, moves[i]),
            (depth - 1) as nat,
            ply + 1,
        ),
    decreases moves.len(),
{
    if i > 0 {
        lemma_negamax_best_ge_member(b, moves.drop_first(), depth, ply, i - 1);
        assert(moves.drop_first()[i - 1] == moves[i]);
    }
}

/// A position with a mating move is worth exactly a mate at the next
/// ply: no faster win exists, and the mating move achieves this one.
pub proof fn lemma_mate_in_one_value(
    b: chess::Board,
    m: chess::ChessMove,
    depth: nat,
    ply: nat,
)
    requires
        spec_model_consistent(),
        legal_moves_of(b).contains(m),
        board_status_of(child_of(b, m)) == GameStatus::Checkmate,
        depth >= 1,
        ply + depth <= PLY_LIMIT,
    ensures
        spec_negamax(b, depth, ply) == MAX_CP_SCORE - ply - 1,
{
    assert(legal_moves_of(b).len() > 0);
    assert(board_status_of(b) == GameStatus::Ongoing);
    let i = choose|i: int| 0 <= i < legal_moves_of(b).len() && legal_moves_of(b)[i] == m;
    lemma_negamax_best_ge_member(b, legal_moves_of(b), depth, ply, i);
    assert(spec_negamax(child_of(b, m), (depth - 1) as nat, ply + 1) == ply + 1 - MAX_CP_SCORE);
    lemma_negamax_band(b, depth, ply);
}

/// No immediate mate caps the value one ply lower: when none of a
/// position's moves gives checkmate at once, the position is worth at
/// most a mate two plies out.
pub proof fn lemma_no_mate_in_one_bound(b: chess::Board, depth: nat, ply: nat)
    requires
        spec_model_consistent(),
        forall|m: chess::ChessMove|
            legal_moves_of(b).contains(m) ==> board_status_of(#[trigger] child_of(b, m))
                != GameStatus::Checkmate,
        ply + depth <= PLY_LIMIT,
    ensures
        spec_negamax(b, depth, ply) <= MAX_CP_SCORE - ply - 2,
{
    match board_status_of(b) {
        GameStatus::Checkmate => {},
        GameStatus::Stalemate => {},
        GameStatus::Ongoing => {
            if depth >= 1 {
                lemma_no_mate_children_bound(b, legal_moves_of(b), depth, ply);
            }
        },
    }
}

proof fn lemma_nonmate_child_floor(c: chess::Board, depth: nat, ply: nat)
    requires
        spec_model_consistent(),
        board_status_of(c) != GameStatus::Checkmate,
        ply + depth <= PLY_LIMIT,
        ply >= 1,
    ensures
        spec_negamax(c, depth, ply) >= ply + 1 - MAX_CP_SCORE,
{
    match board_status_of(c) {
        GameStatus::Checkmate => {},
        GameStatus::Stalemate => {},
        GameStatus::Ongoing => {
            if depth >= 1 {
                assert(legal_moves_of(c).len() > 0);
                lemma_negamax_best_band(c, legal_moves_of(c), depth, ply);
            }
        },
    }
}

proof fn lemma_no_mate_children_bound(
    b: chess::Board,
    moves: Seq<chess::ChessMove>,
    depth: nat,
    ply: nat,
)
    requires
        spec_model_consistent(),
        forall|m: chess::ChessMove|
            legal_moves_of(b).contains(m) ==> board_status_of(#[trigger] child_of(b, m))
                != GameStatus::Checkmate,
        forall|i: int| 0 <= i < moves.len() ==> legal_moves_of(b).contains(#[trigger] moves[i]),
        depth >= 1,
        ply + depth <= PLY_LIMIT,
    ensures
        spec_negamax_best(b, moves, depth, ply) <= MAX_CP_SCORE - ply - 2,
    decreases depth, moves.len(),
{
    if moves.len() > 0 {
        let child = child_of(b, moves[0]);
        lemma_nonmate_child_floor(child, (depth - 1) as nat, ply + 1);
        assert(forall|i: int|
            0 <= i < moves.drop_first().len() ==> legal_moves_of(b).contains(
                #[trigger] moves.drop_first()[i],
            ));
        lemma_no_mate_children_bound(b, moves.drop_first(), depth, ply);
    }
}

/// Mate-distance ordering: the search prefers the shallower win.  A
/// position with a mate at the next ply outranks any position none of
/// whose moves mates at once.
pub proof fn lemma_prefers_faster_mate(
    b1: chess::Board,
    m: chess::ChessMove,
    b2: chess::Board,
    d1: nat,
    d2: nat,
)
    requires
        spec_model_consistent(),
        legal_moves_of(b1).contains(m),
        board_status_of(child_of(b1, m)) == GameStatus::Checkmate,
        d1 >= 1,
        d1 <= PLY_LIMIT,
        d2 <= PLY_LIMIT,
        forall|m2: chess::ChessMove|
            legal_moves_of(b2).contains(m2) ==> board_status_of(#[trigger] child_of(b2, m2))
                != GameStatus::Checkmate,
    ensures
        spec_negamax(b1, d1, 0) > spec_negamax(b2, d2, 0),
{
    lemma_mate_in_one_value(b1, m, d1, 0);
    lemma_no_mate_in_one_bound(b2, d2, 0);
}

} // verus!
