//! Static evaluation: centipawn score of a position from the side to
//! move's point of view.
//!
//! The evaluator reads a position through a plain snapshot, an
//! `EvalInput`: for each side the square lists of its pieces by kind and
//! its mobility, plus the side to move.  The arithmetic on the snapshot
//! is verified exactly; the snapshot itself is drawn from the
//! collaborator's position through the trusted wrappers.

use vstd::prelude::*;
use crate::types::{Color, PieceType};
use crate::weights;
use crate::weights::{PAIR_MOD_BISHOP, PAIR_MOD_KNIGHT, PAIR_MOD_ROOK, MOBILITY_MOD, TEMPO_MOD};
use crate::chessapi::{
    side_to_move_of, legal_moves_of, null_move_of, piece_squares_of, piece_squares,
    board_side_to_move, board_null_move, legal_moves,
};

verus! {

/// The magnitude of a checkmate score; every static evaluation stays
/// strictly below it.
pub const MAX_CP_SCORE: i32 = 1000000;

/// The whole static evaluation lies in -EVAL_BOUND..=EVAL_BOUND.
pub const EVAL_BOUND: i32 = 600000;

/// One side's pieces, as square indices (0..64, file-first from a1) per
/// kind, together with that side's mobility.
pub struct SidePieces {
    pub pawns: Vec<u8>,
    pub knights: Vec<u8>,
    pub bishops: Vec<u8>,
    pub rooks: Vec<u8>,
    pub queens: Vec<u8>,
    pub kings: Vec<u8>,
    pub mobility: u32,
}

#[verifier::ext_equal]
pub struct SideView {
    pub pawns: Seq<u8>,
    pub knights: Seq<u8>,
    pub bishops: Seq<u8>,
    pub rooks: Seq<u8>,
    pub queens: Seq<u8>,
    pub kings: Seq<u8>,
    pub mobility: int,
}

impl View for SidePieces {
    type V = SideView;

    open spec fn view(&self) -> SideView {
        SideView {
            pawns: self.pawns@,
            knights: self.knights@,
            bishops: self.bishops@,
            rooks: self.rooks@,
            queens: self.queens@,
            kings: self.kings@,
            mobility: self.mobility as int,
        }
    }
}

impl SideView {
    pub open spec fn squares(self, piece_type: PieceType) -> Seq<u8> {
        match piece_type {
            PieceType::Pawn => self.pawns,
            PieceType::Knight => self.knights,
            PieceType::Bishop => self.bishops,
            PieceType::Rook => self.rooks,
            PieceType::Queen => self.queens,
            PieceType::King => self.kings,
        }
    }

    /// Square lists of a real position: at most 64 squares each, every
    /// index on the board, and a mobility within the generator's bound.
    pub open spec fn wf(self) -> bool {
        &&& sq_list_wf(self.pawns)
        &&& sq_list_wf(self.knights)
        &&& sq_list_wf(self.bishops)
        &&& sq_list_wf(self.rooks)
        &&& sq_list_wf(self.queens)
        &&& sq_list_wf(self.kings)
        &&& 0 <= self.mobility <= 4608
    }
}

/// A list of at most 64 board square indices.
pub open spec fn sq_list_wf(s: Seq<u8>) -> bool {
    s.len() <= 64 && forall|i: int| 0 <= i < s.len() ==> s[i] < 64
}

/// A plain snapshot of everything the evaluation reads from a position.
pub struct EvalInput {
    pub white: SidePieces,
    pub black: SidePieces,
    pub side_to_move: Color,
}

#[verifier::ext_equal]
pub struct EvalView {
    pub white: SideView,
    pub black: SideView,
    pub side_to_move: Color,
}

impl View for EvalInput {
    type V = EvalView;

    open spec fn view(&self) -> EvalView {
        EvalView { white: self.white@, black: self.black@, side_to_move: self.side_to_move }
    }
}

impl EvalView {
    pub open spec fn side(self, color: Color) -> SideView {
        match color {
            Color::White => self.white,
            Color::Black => self.black,
        }
    }

    pub open spec fn wf(self) -> bool {
        self.white.wf() && self.black.wf()
    }
}

impl EvalInput {
    pub open spec fn wf(self) -> bool {
        self@.wf()
    }
}

/// The number of legal moves the given side would have if it were its
/// turn: its real mobility when it is to move, otherwise the mobility
/// after passing the turn, or 0 when passing is impossible (the side to
/// move is in check).
pub open spec fn spec_mobility_of(b: chess::Board, color: Color) -> int {
    if side_to_move_of(b) == color {
        legal_moves_of(b).len() as int
    } else {
        match null_move_of(b) {
            Some(nb) => legal_moves_of(nb).len() as int,
            None => 0,
        }
    }
}

pub open spec fn spec_side_of(b: chess::Board, color: Color) -> SideView {
    SideView {
        pawns: piece_squares_of(b, color, PieceType::Pawn),
        knights: piece_squares_of(b, color, PieceType::Knight),
        bishops: piece_squares_of(b, color, PieceType::Bishop),
        rooks: piece_squares_of(b, color, PieceType::Rook),
        queens: piece_squares_of(b, color, PieceType::Queen),
        kings: piece_squares_of(b, color, PieceType::King),
        mobility: spec_mobility_of(b, color),
    }
}

/// The snapshot a position yields.
pub open spec fn spec_input_of(b: chess::Board) -> EvalView {
    EvalView {
        white: spec_side_of(b, Color::White),
        black: spec_side_of(b, Color::Black),
        side_to_move: side_to_move_of(b),
    }
}

/// The board index a side reads its piece-square weights at: White reads
/// the table directly, Black reads it with the rank mirrored.
pub open spec fn spec_mirror_sq(sq: int) -> int {
    sq % 8 + 8 * (7 - sq / 8)
}

pub open spec fn spec_pst_square(color: Color, piece_type: PieceType, sq: int, g: int) -> int {
    match color {
        Color::White => weights::spec_pst(piece_type, sq, g),
        Color::Black => weights::spec_pst(piece_type, spec_mirror_sq(sq), g),
    }
}

/// The summed piece-square weight of one side's pieces of one kind.
pub open spec fn spec_pst_sum(color: Color, piece_type: PieceType, squares: Seq<u8>, g: int) -> int
    decreases squares.len(),
{
    if squares.len() == 0 {
        0
    } else {
        spec_pst_sum(color, piece_type, squares.drop_last(), g) + spec_pst_square(
            color,
            piece_type,
            squares.last() as int,
            g,
        )
    }
}

/// Material plus piece-square weight of one side's pieces of one kind.
pub open spec fn spec_piece_term(color: Color, piece_type: PieceType, v: SideView, g: int) -> int {
    v.squares(piece_type).len() * weights::spec_material_value(piece_type) + spec_pst_sum(
        color,
        piece_type,
        v.squares(piece_type),
        g,
    )
}

pub open spec fn spec_material_for_color(v: EvalView, color: Color, g: int) -> int {
    let s = v.side(color);
    spec_piece_term(color, PieceType::Pawn, s, g) + spec_piece_term(color, PieceType::Knight, s, g)
        + spec_piece_term(color, PieceType::Bishop, s, g) + spec_piece_term(
        color,
        PieceType::Rook,
        s,
        g,
    ) + spec_piece_term(color, PieceType::Queen, s, g) + spec_piece_term(
        color,
        PieceType::King,
        s,
        g,
    )
}

/// The game phase: a scalar in 0..=24 summarizing the remaining
/// non-pawn material of both sides.
pub open spec fn spec_gamephase(v: EvalView) -> int {
    let raw = v.white.knights.len() + v.black.knights.len() + v.white.bishops.len()
        + v.black.bishops.len() + 2 * (v.white.rooks.len() + v.black.rooks.len()) + 4 * (
    v.white.queens.len() + v.black.queens.len());
    if raw > 24 {
        24
    } else {
        raw as int
    }
}

pub open spec fn spec_pair_modifier(v: EvalView, color: Color) -> int {
    let s = v.side(color);
    (if s.bishops.len() >= 2 {
        PAIR_MOD_BISHOP as int
    } else {
        0
    }) + (if s.knights.len() >= 2 {
        PAIR_MOD_KNIGHT as int
    } else {
        0
    }) + (if s.rooks.len() >= 2 {
        PAIR_MOD_ROOK as int
    } else {
        0
    })
}

pub open spec fn spec_mobility_modifier(v: EvalView, color: Color) -> int {
    v.side(color).mobility * MOBILITY_MOD
}

pub open spec fn spec_tempo_modifier(v: EvalView, color: Color) -> int {
    if v.side_to_move == color {
        TEMPO_MOD as int
    } else {
        0
    }
}

pub open spec fn spec_modifiers_for_color(v: EvalView, color: Color) -> int {
    spec_pair_modifier(v, color) + spec_mobility_modifier(v, color) + spec_tempo_modifier(v, color)
}

pub open spec fn spec_score_for_color(v: EvalView, color: Color) -> int {
    spec_material_for_color(v, color, spec_gamephase(v)) + spec_modifiers_for_color(v, color)
}

/// The full evaluation of a snapshot, from the side to move's point of
/// view: White's score minus Black's, negated when Black is to move.
pub open spec fn spec_eval(v: EvalView) -> int {
    let w = spec_score_for_color(v, Color::White);
    let b = spec_score_for_color(v, Color::Black);
    match v.side_to_move {
        Color::White => w - b,
        Color::Black => b - w,
    }
}

/// The evaluation of a position.
pub open spec fn spec_evaluate(b: chess::Board) -> int {
    spec_eval(spec_input_of(b))
}

/// Take a snapshot of everything the evaluation reads from a position.
pub(crate) fn extract_eval_input(b: &chess::Board) -> (r: EvalInput)
    ensures
        r@ == spec_input_of(*b),
        r.wf(),
{
    let stm = board_side_to_move(b);
    let own_moves = legal_moves(b);
    let own_count = own_moves.len() as u32;
    let pass_count: u32 = match board_null_move(b) {
        Some(nb) => legal_moves(&nb).len() as u32,
        None => 0,
    };
    let white_mobility = if stm == Color::White {
        own_count
    } else {
        pass_count
    };
    let black_mobility = if stm == Color::Black {
        own_count
    } else {
        pass_count
    };
    let white = SidePieces {
        pawns: piece_squares(b, Color::White, PieceType::Pawn),
        knights: piece_squares(b, Color::White, PieceType::Knight),
        bishops: piece_squares(b, Color::White, PieceType::Bishop),
        rooks: piece_squares(b, Color::White, PieceType::Rook),
        queens: piece_squares(b, Color::White, PieceType::Queen),
        kings: piece_squares(b, Color::White, PieceType::King),
        mobility: white_mobility,
    };
    let black = SidePieces {
        pawns: piece_squares(b, Color::Black, PieceType::Pawn),
        knights: piece_squares(b, Color::Black, PieceType::Knight),
        bishops: piece_squares(b, Color::Black, PieceType::Bishop),
        rooks: piece_squares(b, Color::Black, PieceType::Rook),
        queens: piece_squares(b, Color::Black, PieceType::Queen),
        kings: piece_squares(b, Color::Black, PieceType::King),
        mobility: black_mobility,
    };
    let r = EvalInput { white, black, side_to_move: stm };
    proof {
        assert(r@.white =~= spec_side_of(*b, Color::White));
        assert(r@.black =~= spec_side_of(*b, Color::Black));
        assert(r@ =~= spec_input_of(*b));
    }
    r
}

/// The summed piece-square weight of the given side's pieces of the
/// given kind, standing on the given squares.
pub fn get_pst_value_for_piece_type(
    color: Color,
    piece_type: PieceType,
    squares: &Vec<u8>,
    gamephase: i32,
) -> (r: i32)
    requires
        squares@.len() <= 64,
        forall|i: int| 0 <= i < squares@.len() ==> squares@[i] < 64,
        0 <= gamephase <= 24,
    ensures
        r as int == spec_pst_sum(color, piece_type, squares@, gamephase as int),
        -1024 <= r <= 5120,
{
    let mut acc: i32 = 0;
    let mut i: usize = 0;
    while i < squares.len()
        invariant
            0 <= i <= squares@.len(),
            squares@.len() <= 64,
            forall|j: int| 0 <= j < squares@.len() ==> squares@[j] < 64,
            0 <= gamephase <= 24,
            acc as int == spec_pst_sum(color, piece_type, squares@.take(i as int), gamephase as int),
            -16 * i <= acc as int <= 80 * i,
        decreases squares@.len() - i,
    {
        let sq = squares[i];
        let v = get_pst_value_for_square(color, piece_type, sq, gamephase);
        proof {
            assert(squares@.take(i + 1 as int).drop_last() =~= squares@.take(i as int));
            assert(squares@.take(i + 1 as int).last() == squares@[i as int]);
        }
        acc = acc + v;
        i = i + 1;
    }
    proof {
        assert(squares@.take(squares@.len() as int) =~= squares@);
    }
    acc
}

/// The piece-square weight one side reads for a piece on one square:
/// White reads the table directly, Black with the rank mirrored.
pub fn get_pst_value_for_square(color: Color, piece_type: PieceType, square: u8, gamephase: i32) -> (r:
    i32)
    requires
        square < 64,
        0 <= gamephase <= 24,
    ensures
        r as int == spec_pst_square(color, piece_type, square as int, gamephase as int),
        -16 <= r <= 80,
{
    let square_adj = match color {
        Color::White => square,
        Color::Black => square % 8 + 8 * (7 - square / 8),
    };
    weights::pst(piece_type, square_adj, gamephase)
}

fn piece_term(color: Color, piece_type: PieceType, squares: &Vec<u8>, gamephase: i32) -> (r: i32)
    requires
        squares@.len() <= 64,
        forall|i: int| 0 <= i < squares@.len() ==> squares@[i] < 64,
        0 <= gamephase <= 24,
    ensures
        r as int == squares@.len() * weights::spec_material_value(piece_type) + spec_pst_sum(
            color,
            piece_type,
            squares@,
            gamephase as int,
        ),
        -1024 <= r <= 64 * 900 + 5120,
{
    let count = squares.len() as i32;
    let value = weights::get_piece_type_material_value(piece_type);
    let pst = get_pst_value_for_piece_type(color, piece_type, squares, gamephase);
    assert(count * value <= 64 * 900 && 0 <= count * value) by (nonlinear_arith)
        requires
            0 <= count <= 64,
            0 <= value <= 900,
    ;
    count * value + pst
}

/// The game phase of the snapshot, clamped to 0..=24.
pub fn get_gamephase(inp: &EvalInput) -> (r: i32)
    requires
        inp.wf(),
    ensures
        r as int == spec_gamephase(inp@),
        0 <= r <= 24,
{
    let raw: usize = inp.white.knights.len() + inp.black.knights.len() + inp.white.bishops.len()
        + inp.black.bishops.len() + 2 * (inp.white.rooks.len() + inp.black.rooks.len()) + 4 * (
    inp.white.queens.len() + inp.black.queens.len());
    if raw > 24 {
        24
    } else {
        raw as i32
    }
}

/// One side's material and piece-square score.
pub fn evaluate_material_for_color(inp: &EvalInput, color: Color) -> (r: i32)
    requires
        inp.wf(),
    ensures
        r as int == spec_material_for_color(inp@, color, spec_gamephase(inp@)),
        -8 * 1024 <= r <= 8 * (64 * 900 + 5120),
{
    let gamephase = get_gamephase(inp);
    let side = match color {
        Color::White => &inp.white,
        Color::Black => &inp.black,
    };
    let t1 = piece_term(color, PieceType::Pawn, &side.pawns, gamephase);
    let t2 = piece_term(color, PieceType::Knight, &side.knights, gamephase);
    let t3 = piece_term(color, PieceType::Bishop, &side.bishops, gamephase);
    let t4 = piece_term(color, PieceType::Rook, &side.rooks, gamephase);
    let t5 = piece_term(color, PieceType::Queen, &side.queens, gamephase);
    let t6 = piece_term(color, PieceType::King, &side.kings, gamephase);
    t1 + t2 + t3 + t4 + t5 + t6
}

/// The pair bonuses one side earns for owning two or more bishops,
/// knights or rooks.
pub fn evaluate_pair_modifier_for_color(inp: &EvalInput, color: Color) -> (r: i32)
    requires
        inp.wf(),
    ensures
        r as int == spec_pair_modifier(inp@, color),
        0 <= r <= 65,
{
    let side = match color {
        Color::White => &inp.white,
        Color::Black => &inp.black,
    };
    let mut score: i32 = 0;
    if side.bishops.len() >= 2 {
        score = score + PAIR_MOD_BISHOP;
    }
    if side.knights.len() >= 2 {
        score = score + PAIR_MOD_KNIGHT;
    }
    if side.rooks.len() >= 2 {
        score = score + PAIR_MOD_ROOK;
    }
    score
}

/// One side's mobility bonus: its number of legal moves, as if it were
/// its turn, times the mobility weight.
pub fn evaluate_mobility_modifier_for_color(inp: &EvalInput, color: Color) -> (r: i32)
    requires
        inp.wf(),
    ensures
        r as int == spec_mobility_modifier(inp@, color),
        0 <= r <= 4608 * 2,
{
    let mobility = match color {
        Color::White => inp.white.mobility,
        Color::Black => inp.black.mobility,
    };
    mobility as i32 * MOBILITY_MOD
}

/// The tempo bonus: awarded only to the side to move.
pub fn evaluate_tempo_modifier_for_color(inp: &EvalInput, color: Color) -> (r: i32)
    ensures
        r as int == spec_tempo_modifier(inp@, color),
        0 <= r <= 10,
{
    if inp.side_to_move == color {
        TEMPO_MOD
    } else {
        0
    }
}

/// One side's positional modifiers: pair bonuses, mobility and tempo.
pub fn evaluate_modifiers_for_color(inp: &EvalInput, color: Color) -> (r: i32)
    requires
        inp.wf(),
    ensures
        r as int == spec_modifiers_for_color(inp@, color),
        0 <= r <= 10000,
{
    evaluate_pair_modifier_for_color(inp, color) + evaluate_mobility_modifier_for_color(inp, color)
        + evaluate_tempo_modifier_for_color(inp, color)
}

/// The static evaluation of a position, in centipawns, from the side to
/// move's point of view.
pub fn evaluate_position(board: &chess::Board) -> (r: i32)
    ensures
        r as int == spec_evaluate(*board),
        -EVAL_BOUND <= r <= EVAL_BOUND,
{
    let inp = extract_eval_input(board);
    let result_white = evaluate_material_for_color(&inp, Color::White)
        + evaluate_modifiers_for_color(&inp, Color::White);
    let result_black = evaluate_material_for_color(&inp, Color::Black)
        + evaluate_modifiers_for_color(&inp, Color::Black);
    match inp.side_to_move {
        Color::White => result_white - result_black,
        Color::Black => result_black - result_white,
    }
}

/// One side's square list, each square mirrored in rank.
pub open spec fn spec_mirror_u8(sq: u8) -> u8 {
    (sq % 8 + 8 * (7 - sq / 8)) as u8
}

pub open spec fn spec_mirror_side(s: SideView) -> SideView {
    SideView {
        pawns: s.pawns.map_values(|q: u8| spec_mirror_u8(q)),
        knights: s.knights.map_values(|q: u8| spec_mirror_u8(q)),
        bishops: s.bishops.map_values(|q: u8| spec_mirror_u8(q)),
        rooks: s.rooks.map_values(|q: u8| spec_mirror_u8(q)),
        queens: s.queens.map_values(|q: u8| spec_mirror_u8(q)),
        kings: s.kings.map_values(|q: u8| spec_mirror_u8(q)),
        mobility: s.mobility,
    }
}

/// The snapshot with the colours swapped: each side takes over the other
/// side's pieces, mirrored in rank, while the same side keeps the turn.
pub open spec fn spec_mirror_input(v: EvalView) -> EvalView {
    EvalView {
        white: spec_mirror_side(v.black),
        black: spec_mirror_side(v.white),
        side_to_move: v.side_to_move,
    }
}

proof fn lemma_pst_sum_mirror(
    white_to_black: bool,
    piece_type: PieceType,
    squares: Seq<u8>,
    g: int,
)
    requires
        forall|i: int| 0 <= i < squares.len() ==> squares[i] < 64,
    ensures
        white_to_black ==> spec_pst_sum(
            Color::White,
            piece_type,
            squares.map_values(|q: u8| spec_mirror_u8(q)),
            g,
        ) == spec_pst_sum(Color::Black, piece_type, squares, g),
        !white_to_black ==> spec_pst_sum(
            Color::Black,
            piece_type,
            squares.map_values(|q: u8| spec_mirror_u8(q)),
            g,
        ) == spec_pst_sum(Color::White, piece_type, squares, g),
    decreases squares.len(),
{
    let mapped = squares.map_values(|q: u8| spec_mirror_u8(q));
    if squares.len() == 0 {
        assert(mapped.len() == 0);
    } else {
        lemma_pst_sum_mirror(white_to_black, piece_type, squares.drop_last(), g);
        let sq = squares.last() as int;
        assert(0 <= sq < 64);
        assert(mapped.drop_last() =~= squares.drop_last().map_values(|q: u8| spec_mirror_u8(q)));
        assert(mapped.last() == spec_mirror_u8(squares.last()));
        assert(spec_mirror_u8(squares.last()) as int == spec_mirror_sq(sq));
        assert(spec_mirror_sq(spec_mirror_sq(sq)) == sq);
    }
}

proof fn lemma_score_mirror(v: EvalView, color: Color)
    requires
        v.wf(),
    ensures
        spec_score_for_color(spec_mirror_input(v), color) - spec_tempo_modifier(
            spec_mirror_input(v),
            color,
        ) == spec_score_for_color(v, color.spec_other()) - spec_tempo_modifier(
            v,
            color.spec_other(),
        ),
{
    let m = spec_mirror_input(v);
    assert(spec_gamephase(m) == spec_gamephase(v));
    let g = spec_gamephase(v);
    let other = color.spec_other();
    let s = v.side(other);
    assert(m.side(color) == spec_mirror_side(s));
    let w2b = color == Color::White;
    lemma_pst_sum_mirror(w2b, PieceType::Pawn, s.pawns, g);
    lemma_pst_sum_mirror(w2b, PieceType::Knight, s.knights, g);
    lemma_pst_sum_mirror(w2b, PieceType::Bishop, s.bishops, g);
    lemma_pst_sum_mirror(w2b, PieceType::Rook, s.rooks, g);
    lemma_pst_sum_mirror(w2b, PieceType::Queen, s.queens, g);
    lemma_pst_sum_mirror(w2b, PieceType::King, s.kings, g);
    assert(spec_material_for_color(m, color, g) == spec_material_for_color(v, other, g));
    assert(spec_pair_modifier(m, color) == spec_pair_modifier(v, other));
    assert(spec_mobility_modifier(m, color) == spec_mobility_modifier(v, other));
}

/// Evaluation symmetry: swapping the colours of a snapshot, mirroring
/// the piece squares in rank, negates the evaluation, up to the tempo
/// bonus, which goes to the side to move of either snapshot.
pub proof fn lemma_evaluate_color_symmetry(v: EvalView)
    requires
        v.wf(),
    ensures
        spec_eval(spec_mirror_input(v)) == 2 * TEMPO_MOD - spec_eval(v),
{
    lemma_score_mirror(v, Color::White);
    lemma_score_mirror(v, Color::Black);
}

} // verus!
