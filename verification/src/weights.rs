//! Weight data for the static evaluation: material values, piece-square
//! weights and the positional modifiers.  The piece-square weights are
//! given as closed-form functions of the square; every weight lies in
//! a small band so that the whole evaluation stays far below the
//! checkmate score.

use vstd::prelude::*;
use crate::types::PieceType;

verus! {

pub const KING_MV: i32 = 0;

pub const QUEEN_MV: i32 = 900;

pub const ROOK_MV: i32 = 500;

pub const BISHOP_MV: i32 = 330;

pub const KNIGHT_MV: i32 = 320;

pub const PAWN_MV: i32 = 100;

pub const PAIR_MOD_BISHOP: i32 = 30;

pub const PAIR_MOD_KNIGHT: i32 = 15;

pub const PAIR_MOD_ROOK: i32 = 20;

pub const MOBILITY_MOD: i32 = 2;

pub const TEMPO_MOD: i32 = 10;

/// How central a square is: 0 at the edges of both file and rank, up to
/// 6 in the four central squares.
pub open spec fn spec_centrality(sq: int) -> int {
    let f = sq % 8;
    let r = sq / 8;
    (if f < 7 - f {
        f
    } else {
        7 - f
    }) + (if r < 7 - r {
        r
    } else {
        7 - r
    })
}

pub open spec fn spec_king_mid(sq: int) -> int {
    80 - 10 * (sq / 8)
}

pub open spec fn spec_king_end(sq: int) -> int {
    10 * spec_centrality(sq)
}

/// The piece-square weight, from White's point of view, for a piece of
/// the given kind on the square with the given index.  The king's weight
/// blends a middlegame and an endgame value by the game phase in 0..=24.
pub open spec fn spec_pst(piece_type: PieceType, sq: int, gamephase: int) -> int {
    match piece_type {
        PieceType::Pawn => 5 * (sq / 8),
        PieceType::Knight => 8 * spec_centrality(sq) - 16,
        PieceType::Bishop => 5 * spec_centrality(sq) - 10,
        PieceType::Rook => 2 * spec_centrality(sq),
        PieceType::Queen => 2 * spec_centrality(sq),
        PieceType::King => (gamephase * spec_king_mid(sq) + (24 - gamephase) * spec_king_end(sq))
            / 24,
    }
}

/// Every piece-square weight lies in -16..=80.
pub proof fn lemma_pst_bounds(piece_type: PieceType, sq: int, gamephase: int)
    requires
        0 <= sq < 64,
        0 <= gamephase <= 24,
    ensures
        -16 <= spec_pst(piece_type, sq, gamephase) <= 80,
{
    assert(0 <= sq % 8 < 8);
    assert(0 <= sq / 8 < 8);
    assert(0 <= spec_centrality(sq) <= 6);
    match piece_type {
        PieceType::King => {
            let mid = spec_king_mid(sq);
            let end = spec_king_end(sq);
            assert(10 <= mid <= 80);
            assert(0 <= end <= 60);
            let num = gamephase * mid + (24 - gamephase) * end;
            assert(0 <= num <= 1920) by (nonlinear_arith)
                requires
                    10 <= mid <= 80,
                    0 <= end <= 60,
                    0 <= gamephase <= 24,
                    num == gamephase * mid + (24 - gamephase) * end,
            ;
            assert(0 <= num / 24 <= 80);
        },
        _ => {},
    }
}

pub(crate) fn centrality(sq: u8) -> (r: u8)
    requires
        sq < 64,
    ensures
        r as int == spec_centrality(sq as int),
        r <= 6,
{
    let f = sq % 8;
    let r = sq / 8;
    let fm = if f < 7 - f {
        f
    } else {
        7 - f
    };
    let rm = if r < 7 - r {
        r
    } else {
        7 - r
    };
    fm + rm
}

/// The piece-square weight for the given kind on the given square.
pub(crate) fn pst(piece_type: PieceType, sq: u8, gamephase: i32) -> (r: i32)
    requires
        sq < 64,
        0 <= gamephase <= 24,
    ensures
        r as int == spec_pst(piece_type, sq as int, gamephase as int),
        -16 <= r <= 80,
{
    proof {
        lemma_pst_bounds(piece_type, sq as int, gamephase as int);
    }
    match piece_type {
        PieceType::Pawn => 5 * (sq / 8) as i32,
        PieceType::Knight => 8 * centrality(sq) as i32 - 16,
        PieceType::Bishop => 5 * centrality(sq) as i32 - 10,
        PieceType::Rook => 2 * centrality(sq) as i32,
        PieceType::Queen => 2 * centrality(sq) as i32,
        PieceType::King => {
            let mid: i32 = 80 - 10 * (sq / 8) as i32;
            let end: i32 = 10 * centrality(sq) as i32;
            let num: i32 = gamephase * mid + (24 - gamephase) * end;
            assert(0 <= num <= 1920) by (nonlinear_arith)
                requires
                    10 <= mid <= 80,
                    0 <= end <= 60,
                    0 <= gamephase <= 24,
                    num == gamephase * mid + (24 - gamephase) * end,
            ;
            ((num as u32) / 24) as i32
        },
    }
}

pub open spec fn spec_material_value(piece_type: PieceType) -> int {
    match piece_type {
        PieceType::King => KING_MV as int,
        PieceType::Queen => QUEEN_MV as int,
        PieceType::Rook => ROOK_MV as int,
        PieceType::Bishop => BISHOP_MV as int,
        PieceType::Knight => KNIGHT_MV as int,
        PieceType::Pawn => PAWN_MV as int,
    }
}

/// The base material value of a piece of the given kind, in centipawns.
pub fn get_piece_type_material_value(piece_type: PieceType) -> (r: i32)
    ensures
        r as int == spec_material_value(piece_type),
        0 <= r <= 900,
{
    match piece_type {
        PieceType::King => KING_MV,
        PieceType::Queen => QUEEN_MV,
        PieceType::Rook => ROOK_MV,
        PieceType::Bishop => BISHOP_MV,
        PieceType::Knight => KNIGHT_MV,
        PieceType::Pawn => PAWN_MV,
    }
}

} // verus!
