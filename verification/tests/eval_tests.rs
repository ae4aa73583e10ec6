use std::str::FromStr;

use wolfchess::eval::{
    evaluate_material_for_color, evaluate_mobility_modifier_for_color,
    evaluate_modifiers_for_color, evaluate_pair_modifier_for_color, evaluate_position,
    evaluate_tempo_modifier_for_color, get_gamephase, get_pst_value_for_square, EvalInput,
    SidePieces,
};
use wolfchess::types::{Color, PieceType};
use wolfchess::weights::{
    get_piece_type_material_value, MOBILITY_MOD, PAIR_MOD_BISHOP, TEMPO_MOD,
};

fn board(fen: &str) -> chess::Board {
    chess::Board::from_str(fen).unwrap()
}

fn side(squares_by_kind: [&[u8]; 6], mobility: u32) -> SidePieces {
    SidePieces {
        pawns: squares_by_kind[0].to_vec(),
        knights: squares_by_kind[1].to_vec(),
        bishops: squares_by_kind[2].to_vec(),
        rooks: squares_by_kind[3].to_vec(),
        queens: squares_by_kind[4].to_vec(),
        kings: squares_by_kind[5].to_vec(),
        mobility,
    }
}

#[test]
fn material_values_match_the_table() {
    assert_eq!(get_piece_type_material_value(PieceType::King), 0);
    assert_eq!(get_piece_type_material_value(PieceType::Queen), 900);
    assert_eq!(get_piece_type_material_value(PieceType::Rook), 500);
    assert_eq!(get_piece_type_material_value(PieceType::Bishop), 330);
    assert_eq!(get_piece_type_material_value(PieceType::Knight), 320);
    assert_eq!(get_piece_type_material_value(PieceType::Pawn), 100);
}

#[test]
fn extra_pawn_evaluates_positive() {
    let score = evaluate_position(&board("4k3/8/8/8/8/8/4P3/4K3 w - - 0 1"));
    assert!(score > 0, "score was {}", score);
}

#[test]
fn bare_kings_evaluate_to_tempo_and_mobility() {
    // Both kings stand on their home squares with five moves each, so
    // everything cancels except the side to move's tempo bonus.
    let score = evaluate_position(&board("4k3/8/8/8/8/8/8/4K3 w - - 0 1"));
    assert_eq!(score, TEMPO_MOD);
}

#[test]
fn color_mirrored_positions_sum_to_twice_tempo() {
    // Mirroring the colours (and keeping the turn with the mirroring
    // side) negates the evaluation up to the tempo bonus, which each
    // side to move collects once.
    let a = evaluate_position(&board("4k3/5n2/8/8/8/8/4P3/4K3 w - - 0 1"));
    let b = evaluate_position(&board("4k3/4p3/8/8/8/8/5N2/4K3 w - - 0 1"));
    assert_eq!(a + b, 2 * TEMPO_MOD);
}

#[test]
fn pst_mirrors_black_to_white() {
    for g in [0, 12, 24] {
        for sq in 0u8..64 {
            let mirrored = sq % 8 + 8 * (7 - sq / 8);
            for pt in [
                PieceType::Pawn,
                PieceType::Knight,
                PieceType::Bishop,
                PieceType::Rook,
                PieceType::Queen,
                PieceType::King,
            ] {
                assert_eq!(
                    get_pst_value_for_square(Color::White, pt, sq, g),
                    get_pst_value_for_square(Color::Black, pt, mirrored, g)
                );
            }
        }
    }
}

#[test]
fn gamephase_counts_and_clamps() {
    let quiet = EvalInput {
        white: side([&[], &[1], &[2], &[0], &[], &[4]], 10),
        black: side([&[], &[], &[58], &[56, 63], &[59], &[60]], 10),
        side_to_move: Color::White,
    };
    // one knight, two bishops, three rooks, one queen.
    assert_eq!(get_gamephase(&quiet), 1 + 2 + 2 * 3 + 4 * 1);

    let full = EvalInput {
        white: side([&[], &[0, 1, 2, 3], &[4, 5, 6, 7], &[8, 9], &[10, 11, 12], &[20]], 0),
        black: side([&[], &[], &[], &[], &[], &[60]], 0),
        side_to_move: Color::White,
    };
    assert_eq!(get_gamephase(&full), 24);
}

#[test]
fn pair_modifier_needs_two_of_a_kind() {
    let inp = EvalInput {
        white: side([&[], &[], &[2, 5], &[], &[], &[4]], 0),
        black: side([&[], &[1], &[], &[], &[], &[60]], 0),
        side_to_move: Color::White,
    };
    assert_eq!(evaluate_pair_modifier_for_color(&inp, Color::White), PAIR_MOD_BISHOP);
    assert_eq!(evaluate_pair_modifier_for_color(&inp, Color::Black), 0);
}

#[test]
fn mobility_modifier_scales_move_counts() {
    let inp = EvalInput {
        white: side([&[], &[], &[], &[], &[], &[4]], 21),
        black: side([&[], &[], &[], &[], &[], &[60]], 5),
        side_to_move: Color::White,
    };
    assert_eq!(evaluate_mobility_modifier_for_color(&inp, Color::White), 21 * MOBILITY_MOD);
    assert_eq!(evaluate_mobility_modifier_for_color(&inp, Color::Black), 5 * MOBILITY_MOD);
}

#[test]
fn tempo_modifier_goes_to_the_mover() {
    let inp = EvalInput {
        white: side([&[], &[], &[], &[], &[], &[4]], 0),
        black: side([&[], &[], &[], &[], &[], &[60]], 0),
        side_to_move: Color::Black,
    };
    assert_eq!(evaluate_tempo_modifier_for_color(&inp, Color::Black), TEMPO_MOD);
    assert_eq!(evaluate_tempo_modifier_for_color(&inp, Color::White), 0);
    assert_eq!(evaluate_modifiers_for_color(&inp, Color::Black), TEMPO_MOD);
}

#[test]
fn material_counts_pieces_and_boards_tables() {
    // A lone white pawn on e2 (square 12, rank 1): base value 100 plus
    // the pawn table's 5 * rank.
    let inp = EvalInput {
        white: side([&[12], &[], &[], &[], &[], &[4]], 0),
        black: side([&[], &[], &[], &[], &[], &[60]], 0),
        side_to_move: Color::White,
    };
    let white_material = evaluate_material_for_color(&inp, Color::White);
    let king_only = EvalInput {
        white: side([&[], &[], &[], &[], &[], &[4]], 0),
        black: side([&[], &[], &[], &[], &[], &[60]], 0),
        side_to_move: Color::White,
    };
    let white_king_only = evaluate_material_for_color(&king_only, Color::White);
    assert_eq!(white_material - white_king_only, 100 + 5);
}
