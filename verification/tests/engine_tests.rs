use std::str::FromStr;

use wolfchess::broker::{EngineBroker, EngineCommand, PositionError, SearchControl};
use wolfchess::eval::{evaluate_position, MAX_CP_SCORE};
use wolfchess::frontend::{route_message, OutMessage, UciEvent};
use wolfchess::game::Game;
use wolfchess::search::{
    alphabeta, iterative_deepening, nps_value, perft, AlphaBetaFlag, CacheEntry, SearchInfo,
    SearchReporter,
};
use wolfchess::time_broker::{TimeBroker, TimeControl, DEFAULT_MOVE_TIME_MS};
use wolfchess::types::Color;

fn board(fen: &str) -> chess::Board {
    chess::Board::from_str(fen).unwrap()
}

fn fresh_cache() -> chess::CacheTable<CacheEntry> {
    chess::CacheTable::new(65536, CacheEntry::default())
}

fn open_channel() -> (tokio::sync::watch::Sender<bool>, tokio::sync::watch::Receiver<bool>) {
    tokio::sync::watch::channel(false)
}

struct SilentReporter;

impl SearchReporter for SilentReporter {
    fn report(&mut self, _info: &SearchInfo) {}
}

struct CountingReporter {
    depths: Vec<usize>,
}

impl SearchReporter for CountingReporter {
    fn report(&mut self, info: &SearchInfo) {
        self.depths.push(info.depth);
    }
}

// Published perft values for the standard starting position.

#[test]
fn perft_startpos_depth_1() {
    assert_eq!(perft(&chess::Board::default(), 1), 20);
}

#[test]
fn perft_startpos_depth_4() {
    assert_eq!(perft(&chess::Board::default(), 4), 197_281);
}

#[test]
fn perft_startpos_depth_5() {
    assert_eq!(perft(&chess::Board::default(), 5), 4_865_609);
}

#[test]
fn perft_complex_middlegame_depth_3() {
    let b = board("r3k2r/p1ppqpb1/bn2pnp1/3PN3/1p2P3/2N2Q1p/PPPBBPPP/R3K2R w KQkq - 0 1");
    assert_eq!(perft(&b, 3), 97_862);
}

#[test]
fn alphabeta_finds_back_rank_mate() {
    let b = board("6k1/5ppp/8/8/8/8/5PPP/R5K1 w - - 0 1");
    let (_, rx) = open_channel();
    let mut cache = fresh_cache();
    let (score, pv, nodes, cancelled) =
        alphabeta(&b, -MAX_CP_SCORE, MAX_CP_SCORE, &rx, 3, 0, &mut cache);
    assert!(!cancelled);
    assert!(nodes >= 1);
    assert_eq!(score, MAX_CP_SCORE - 1);
    assert_eq!(
        pv[0],
        chess::ChessMove::new(chess::Square::A1, chess::Square::A8, None)
    );
}

#[test]
fn search_stores_its_outcome_in_the_table() {
    let b = board("6k1/5ppp/8/8/8/8/5PPP/R5K1 w - - 0 1");
    let (_, rx) = open_channel();
    let mut cache = fresh_cache();
    let (score, pv, _, cancelled) =
        alphabeta(&b, -MAX_CP_SCORE, MAX_CP_SCORE, &rx, 3, 0, &mut cache);
    assert!(!cancelled);
    let entry = cache.get(b.get_hash()).unwrap();
    assert_eq!(entry.value, score);
    assert_eq!(entry.depth, 3);
    assert_eq!(entry.chess_move, pv[0]);
    assert_eq!(entry.flag, AlphaBetaFlag::Exact);
}

#[test]
fn usable_table_hit_answers_without_searching() {
    let b = board("6k1/5ppp/8/8/8/8/5PPP/R5K1 w - - 0 1");
    let (_, rx) = open_channel();
    let mut cache = fresh_cache();
    let (score, pv, first_nodes, _) =
        alphabeta(&b, -MAX_CP_SCORE, MAX_CP_SCORE, &rx, 3, 0, &mut cache);
    assert!(first_nodes > 1);
    // the stored entry now decides the node at once
    let (score2, pv2, nodes2, cancelled2) =
        alphabeta(&b, -MAX_CP_SCORE, MAX_CP_SCORE, &rx, 3, 0, &mut cache);
    assert!(!cancelled2);
    assert_eq!(score2, score);
    assert_eq!(pv2, vec![pv[0]]);
    assert_eq!(nodes2, 1);
}

#[test]
fn cached_entry_with_illegal_move_is_a_miss() {
    // a colliding entry whose stored move is not legal here must be
    // ignored, and the node searched normally
    let b = board("6k1/5ppp/8/8/8/8/5PPP/R5K1 w - - 0 1");
    let (_, rx) = open_channel();
    let mut cache = fresh_cache();
    let bogus = CacheEntry {
        chess_move: chess::ChessMove::new(chess::Square::A1, chess::Square::H8, None),
        depth: 9,
        flag: AlphaBetaFlag::Exact,
        value: 12345,
    };
    cache.add(b.get_hash(), bogus);
    let (score, pv, _, cancelled) =
        alphabeta(&b, -MAX_CP_SCORE, MAX_CP_SCORE, &rx, 3, 0, &mut cache);
    assert!(!cancelled);
    assert_eq!(score, MAX_CP_SCORE - 1);
    assert_eq!(
        pv[0],
        chess::ChessMove::new(chess::Square::A1, chess::Square::A8, None)
    );
}

#[test]
fn search_prefers_the_faster_mate() {
    // A rook on an open file mates at once; pulled before the king it
    // needs a king move first, so the mate takes three plies.
    let mate_in_one = board("7k/8/7K/8/8/8/R7/8 w - - 0 1");
    let mate_in_two = board("7k/8/5K2/8/8/8/R7/8 w - - 0 1");
    let (_, rx) = open_channel();
    let mut cache1 = fresh_cache();
    let (score1, _, _, _) =
        alphabeta(&mate_in_one, -MAX_CP_SCORE, MAX_CP_SCORE, &rx, 4, 0, &mut cache1);
    let mut cache2 = fresh_cache();
    let (score2, _, _, _) =
        alphabeta(&mate_in_two, -MAX_CP_SCORE, MAX_CP_SCORE, &rx, 4, 0, &mut cache2);
    assert_eq!(score1, MAX_CP_SCORE - 1);
    assert_eq!(score2, MAX_CP_SCORE - 3);
    assert!(score1 > score2);
}

fn bare_negamax(b: &chess::Board, depth: usize, ply: i32) -> i32 {
    match b.status() {
        chess::BoardStatus::Checkmate => return -MAX_CP_SCORE + ply,
        chess::BoardStatus::Stalemate => return 0,
        chess::BoardStatus::Ongoing => {}
    }
    if depth == 0 {
        return evaluate_position(b);
    }
    let mut best = -MAX_CP_SCORE;
    for mv in chess::MoveGen::new_legal(b) {
        let value = -bare_negamax(&b.make_move_new(mv), depth - 1, ply + 1);
        if value > best {
            best = value;
        }
    }
    best
}

#[test]
fn full_window_search_matches_unpruned_negamax() {
    let b = board("4k3/8/8/8/8/8/4P3/4K3 w - - 0 1");
    let expected = bare_negamax(&b, 2, 0);
    let (_, rx) = open_channel();
    let mut cache = fresh_cache();
    let (score, _, _, cancelled) =
        alphabeta(&b, -MAX_CP_SCORE, MAX_CP_SCORE, &rx, 2, 0, &mut cache);
    assert!(!cancelled);
    assert_eq!(score, expected);
}

#[test]
fn narrowed_window_keeps_score_and_move() {
    let b = board("6k1/5ppp/8/8/8/8/5PPP/R5K1 w - - 0 1");
    let (_, rx) = open_channel();
    let mut wide_cache = fresh_cache();
    let (wide_score, wide_pv, _, _) =
        alphabeta(&b, -MAX_CP_SCORE, MAX_CP_SCORE, &rx, 3, 0, &mut wide_cache);
    let mut narrow_cache = fresh_cache();
    let (narrow_score, narrow_pv, _, _) = alphabeta(
        &b,
        wide_score - 50,
        wide_score + 50,
        &rx,
        3,
        0,
        &mut narrow_cache,
    );
    assert_eq!(narrow_score, wide_score);
    assert_eq!(narrow_pv[0], wide_pv[0]);
}

#[test]
fn repeated_searches_from_empty_tables_agree() {
    let b = board("6k1/5ppp/8/8/8/8/5PPP/R5K1 w - - 0 1");
    let (_, rx) = open_channel();
    let mut first_reporter = SilentReporter;
    let first = iterative_deepening(&b, Some(4), rx.clone(), &mut first_reporter);
    let mut second_reporter = SilentReporter;
    let second = iterative_deepening(&b, Some(4), rx, &mut second_reporter);
    assert_eq!(first.score, second.score);
    assert_eq!(first.pv.first(), second.pv.first());
    assert_eq!(first.depth, second.depth);
    // a rook up: the score clears 400 centipawns and the move is legal
    assert!(first.score >= 400);
    assert!(b.legal(first.pv[0]));
}

#[test]
fn cancelled_before_start_touches_nothing() {
    let b = chess::Board::default();
    let (tx, rx) = open_channel();
    tx.send(true).unwrap();
    let mut cache = fresh_cache();
    let (score, pv, nodes, cancelled) =
        alphabeta(&b, -MAX_CP_SCORE, MAX_CP_SCORE, &rx, 3, 0, &mut cache);
    assert!(cancelled);
    assert_eq!(score, 0);
    assert!(pv.is_empty());
    assert_eq!(nodes, 1);
    assert_eq!(cache.get(b.get_hash()), None);
}

#[test]
fn cancelled_driver_returns_the_empty_result() {
    let b = chess::Board::default();
    let (tx, rx) = open_channel();
    tx.send(true).unwrap();
    let mut reporter = CountingReporter { depths: Vec::new() };
    let result = iterative_deepening(&b, Some(3), rx, &mut reporter);
    assert_eq!(result.nodes, 0);
    assert!(result.pv.is_empty());
    // only the final report went out
    assert_eq!(reporter.depths.len(), 1);
}

#[test]
fn checkmated_root_reports_the_mate() {
    // the back-rank mate delivered: Black to move, checkmated
    let b = board("R5k1/5ppp/8/8/8/8/5PPP/6K1 b - - 0 1");
    assert_eq!(b.status(), chess::BoardStatus::Checkmate);
    let (_, rx) = open_channel();
    let mut reporter = SilentReporter;
    let result = iterative_deepening(&b, Some(3), rx, &mut reporter);
    assert!(result.nodes >= 1);
    assert_eq!(result.score, -MAX_CP_SCORE);
    assert!(result.pv.is_empty());
}

#[test]
fn driver_reports_every_completed_depth() {
    let b = board("4k3/8/8/8/8/8/8/4K3 w - - 0 1");
    let (_, rx) = open_channel();
    let mut reporter = CountingReporter { depths: Vec::new() };
    let result = iterative_deepening(&b, Some(3), rx, &mut reporter);
    assert_eq!(reporter.depths, vec![1, 2, 3, 3]);
    assert_eq!(result.depth, 3);
    assert!(result.pv.len() >= 1);
    assert_eq!(result.nps, nps_value(result.nodes, result.time_ms));
}

#[test]
fn nps_value_computes_and_clamps() {
    assert_eq!(nps_value(1000, 500), 2000);
    assert_eq!(nps_value(0, 0), 0);
    assert_eq!(nps_value(1000, 0), 1_000_000);
    assert_eq!(nps_value(u32::MAX, 1), u32::MAX);
}

#[test]
fn cache_entry_default_is_a_harmless_lower_bound() {
    let entry = CacheEntry::default();
    assert_eq!(entry.depth, 0);
    assert_eq!(entry.flag, AlphaBetaFlag::LowerBound);
    assert_eq!(entry.value, 0);
    assert_eq!(AlphaBetaFlag::default(), AlphaBetaFlag::LowerBound);
}

#[test]
fn game_tracks_position_and_moves() {
    let game = Game::new();
    assert_eq!(*game.position(), chess::Board::default());
    assert!(game.moves().is_empty());

    let e4 = chess::ChessMove::new(chess::Square::E2, chess::Square::E4, None);
    let after = game.make_move_new(e4);
    assert_eq!(*after.position(), chess::Board::default().make_move_new(e4));
    assert!(after.moves().is_empty());

    let from_fen = Game::new_from_fen("6k1/5ppp/8/8/8/8/5PPP/R5K1 w - - 0 1").unwrap();
    assert_eq!(from_fen.position().side_to_move(), chess::Color::White);
    assert!(Game::new_from_fen("not a fen").is_none());
}

#[test]
fn set_position_applies_startpos_and_moves() {
    let mut broker = EngineBroker::new();
    let e4 = chess::ChessMove::new(chess::Square::E2, chess::Square::E4, None);
    let e5 = chess::ChessMove::new(chess::Square::E7, chess::Square::E5, None);
    let result = broker.set_position(true, None, &vec![e4, e5]);
    assert!(result.is_ok());
    let expected = chess::Board::default()
        .make_move_new(e4)
        .make_move_new(e5);
    assert_eq!(broker.current_game, expected);
}

#[test]
fn set_position_keeps_prior_position_on_bad_fen() {
    let mut broker = EngineBroker::new();
    let before = broker.current_game;
    let result = broker.set_position(false, Some("junk".to_string()), &vec![]);
    assert_eq!(result.unwrap_err(), PositionError::InvalidFen);
    assert_eq!(broker.current_game, before);
}

#[test]
fn set_position_stops_at_the_first_illegal_move() {
    let mut broker = EngineBroker::new();
    let e4 = chess::ChessMove::new(chess::Square::E2, chess::Square::E4, None);
    let illegal = chess::ChessMove::new(chess::Square::A1, chess::Square::H8, None);
    let result = broker.set_position(true, None, &vec![e4, illegal, e4]);
    assert_eq!(result.unwrap_err(), PositionError::IllegalMove);
    assert_eq!(broker.current_game, chess::Board::default().make_move_new(e4));
}

#[test]
fn prepare_search_reads_depth_and_seeds_timer() {
    let mut broker = EngineBroker::new();
    let (max_depth, wants_timer) = broker.prepare_search(
        &Some(TimeControl::MoveTime { millis: 5000 }),
        &Some(SearchControl { depth: Some(6) }),
    );
    assert_eq!(max_depth, Some(6));
    assert!(wants_timer);
    assert_eq!(broker.time_broker.duration_ms, Some(5000));

    let (no_depth, no_timer) = broker.prepare_search(&None, &None);
    assert_eq!(no_depth, None);
    assert!(!no_timer);
}

#[test]
fn seed_time_control_follows_the_rules() {
    let mut tb = TimeBroker::new();
    assert_eq!(tb.duration_ms, None);

    tb.seed_time_control(Color::White, &TimeControl::MoveTime { millis: 2500 });
    assert_eq!(tb.duration_ms, Some(2500));

    tb.seed_time_control(Color::White, &TimeControl::MoveTime { millis: 0 });
    assert_eq!(tb.duration_ms, Some(DEFAULT_MOVE_TIME_MS));

    tb.seed_time_control(Color::White, &TimeControl::MoveTime { millis: -3 });
    assert_eq!(tb.duration_ms, None);

    let tl = TimeControl::TimeLeft {
        white_time_ms: 60_000,
        black_time_ms: 60_000,
        white_increment_ms: Some(3000),
        black_increment_ms: Some(7000),
        moves_to_go: None,
    };
    tb.seed_time_control(Color::White, &tl);
    assert_eq!(tb.duration_ms, Some(3000));
    tb.seed_time_control(Color::Black, &tl);
    assert_eq!(tb.duration_ms, Some(7000));

    let no_increment = TimeControl::TimeLeft {
        white_time_ms: 60_000,
        black_time_ms: 60_000,
        white_increment_ms: None,
        black_increment_ms: Some(-5),
        moves_to_go: None,
    };
    tb.seed_time_control(Color::White, &no_increment);
    assert_eq!(tb.duration_ms, Some(DEFAULT_MOVE_TIME_MS));
    tb.seed_time_control(Color::Black, &no_increment);
    assert_eq!(tb.duration_ms, Some(DEFAULT_MOVE_TIME_MS));

    tb.seed_time_control(Color::White, &TimeControl::Infinite);
    assert_eq!(tb.duration_ms, None);
}

#[test]
fn stop_signal_reaches_the_receiver() {
    let tb = TimeBroker::new();
    let rx = tb.get_cancel_receiver();
    assert_eq!(*rx.borrow(), false);
    tb.send_stop();
    assert_eq!(*rx.borrow(), true);
}

#[test]
fn route_handshake_replies_in_order() {
    let action = route_message(UciEvent::Uci);
    assert!(action.command.is_none());
    assert_eq!(action.replies.len(), 3);
    assert!(matches!(&action.replies[0], OutMessage::IdName(n) if n == "WolfChess"));
    assert!(matches!(&action.replies[1], OutMessage::IdAuthor(_)));
    assert!(matches!(&action.replies[2], OutMessage::UciOk));
}

#[test]
fn route_custom_tokens_become_commands() {
    let perft_action = route_message(UciEvent::UnknownToken {
        token: "perft".to_string(),
        error_text: "None".to_string(),
    });
    assert!(matches!(perft_action.command, Some(EngineCommand::Perft { depth: 7 })));

    let eval_action = route_message(UciEvent::UnknownToken {
        token: "eval".to_string(),
        error_text: "None".to_string(),
    });
    assert!(matches!(eval_action.command, Some(EngineCommand::EvalCurrentPosition)));

    let show_action = route_message(UciEvent::UnknownToken {
        token: "show".to_string(),
        error_text: "None".to_string(),
    });
    assert!(matches!(show_action.command, Some(EngineCommand::ShowBoard)));

    let unknown = route_message(UciEvent::UnknownToken {
        token: "frobnicate".to_string(),
        error_text: "None".to_string(),
    });
    assert!(unknown.command.is_none());
    assert!(
        matches!(&unknown.replies[0], OutMessage::InfoString(s) if s == "Unknown message - None frobnicate")
    );
}

#[test]
fn route_unsupported_messages_apologise() {
    let action = route_message(UciEvent::Unsupported { message_text: "ponderhit".to_string() });
    assert!(action.command.is_none());
    assert!(
        matches!(&action.replies[0], OutMessage::InfoString(s) if s == "Message not yet implemented - ponderhit")
    );
}

#[test]
fn route_position_and_go_forward_their_payload() {
    let e4 = chess::ChessMove::new(chess::Square::E2, chess::Square::E4, None);
    let action = route_message(UciEvent::Position {
        startpos: true,
        fen: None,
        moves: vec![e4],
    });
    match action.command {
        Some(EngineCommand::SetPosition { startpos, fen, moves }) => {
            assert!(startpos);
            assert!(fen.is_none());
            assert_eq!(moves, vec![e4]);
        }
        other => panic!("unexpected command {:?}", other),
    }

    let go = route_message(UciEvent::Go {
        time_control: Some(TimeControl::Infinite),
        search_control: None,
    });
    assert!(matches!(
        go.command,
        Some(EngineCommand::Search { time_control: Some(TimeControl::Infinite), search_control: None })
    ));
}
