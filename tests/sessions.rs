use chess_sessions::board_update::{notices, storage_plan};
use chess_sessions::chess::{classify, is_draw_offer, ChessError, ChessGame, Color, MoveStatus, Outcome};
use chess_sessions::engine::START_FEN;
use chess_sessions::players::{Player, PlayerPlatform};
use chess_sessions::rating::{settlement, RatingOutcome};
use chess_sessions::records::{CreateGameError, Game, GameOutcome, RawGame};
use chess_sessions::registry::{seat_players, GameRegistry};
use chess_sessions::session::{Credentials, UserId};

fn discord(user_id: u64) -> PlayerPlatform {
    PlayerPlatform::Discord { user_id, channel_id: 500, message_id: 900 + user_id }
}

fn player(id: i64, name: &str, user_id: u64) -> Player {
    Player::new(id, name.to_string(), discord(user_id))
}

fn registry_with_game() -> GameRegistry {
    let mut reg = GameRegistry::new();
    reg.create_game(7, player(1, "alice", 11), player(2, "bob", 22)).unwrap();
    reg
}

fn board_of(reg: &GameRegistry, p: &PlayerPlatform) -> Vec<String> {
    reg.get_moves(p)
}

#[test]
fn opening_move_is_a_move_and_passes_the_turn() {
    let mut game = ChessGame::new();
    assert_eq!(game.board(), START_FEN);
    let r = game.play_move(Color::White, "e4");
    assert!(matches!(r, Ok(MoveStatus::Move(ref m)) if m == "e4"));
    assert_ne!(game.board(), START_FEN);
    let fields: Vec<&str> = game.board().split(' ').collect();
    let ranks: Vec<&str> = fields[0].split('/').collect();
    assert_eq!(ranks[4], "4P".to_string() + "3");
    assert_eq!(ranks[6], "PPPP".to_string() + "1PPP");
    assert_eq!(fields[1], "b");
    assert_eq!(game.turn(), Color::Black);
}

#[test]
fn registry_opening_move() {
    let mut reg = registry_with_game();
    let r = reg.play_move(&discord(11), "e4");
    assert!(matches!(r, Ok(MoveStatus::Move(ref m)) if m == "e4"));
    // black now has 20 replies and the draw token
    let moves = board_of(&reg, &discord(22));
    assert_eq!(moves.len(), 21);
    assert!(moves.contains(&"e5".to_string()));
}

#[test]
fn moving_out_of_turn_is_refused() {
    let mut reg = registry_with_game();
    let r = reg.play_move(&discord(22), "e5");
    assert!(matches!(r, Err(ChessError::NotYourTurn)));
    let mut game = ChessGame::new();
    assert!(matches!(game.play_move(Color::Black, "e5"), Err(ChessError::NotYourTurn)));
    assert_eq!(game.board(), START_FEN);
    // white can still play
    assert!(matches!(reg.play_move(&discord(11), "d4"), Ok(MoveStatus::Move(_))));
}

#[test]
fn invalid_move_is_refused_and_changes_nothing() {
    let mut game = ChessGame::new();
    assert!(matches!(game.play_move(Color::White, "e5"), Err(ChessError::InvalidMove)));
    assert!(matches!(game.play_move(Color::White, "zz"), Err(ChessError::InvalidMove)));
    assert_eq!(game.board(), START_FEN);
}

#[test]
fn checkmate_ends_and_rates_once() {
    let mut reg = registry_with_game();
    assert!(reg.play_move(&discord(11), "f3").is_ok());
    assert!(reg.play_move(&discord(22), "e5").is_ok());
    assert!(reg.play_move(&discord(11), "g4").is_ok());
    let r = reg.play_move(&discord(22), "Qh4#");
    let status = r.unwrap();
    assert!(matches!(status, MoveStatus::Checkmate(ref m) if m == "Qh4"));
    assert!(status.is_terminal());
    let c = reg.conclude_game(&discord(22)).unwrap();
    assert_eq!(c.id, 7);
    assert_eq!(c.outcome, Some(Outcome::Decisive { winner: Color::Black }));
    assert_eq!(c.rating, Some(RatingOutcome::Loss));
    assert_eq!(reg.len(), 0);
    assert!(reg.conclude_game(&discord(22)).is_none());
    assert!(reg.conclude_game(&discord(11)).is_none());
    assert!(matches!(reg.play_move(&discord(11), "e4"), Err(ChessError::InvalidPlayer)));
}

#[test]
fn move_after_mate_is_game_over() {
    let mut game = ChessGame::new();
    for (side, m) in [(Color::White, "f3"), (Color::Black, "e5"), (Color::White, "g4"), (Color::Black, "Qh4")] {
        assert!(game.play_move(side, m).is_ok());
    }
    assert!(game.is_terminal());
    assert_eq!(game.outcome(), Some(Outcome::Decisive { winner: Color::Black }));
    assert!(matches!(game.play_move(Color::White, "e4"), Err(ChessError::GameOver)));
    assert!(matches!(game.play_move(Color::Black, "e4"), Err(ChessError::GameOver)));
}

#[test]
fn check_is_reported() {
    let mut game = ChessGame::new();
    assert!(game.play_move(Color::White, "e4").is_ok());
    assert!(game.play_move(Color::Black, "d5").is_ok());
    let r = game.play_move(Color::White, "Bb5+");
    assert!(matches!(r, Ok(MoveStatus::Check(ref m)) if m == "Bb5"));
    assert!(game.is_check());
    assert_eq!(game.outcome(), None);
}

#[test]
fn mate_is_classified_before_check() {
    let s = classify("Qh4".to_string(), Some(Outcome::Decisive { winner: Color::Black }), true);
    assert!(matches!(s, MoveStatus::Checkmate(_)));
    let s = classify("Kb1".to_string(), Some(Outcome::Draw), false);
    assert!(matches!(s, MoveStatus::Stalemate(_)));
    let s = classify("Bb5".to_string(), None, true);
    assert!(matches!(s, MoveStatus::Check(_)));
    let s = classify("e4".to_string(), None, false);
    assert!(matches!(s, MoveStatus::Move(_)));
}

#[test]
fn draw_offer_then_accept() {
    let mut reg = registry_with_game();
    let r = reg.play_move(&discord(11), "=");
    assert!(matches!(r, Ok(MoveStatus::DrawOffer(Color::White))));
    let r = reg.play_move(&discord(22), "=");
    assert!(matches!(r, Ok(MoveStatus::Draw)));
    let c = reg.conclude_game(&discord(22)).unwrap();
    assert_eq!(c.outcome, None);
    assert_eq!(c.rating, None);
    assert_eq!(reg.len(), 0);
}

#[test]
fn draw_reoffer_is_idempotent() {
    let mut game = ChessGame::new();
    assert!(!game.draw_offer(Color::White));
    assert!(!game.draw_offer(Color::White));
    assert_eq!(game.pending_draw_offer(), Some(Color::White));
    assert!(game.draw_offer(Color::Black));
    let mut reg = registry_with_game();
    assert!(matches!(reg.play_move(&discord(22), "="), Ok(MoveStatus::DrawOffer(Color::Black))));
    assert!(matches!(reg.play_move(&discord(22), "="), Ok(MoveStatus::DrawOffer(Color::Black))));
    assert_eq!(reg.len(), 1);
}

#[test]
fn move_clears_draw_offer() {
    let mut game = ChessGame::new();
    assert!(!game.draw_offer(Color::Black));
    assert!(game.play_move(Color::White, "e4").is_ok());
    assert_eq!(game.pending_draw_offer(), None);
    assert!(!game.draw_offer(Color::White));
}

#[test]
fn second_game_for_a_player_is_refused() {
    let mut reg = registry_with_game();
    let r = reg.create_game(8, player(1, "alice", 11), player(3, "carol", 33));
    assert_eq!(r, Err(CreateGameError::PlayerInGame));
    let r = reg.create_game(8, player(4, "dave", 44), player(2, "bob", 22));
    assert_eq!(r, Err(CreateGameError::PlayerInGame));
    assert_eq!(reg.len(), 1);
    assert!(reg.create_game(9, player(3, "carol", 33), player(4, "dave", 44)).is_ok());
    assert_eq!(reg.len(), 2);
    assert!(reg.player_in_game(4));
    assert!(!reg.player_in_game(5));
}

#[test]
fn unknown_player_is_invalid() {
    let mut reg = registry_with_game();
    let r = reg.play_move(&discord(99), "e4");
    assert!(matches!(r, Err(ChessError::InvalidPlayer)));
    let r = reg.play_move(&PlayerPlatform::WebApi { user_id: 1 }, "e4");
    assert!(matches!(r, Err(ChessError::InvalidPlayer)));
    assert!(reg.get_moves(&discord(99)).is_empty());
}

#[test]
fn self_play_is_not_rated() {
    let mut reg = GameRegistry::new();
    let white = Player::new(5, "eve".to_string(), discord(55));
    let black = Player::new(5, "eve".to_string(), PlayerPlatform::WebApi { user_id: 5 });
    reg.create_game(3, white, black).unwrap();
    let black_handle = PlayerPlatform::WebApi { user_id: 5 };
    assert!(reg.play_move(&discord(55), "f3").is_ok());
    assert!(reg.play_move(&black_handle, "e5").is_ok());
    assert!(reg.play_move(&discord(55), "g4").is_ok());
    assert!(matches!(reg.play_move(&black_handle, "Qh4"), Ok(MoveStatus::Checkmate(_))));
    let c = reg.conclude_game(&black_handle).unwrap();
    assert!(c.outcome.is_some());
    assert_eq!(c.rating, None);
}

#[test]
fn settlement_results() {
    let a = player(1, "a", 1);
    let b = player(2, "b", 2);
    assert_eq!(settlement(&a, &b, Some(Outcome::Decisive { winner: Color::White })), Some(RatingOutcome::Win));
    assert_eq!(settlement(&a, &b, Some(Outcome::Decisive { winner: Color::Black })), Some(RatingOutcome::Loss));
    assert_eq!(settlement(&a, &b, Some(Outcome::Draw)), Some(RatingOutcome::Draw));
    assert_eq!(settlement(&a, &b, None), None);
    assert_eq!(settlement(&a, &a, Some(Outcome::Draw)), None);
}

#[test]
fn find_player_on_discord() {
    let reg = registry_with_game();
    assert_eq!(reg.find_player_discord(22).map(|p| p == discord(22)), Some(true));
    assert!(matches!(reg.find_player_discord(11), Some(PlayerPlatform::Discord { user_id: 11, message_id: 911, .. })));
    assert!(reg.find_player_discord(33).is_none());
}

#[test]
fn platform_equality_ignores_message() {
    let a = PlayerPlatform::Discord { user_id: 1, channel_id: 2, message_id: 3 };
    let b = PlayerPlatform::Discord { user_id: 1, channel_id: 4, message_id: 5 };
    assert!(a == b);
    assert!(a != PlayerPlatform::WebApi { user_id: 1 });
    assert!(player(1, "x", 1) == Player::new(1, "y".to_string(), PlayerPlatform::WebApi { user_id: 9 }));
    assert!(player(1, "x", 1) != player(2, "x", 1));
}

#[test]
fn legal_moves_include_draw_token() {
    let game = ChessGame::new();
    let moves = game.valid_moves_san();
    assert_eq!(moves.len(), 21);
    assert_eq!(moves.last().map(|s| s.as_str()), Some("="));
    assert!(moves.contains(&"Nf3".to_string()));
    assert!(is_draw_offer("="));
    assert!(!is_draw_offer("=="));
    assert!(!is_draw_offer(""));
}

#[test]
fn storage_plan_per_transition() {
    let p = storage_plan(&MoveStatus::Move("e4".to_string()), Color::White, 1, 2);
    let rec = p.record.unwrap();
    assert_eq!((rec.player_id, rec.san.as_str()), (1, "e4"));
    assert_eq!(p.outcome, None);
    let p = storage_plan(&MoveStatus::Checkmate("Qh4".to_string()), Color::Black, 1, 2);
    assert_eq!(p.record.unwrap().player_id, 2);
    assert_eq!(p.outcome, Some(GameOutcome::BlackWin));
    let p = storage_plan(&MoveStatus::Stalemate("Kb1".to_string()), Color::White, 1, 2);
    assert_eq!(p.outcome, Some(GameOutcome::Draw));
    let p = storage_plan(&MoveStatus::Draw, Color::White, 1, 2);
    assert!(p.record.is_none());
    assert_eq!(p.outcome, Some(GameOutcome::Draw));
    let p = storage_plan(&MoveStatus::DrawOffer(Color::White), Color::White, 1, 2);
    assert!(p.record.is_none() && p.outcome.is_none());
}

#[test]
fn notices_opponent_first() {
    let w = player(1, "alice", 1);
    let b = player(2, "bob", 2);
    let n = notices(&w, &b, Color::White, Color::Black);
    assert_eq!(n.len(), 2);
    assert_eq!(n[0].recipient, Color::Black);
    assert_eq!(n[0].opponent_name, "alice");
    assert!(n[0].is_recipient_turn);
    assert_eq!(n[1].recipient, Color::White);
    assert_eq!(n[1].opponent_name, "bob");
    assert!(!n[1].is_recipient_turn);
}

#[test]
fn outcome_codes() {
    assert_eq!(GameOutcome::Draw.code(), 0);
    assert_eq!(GameOutcome::WhiteWin.code(), 1);
    assert_eq!(GameOutcome::BlackWin.code(), 2);
    assert_eq!(GameOutcome::from_code(2), Some(GameOutcome::BlackWin));
    assert_eq!(GameOutcome::from_code(3), None);
    assert_eq!(GameOutcome::from_outcome(Outcome::Decisive { winner: Color::White }), GameOutcome::WhiteWin);
    let g = Game::from_raw(RawGame { id: 1, white_id: 2, black_id: 3, outcome: Some(1), created_at: 1_700_000_000 }).unwrap();
    assert_eq!((g.id(), g.white_id(), g.black_id(), g.outcome(), g.created_at()), (1, 2, 3, Some(GameOutcome::WhiteWin), 1_700_000_000));
    assert!(Game::from_raw(RawGame { id: 1, white_id: 2, black_id: 3, outcome: Some(7), created_at: 0 }).is_none());
}

#[test]
fn username_taken_errors() {
    let r = seat_players(None, Some(player(2, "b", 2)));
    assert_eq!(r.err(), Some(CreateGameError::UsernameTaken(Color::White)));
    let r = seat_players(Some(player(1, "a", 1)), None);
    assert_eq!(r.err(), Some(CreateGameError::UsernameTaken(Color::Black)));
    let (w, b) = seat_players(Some(player(1, "a", 1)), Some(player(2, "b", 2))).unwrap();
    assert_eq!((w.id(), b.id()), (1, 2));
}

#[test]
fn session_user_id() {
    let u = UserId::new(42, Credentials::Email { id: 3, data: vec![1, 2, 3] });
    assert_eq!(u.id(), 42);
    assert!(matches!(u.method(), Credentials::Email { id: 3, .. }));
    assert_eq!(ChessError::NotYourTurn.message(), "It is not your turn!");
}
