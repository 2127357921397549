use pebbles_game::engine::PebblesGame;
use pebbles_game::types::{
    DifficultyLevel, GameError, PebblesAction, PebblesEvent, PebblesInit, Player,
};

fn init_game(
    difficulty: DifficultyLevel,
    pebbles_count: u32,
    max_pebbles_per_turn: u32,
    mock_rng: Option<Vec<u32>>,
) -> Result<(PebblesGame, Option<PebblesEvent>), GameError> {
    PebblesGame::from_init(PebblesInit { difficulty, pebbles_count, max_pebbles_per_turn, mock_rng })
}

#[test]
fn test_init_user_first() {
    let result = init_game(DifficultyLevel::Easy, 100, 10, Some(vec![0u32]));
    assert!(result.is_ok());

    let (game, event) = result.unwrap();
    let game_state = &game.game_state;
    assert!(event.is_none());
    assert!(game_state.pebbles_count == 100);
    assert!(game_state.max_pebbles_per_turn == 10);
    assert!(game_state.pebbles_remaining == game_state.pebbles_count);
    assert!(game_state.difficulty == DifficultyLevel::Easy);
    assert!(game_state.first_player == Player::User);
    assert!(game_state.winner.is_none());
}

#[test]
fn test_init_program_first() {
    let result = init_game(DifficultyLevel::Easy, 100, 10, Some(vec![1u32, 2u32]));
    assert!(result.is_ok());

    let (game, event) = result.unwrap();
    let game_state = &game.game_state;
    assert!(event.is_some());
    assert!(game_state.pebbles_count == 100);
    assert!(game_state.max_pebbles_per_turn == 10);
    assert!(game_state.pebbles_remaining == 97);
    assert!(game_state.difficulty == DifficultyLevel::Easy);
    assert!(game_state.first_player == Player::Program);
    assert!(game_state.winner.is_none());
}

#[test]
fn test_init_program_win_after_first_turn() {
    let result = init_game(DifficultyLevel::Easy, 9, 10, Some(vec![1u32, 2u32]));
    assert!(result.is_ok());

    let (mut game, event) = result.unwrap();
    assert!(matches!(event, Some(PebblesEvent::Won(Player::Program))));

    assert!(game.game_state.pebbles_remaining == 0);
    assert!(game.game_state.winner == Some(Player::Program));

    let snapshot = game.game_state.clone();
    let turn_result = game.handle_action(PebblesAction::Turn(1));
    assert!(turn_result == Err(GameError::GameAlreadyFinished));
    assert!(game.game_state == snapshot);
}

#[test]
fn test_init_invalid_pebbles_count() {
    let result = init_game(DifficultyLevel::Easy, 0, 10, Some(vec![1u32, 2u32]));
    assert!(result.is_err());
    assert!(result.unwrap_err() == GameError::InvalidConfiguration);
}

#[test]
fn test_init_invalid_max_pebbles_per_turn() {
    let result = init_game(DifficultyLevel::Easy, 100, 0, Some(vec![1u32, 2u32]));
    assert!(result.is_err());
    assert!(result.unwrap_err() == GameError::InvalidConfiguration);
}
