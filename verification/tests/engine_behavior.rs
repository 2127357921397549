use pebbles_game::engine::PebblesGame;
use pebbles_game::rng::{MockRng, RandomSource, RealRng, Rng};
use pebbles_game::types::{
    DifficultyLevel, GameError, PebblesAction, PebblesEvent, PebblesInit, Player,
};

fn start(
    difficulty: DifficultyLevel,
    pebbles_count: u32,
    max_pebbles_per_turn: u32,
    mock_rng: Vec<u32>,
) -> (PebblesGame, Option<PebblesEvent>) {
    PebblesGame::from_init(PebblesInit {
        difficulty,
        pebbles_count,
        max_pebbles_per_turn,
        mock_rng: Some(mock_rng),
    })
    .unwrap()
}

#[test]
fn test_first_player_even_is_user() {
    let (game, event) = start(DifficultyLevel::Easy, 100, 10, vec![0]);
    assert!(game.game_state.first_player == Player::User);
    assert!(event.is_none());
    assert!(game.game_state.pebbles_remaining == 100);
}

#[test]
fn test_first_player_odd_is_program() {
    let (game, event) = start(DifficultyLevel::Easy, 100, 10, vec![1]);
    assert!(game.game_state.first_player == Player::Program);
    // The single value wraps around: the fallback draw is 1 again, so the
    // opener takes 1 % (10 - 1) + 1 = 2 pebbles.
    assert!(event == Some(PebblesEvent::CounterTurn(2)));
    assert!(game.game_state.pebbles_remaining == 98);
}

#[test]
fn test_turn_zero_rejected() {
    let (mut game, _) = start(DifficultyLevel::Easy, 100, 10, vec![0]);
    let snapshot = game.game_state.clone();
    assert!(game.user_turn(0) == Err(GameError::InvalidMove));
    assert!(game.game_state == snapshot);
}

#[test]
fn test_turn_over_cap_rejected() {
    let (mut game, _) = start(DifficultyLevel::Easy, 100, 10, vec![0]);
    let snapshot = game.game_state.clone();
    assert!(game.user_turn(11) == Err(GameError::InvalidMove));
    assert!(game.game_state == snapshot);
}

#[test]
fn test_turn_over_remaining_rejected() {
    let (mut game, _) = start(DifficultyLevel::Easy, 5, 10, vec![0]);
    let snapshot = game.game_state.clone();
    assert!(game.user_turn(7) == Err(GameError::InvalidMove));
    assert!(game.game_state == snapshot);
}

#[test]
fn test_user_winning_move() {
    let (mut game, _) = start(DifficultyLevel::Easy, 5, 10, vec![0]);
    let result = game.user_turn(5);
    assert!(result == Ok((PebblesEvent::Won(Player::User), None)));
    assert!(game.game_state.pebbles_remaining == 0);
    assert!(game.game_state.winner == Some(Player::User));
}

#[test]
fn test_easy_endgame_takes_all() {
    let (mut game, _) = start(DifficultyLevel::Easy, 12, 10, vec![0]);
    // The human leaves 9 on the table; 9 < 10, so Easy takes them all and
    // wins at once.
    let result = game.user_turn(3);
    assert!(
        result == Ok((PebblesEvent::CounterTurn(3), Some(PebblesEvent::Won(Player::Program))))
    );
    assert!(game.game_state.pebbles_remaining == 0);
    assert!(game.game_state.winner == Some(Player::Program));
}

#[test]
fn test_hard_takes_grundy_residue() {
    // First player Program (1 is odd); 100 mod (10 + 1) = 1, so Hard takes
    // exactly 1 and consults no randomness.
    let (mut game, event) = start(DifficultyLevel::Hard, 100, 10, vec![1]);
    assert!(event == Some(PebblesEvent::CounterTurn(1)));
    assert!(game.game_state.pebbles_remaining == 99);

    // Human takes 4, leaving 95; 95 mod 11 = 7, so Hard answers with 7.
    let result = game.user_turn(4);
    assert!(
        result == Ok((PebblesEvent::CounterTurn(4), Some(PebblesEvent::CounterTurn(7))))
    );
    assert!(game.game_state.pebbles_remaining == 88);
}

#[test]
fn test_hard_fallback_on_zero_residue() {
    // 11 mod (10 + 1) = 0: a losing position, so Hard falls back to the
    // random policy; the draw after the coin flip is 3, giving 3 % 9 + 1 = 4.
    let (game, event) = start(DifficultyLevel::Hard, 11, 10, vec![1, 3]);
    assert!(event == Some(PebblesEvent::CounterTurn(4)));
    assert!(game.game_state.pebbles_remaining == 7);
}

#[test]
fn test_cap_of_one_takes_one() {
    // With a per-turn cap of 1 the automated move is always exactly 1, with
    // no draw: the random fallback formula would divide by zero.
    let (game, event) = start(DifficultyLevel::Easy, 5, 1, vec![1]);
    assert!(event == Some(PebblesEvent::CounterTurn(1)));
    assert!(game.game_state.pebbles_remaining == 4);
}

#[test]
fn test_giveup_names_program_winner() {
    let (mut game, _) = start(DifficultyLevel::Easy, 100, 10, vec![0]);
    let result = game.giveup();
    assert!(result == Ok(PebblesEvent::Won(Player::Program)));
    assert!(game.game_state.winner == Some(Player::Program));
    // A concession is not a pebble move: the pile stands as it was.
    assert!(game.game_state.pebbles_remaining == 100);
}

#[test]
fn test_giveup_after_finish_rejected() {
    let (mut game, _) = start(DifficultyLevel::Easy, 9, 10, vec![1, 2]);
    assert!(game.game_state.winner == Some(Player::Program));
    let snapshot = game.game_state.clone();
    assert!(game.giveup() == Err(GameError::GameAlreadyFinished));
    assert!(game.game_state == snapshot);
}

#[test]
fn test_restart_replaces_finished_game() {
    let (mut game, _) = start(DifficultyLevel::Easy, 9, 10, vec![1, 2]);
    assert!(game.game_state.winner.is_some());

    let events = game
        .handle_action(PebblesAction::Restart {
            difficulty: DifficultyLevel::Hard,
            pebbles_count: 50,
            max_pebbles_per_turn: 5,
            mock_rng: Some(vec![0]),
        })
        .unwrap();
    assert!(events.is_empty());
    assert!(game.game_state.pebbles_count == 50);
    assert!(game.game_state.max_pebbles_per_turn == 5);
    assert!(game.game_state.pebbles_remaining == 50);
    assert!(game.game_state.difficulty == DifficultyLevel::Hard);
    assert!(game.game_state.first_player == Player::User);
    assert!(game.game_state.winner.is_none());
}

#[test]
fn test_restart_invalid_config_rejected() {
    let (mut game, _) = start(DifficultyLevel::Easy, 100, 10, vec![0]);
    let snapshot = game.game_state.clone();
    let result = game.handle_action(PebblesAction::Restart {
        difficulty: DifficultyLevel::Easy,
        pebbles_count: 0,
        max_pebbles_per_turn: 10,
        mock_rng: Some(vec![0]),
    });
    assert!(result == Err(GameError::InvalidConfiguration));
    assert!(game.game_state == snapshot);
}

#[test]
fn test_replay_runs_identical() {
    // Identical replay sequences and identical actions give identical event
    // streams and identical final states.
    let actions = [
        PebblesAction::Turn(4),
        PebblesAction::Turn(2),
        PebblesAction::Turn(17),
        PebblesAction::GiveUp,
    ];
    let mut log1: Vec<Result<Vec<PebblesEvent>, GameError>> = Vec::new();
    let mut log2: Vec<Result<Vec<PebblesEvent>, GameError>> = Vec::new();

    let (mut game1, _) = start(DifficultyLevel::Easy, 60, 10, vec![1, 5, 8, 2]);
    for action in actions.iter() {
        log1.push(game1.handle_action(action.clone()));
    }
    let (mut game2, _) = start(DifficultyLevel::Easy, 60, 10, vec![1, 5, 8, 2]);
    for action in actions.iter() {
        log2.push(game2.handle_action(action.clone()));
    }

    assert!(log1 == log2);
    assert!(game1.game_state == game2.game_state);
}

#[test]
fn test_invariant_through_full_game() {
    // At every observable point: the pile never exceeds the starting count,
    // and a winner stands exactly when the pile is empty.
    let check = |game: &PebblesGame| {
        let s = &game.game_state;
        assert!(s.pebbles_remaining <= s.pebbles_count);
        assert!(s.winner.is_some() == (s.pebbles_remaining == 0));
    };

    let (mut game, _) = start(DifficultyLevel::Hard, 23, 4, vec![0, 1, 2, 3]);
    check(&game);
    while game.game_state.winner.is_none() {
        let take = if game.game_state.pebbles_remaining < 2 {
            game.game_state.pebbles_remaining
        } else {
            2
        };
        game.user_turn(take).unwrap();
        check(&game);
    }
}

#[test]
fn test_mock_rng_cycles() {
    let mut rng = MockRng::new(vec![5, 6]).unwrap();
    assert!(rng.draw() == 5);
    assert!(rng.draw() == 6);
    assert!(rng.draw() == 5);
    assert!(rng.gen() == 6);
}

#[test]
fn test_mock_rng_empty_rejected() {
    assert!(matches!(MockRng::new(vec![]), Err(GameError::InvalidConfiguration)));
}

#[test]
fn test_empty_sequence_selects_live_source() {
    assert!(matches!(
        RandomSource::from_mock(Some(vec![])),
        RandomSource::Live(RealRng)
    ));
    assert!(matches!(RandomSource::from_mock(None), RandomSource::Live(RealRng)));
}
