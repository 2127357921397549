//! General laws of the engine, stated and proved over the same spec-level
//! outcome functions that the executable operations' contracts are written
//! against.

use vstd::prelude::*;

use crate::engine::{
    apply_move, invalid_count, new_outcome_with, program_count, program_turn_with, step_spec,
    step_with, PebblesGame,
};
use crate::rng::RandomSource;
use crate::types::{
    first_player_of, initial_state, DifficultyLevel, GameState, PebblesAction, PebblesEvent,
    Player,
};

verus! {

/// The automated move is always legal: at least one pebble, at most the
/// per-turn cap, and never more than remain on the table.
pub proof fn lemma_program_count_legal(gs: GameState, v: u32)
    requires
        gs.wf(),
        gs.winner is None,
    ensures
        1 <= program_count(gs, v),
        program_count(gs, v) <= gs.max_pebbles_per_turn,
        program_count(gs, v) <= gs.pebbles_remaining,
{
    let r = gs.pebbles_remaining as int;
    let m = gs.max_pebbles_per_turn as int;
    if gs.difficulty is Hard {
        assert(r % (m + 1) <= m);
        if r < m + 1 {
            vstd::arithmetic::div_mod::lemma_small_mod(r as nat, (m + 1) as nat);
        }
    }
}

/// One automated turn from a live, well-formed game keeps the state well
/// formed, and sets a winner exactly when it empties the pile.
pub proof fn lemma_program_turn_with_wf(g: PebblesGame, v: u32)
    requires
        g.wf(),
        g.game_state.winner is None,
    ensures
        program_turn_with(g, v).0.wf(),
        program_turn_with(g, v).0.game_state.winner_matches_pile(),
{
    lemma_program_count_legal(g.game_state, v);
}

/// Construction establishes the full invariant: a successful start — whether
/// or not the automated side opened, and whether or not its opening move
/// already won — yields a well-formed state whose winner stands exactly when
/// the pile is empty.
pub proof fn lemma_new_outcome_invariant(
    difficulty: DifficultyLevel,
    pebbles_count: u32,
    max_pebbles_per_turn: u32,
    rng: RandomSource,
    v0: u32,
    v1: u32,
)
    requires
        pebbles_count >= 1,
        max_pebbles_per_turn >= 1,
        rng.wf(),
    ensures
        new_outcome_with(difficulty, pebbles_count, max_pebbles_per_turn, rng, v0, v1).0.wf(),
        new_outcome_with(
            difficulty,
            pebbles_count,
            max_pebbles_per_turn,
            rng,
            v0,
            v1,
        ).0.game_state.winner_matches_pile(),
{
    let first = first_player_of(v0);
    let g = PebblesGame {
        game_state: initial_state(difficulty, pebbles_count, max_pebbles_per_turn, first),
        rng: rng.advanced(),
    };
    if first != Player::User {
        lemma_program_turn_with_wf(g, v1);
    }
}

/// Every step of the request interface keeps the state well formed, whatever
/// values the draws produce.
pub proof fn lemma_step_preserves_wf(g: PebblesGame, action: PebblesAction, v0: u32, v1: u32)
    requires
        g.wf(),
    ensures
        step_with(g, action, v0, v1).0.wf(),
{
    match action {
        PebblesAction::Turn(count) => {
            if g.game_state.winner is None && !invalid_count(g.game_state, count) {
                let gs1 = apply_move(g.game_state, Player::User, count);
                let g1 = PebblesGame { game_state: gs1, rng: g.rng };
                if gs1.winner is None {
                    lemma_program_turn_with_wf(g1, v0);
                }
            }
        },
        PebblesAction::GiveUp => {
        },
        PebblesAction::Restart { difficulty, pebbles_count, max_pebbles_per_turn, mock_rng } => {
            if pebbles_count != 0 && max_pebbles_per_turn != 0 {
                lemma_new_outcome_invariant(
                    difficulty,
                    pebbles_count,
                    max_pebbles_per_turn,
                    RandomSource::source_of(mock_rng),
                    v0,
                    v1,
                );
            }
        },
    }
}

/// The pile–winner agreement is an invariant of every step but a concession:
/// from a state where a winner stands exactly when the pile is empty, a turn
/// or a restart reaches only such states again. A concession is the one
/// exception — it names the automated side winner with pebbles still on the
/// table (though it, too, keeps [`GameState::wf`]).
pub proof fn lemma_step_preserves_winner_pile(
    g: PebblesGame,
    action: PebblesAction,
    v0: u32,
    v1: u32,
)
    requires
        g.wf(),
        g.game_state.winner_matches_pile(),
        !(action is GiveUp),
    ensures
        step_with(g, action, v0, v1).0.game_state.winner_matches_pile(),
{
    match action {
        PebblesAction::Turn(count) => {
            if g.game_state.winner is None && !invalid_count(g.game_state, count) {
                let gs1 = apply_move(g.game_state, Player::User, count);
                let g1 = PebblesGame { game_state: gs1, rng: g.rng };
                if gs1.winner is None {
                    lemma_program_turn_with_wf(g1, v0);
                }
            }
        },
        PebblesAction::GiveUp => {
        },
        PebblesAction::Restart { difficulty, pebbles_count, max_pebbles_per_turn, mock_rng } => {
            if pebbles_count != 0 && max_pebbles_per_turn != 0 {
                lemma_new_outcome_invariant(
                    difficulty,
                    pebbles_count,
                    max_pebbles_per_turn,
                    RandomSource::source_of(mock_rng),
                    v0,
                    v1,
                );
            }
        },
    }
}

/// A finite run of the request interface with replay draws: the engine and
/// the concatenated events after the actions are handled in order.
pub open spec fn run_spec(g: PebblesGame, actions: Seq<PebblesAction>) -> (
    PebblesGame,
    Seq<PebblesEvent>,
)
    decreases actions.len(),
{
    if actions.len() == 0 {
        (g, Seq::empty())
    } else {
        let first = step_spec(g, actions[0]);
        let rest = run_spec(first.0, actions.drop_first());
        (rest.0, first.1 + rest.1)
    }
}

/// Determinism: with a replay source every step is the pure function
/// [`step_spec`], so identical engines given identical action sequences end
/// in identical states, having emitted identical event sequences.
pub proof fn lemma_replay_runs_identical(
    g1: PebblesGame,
    g2: PebblesGame,
    actions1: Seq<PebblesAction>,
    actions2: Seq<PebblesAction>,
)
    requires
        g1 == g2,
        actions1 == actions2,
        g1.rng.is_replay(),
    ensures
        run_spec(g1, actions1) == run_spec(g2, actions2),
{
}

/// At Hard difficulty with a nonzero Grundy residue `r mod (m + 1)` the
/// automated player takes exactly the residue — the game-theoretically
/// correct move — and consults no randomness: the source is left untouched
/// whatever value it would have produced.
pub proof fn lemma_hard_move_takes_residue(g: PebblesGame, v: u32)
    requires
        g.wf(),
        g.game_state.winner is None,
        g.game_state.difficulty == DifficultyLevel::Hard,
        g.game_state.pebbles_remaining as int % (g.game_state.max_pebbles_per_turn as int + 1)
            != 0,
    ensures
        program_count(g.game_state, v) == g.game_state.pebbles_remaining as int % (
        g.game_state.max_pebbles_per_turn as int + 1),
        program_turn_with(g, v).0.rng == g.rng,
{
}

/// Easy endgame: with fewer pebbles remaining than the per-turn cap the
/// automated player takes them all, ends the game at once as the winner, and
/// consults no randomness.
pub proof fn lemma_easy_endgame_wins(g: PebblesGame, v: u32)
    requires
        g.wf(),
        g.game_state.winner is None,
        g.game_state.difficulty == DifficultyLevel::Easy,
        g.game_state.pebbles_remaining < g.game_state.max_pebbles_per_turn,
    ensures
        program_turn_with(g, v).0.game_state.pebbles_remaining == 0,
        program_turn_with(g, v).0.game_state.winner == Some(Player::Program),
        program_turn_with(g, v).1 == PebblesEvent::Won(Player::Program),
        program_turn_with(g, v).0.rng == g.rng,
{
}

} // verus!
