//! Data model of the pebbles game: players, difficulty levels, actions,
//! events, errors, and the authoritative game state with its invariant.

use vstd::prelude::*;

verus! {

/// The two sides of a game.
#[derive(Clone, Copy, Debug, PartialEq, Eq, Structural)]
pub enum Player {
    User,
    Program,
}

/// Strategy the automated player follows.
#[derive(Clone, Copy, Debug, PartialEq, Eq, Structural)]
pub enum DifficultyLevel {
    Easy,
    Hard,
}

/// A closed enumeration of everything that can go wrong inside the engine.
/// Every operation either applies fully or fails with one of these and
/// leaves the state untouched.
#[derive(Clone, Copy, Debug, PartialEq, Eq, Structural)]
pub enum GameError {
    /// `pebbles_count == 0`, `max_pebbles_per_turn == 0`, or an empty
    /// replay sequence at construction or restart time.
    InvalidConfiguration,
    /// A zero count, a count over the per-turn cap, or a count over the
    /// remaining pebbles.
    InvalidMove,
    /// A turn or a concession once a winner is set.
    GameAlreadyFinished,
}

/// Externally observable outcome of one applied move.
#[derive(Clone, Copy, Debug, PartialEq, Eq, Structural)]
pub enum PebblesEvent {
    /// The game goes on; the mover took this many pebbles.
    CounterTurn(u32),
    /// The named side emptied the pile (or the other side conceded).
    Won(Player),
}

/// An initialization request: the game parameters and, optionally, a fixed
/// sequence of values to replay instead of drawing live entropy.
#[derive(Clone, Debug)]
pub struct PebblesInit {
    /// Strategy of the automated player.
    pub difficulty: DifficultyLevel,
    /// Total pebbles to start with; must be at least 1.
    pub pebbles_count: u32,
    /// Per-turn move cap; must be at least 1.
    pub max_pebbles_per_turn: u32,
    /// When present and non-empty, the coin flip and every automated fallback
    /// draw replay this sequence; otherwise they come from live entropy.
    pub mock_rng: Option<Vec<u32>>,
}

/// One request a caller can submit to a running game.
#[derive(Clone, Debug)]
pub enum PebblesAction {
    /// The human takes this many pebbles.
    Turn(u32),
    /// The human concedes.
    GiveUp,
    /// Replace the whole game, re-rolling the first player.
    Restart {
        /// Strategy of the automated player.
        difficulty: DifficultyLevel,
        /// Total pebbles to start with; must be at least 1.
        pebbles_count: u32,
        /// Per-turn move cap; must be at least 1.
        max_pebbles_per_turn: u32,
        /// Replay sequence, as in [`PebblesInit`].
        mock_rng: Option<Vec<u32>>,
    },
}

/// Name of this game under the actor metadata scheme; the transport shell
/// attaches the message types to it.
pub struct PebblesMetadata;

/// The authoritative snapshot of one game.
#[derive(Clone, Debug, PartialEq, Eq)]
pub struct GameState {
    /// Total pebbles the game started with; immutable after creation.
    pub pebbles_count: u32,
    /// Per-turn move cap; immutable after creation, at least 1.
    pub max_pebbles_per_turn: u32,
    /// Pebbles still on the table; non-increasing, starts at `pebbles_count`.
    pub pebbles_remaining: u32,
    /// Strategy of the automated player; immutable after creation.
    pub difficulty: DifficultyLevel,
    /// Who moved first; decided once at creation by a coin flip.
    pub first_player: Player,
    /// Unset while the game is in progress; set exactly once.
    pub winner: Option<Player>,
}

impl GameState {
    /// Well-formedness every reachable state satisfies: positive parameters,
    /// remaining pebbles within bounds, and an empty pile always has a winner.
    pub open spec fn wf(&self) -> bool {
        &&& self.pebbles_count >= 1
        &&& self.max_pebbles_per_turn >= 1
        &&& self.pebbles_remaining <= self.pebbles_count
        &&& (self.pebbles_remaining == 0 ==> self.winner is Some)
    }

    /// The stronger invariant of states reached by pebble moves alone: a
    /// winner is set exactly when the pile is empty. A concession breaks the
    /// left-to-right direction (it names a winner with pebbles still on the
    /// table), so this is stated separately from [`GameState::wf`].
    pub open spec fn winner_matches_pile(&self) -> bool {
        self.winner is Some <==> self.pebbles_remaining == 0
    }
}

/// The state a fresh game starts in, before any automated first move.
pub open spec fn initial_state(
    difficulty: DifficultyLevel,
    pebbles_count: u32,
    max_pebbles_per_turn: u32,
    first: Player,
) -> GameState {
    GameState {
        pebbles_count,
        max_pebbles_per_turn,
        pebbles_remaining: pebbles_count,
        difficulty,
        first_player: first,
        winner: None,
    }
}

/// Who moves first, from one drawn value: even picks the human.
pub open spec fn first_player_of(v: u32) -> Player {
    if v % 2 == 0 {
        Player::User
    } else {
        Player::Program
    }
}

} // verus!
