//! The game engine: holds the authoritative state and a random source,
//! applies human moves, computes automated counter-moves, and detects wins.

use vstd::prelude::*;

use crate::rng::RandomSource;
use crate::types::{
    first_player_of, initial_state, DifficultyLevel, GameError, GameState, PebblesAction,
    PebblesEvent, PebblesInit, Player,
};

verus! {

/// One game: its state and the random source it exclusively owns.
#[derive(Clone, Debug)]
pub struct PebblesGame {
    /// The authoritative snapshot.
    pub game_state: GameState,
    /// Source of the coin flip and of the random fallback moves.
    pub rng: RandomSource,
}

impl PebblesGame {
    /// Well-formed: the state keeps its invariant and the source can be drawn
    /// from.
    pub open spec fn wf(&self) -> bool {
        &&& self.game_state.wf()
        &&& self.rng.wf()
    }
}

/// The state after the named side takes `count` pebbles: the pile shrinks,
/// and the mover wins exactly when it empties the pile.
pub open spec fn apply_move(gs: GameState, mover: Player, count: u32) -> GameState
    recommends
        count <= gs.pebbles_remaining,
{
    GameState {
        pebbles_remaining: (gs.pebbles_remaining - count) as u32,
        winner: if gs.pebbles_remaining == count {
            Some(mover)
        } else {
            gs.winner
        },
        ..gs
    }
}

/// The event the move emits: a win when it empties the pile, otherwise the
/// count taken.
pub open spec fn move_event(gs: GameState, mover: Player, count: u32) -> PebblesEvent {
    if gs.pebbles_remaining == count {
        PebblesEvent::Won(mover)
    } else {
        PebblesEvent::CounterTurn(count)
    }
}

/// The automated move where the strategy needs no random draw: the whole
/// remaining pile at Easy when it is under the cap, the Grundy residue at
/// Hard when it is nonzero, and the single legal move when the cap is 1.
pub open spec fn deterministic_move(gs: GameState) -> Option<u32> {
    match gs.difficulty {
        DifficultyLevel::Easy => {
            if gs.pebbles_remaining < gs.max_pebbles_per_turn {
                Some(gs.pebbles_remaining)
            } else if gs.max_pebbles_per_turn == 1 {
                Some(1u32)
            } else {
                None
            }
        },
        DifficultyLevel::Hard => {
            let g = gs.pebbles_remaining as int % (gs.max_pebbles_per_turn as int + 1);
            if g != 0 {
                Some(g as u32)
            } else if gs.max_pebbles_per_turn == 1 {
                Some(1u32)
            } else {
                None
            }
        },
    }
}

/// The random fallback move built from a drawn value: somewhere in
/// `1 ..= max - 1`, deliberately never the cap itself. Only consulted when
/// the cap is at least 2.
pub open spec fn fallback_move(v: u32, max: u32) -> u32
    recommends
        max >= 2,
{
    (v as int % (max as int - 1) + 1) as u32
}

/// The automated move, given the value `v` the source would hand out next
/// (`v` is irrelevant where the strategy is deterministic).
pub open spec fn program_count(gs: GameState, v: u32) -> u32 {
    match deterministic_move(gs) {
        Some(c) => c,
        None => fallback_move(v, gs.max_pebbles_per_turn),
    }
}

/// The engine and the event after one automated turn, when the drawn value
/// (if the strategy consults the source at all) is `v`.
pub open spec fn program_turn_with(g: PebblesGame, v: u32) -> (PebblesGame, PebblesEvent) {
    let c = program_count(g.game_state, v);
    let rng = if deterministic_move(g.game_state) is Some {
        g.rng
    } else {
        g.rng.advanced()
    };
    (
        PebblesGame { game_state: apply_move(g.game_state, Player::Program, c), rng },
        move_event(g.game_state, Player::Program, c),
    )
}

/// The engine and the optional opening event a successful construction
/// produces, when the coin flip draws `v0` and the automated opener (if the
/// automated side starts and its strategy needs a draw) draws `v1`.
pub open spec fn new_outcome_with(
    difficulty: DifficultyLevel,
    pebbles_count: u32,
    max_pebbles_per_turn: u32,
    rng: RandomSource,
    v0: u32,
    v1: u32,
) -> (PebblesGame, Option<PebblesEvent>) {
    let first = first_player_of(v0);
    let g = PebblesGame {
        game_state: initial_state(difficulty, pebbles_count, max_pebbles_per_turn, first),
        rng: rng.advanced(),
    };
    if first == Player::User {
        (g, None)
    } else {
        let (g2, ev) = program_turn_with(g, v1);
        (g2, Some(ev))
    }
}

/// A human count the engine refuses: zero, over the per-turn cap, or over
/// the remaining pebbles.
pub open spec fn invalid_count(gs: GameState, count: u32) -> bool {
    count == 0 || count > gs.max_pebbles_per_turn || count > gs.pebbles_remaining
}

/// Outcome of one human turn: the engine afterwards and the result handed
/// back, when the value a needed random draw would produce is `v`. An error
/// leaves the engine untouched.
pub open spec fn user_turn_with(g: PebblesGame, count: u32, v: u32) -> (
    PebblesGame,
    Result<(PebblesEvent, Option<PebblesEvent>), GameError>,
) {
    if g.game_state.winner is Some {
        (g, Err(GameError::GameAlreadyFinished))
    } else if invalid_count(g.game_state, count) {
        (g, Err(GameError::InvalidMove))
    } else {
        let gs1 = apply_move(g.game_state, Player::User, count);
        let ev1 = move_event(g.game_state, Player::User, count);
        let g1 = PebblesGame { game_state: gs1, rng: g.rng };
        if gs1.winner is Some {
            (g1, Ok((ev1, None)))
        } else {
            let (g2, ev2) = program_turn_with(g1, v);
            (g2, Ok((ev1, Some(ev2))))
        }
    }
}

/// Outcome of a concession: the automated side wins, the pile is left as it
/// stands; after the game has ended a concession is refused unchanged.
pub open spec fn giveup_outcome(g: PebblesGame) -> (PebblesGame, Result<
    PebblesEvent,
    GameError,
>) {
    if g.game_state.winner is Some {
        (g, Err(GameError::GameAlreadyFinished))
    } else {
        (
            PebblesGame {
                game_state: GameState { winner: Some(Player::Program), ..g.game_state },
                rng: g.rng,
            },
            Ok(PebblesEvent::Won(Player::Program)),
        )
    }
}

/// One step of the request interface: the engine afterwards, the events
/// emitted (none when the action aborts), and the error when it did — given
/// the values the draws the step needs would produce (`v0` the first, `v1`
/// the second; a turn needs at most one, a restart at most two).
pub open spec fn step_with(g: PebblesGame, action: PebblesAction, v0: u32, v1: u32) -> (
    PebblesGame,
    Seq<PebblesEvent>,
    Option<GameError>,
) {
    match action {
        PebblesAction::Turn(count) => {
            let (g2, r) = user_turn_with(g, count, v0);
            match r {
                Ok(evs) => {
                    match evs.1 {
                        Some(e2) => (g2, seq![evs.0, e2], None),
                        None => (g2, seq![evs.0], None),
                    }
                },
                Err(e) => (g2, Seq::empty(), Some(e)),
            }
        },
        PebblesAction::GiveUp => {
            let (g2, r) = giveup_outcome(g);
            match r {
                Ok(e) => (g2, seq![e], None),
                Err(e) => (g2, Seq::empty(), Some(e)),
            }
        },
        PebblesAction::Restart { difficulty, pebbles_count, max_pebbles_per_turn, mock_rng } => {
            if pebbles_count == 0 || max_pebbles_per_turn == 0 {
                (g, Seq::empty(), Some(GameError::InvalidConfiguration))
            } else {
                let (g2, ev) = new_outcome_with(
                    difficulty,
                    pebbles_count,
                    max_pebbles_per_turn,
                    RandomSource::source_of(mock_rng),
                    v0,
                    v1,
                );
                match ev {
                    Some(e) => (g2, seq![e], None),
                    None => (g2, Seq::empty(), None),
                }
            }
        },
    }
}

/// Is the step's outcome a function of the engine and the action alone? True
/// when the source the step would draw from replays a fixed sequence.
pub open spec fn action_replay(g: PebblesGame, action: PebblesAction) -> bool {
    match action {
        PebblesAction::Restart { mock_rng, .. } => RandomSource::source_of(mock_rng).is_replay(),
        _ => g.rng.is_replay(),
    }
}

/// The one outcome a step has when its source replays a fixed sequence: the
/// draws are the values the source holds next.
pub open spec fn step_spec(g: PebblesGame, action: PebblesAction) -> (
    PebblesGame,
    Seq<PebblesEvent>,
    Option<GameError>,
) {
    match action {
        PebblesAction::Restart { mock_rng, .. } => {
            let s = RandomSource::source_of(mock_rng);
            step_with(g, action, s.peek(), s.advanced().peek())
        },
        _ => step_with(g, action, g.rng.peek(), 0u32),
    }
}

/// The events a dispatch result carries: none when the action aborted.
pub open spec fn step_events(r: Result<Vec<PebblesEvent>, GameError>) -> Seq<PebblesEvent> {
    match r {
        Ok(evs) => evs@,
        Err(_) => Seq::empty(),
    }
}

/// The error a dispatch result carries, if any.
pub open spec fn step_error(r: Result<Vec<PebblesEvent>, GameError>) -> Option<GameError> {
    match r {
        Ok(_) => None,
        Err(e) => Some(e),
    }
}

impl PebblesGame {
    /// Take `count` pebbles for `mover`: shrink the pile and, when it
    /// empties, set the winner. The one place the state ever changes.
    fn process_turn(&mut self, mover: Player, count: u32) -> (ev: PebblesEvent)
        requires
            old(self).wf(),
            old(self).game_state.winner is None,
            1 <= count <= old(self).game_state.pebbles_remaining,
        ensures
            final(self).wf(),
            final(self).game_state == apply_move(old(self).game_state, mover, count),
            final(self).rng == old(self).rng,
            ev == move_event(old(self).game_state, mover, count),
    {
        self.game_state.pebbles_remaining = self.game_state.pebbles_remaining - count;
        if self.game_state.pebbles_remaining == 0 {
            self.game_state.winner = Some(mover);
            PebblesEvent::Won(mover)
        } else {
            PebblesEvent::CounterTurn(count)
        }
    }

    /// One automated turn: pick the count the difficulty calls for, drawing
    /// from the source only where the strategy needs randomness, and apply
    /// it. With a replay source the whole outcome is pinned; with a live one
    /// the outcome is some legal strategy outcome.
    fn program_turn(&mut self) -> (ev: PebblesEvent)
        requires
            old(self).wf(),
            old(self).game_state.winner is None,
        ensures
            final(self).wf(),
            exists|v: u32| (*final(self), ev) == program_turn_with(*old(self), v),
            deterministic_move(old(self).game_state) is Some || old(self).rng.is_replay()
                ==> (*final(self), ev) == program_turn_with(*old(self), old(self).rng.peek()),
            old(self).game_state.winner_matches_pile()
                ==> final(self).game_state.winner_matches_pile(),
    {
        let remaining = self.game_state.pebbles_remaining;
        let max = self.game_state.max_pebbles_per_turn;
        let ghost mut vwit: u32 = 0;
        let count: u32 = match self.game_state.difficulty {
            DifficultyLevel::Easy => {
                if remaining < max {
                    remaining
                } else if max == 1 {
                    1
                } else {
                    let v = self.rng.next();
                    proof {
                        vwit = v;
                    }
                    v % (max - 1) + 1
                }
            },
            DifficultyLevel::Hard => {
                let g = (remaining as u64 % (max as u64 + 1)) as u32;
                proof {
                    assert(remaining as int % (max as int + 1) <= max as int);
                    assert(g == remaining as int % (max as int + 1));
                }
                if g != 0 {
                    proof {
                        assert(g <= remaining) by {
                            if (remaining as int) < max as int + 1 {
                                vstd::arithmetic::div_mod::lemma_small_mod(
                                    remaining as nat,
                                    (max + 1) as nat,
                                );
                            }
                        }
                    }
                    g
                } else if max == 1 {
                    1
                } else {
                    proof {
                        assert(remaining as int >= max as int + 1) by {
                            if (remaining as int) < max as int + 1 {
                                vstd::arithmetic::div_mod::lemma_small_mod(
                                    remaining as nat,
                                    (max + 1) as nat,
                                );
                            }
                        }
                    }
                    let v = self.rng.next();
                    proof {
                        vwit = v;
                    }
                    v % (max - 1) + 1
                }
            },
        };
        let ev = self.process_turn(Player::Program, count);
        proof {
            assert(count == program_count(old(self).game_state, vwit));
            assert((*self, ev) == program_turn_with(*old(self), vwit));
        }
        ev
    }

    /// Start a game: draw the coin flip (even picks the human), set up the
    /// state, and, when the automated side starts, play its opening turn at
    /// once — so the first observable state may already reflect a move and
    /// possibly a win. Zero pebbles or a zero cap is an invalid
    /// configuration, exactly then.
    pub fn new(
        difficulty: DifficultyLevel,
        pebbles_count: u32,
        max_pebbles_per_turn: u32,
        rng: RandomSource,
    ) -> (r: Result<(PebblesGame, Option<PebblesEvent>), GameError>)
        requires
            rng.wf(),
        ensures
            r is Err <==> (pebbles_count == 0 || max_pebbles_per_turn == 0),
            r matches Err(e) ==> e == GameError::InvalidConfiguration,
            r matches Ok(p) ==> {
                &&& p.0.wf()
                &&& p.0.game_state.winner_matches_pile()
                &&& exists|v0: u32, v1: u32|
                    p == new_outcome_with(
                        difficulty,
                        pebbles_count,
                        max_pebbles_per_turn,
                        rng,
                        v0,
                        v1,
                    )
                &&& rng.is_replay() ==> p == new_outcome_with(
                    difficulty,
                    pebbles_count,
                    max_pebbles_per_turn,
                    rng,
                    rng.peek(),
                    rng.advanced().peek(),
                )
            },
    {
        if pebbles_count == 0 || max_pebbles_per_turn == 0 {
            return Err(GameError::InvalidConfiguration);
        }
        let mut source = rng;
        let v0 = source.next();
        let first_player = if v0 % 2 == 0 {
            Player::User
        } else {
            Player::Program
        };
        let game_state = GameState {
            pebbles_count,
            max_pebbles_per_turn,
            pebbles_remaining: pebbles_count,
            difficulty,
            first_player,
            winner: None,
        };
        let mut game = PebblesGame { game_state, rng: source };
        if first_player == Player::Program {
            let ev = game.program_turn();
            proof {
                let gstart = PebblesGame {
                    game_state: initial_state(
                        difficulty,
                        pebbles_count,
                        max_pebbles_per_turn,
                        first_player_of(v0),
                    ),
                    rng: rng.advanced(),
                };
                let v1 = choose|v: u32| (game, ev) == program_turn_with(gstart, v);
                assert((game, Some(ev)) == new_outcome_with(
                    difficulty,
                    pebbles_count,
                    max_pebbles_per_turn,
                    rng,
                    v0,
                    v1,
                ));
            }
            Ok((game, Some(ev)))
        } else {
            proof {
                assert((game, None::<PebblesEvent>) == new_outcome_with(
                    difficulty,
                    pebbles_count,
                    max_pebbles_per_turn,
                    rng,
                    v0,
                    0u32,
                ));
            }
            Ok((game, None))
        }
    }

    /// Start a game from an initialization request: a present, non-empty
    /// fixed sequence selects a replay source, anything else the live one.
    pub fn from_init(init: PebblesInit) -> (r: Result<
        (PebblesGame, Option<PebblesEvent>),
        GameError,
    >)
        ensures
            r is Err <==> (init.pebbles_count == 0 || init.max_pebbles_per_turn == 0),
            r matches Err(e) ==> e == GameError::InvalidConfiguration,
            r matches Ok(p) ==> {
                &&& p.0.wf()
                &&& p.0.game_state.winner_matches_pile()
                &&& exists|v0: u32, v1: u32|
                    p == new_outcome_with(
                        init.difficulty,
                        init.pebbles_count,
                        init.max_pebbles_per_turn,
                        RandomSource::source_of(init.mock_rng),
                        v0,
                        v1,
                    )
                &&& RandomSource::source_of(init.mock_rng).is_replay() ==> p == new_outcome_with(
                    init.difficulty,
                    init.pebbles_count,
                    init.max_pebbles_per_turn,
                    RandomSource::source_of(init.mock_rng),
                    RandomSource::source_of(init.mock_rng).peek(),
                    RandomSource::source_of(init.mock_rng).advanced().peek(),
                )
            },
    {
        let PebblesInit { difficulty, pebbles_count, max_pebbles_per_turn, mock_rng } = init;
        let rng = RandomSource::from_mock(mock_rng);
        Self::new(difficulty, pebbles_count, max_pebbles_per_turn, rng)
    }

    /// One human turn: validate the count, apply the human's move, and — when
    /// the game did not end on it — play the automated counter-move in the
    /// same call. On any error the state is left untouched.
    pub fn user_turn(&mut self, count: u32) -> (r: Result<
        (PebblesEvent, Option<PebblesEvent>),
        GameError,
    >)
        requires
            old(self).wf(),
        ensures
            final(self).wf(),
            exists|v: u32| (*final(self), r) == user_turn_with(*old(self), count, v),
            old(self).rng.is_replay() ==> (*final(self), r) == user_turn_with(
                *old(self),
                count,
                old(self).rng.peek(),
            ),
            r is Err ==> *final(self) == *old(self),
            r == Err::<(PebblesEvent, Option<PebblesEvent>), GameError>(
                GameError::GameAlreadyFinished,
            ) <==> old(self).game_state.winner is Some,
            r == Err::<(PebblesEvent, Option<PebblesEvent>), GameError>(GameError::InvalidMove)
                <==> (old(self).game_state.winner is None && invalid_count(
                old(self).game_state,
                count,
            )),
            old(self).game_state.winner_matches_pile()
                ==> final(self).game_state.winner_matches_pile(),
    {
        if self.game_state.winner.is_some() {
            proof {
                assert((*self, Err::<(PebblesEvent, Option<PebblesEvent>), GameError>(
                    GameError::GameAlreadyFinished,
                )) == user_turn_with(*old(self), count, 0u32));
            }
            return Err(GameError::GameAlreadyFinished);
        }
        if count == 0 || count > self.game_state.max_pebbles_per_turn || count
            > self.game_state.pebbles_remaining {
            proof {
                assert((*self, Err::<(PebblesEvent, Option<PebblesEvent>), GameError>(
                    GameError::InvalidMove,
                )) == user_turn_with(*old(self), count, 0u32));
            }
            return Err(GameError::InvalidMove);
        }
        let ev1 = self.process_turn(Player::User, count);
        if self.game_state.winner.is_none() {
            let ghost mid = *self;
            let ev2 = self.program_turn();
            proof {
                let v = choose|v: u32| (*self, ev2) == program_turn_with(mid, v);
                assert((*self, Ok::<_, GameError>((ev1, Some(ev2)))) == user_turn_with(
                    *old(self),
                    count,
                    v,
                ));
            }
            Ok((ev1, Some(ev2)))
        } else {
            proof {
                assert((*self, Ok::<_, GameError>((ev1, None::<PebblesEvent>))) == user_turn_with(
                    *old(self),
                    count,
                    0u32,
                ));
            }
            Ok((ev1, None))
        }
    }

    /// A concession: the automated side is named winner at once and the pile
    /// is left as it stands. Refused, with the state untouched, once the game
    /// already has a winner.
    pub fn giveup(&mut self) -> (r: Result<PebblesEvent, GameError>)
        requires
            old(self).wf(),
        ensures
            final(self).wf(),
            (*final(self), r) == giveup_outcome(*old(self)),
            r is Err <==> old(self).game_state.winner is Some,
            r is Err ==> *final(self) == *old(self),
            r is Err ==> r == Err::<PebblesEvent, GameError>(GameError::GameAlreadyFinished),
            r is Ok ==> final(self).game_state.winner == Some(Player::Program),
            r is Ok ==> final(self).game_state.pebbles_remaining
                == old(self).game_state.pebbles_remaining,
            r is Ok ==> r == Ok::<PebblesEvent, GameError>(PebblesEvent::Won(Player::Program)),
    {
        if self.game_state.winner.is_some() {
            return Err(GameError::GameAlreadyFinished);
        }
        self.game_state.winner = Some(Player::Program);
        Ok(PebblesEvent::Won(Player::Program))
    }

    /// Restart with fresh parameters: the same contract as construction. On
    /// success the whole engine — winner, pile, first player, source — is
    /// replaced; on an invalid configuration nothing changes.
    pub fn restart(
        &mut self,
        difficulty: DifficultyLevel,
        pebbles_count: u32,
        max_pebbles_per_turn: u32,
        rng: RandomSource,
    ) -> (r: Result<Option<PebblesEvent>, GameError>)
        requires
            old(self).wf(),
            rng.wf(),
        ensures
            final(self).wf(),
            r is Err <==> (pebbles_count == 0 || max_pebbles_per_turn == 0),
            r matches Err(e) ==> e == GameError::InvalidConfiguration && *final(self) == *old(
                self,
            ),
            r matches Ok(ev) ==> {
                &&& final(self).game_state.winner_matches_pile()
                &&& exists|v0: u32, v1: u32|
                    (*final(self), ev) == new_outcome_with(
                        difficulty,
                        pebbles_count,
                        max_pebbles_per_turn,
                        rng,
                        v0,
                        v1,
                    )
                &&& rng.is_replay() ==> (*final(self), ev) == new_outcome_with(
                    difficulty,
                    pebbles_count,
                    max_pebbles_per_turn,
                    rng,
                    rng.peek(),
                    rng.advanced().peek(),
                )
            },
    {
        match Self::new(difficulty, pebbles_count, max_pebbles_per_turn, rng) {
            Ok((game, ev)) => {
                *self = game;
                Ok(ev)
            },
            Err(e) => Err(e),
        }
    }

    /// Dispatch one request — a turn, a concession, or a restart — and hand
    /// back, in order, the events it emitted. An aborted action returns its
    /// error and leaves the state untouched.
    pub fn handle_action(&mut self, action: PebblesAction) -> (r: Result<
        Vec<PebblesEvent>,
        GameError,
    >)
        requires
            old(self).wf(),
        ensures
            final(self).wf(),
            exists|v0: u32, v1: u32|
                (*final(self), step_events(r), step_error(r)) == step_with(
                    *old(self),
                    action,
                    v0,
                    v1,
                ),
            action_replay(*old(self), action) ==> (*final(self), step_events(r), step_error(r))
                == step_spec(*old(self), action),
            r is Err ==> *final(self) == *old(self),
    {
        match action {
            PebblesAction::Turn(count) => {
                let ghost g0 = *old(self);
                match self.user_turn(count) {
                    Ok(pair) => {
                        let (e1, second) = pair;
                        let mut evs: Vec<PebblesEvent> = Vec::new();
                        evs.push(e1);
                        if let Some(e2) = second {
                            evs.push(e2);
                            proof {
                                let v = choose|v: u32|
                                    (*self, Ok::<_, GameError>((e1, Some(e2)))) == user_turn_with(
                                        g0,
                                        count,
                                        v,
                                    );
                                assert(evs@ =~= seq![e1, e2]);
                                assert((*self, evs@, None::<GameError>) == step_with(
                                    g0,
                                    PebblesAction::Turn(count),
                                    v,
                                    0u32,
                                ));
                            }
                        } else {
                            proof {
                                let v = choose|v: u32|
                                    (*self, Ok::<_, GameError>((e1, None::<PebblesEvent>)))
                                        == user_turn_with(g0, count, v);
                                assert(evs@ =~= seq![e1]);
                                assert((*self, evs@, None::<GameError>) == step_with(
                                    g0,
                                    PebblesAction::Turn(count),
                                    v,
                                    0u32,
                                ));
                            }
                        }
                        Ok(evs)
                    },
                    Err(e) => {
                        proof {
                            assert((*self, Seq::<PebblesEvent>::empty(), Some(e)) == step_with(
                                g0,
                                PebblesAction::Turn(count),
                                0u32,
                                0u32,
                            ));
                        }
                        Err(e)
                    },
                }
            },
            PebblesAction::GiveUp => {
                let ghost g0 = *old(self);
                match self.giveup() {
                    Ok(e1) => {
                        let mut evs: Vec<PebblesEvent> = Vec::new();
                        evs.push(e1);
                        proof {
                            assert(evs@ =~= seq![e1]);
                            assert((*self, evs@, None::<GameError>) == step_with(
                                g0,
                                PebblesAction::GiveUp,
                                0u32,
                                0u32,
                            ));
                        }
                        Ok(evs)
                    },
                    Err(e) => {
                        proof {
                            assert((*self, Seq::<PebblesEvent>::empty(), Some(e)) == step_with(
                                g0,
                                PebblesAction::GiveUp,
                                0u32,
                                0u32,
                            ));
                        }
                        Err(e)
                    },
                }
            },
            PebblesAction::Restart { difficulty, pebbles_count, max_pebbles_per_turn, mock_rng } => {
                let ghost g0 = *old(self);
                let ghost mock0 = mock_rng;
                let rng = RandomSource::from_mock(mock_rng);
                match self.restart(difficulty, pebbles_count, max_pebbles_per_turn, rng) {
                    Ok(ev) => {
                        let ghost (v0, v1) = choose|v0: u32, v1: u32|
                            (*self, ev) == new_outcome_with(
                                difficulty,
                                pebbles_count,
                                max_pebbles_per_turn,
                                rng,
                                v0,
                                v1,
                            );
                        match ev {
                            Some(e1) => {
                                let mut evs: Vec<PebblesEvent> = Vec::new();
                                evs.push(e1);
                                proof {
                                    assert(evs@ =~= seq![e1]);
                                    assert((*self, evs@, None::<GameError>) == step_with(
                                        g0,
                                        PebblesAction::Restart {
                                            difficulty,
                                            pebbles_count,
                                            max_pebbles_per_turn,
                                            mock_rng: mock0,
                                        },
                                        v0,
                                        v1,
                                    ));
                                }
                                Ok(evs)
                            },
                            None => {
                                let evs: Vec<PebblesEvent> = Vec::new();
                                proof {
                                    assert(evs@ =~= Seq::<PebblesEvent>::empty());
                                    assert((*self, evs@, None::<GameError>) == step_with(
                                        g0,
                                        PebblesAction::Restart {
                                            difficulty,
                                            pebbles_count,
                                            max_pebbles_per_turn,
                                            mock_rng: mock0,
                                        },
                                        v0,
                                        v1,
                                    ));
                                }
                                Ok(evs)
                            },
                        }
                    },
                    Err(e) => {
                        proof {
                            assert((*self, Seq::<PebblesEvent>::empty(), Some(e)) == step_with(
                                g0,
                                PebblesAction::Restart {
                                    difficulty,
                                    pebbles_count,
                                    max_pebbles_per_turn,
                                    mock_rng: mock0,
                                },
                                0u32,
                                0u32,
                            ));
                        }
                        Err(e)
                    },
                }
            },
        }
    }
}

} // verus!
