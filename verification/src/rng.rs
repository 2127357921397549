//! Sources of 32-bit values for the engine's coin flip and the automated
//! player's random fallback move: a genuinely unpredictable live source and
//! a deterministic replay source for reproducible games.

use vstd::prelude::*;

use crate::types::GameError;

verus! {

/// A producer of 32-bit values on demand.
pub trait Rng {
    /// May this source be drawn from?
    spec fn ready(&self) -> bool;

    /// Produce the next value.
    fn gen(&mut self) -> (r: u32)
        requires
            old(self).ready(),
        ensures
            final(self).ready(),
    ;
}

/// Genuinely unpredictable source: each draw comes from host entropy.
#[derive(Clone, Copy, Debug)]
pub struct RealRng;

impl RealRng {
    /// Relies on `gstd::msg::id` and `gstd::exec::random`: draws the host's
    /// entropy for the current message. Nothing is promised of the value;
    /// callers must hold for every outcome.
    #[verifier::external_body]
    fn entropy(&mut self) -> u32 {
        let salt = gstd::msg::id();
        let (hash, _block) = gstd::exec::random(salt.into_bytes()).expect("random call failed");
        u32::from_le_bytes([hash[0], hash[1], hash[2], hash[3]])
    }
}

impl Rng for RealRng {
    open spec fn ready(&self) -> bool {
        true
    }

    fn gen(&mut self) -> u32 {
        self.entropy()
    }
}

/// Deterministic replay source: cycles through a fixed non-empty sequence,
/// wrapping back to the first value after the last.
#[derive(Clone, Debug)]
pub struct MockRng {
    /// The replayed sequence; never empty.
    pub values: Vec<u32>,
    /// Position of the next value to hand out; always within the sequence.
    pub index: usize,
}

impl MockRng {
    /// Well-formed: a non-empty sequence with the cursor inside it.
    pub open spec fn wf(&self) -> bool {
        &&& self.values@.len() > 0
        &&& self.index < self.values@.len()
    }

    /// The value the next draw returns.
    pub open spec fn peek(&self) -> u32 {
        self.values@[self.index as int]
    }

    /// The source after one draw: same sequence, cursor one step round.
    pub open spec fn advanced(&self) -> MockRng {
        MockRng {
            values: self.values,
            index: ((self.index + 1) % self.values@.len() as int) as usize,
        }
    }

    /// Build a replay source. An empty sequence is an invalid configuration:
    /// it is rejected here so that no draw ever indexes an empty sequence.
    pub fn new(values: Vec<u32>) -> (r: Result<MockRng, GameError>)
        ensures
            r is Ok <==> values@.len() > 0,
            r matches Ok(m) ==> m == (MockRng { values, index: 0usize }) && m.wf(),
            r matches Err(e) ==> e == GameError::InvalidConfiguration,
    {
        if values.len() == 0 {
            Err(GameError::InvalidConfiguration)
        } else {
            Ok(MockRng { values, index: 0 })
        }
    }

    /// Hand out the current value and move the cursor one step round.
    pub fn draw(&mut self) -> (r: u32)
        requires
            old(self).wf(),
        ensures
            final(self).wf(),
            *final(self) == old(self).advanced(),
            r == old(self).peek(),
    {
        let len = self.values.len();
        let v = self.values[self.index];
        self.index = (self.index + 1) % len;
        v
    }
}

impl Rng for MockRng {
    open spec fn ready(&self) -> bool {
        self.wf()
    }

    fn gen(&mut self) -> u32 {
        self.draw()
    }
}

/// The closed set of sources the engine can own: exactly one live and one
/// replay implementation exist, so a sum type stands in for dynamic dispatch.
#[derive(Clone, Debug)]
pub enum RandomSource {
    /// Unpredictable host entropy.
    Live(RealRng),
    /// Deterministic replay of a fixed sequence.
    Replay(MockRng),
}

impl RandomSource {
    /// Well-formed: a replay source carries a non-empty sequence.
    pub open spec fn wf(&self) -> bool {
        match self {
            RandomSource::Live(_) => true,
            RandomSource::Replay(m) => m.wf(),
        }
    }

    /// Is every draw from this source predictable?
    pub open spec fn is_replay(&self) -> bool {
        self is Replay
    }

    /// The value the next draw returns, where predictable (arbitrary for a
    /// live source; no contract pins that case to this value).
    pub open spec fn peek(&self) -> u32 {
        match self {
            RandomSource::Live(_) => 0u32,
            RandomSource::Replay(m) => m.peek(),
        }
    }

    /// The source after one draw: a replay cursor moves, a live source is
    /// stateless.
    pub open spec fn advanced(&self) -> RandomSource {
        match self {
            RandomSource::Live(r) => RandomSource::Live(*r),
            RandomSource::Replay(m) => RandomSource::Replay(m.advanced()),
        }
    }

    /// The source an initialization or restart request selects: a replay of
    /// the fixed sequence when one is supplied and non-empty, live entropy
    /// otherwise.
    pub open spec fn source_of(mock: Option<Vec<u32>>) -> RandomSource {
        match mock {
            Some(values) => {
                if values@.len() > 0 {
                    RandomSource::Replay(MockRng { values, index: 0usize })
                } else {
                    RandomSource::Live(RealRng)
                }
            },
            None => RandomSource::Live(RealRng),
        }
    }

    /// Build the source an initialization or restart request selects.
    pub fn from_mock(mock: Option<Vec<u32>>) -> (r: RandomSource)
        ensures
            r == RandomSource::source_of(mock),
            r.wf(),
    {
        match mock {
            Some(values) => {
                match MockRng::new(values) {
                    Ok(m) => RandomSource::Replay(m),
                    Err(_) => RandomSource::Live(RealRng),
                }
            },
            None => RandomSource::Live(RealRng),
        }
    }

    /// Draw one value. For a replay source the result and the new cursor are
    /// pinned exactly; for a live source only the shape of the change is.
    pub fn next(&mut self) -> (r: u32)
        requires
            old(self).wf(),
        ensures
            final(self).wf(),
            *final(self) == old(self).advanced(),
            old(self).is_replay() ==> r == old(self).peek(),
    {
        match self {
            RandomSource::Live(live) => live.gen(),
            RandomSource::Replay(mock) => mock.draw(),
        }
    }
}

} // verus!
