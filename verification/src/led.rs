//! The colour cycle of one key position.

use vstd::prelude::*;

verus! {

/// Colour shown by the LED group of one key position.
///
/// The colours form a single cycle `Off → Blue → Red → Green → All → Off`.
#[derive(Clone, Copy, Debug, PartialEq, Eq, Structural)]
pub enum LedState {
    Off,
    Blue,
    Red,
    Green,
    All,
}

impl LedState {
    /// The colour that follows `self` in the cycle.
    pub open spec fn successor(self) -> LedState {
        match self {
            LedState::Off => LedState::Blue,
            LedState::Blue => LedState::Red,
            LedState::Red => LedState::Green,
            LedState::Green => LedState::All,
            LedState::All => LedState::Off,
        }
    }

    /// The colour reached from `self` after `steps` presses.
    pub open spec fn advanced(self, steps: nat) -> LedState
        decreases steps,
    {
        if steps == 0 {
            self
        } else {
            self.successor().advanced((steps - 1) as nat)
        }
    }

    /// Levels of the red, blue and green channel, in that order.
    pub open spec fn pattern(self) -> Seq<u8> {
        match self {
            LedState::Off => seq![0u8, 0u8, 0u8],
            LedState::Red => seq![1u8, 0u8, 0u8],
            LedState::Blue => seq![0u8, 1u8, 0u8],
            LedState::Green => seq![0u8, 0u8, 1u8],
            LedState::All => seq![1u8, 1u8, 1u8],
        }
    }

    /// Moves `self` one step along the cycle and hands the reference back.
    pub fn next(&mut self) -> (moved: &mut Self)
        ensures
            *moved == old(self).successor(),
            *final(self) == *final(moved),
    {
        match self {
            LedState::Off => { *self = LedState::Blue }
            LedState::Blue => { *self = LedState::Red }
            LedState::Red => { *self = LedState::Green }
            LedState::Green => { *self = LedState::All }
            LedState::All => { *self = LedState::Off }
        };
        self
    }

    /// The channel levels to write for this colour.
    pub fn as_value(&self) -> (levels: [u8; 3])
        ensures
            levels@ == self.pattern(),
    {
        let levels: [u8; 3] = match self {
            LedState::Off => [0, 0, 0],
            LedState::Red => [1, 0, 0],
            LedState::Blue => [0, 1, 0],
            LedState::Green => [0, 0, 1],
            LedState::All => [1, 1, 1],
        };
        assert(levels@ =~= self.pattern());
        levels
    }
}

/// Pressing a key five times brings its colour back to where it started,
/// and no smaller positive number of presses does.
pub proof fn lemma_cycle_has_length_five(c: LedState)
    ensures
        c.successor().successor().successor().successor().successor() == c,
        c.advanced(5) == c,
        forall|steps: nat| 0 < steps < 5 ==> #[trigger] c.advanced(steps) != c,
{
    reveal_with_fuel(LedState::advanced, 6);
}

/// No colour is its own successor.
pub proof fn lemma_successor_moves(c: LedState)
    ensures
        c.successor() != c,
{
}

/// Two colours with the same successor are the same colour.
pub proof fn lemma_successor_injective(a: LedState, b: LedState)
    requires
        a.successor() == b.successor(),
    ensures
        a == b,
{
}

/// Every colour is the successor of some colour.
pub proof fn lemma_successor_surjective(c: LedState)
    ensures
        exists|before: LedState| #[trigger] before.successor() == c,
{
    let before = c.successor().successor().successor().successor();
    assert(before.successor() == c);
}

/// Stepping forward adds up: `m` presses after `n` presses are `n + m` presses.
pub proof fn lemma_advanced_adds(c: LedState, n: nat, m: nat)
    ensures
        c.advanced(n).advanced(m) == c.advanced(n + m),
    decreases n,
{
    if n > 0 {
        lemma_advanced_adds(c.successor(), (n - 1) as nat, m);
    }
}

/// Distinct colours drive distinct channel levels; `Off` clears every
/// channel and `All` sets every channel.
pub proof fn lemma_pattern_tells_colour(a: LedState, b: LedState)
    ensures
        a.pattern().len() == 3,
        forall|i: int| 0 <= i < 3 ==> #[trigger] LedState::Off.pattern()[i] == 0,
        forall|i: int| 0 <= i < 3 ==> #[trigger] LedState::All.pattern()[i] == 1,
        a.pattern() == b.pattern() ==> a == b,
{
    if a.pattern() == b.pattern() {
        assert(a.pattern()[0] == b.pattern()[0]);
        assert(a.pattern()[1] == b.pattern()[1]);
        assert(a.pattern()[2] == b.pattern()[2]);
    }
}

} // verus!
