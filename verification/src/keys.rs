//! The key positions, and how a read of the key lines names the pressed key.

use vstd::prelude::*;
use crate::lines::LineGroup;

verus! {

/// One of the three keys of the board. "No key" is `None` of
/// `Option<KeyPosition>`.
#[derive(Clone, Copy, Debug, PartialEq, Eq, Structural)]
pub enum KeyPosition {
    Right,
    Center,
    Left,
}

impl KeyPosition {
    /// The place of the key's line in a read of the key lines.
    pub open spec fn index_spec(self) -> int {
        match self {
            KeyPosition::Right => 0,
            KeyPosition::Center => 1,
            KeyPosition::Left => 2,
        }
    }

    /// The key whose line stands at place `i`, if there is one.
    pub open spec fn at(i: int) -> Option<KeyPosition> {
        if i == 0 {
            Some(KeyPosition::Right)
        } else if i == 1 {
            Some(KeyPosition::Center)
        } else if i == 2 {
            Some(KeyPosition::Left)
        } else {
            None
        }
    }

    /// The LED group that belongs to the key.
    pub open spec fn leds_spec(self) -> LineGroup {
        match self {
            KeyPosition::Right => LineGroup::RightLeds,
            KeyPosition::Center => LineGroup::CenterLeds,
            KeyPosition::Left => LineGroup::LeftLeds,
        }
    }

    /// The place of the key's line in a read of the key lines.
    pub fn index(&self) -> (i: usize)
        ensures
            i == self.index_spec(),
    {
        match self {
            KeyPosition::Right => 0,
            KeyPosition::Center => 1,
            KeyPosition::Left => 2,
        }
    }

    /// The key whose line stands at place `i`; `None` from 3 on.
    pub fn from_index(i: usize) -> (key: Option<KeyPosition>)
        ensures
            key == KeyPosition::at(i as int),
    {
        if i == 0 {
            Some(KeyPosition::Right)
        } else if i == 1 {
            Some(KeyPosition::Center)
        } else if i == 2 {
            Some(KeyPosition::Left)
        } else {
            None
        }
    }

    /// The LED group that belongs to the key.
    pub fn leds(&self) -> (group: LineGroup)
        ensures
            group == self.leds_spec(),
    {
        match self {
            KeyPosition::Right => LineGroup::RightLeds,
            KeyPosition::Center => LineGroup::CenterLeds,
            KeyPosition::Left => LineGroup::LeftLeds,
        }
    }
}

/// A line is asserted when it reads 1.
pub open spec fn asserted(level: u8) -> bool {
    level == 1
}

/// `i` is the first place of `levels` that holds an asserted line.
pub open spec fn first_asserted(levels: Seq<u8>, i: int) -> bool {
    &&& 0 <= i < levels.len()
    &&& asserted(levels[i])
    &&& forall|j: int| 0 <= j < i ==> !asserted(#[trigger] levels[j])
}

/// The key that a read of the key lines reports: the key at the first
/// asserted place, and no key where that place is none of the three key
/// places or nothing is asserted.
pub open spec fn pressed(levels: Seq<u8>) -> Option<KeyPosition> {
    if first_asserted(levels, 0) {
        Some(KeyPosition::Right)
    } else if first_asserted(levels, 1) {
        Some(KeyPosition::Center)
    } else if first_asserted(levels, 2) {
        Some(KeyPosition::Left)
    } else {
        None
    }
}

/// The key reader of a board: it knows the interrupt line that announces a
/// key event, and turns a read of the key lines into a key.
#[derive(Clone, Copy, Debug, PartialEq, Eq, Structural)]
pub struct PeckKeys {
    interrupt_line: u32,
}

impl PeckKeys {
    /// The interrupt line the reader was bound to.
    pub closed spec fn line(self) -> u32 {
        self.interrupt_line
    }

    /// A key reader bound to `interrupt_line`.
    pub fn new(interrupt_line: u32) -> (keys: PeckKeys)
        ensures
            keys.line() == interrupt_line,
    {
        PeckKeys { interrupt_line }
    }

    /// The interrupt line the reader was bound to.
    pub fn interrupt_line(&self) -> (line: u32)
        ensures
            line == self.line(),
    {
        self.interrupt_line
    }

    /// Names the pressed key from one read of the key lines.
    pub fn sample(levels: &[u8]) -> (key: Option<KeyPosition>)
        ensures
            key == pressed(levels@),
    {
        let mut i: usize = 0;
        while i < levels.len() && i < 3
            invariant
                i <= 3,
                i <= levels@.len(),
                forall|j: int| 0 <= j < i ==> !asserted(#[trigger] levels@[j]),
            decreases 3 - i,
        {
            if levels[i] == 1 {
                assert(first_asserted(levels@, i as int));
                return KeyPosition::from_index(i);
            }
            i += 1;
        }
        None
    }
}

/// A read with exactly one asserted line reports the key of that line.
pub proof fn lemma_single_press(levels: Seq<u8>, key: KeyPosition)
    requires
        key.index_spec() < levels.len(),
        forall|j: int| 0 <= j < levels.len() ==> (asserted(#[trigger] levels[j]) <==> j == key.index_spec()),
    ensures
        pressed(levels) == Some(key),
{
    assert(first_asserted(levels, key.index_spec()));
}

/// A read with no asserted line reports no key.
pub proof fn lemma_no_press(levels: Seq<u8>)
    requires
        forall|j: int| 0 <= j < levels.len() ==> !asserted(#[trigger] levels[j]),
    ensures
        pressed(levels) == None::<KeyPosition>,
{
}

/// Where the lines of two keys are asserted, the key with the lower place
/// is reported, whatever the line of the third key reads.
pub proof fn lemma_lower_place_wins(levels: Seq<u8>, low: KeyPosition, high: KeyPosition)
    requires
        low.index_spec() < high.index_spec() < levels.len(),
        asserted(levels[low.index_spec()]),
        asserted(levels[high.index_spec()]),
        forall|j: int|
            0 <= j < levels.len() && j != low.index_spec() && j != high.index_spec() ==> !asserted(
                #[trigger] levels[j],
            ),
    ensures
        pressed(levels) == Some(low),
{
    assert(first_asserted(levels, low.index_spec()));
}

/// The reported key is the one at the first asserted place, for reads of
/// any length: a place from 3 on is no key.
pub proof fn lemma_pressed_is_first_asserted(levels: Seq<u8>, i: int)
    requires
        first_asserted(levels, i),
    ensures
        pressed(levels) == KeyPosition::at(i),
{
}

} // verus!
