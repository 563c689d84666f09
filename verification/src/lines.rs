//! The wiring of the board: which chip and which line offsets serve what.

use vstd::prelude::*;

verus! {

/// The two GPIO chips the board is wired to.
#[derive(Clone, Copy, Debug, PartialEq, Eq, Structural)]
pub enum ChipNumber {
    /// Carries the candidate interrupt lines.
    Chip2,
    /// Carries the key, emitter and LED lines.
    Chip4,
}

/// A group of three lines that is claimed, read or written as one.
#[derive(Clone, Copy, Debug, PartialEq, Eq, Structural)]
pub enum LineGroup {
    RightLeds,
    CenterLeds,
    LeftLeds,
    /// The infrared emitters that light the key sensors.
    Emitters,
    /// The key sensors, in the order right, center, left.
    Keys,
}

impl LineGroup {
    /// The line offsets of the group on its chip, in wiring order.
    pub open spec fn offsets_spec(self) -> Seq<u32> {
        match self {
            LineGroup::RightLeds => seq![0u32, 3u32, 6u32],
            LineGroup::CenterLeds => seq![1u32, 4u32, 7u32],
            LineGroup::LeftLeds => seq![2u32, 5u32, 8u32],
            LineGroup::Emitters => seq![9u32, 10u32, 11u32],
            LineGroup::Keys => seq![13u32, 14u32, 15u32],
        }
    }

    /// The line offsets of the group on its chip, in wiring order.
    pub fn offsets(&self) -> (lines: [u32; 3])
        ensures
            lines@ == self.offsets_spec(),
    {
        let lines: [u32; 3] = match self {
            LineGroup::RightLeds => [0, 3, 6],
            LineGroup::CenterLeds => [1, 4, 7],
            LineGroup::LeftLeds => [2, 5, 8],
            LineGroup::Emitters => [9, 10, 11],
            LineGroup::Keys => [13, 14, 15],
        };
        assert(lines@ =~= self.offsets_spec());
        lines
    }
}

/// No line belongs to two groups.
pub proof fn lemma_groups_share_no_line(a: LineGroup, b: LineGroup, i: int, j: int)
    requires
        0 <= i < 3,
        0 <= j < 3,
        a.offsets_spec()[i] == b.offsets_spec()[j],
    ensures
        a == b,
        i == j,
{
}

} // verus!
