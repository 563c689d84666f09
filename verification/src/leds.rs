//! The colour each key position shows.

use vstd::prelude::*;
use crate::error::Error;
use crate::keys::KeyPosition;
use crate::led::LedState;

verus! {

/// The record of the colour last written to each LED group.
///
/// The record follows the hardware: it moves only when a write has gone
/// through, so it never names a colour that the LEDs do not show.
#[derive(Clone, Copy, Debug)]
pub struct PeckLEDs {
    peck_position: [LedState; 3],
}

impl View for PeckLEDs {
    type V = Seq<LedState>;

    /// The colours by key place: right, center, left.
    closed spec fn view(&self) -> Seq<LedState> {
        self.peck_position@
    }
}

/// The record in which every position is `Off`.
pub open spec fn all_off() -> Seq<LedState> {
    seq![LedState::Off, LedState::Off, LedState::Off]
}

/// The record `colours` after one completed press of `position`.
pub open spec fn pressed_once(colours: Seq<LedState>, position: KeyPosition) -> Seq<LedState> {
    colours.update(position.index_spec(), colours[position.index_spec()].successor())
}

impl PeckLEDs {
    /// The colour recorded for `position`.
    pub open spec fn color_of(&self, position: KeyPosition) -> LedState {
        self@[position.index_spec()]
    }

    /// The record always covers exactly the three key positions.
    pub proof fn lemma_three_positions(&self)
        ensures
            self@.len() == 3,
    {
    }

    /// A record with every position `Off`, as the LEDs are after set-up.
    pub fn new() -> (leds: PeckLEDs)
        ensures
            leds@ == all_off(),
    {
        let leds = PeckLEDs { peck_position: [LedState::Off, LedState::Off, LedState::Off] };
        assert(leds@ =~= all_off());
        leds
    }

    /// The colour recorded for `position`.
    pub fn color(&self, position: KeyPosition) -> (color: LedState)
        ensures
            color == self.color_of(position),
    {
        self.peck_position[position.index()]
    }

    /// The colour that a press of `position` has to write next.
    pub fn upcoming(&self, position: KeyPosition) -> (color: LedState)
        ensures
            color == self.color_of(position).successor(),
    {
        let mut color = self.peck_position[position.index()];
        color.next();
        color
    }

    /// Settles a press of `position` once the write of
    /// [`upcoming`](Self::upcoming) has been tried.
    ///
    /// `written` tells whether the write went through. If it did, the
    /// position moves on to its next colour. If it did not, the record stays
    /// as it was and the failure is returned. The other positions are never
    /// touched.
    pub fn pecked(&mut self, position: KeyPosition, written: bool) -> (result: Result<(), Error>)
        ensures
            written ==> result == Ok::<(), Error>(()) && final(self)@ == pressed_once(
                old(self)@,
                position,
            ),
            !written ==> result == Err::<(), Error>(
                Error::LinesSetError { lines: position.leds_spec() },
            ) && final(self)@ == old(self)@,
    {
        if written {
            let next = self.upcoming(position);
            self.peck_position[position.index()] = next;
            Ok(())
        } else {
            Err(Error::LinesSetError { lines: position.leds() })
        }
    }
}

/// A completed press moves the pressed position one colour on and leaves
/// the other two positions alone.
pub proof fn lemma_press_touches_one_position(
    colours: Seq<LedState>,
    position: KeyPosition,
    other: KeyPosition,
)
    requires
        colours.len() == 3,
    ensures
        pressed_once(colours, position).len() == 3,
        pressed_once(colours, position)[position.index_spec()]
            == colours[position.index_spec()].successor(),
        other != position ==> pressed_once(colours, position)[other.index_spec()]
            == colours[other.index_spec()],
{
}

} // verus!
