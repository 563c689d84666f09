//! The controller of the board, as a state machine.
//!
//! The controller never touches a device. At every moment it has one
//! [`Action`] outstanding; the surrounding program performs it and reports
//! what came of it as an [`Event`]; [`PeckBoard::step`] takes the event and
//! names the next action. Set-up, the race for the interrupt line and the
//! monitoring loop are all driven this way.

use vstd::prelude::*;
use crate::error::Error;
use crate::keys::{pressed, KeyPosition, PeckKeys};
use crate::led::LedState;
use crate::leds::{all_off, pressed_once, PeckLEDs};
use crate::lines::{ChipNumber, LineGroup};

verus! {

/// The direction of a level change on an input line.
#[derive(Clone, Copy, Debug, PartialEq, Eq, Structural)]
pub enum EdgeKind {
    /// Low to high: a key is going down.
    Rising,
    /// High to low: a key has been let go.
    Falling,
}

/// What the surrounding program reports back to the controller.
#[derive(Debug, PartialEq, Eq)]
pub enum Event {
    /// The outstanding set-up or write action went through.
    Done,
    /// The lines of the outstanding set-up action could not be obtained.
    Unavailable,
    /// The candidate at this place of the candidate list saw an edge first.
    Fired(usize),
    /// The interrupt line saw an edge.
    Edge(EdgeKind),
    /// The levels of the key lines, read at once.
    Levels(Vec<u8>),
    /// The outstanding action failed.
    Fault,
}

/// What the controller asks the surrounding program to do next.
#[derive(Clone, Copy, Debug, PartialEq, Eq, Structural)]
pub enum Action {
    /// Open a chip.
    OpenChip { chip: ChipNumber },
    /// Set a candidate line up as an input that reports both edges.
    WatchLine { line: u32 },
    /// Wait until any watched candidate reports an edge.
    AwaitFirstEdge,
    /// Claim the infrared emitters as outputs and switch them on.
    ConfigureEmitters,
    /// Claim the key lines as inputs.
    ConfigureKeys,
    /// Claim the LED group of a position as outputs showing `color`.
    ConfigureLeds { position: KeyPosition, color: LedState },
    /// Nothing to do until monitoring is started.
    Standby,
    /// Wait for the next edge on the interrupt line.
    AwaitEdge { line: u32 },
    /// Read the key lines.
    ReadKeys,
    /// Write `color` to the LED group of a position.
    WriteLeds { position: KeyPosition, color: LedState },
    /// Stop: the controller has failed for good.
    Halt { error: Error },
}

/// Where the controller stands. Each phase but `Ready` and `Failed` waits
/// for the outcome of one outstanding action.
#[derive(Clone, Copy, Debug, PartialEq, Eq, Structural)]
pub enum Phase {
    /// Opening `chip`.
    Opening { chip: ChipNumber },
    /// The first `armed` candidates are watched; the next is being set up.
    Arming { armed: usize },
    /// Every candidate is watched; waiting for the first edge on any.
    Racing,
    /// Switching the infrared emitters on.
    Emitting,
    /// Claiming the key lines.
    Keying,
    /// Claiming the LED group of `position`.
    Lighting { position: KeyPosition },
    /// Set up, all LEDs off, not yet monitoring.
    Ready,
    /// Monitoring: waiting for an edge on the interrupt line.
    Waiting,
    /// Monitoring: a key was let go; reading which one.
    Sampling,
    /// Monitoring: writing the next colour of `position`.
    Writing { position: KeyPosition },
    /// A device failed. Nothing further will be done.
    Failed { error: Error },
}

/// The life of a controller at large.
#[derive(Clone, Copy, Debug, PartialEq, Eq, Structural)]
pub enum Stage {
    Discovering,
    Ready,
    Monitoring,
    Failed,
}

impl Phase {
    /// The stage that the phase belongs to.
    pub open spec fn stage_spec(self) -> Stage {
        match self {
            Phase::Opening { .. } => Stage::Discovering,
            Phase::Arming { .. } => Stage::Discovering,
            Phase::Racing => Stage::Discovering,
            Phase::Emitting => Stage::Discovering,
            Phase::Keying => Stage::Discovering,
            Phase::Lighting { .. } => Stage::Discovering,
            Phase::Ready => Stage::Ready,
            Phase::Waiting => Stage::Monitoring,
            Phase::Sampling => Stage::Monitoring,
            Phase::Writing { .. } => Stage::Monitoring,
            Phase::Failed { .. } => Stage::Failed,
        }
    }

    /// Whether the interrupt line has been chosen by this phase.
    pub open spec fn after_race(self) -> bool {
        match self {
            Phase::Opening { .. } => false,
            Phase::Arming { .. } => false,
            Phase::Racing => false,
            Phase::Failed { .. } => false,
            _ => true,
        }
    }

    /// The stage that the phase belongs to.
    pub fn stage(&self) -> (stage: Stage)
        ensures
            stage == self.stage_spec(),
    {
        match self {
            Phase::Opening { .. } => Stage::Discovering,
            Phase::Arming { .. } => Stage::Discovering,
            Phase::Racing => Stage::Discovering,
            Phase::Emitting => Stage::Discovering,
            Phase::Keying => Stage::Discovering,
            Phase::Lighting { .. } => Stage::Discovering,
            Phase::Ready => Stage::Ready,
            Phase::Waiting => Stage::Monitoring,
            Phase::Sampling => Stage::Monitoring,
            Phase::Writing { .. } => Stage::Monitoring,
            Phase::Failed { .. } => Stage::Failed,
        }
    }
}

/// The controller as a mathematical value.
pub struct BoardView {
    pub phase: Phase,
    /// The candidate interrupt lines, in the order they were given.
    pub candidates: Seq<u32>,
    /// The interrupt line, once the race has been won.
    pub line: Option<u32>,
    /// The colour recorded for each position: right, center, left.
    pub colours: Seq<LedState>,
}

impl BoardView {
    /// What every controller satisfies at every moment.
    pub open spec fn wf(self) -> bool {
        &&& self.colours.len() == 3
        &&& self.candidates.len() <= usize::MAX
        &&& self.phase.after_race() ==> self.line is Some
        &&& self.phase.stage_spec() == Stage::Discovering && !self.phase.after_race()
            ==> self.line is None
        &&& self.line matches Some(line) ==> self.candidates.contains(line)
        &&& (self.phase.stage_spec() == Stage::Discovering || self.phase == Phase::Ready)
            ==> self.colours == all_off()
        &&& self.phase matches Phase::Arming { armed } ==> armed < self.candidates.len()
    }

    /// The controller right after construction.
    pub open spec fn initial(candidates: Seq<u32>) -> BoardView {
        BoardView {
            phase: Phase::Opening { chip: ChipNumber::Chip4 },
            candidates,
            line: None,
            colours: all_off(),
        }
    }

    /// The action that the controller is waiting on.
    pub open spec fn outstanding(self) -> Action {
        match self.phase {
            Phase::Opening { chip } => Action::OpenChip { chip },
            Phase::Arming { armed } => Action::WatchLine { line: self.candidates[armed as int] },
            Phase::Racing => Action::AwaitFirstEdge,
            Phase::Emitting => Action::ConfigureEmitters,
            Phase::Keying => Action::ConfigureKeys,
            Phase::Lighting { position } => Action::ConfigureLeds { position, color: LedState::Off },
            Phase::Ready => Action::Standby,
            Phase::Waiting => Action::AwaitEdge { line: self.line->0 },
            Phase::Sampling => Action::ReadKeys,
            Phase::Writing { position } => Action::WriteLeds {
                position,
                color: self.colours[position.index_spec()].successor(),
            },
            Phase::Failed { error } => Action::Halt { error },
        }
    }

    /// The same controller in another phase.
    pub open spec fn moved_to(self, phase: Phase) -> BoardView {
        BoardView { phase, ..self }
    }

    /// The phase that a failed attempt to claim `lines` leads to.
    pub open spec fn claim_failed(event: Event, lines: LineGroup) -> Phase {
        match event {
            Event::Unavailable => Phase::Failed { error: Error::LinesGetError { lines } },
            _ => Phase::Failed { error: Error::LinesReqError { lines } },
        }
    }

    /// The controller after `event` has been reported.
    ///
    /// In each phase one kind of event tells that the outstanding action
    /// went through. Any other event is a failure of that action and ends
    /// the controller with the error that belongs to the action. `Ready` and
    /// `Failed` have nothing outstanding: there an event changes nothing.
    pub open spec fn after(self, event: Event) -> BoardView {
        match self.phase {
            Phase::Opening { chip } => match event {
                Event::Done => match chip {
                    ChipNumber::Chip4 => self.moved_to(Phase::Opening { chip: ChipNumber::Chip2 }),
                    ChipNumber::Chip2 => if self.candidates.len() == 0 {
                        self.moved_to(Phase::Racing)
                    } else {
                        self.moved_to(Phase::Arming { armed: 0 })
                    },
                },
                _ => self.moved_to(Phase::Failed { error: Error::ChipError { chip } }),
            },
            Phase::Arming { armed } => match event {
                Event::Done => if armed + 1 < self.candidates.len() {
                    self.moved_to(Phase::Arming { armed: (armed + 1) as usize })
                } else {
                    self.moved_to(Phase::Racing)
                },
                _ => self.moved_to(
                    Phase::Failed {
                        error: Error::LineGetError { line: self.candidates[armed as int] },
                    },
                ),
            },
            Phase::Racing => match event {
                Event::Fired(winner) if winner < self.candidates.len() => BoardView {
                    phase: Phase::Emitting,
                    line: Some(self.candidates[winner as int]),
                    ..self
                },
                _ => self.moved_to(Phase::Failed { error: Error::DiscoveryError }),
            },
            Phase::Emitting => match event {
                Event::Done => self.moved_to(Phase::Keying),
                _ => self.moved_to(Self::claim_failed(event, LineGroup::Emitters)),
            },
            Phase::Keying => match event {
                Event::Done => self.moved_to(Phase::Lighting { position: KeyPosition::Right }),
                _ => self.moved_to(Self::claim_failed(event, LineGroup::Keys)),
            },
            Phase::Lighting { position } => match event {
                Event::Done => match position {
                    KeyPosition::Right => self.moved_to(
                        Phase::Lighting { position: KeyPosition::Center },
                    ),
                    KeyPosition::Center => self.moved_to(
                        Phase::Lighting { position: KeyPosition::Left },
                    ),
                    KeyPosition::Left => self.moved_to(Phase::Ready),
                },
                _ => self.moved_to(Self::claim_failed(event, position.leds_spec())),
            },
            Phase::Ready => self,
            Phase::Waiting => match event {
                Event::Edge(EdgeKind::Rising) => self,
                Event::Edge(EdgeKind::Falling) => self.moved_to(Phase::Sampling),
                _ => self.moved_to(
                    Phase::Failed { error: Error::LineEventError { line: self.line->0 } },
                ),
            },
            Phase::Sampling => match event {
                Event::Levels(levels) => match pressed(levels@) {
                    Some(position) => self.moved_to(Phase::Writing { position }),
                    None => self.moved_to(Phase::Waiting),
                },
                _ => self.moved_to(
                    Phase::Failed { error: Error::LinesReadError { lines: LineGroup::Keys } },
                ),
            },
            Phase::Writing { position } => match event {
                Event::Done => BoardView {
                    phase: Phase::Waiting,
                    colours: pressed_once(self.colours, position),
                    ..self
                },
                _ => self.moved_to(
                    Phase::Failed {
                        error: Error::LinesSetError { lines: position.leds_spec() },
                    },
                ),
            },
            Phase::Failed { .. } => self,
        }
    }

    /// The controller after monitoring has been asked for: a `Ready`
    /// controller starts to wait for edges, any other stays as it is.
    pub open spec fn monitored(self) -> BoardView {
        if self.phase == Phase::Ready {
            self.moved_to(Phase::Waiting)
        } else {
            self
        }
    }

    /// The controller after one key press that goes through: a falling
    /// edge, a read of the key lines giving `levels`, and a finished write.
    pub open spec fn after_press(self, levels: Vec<u8>) -> BoardView {
        self.after(Event::Edge(EdgeKind::Falling)).after(Event::Levels(levels)).after(Event::Done)
    }

    /// The controller after a run of events, the first reported first.
    pub open spec fn run(self, events: Seq<Event>) -> BoardView
        decreases events.len(),
    {
        if events.len() == 0 {
            self
        } else {
            self.after(events.first()).run(events.drop_first())
        }
    }
}

/// The controller of one peck board.
///
/// It owns the record of the LED colours, the key reader once the interrupt
/// line is known, and the list of candidate interrupt lines.
pub struct PeckBoard {
    leds: PeckLEDs,
    keys: Option<PeckKeys>,
    candidates: Vec<u32>,
    phase: Phase,
}

impl View for PeckBoard {
    type V = BoardView;

    closed spec fn view(&self) -> BoardView {
        BoardView {
            phase: self.phase,
            candidates: self.candidates@,
            line: match self.keys {
                Some(keys) => Some(keys.line()),
                None => None,
            },
            colours: self.leds@,
        }
    }
}

impl PeckBoard {
    #[verifier::type_invariant]
    closed spec fn inv(&self) -> bool {
        self@.wf()
    }

    /// A controller that is about to discover which of `candidates` is the
    /// interrupt line of the board. Its first action is outstanding.
    pub fn new(candidates: Vec<u32>) -> (board: PeckBoard)
        ensures
            board@ == BoardView::initial(candidates@),
            board@.wf(),
    {
        // Taking the length shows that it fits the counter used while arming.
        let _count: usize = candidates.len();
        PeckBoard {
            leds: PeckLEDs::new(),
            keys: None,
            candidates,
            phase: Phase::Opening { chip: ChipNumber::Chip4 },
        }
    }

    /// Where the controller stands.
    pub fn phase(&self) -> (phase: Phase)
        ensures
            phase == self@.phase,
    {
        self.phase
    }

    /// The interrupt line, once the race has been won.
    pub fn interrupt_line(&self) -> (line: Option<u32>)
        ensures
            line == self@.line,
    {
        match &self.keys {
            Some(keys) => Some(keys.interrupt_line()),
            None => None,
        }
    }

    /// The colour recorded for `position`.
    pub fn color(&self, position: KeyPosition) -> (color: LedState)
        ensures
            color == self@.colours[position.index_spec()],
    {
        self.leds.color(position)
    }

    /// The action that the controller is waiting on.
    pub fn outstanding(&self) -> (action: Action)
        ensures
            action == self@.outstanding(),
    {
        proof {
            use_type_invariant(self);
        }
        match self.phase {
            Phase::Opening { chip } => Action::OpenChip { chip },
            Phase::Arming { armed } => Action::WatchLine { line: self.candidates[armed] },
            Phase::Racing => Action::AwaitFirstEdge,
            Phase::Emitting => Action::ConfigureEmitters,
            Phase::Keying => Action::ConfigureKeys,
            Phase::Lighting { position } => Action::ConfigureLeds { position, color: LedState::Off },
            Phase::Ready => Action::Standby,
            Phase::Waiting => Action::AwaitEdge { line: self.keys.unwrap().interrupt_line() },
            Phase::Sampling => Action::ReadKeys,
            Phase::Writing { position } => Action::WriteLeds {
                position,
                color: self.leds.upcoming(position),
            },
            Phase::Failed { error } => Action::Halt { error },
        }
    }

    /// Starts monitoring: a `Ready` controller begins to wait for edges on
    /// its interrupt line. On any other controller this changes nothing.
    /// Returns the action that is outstanding afterwards.
    pub fn monitor(&mut self) -> (action: Action)
        ensures
            final(self)@ == old(self)@.monitored(),
            final(self)@.wf(),
            action == final(self)@.outstanding(),
    {
        proof {
            use_type_invariant(&*self);
        }
        if self.phase == Phase::Ready {
            self.phase = Phase::Waiting;
        }
        self.outstanding()
    }

    /// Ends the race: the key reader is bound and set-up goes on.
    fn bind(keys: &mut Option<PeckKeys>, phase: &mut Phase, bound: PeckKeys)
        ensures
            *final(keys) == Some(bound),
            *final(phase) == Phase::Emitting,
        no_unwind
    {
        *keys = Some(bound);
        *phase = Phase::Emitting;
    }

    /// The phase that a failed attempt to claim `lines` leads to.
    fn claim_failed(event: &Event, lines: LineGroup) -> (phase: Phase)
        ensures
            phase == BoardView::claim_failed(*event, lines),
    {
        match event {
            Event::Unavailable => Phase::Failed { error: Error::LinesGetError { lines } },
            _ => Phase::Failed { error: Error::LinesReqError { lines } },
        }
    }

    /// Takes the outcome of the outstanding action and returns the action
    /// that is outstanding next.
    pub fn step(&mut self, event: &Event) -> (action: Action)
        ensures
            final(self)@ == old(self)@.after(*event),
            final(self)@.wf(),
            action == final(self)@.outstanding(),
    {
        proof {
            use_type_invariant(&*self);
        }
        match self.phase {
            Phase::Opening { chip } => {
                self.phase = match event {
                    Event::Done => match chip {
                        ChipNumber::Chip4 => Phase::Opening { chip: ChipNumber::Chip2 },
                        ChipNumber::Chip2 => if self.candidates.len() == 0 {
                            Phase::Racing
                        } else {
                            Phase::Arming { armed: 0 }
                        },
                    },
                    _ => Phase::Failed { error: Error::ChipError { chip } },
                };
            },
            Phase::Arming { armed } => {
                let count: usize = self.candidates.len();
                self.phase = match event {
                    Event::Done => if armed + 1 < count {
                        Phase::Arming { armed: armed + 1 }
                    } else {
                        Phase::Racing
                    },
                    _ => Phase::Failed {
                        error: Error::LineGetError { line: self.candidates[armed] },
                    },
                };
            },
            Phase::Racing => {
                match event {
                    Event::Fired(winner) if *winner < self.candidates.len() => {
                        let line: u32 = self.candidates[*winner];
                        assert(self.candidates@.contains(line));
                        Self::bind(&mut self.keys, &mut self.phase, PeckKeys::new(line));
                    },
                    _ => {
                        self.phase = Phase::Failed { error: Error::DiscoveryError };
                    },
                }
            },
            Phase::Emitting => {
                self.phase = match event {
                    Event::Done => Phase::Keying,
                    _ => Self::claim_failed(event, LineGroup::Emitters),
                };
            },
            Phase::Keying => {
                self.phase = match event {
                    Event::Done => Phase::Lighting { position: KeyPosition::Right },
                    _ => Self::claim_failed(event, LineGroup::Keys),
                };
            },
            Phase::Lighting { position } => {
                self.phase = match event {
                    Event::Done => match position {
                        KeyPosition::Right => Phase::Lighting { position: KeyPosition::Center },
                        KeyPosition::Center => Phase::Lighting { position: KeyPosition::Left },
                        KeyPosition::Left => Phase::Ready,
                    },
                    _ => Self::claim_failed(event, position.leds()),
                };
            },
            Phase::Ready => {},
            Phase::Waiting => {
                match event {
                    Event::Edge(EdgeKind::Rising) => {},
                    Event::Edge(EdgeKind::Falling) => {
                        self.phase = Phase::Sampling;
                    },
                    _ => {
                        let line: u32 = self.keys.unwrap().interrupt_line();
                        self.phase = Phase::Failed { error: Error::LineEventError { line } };
                    },
                }
            },
            Phase::Sampling => {
                self.phase = match event {
                    Event::Levels(levels) => match PeckKeys::sample(levels.as_slice()) {
                        Some(position) => Phase::Writing { position },
                        None => Phase::Waiting,
                    },
                    _ => Phase::Failed { error: Error::LinesReadError { lines: LineGroup::Keys } },
                };
            },
            Phase::Writing { position } => {
                let written: bool = matches!(event, Event::Done);
                let mut leds = self.leds;
                let settled = leds.pecked(position, written);
                self.leds = leds;
                self.phase = match settled {
                    Ok(()) => Phase::Waiting,
                    Err(error) => Phase::Failed { error },
                };
            },
            Phase::Failed { .. } => {},
        }
        assert(self@ =~= old(self)@.after(*event));
        self.outstanding()
    }
}

} // verus!
