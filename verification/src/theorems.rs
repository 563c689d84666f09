//! What holds of every controller, proved over its mathematical model.

use vstd::prelude::*;
use crate::board::{Action, BoardView, EdgeKind, Event, Phase, Stage};
use crate::error::{Error, ErrorKind};
use crate::keys::{pressed, KeyPosition};
use crate::led::{lemma_cycle_has_length_five, LedState};
use crate::leds::{all_off, pressed_once};

verus! {

/// A well-formed controller stays well formed, whatever is reported to it
/// and whenever monitoring is asked for.
pub proof fn lemma_wf_is_kept(board: BoardView, event: Event)
    requires
        board.wf(),
    ensures
        board.after(event).wf(),
        board.monitored().wf(),
{
    if board.phase == Phase::Racing {
        if let Event::Fired(winner) = event {
            if winner < board.candidates.len() {
                assert(board.candidates.contains(board.candidates[winner as int]));
            }
        }
    }
}

/// A freshly made controller is well formed, and so is it after any run
/// of events.
pub proof fn lemma_every_run_is_wf(candidates: Seq<u32>, events: Seq<Event>)
    requires
        candidates.len() <= usize::MAX,
    ensures
        BoardView::initial(candidates).wf(),
        BoardView::initial(candidates).run(events).wf(),
{
    lemma_run_keeps_wf(BoardView::initial(candidates), events);
}

/// A run of events keeps a well-formed controller well formed.
pub proof fn lemma_run_keeps_wf(board: BoardView, events: Seq<Event>)
    requires
        board.wf(),
    ensures
        board.run(events).wf(),
    decreases events.len(),
{
    if events.len() > 0 {
        lemma_wf_is_kept(board, events.first());
        lemma_run_keeps_wf(board.after(events.first()), events.drop_first());
    }
}

/// The candidate list is never changed, and the interrupt line, once
/// chosen, is one of the candidates and stays the same for good.
pub proof fn lemma_line_is_fixed(board: BoardView, event: Event)
    requires
        board.wf(),
    ensures
        board.after(event).candidates == board.candidates,
        board.line is Some ==> board.after(event).line == board.line,
        board.after(event).line matches Some(line) ==> board.candidates.contains(line),
{
    lemma_wf_is_kept(board, event);
}

/// The race is won by the candidate that fired: its line becomes the
/// interrupt line, whatever the other candidates did or did not do.
pub proof fn lemma_race_is_won_by_the_line_that_fired(board: BoardView, winner: usize)
    requires
        board.phase == Phase::Racing,
        winner < board.candidates.len(),
    ensures
        board.after(Event::Fired(winner)).line == Some(board.candidates[winner as int]),
        board.after(Event::Fired(winner)).phase == Phase::Emitting,
{
}

/// While candidates are being armed, `Done` events alone lead to the race:
/// with `armed` candidates watched, the remaining ones take one event each.
pub proof fn lemma_arming_leads_to_race(board: BoardView, armed: usize, events: Seq<Event>)
    requires
        board.phase == (Phase::Arming { armed }),
        armed < board.candidates.len() <= usize::MAX,
        events.len() == board.candidates.len() - armed,
        forall|i: int| 0 <= i < events.len() ==> #[trigger] events[i] is Done,
    ensures
        board.run(events) == board.moved_to(Phase::Racing),
    decreases board.candidates.len() - armed,
{
    let next = board.after(events.first());
    let rest = events.drop_first();
    assert(events.first() is Done);
    if armed + 1 < board.candidates.len() {
        assert(forall|i: int| 0 <= i < rest.len() ==> #[trigger] rest[i] == events[i + 1]);
        lemma_arming_leads_to_race(next, (armed + 1) as usize, rest);
        assert(next.moved_to(Phase::Racing) == board.moved_to(Phase::Racing));
    } else {
        assert(rest.len() == 0);
        assert(next.run(rest) == next);
    }
}

/// Discovery as a whole: once both chips are open and every candidate is
/// watched, an edge on the candidate at place `winner` makes that
/// candidate's line the interrupt line.
pub proof fn lemma_discovery_returns_the_line_that_fired(
    candidates: Seq<u32>,
    events: Seq<Event>,
    winner: usize,
)
    requires
        winner < candidates.len() <= usize::MAX,
        events.len() == 2 + candidates.len(),
        forall|i: int| 0 <= i < events.len() ==> #[trigger] events[i] is Done,
    ensures
        BoardView::initial(candidates).run(events).phase == Phase::Racing,
        BoardView::initial(candidates).run(events).after(Event::Fired(winner)).line == Some(
            candidates[winner as int],
        ),
{
    let start = BoardView::initial(candidates);
    let first = start.after(events[0]);
    let tail = events.drop_first();
    assert(events[0] is Done);
    assert(tail[0] == events[1]);
    assert(events[1] is Done);
    let second = first.after(tail[0]);
    let rest = tail.drop_first();
    assert(forall|i: int| 0 <= i < rest.len() ==> #[trigger] rest[i] == events[i + 2]);
    assert(second.phase == (Phase::Arming { armed: 0 }));
    lemma_arming_leads_to_race(second, 0, rest);
    assert(start.run(events) == first.run(tail));
    assert(first.run(tail) == second.run(rest));
}

/// After the race, five `Done` events (emitters, keys, and the three LED
/// groups, each claimed showing `Off`) make the controller `Ready`, with
/// every position recorded as `Off`.
pub proof fn lemma_claims_lead_to_ready(board: BoardView)
    requires
        board.wf(),
        board.phase == Phase::Emitting,
    ensures
        ({
            let emitted = board.after(Event::Done);
            let keyed = emitted.after(Event::Done);
            let right = keyed.after(Event::Done);
            let center = right.after(Event::Done);
            let left = center.after(Event::Done);
            &&& board.outstanding() == Action::ConfigureEmitters
            &&& emitted.outstanding() == Action::ConfigureKeys
            &&& keyed.outstanding() == (Action::ConfigureLeds {
                position: KeyPosition::Right,
                color: LedState::Off,
            })
            &&& right.outstanding() == (Action::ConfigureLeds {
                position: KeyPosition::Center,
                color: LedState::Off,
            })
            &&& center.outstanding() == (Action::ConfigureLeds {
                position: KeyPosition::Left,
                color: LedState::Off,
            })
            &&& left == board.moved_to(Phase::Ready)
            &&& left.colours == all_off()
        }),
{
}

/// Any failure during set-up is fatal: an event other than the expected
/// one ends a discovering controller with a set-up error.
pub proof fn lemma_setup_failure_is_fatal(board: BoardView, event: Event)
    requires
        board.phase.stage_spec() == Stage::Discovering,
        !(event is Done),
        !(board.phase == Phase::Racing && event is Fired),
    ensures
        board.after(event).phase matches Phase::Failed { error } && error.kind_spec()
            == ErrorKind::Setup,
{
}

/// A rising edge is ignored: the controller goes on waiting, unchanged.
pub proof fn lemma_rising_edge_is_ignored(board: BoardView)
    requires
        board.phase == Phase::Waiting,
    ensures
        board.after(Event::Edge(EdgeKind::Rising)) == board,
{
}

/// One completed key press: a rising edge, a falling edge, a read that
/// names `position`, and a write that goes through. Together they move
/// `position` one colour on, leave the other positions alone, write
/// exactly the new colour, and bring the controller back to waiting.
pub proof fn lemma_press_advances_one_position(
    board: BoardView,
    levels: Vec<u8>,
    position: KeyPosition,
    other: KeyPosition,
)
    requires
        board.wf(),
        board.phase == Phase::Waiting,
        pressed(levels@) == Some(position),
        other != position,
    ensures
        ({
            let risen = board.after(Event::Edge(EdgeKind::Rising));
            let fallen = risen.after(Event::Edge(EdgeKind::Falling));
            let sampled = fallen.after(Event::Levels(levels));
            let written = sampled.after(Event::Done);
            &&& risen == board
            &&& fallen.outstanding() == Action::ReadKeys
            &&& sampled.outstanding() == (Action::WriteLeds {
                position,
                color: board.colours[position.index_spec()].successor(),
            })
            &&& sampled.colours == board.colours
            &&& written == BoardView { colours: pressed_once(board.colours, position), ..board }
            &&& written.colours[position.index_spec()]
                == board.colours[position.index_spec()].successor()
            &&& written.colours[other.index_spec()] == board.colours[other.index_spec()]
        }),
{
}

/// Two key presses of the same position in a row move it two colours on:
/// there is no debounce window that would swallow the second.
pub proof fn lemma_two_presses_advance_twice(
    board: BoardView,
    first: Vec<u8>,
    second: Vec<u8>,
    position: KeyPosition,
)
    requires
        board.wf(),
        board.phase == Phase::Waiting,
        pressed(first@) == Some(position),
        pressed(second@) == Some(position),
    ensures
        ({
            let once = board.after(Event::Edge(EdgeKind::Falling)).after(Event::Levels(first)).after(
                Event::Done,
            );
            let twice = once.after(Event::Edge(EdgeKind::Falling)).after(
                Event::Levels(second),
            ).after(Event::Done);
            &&& twice.phase == Phase::Waiting
            &&& twice.colours[position.index_spec()]
                == board.colours[position.index_spec()].successor().successor()
            &&& forall|other: KeyPosition|
                other != position ==> twice.colours[#[trigger] other.index_spec()]
                    == board.colours[other.index_spec()]
        }),
{
}

/// Five key presses of the same position in a row bring the controller
/// back to exactly where it was: the colours come round.
pub proof fn lemma_five_presses_come_round(
    board: BoardView,
    reads: Seq<Vec<u8>>,
    position: KeyPosition,
)
    requires
        board.wf(),
        board.phase == Phase::Waiting,
        reads.len() == 5,
        forall|i: int| 0 <= i < 5 ==> pressed(#[trigger] reads[i]@) == Some(position),
    ensures
        board.after_press(reads[0]).after_press(reads[1]).after_press(reads[2]).after_press(
            reads[3],
        ).after_press(reads[4]) == board,
{
    let first = board.after_press(reads[0]);
    lemma_press_is_one_step_of_the_cycle(board, reads[0], position);
    let second = first.after_press(reads[1]);
    lemma_press_is_one_step_of_the_cycle(first, reads[1], position);
    let third = second.after_press(reads[2]);
    lemma_press_is_one_step_of_the_cycle(second, reads[2], position);
    let fourth = third.after_press(reads[3]);
    lemma_press_is_one_step_of_the_cycle(third, reads[3], position);
    let fifth = fourth.after_press(reads[4]);
    lemma_press_is_one_step_of_the_cycle(fourth, reads[4], position);
    lemma_cycle_has_length_five(board.colours[position.index_spec()]);
    assert(fifth.colours =~= board.colours);
}

/// A key press that goes through, taken as a whole, is one step of the
/// pressed position along the colour cycle and nothing else.
pub proof fn lemma_press_is_one_step_of_the_cycle(
    board: BoardView,
    levels: Vec<u8>,
    position: KeyPosition,
)
    requires
        board.wf(),
        board.phase == Phase::Waiting,
        pressed(levels@) == Some(position),
    ensures
        board.after_press(levels) == (BoardView {
            colours: pressed_once(board.colours, position),
            ..board
        }),
        board.after_press(levels).wf(),
{
}

/// A falling edge with no key pressed causes no write and changes nothing.
pub proof fn lemma_release_without_key_changes_nothing(board: BoardView, levels: Vec<u8>)
    requires
        board.phase == Phase::Waiting,
        pressed(levels@) is None,
    ensures
        ({
            let fallen = board.after(Event::Edge(EdgeKind::Falling));
            let sampled = fallen.after(Event::Levels(levels));
            &&& fallen.outstanding() == Action::ReadKeys
            &&& fallen.colours == board.colours
            &&& sampled == board
            &&& sampled.outstanding() == (Action::AwaitEdge { line: board.line->0 })
        }),
{
}

/// A write that does not go through ends the controller with a write
/// error and leaves the record of colours exactly as it was.
pub proof fn lemma_failed_write_keeps_colours(
    board: BoardView,
    position: KeyPosition,
    event: Event,
)
    requires
        board.phase == (Phase::Writing { position }),
        !(event is Done),
    ensures
        board.after(event).colours == board.colours,
        board.after(event).phase == (Phase::Failed {
            error: Error::LinesSetError { lines: position.leds_spec() },
        }),
        board.after(event).outstanding() == (Action::Halt {
            error: Error::LinesSetError { lines: position.leds_spec() },
        }),
{
}

/// The record of colours moves only when a write has gone through, and
/// then by one press of the position that was written.
pub proof fn lemma_colours_move_only_on_write(board: BoardView, event: Event)
    ensures
        board.after(event).colours != board.colours ==> event is Done,
        board.after(event).colours != board.colours ==> (board.phase matches Phase::Writing {
            position,
        } && board.after(event).colours == pressed_once(board.colours, position)),
        board.monitored().colours == board.colours,
{
}

/// A failure while monitoring is fatal, and of the kind of the action
/// that failed: a read error while waiting or sampling, a write error
/// while writing.
pub proof fn lemma_monitoring_failure_is_fatal(board: BoardView, event: Event)
    requires
        board.phase.stage_spec() == Stage::Monitoring,
        board.after(event).phase.stage_spec() != Stage::Monitoring,
    ensures
        board.after(event).phase matches Phase::Failed { error } && (error.kind_spec() == (
        if board.phase is Writing {
            ErrorKind::Write
        } else {
            ErrorKind::Read
        })),
{
}

/// A failed controller stays failed, with the same error, and goes on
/// asking to halt; a ready controller waits until monitoring is started.
pub proof fn lemma_nothing_happens_without_an_outstanding_action(board: BoardView, event: Event)
    requires
        board.phase is Failed || board.phase is Ready,
    ensures
        board.after(event) == board,
        board.phase is Failed ==> board.monitored() == board,
        board.phase is Ready ==> board.monitored().phase == Phase::Waiting,
{
}

/// The stages are passed in order: discovering, ready, monitoring. No
/// event takes a controller back, skips `Ready`, or starts monitoring.
pub proof fn lemma_stages_go_forward(board: BoardView, event: Event)
    ensures
        ({
            let before = board.phase.stage_spec();
            let after = board.after(event).phase.stage_spec();
            after == before || after == Stage::Failed || (before == Stage::Discovering && after
                == Stage::Ready)
        }),
{
}

} // verus!
