use peckboard::{
    Action, ChipNumber, EdgeKind, Error, ErrorKind, Event, KeyPosition, LedState, LineGroup,
    PeckBoard, Phase, Stage,
};

const KEYS: [KeyPosition; 3] = [KeyPosition::Right, KeyPosition::Center, KeyPosition::Left];

fn candidates() -> Vec<u32> {
    vec![22, 23, 24, 25]
}

/// A board on which both chips are open and every candidate is watched.
fn racing() -> PeckBoard {
    let mut board = PeckBoard::new(candidates());
    for _ in 0..6 {
        board.step(&Event::Done);
    }
    assert_eq!(board.phase(), Phase::Racing);
    board
}

/// A board that is set up, with the candidate at place `winner` as its
/// interrupt line.
fn ready(winner: usize) -> PeckBoard {
    let mut board = racing();
    board.step(&Event::Fired(winner));
    for _ in 0..5 {
        board.step(&Event::Done);
    }
    assert_eq!(board.phase(), Phase::Ready);
    board
}

/// A board that waits for an edge on line 24.
fn waiting() -> PeckBoard {
    let mut board = ready(2);
    assert_eq!(board.monitor(), Action::AwaitEdge { line: 24 });
    board
}

fn colors(board: &PeckBoard) -> [LedState; 3] {
    [
        board.color(KeyPosition::Right),
        board.color(KeyPosition::Center),
        board.color(KeyPosition::Left),
    ]
}

/// One released key: falling edge, read, write.
fn press(board: &mut PeckBoard, levels: Vec<u8>) -> Action {
    assert_eq!(board.step(&Event::Edge(EdgeKind::Falling)), Action::ReadKeys);
    board.step(&Event::Levels(levels));
    board.step(&Event::Done)
}

#[test]
fn set_up_asks_for_each_step_in_order() {
    let mut board = PeckBoard::new(candidates());
    assert_eq!(board.phase().stage(), Stage::Discovering);
    assert_eq!(board.interrupt_line(), None);
    assert_eq!(board.outstanding(), Action::OpenChip { chip: ChipNumber::Chip4 });
    let expected = [
        Action::OpenChip { chip: ChipNumber::Chip2 },
        Action::WatchLine { line: 22 },
        Action::WatchLine { line: 23 },
        Action::WatchLine { line: 24 },
        Action::WatchLine { line: 25 },
        Action::AwaitFirstEdge,
    ];
    for action in expected {
        assert_eq!(board.step(&Event::Done), action);
        assert_eq!(board.outstanding(), action);
        assert_eq!(board.phase().stage(), Stage::Discovering);
    }
    assert_eq!(board.step(&Event::Fired(0)), Action::ConfigureEmitters);
    let expected = [
        Action::ConfigureKeys,
        Action::ConfigureLeds { position: KeyPosition::Right, color: LedState::Off },
        Action::ConfigureLeds { position: KeyPosition::Center, color: LedState::Off },
        Action::ConfigureLeds { position: KeyPosition::Left, color: LedState::Off },
        Action::Standby,
    ];
    for action in expected {
        assert_eq!(board.step(&Event::Done), action);
    }
    assert_eq!(board.phase(), Phase::Ready);
    assert_eq!(board.phase().stage(), Stage::Ready);
    assert_eq!(board.interrupt_line(), Some(22));
    assert_eq!(colors(&board), [LedState::Off; 3]);
}

#[test]
fn discovery_returns_the_only_line_that_fires() {
    let mut board = racing();
    assert_eq!(board.outstanding(), Action::AwaitFirstEdge);
    assert_eq!(board.interrupt_line(), None);
    board.step(&Event::Fired(2));
    assert_eq!(board.interrupt_line(), Some(24));
    let mut board = ready(2);
    assert_eq!(board.interrupt_line(), Some(24));
    assert_eq!(board.monitor(), Action::AwaitEdge { line: 24 });
}

#[test]
fn discovery_follows_whichever_line_fires() {
    for (winner, line) in [(0, 22), (1, 23), (2, 24), (3, 25)] {
        let mut board = ready(winner);
        assert_eq!(board.interrupt_line(), Some(line));
        assert_eq!(board.monitor(), Action::AwaitEdge { line });
    }
}

#[test]
fn a_winner_outside_the_candidates_ends_discovery() {
    let mut board = racing();
    let halt = Action::Halt { error: Error::DiscoveryError };
    assert_eq!(board.step(&Event::Fired(4)), halt);
    assert_eq!(board.interrupt_line(), None);
    let mut board = racing();
    assert_eq!(board.step(&Event::Fault), halt);
    let mut board = racing();
    assert_eq!(board.step(&Event::Done), halt);
    assert_eq!(board.phase().stage(), Stage::Failed);
}

#[test]
fn without_candidates_the_race_starts_at_once() {
    let mut board = PeckBoard::new(Vec::new());
    board.step(&Event::Done);
    assert_eq!(board.step(&Event::Done), Action::AwaitFirstEdge);
    assert_eq!(
        board.step(&Event::Fired(0)),
        Action::Halt { error: Error::DiscoveryError }
    );
}

#[test]
fn a_single_candidate_is_armed_once() {
    let mut board = PeckBoard::new(vec![7]);
    board.step(&Event::Done);
    assert_eq!(board.step(&Event::Done), Action::WatchLine { line: 7 });
    assert_eq!(board.step(&Event::Done), Action::AwaitFirstEdge);
    board.step(&Event::Fired(0));
    assert_eq!(board.interrupt_line(), Some(7));
}

#[test]
fn a_chip_that_does_not_open_is_fatal() {
    let mut board = PeckBoard::new(candidates());
    let error = Error::ChipError { chip: ChipNumber::Chip4 };
    assert_eq!(board.step(&Event::Fault), Action::Halt { error });
    assert_eq!(board.phase(), Phase::Failed { error });

    let mut board = PeckBoard::new(candidates());
    board.step(&Event::Done);
    let error = Error::ChipError { chip: ChipNumber::Chip2 };
    assert_eq!(board.step(&Event::Unavailable), Action::Halt { error });
    assert_eq!(error.kind(), ErrorKind::Setup);
}

#[test]
fn a_candidate_that_cannot_be_watched_is_fatal() {
    for (armed, line) in [(0, 22), (1, 23), (2, 24), (3, 25)] {
        let mut board = PeckBoard::new(candidates());
        for _ in 0..2 + armed {
            board.step(&Event::Done);
        }
        assert_eq!(board.phase(), Phase::Arming { armed });
        let error = Error::LineGetError { line };
        assert_eq!(board.step(&Event::Fault), Action::Halt { error });
        assert_eq!(board.phase(), Phase::Failed { error });
        assert_eq!(board.interrupt_line(), None);
    }
}

#[test]
fn a_group_that_cannot_be_claimed_is_fatal() {
    let groups = [
        LineGroup::Emitters,
        LineGroup::Keys,
        LineGroup::RightLeds,
        LineGroup::CenterLeds,
        LineGroup::LeftLeds,
    ];
    for (claimed, lines) in groups.into_iter().enumerate() {
        let mut board = racing();
        board.step(&Event::Fired(1));
        for _ in 0..claimed {
            board.step(&Event::Done);
        }
        assert_eq!(
            board.step(&Event::Unavailable),
            Action::Halt { error: Error::LinesGetError { lines } }
        );

        let mut board = racing();
        board.step(&Event::Fired(1));
        for _ in 0..claimed {
            board.step(&Event::Done);
        }
        assert_eq!(
            board.step(&Event::Fault),
            Action::Halt { error: Error::LinesReqError { lines } }
        );
        assert_eq!(colors(&board), [LedState::Off; 3]);
    }
}

#[test]
fn a_ready_board_waits_for_monitor() {
    let mut board = ready(2);
    assert_eq!(board.outstanding(), Action::Standby);
    assert_eq!(board.step(&Event::Edge(EdgeKind::Falling)), Action::Standby);
    assert_eq!(board.step(&Event::Levels(vec![0, 1, 0])), Action::Standby);
    assert_eq!(board.step(&Event::Done), Action::Standby);
    assert_eq!(board.step(&Event::Fault), Action::Standby);
    assert_eq!(board.phase(), Phase::Ready);
    assert_eq!(colors(&board), [LedState::Off; 3]);
    assert_eq!(board.monitor(), Action::AwaitEdge { line: 24 });
    assert_eq!(board.phase(), Phase::Waiting);
    assert_eq!(board.phase().stage(), Stage::Monitoring);
}

#[test]
fn monitor_acts_on_a_ready_board_only() {
    let mut board = PeckBoard::new(candidates());
    assert_eq!(board.monitor(), Action::OpenChip { chip: ChipNumber::Chip4 });
    assert_eq!(board.phase(), Phase::Opening { chip: ChipNumber::Chip4 });

    let mut board = racing();
    assert_eq!(board.monitor(), Action::AwaitFirstEdge);
    assert_eq!(board.phase(), Phase::Racing);

    let mut board = waiting();
    board.step(&Event::Edge(EdgeKind::Falling));
    assert_eq!(board.monitor(), Action::ReadKeys);
    assert_eq!(board.phase(), Phase::Sampling);
}

#[test]
fn rising_then_falling_edge_on_center_advances_center_once() {
    let mut board = waiting();
    assert_eq!(
        board.step(&Event::Edge(EdgeKind::Rising)),
        Action::AwaitEdge { line: 24 }
    );
    assert_eq!(board.phase(), Phase::Waiting);
    assert_eq!(board.step(&Event::Edge(EdgeKind::Falling)), Action::ReadKeys);
    assert_eq!(
        board.step(&Event::Levels(vec![0, 1, 0])),
        Action::WriteLeds { position: KeyPosition::Center, color: LedState::Blue }
    );
    assert_eq!(colors(&board), [LedState::Off; 3]);
    assert_eq!(board.step(&Event::Done), Action::AwaitEdge { line: 24 });
    assert_eq!(colors(&board), [LedState::Off, LedState::Blue, LedState::Off]);
}

#[test]
fn two_falling_edges_on_center_advance_center_twice() {
    let mut board = waiting();
    assert_eq!(board.color(KeyPosition::Center), LedState::Off);
    press(&mut board, vec![0, 1, 0]);
    assert_eq!(board.color(KeyPosition::Center), LedState::Blue);
    press(&mut board, vec![0, 1, 0]);
    assert_eq!(board.color(KeyPosition::Center), LedState::Red);
    assert_eq!(colors(&board), [LedState::Off, LedState::Red, LedState::Off]);
}

#[test]
fn a_falling_edge_without_a_key_changes_nothing() {
    let mut board = waiting();
    press(&mut board, vec![1, 0, 0]);
    let before = colors(&board);
    assert_eq!(board.step(&Event::Edge(EdgeKind::Falling)), Action::ReadKeys);
    assert_eq!(
        board.step(&Event::Levels(vec![0, 0, 0])),
        Action::AwaitEdge { line: 24 }
    );
    assert_eq!(board.phase(), Phase::Waiting);
    assert_eq!(colors(&board), before);
    assert_eq!(board.interrupt_line(), Some(24));
}

#[test]
fn rising_edges_alone_never_read_or_write() {
    let mut board = waiting();
    for _ in 0..10 {
        assert_eq!(
            board.step(&Event::Edge(EdgeKind::Rising)),
            Action::AwaitEdge { line: 24 }
        );
    }
    assert_eq!(colors(&board), [LedState::Off; 3]);
}

#[test]
fn each_key_cycles_its_own_leds() {
    let mut board = waiting();
    let reads: [(KeyPosition, [u8; 3]); 3] = [
        (KeyPosition::Right, [1, 0, 0]),
        (KeyPosition::Center, [0, 1, 0]),
        (KeyPosition::Left, [0, 0, 1]),
    ];
    let cycle = [
        LedState::Blue,
        LedState::Red,
        LedState::Green,
        LedState::All,
        LedState::Off,
    ];
    for (position, levels) in reads {
        for color in cycle {
            board.step(&Event::Edge(EdgeKind::Falling));
            assert_eq!(
                board.step(&Event::Levels(levels.to_vec())),
                Action::WriteLeds { position, color }
            );
            board.step(&Event::Done);
            assert_eq!(board.color(position), color);
            for other in KEYS {
                if other != position {
                    assert_eq!(board.color(other), LedState::Off);
                }
            }
        }
    }
}

#[test]
fn two_keys_at_once_count_for_the_lower_place() {
    let mut board = waiting();
    board.step(&Event::Edge(EdgeKind::Falling));
    assert_eq!(
        board.step(&Event::Levels(vec![0, 1, 1])),
        Action::WriteLeds { position: KeyPosition::Center, color: LedState::Blue }
    );
}

#[test]
fn a_failed_write_keeps_the_old_colour() {
    let mut board = waiting();
    press(&mut board, vec![0, 1, 0]);
    board.step(&Event::Edge(EdgeKind::Falling));
    assert_eq!(
        board.step(&Event::Levels(vec![0, 1, 0])),
        Action::WriteLeds { position: KeyPosition::Center, color: LedState::Red }
    );
    let error = Error::LinesSetError { lines: LineGroup::CenterLeds };
    assert_eq!(board.step(&Event::Fault), Action::Halt { error });
    assert_eq!(error.kind(), ErrorKind::Write);
    assert_eq!(colors(&board), [LedState::Off, LedState::Blue, LedState::Off]);
    assert_eq!(board.phase(), Phase::Failed { error });
}

#[test]
fn a_failed_read_is_fatal() {
    let mut board = waiting();
    let error = Error::LineEventError { line: 24 };
    assert_eq!(board.step(&Event::Fault), Action::Halt { error });
    assert_eq!(error.kind(), ErrorKind::Read);

    let mut board = waiting();
    board.step(&Event::Edge(EdgeKind::Falling));
    let error = Error::LinesReadError { lines: LineGroup::Keys };
    assert_eq!(board.step(&Event::Fault), Action::Halt { error });
    assert_eq!(error.kind(), ErrorKind::Read);
    assert_eq!(colors(&board), [LedState::Off; 3]);
}

#[test]
fn an_answer_to_another_question_is_a_failure() {
    let mut board = waiting();
    assert_eq!(
        board.step(&Event::Levels(vec![1, 0, 0])),
        Action::Halt { error: Error::LineEventError { line: 24 } }
    );
    let mut board = waiting();
    board.step(&Event::Edge(EdgeKind::Falling));
    assert_eq!(
        board.step(&Event::Edge(EdgeKind::Falling)),
        Action::Halt { error: Error::LinesReadError { lines: LineGroup::Keys } }
    );
    let mut board = waiting();
    board.step(&Event::Edge(EdgeKind::Falling));
    board.step(&Event::Levels(vec![0, 0, 1]));
    assert_eq!(
        board.step(&Event::Edge(EdgeKind::Rising)),
        Action::Halt { error: Error::LinesSetError { lines: LineGroup::LeftLeds } }
    );
    assert_eq!(colors(&board), [LedState::Off; 3]);
}

#[test]
fn a_failed_board_stays_failed() {
    let mut board = waiting();
    let error = Error::LineEventError { line: 24 };
    let halt = Action::Halt { error };
    assert_eq!(board.step(&Event::Fault), halt);
    assert_eq!(board.step(&Event::Done), halt);
    assert_eq!(board.step(&Event::Edge(EdgeKind::Falling)), halt);
    assert_eq!(board.step(&Event::Levels(vec![0, 1, 0])), halt);
    assert_eq!(board.monitor(), halt);
    assert_eq!(board.outstanding(), halt);
    assert_eq!(board.phase(), Phase::Failed { error });
    assert_eq!(board.phase().stage(), Stage::Failed);
    assert_eq!(colors(&board), [LedState::Off; 3]);
}
