use note_sequencer::track::{TrackEvent, TrackState};

const STATES: [TrackState; 4] =
    [TrackState::Idle, TrackState::Running, TrackState::Finished, TrackState::Aborted];

const EVENTS: [TrackEvent; 4] =
    [TrackEvent::Started, TrackEvent::Played, TrackEvent::Refused, TrackEvent::Ended];

#[test]
fn an_idle_track_starts_running() {
    assert_eq!(TrackState::Idle.next(TrackEvent::Started), TrackState::Running);
}

#[test]
fn an_idle_track_is_moved_by_nothing_else() {
    assert_eq!(TrackState::Idle.next(TrackEvent::Played), TrackState::Idle);
    assert_eq!(TrackState::Idle.next(TrackEvent::Refused), TrackState::Idle);
    assert_eq!(TrackState::Idle.next(TrackEvent::Ended), TrackState::Idle);
}

#[test]
fn a_running_track_goes_on_while_notes_are_played() {
    assert_eq!(TrackState::Running.next(TrackEvent::Played), TrackState::Running);
    assert_eq!(TrackState::Running.next(TrackEvent::Started), TrackState::Running);
}

#[test]
fn a_running_track_is_aborted_by_a_refusal() {
    assert_eq!(TrackState::Running.next(TrackEvent::Refused), TrackState::Aborted);
}

#[test]
fn a_running_track_is_finished_by_the_end_of_playback() {
    assert_eq!(TrackState::Running.next(TrackEvent::Ended), TrackState::Finished);
}

#[test]
fn a_track_that_has_ended_stays_as_it_is() {
    for event in EVENTS {
        assert_eq!(TrackState::Finished.next(event), TrackState::Finished);
        assert_eq!(TrackState::Aborted.next(event), TrackState::Aborted);
    }
}

#[test]
fn only_a_refusal_of_a_running_track_aborts() {
    for state in STATES {
        for event in EVENTS {
            if state != TrackState::Aborted && state.next(event) == TrackState::Aborted {
                assert_eq!(state, TrackState::Running);
                assert_eq!(event, TrackEvent::Refused);
            }
        }
    }
}

#[test]
fn finished_and_aborted_are_the_ends() {
    assert!(!TrackState::Idle.ended());
    assert!(!TrackState::Running.ended());
    assert!(TrackState::Finished.ended());
    assert!(TrackState::Aborted.ended());
}
