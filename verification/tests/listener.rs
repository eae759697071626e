use hello_http::failure::Failure;
use hello_http::listener::{advance, begin, host, ready_line, task_for, Phase, Task, Turn, PORT};

#[test]
fn the_listener_binds_port_8080_on_all_interfaces() {
    assert_eq!(begin(), Phase::Binding);
    assert_eq!(task_for(begin()), Task::Bind(8080));
    assert_eq!(PORT, 8080);
    assert_eq!(host(), "0.0.0.0");
}

#[test]
fn each_phase_asks_for_its_task() {
    assert_eq!(task_for(Phase::Binding), Task::Bind(PORT));
    assert_eq!(task_for(Phase::Accepting), Task::Accept);
    assert_eq!(task_for(Phase::Stopped), Task::Exit);
}

#[test]
fn a_successful_bind_is_announced() {
    assert_eq!(
        advance(Phase::Binding, true),
        Turn { phase: Phase::Accepting, report: None, announce: true, dispatch: false }
    );
    assert_eq!(ready_line(), "Server listening on port 8080...");
}

#[test]
fn a_failed_bind_stops_the_listener_without_serving() {
    let turn = advance(Phase::Binding, false);
    assert_eq!(
        turn,
        Turn { phase: Phase::Stopped, report: Some(Failure::Bind), announce: false, dispatch: false }
    );
    assert_eq!(task_for(turn.phase), Task::Exit);
}

#[test]
fn an_accepted_connection_is_dispatched() {
    assert_eq!(
        advance(Phase::Accepting, true),
        Turn { phase: Phase::Accepting, report: None, announce: false, dispatch: true }
    );
}

#[test]
fn a_failed_accept_is_reported_and_the_listener_goes_on() {
    let turn = advance(Phase::Accepting, false);
    assert_eq!(
        turn,
        Turn {
            phase: Phase::Accepting,
            report: Some(Failure::Accept),
            announce: false,
            dispatch: false
        }
    );
    assert_eq!(task_for(turn.phase), Task::Accept);
}

#[test]
fn a_stopped_listener_stays_stopped() {
    for succeeded in [true, false] {
        assert_eq!(
            advance(Phase::Stopped, succeeded),
            Turn { phase: Phase::Stopped, report: None, announce: false, dispatch: false }
        );
    }
}

#[test]
fn every_accepted_connection_is_dispatched_among_failures() {
    let outcomes = [true, false, true, true, false, false, true];
    let mut phase = advance(begin(), true).phase;
    let mut dispatched = 0;
    let mut reported = 0;
    for succeeded in outcomes {
        assert_eq!(task_for(phase), Task::Accept);
        let turn = advance(phase, succeeded);
        if turn.dispatch {
            dispatched += 1;
        }
        if turn.report == Some(Failure::Accept) {
            reported += 1;
        }
        assert!(!turn.announce);
        phase = turn.phase;
    }
    assert_eq!(dispatched, 4);
    assert_eq!(reported, 3);
    assert_eq!(phase, Phase::Accepting);
}
