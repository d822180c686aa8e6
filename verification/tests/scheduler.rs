use host_telemetry::report::PipelineConfig;
use host_telemetry::scheduler::{IterationLimit, RefreshAction, RefreshSession, RefreshState};

/// Runs a session that is never cancelled and lists what it asked for,
/// giving up after `most` actions.
fn run(mut session: RefreshSession, most: usize) -> Vec<RefreshAction> {
    let mut actions = Vec::new();
    while actions.len() < most {
        let action = session.advance(false);
        actions.push(action);
        if action == RefreshAction::Stop {
            break;
        }
    }
    actions
}

#[test]
fn three_iterations_take_three_samples_and_end() {
    let interval = 250;
    let actions = run(RefreshSession::new(interval, IterationLimit::Count(3)), 1000);
    assert_eq!(
        actions,
        vec![
            RefreshAction::Sample,
            RefreshAction::Render,
            RefreshAction::Wait(interval),
            RefreshAction::Sample,
            RefreshAction::Render,
            RefreshAction::Wait(interval),
            RefreshAction::Sample,
            RefreshAction::Render,
            RefreshAction::Wait(interval),
            RefreshAction::Stop,
        ]
    );
    let samples = actions.iter().filter(|action| **action == RefreshAction::Sample).count();
    assert_eq!(samples, 3);
    let waited: u64 = actions
        .iter()
        .map(|action| match action {
            RefreshAction::Wait(millis) => *millis,
            _ => 0,
        })
        .sum();
    assert!(waited >= 2 * interval);
    assert_eq!(waited, 3 * interval);
}

#[test]
fn the_first_sample_is_taken_without_waiting() {
    let mut session = RefreshSession::new(5000, IterationLimit::Count(3));
    assert_eq!(session.state, RefreshState::Idle);
    assert_eq!(session.advance(false), RefreshAction::Sample);
    assert_eq!(session.state, RefreshState::Sampling);
}

#[test]
fn a_wait_stands_between_any_two_samples() {
    let actions = run(RefreshSession::new(7, IterationLimit::Count(20)), 1000);
    let mut waited_since_sample = true;
    let mut samples = 0;
    for action in &actions {
        match action {
            RefreshAction::Sample => {
                assert!(samples == 0 || waited_since_sample);
                waited_since_sample = false;
                samples += 1;
            }
            RefreshAction::Wait(millis) => {
                assert_eq!(*millis, 7);
                waited_since_sample = true;
            }
            _ => {}
        }
    }
    assert_eq!(samples, 20);
}

#[test]
fn the_states_follow_one_another() {
    let mut session = RefreshSession::new(10, IterationLimit::Count(2));
    let mut states = vec![session.state];
    for _ in 0..8 {
        session.advance(false);
        states.push(session.state);
    }
    assert_eq!(
        states,
        vec![
            RefreshState::Idle,
            RefreshState::Sampling,
            RefreshState::Rendering,
            RefreshState::Waiting,
            RefreshState::Sampling,
            RefreshState::Rendering,
            RefreshState::Waiting,
            RefreshState::Terminated,
            RefreshState::Terminated,
        ]
    );
    assert!(session.is_terminated());
}

#[test]
fn the_samples_left_are_counted_down() {
    let mut session = RefreshSession::new(10, IterationLimit::Count(2));
    session.advance(false);
    assert_eq!(session.remaining, IterationLimit::Count(2));
    session.advance(false);
    assert_eq!(session.remaining, IterationLimit::Count(1));
    session.advance(false);
    session.advance(false);
    session.advance(false);
    assert_eq!(session.remaining, IterationLimit::Count(0));
    assert_eq!(session.interval_millis, 10);
}

#[test]
fn no_iterations_end_at_once() {
    let mut session = RefreshSession::new(250, IterationLimit::Count(0));
    assert!(!session.is_terminated());
    assert_eq!(session.advance(false), RefreshAction::Stop);
    assert!(session.is_terminated());
    let again = RefreshSession::new(250, IterationLimit::Count(0));
    assert_eq!(run(again, 10), vec![RefreshAction::Stop]);
}

#[test]
fn a_session_that_has_ended_stays_ended() {
    let mut session = RefreshSession::new(1, IterationLimit::Count(1));
    while session.advance(false) != RefreshAction::Stop {}
    let ended = session;
    for cancelled in [false, true, false] {
        assert_eq!(session.advance(cancelled), RefreshAction::Stop);
        assert_eq!(session, ended);
    }
}

#[test]
fn a_cancellation_is_heeded_when_a_wait_is_over() {
    let mut session = RefreshSession::new(100, IterationLimit::Indefinite);
    assert_eq!(session.advance(true), RefreshAction::Sample);
    assert_eq!(session.advance(true), RefreshAction::Render);
    assert_eq!(session.advance(true), RefreshAction::Wait(100));
    assert_eq!(session.state, RefreshState::Waiting);
    assert_eq!(session.advance(true), RefreshAction::Stop);
    assert!(session.is_terminated());
}

#[test]
fn a_cancellation_ends_a_counted_session_early() {
    let mut session = RefreshSession::new(100, IterationLimit::Count(5));
    let mut samples = 0;
    loop {
        let cancelled = samples == 2;
        match session.advance(cancelled) {
            RefreshAction::Sample => samples += 1,
            RefreshAction::Stop => break,
            _ => {}
        }
    }
    assert_eq!(samples, 2);
    assert_eq!(session.remaining, IterationLimit::Count(3));
}

#[test]
fn a_session_without_limit_goes_on() {
    let actions = run(RefreshSession::new(1, IterationLimit::Indefinite), 3000);
    assert_eq!(actions.len(), 3000);
    assert!(actions.iter().all(|action| *action != RefreshAction::Stop));
    let samples = actions.iter().filter(|action| **action == RefreshAction::Sample).count();
    assert_eq!(samples, 1000);
}

#[test]
fn the_largest_count_does_not_overflow() {
    let mut session = RefreshSession::new(0, IterationLimit::Count(u64::MAX));
    for _ in 0..3 {
        assert_eq!(session.advance(false), RefreshAction::Sample);
        assert_eq!(session.advance(false), RefreshAction::Render);
        assert_eq!(session.advance(false), RefreshAction::Wait(0));
    }
    assert_eq!(session.remaining, IterationLimit::Count(u64::MAX - 3));
}

#[test]
fn a_configuration_starts_its_session() {
    let config = PipelineConfig {
        include_graphics: false,
        include_process_table: true,
        refresh_interval_millis: 750,
        iterations: IterationLimit::Count(4),
    };
    assert_eq!(config.start_session(), RefreshSession::new(750, IterationLimit::Count(4)));
    let without_table = PipelineConfig { include_process_table: false, ..config };
    assert_eq!(run(without_table.start_session(), 10), vec![RefreshAction::Stop]);
}

#[test]
fn the_default_configuration_takes_one_sample() {
    let config = PipelineConfig::default();
    assert!(config.include_graphics);
    assert!(config.include_process_table);
    assert_eq!(config.refresh_interval_millis, 2000);
    assert_eq!(config.iterations, IterationLimit::Count(1));
    assert_eq!(
        run(config.start_session(), 10),
        vec![
            RefreshAction::Sample,
            RefreshAction::Render,
            RefreshAction::Wait(2000),
            RefreshAction::Stop,
        ]
    );
}
