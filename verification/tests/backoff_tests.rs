use share_scraper::backoff::{
    backoff_step, backoff_wait_ms, run_backoff_script, BackoffError, BackoffMessage, BackoffState,
    BackoffStep, MAX_RETRIES,
};

#[test]
fn wait_times_double_and_cap() {
    assert_eq!(backoff_wait_ms(0), 100);
    assert_eq!(backoff_wait_ms(1), 200);
    assert_eq!(backoff_wait_ms(2), 400);
    assert_eq!(backoff_wait_ms(3), 800);
    assert_eq!(backoff_wait_ms(4), 1600);
    assert_eq!(backoff_wait_ms(5), 3200);
    assert_eq!(backoff_wait_ms(8), 25600);
    assert_eq!(backoff_wait_ms(9), 30000);
    assert_eq!(backoff_wait_ms(10), 30000);
    assert_eq!(backoff_wait_ms(100), 30000);
}

#[test]
fn five_retries_then_return_succeeds_with_exact_delays() {
    let script = vec![
        BackoffMessage::Retry,
        BackoffMessage::Retry,
        BackoffMessage::Retry,
        BackoffMessage::Retry,
        BackoffMessage::Retry,
        BackoffMessage::Return(42),
    ];
    let (result, delays) = run_backoff_script(script).unwrap();
    assert_eq!(result, Ok(42));
    assert_eq!(delays, vec![200, 400, 800, 1600, 3200]);
}

#[test]
fn six_retries_exhaust_the_budget() {
    let script = vec![
        BackoffMessage::Retry,
        BackoffMessage::Retry,
        BackoffMessage::Retry,
        BackoffMessage::Retry,
        BackoffMessage::Retry,
        BackoffMessage::Retry,
    ];
    let (result, delays) = run_backoff_script::<i32>(script).unwrap();
    assert_eq!(result, Err(BackoffError::MaxRetries));
    assert_eq!(delays, vec![200, 400, 800, 1600, 3200]);
}

#[test]
fn exit_fails_immediately_without_delay() {
    let script: Vec<BackoffMessage<i32>> = vec![BackoffMessage::Exit];
    let (result, delays) = run_backoff_script(script).unwrap();
    assert_eq!(result, Err(BackoffError::Exit));
    assert!(delays.is_empty());
}

#[test]
fn exit_after_retries_keeps_earlier_delays() {
    let script: Vec<BackoffMessage<i32>> =
        vec![BackoffMessage::Retry, BackoffMessage::Retry, BackoffMessage::Exit];
    let (result, delays) = run_backoff_script(script).unwrap();
    assert_eq!(result, Err(BackoffError::Exit));
    assert_eq!(delays, vec![200, 400]);
}

#[test]
fn exhausted_script_is_indecisive() {
    let script: Vec<BackoffMessage<i32>> = vec![BackoffMessage::Retry];
    assert!(run_backoff_script(script).is_none());
    let script: Vec<BackoffMessage<i32>> = Vec::new();
    assert!(run_backoff_script(script).is_none());
}

#[test]
fn step_transitions_match_the_protocol() {
    let s0 = BackoffState { try_count: 0 };
    match backoff_step(s0, BackoffMessage::Return(7)) {
        BackoffStep::Done { result } => assert_eq!(result, Ok(7)),
        _ => panic!("expected done"),
    }
    match backoff_step::<i32>(s0, BackoffMessage::Exit) {
        BackoffStep::Done { result } => assert_eq!(result, Err(BackoffError::Exit)),
        _ => panic!("expected done"),
    }
    match backoff_step::<i32>(s0, BackoffMessage::Retry) {
        BackoffStep::Sleep { state, wait_ms } => {
            assert_eq!(state.try_count, 1);
            assert_eq!(wait_ms, 200);
        },
        _ => panic!("expected sleep"),
    }
    let s5 = BackoffState { try_count: MAX_RETRIES };
    match backoff_step::<i32>(s5, BackoffMessage::Retry) {
        BackoffStep::Done { result } => assert_eq!(result, Err(BackoffError::MaxRetries)),
        _ => panic!("expected done"),
    }
}
