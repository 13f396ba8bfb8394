use powhttp_sdk::lifecycle::{run_result, shutdown_after_init, LoopEnd};

#[test]
fn failed_init_asks_for_shutdown() {
    assert!(shutdown_after_init::<String>(&Err("boom".to_string())));
    assert!(!shutdown_after_init::<String>(&Ok(())));
}

#[test]
fn init_failure_takes_precedence() {
    let r = run_result(Ok(Err("init".to_string())), LoopEnd::Ran(Err("loop".to_string())));
    assert_eq!(r, Err("init".to_string()));
    let r = run_result(Err("join".to_string()), LoopEnd::Shutdown);
    assert_eq!(r, Err("join".to_string()));
}

#[test]
fn loop_result_is_answered_after_successful_init() {
    let r = run_result(Ok(Ok(())), LoopEnd::Ran(Err("disconnected badly".to_string())));
    assert_eq!(r, Err("disconnected badly".to_string()));
    let r: Result<(), String> = run_result(Ok(Ok(())), LoopEnd::Ran(Ok(())));
    assert_eq!(r, Ok(()));
}

#[test]
fn shutdown_ends_the_run_with_ok() {
    let r: Result<(), String> = run_result(Ok(Ok(())), LoopEnd::Shutdown);
    assert_eq!(r, Ok(()));
}
