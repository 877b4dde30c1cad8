use nccl::group::{BodyOutcome, GroupAction, GroupScope};
use nccl::result::{Error, ResultCode};

fn finish<T>(a: GroupAction<T>) -> Result<T, Error> {
    match a {
        GroupAction::Finish(r) => r,
        _ => panic!("expected the group to finish"),
    }
}

#[test]
fn failed_start_skips_body_and_end() {
    let mut g: GroupScope<i32> = GroupScope::new();
    let r = finish(g.on_start(2));
    assert_eq!(r.unwrap_err().nccl_code(), Some(ResultCode(2)));
}

#[test]
fn successful_group_returns_the_body_value() {
    let mut g = GroupScope::new();
    assert!(matches!(g.on_start(0), GroupAction::RunBody));
    assert!(matches!(g.on_body(BodyOutcome::Returned(Ok(7))), GroupAction::CallEnd));
    assert_eq!(finish(g.on_end(0)).unwrap(), 7);
}

#[test]
fn failed_end_reports_the_end_error() {
    let mut g = GroupScope::new();
    assert!(matches!(g.on_start(0), GroupAction::RunBody));
    assert!(matches!(g.on_body(BodyOutcome::Returned(Ok(()))), GroupAction::CallEnd));
    assert_eq!(finish(g.on_end(3)).unwrap_err().nccl_code(), Some(ResultCode(3)));
}

#[test]
fn body_error_wins_and_end_is_still_called() {
    let mut g: GroupScope<u8> = GroupScope::new();
    assert!(matches!(g.on_start(0), GroupAction::RunBody));
    let action = g.on_body(BodyOutcome::Returned(Err(Error::InvalidArgument("body failed"))));
    assert!(matches!(action, GroupAction::CallEnd));
    match finish(g.on_end(5)) {
        Err(Error::InvalidArgument(m)) => assert_eq!(m, "body failed"),
        _ => panic!("expected the body's error"),
    }
}

#[test]
fn body_panic_is_resumed_after_end() {
    let mut g: GroupScope<u8> = GroupScope::new();
    assert!(matches!(g.on_start(0), GroupAction::RunBody));
    assert!(matches!(g.on_body(BodyOutcome::Panicked), GroupAction::CallEnd));
    assert!(matches!(g.on_end(0), GroupAction::ResumePanic));
}
