use nccl::result::{check, check_value, text_or_empty, Error, NulError, ResultCode};

#[test]
fn success_code_checks_ok() {
    assert!(check(0).is_ok());
    assert!(ResultCode::success().is_success());
    assert_eq!(ResultCode::success().as_raw(), 0);
    assert_eq!(check_value(0, 17_i32).unwrap(), 17);
}

#[test]
fn failure_code_is_reported_as_that_code() {
    let e = check(5).unwrap_err();
    assert_eq!(e.nccl_code(), Some(ResultCode(5)));
    assert_eq!(e.nccl_code(), Some(ResultCode::invalid_usage()));
    let e = check_value(8, 1_u64).unwrap_err();
    assert_eq!(e.nccl_code(), Some(ResultCode::timeout()));
    let e = check(1234).unwrap_err();
    assert_eq!(e.nccl_code(), Some(ResultCode(1234)));
    assert!(!ResultCode(7).is_success());
}

#[test]
fn named_result_codes() {
    assert_eq!(ResultCode::unhandled_cuda_error().0, 1);
    assert_eq!(ResultCode::system_error().0, 2);
    assert_eq!(ResultCode::internal_error().0, 3);
    assert_eq!(ResultCode::invalid_argument().0, 4);
    assert_eq!(ResultCode::invalid_usage().0, 5);
    assert_eq!(ResultCode::remote_error().0, 6);
    assert_eq!(ResultCode::in_progress().0, 7);
    assert_eq!(ResultCode::timeout().0, 8);
}

#[test]
fn description_prefers_nccl_text() {
    let d = ResultCode(3).description(Some(String::from("internal error")));
    assert_eq!(d, "internal error");
}

#[test]
fn description_falls_back_to_the_code_in_decimal() {
    assert_eq!(ResultCode(42).description(None), "NCCL error 42");
    assert_eq!(ResultCode(0).description(None), "NCCL error 0");
    assert_eq!(ResultCode(-7).description(None), "NCCL error -7");
    assert_eq!(ResultCode(i32::MIN).description(None), "NCCL error -2147483648");
}

#[test]
fn error_messages() {
    let e = Error::InvalidArgument("rank must be in 0..nranks");
    assert_eq!(e.message(None), "rank must be in 0..nranks");
    let e = Error::NullOnSuccess("ncclCommSplit");
    assert_eq!(e.message(None), "ncclCommSplit returned success with a null handle");
    let e = Error::InteriorNul(NulError { position: 1, bytes: vec![b'a', 0] });
    assert_eq!(e.message(None), "string contains an interior NUL byte");
    assert_eq!(e.nccl_code(), None);
    let e = Error::Nccl(ResultCode(9));
    assert_eq!(e.message(None), "NCCL error 9");
    assert_eq!(e.message(Some(String::from("timeout"))), "timeout");
}

#[test]
fn nul_error_converts_into_error() {
    let e: Error = NulError { position: 2, bytes: vec![1, 2, 0] }.into();
    match e {
        Error::InteriorNul(n) => {
            assert_eq!(n.nul_position(), 2);
            assert_eq!(n.into_vec(), vec![1, 2, 0]);
        }
        other => panic!("unexpected {:?}", other),
    }
}

#[test]
fn missing_text_reads_as_empty() {
    assert_eq!(text_or_empty(None), "");
    assert_eq!(text_or_empty(Some(String::from("x"))), "x");
}
