use nccl::param::{
    parameter_key, parameter_keys_from, parameter_table_length, parameter_value_length, Parameter,
};
use nccl::result::{Error, ResultCode};

fn invalid<T: std::fmt::Debug>(r: Result<T, Error>) -> &'static str {
    match r {
        Err(Error::InvalidArgument(m)) => m,
        other => panic!("unexpected {:?}", other),
    }
}

#[test]
fn parameter_keys_must_not_hold_nul() {
    assert_eq!(parameter_key("NCCL_DEBUG").unwrap(), b"NCCL_DEBUG".to_vec());
    match parameter_key("A\0") {
        Err(Error::InteriorNul(e)) => assert_eq!(e.position, 1),
        _ => panic!("expected an interior NUL error"),
    }
}

#[test]
fn bound_parameter_needs_a_handle() {
    let p = Parameter::from_bound(0, 0x30).unwrap();
    assert_eq!(p.raw(), 0x30);
    assert!(matches!(Parameter::from_bound(0, 0), Err(Error::NullOnSuccess("ncclParamBind"))));
    assert_eq!(Parameter::from_bound(4, 0x30).err().unwrap().nccl_code(), Some(ResultCode(4)));
}

#[test]
fn string_value_of_null_is_empty() {
    assert_eq!(Parameter::string_value(0, None).unwrap(), "");
    assert_eq!(Parameter::string_value(0, Some(String::from("INFO"))).unwrap(), "INFO");
    assert_eq!(Parameter::string_value(1, None).unwrap_err().nccl_code(), Some(ResultCode(1)));
}

#[test]
fn byte_buffer_length_must_fit_i32() {
    assert_eq!(Parameter::bytes_capacity(16).unwrap(), 16);
    assert_eq!(Parameter::bytes_capacity(i32::MAX as usize).unwrap(), i32::MAX);
    assert_eq!(
        invalid(Parameter::bytes_capacity(i32::MAX as usize + 1)),
        "parameter buffer exceeds i32::MAX"
    );
}

#[test]
fn byte_value_is_truncated_to_the_reported_length() {
    let v = Parameter::bytes_value(0, vec![1, 2, 3, 4], 2).unwrap();
    assert_eq!(v, vec![1, 2]);
    assert_eq!(Parameter::bytes_value(0, vec![1, 2], 2).unwrap(), vec![1, 2]);
    assert!(Parameter::bytes_value(0, vec![1, 2], 0).unwrap().is_empty());
    assert_eq!(
        invalid(Parameter::bytes_value(0, vec![1, 2], 3)),
        "NCCL returned an invalid parameter length"
    );
    assert_eq!(
        invalid(Parameter::bytes_value(0, vec![1, 2], -1)),
        "NCCL returned an invalid parameter length"
    );
    assert_eq!(
        Parameter::bytes_value(2, vec![1, 2], 1).unwrap_err().nccl_code(),
        Some(ResultCode(2))
    );
}

#[test]
fn parameter_value_length_checks() {
    assert_eq!(parameter_value_length(0, false, 5).unwrap(), 5);
    assert_eq!(parameter_value_length(0, true, 0).unwrap(), 0);
    assert_eq!(invalid(parameter_value_length(0, true, 3)), "NCCL returned an invalid parameter value");
    assert_eq!(invalid(parameter_value_length(0, false, -1)), "NCCL returned an invalid parameter value");
    assert_eq!(parameter_value_length(7, false, 5).unwrap_err().nccl_code(), Some(ResultCode(7)));
}

#[test]
fn parameter_table_checks() {
    assert_eq!(parameter_table_length(0, false, 2).unwrap(), 2);
    assert_eq!(parameter_table_length(0, true, 0).unwrap(), 0);
    assert_eq!(invalid(parameter_table_length(0, true, 1)), "NCCL returned an invalid parameter table");
    assert_eq!(invalid(parameter_table_length(0, false, -4)), "NCCL returned an invalid parameter table");
    let keys = parameter_keys_from(vec![Some(String::from("A")), Some(String::from("B"))]).unwrap();
    assert_eq!(keys, vec![String::from("A"), String::from("B")]);
    assert!(parameter_keys_from(vec![]).unwrap().is_empty());
    assert_eq!(
        invalid(parameter_keys_from(vec![Some(String::from("A")), None])),
        "NCCL parameter table contains a null key"
    );
}
