use nccl::abi;
use nccl::comm::{checked_handle, validate_rank, Communicator, OwnedReductionOp, Registration, Window};
use nccl::result::{Error, ResultCode};
use nccl::types::WaitSignal;

fn invalid(e: Error) -> &'static str {
    match e {
        Error::InvalidArgument(m) => m,
        other => panic!("unexpected {:?}", other),
    }
}

#[test]
fn rank_must_be_within_the_communicator() {
    assert!(validate_rank(4, 0).is_ok());
    assert!(validate_rank(4, 3).is_ok());
    assert_eq!(invalid(validate_rank(0, 0).unwrap_err()), "nranks must be positive");
    assert_eq!(invalid(validate_rank(-2, 0).unwrap_err()), "nranks must be positive");
    assert_eq!(invalid(validate_rank(4, 4).unwrap_err()), "rank must be in 0..nranks");
    assert_eq!(invalid(validate_rank(4, -1).unwrap_err()), "rank must be in 0..nranks");
}

#[test]
fn created_communicator_needs_success_and_a_handle() {
    let c = Communicator::from_created(0, 0x10, "ncclCommInitRank").unwrap();
    assert_eq!(c.raw(), 0x10);
    assert!(!c.is_closed());
    let e = Communicator::from_created(2, 0x10, "ncclCommInitRank").unwrap_err();
    assert_eq!(e.nccl_code(), Some(ResultCode(2)));
    match Communicator::from_created(0, 0, "ncclCommInitRankConfig") {
        Err(Error::NullOnSuccess(api)) => assert_eq!(api, "ncclCommInitRankConfig"),
        _ => panic!("expected a null-handle error"),
    }
    assert!(matches!(Communicator::from_raw(0, "x"), Err(Error::NullOnSuccess("x"))));
    assert_eq!(checked_handle(0, 5, "a").unwrap(), 5);
}

#[test]
fn communicator_handle_is_given_up_once() {
    let mut c = Communicator::from_raw(0x40, "ncclCommInitRank").unwrap();
    assert_eq!(c.close(), Some(0x40));
    assert!(c.is_closed());
    assert_eq!(c.close(), None);
    assert_eq!(c.close(), None);
}

#[test]
fn scalable_init_counts_identifiers() {
    assert_eq!(Communicator::scalable_id_count(8, 3, 2).unwrap(), 2);
    assert_eq!(
        invalid(Communicator::scalable_id_count(8, 3, 0).unwrap_err()),
        "at least one unique ID is required"
    );
    assert_eq!(
        invalid(Communicator::scalable_id_count(8, 8, 2).unwrap_err()),
        "rank must be in 0..nranks"
    );
    assert_eq!(
        invalid(Communicator::scalable_id_count(8, 0, (i32::MAX as usize) + 1).unwrap_err()),
        "too many unique IDs"
    );
    assert_eq!(Communicator::scalable_id_count(8, 0, i32::MAX as usize).unwrap(), i32::MAX);
}

#[test]
fn split_without_color_uses_nocolor() {
    assert_eq!(Communicator::split_color(None), abi::NCCL_SPLIT_NOCOLOR);
    assert_eq!(Communicator::split_color(Some(3)), 3);
}

#[test]
fn split_with_null_result_joins_nothing() {
    assert!(Communicator::from_split(0, 0).unwrap().is_none());
    let c = Communicator::from_split(0, 0x99).unwrap().unwrap();
    assert_eq!(c.raw(), 0x99);
    assert_eq!(Communicator::from_split(6, 0x99).unwrap_err().nccl_code(), Some(ResultCode(6)));
}

#[test]
fn shrink_arguments_count_and_flags() {
    assert_eq!(Communicator::shrink_arguments(3, false).unwrap(), (3, abi::NCCL_SHRINK_DEFAULT));
    assert_eq!(Communicator::shrink_arguments(0, true).unwrap(), (0, abi::NCCL_SHRINK_ABORT));
    assert_eq!(
        invalid(Communicator::shrink_arguments(usize::MAX, false).unwrap_err()),
        "too many excluded ranks"
    );
}

#[test]
fn registration_buffers_must_be_non_null_and_non_empty() {
    assert!(Communicator::check_registration(0x1000, 64).is_ok());
    assert_eq!(
        invalid(Communicator::check_registration(0, 64).unwrap_err()),
        "registered buffer must be non-null and non-empty"
    );
    assert_eq!(
        invalid(Communicator::check_registration(0x1000, 0).unwrap_err()),
        "registered buffer must be non-null and non-empty"
    );
    assert!(Communicator::check_window(0x1000, 4096).is_ok());
    assert_eq!(
        invalid(Communicator::check_window(0, 4096).unwrap_err()),
        "window buffer must be non-null and non-empty"
    );
}

#[test]
fn registrations_and_windows_keep_their_handles() {
    let comm = Communicator::from_raw(0x50, "ncclCommInitRank").unwrap();
    let reg = Registration::from_registered(0, 0x60, &comm).unwrap();
    assert_eq!(reg.deregister_arguments(), (0x50, 0x60));
    assert!(matches!(
        Registration::from_registered(0, 0, &comm),
        Err(Error::NullOnSuccess("ncclCommRegister"))
    ));
    let win = Window::from_registered(0, 0x70, &comm).unwrap();
    assert_eq!(win.as_raw(), 0x70);
    assert_eq!(win.comm_raw(), 0x50);
    assert!(matches!(
        Window::from_registered(0, 0, &comm),
        Err(Error::NullOnSuccess("ncclCommWindowRegister"))
    ));
    assert_eq!(Window::from_registered(3, 0x70, &comm).err().unwrap().nccl_code(), Some(ResultCode(3)));
}

#[test]
fn owned_reduction_op_keeps_code_and_owner() {
    let comm = Communicator::from_raw(0x50, "ncclCommInitRank").unwrap();
    let op = OwnedReductionOp::from_created(0, 5, &comm).unwrap();
    assert_eq!(op.op().as_raw(), 5);
    assert_eq!(op.destroy_arguments(), (5, 0x50));
    assert_eq!(
        OwnedReductionOp::from_created(4, 5, &comm).err().unwrap().nccl_code(),
        Some(ResultCode(4))
    );
}

#[test]
fn wait_signal_descriptors_are_checked_and_converted() {
    let waits = [
        WaitSignal { operation_count: 1, peer: 0, signal_index: 2, context: 0 },
        WaitSignal { operation_count: 0, peer: 3, signal_index: 1, context: 1 },
    ];
    let (count, descs) = Communicator::wait_signal_descriptors(&waits).unwrap();
    assert_eq!(count, 2);
    assert_eq!(descs.len(), 2);
    assert_eq!(descs[1], abi::ncclWaitSignalDesc_t { opCnt: 0, peer: 3, sigIdx: 1, ctx: 1 });
    let (count, descs) = Communicator::wait_signal_descriptors(&[]).unwrap();
    assert_eq!(count, 0);
    assert!(descs.is_empty());
    let bad = [
        WaitSignal { operation_count: 1, peer: 0, signal_index: 0, context: 0 },
        WaitSignal { operation_count: -1, peer: 0, signal_index: 0, context: 0 },
    ];
    assert_eq!(
        invalid(Communicator::wait_signal_descriptors(&bad).unwrap_err()),
        "signal operation counts must be non-negative"
    );
}
