use nccl::memory::NcclMemory;
use nccl::result::{Error, ResultCode};

fn invalid<T>(r: Result<T, Error>) -> &'static str {
    match r {
        Err(Error::InvalidArgument(m)) => m,
        _ => panic!("expected an invalid-argument error"),
    }
}

#[test]
fn allocation_size_is_element_size_times_length() {
    assert_eq!(NcclMemory::<u32>::allocation_size(10).unwrap(), 40);
    assert_eq!(NcclMemory::<u64>::allocation_size(1).unwrap(), 8);
    assert_eq!(NcclMemory::<u8>::allocation_size(usize::MAX).unwrap(), usize::MAX);
}

#[test]
fn allocation_size_errors() {
    assert_eq!(invalid(NcclMemory::<u32>::allocation_size(0)), "NCCL allocation length must be non-zero");
    assert_eq!(invalid(NcclMemory::<u32>::allocation_size(usize::MAX)), "NCCL allocation size overflow");
    assert_eq!(
        invalid(NcclMemory::<()>::allocation_size(3)),
        "zero-sized Rust types cannot be NCCL buffers"
    );
}

#[test]
fn allocation_bookkeeping() {
    let mut m = NcclMemory::<f32>::from_allocation(4, 0, 0x8000).unwrap();
    assert_eq!(m.len(), 4);
    assert!(!m.is_empty());
    assert_eq!(m.as_ptr(), 0x8000);
    assert_eq!(m.as_mut_ptr(), 0x8000);
    assert!(matches!(
        NcclMemory::<f32>::from_allocation(4, 0, 0),
        Err(Error::NullOnSuccess("ncclMemAlloc"))
    ));
    match NcclMemory::<f32>::from_allocation(4, 2, 0x8000) {
        Err(e) => assert_eq!(e.nccl_code(), Some(ResultCode(2))),
        Ok(_) => panic!("expected the NCCL error"),
    }
}
