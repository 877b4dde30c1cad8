use nccl::abi;
use nccl::types::{
    data_type_of, Bf16, CudaStream, DataType, Fp8E4M3, Fp8E5M2, MemoryStat, NcclType, Reduction,
    WaitSignal, F16,
};

#[test]
fn native_datatype_mapping_of_integer_and_storage_types() {
    assert_eq!(<i64 as NcclType>::DATA_TYPE, DataType::Int64);
    assert_eq!(<i8 as NcclType>::DATA_TYPE, DataType::Int8);
    assert_eq!(<u8 as NcclType>::DATA_TYPE, DataType::Uint8);
    assert_eq!(<i32 as NcclType>::DATA_TYPE, DataType::Int32);
    assert_eq!(<u32 as NcclType>::DATA_TYPE, DataType::Uint32);
    assert_eq!(<u64 as NcclType>::DATA_TYPE, DataType::Uint64);
    assert_eq!(<F16 as NcclType>::DATA_TYPE, DataType::Float16);
    assert_eq!(<Bf16 as NcclType>::DATA_TYPE, DataType::Bfloat16);
    assert_eq!(<Fp8E4M3 as NcclType>::DATA_TYPE, DataType::Float8E4M3);
    assert_eq!(<Fp8E5M2 as NcclType>::DATA_TYPE, DataType::Float8E5M2);
    assert_eq!(data_type_of::<u32>(), DataType::Uint32);
    assert_eq!(Reduction::Sum.op().as_raw(), abi::ncclSum);
}

#[test]
fn datatype_codes_follow_nccl_h() {
    assert_eq!(DataType::Int8.as_raw(), 0);
    assert_eq!(DataType::Uint8.as_raw(), 1);
    assert_eq!(DataType::Int32.as_raw(), 2);
    assert_eq!(DataType::Uint32.as_raw(), 3);
    assert_eq!(DataType::Int64.as_raw(), 4);
    assert_eq!(DataType::Uint64.as_raw(), 5);
    assert_eq!(DataType::Float16.as_raw(), 6);
    assert_eq!(DataType::Float32.as_raw(), abi::ncclFloat);
    assert_eq!(DataType::Float64.as_raw(), abi::ncclDouble);
    assert_eq!(DataType::Bfloat16.as_raw(), 9);
    assert_eq!(DataType::Float8E4M3.as_raw(), 10);
    assert_eq!(DataType::Float8E5M2.as_raw(), 11);
}

#[test]
fn reduction_codes_follow_nccl_h() {
    assert_eq!(Reduction::Sum.op().as_raw(), 0);
    assert_eq!(Reduction::Product.op().as_raw(), 1);
    assert_eq!(Reduction::Max.op().as_raw(), 2);
    assert_eq!(Reduction::Min.op().as_raw(), 3);
    assert_eq!(Reduction::Average.op().as_raw(), 4);
    for r in [Reduction::Sum, Reduction::Product, Reduction::Max, Reduction::Min, Reduction::Average] {
        assert!(r.op().as_raw() < abi::ncclNumOps);
    }
}

#[test]
fn memory_stat_codes_follow_nccl_h() {
    assert_eq!(MemoryStat::SuspendableBytes.as_raw(), abi::ncclStatGpuMemSuspend);
    assert_eq!(MemoryStat::Suspended.as_raw(), 1);
    assert_eq!(MemoryStat::PersistentBytes.as_raw(), 2);
    assert_eq!(MemoryStat::TotalBytes.as_raw(), abi::ncclStatGpuMemTotal);
}

#[test]
fn cuda_stream_default_is_null() {
    assert_eq!(CudaStream::default().as_raw(), 0);
    assert_eq!(CudaStream::from_raw(0x1000).as_raw(), 0x1000);
}

#[test]
fn wait_signal_converts_fieldwise() {
    let w = WaitSignal { operation_count: 3, peer: 1, signal_index: 7, context: 2 };
    let d = w.as_raw();
    assert_eq!(d, abi::ncclWaitSignalDesc_t { opCnt: 3, peer: 1, sigIdx: 7, ctx: 2 });
}

#[test]
fn storage_types_default_to_zero_bits() {
    assert_eq!(F16::default().0, 0);
    assert_eq!(Bf16::default().0, 0);
    assert_eq!(Fp8E4M3::default().0, 0);
    assert_eq!(Fp8E5M2::default().0, 0);
}
