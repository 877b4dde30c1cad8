//! Small value types shared by every NCCL operation: bootstrap identifiers,
//! CUDA stream handles, element types, reduction operations, memory
//! statistics and signal-wait descriptors.
use core::marker::PhantomData;
use vstd::prelude::*;

use crate::abi;

verus! {

/// The byte a C char stands for (two's complement reinterpretation).
pub open spec fn char_to_byte(c: i8) -> u8 {
    c as u8
}

/// The C char a byte is stored as (two's complement reinterpretation).
pub open spec fn byte_to_char(b: u8) -> i8 {
    b as i8
}

proof fn lemma_byte_char_inverse(b: u8, c: i8)
    ensures
        char_to_byte(byte_to_char(b)) == b,
        byte_to_char(char_to_byte(c)) == c,
{
    assert((b as i8) as u8 == b) by (bit_vector);
    assert((c as u8) as i8 == c) by (bit_vector);
}

/// A byte is stored as the C char with the same bits: bytes below 128 keep
/// their value and the others become negative (two's complement); reading a
/// char back gives the byte with the same bits.
pub proof fn lemma_byte_char_values(b: u8, c: i8)
    ensures
        byte_to_char(b) as int == (if b < 128 {
            b as int
        } else {
            b as int - 256
        }),
        char_to_byte(c) as int == (if c >= 0 {
            c as int
        } else {
            c as int + 256
        }),
{
    assert(b < 128 ==> (b as i8) as int == b as int) by (bit_vector);
    assert(b >= 128 ==> (b as i8) as int == b as int - 256) by (bit_vector);
    assert(c >= 0 ==> (c as u8) as int == c as int) by (bit_vector);
    assert(c < 0 ==> (c as u8) as int == c as int + 256) by (bit_vector);
}

/// Opaque NCCL communicator bootstrap identifier.
#[derive(Clone, Copy)]
pub struct UniqueId(pub abi::ncclUniqueId);

impl UniqueId {
    /// The identifier's bytes, in order.
    pub open spec fn spec_bytes(self) -> Seq<u8> {
        self.0.internal@.map_values(|c: i8| char_to_byte(c))
    }

    /// The identifier whose C chars hold `bytes`.
    pub fn from_bytes(bytes: [u8; 128]) -> (id: Self)
        ensures
            id.0.internal@ == bytes@.map_values(|b: u8| byte_to_char(b)),
            id.spec_bytes() == bytes@,
            forall|i: int|
                0 <= i < 128 ==> (#[trigger] id.0.internal@[i]) as int == (if bytes@[i] < 128 {
                    bytes@[i] as int
                } else {
                    bytes@[i] as int - 256
                }),
    {
        let mut internal = [0i8; 128];
        let mut i: usize = 0;
        while i < 128
            invariant
                0 <= i <= 128,
                internal@.len() == 128,
                forall|j: int| 0 <= j < i ==> internal@[j] == byte_to_char(#[trigger] bytes@[j]),
            decreases 128 - i,
        {
            internal[i] = bytes[i] as i8;
            i = i + 1;
        }
        let id = UniqueId(abi::ncclUniqueId { internal });
        proof {
            assert(id.0.internal@ =~= bytes@.map_values(|b: u8| byte_to_char(b)));
            assert forall|j: int| 0 <= j < 128 implies id.spec_bytes()[j] == bytes@[j] by {
                lemma_byte_char_inverse(bytes@[j], internal@[j]);
            }
            assert(id.spec_bytes() =~= bytes@);
            assert forall|j: int| 0 <= j < 128 implies (#[trigger] id.0.internal@[j]) as int == (
            if bytes@[j] < 128 {
                bytes@[j] as int
            } else {
                bytes@[j] as int - 256
            }) by {
                lemma_byte_char_values(bytes@[j], internal@[j]);
            }
        }
        id
    }

    /// The identifier's bytes.
    pub fn to_bytes(self) -> (bytes: [u8; 128])
        ensures
            bytes@ == self.spec_bytes(),
            forall|i: int|
                0 <= i < 128 ==> (#[trigger] bytes@[i]) as int == (if self.0.internal@[i] >= 0 {
                    self.0.internal@[i] as int
                } else {
                    self.0.internal@[i] as int + 256
                }),
    {
        let mut bytes = [0u8; 128];
        let mut i: usize = 0;
        while i < 128
            invariant
                0 <= i <= 128,
                bytes@.len() == 128,
                forall|j: int| 0 <= j < i ==> bytes@[j] == char_to_byte(#[trigger] self.0.internal@[j]),
            decreases 128 - i,
        {
            bytes[i] = self.0.internal[i] as u8;
            i = i + 1;
        }
        assert(bytes@ =~= self.spec_bytes());
        assert forall|j: int| 0 <= j < 128 implies (#[trigger] bytes@[j]) as int == (
        if self.0.internal@[j] >= 0 {
            self.0.internal@[j] as int
        } else {
            self.0.internal@[j] as int + 256
        }) by {
            lemma_byte_char_values(bytes@[j], self.0.internal@[j]);
        }
        bytes
    }

    /// The identifier NCCL wrote into `raw`.
    pub fn from_raw(raw: abi::ncclUniqueId) -> (id: Self)
        ensures
            id.0 == raw,
    {
        UniqueId(raw)
    }

    /// The C record handed to NCCL.
    pub fn raw(self) -> (raw: abi::ncclUniqueId)
        ensures
            raw == self.0,
    {
        self.0
    }
}

/// Turning bytes into an identifier and back gives the same bytes.
pub proof fn lemma_unique_id_bytes_round_trip(bytes: Seq<u8>)
    requires
        bytes.len() == abi::NCCL_UNIQUE_ID_BYTES,
    ensures
        bytes.map_values(|b: u8| byte_to_char(b)).map_values(|c: i8| char_to_byte(c)) == bytes,
{
    let chars = bytes.map_values(|b: u8| byte_to_char(b));
    assert forall|j: int| 0 <= j < bytes.len() implies chars.map_values(
        |c: i8| char_to_byte(c),
    )[j] == bytes[j] by {
        lemma_byte_char_inverse(bytes[j], chars[j]);
    }
    assert(chars.map_values(|c: i8| char_to_byte(c)) =~= bytes);
}

/// Turning an identifier into bytes and back gives the same identifier.
pub proof fn lemma_unique_id_chars_round_trip(id: UniqueId)
    ensures
        id.spec_bytes().map_values(|b: u8| byte_to_char(b)) == id.0.internal@,
{
    let bytes = id.spec_bytes();
    assert forall|j: int| 0 <= j < id.0.internal@.len() implies bytes.map_values(
        |b: u8| byte_to_char(b),
    )[j] == id.0.internal@[j] by {
        lemma_byte_char_inverse(bytes[j], id.0.internal@[j]);
    }
    assert(bytes.map_values(|b: u8| byte_to_char(b)) =~= id.0.internal@);
}

/// Opaque CUDA stream handle (the stream's address; `0` is CUDA's default
/// stream).
#[derive(Clone, Copy, Debug, PartialEq, Eq, Structural)]
pub struct CudaStream(pub usize);

impl CudaStream {
    /// A stream given by its CUDA runtime handle.
    pub fn from_raw(raw: usize) -> (stream: Self)
        ensures
            stream.0 == raw,
    {
        CudaStream(raw)
    }

    pub fn as_raw(self) -> (raw: usize)
        ensures
            raw == self.0,
    {
        self.0
    }
}

impl Default for CudaStream {
    /// CUDA's default (null) stream.
    fn default() -> (stream: Self)
        ensures
            stream.0 == 0,
    {
        CudaStream(0)
    }
}

/// NCCL element type.
#[derive(Clone, Copy, Debug, PartialEq, Eq, Structural)]
pub enum DataType {
    Int8,
    Uint8,
    Int32,
    Uint32,
    Int64,
    Uint64,
    Float16,
    Float32,
    Float64,
    Bfloat16,
    Float8E4M3,
    Float8E5M2,
}

/// The `ncclDataType_t` code of each element type.
pub open spec fn spec_data_type_code(t: DataType) -> i32 {
    match t {
        DataType::Int8 => abi::ncclInt8,
        DataType::Uint8 => abi::ncclUint8,
        DataType::Int32 => abi::ncclInt32,
        DataType::Uint32 => abi::ncclUint32,
        DataType::Int64 => abi::ncclInt64,
        DataType::Uint64 => abi::ncclUint64,
        DataType::Float16 => abi::ncclFloat16,
        DataType::Float32 => abi::ncclFloat32,
        DataType::Float64 => abi::ncclFloat64,
        DataType::Bfloat16 => abi::ncclBfloat16,
        DataType::Float8E4M3 => abi::ncclFloat8e4m3,
        DataType::Float8E5M2 => abi::ncclFloat8e5m2,
    }
}

impl DataType {
    pub fn as_raw(self) -> (code: i32)
        ensures
            code == spec_data_type_code(self),
    {
        match self {
            DataType::Int8 => abi::ncclInt8,
            DataType::Uint8 => abi::ncclUint8,
            DataType::Int32 => abi::ncclInt32,
            DataType::Uint32 => abi::ncclUint32,
            DataType::Int64 => abi::ncclInt64,
            DataType::Uint64 => abi::ncclUint64,
            DataType::Float16 => abi::ncclFloat16,
            DataType::Float32 => abi::ncclFloat32,
            DataType::Float64 => abi::ncclFloat64,
            DataType::Bfloat16 => abi::ncclBfloat16,
            DataType::Float8E4M3 => abi::ncclFloat8e4m3,
            DataType::Float8E5M2 => abi::ncclFloat8e5m2,
        }
    }
}

/// Distinct element types have distinct NCCL codes, each a valid
/// `ncclDataType_t` below `ncclNumTypes`.
pub proof fn lemma_data_type_codes(a: DataType, b: DataType)
    ensures
        0 <= spec_data_type_code(a) < abi::ncclNumTypes,
        spec_data_type_code(a) == spec_data_type_code(b) ==> a == b,
{
}

/// Marker for the types that may carry `NcclType`.
pub trait Sealed {}

/// Rust scalar types with a native NCCL datatype mapping.
pub trait NcclType: Sealed {
    const DATA_TYPE: DataType;
}

impl Sealed for i8 {}

impl NcclType for i8 {
    const DATA_TYPE: DataType = DataType::Int8;
}

impl Sealed for u8 {}

impl NcclType for u8 {
    const DATA_TYPE: DataType = DataType::Uint8;
}

impl Sealed for i32 {}

impl NcclType for i32 {
    const DATA_TYPE: DataType = DataType::Int32;
}

impl Sealed for u32 {}

impl NcclType for u32 {
    const DATA_TYPE: DataType = DataType::Uint32;
}

impl Sealed for i64 {}

impl NcclType for i64 {
    const DATA_TYPE: DataType = DataType::Int64;
}

impl Sealed for u64 {}

impl NcclType for u64 {
    const DATA_TYPE: DataType = DataType::Uint64;
}

/// Bit-preserving storage type for CUDA half values.
#[derive(Clone, Copy, Default)]
pub struct F16(pub u16);

impl Sealed for F16 {}

impl NcclType for F16 {
    const DATA_TYPE: DataType = DataType::Float16;
}

/// Bit-preserving storage type for CUDA bfloat16 values.
#[derive(Clone, Copy, Default)]
pub struct Bf16(pub u16);

impl Sealed for Bf16 {}

impl NcclType for Bf16 {
    const DATA_TYPE: DataType = DataType::Bfloat16;
}

/// Bit-preserving storage type for CUDA e4m3 fp8 values.
#[derive(Clone, Copy, Default)]
pub struct Fp8E4M3(pub u8);

impl Sealed for Fp8E4M3 {}

impl NcclType for Fp8E4M3 {
    const DATA_TYPE: DataType = DataType::Float8E4M3;
}

/// Bit-preserving storage type for CUDA e5m2 fp8 values.
#[derive(Clone, Copy, Default)]
pub struct Fp8E5M2(pub u8);

impl Sealed for Fp8E5M2 {}

impl NcclType for Fp8E5M2 {
    const DATA_TYPE: DataType = DataType::Float8E5M2;
}

/// The NCCL element type of `T`.
pub fn data_type_of<T: NcclType>() -> (t: DataType)
    ensures
        t == T::DATA_TYPE,
{
    T::DATA_TYPE
}

/// Built-in NCCL reduction operation.
#[derive(Clone, Copy, Debug, PartialEq, Eq, Structural)]
pub enum Reduction {
    Sum,
    Product,
    Max,
    Min,
    Average,
}

/// The `ncclRedOp_t` code of each built-in reduction.
pub open spec fn spec_reduction_code(r: Reduction) -> i32 {
    match r {
        Reduction::Sum => abi::ncclSum,
        Reduction::Product => abi::ncclProd,
        Reduction::Max => abi::ncclMax,
        Reduction::Min => abi::ncclMin,
        Reduction::Average => abi::ncclAvg,
    }
}

impl Reduction {
    pub fn op(self) -> (op: ReductionOp<'static>)
        ensures
            op@ == spec_reduction_code(self),
    {
        let raw = match self {
            Reduction::Sum => abi::ncclSum,
            Reduction::Product => abi::ncclProd,
            Reduction::Max => abi::ncclMax,
            Reduction::Min => abi::ncclMin,
            Reduction::Average => abi::ncclAvg,
        };
        ReductionOp { raw, _lifetime: PhantomData }
    }
}

/// Distinct built-in reductions have distinct codes, each below
/// `ncclNumOps`, the first code NCCL hands out for dynamic operations.
pub proof fn lemma_reduction_codes(a: Reduction, b: Reduction)
    ensures
        0 <= spec_reduction_code(a) < abi::ncclNumOps,
        spec_reduction_code(a) == spec_reduction_code(b) ==> a == b,
{
}

/// Reduction-operation handle whose lifetime prevents use after destruction.
#[derive(Clone, Copy)]
pub struct ReductionOp<'a> {
    raw: i32,
    _lifetime: PhantomData<&'a ()>,
}

impl<'a> View for ReductionOp<'a> {
    type V = i32;

    /// The operation's `ncclRedOp_t` code.
    closed spec fn view(&self) -> i32 {
        self.raw
    }
}

impl<'a> ReductionOp<'a> {
    pub fn as_raw(self) -> (raw: i32)
        ensures
            raw == self@,
    {
        self.raw
    }

    /// The handle of an operation NCCL created (`raw`), valid for `'a`.
    pub(crate) fn from_raw(raw: i32) -> (op: Self)
        ensures
            op@ == raw,
    {
        ReductionOp { raw, _lifetime: PhantomData }
    }
}

/// NCCL communicator memory-statistic selector.
#[derive(Clone, Copy, Debug, PartialEq, Eq, Structural)]
pub enum MemoryStat {
    SuspendableBytes,
    Suspended,
    PersistentBytes,
    TotalBytes,
}

/// The `ncclCommMemStat_t` code of each statistic.
pub open spec fn spec_memory_stat_code(s: MemoryStat) -> i32 {
    match s {
        MemoryStat::SuspendableBytes => abi::ncclStatGpuMemSuspend,
        MemoryStat::Suspended => abi::ncclStatGpuMemSuspended,
        MemoryStat::PersistentBytes => abi::ncclStatGpuMemPersist,
        MemoryStat::TotalBytes => abi::ncclStatGpuMemTotal,
    }
}

impl MemoryStat {
    pub fn as_raw(self) -> (code: i32)
        ensures
            code == spec_memory_stat_code(self),
    {
        match self {
            MemoryStat::SuspendableBytes => abi::ncclStatGpuMemSuspend,
            MemoryStat::Suspended => abi::ncclStatGpuMemSuspended,
            MemoryStat::PersistentBytes => abi::ncclStatGpuMemPersist,
            MemoryStat::TotalBytes => abi::ncclStatGpuMemTotal,
        }
    }
}

/// Description of one NCCL signal wait condition.
#[derive(Clone, Copy, Debug, PartialEq, Eq, Structural)]
pub struct WaitSignal {
    pub operation_count: i32,
    pub peer: i32,
    pub signal_index: i32,
    pub context: i32,
}

/// The C descriptor of a wait condition: the same four numbers.
pub open spec fn spec_wait_desc(w: WaitSignal) -> abi::ncclWaitSignalDesc_t {
    abi::ncclWaitSignalDesc_t {
        opCnt: w.operation_count,
        peer: w.peer,
        sigIdx: w.signal_index,
        ctx: w.context,
    }
}

impl WaitSignal {
    pub fn as_raw(self) -> (desc: abi::ncclWaitSignalDesc_t)
        ensures
            desc == spec_wait_desc(self),
    {
        abi::ncclWaitSignalDesc_t {
            opCnt: self.operation_count,
            peer: self.peer,
            sigIdx: self.signal_index,
            ctx: self.context,
        }
    }
}

} // verus!
