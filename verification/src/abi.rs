//! The NCCL 2.31.x C ABI as plain values: version numbers, result and enum
//! codes, flag constants, and the records that the library hands to NCCL.
//!
//! Pointer-valued ABI fields (strings, extension lists) are carried as
//! addresses (`usize`, where `0` is the null pointer); the code that performs
//! the C calls turns them back into pointers.
#![allow(non_camel_case_types, non_snake_case, non_upper_case_globals)]

use vstd::prelude::*;

verus! {

pub const NCCL_MAJOR: i32 = 2;

pub const NCCL_MINOR: i32 = 31;

pub const NCCL_PATCH: i32 = 2;

pub const NCCL_VERSION_CODE: i32 = 23102;

pub const NCCL_SUFFIX: &'static str = "";

pub const NCCL_UNIQUE_ID_BYTES: usize = 128;

pub const NCCL_API_MAGIC: u32 = 0xcafebeef;

/// Magic number of `ncclSimInfo_t` records.
pub const NCCL_SIM_INFO_MAGIC: u32 = 0x74685283;

pub const NCCL_CONFIG_UNDEF_INT: i32 = i32::MIN;

pub const NCCL_SPLIT_NOCOLOR: i32 = -1;

pub const NCCL_WIN_DEFAULT: i32 = 0x00;

pub const NCCL_WIN_COLL_SYMMETRIC: i32 = 0x01;

pub const NCCL_WIN_STRICT_ORDERING: i32 = 0x02;

pub const NCCL_WIN_REQUIRED_ALIGNMENT: usize = 4096;

pub const NCCL_CTA_POLICY_DEFAULT: i32 = 0x00;

pub const NCCL_CTA_POLICY_EFFICIENCY: i32 = 0x01;

pub const NCCL_CTA_POLICY_ZERO: i32 = 0x02;

pub const NCCL_SHRINK_DEFAULT: i32 = 0x00;

pub const NCCL_SHRINK_ABORT: i32 = 0x01;

pub const NCCL_REVOKE_DEFAULT: i32 = 0x00;

pub const NCCL_SUSPEND_MEM: i32 = 0x01;

pub type ncclResult_t = i32;

pub const ncclSuccess: ncclResult_t = 0;

pub const ncclUnhandledCudaError: ncclResult_t = 1;

pub const ncclSystemError: ncclResult_t = 2;

pub const ncclInternalError: ncclResult_t = 3;

pub const ncclInvalidArgument: ncclResult_t = 4;

pub const ncclInvalidUsage: ncclResult_t = 5;

pub const ncclRemoteError: ncclResult_t = 6;

pub const ncclInProgress: ncclResult_t = 7;

pub const ncclTimeout: ncclResult_t = 8;

pub const ncclNumResults: ncclResult_t = 9;

pub type ncclHostCftMode_t = i32;

pub const ncclHostCftDefault: ncclHostCftMode_t = NCCL_CONFIG_UNDEF_INT;

pub const ncclHostCftEnable: ncclHostCftMode_t = 1;

pub const ncclHostCftDisable: ncclHostCftMode_t = 2;

pub const ncclHostCftFallback: ncclHostCftMode_t = 3;

pub type ncclCommMemStat_t = i32;

pub const ncclStatGpuMemSuspend: ncclCommMemStat_t = 0;

pub const ncclStatGpuMemSuspended: ncclCommMemStat_t = 1;

pub const ncclStatGpuMemPersist: ncclCommMemStat_t = 2;

pub const ncclStatGpuMemTotal: ncclCommMemStat_t = 3;

pub type ncclRedOp_t = i32;

pub const ncclSum: ncclRedOp_t = 0;

pub const ncclProd: ncclRedOp_t = 1;

pub const ncclMax: ncclRedOp_t = 2;

pub const ncclMin: ncclRedOp_t = 3;

pub const ncclAvg: ncclRedOp_t = 4;

pub const ncclNumOps: ncclRedOp_t = 5;

pub const ncclMaxRedOp: ncclRedOp_t = 0x7fffffff;

pub type ncclDataType_t = i32;

pub const ncclInt8: ncclDataType_t = 0;

pub const ncclChar: ncclDataType_t = 0;

pub const ncclUint8: ncclDataType_t = 1;

pub const ncclInt32: ncclDataType_t = 2;

pub const ncclInt: ncclDataType_t = 2;

pub const ncclUint32: ncclDataType_t = 3;

pub const ncclInt64: ncclDataType_t = 4;

pub const ncclUint64: ncclDataType_t = 5;

pub const ncclFloat16: ncclDataType_t = 6;

pub const ncclHalf: ncclDataType_t = 6;

pub const ncclFloat32: ncclDataType_t = 7;

pub const ncclFloat: ncclDataType_t = 7;

pub const ncclFloat64: ncclDataType_t = 8;

pub const ncclDouble: ncclDataType_t = 8;

pub const ncclBfloat16: ncclDataType_t = 9;

pub const ncclFloat8e4m3: ncclDataType_t = 10;

pub const ncclFloat8e5m2: ncclDataType_t = 11;

pub const ncclNumTypes: ncclDataType_t = 12;

pub type ncclScalarResidence_t = i32;

pub const ncclScalarDevice: ncclScalarResidence_t = 0;

pub const ncclScalarHostImmediate: ncclScalarResidence_t = 1;

/// The version code NCCL computes from a major, minor and patch number:
/// releases up to 2.8 use two decimal digits for the minor number and
/// later ones use three.
pub open spec fn spec_version_code(major: int, minor: int, patch: int) -> int {
    if major <= 2 && minor <= 8 {
        major * 1000 + minor * 100 + patch
    } else {
        major * 10000 + minor * 100 + patch
    }
}

/// Every intermediate value of the version formula fits in an `i32`.
pub open spec fn version_code_fits(major: int, minor: int, patch: int) -> bool {
    let scale = if major <= 2 && minor <= 8 { 1000int } else { 10000int };
    &&& i32::MIN <= major * scale <= i32::MAX
    &&& i32::MIN <= minor * 100 <= i32::MAX
    &&& i32::MIN <= major * scale + minor * 100 <= i32::MAX
    &&& i32::MIN <= major * scale + minor * 100 + patch <= i32::MAX
}

/// `NCCL_VERSION(major, minor, patch)` from `nccl.h`.
pub fn NCCL_VERSION(major: i32, minor: i32, patch: i32) -> (code: i32)
    requires
        version_code_fits(major as int, minor as int, patch as int),
    ensures
        code == spec_version_code(major as int, minor as int, patch as int),
{
    if major <= 2 && minor <= 8 {
        major * 1000 + minor * 100 + patch
    } else {
        major * 10000 + minor * 100 + patch
    }
}

/// The version code this ABI describes is the one its version numbers give.
pub proof fn lemma_version_code_matches()
    ensures
        version_code_fits(NCCL_MAJOR as int, NCCL_MINOR as int, NCCL_PATCH as int),
        spec_version_code(NCCL_MAJOR as int, NCCL_MINOR as int, NCCL_PATCH as int)
            == NCCL_VERSION_CODE,
{
}

/// Opaque NCCL communicator object; only handles to it are ever held.
pub struct ncclComm {
    _private: [u8; 0],
}

/// Opaque NCCL memory-window object; only handles to it are ever held.
pub struct ncclWindow_vidmem {
    _private: [u8; 0],
}

/// Opaque NCCL parameter object; only handles to it are ever held.
pub struct ncclParamHandle {
    _private: [u8; 0],
}

/// The communicator bootstrap identifier: `NCCL_UNIQUE_ID_BYTES` C chars.
#[derive(Clone, Copy)]
pub struct ncclUniqueId {
    pub internal: [i8; 128],
}

/// Communicator configuration record (`ncclConfig_t`).
///
/// `netName` and `commName` are the addresses of NUL-terminated strings, `0`
/// when absent.
#[derive(Clone, Copy, PartialEq, Eq, Structural)]
pub struct ncclConfig_t {
    pub size: usize,
    pub magic: u32,
    pub version: u32,
    pub blocking: i32,
    pub cgaClusterSize: i32,
    pub minCTAs: i32,
    pub maxCTAs: i32,
    pub netName: usize,
    pub splitShare: i32,
    pub trafficClass: i32,
    pub commName: usize,
    pub collnetEnable: i32,
    pub CTAPolicy: i32,
    pub shrinkShare: i32,
    pub nvlsCTAs: i32,
    pub nChannelsPerNetPeer: i32,
    pub nvlinkCentricSched: i32,
    pub graphUsageMode: i32,
    pub numRmaCtx: i32,
    pub maxP2pPeers: i32,
    pub graphStreamOrdering: i32,
    pub launchOrderImplicit: i32,
    pub numRmaSig: i32,
    pub rmaEagerInit: i32,
    pub hostCftMode: i32,
}

pub type ncclConfig_v23100 = ncclConfig_t;

/// `NCCL_CONFIG_INITIALIZER`: the record's own size, the API magic and
/// version, null strings, and every tunable left undefined.
pub open spec fn spec_config_initializer() -> ncclConfig_t {
    ncclConfig_t {
        size: vstd::layout::size_of::<ncclConfig_t>() as usize,
        magic: NCCL_API_MAGIC,
        version: NCCL_VERSION_CODE as u32,
        blocking: NCCL_CONFIG_UNDEF_INT,
        cgaClusterSize: NCCL_CONFIG_UNDEF_INT,
        minCTAs: NCCL_CONFIG_UNDEF_INT,
        maxCTAs: NCCL_CONFIG_UNDEF_INT,
        netName: 0,
        splitShare: NCCL_CONFIG_UNDEF_INT,
        trafficClass: NCCL_CONFIG_UNDEF_INT,
        commName: 0,
        collnetEnable: NCCL_CONFIG_UNDEF_INT,
        CTAPolicy: NCCL_CONFIG_UNDEF_INT,
        shrinkShare: NCCL_CONFIG_UNDEF_INT,
        nvlsCTAs: NCCL_CONFIG_UNDEF_INT,
        nChannelsPerNetPeer: NCCL_CONFIG_UNDEF_INT,
        nvlinkCentricSched: NCCL_CONFIG_UNDEF_INT,
        graphUsageMode: NCCL_CONFIG_UNDEF_INT,
        numRmaCtx: NCCL_CONFIG_UNDEF_INT,
        maxP2pPeers: NCCL_CONFIG_UNDEF_INT,
        graphStreamOrdering: NCCL_CONFIG_UNDEF_INT,
        launchOrderImplicit: NCCL_CONFIG_UNDEF_INT,
        numRmaSig: NCCL_CONFIG_UNDEF_INT,
        rmaEagerInit: NCCL_CONFIG_UNDEF_INT,
        hostCftMode: NCCL_CONFIG_UNDEF_INT,
    }
}

/// `NCCL_CONFIG_INITIALIZER` leaves every tunable undefined (`i32::MIN`),
/// both strings null, and records its own size, the API magic and this
/// version.
pub proof fn lemma_config_initializer_fields()
    ensures
        NCCL_CONFIG_UNDEF_INT == i32::MIN,
        spec_config_initializer().size == vstd::layout::size_of::<ncclConfig_t>() as usize,
        spec_config_initializer().blocking == i32::MIN,
        spec_config_initializer().cgaClusterSize == i32::MIN,
        spec_config_initializer().minCTAs == i32::MIN,
        spec_config_initializer().maxCTAs == i32::MIN,
        spec_config_initializer().splitShare == i32::MIN,
        spec_config_initializer().trafficClass == i32::MIN,
        spec_config_initializer().collnetEnable == i32::MIN,
        spec_config_initializer().CTAPolicy == i32::MIN,
        spec_config_initializer().shrinkShare == i32::MIN,
        spec_config_initializer().nvlsCTAs == i32::MIN,
        spec_config_initializer().nChannelsPerNetPeer == i32::MIN,
        spec_config_initializer().nvlinkCentricSched == i32::MIN,
        spec_config_initializer().graphUsageMode == i32::MIN,
        spec_config_initializer().numRmaCtx == i32::MIN,
        spec_config_initializer().maxP2pPeers == i32::MIN,
        spec_config_initializer().graphStreamOrdering == i32::MIN,
        spec_config_initializer().launchOrderImplicit == i32::MIN,
        spec_config_initializer().numRmaSig == i32::MIN,
        spec_config_initializer().rmaEagerInit == i32::MIN,
        spec_config_initializer().hostCftMode == i32::MIN,
        spec_config_initializer().magic == 0xcafebeefu32,
        spec_config_initializer().version == 23102u32,
        spec_config_initializer().netName == 0,
        spec_config_initializer().commName == 0,
{
}

impl ncclConfig_t {
    pub fn initialized() -> (config: Self)
        ensures
            config == spec_config_initializer(),
            config.size == vstd::layout::size_of::<ncclConfig_t>(),
            config.blocking == i32::MIN,
            config.cgaClusterSize == i32::MIN,
            config.minCTAs == i32::MIN,
            config.maxCTAs == i32::MIN,
            config.splitShare == i32::MIN,
            config.trafficClass == i32::MIN,
            config.collnetEnable == i32::MIN,
            config.CTAPolicy == i32::MIN,
            config.shrinkShare == i32::MIN,
            config.nvlsCTAs == i32::MIN,
            config.nChannelsPerNetPeer == i32::MIN,
            config.nvlinkCentricSched == i32::MIN,
            config.graphUsageMode == i32::MIN,
            config.numRmaCtx == i32::MIN,
            config.maxP2pPeers == i32::MIN,
            config.graphStreamOrdering == i32::MIN,
            config.launchOrderImplicit == i32::MIN,
            config.numRmaSig == i32::MIN,
            config.rmaEagerInit == i32::MIN,
            config.hostCftMode == i32::MIN,
            config.magic == 0xcafebeefu32,
            config.version == 23102u32,
            config.netName == 0,
            config.commName == 0,
    {
        Self {
            size: core::mem::size_of::<Self>(),
            magic: NCCL_API_MAGIC,
            version: NCCL_VERSION_CODE as u32,
            blocking: NCCL_CONFIG_UNDEF_INT,
            cgaClusterSize: NCCL_CONFIG_UNDEF_INT,
            minCTAs: NCCL_CONFIG_UNDEF_INT,
            maxCTAs: NCCL_CONFIG_UNDEF_INT,
            netName: 0,
            splitShare: NCCL_CONFIG_UNDEF_INT,
            trafficClass: NCCL_CONFIG_UNDEF_INT,
            commName: 0,
            collnetEnable: NCCL_CONFIG_UNDEF_INT,
            CTAPolicy: NCCL_CONFIG_UNDEF_INT,
            shrinkShare: NCCL_CONFIG_UNDEF_INT,
            nvlsCTAs: NCCL_CONFIG_UNDEF_INT,
            nChannelsPerNetPeer: NCCL_CONFIG_UNDEF_INT,
            nvlinkCentricSched: NCCL_CONFIG_UNDEF_INT,
            graphUsageMode: NCCL_CONFIG_UNDEF_INT,
            numRmaCtx: NCCL_CONFIG_UNDEF_INT,
            maxP2pPeers: NCCL_CONFIG_UNDEF_INT,
            graphStreamOrdering: NCCL_CONFIG_UNDEF_INT,
            launchOrderImplicit: NCCL_CONFIG_UNDEF_INT,
            numRmaSig: NCCL_CONFIG_UNDEF_INT,
            rmaEagerInit: NCCL_CONFIG_UNDEF_INT,
            hostCftMode: NCCL_CONFIG_UNDEF_INT,
        }
    }
}

/// Key of a vendor configuration extension.
#[derive(Clone, Copy, PartialEq, Eq, Structural)]
pub struct ncclConfigExtKey_t {
    pub vendorId: i32,
    pub optionId: i32,
}

/// Per-collective configuration record (`ncclCollConfig_t`).
///
/// `ext` is the address of the first extension node and `algSelection` the
/// address of a NUL-terminated string, `0` when absent.
#[derive(Clone, Copy, PartialEq, Eq, Structural)]
pub struct ncclCollConfig_t {
    pub size: usize,
    pub magic: u32,
    pub version: u32,
    pub ext: usize,
    pub minCTAs: i32,
    pub maxCTAs: i32,
    pub nvlsCTAs: i32,
    pub cgaClusterSize: i32,
    pub algSelection: usize,
    pub forceAlgSelection: i32,
    pub CTAPolicy: i32,
    pub userProfilerTag: u64,
}

pub type ncclCollConfig_v23100 = ncclCollConfig_t;

/// `NCCL_COLL_CONFIG_INITIALIZER`: forced algorithm selection, no extension,
/// no algorithm string, profiler tag zero and every tunable undefined.
pub open spec fn spec_coll_config_initializer() -> ncclCollConfig_t {
    ncclCollConfig_t {
        size: vstd::layout::size_of::<ncclCollConfig_t>() as usize,
        magic: NCCL_API_MAGIC,
        version: NCCL_VERSION_CODE as u32,
        ext: 0,
        minCTAs: NCCL_CONFIG_UNDEF_INT,
        maxCTAs: NCCL_CONFIG_UNDEF_INT,
        nvlsCTAs: NCCL_CONFIG_UNDEF_INT,
        cgaClusterSize: NCCL_CONFIG_UNDEF_INT,
        algSelection: 0,
        forceAlgSelection: 1,
        CTAPolicy: NCCL_CONFIG_UNDEF_INT,
        userProfilerTag: 0,
    }
}

/// `NCCL_COLL_CONFIG_INITIALIZER` leaves every CTA tunable undefined
/// (`i32::MIN`), forces algorithm selection, has no extension, no algorithm
/// string and profiler tag zero, and records its own size, the API magic and
/// this version.
pub proof fn lemma_coll_config_initializer_fields()
    ensures
        spec_coll_config_initializer().size == vstd::layout::size_of::<ncclCollConfig_t>() as usize,
        spec_coll_config_initializer().minCTAs == i32::MIN,
        spec_coll_config_initializer().maxCTAs == i32::MIN,
        spec_coll_config_initializer().nvlsCTAs == i32::MIN,
        spec_coll_config_initializer().cgaClusterSize == i32::MIN,
        spec_coll_config_initializer().CTAPolicy == i32::MIN,
        spec_coll_config_initializer().magic == 0xcafebeefu32,
        spec_coll_config_initializer().version == 23102u32,
        spec_coll_config_initializer().ext == 0,
        spec_coll_config_initializer().algSelection == 0,
        spec_coll_config_initializer().forceAlgSelection == 1,
        spec_coll_config_initializer().userProfilerTag == 0,
{
}

impl ncclCollConfig_t {
    pub fn initialized() -> (config: Self)
        ensures
            config == spec_coll_config_initializer(),
            config.size == vstd::layout::size_of::<ncclCollConfig_t>(),
            config.minCTAs == i32::MIN,
            config.maxCTAs == i32::MIN,
            config.nvlsCTAs == i32::MIN,
            config.cgaClusterSize == i32::MIN,
            config.CTAPolicy == i32::MIN,
            config.magic == 0xcafebeefu32,
            config.version == 23102u32,
            config.ext == 0,
            config.algSelection == 0,
            config.forceAlgSelection == 1,
            config.userProfilerTag == 0,
    {
        Self {
            size: core::mem::size_of::<Self>(),
            magic: NCCL_API_MAGIC,
            version: NCCL_VERSION_CODE as u32,
            ext: 0,
            minCTAs: NCCL_CONFIG_UNDEF_INT,
            maxCTAs: NCCL_CONFIG_UNDEF_INT,
            nvlsCTAs: NCCL_CONFIG_UNDEF_INT,
            cgaClusterSize: NCCL_CONFIG_UNDEF_INT,
            algSelection: 0,
            forceAlgSelection: 1,
            CTAPolicy: NCCL_CONFIG_UNDEF_INT,
            userProfilerTag: 0,
        }
    }
}

/// One signal-wait condition as NCCL reads it.
#[derive(Clone, Copy, Debug, PartialEq, Eq, Structural)]
pub struct ncclWaitSignalDesc_t {
    pub opCnt: i32,
    pub peer: i32,
    pub sigIdx: i32,
    pub ctx: i32,
}

} // verus!
