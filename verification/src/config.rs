//! Owned communicator and per-collective configurations.
//!
//! A configuration holds the C record NCCL reads plus the NUL-free bytes of
//! every string the record refers to. The record's string fields stay null
//! here; they are pointed at those bytes when the record is handed to NCCL.
use vstd::prelude::*;
use vstd::string::StringSliceAdditionalSpecFns;

use crate::abi;
use crate::result::{Error, NulError};

verus! {

/// `bytes` holds no NUL byte.
pub open spec fn nul_free(bytes: Seq<u8>) -> bool {
    forall|i: int| 0 <= i < bytes.len() ==> bytes[i] != 0
}

/// `position` is the index of the first NUL byte of `bytes`.
pub open spec fn first_nul(bytes: Seq<u8>, position: int) -> bool {
    &&& 0 <= position < bytes.len()
    &&& bytes[position] == 0
    &&& nul_free(bytes.take(position))
}

/// The bytes of a C string for `value`, which must not contain a NUL byte
/// (`CString::new`). On failure the error gives the first NUL's position and
/// all the bytes.
pub fn c_string_bytes(value: &str) -> (r: Result<Vec<u8>, NulError>)
    ensures
        match r {
            Ok(bytes) => bytes@ == value.spec_bytes() && nul_free(bytes@),
            Err(e) => e.bytes@ == value.spec_bytes() && first_nul(
                value.spec_bytes(),
                e.position as int,
            ),
        },
{
    let bytes = value.as_bytes();
    let mut i: usize = 0;
    while i < bytes.len()
        invariant
            0 <= i <= bytes@.len(),
            bytes@ == value.spec_bytes(),
            nul_free(bytes@.take(i as int)),
        decreases bytes@.len() - i,
    {
        if bytes[i] == 0 {
            return Err(NulError { position: i, bytes: vstd::slice::slice_to_vec(bytes) });
        }
        assert(bytes@.take(i as int + 1) =~= bytes@.take(i as int).push(bytes@[i as int]));
        i = i + 1;
    }
    assert(bytes@.take(i as int) =~= bytes@);
    Ok(vstd::slice::slice_to_vec(bytes))
}

/// The C encoding of a flag: `1` for true, `0` for false.
pub open spec fn flag(value: bool) -> i32 {
    if value {
        1
    } else {
        0
    }
}

fn flag_code(value: bool) -> (code: i32)
    ensures
        code == flag(value),
{
    if value {
        1
    } else {
        0
    }
}

/// Owned communicator configuration.
pub struct Config {
    raw: abi::ncclConfig_t,
    net_name: Option<Vec<u8>>,
    comm_name: Option<Vec<u8>>,
}

/// The bytes of an optional owned string.
pub open spec fn option_bytes(name: Option<Vec<u8>>) -> Option<Seq<u8>> {
    match name {
        Some(v) => Some(v@),
        None => None,
    }
}

impl Config {
    /// The C record, with its string fields null.
    pub closed spec fn spec_raw(self) -> abi::ncclConfig_t {
        self.raw
    }

    /// The network name's bytes, if one was set.
    pub closed spec fn spec_net_name(self) -> Option<Seq<u8>> {
        option_bytes(self.net_name)
    }

    /// The communicator name's bytes, if one was set.
    pub closed spec fn spec_comm_name(self) -> Option<Seq<u8>> {
        option_bytes(self.comm_name)
    }

    /// Every string is NUL-free and the record's own string fields are null.
    #[verifier::type_invariant]
    closed spec fn wf(self) -> bool {
        &&& self.raw.netName == 0
        &&& self.raw.commName == 0
        &&& match self.net_name {
            Some(v) => nul_free(v@),
            None => true,
        }
        &&& match self.comm_name {
            Some(v) => nul_free(v@),
            None => true,
        }
    }

    /// `other` differs from `self` at most in the C record.
    pub open spec fn same_names(self, other: Config) -> bool {
        &&& other.spec_net_name() == self.spec_net_name()
        &&& other.spec_comm_name() == self.spec_comm_name()
    }

    pub fn raw(&self) -> (raw: &abi::ncclConfig_t)
        ensures
            *raw == self.spec_raw(),
    {
        &self.raw
    }

    pub fn net_name_bytes(&self) -> (name: Option<&Vec<u8>>)
        ensures
            match name {
                Some(v) => self.spec_net_name() == Some(v@),
                None => self.spec_net_name() is None,
            },
    {
        match &self.net_name {
            Some(v) => Some(v),
            None => None,
        }
    }

    pub fn comm_name_bytes(&self) -> (name: Option<&Vec<u8>>)
        ensures
            match name {
                Some(v) => self.spec_comm_name() == Some(v@),
                None => self.spec_comm_name() is None,
            },
    {
        match &self.comm_name {
            Some(v) => Some(v),
            None => None,
        }
    }

    pub fn blocking(self, value: bool) -> (c: Self)
        ensures
            self.same_names(c),
            c.spec_raw() == (abi::ncclConfig_t { blocking: flag(value), ..self.spec_raw() }),
    {
        proof {
            use_type_invariant(&self);
        }
        let mut c = self;
        c.raw.blocking = flag_code(value);
        c
    }

    pub fn cga_cluster_size(self, value: i32) -> (c: Self)
        ensures
            self.same_names(c),
            c.spec_raw() == (abi::ncclConfig_t { cgaClusterSize: value, ..self.spec_raw() }),
    {
        proof {
            use_type_invariant(&self);
        }
        let mut c = self;
        c.raw.cgaClusterSize = value;
        c
    }

    pub fn min_ctas(self, value: i32) -> (c: Self)
        ensures
            self.same_names(c),
            c.spec_raw() == (abi::ncclConfig_t { minCTAs: value, ..self.spec_raw() }),
    {
        proof {
            use_type_invariant(&self);
        }
        let mut c = self;
        c.raw.minCTAs = value;
        c
    }

    pub fn max_ctas(self, value: i32) -> (c: Self)
        ensures
            self.same_names(c),
            c.spec_raw() == (abi::ncclConfig_t { maxCTAs: value, ..self.spec_raw() }),
    {
        proof {
            use_type_invariant(&self);
        }
        let mut c = self;
        c.raw.maxCTAs = value;
        c
    }

    pub fn split_share(self, value: bool) -> (c: Self)
        ensures
            self.same_names(c),
            c.spec_raw() == (abi::ncclConfig_t { splitShare: flag(value), ..self.spec_raw() }),
    {
        proof {
            use_type_invariant(&self);
        }
        let mut c = self;
        c.raw.splitShare = flag_code(value);
        c
    }

    pub fn traffic_class(self, value: i32) -> (c: Self)
        ensures
            self.same_names(c),
            c.spec_raw() == (abi::ncclConfig_t { trafficClass: value, ..self.spec_raw() }),
    {
        proof {
            use_type_invariant(&self);
        }
        let mut c = self;
        c.raw.trafficClass = value;
        c
    }

    pub fn collnet_enable(self, value: bool) -> (c: Self)
        ensures
            self.same_names(c),
            c.spec_raw() == (abi::ncclConfig_t { collnetEnable: flag(value), ..self.spec_raw() }),
    {
        proof {
            use_type_invariant(&self);
        }
        let mut c = self;
        c.raw.collnetEnable = flag_code(value);
        c
    }

    pub fn cta_policy(self, value: i32) -> (c: Self)
        ensures
            self.same_names(c),
            c.spec_raw() == (abi::ncclConfig_t { CTAPolicy: value, ..self.spec_raw() }),
    {
        proof {
            use_type_invariant(&self);
        }
        let mut c = self;
        c.raw.CTAPolicy = value;
        c
    }

    pub fn shrink_share(self, value: bool) -> (c: Self)
        ensures
            self.same_names(c),
            c.spec_raw() == (abi::ncclConfig_t { shrinkShare: flag(value), ..self.spec_raw() }),
    {
        proof {
            use_type_invariant(&self);
        }
        let mut c = self;
        c.raw.shrinkShare = flag_code(value);
        c
    }

    pub fn nvls_ctas(self, value: i32) -> (c: Self)
        ensures
            self.same_names(c),
            c.spec_raw() == (abi::ncclConfig_t { nvlsCTAs: value, ..self.spec_raw() }),
    {
        proof {
            use_type_invariant(&self);
        }
        let mut c = self;
        c.raw.nvlsCTAs = value;
        c
    }

    pub fn channels_per_net_peer(self, value: i32) -> (c: Self)
        ensures
            self.same_names(c),
            c.spec_raw() == (abi::ncclConfig_t { nChannelsPerNetPeer: value, ..self.spec_raw() }),
    {
        proof {
            use_type_invariant(&self);
        }
        let mut c = self;
        c.raw.nChannelsPerNetPeer = value;
        c
    }

    pub fn nvlink_centric_sched(self, value: bool) -> (c: Self)
        ensures
            self.same_names(c),
            c.spec_raw() == (abi::ncclConfig_t { nvlinkCentricSched: flag(value), ..self.spec_raw() }),
    {
        proof {
            use_type_invariant(&self);
        }
        let mut c = self;
        c.raw.nvlinkCentricSched = flag_code(value);
        c
    }

    pub fn graph_usage_mode(self, value: i32) -> (c: Self)
        ensures
            self.same_names(c),
            c.spec_raw() == (abi::ncclConfig_t { graphUsageMode: value, ..self.spec_raw() }),
    {
        proof {
            use_type_invariant(&self);
        }
        let mut c = self;
        c.raw.graphUsageMode = value;
        c
    }

    pub fn num_rma_contexts(self, value: i32) -> (c: Self)
        ensures
            self.same_names(c),
            c.spec_raw() == (abi::ncclConfig_t { numRmaCtx: value, ..self.spec_raw() }),
    {
        proof {
            use_type_invariant(&self);
        }
        let mut c = self;
        c.raw.numRmaCtx = value;
        c
    }

    pub fn max_p2p_peers(self, value: i32) -> (c: Self)
        ensures
            self.same_names(c),
            c.spec_raw() == (abi::ncclConfig_t { maxP2pPeers: value, ..self.spec_raw() }),
    {
        proof {
            use_type_invariant(&self);
        }
        let mut c = self;
        c.raw.maxP2pPeers = value;
        c
    }

    pub fn graph_stream_ordering(self, value: bool) -> (c: Self)
        ensures
            self.same_names(c),
            c.spec_raw() == (abi::ncclConfig_t { graphStreamOrdering: flag(value), ..self.spec_raw() }),
    {
        proof {
            use_type_invariant(&self);
        }
        let mut c = self;
        c.raw.graphStreamOrdering = flag_code(value);
        c
    }

    pub fn launch_order_implicit(self, value: bool) -> (c: Self)
        ensures
            self.same_names(c),
            c.spec_raw() == (abi::ncclConfig_t { launchOrderImplicit: flag(value), ..self.spec_raw() }),
    {
        proof {
            use_type_invariant(&self);
        }
        let mut c = self;
        c.raw.launchOrderImplicit = flag_code(value);
        c
    }

    pub fn num_rma_signals(self, value: i32) -> (c: Self)
        ensures
            self.same_names(c),
            c.spec_raw() == (abi::ncclConfig_t { numRmaSig: value, ..self.spec_raw() }),
    {
        proof {
            use_type_invariant(&self);
        }
        let mut c = self;
        c.raw.numRmaSig = value;
        c
    }

    pub fn rma_eager_init(self, value: bool) -> (c: Self)
        ensures
            self.same_names(c),
            c.spec_raw() == (abi::ncclConfig_t { rmaEagerInit: flag(value), ..self.spec_raw() }),
    {
        proof {
            use_type_invariant(&self);
        }
        let mut c = self;
        c.raw.rmaEagerInit = flag_code(value);
        c
    }

    pub fn host_cft_mode(self, value: i32) -> (c: Self)
        ensures
            self.same_names(c),
            c.spec_raw() == (abi::ncclConfig_t { hostCftMode: value, ..self.spec_raw() }),
    {
        proof {
            use_type_invariant(&self);
        }
        let mut c = self;
        c.raw.hostCftMode = value;
        c
    }

    /// Set the network name; fails when `value` contains a NUL byte.
    pub fn net_name(self, value: &str) -> (r: Result<Self, Error>)
        ensures
            match r {
                Ok(c) => {
                    &&& nul_free(value.spec_bytes())
                    &&& c.spec_raw() == self.spec_raw()
                    &&& c.spec_net_name() == Some(value.spec_bytes())
                    &&& c.spec_comm_name() == self.spec_comm_name()
                },
                Err(Error::InteriorNul(e)) => {
                    &&& e.bytes@ == value.spec_bytes()
                    &&& first_nul(value.spec_bytes(), e.position as int)
                },
                Err(_) => false,
            },
    {
        proof {
            use_type_invariant(&self);
        }
        match c_string_bytes(value) {
            Ok(bytes) => {
                let mut c = self;
                c.net_name = Some(bytes);
                Ok(c)
            },
            Err(e) => Err(Error::InteriorNul(e)),
        }
    }

    /// Set the communicator name; fails when `value` contains a NUL byte.
    pub fn comm_name(self, value: &str) -> (r: Result<Self, Error>)
        ensures
            match r {
                Ok(c) => {
                    &&& nul_free(value.spec_bytes())
                    &&& c.spec_raw() == self.spec_raw()
                    &&& c.spec_comm_name() == Some(value.spec_bytes())
                    &&& c.spec_net_name() == self.spec_net_name()
                },
                Err(Error::InteriorNul(e)) => {
                    &&& e.bytes@ == value.spec_bytes()
                    &&& first_nul(value.spec_bytes(), e.position as int)
                },
                Err(_) => false,
            },
    {
        proof {
            use_type_invariant(&self);
        }
        match c_string_bytes(value) {
            Ok(bytes) => {
                let mut c = self;
                c.comm_name = Some(bytes);
                Ok(c)
            },
            Err(e) => Err(Error::InteriorNul(e)),
        }
    }
}

impl Default for Config {
    /// `NCCL_CONFIG_INITIALIZER` with no strings.
    fn default() -> (c: Self)
        ensures
            c.spec_raw() == abi::spec_config_initializer(),
            c.spec_raw().blocking == i32::MIN,
            c.spec_raw().cgaClusterSize == i32::MIN,
            c.spec_raw().minCTAs == i32::MIN,
            c.spec_raw().maxCTAs == i32::MIN,
            c.spec_raw().splitShare == i32::MIN,
            c.spec_raw().trafficClass == i32::MIN,
            c.spec_raw().collnetEnable == i32::MIN,
            c.spec_raw().CTAPolicy == i32::MIN,
            c.spec_raw().shrinkShare == i32::MIN,
            c.spec_raw().nvlsCTAs == i32::MIN,
            c.spec_raw().nChannelsPerNetPeer == i32::MIN,
            c.spec_raw().nvlinkCentricSched == i32::MIN,
            c.spec_raw().graphUsageMode == i32::MIN,
            c.spec_raw().numRmaCtx == i32::MIN,
            c.spec_raw().maxP2pPeers == i32::MIN,
            c.spec_raw().graphStreamOrdering == i32::MIN,
            c.spec_raw().launchOrderImplicit == i32::MIN,
            c.spec_raw().numRmaSig == i32::MIN,
            c.spec_raw().rmaEagerInit == i32::MIN,
            c.spec_raw().hostCftMode == i32::MIN,
            c.spec_net_name() is None,
            c.spec_comm_name() is None,
    {
        Config { raw: abi::ncclConfig_t::initialized(), net_name: None, comm_name: None }
    }
}

/// Per-collective NCCL configuration.
pub struct CollConfig {
    raw: abi::ncclCollConfig_t,
    algorithm: Option<Vec<u8>>,
}

impl CollConfig {
    /// The C record, with its algorithm string field null.
    pub closed spec fn spec_raw(self) -> abi::ncclCollConfig_t {
        self.raw
    }

    /// The algorithm selection's bytes, if one was set.
    pub closed spec fn spec_algorithm(self) -> Option<Seq<u8>> {
        option_bytes(self.algorithm)
    }

    /// The algorithm string is NUL-free and the record's own string field is
    /// null.
    #[verifier::type_invariant]
    closed spec fn wf(self) -> bool {
        &&& self.raw.algSelection == 0
        &&& match self.algorithm {
            Some(v) => nul_free(v@),
            None => true,
        }
    }

    pub fn raw(&self) -> (raw: &abi::ncclCollConfig_t)
        ensures
            *raw == self.spec_raw(),
    {
        &self.raw
    }

    pub fn algorithm_bytes(&self) -> (name: Option<&Vec<u8>>)
        ensures
            match name {
                Some(v) => self.spec_algorithm() == Some(v@),
                None => self.spec_algorithm() is None,
            },
    {
        match &self.algorithm {
            Some(v) => Some(v),
            None => None,
        }
    }

    pub fn min_ctas(self, value: i32) -> (c: Self)
        ensures
            c.spec_algorithm() == self.spec_algorithm(),
            c.spec_raw() == (abi::ncclCollConfig_t { minCTAs: value, ..self.spec_raw() }),
    {
        proof {
            use_type_invariant(&self);
        }
        let mut c = self;
        c.raw.minCTAs = value;
        c
    }

    pub fn max_ctas(self, value: i32) -> (c: Self)
        ensures
            c.spec_algorithm() == self.spec_algorithm(),
            c.spec_raw() == (abi::ncclCollConfig_t { maxCTAs: value, ..self.spec_raw() }),
    {
        proof {
            use_type_invariant(&self);
        }
        let mut c = self;
        c.raw.maxCTAs = value;
        c
    }

    pub fn nvls_ctas(self, value: i32) -> (c: Self)
        ensures
            c.spec_algorithm() == self.spec_algorithm(),
            c.spec_raw() == (abi::ncclCollConfig_t { nvlsCTAs: value, ..self.spec_raw() }),
    {
        proof {
            use_type_invariant(&self);
        }
        let mut c = self;
        c.raw.nvlsCTAs = value;
        c
    }

    pub fn cga_cluster_size(self, value: i32) -> (c: Self)
        ensures
            c.spec_algorithm() == self.spec_algorithm(),
            c.spec_raw() == (abi::ncclCollConfig_t { cgaClusterSize: value, ..self.spec_raw() }),
    {
        proof {
            use_type_invariant(&self);
        }
        let mut c = self;
        c.raw.cgaClusterSize = value;
        c
    }

    pub fn force_algorithm(self, value: bool) -> (c: Self)
        ensures
            c.spec_algorithm() == self.spec_algorithm(),
            c.spec_raw() == (abi::ncclCollConfig_t { forceAlgSelection: flag(value), ..self.spec_raw() }),
    {
        proof {
            use_type_invariant(&self);
        }
        let mut c = self;
        c.raw.forceAlgSelection = flag_code(value);
        c
    }

    pub fn cta_policy(self, value: i32) -> (c: Self)
        ensures
            c.spec_algorithm() == self.spec_algorithm(),
            c.spec_raw() == (abi::ncclCollConfig_t { CTAPolicy: value, ..self.spec_raw() }),
    {
        proof {
            use_type_invariant(&self);
        }
        let mut c = self;
        c.raw.CTAPolicy = value;
        c
    }

    pub fn profiler_tag(self, value: u64) -> (c: Self)
        ensures
            c.spec_algorithm() == self.spec_algorithm(),
            c.spec_raw() == (abi::ncclCollConfig_t { userProfilerTag: value, ..self.spec_raw() }),
    {
        proof {
            use_type_invariant(&self);
        }
        let mut c = self;
        c.raw.userProfilerTag = value;
        c
    }

    /// Select an algorithm by name; fails when `value` contains a NUL byte.
    pub fn algorithm(self, value: &str) -> (r: Result<Self, Error>)
        ensures
            match r {
                Ok(c) => {
                    &&& nul_free(value.spec_bytes())
                    &&& c.spec_raw() == self.spec_raw()
                    &&& c.spec_algorithm() == Some(value.spec_bytes())
                },
                Err(Error::InteriorNul(e)) => {
                    &&& e.bytes@ == value.spec_bytes()
                    &&& first_nul(value.spec_bytes(), e.position as int)
                },
                Err(_) => false,
            },
    {
        proof {
            use_type_invariant(&self);
        }
        match c_string_bytes(value) {
            Ok(bytes) => {
                let mut c = self;
                c.algorithm = Some(bytes);
                Ok(c)
            },
            Err(e) => Err(Error::InteriorNul(e)),
        }
    }

    /// Attach a vendor extension list, given by the address of its first
    /// node. The list must stay valid for every collective that uses this
    /// configuration.
    pub fn extension(self, extension: usize) -> (c: Self)
        ensures
            c.spec_algorithm() == self.spec_algorithm(),
            c.spec_raw() == (abi::ncclCollConfig_t { ext: extension, ..self.spec_raw() }),
    {
        proof {
            use_type_invariant(&self);
        }
        let mut c = self;
        c.raw.ext = extension;
        c
    }
}

impl Default for CollConfig {
    /// `NCCL_COLL_CONFIG_INITIALIZER` with no algorithm string.
    fn default() -> (c: Self)
        ensures
            c.spec_raw() == abi::spec_coll_config_initializer(),
            c.spec_raw().minCTAs == i32::MIN,
            c.spec_raw().maxCTAs == i32::MIN,
            c.spec_raw().nvlsCTAs == i32::MIN,
            c.spec_raw().cgaClusterSize == i32::MIN,
            c.spec_raw().CTAPolicy == i32::MIN,
            c.spec_raw().forceAlgSelection == 1,
            c.spec_raw().ext == 0,
            c.spec_raw().userProfilerTag == 0,
            c.spec_algorithm() is None,
    {
        CollConfig { raw: abi::ncclCollConfig_t::initialized(), algorithm: None }
    }
}

} // verus!
