use nccl::abi;
use nccl::config::{c_string_bytes, CollConfig, Config};
use nccl::result::Error;

#[test]
fn default_config_is_the_initializer() {
    let c = Config::default();
    let init = abi::ncclConfig_t::initialized();
    assert!(*c.raw() == init);
    assert!(c.net_name_bytes().is_none());
    assert!(c.comm_name_bytes().is_none());
}

#[test]
fn flag_setters_write_one_or_zero() {
    let c = Config::default().blocking(true).split_share(false).collnet_enable(true);
    assert_eq!(c.raw().blocking, 1);
    assert_eq!(c.raw().splitShare, 0);
    assert_eq!(c.raw().collnetEnable, 1);
    let c = c.blocking(false);
    assert_eq!(c.raw().blocking, 0);
}

#[test]
fn each_setter_changes_only_its_field() {
    let base = Config::default();
    let c = Config::default().min_ctas(4);
    let mut expected = *base.raw();
    expected.minCTAs = 4;
    assert!(*c.raw() == expected);

    let c = Config::default()
        .cga_cluster_size(2)
        .max_ctas(32)
        .traffic_class(5)
        .cta_policy(abi::NCCL_CTA_POLICY_ZERO)
        .shrink_share(true)
        .nvls_ctas(16)
        .channels_per_net_peer(3)
        .nvlink_centric_sched(true)
        .graph_usage_mode(1)
        .num_rma_contexts(6)
        .max_p2p_peers(9)
        .graph_stream_ordering(true)
        .launch_order_implicit(false)
        .num_rma_signals(11)
        .rma_eager_init(true)
        .host_cft_mode(abi::ncclHostCftFallback);
    let r = c.raw();
    assert_eq!(r.cgaClusterSize, 2);
    assert_eq!(r.maxCTAs, 32);
    assert_eq!(r.trafficClass, 5);
    assert_eq!(r.CTAPolicy, 2);
    assert_eq!(r.shrinkShare, 1);
    assert_eq!(r.nvlsCTAs, 16);
    assert_eq!(r.nChannelsPerNetPeer, 3);
    assert_eq!(r.nvlinkCentricSched, 1);
    assert_eq!(r.graphUsageMode, 1);
    assert_eq!(r.numRmaCtx, 6);
    assert_eq!(r.maxP2pPeers, 9);
    assert_eq!(r.graphStreamOrdering, 1);
    assert_eq!(r.launchOrderImplicit, 0);
    assert_eq!(r.numRmaSig, 11);
    assert_eq!(r.rmaEagerInit, 1);
    assert_eq!(r.hostCftMode, 3);
    assert_eq!(r.blocking, abi::NCCL_CONFIG_UNDEF_INT);
    assert_eq!(r.minCTAs, abi::NCCL_CONFIG_UNDEF_INT);
    assert_eq!(r.magic, abi::NCCL_API_MAGIC);
}

#[test]
fn names_are_kept_as_bytes() {
    let c = Config::default().net_name("IB").unwrap().comm_name("trainer").unwrap();
    assert_eq!(c.net_name_bytes().unwrap().as_slice(), b"IB");
    assert_eq!(c.comm_name_bytes().unwrap().as_slice(), b"trainer");
    assert_eq!(c.raw().netName, 0);
    let c = c.net_name("Socket").unwrap();
    assert_eq!(c.net_name_bytes().unwrap().as_slice(), b"Socket");
    assert_eq!(c.comm_name_bytes().unwrap().as_slice(), b"trainer");
}

#[test]
fn name_with_nul_is_refused_at_the_first_nul() {
    match Config::default().comm_name("ab\0c\0") {
        Err(Error::InteriorNul(e)) => {
            assert_eq!(e.nul_position(), 2);
            assert_eq!(e.into_vec(), b"ab\0c\0".to_vec());
        }
        _ => panic!("expected an interior NUL error"),
    }
    assert!(matches!(Config::default().net_name("\0"), Err(Error::InteriorNul(_))));
}

#[test]
fn c_string_bytes_of_utf8() {
    assert_eq!(c_string_bytes("é").unwrap(), vec![0xc3, 0xa9]);
    assert_eq!(c_string_bytes("").unwrap(), Vec::<u8>::new());
    assert_eq!(c_string_bytes("x\0").unwrap_err().position, 1);
}

#[test]
fn coll_config_setters() {
    let c = CollConfig::default();
    assert!(*c.raw() == abi::ncclCollConfig_t::initialized());
    let c = c
        .min_ctas(1)
        .max_ctas(2)
        .nvls_ctas(3)
        .cga_cluster_size(4)
        .force_algorithm(false)
        .cta_policy(abi::NCCL_CTA_POLICY_EFFICIENCY)
        .profiler_tag(99)
        .extension(0x2000);
    let r = c.raw();
    assert_eq!(r.minCTAs, 1);
    assert_eq!(r.maxCTAs, 2);
    assert_eq!(r.nvlsCTAs, 3);
    assert_eq!(r.cgaClusterSize, 4);
    assert_eq!(r.forceAlgSelection, 0);
    assert_eq!(r.CTAPolicy, 1);
    assert_eq!(r.userProfilerTag, 99);
    assert_eq!(r.ext, 0x2000);
    assert_eq!(r.algSelection, 0);
}

#[test]
fn coll_config_algorithm() {
    let c = CollConfig::default().algorithm("ring").unwrap();
    assert_eq!(c.algorithm_bytes().unwrap().as_slice(), b"ring");
    match CollConfig::default().algorithm("tr\0ee") {
        Err(Error::InteriorNul(e)) => assert_eq!(e.position, 2),
        _ => panic!("expected an interior NUL error"),
    }
}
