use full_client::bundle::{MemorySizeProbe, ProbeContext, SizeEstimate};
use full_client::config::Configuration;
use full_client::errors::{InitializationError, SubsystemId};
use full_client::exit::ExitSignal;
use full_client::full::{FullClient, StartupEnvironment};
use full_client::policy::should_start_propagation;
use full_client::subsystems::FrontEndKind;

fn expect_err(
    r: Result<Box<full_client::bundle::ClientComponents>, InitializationError>,
) -> InitializationError {
    match r {
        Err(e) => e,
        Ok(_) => panic!("assembly unexpectedly succeeded"),
    }
}

fn base_conf() -> Configuration {
    Configuration {
        test_mode: false,
        data_propagate_enabled: false,
        data_propagate_interval_ms: 0,
        data_propagate_size: 0,
        debug_rpc_http_enabled: false,
        rpc_http_enabled: false,
        rpc_tcp_enabled: false,
        rpc_ws_enabled: false,
    }
}

fn healthy_env() -> StartupEnvironment {
    StartupEnvironment {
        data_store_ok: true,
        txpool_ok: true,
        consensus_ok: true,
        sync_ok: true,
        blockgen_ok: true,
        debug_rpc_http_ok: true,
        rpc_http_ok: true,
        rpc_tcp_ok: true,
        rpc_ws_ok: true,
        propagation_register_ok: true,
    }
}

#[test]
fn propagation_policy_requires_both_flags() {
    let mut conf = base_conf();
    assert!(!should_start_propagation(&conf));
    conf.test_mode = true;
    assert!(!should_start_propagation(&conf));
    conf.test_mode = false;
    conf.data_propagate_enabled = true;
    assert!(!should_start_propagation(&conf));
    conf.test_mode = true;
    assert!(should_start_propagation(&conf));
}

#[test]
fn test_mode_propagation_scenario() {
    let mut conf = base_conf();
    conf.test_mode = true;
    conf.data_propagate_enabled = true;
    conf.data_propagate_interval_ms = 100;
    conf.data_propagate_size = 64;
    let r = FullClient::start(conf, ExitSignal::new(), healthy_env());
    let c = r.unwrap();
    assert!(c.blockgen.is_some());
    let regs = &c.other_components.network.registrations;
    assert_eq!(regs.len(), 1);
    assert_eq!(regs[0].interval_ms, 100);
    assert_eq!(regs[0].size, 64);
}

#[test]
fn propagation_without_test_mode_is_skipped() {
    let mut conf = base_conf();
    conf.data_propagate_enabled = true;
    conf.data_propagate_interval_ms = 100;
    conf.data_propagate_size = 64;
    let r = FullClient::start(conf, ExitSignal::new(), healthy_env());
    let c = r.unwrap();
    assert!(c.blockgen.is_some());
    assert_eq!(c.other_components.network.registrations.len(), 0);
}

#[test]
fn propagation_in_test_mode_without_flag_is_skipped() {
    let mut conf = base_conf();
    conf.test_mode = true;
    let r = FullClient::start(conf, ExitSignal::new(), healthy_env());
    let c = r.unwrap();
    assert_eq!(c.other_components.network.registrations.len(), 0);
}

#[test]
fn data_store_failure_names_the_step() {
    let mut env = healthy_env();
    env.data_store_ok = false;
    let r = FullClient::start(base_conf(), ExitSignal::new(), env);
    let e = expect_err(r);
    assert_eq!(
        e,
        InitializationError::SubsystemInitializationFailure(SubsystemId::DataStore)
    );
    assert_eq!(e.message(), "data store");
}

#[test]
fn each_required_step_failure_names_its_step() {
    let cases = [
        (0, SubsystemId::DataStore),
        (1, SubsystemId::TransactionPool),
        (2, SubsystemId::ConsensusEngine),
        (3, SubsystemId::SyncService),
        (4, SubsystemId::BlockProducer),
    ];
    for (i, id) in cases {
        let mut env = healthy_env();
        match i {
            0 => env.data_store_ok = false,
            1 => env.txpool_ok = false,
            2 => env.consensus_ok = false,
            3 => env.sync_ok = false,
            _ => env.blockgen_ok = false,
        }
        let r = FullClient::start(base_conf(), ExitSignal::new(), env);
        assert_eq!(
            expect_err(r),
            InitializationError::SubsystemInitializationFailure(id)
        );
    }
}

#[test]
fn each_front_end_failure_names_its_step() {
    let cases = [
        (0, SubsystemId::DebugRpcHttpServer, "debug HTTP front-end"),
        (1, SubsystemId::RpcHttpServer, "HTTP front-end"),
        (2, SubsystemId::RpcTcpServer, "TCP front-end"),
        (3, SubsystemId::RpcWsServer, "WebSocket front-end"),
    ];
    for (i, id, name) in cases {
        let mut conf = base_conf();
        let mut env = healthy_env();
        match i {
            0 => {
                conf.debug_rpc_http_enabled = true;
                env.debug_rpc_http_ok = false;
            }
            1 => {
                conf.rpc_http_enabled = true;
                env.rpc_http_ok = false;
            }
            2 => {
                conf.rpc_tcp_enabled = true;
                env.rpc_tcp_ok = false;
            }
            _ => {
                conf.rpc_ws_enabled = true;
                env.rpc_ws_ok = false;
            }
        }
        let r = FullClient::start(conf, ExitSignal::new(), env);
        let e = expect_err(r);
        assert_eq!(e, InitializationError::SubsystemInitializationFailure(id));
        assert_eq!(e.message(), name);
    }
}

#[test]
fn first_failure_wins() {
    let mut env = healthy_env();
    env.consensus_ok = false;
    env.blockgen_ok = false;
    let r = FullClient::start(base_conf(), ExitSignal::new(), env);
    assert_eq!(
        expect_err(r),
        InitializationError::SubsystemInitializationFailure(SubsystemId::ConsensusEngine)
    );
}

#[test]
fn front_end_failure_only_matters_when_requested() {
    let mut env = healthy_env();
    env.rpc_tcp_ok = false;
    let r = FullClient::start(base_conf(), ExitSignal::new(), env);
    assert!(r.is_ok());

    let mut conf = base_conf();
    conf.rpc_tcp_enabled = true;
    let r = FullClient::start(conf, ExitSignal::new(), env);
    let e = expect_err(r);
    assert_eq!(
        e,
        InitializationError::SubsystemInitializationFailure(SubsystemId::RpcTcpServer)
    );
    assert_eq!(e.message(), "TCP front-end");
}

#[test]
fn front_ends_present_iff_configured() {
    let mut conf = base_conf();
    conf.debug_rpc_http_enabled = true;
    conf.rpc_ws_enabled = true;
    let c = FullClient::start(conf, ExitSignal::new(), healthy_env()).unwrap();
    let oc = &c.other_components;
    let debug = oc.debug_rpc_http_server.as_ref().unwrap();
    assert!(matches!(debug.kind, FrontEndKind::DebugRpcHttp));
    assert!(oc.rpc_http_server.is_none());
    assert!(oc.rpc_tcp_server.is_none());
    let ws = oc.rpc_ws_server.as_ref().unwrap();
    assert!(matches!(ws.kind, FrontEndKind::RpcWs));
}

#[test]
fn rejected_registration_fails_assembly() {
    let mut conf = base_conf();
    conf.test_mode = true;
    conf.data_propagate_enabled = true;
    let mut env = healthy_env();
    env.propagation_register_ok = false;
    let r = FullClient::start(conf, ExitSignal::new(), env);
    let e = expect_err(r);
    assert_eq!(e, InitializationError::OptionalSubsystemRegistrationFailure);
    assert_eq!(e.message(), "propagation registration");
}

#[test]
fn rejected_registration_is_harmless_when_policy_is_off() {
    let mut env = healthy_env();
    env.propagation_register_ok = false;
    let r = FullClient::start(base_conf(), ExitSignal::new(), env);
    assert!(r.is_ok());
}

#[test]
fn weak_store_reference_does_not_own_the_store() {
    let c = FullClient::start(base_conf(), ExitSignal::new(), healthy_env()).unwrap();
    let c = *c;
    let weak = c.data_manager_weak_ptr;
    let strong_owners = (c.blockgen, c.other_components);
    assert!(weak.resolve().is_some());
    drop(strong_owners);
    assert!(weak.resolve().is_none());
}

#[test]
fn bundle_reports_size_accounting_as_unsupported() {
    let c = FullClient::start(base_conf(), ExitSignal::new(), healthy_env()).unwrap();
    let estimate = c.other_components.estimate_size(&ProbeContext {});
    assert_eq!(estimate, SizeEstimate::Unsupported);
}

#[test]
fn configuration_reports_test_mode() {
    let mut conf = base_conf();
    assert!(!conf.is_test_mode());
    conf.test_mode = true;
    assert!(conf.is_test_mode());
}
