use full_client::config::Configuration;
use full_client::exit::ExitSignal;
use full_client::full::{FullClient, StartupEnvironment};

#[test]
fn signal_is_one_directional() {
    let exit = ExitSignal::new();
    assert!(!exit.is_exiting());
    exit.signal_exit();
    assert!(exit.is_exiting());
    // Signaling again is a no-op: the state never returns to "running".
    exit.signal_exit();
    assert!(exit.is_exiting());
}

#[test]
fn handles_share_one_signal() {
    let exit = ExitSignal::new();
    let observer = exit.handle();
    assert!(!observer.is_exiting());
    exit.signal_exit();
    assert!(observer.is_exiting());
}

#[test]
fn wait_returns_once_signaled() {
    let exit = ExitSignal::new();
    exit.signal_exit();
    // Returns immediately: the flag already reads "exiting".
    exit.wait_for_exit();
}

#[test]
fn assembled_subsystems_observe_the_given_signal() {
    let conf = Configuration {
        test_mode: false,
        data_propagate_enabled: false,
        data_propagate_interval_ms: 0,
        data_propagate_size: 0,
        debug_rpc_http_enabled: true,
        rpc_http_enabled: false,
        rpc_tcp_enabled: false,
        rpc_ws_enabled: false,
    };
    let env = StartupEnvironment {
        data_store_ok: true,
        txpool_ok: true,
        consensus_ok: true,
        sync_ok: true,
        blockgen_ok: true,
        debug_rpc_http_ok: true,
        rpc_http_ok: true,
        rpc_tcp_ok: true,
        rpc_ws_ok: true,
        propagation_register_ok: true,
    };
    let exit = ExitSignal::new();
    let c = FullClient::start(conf, exit.handle(), env).unwrap();
    let oc = &c.other_components;
    assert!(!oc.sync.exit.is_exiting());
    exit.signal_exit();
    assert!(oc.consensus.exit.is_exiting());
    assert!(oc.txpool.exit.is_exiting());
    assert!(oc.sync.exit.is_exiting());
    assert!(oc.network.exit.is_exiting());
    assert!(oc.runtime.exit.is_exiting());
    assert!(c.blockgen.as_ref().unwrap().exit.is_exiting());
    assert!(oc.debug_rpc_http_server.as_ref().unwrap().exit.is_exiting());
    // A subsystem blocked on the signal is released after it.
    oc.sync.exit.wait_for_exit();
}
