//! The assembler: brings up every subsystem of a full node, in dependency
//! order, and packages their handles.

use vstd::prelude::*;
use crate::bundle::{ClientComponents, FullClientExtraComponents};
use crate::config::Configuration;
use crate::errors::{InitializationError, SubsystemId};
use crate::exit::ExitSignal;
use crate::policy::{should_start_propagation, should_start_propagation_spec};
use crate::shared::share_arc;
use crate::subsystems::{
    BlockProducer, ConsensusEngine, DataPropagation, DataStore, DataStoreRef, FrontEnd,
    FrontEndKind, NetworkService, RuntimeHandle, SyncService, TransactionPool,
};

verus! {

/// The environment's verdict on each construction step.
///
/// Whether a subsystem comes up depends on resources outside this library —
/// disk, ports, peers. Assembly takes those verdicts as an input, one per
/// step it may attempt, and is verified for every combination of them. A
/// verdict is read only if the sequence reaches its step.
#[derive(Clone, Copy, PartialEq, Eq, Structural, Debug)]
pub struct StartupEnvironment {
    /// Whether the data store can be constructed.
    pub data_store_ok: bool,
    /// Whether the pending-work pool can be constructed.
    pub txpool_ok: bool,
    /// Whether the core processing engine can be constructed.
    pub consensus_ok: bool,
    /// Whether the synchronization service can be constructed.
    pub sync_ok: bool,
    /// Whether the background producer can be constructed.
    pub blockgen_ok: bool,
    /// Whether the debug HTTP front-end can be started.
    pub debug_rpc_http_ok: bool,
    /// Whether the public HTTP front-end can be started.
    pub rpc_http_ok: bool,
    /// Whether the TCP front-end can be started.
    pub rpc_tcp_ok: bool,
    /// Whether the WebSocket front-end can be started.
    pub rpc_ws_ok: bool,
    /// Whether the network layer accepts the propagation registration.
    pub propagation_register_ok: bool,
}

/// The first step of the assembly sequence that is attempted and fails, in
/// the order the sequence attempts them. A front-end's step is attempted
/// only when its configuration flag is set.
pub open spec fn first_failed_step(conf: Configuration, env: StartupEnvironment) -> Option<
    SubsystemId,
> {
    if !env.data_store_ok {
        Some(SubsystemId::DataStore)
    } else if !env.txpool_ok {
        Some(SubsystemId::TransactionPool)
    } else if !env.consensus_ok {
        Some(SubsystemId::ConsensusEngine)
    } else if !env.sync_ok {
        Some(SubsystemId::SyncService)
    } else if !env.blockgen_ok {
        Some(SubsystemId::BlockProducer)
    } else if conf.debug_rpc_http_enabled && !env.debug_rpc_http_ok {
        Some(SubsystemId::DebugRpcHttpServer)
    } else if conf.rpc_http_enabled && !env.rpc_http_ok {
        Some(SubsystemId::RpcHttpServer)
    } else if conf.rpc_tcp_enabled && !env.rpc_tcp_ok {
        Some(SubsystemId::RpcTcpServer)
    } else if conf.rpc_ws_enabled && !env.rpc_ws_ok {
        Some(SubsystemId::RpcWsServer)
    } else {
        None
    }
}

/// What assembly returns for a configuration and an environment: no error —
/// a bundle is owed — exactly when every attempted step succeeds; otherwise
/// the error of the first failure. A failing required step or front-end
/// aborts the sequence before the propagation policy is evaluated; a
/// rejected propagation registration is the one failure that policy can add.
pub open spec fn expected_outcome(conf: Configuration, env: StartupEnvironment) -> Option<
    InitializationError,
> {
    match first_failed_step(conf, env) {
        Some(id) => Some(InitializationError::SubsystemInitializationFailure(id)),
        None => if should_start_propagation_spec(conf) && !env.propagation_register_ok {
            Some(InitializationError::OptionalSubsystemRegistrationFailure)
        } else {
            None
        },
    }
}

/// If any required subsystem's construction fails, assembly yields an error
/// naming that step, and no bundle: the expected outcome of an environment
/// whose first failure is `id` is the initialization failure of `id`.
pub proof fn lemma_required_failure_yields_error(
    conf: Configuration,
    env: StartupEnvironment,
    id: SubsystemId,
)
    requires
        first_failed_step(conf, env) == Some::<SubsystemId>(id),
    ensures
        expected_outcome(conf, env) == Some(
            InitializationError::SubsystemInitializationFailure(id),
        ),
{
}

/// Success is owed: in an environment where every required step, every
/// requested front-end, and — when the propagation policy is satisfied — the
/// registration succeed, assembly returns a bundle.
pub proof fn lemma_healthy_environment_succeeds(conf: Configuration, env: StartupEnvironment)
    requires
        env.data_store_ok,
        env.txpool_ok,
        env.consensus_ok,
        env.sync_ok,
        env.blockgen_ok,
        conf.debug_rpc_http_enabled ==> env.debug_rpc_http_ok,
        conf.rpc_http_enabled ==> env.rpc_http_ok,
        conf.rpc_tcp_enabled ==> env.rpc_tcp_ok,
        conf.rpc_ws_enabled ==> env.rpc_ws_ok,
        should_start_propagation_spec(conf) ==> env.propagation_register_ok,
    ensures
        expected_outcome(conf, env) is None,
{
}

/// The assembler for a full node.
pub struct FullClient {}

impl FullClient {
    /// Start all key components of the node and pass out their handles.
    ///
    /// The sequence constructs the data store, the pool, the engine, the
    /// synchronization service and the producer, in that order; starts each
    /// configured front-end; then evaluates the propagation policy and, when satisfied,
    /// registers the propagation subsystem against the network layer. The
    /// first failure aborts the remainder and is returned as the one error;
    /// a bundle is returned exactly when nothing attempted failed, and it
    /// is then complete for the configuration, internally wired, and every
    /// subsystem in it observes the given shutdown signal.
    pub fn start(conf: Configuration, exit: ExitSignal, env: StartupEnvironment) -> (r: Result<
        Box<ClientComponents>,
        InitializationError,
    >)
        ensures
            r is Ok <==> expected_outcome(conf, env) is None,
            r matches Err(e) ==> Some(e) == expected_outcome(conf, env),
            r matches Ok(c) ==> c.is_complete_for(conf) && c.internally_wired()
                && c.observes_exit_signal(exit),
    {
        if !env.data_store_ok {
            return Err(InitializationError::SubsystemInitializationFailure(SubsystemId::DataStore));
        }
        let data_store = std::sync::Arc::new(DataStore::new(&exit));
        let data_manager_weak_ptr = DataStoreRef::new(&data_store);

        if !env.txpool_ok {
            return Err(
                InitializationError::SubsystemInitializationFailure(SubsystemId::TransactionPool),
            );
        }
        let txpool = std::sync::Arc::new(TransactionPool::new(&exit, share_arc(&data_store)));

        if !env.consensus_ok {
            return Err(
                InitializationError::SubsystemInitializationFailure(SubsystemId::ConsensusEngine),
            );
        }
        let consensus = std::sync::Arc::new(
            ConsensusEngine::new(&exit, data_store, share_arc(&txpool)),
        );

        if !env.sync_ok {
            return Err(
                InitializationError::SubsystemInitializationFailure(SubsystemId::SyncService),
            );
        }
        let mut network = NetworkService::new(&exit);
        let sync = std::sync::Arc::new(SyncService::new(&exit, share_arc(&consensus)));

        if !env.blockgen_ok {
            return Err(
                InitializationError::SubsystemInitializationFailure(SubsystemId::BlockProducer),
            );
        }
        let blockgen = std::sync::Arc::new(
            BlockProducer::new(&exit, share_arc(&sync), share_arc(&consensus)),
        );

        let runtime = RuntimeHandle::new(&exit);

        let debug_rpc_http_server = if conf.debug_rpc_http_enabled {
            if !env.debug_rpc_http_ok {
                return Err(
                    InitializationError::SubsystemInitializationFailure(
                        SubsystemId::DebugRpcHttpServer,
                    ),
                );
            }
            Some(FrontEnd::new(FrontEndKind::DebugRpcHttp, &exit, &consensus, &txpool))
        } else {
            None
        };
        let rpc_http_server = if conf.rpc_http_enabled {
            if !env.rpc_http_ok {
                return Err(
                    InitializationError::SubsystemInitializationFailure(SubsystemId::RpcHttpServer),
                );
            }
            Some(FrontEnd::new(FrontEndKind::RpcHttp, &exit, &consensus, &txpool))
        } else {
            None
        };
        let rpc_tcp_server = if conf.rpc_tcp_enabled {
            if !env.rpc_tcp_ok {
                return Err(
                    InitializationError::SubsystemInitializationFailure(SubsystemId::RpcTcpServer),
                );
            }
            Some(FrontEnd::new(FrontEndKind::RpcTcp, &exit, &consensus, &txpool))
        } else {
            None
        };
        let rpc_ws_server = if conf.rpc_ws_enabled {
            if !env.rpc_ws_ok {
                return Err(
                    InitializationError::SubsystemInitializationFailure(SubsystemId::RpcWsServer),
                );
            }
            Some(FrontEnd::new(FrontEndKind::RpcWs, &exit, &consensus, &txpool))
        } else {
            None
        };

        if should_start_propagation(&conf) {
            let dp = DataPropagation::new(conf.data_propagate_interval_ms, conf.data_propagate_size);
            match network.register_propagation(dp, env.propagation_register_ok) {
                Ok(()) => {},
                Err(e) => {
                    return Err(e);
                },
            }
            proof {
                assert(network.registrations@ =~= crate::policy::expected_registrations(conf));
            }
        }

        Ok(
            Box::new(
                ClientComponents {
                    data_manager_weak_ptr,
                    blockgen: Some(blockgen),
                    other_components: FullClientExtraComponents {
                        consensus,
                        debug_rpc_http_server,
                        rpc_http_server,
                        rpc_tcp_server,
                        rpc_ws_server,
                        runtime,
                        sync,
                        network,
                        txpool,
                    },
                },
            ),
        )
    }
}

} // verus!
