//! The bundle of handles a successful assembly returns.

use vstd::prelude::*;
use crate::config::Configuration;
use crate::exit::ExitSignal;
use crate::policy::expected_registrations;
use crate::subsystems::{
    BlockProducer, ConsensusEngine, DataStoreRef, FrontEnd, FrontEndKind, NetworkService,
    RuntimeHandle, SyncService, TransactionPool,
};

verus! {

/// The handles beyond the producer: the engine, the optional front-ends,
/// the runtime, the synchronization service, the network layer and the
/// pool. Immutable after construction; the subsystems inside mutate their
/// own state independently.
pub struct FullClientExtraComponents {
    /// The core processing engine.
    pub consensus: std::sync::Arc<ConsensusEngine>,
    /// The debug HTTP front-end, present exactly when configured.
    pub debug_rpc_http_server: Option<FrontEnd>,
    /// The public HTTP front-end, present exactly when configured.
    pub rpc_http_server: Option<FrontEnd>,
    /// The TCP front-end, present exactly when configured.
    pub rpc_tcp_server: Option<FrontEnd>,
    /// The WebSocket front-end, present exactly when configured.
    pub rpc_ws_server: Option<FrontEnd>,
    /// The concurrency runtime backing the subsystems.
    pub runtime: RuntimeHandle,
    /// The network synchronization service.
    pub sync: std::sync::Arc<SyncService>,
    /// The network layer, holding whatever the start policy registered.
    pub network: NetworkService,
    /// The pending-work pool.
    pub txpool: std::sync::Arc<TransactionPool>,
}

/// Everything a successful assembly hands to the host: a non-owning
/// reference to the data store, the background producer, and the other
/// subsystem handles.
pub struct ClientComponents {
    /// The non-owning reference to the data store. The bundle is never the
    /// reason the store stays alive; its owners are the pool, the engine
    /// and, through it, the rest.
    pub data_manager_weak_ptr: DataStoreRef,
    /// The background producer; present whenever assembly succeeded.
    pub blockgen: Option<std::sync::Arc<BlockProducer>>,
    /// The remaining subsystem handles.
    pub other_components: FullClientExtraComponents,
}

impl ClientComponents {
    /// Every subsystem in the bundle holds a handle to the one shared
    /// shutdown signal it was assembled with.
    pub open spec fn observes_exit_signal(self, exit: ExitSignal) -> bool {
        let oc = self.other_components;
        &&& (*oc.txpool.data_store).exit == exit
        &&& oc.consensus.exit == exit
        &&& oc.sync.exit == exit
        &&& oc.network.exit == exit
        &&& oc.txpool.exit == exit
        &&& oc.runtime.exit == exit
        &&& (self.blockgen matches Some(b) ==> b.exit == exit)
        &&& (oc.debug_rpc_http_server matches Some(f) ==> f.exit == exit)
        &&& (oc.rpc_http_server matches Some(f) ==> f.exit == exit)
        &&& (oc.rpc_tcp_server matches Some(f) ==> f.exit == exit)
        &&& (oc.rpc_ws_server matches Some(f) ==> f.exit == exit)
    }

    /// The dependency wiring of a well-assembled bundle: the engine owns
    /// the same store and pool the bundle exposes, the synchronization
    /// service drives that engine, the producer draws on both, and every
    /// front-end serves that engine and pool.
    pub open spec fn internally_wired(self) -> bool {
        let oc = self.other_components;
        &&& oc.consensus.txpool == oc.txpool
        &&& oc.consensus.data_store == oc.txpool.data_store
        &&& oc.sync.consensus == oc.consensus
        &&& (self.blockgen matches Some(b) ==> b.sync == oc.sync && b.consensus == oc.consensus)
        &&& (oc.debug_rpc_http_server matches Some(f) ==> f.consensus == oc.consensus && f.txpool
            == oc.txpool)
        &&& (oc.rpc_http_server matches Some(f) ==> f.consensus == oc.consensus && f.txpool
            == oc.txpool)
        &&& (oc.rpc_tcp_server matches Some(f) ==> f.consensus == oc.consensus && f.txpool
            == oc.txpool)
        &&& (oc.rpc_ws_server matches Some(f) ==> f.consensus == oc.consensus && f.txpool
            == oc.txpool)
    }

    /// What a successful assembly owes for the given configuration: every
    /// required handle present, the weak reference taken from the very
    /// store the subsystems own, each optional front-end present exactly
    /// when its flag was set and of the right kind, and the network layer
    /// holding exactly the registrations the start policy called for.
    pub open spec fn is_complete_for(self, conf: Configuration) -> bool {
        let oc = self.other_components;
        &&& self.blockgen is Some
        &&& self.data_manager_weak_ptr.refers_to(oc.txpool.data_store)
        &&& (oc.debug_rpc_http_server is Some <==> conf.debug_rpc_http_enabled)
        &&& (oc.rpc_http_server is Some <==> conf.rpc_http_enabled)
        &&& (oc.rpc_tcp_server is Some <==> conf.rpc_tcp_enabled)
        &&& (oc.rpc_ws_server is Some <==> conf.rpc_ws_enabled)
        &&& (oc.debug_rpc_http_server matches Some(f) ==> f.kind == FrontEndKind::DebugRpcHttp)
        &&& (oc.rpc_http_server matches Some(f) ==> f.kind == FrontEndKind::RpcHttp)
        &&& (oc.rpc_tcp_server matches Some(f) ==> f.kind == FrontEndKind::RpcTcp)
        &&& (oc.rpc_ws_server matches Some(f) ==> f.kind == FrontEndKind::RpcWs)
        &&& oc.network.registrations@ == expected_registrations(conf)
    }
}

/// The context an external accounting pass hands along while it traverses
/// the bundle.
pub struct ProbeContext {}

/// What a memory-footprint probe learns of a component.
#[derive(Clone, Copy, PartialEq, Eq, Structural, Debug)]
pub enum SizeEstimate {
    /// The component does not support accounting; never a misleading zero.
    Unsupported,
    /// An estimate of the component's footprint, in bytes.
    Bytes(usize),
}

/// The capability every long-lived bundle component supports, so that an
/// external accounting pass can traverse the bundle uniformly without
/// participating in ownership.
pub trait MemorySizeProbe {
    /// Estimate the component's memory footprint, or answer that the
    /// component does not support accounting.
    fn estimate_size(&self, ctx: &ProbeContext) -> SizeEstimate;
}

impl MemorySizeProbe for FullClientExtraComponents {
    /// Aggregate accounting for the bundle itself is not supported: the
    /// probe answers so explicitly, never with a misleading zero.
    fn estimate_size(&self, _ctx: &ProbeContext) -> (r: SizeEstimate)
        ensures
            r == SizeEstimate::Unsupported,
    {
        SizeEstimate::Unsupported
    }
}

} // verus!
