//! Models of the subsystems assembly constructs, and their wiring.
//!
//! The internals of these subsystems — the engine's ordering rules, the
//! synchronization protocol, the pool's admission policy, the producer's
//! work selection, the front-ends' wire protocols — are outside this
//! library's scope. What the assembler is answerable for is modeled here:
//! which subsystem holds which other, that each receives its handle to the
//! shared shutdown signal at construction, and what the network layer
//! records when the optional propagation subsystem registers.

use vstd::prelude::*;
use crate::exit::ExitSignal;
use crate::errors::InitializationError;
use crate::shared::share_arc;

verus! {

/// The persistent data store: the repository of canonical state, owned by
/// the subsystems that read and write it.
pub struct DataStore {
    /// The shutdown signal this subsystem observes.
    pub exit: ExitSignal,
}

impl DataStore {
    /// Construct the store; it receives its handle to the shared shutdown
    /// signal here.
    pub fn new(exit: &ExitSignal) -> (r: DataStore)
        ensures
            r.exit == *exit,
    {
        DataStore { exit: exit.handle() }
    }
}

/// The weak handle itself. A `std::sync::Weak` cannot stand in a verified
/// field, so this small holder is opaque.
#[verifier::external_body]
pub struct StoreWeak {
    weak: std::sync::Weak<DataStore>,
}

/// A non-owning reference to the data store.
///
/// The bundle returned by assembly must never be the reason the store stays
/// alive: its owners are the pool, the engine and the synchronization
/// service. Once all of those are dropped, [`DataStoreRef::resolve`] answers
/// `None` rather than extending the store's lifetime. Beside the opaque weak
/// handle the reference carries, as ghost state, the store it was taken
/// from, so that contracts can tie any resolved handle back to it.
pub struct DataStoreRef {
    /// The weak handle.
    pub inner: StoreWeak,
    /// The store this reference was taken from.
    pub referent: Ghost<DataStore>,
}

impl DataStoreRef {
    /// Whether this reference was taken from the given store.
    pub open spec fn refers_to(self, store: std::sync::Arc<DataStore>) -> bool {
        self.referent@ == store
    }

    /// The store behind an owning handle, as a spec value.
    pub open spec fn store_behind(store: &std::sync::Arc<DataStore>) -> DataStore {
        **store
    }

    /// Relies on `std::sync::Arc::downgrade`: the result refers to the given
    /// store without owning it, and does not change the strong count.
    #[verifier::external_body]
    fn downgrade(store: &std::sync::Arc<DataStore>) -> StoreWeak {
        StoreWeak { weak: std::sync::Arc::downgrade(store) }
    }

    /// Take a non-owning reference to the given store. The ghost referent
    /// is set to that store here, once; nothing ever reassigns it.
    pub fn new(store: &std::sync::Arc<DataStore>) -> (r: DataStoreRef)
        ensures
            r.refers_to(*store),
    {
        DataStoreRef {
            inner: Self::downgrade(store),
            referent: Ghost(Self::store_behind(store)),
        }
    }

    /// Relies on `std::sync::Weak::upgrade`: an owning handle comes back
    /// only while strong owners of the store remain — and is then a handle
    /// to the very store this reference was taken from — and `None` comes
    /// back once the store has been dropped. Which of the two it is depends
    /// on the live owners at the instant of the call, so no more is stated.
    #[verifier::external_body]
    pub fn resolve(&self) -> (r: Option<std::sync::Arc<DataStore>>)
        ensures
            r matches Some(s) ==> self.refers_to(s),
    {
        self.inner.weak.upgrade()
    }
}

/// The pending-work pool: holds units of work awaiting inclusion by the
/// engine. It is one of the store's owners.
pub struct TransactionPool {
    /// The shutdown signal this subsystem observes.
    pub exit: ExitSignal,
    /// The owning handle to the store whose state admitted work is judged
    /// against.
    pub data_store: std::sync::Arc<DataStore>,
}

impl TransactionPool {
    /// Construct the pool over the given store.
    pub fn new(exit: &ExitSignal, data_store: std::sync::Arc<DataStore>) -> (r: TransactionPool)
        ensures
            r.exit == *exit,
            r.data_store == data_store,
    {
        TransactionPool { exit: exit.handle(), data_store }
    }
}

/// The core processing engine: finalizes work order and state transitions.
/// It owns the store and the pool.
pub struct ConsensusEngine {
    /// The shutdown signal this subsystem observes.
    pub exit: ExitSignal,
    /// The owning handle to the store.
    pub data_store: std::sync::Arc<DataStore>,
    /// The pool the engine draws work from.
    pub txpool: std::sync::Arc<TransactionPool>,
}

impl ConsensusEngine {
    /// Construct the engine over the given store and pool.
    pub fn new(
        exit: &ExitSignal,
        data_store: std::sync::Arc<DataStore>,
        txpool: std::sync::Arc<TransactionPool>,
    ) -> (r: ConsensusEngine)
        ensures
            r.exit == *exit,
            r.data_store == data_store,
            r.txpool == txpool,
    {
        ConsensusEngine { exit: exit.handle(), data_store, txpool }
    }
}

/// The parameters of the test-only propagation subsystem, taken verbatim
/// from configuration when the propagation policy is satisfied.
#[derive(Clone, Copy, PartialEq, Eq, Structural, Debug)]
pub struct DataPropagation {
    /// Interval, in milliseconds, between injected rounds.
    pub interval_ms: u64,
    /// Size of each injected payload.
    pub size: usize,
}

impl DataPropagation {
    /// Construct the subsystem's description from the two configured
    /// parameters.
    pub fn new(interval_ms: u64, size: usize) -> (r: DataPropagation)
        ensures
            r.interval_ms == interval_ms,
            r.size == size,
    {
        DataPropagation { interval_ms, size }
    }
}

/// The network layer's registration surface: the handle against which the
/// optional propagation subsystem self-registers. It records every accepted
/// registration, in order.
pub struct NetworkService {
    /// The shutdown signal this subsystem observes.
    pub exit: ExitSignal,
    /// The propagation subsystems accepted so far, in registration order.
    pub registrations: Vec<DataPropagation>,
}

impl NetworkService {
    /// Construct the network layer with no registrations.
    pub fn new(exit: &ExitSignal) -> (r: NetworkService)
        ensures
            r.exit == *exit,
            r.registrations@ == Seq::<DataPropagation>::empty(),
    {
        NetworkService { exit: exit.handle(), registrations: Vec::new() }
    }

    /// Register a propagation subsystem. `accepted` is the network layer's
    /// verdict on the registration; on rejection the registration failure is
    /// surfaced, never swallowed, and the layer is unchanged.
    pub fn register_propagation(&mut self, dp: DataPropagation, accepted: bool) -> (r: Result<
        (),
        InitializationError,
    >)
        ensures
            accepted ==> r is Ok
                && final(self).registrations@ == old(self).registrations@.push(dp)
                && final(self).exit == old(self).exit,
            !accepted ==> (r matches Err(e)
                && e == InitializationError::OptionalSubsystemRegistrationFailure
                && *final(self) == *old(self)),
    {
        if accepted {
            self.registrations.push(dp);
            Ok(())
        } else {
            Err(InitializationError::OptionalSubsystemRegistrationFailure)
        }
    }
}

/// The synchronization service: keeps local state consistent with peers,
/// through the network layer. It owns the engine (and, through it, the
/// store).
pub struct SyncService {
    /// The shutdown signal this subsystem observes.
    pub exit: ExitSignal,
    /// The engine whose state is kept consistent.
    pub consensus: std::sync::Arc<ConsensusEngine>,
}

impl SyncService {
    /// Construct the service over the given engine.
    pub fn new(exit: &ExitSignal, consensus: std::sync::Arc<ConsensusEngine>) -> (r: SyncService)
        ensures
            r.exit == *exit,
            r.consensus == consensus,
    {
        SyncService { exit: exit.handle(), consensus }
    }
}

/// The background producer: generates new units of work, drawing on the
/// synchronization service and the engine.
pub struct BlockProducer {
    /// The shutdown signal this subsystem observes.
    pub exit: ExitSignal,
    /// The synchronization service new work is announced through.
    pub sync: std::sync::Arc<SyncService>,
    /// The engine whose state new work extends.
    pub consensus: std::sync::Arc<ConsensusEngine>,
}

impl BlockProducer {
    /// Construct the producer over the given service and engine.
    pub fn new(
        exit: &ExitSignal,
        sync: std::sync::Arc<SyncService>,
        consensus: std::sync::Arc<ConsensusEngine>,
    ) -> (r: BlockProducer)
        ensures
            r.exit == *exit,
            r.sync == sync,
            r.consensus == consensus,
    {
        BlockProducer { exit: exit.handle(), sync, consensus }
    }
}

/// Which protocol a network front-end speaks.
#[derive(Clone, Copy, PartialEq, Eq, Structural, Debug)]
pub enum FrontEndKind {
    /// The debug HTTP listener.
    DebugRpcHttp,
    /// The public HTTP listener.
    RpcHttp,
    /// The TCP listener.
    RpcTcp,
    /// The WebSocket listener.
    RpcWs,
}

/// A protocol-specific listener exposing the node's capabilities to
/// external callers. Each front-end is started independently, by its own
/// configuration flag.
pub struct FrontEnd {
    /// The protocol this listener speaks.
    pub kind: FrontEndKind,
    /// The shutdown signal this subsystem observes.
    pub exit: ExitSignal,
    /// The engine queries are answered from.
    pub consensus: std::sync::Arc<ConsensusEngine>,
    /// The pool submitted work is handed to.
    pub txpool: std::sync::Arc<TransactionPool>,
}

impl FrontEnd {
    /// Construct a front-end of the given kind over the engine and pool.
    pub fn new(
        kind: FrontEndKind,
        exit: &ExitSignal,
        consensus: &std::sync::Arc<ConsensusEngine>,
        txpool: &std::sync::Arc<TransactionPool>,
    ) -> (r: FrontEnd)
        ensures
            r.kind == kind,
            r.exit == *exit,
            r.consensus == *consensus,
            r.txpool == *txpool,
    {
        FrontEnd {
            kind,
            exit: exit.handle(),
            consensus: share_arc(consensus),
            txpool: share_arc(txpool),
        }
    }
}

/// The handle to the concurrency runtime that backs the front-ends and the
/// other background execution units.
pub struct RuntimeHandle {
    /// The shutdown signal the runtime's units observe.
    pub exit: ExitSignal,
}

impl RuntimeHandle {
    /// Construct the runtime handle.
    pub fn new(exit: &ExitSignal) -> (r: RuntimeHandle)
        ensures
            r.exit == *exit,
    {
        RuntimeHandle { exit: exit.handle() }
    }
}

} // verus!
