//! The errors assembly can surface.

use vstd::prelude::*;

verus! {

/// The construction steps of assembly, in the order they are attempted.
#[derive(Clone, Copy, PartialEq, Eq, Structural, Debug)]
pub enum SubsystemId {
    /// The persistent data store.
    DataStore,
    /// The pending-work pool.
    TransactionPool,
    /// The core processing engine.
    ConsensusEngine,
    /// The network synchronization service.
    SyncService,
    /// The background producer.
    BlockProducer,
    /// The debug HTTP front-end.
    DebugRpcHttpServer,
    /// The public HTTP front-end.
    RpcHttpServer,
    /// The TCP front-end.
    RpcTcpServer,
    /// The WebSocket front-end.
    RpcWsServer,
}

impl SubsystemId {
    /// A human-readable name for the step.
    pub fn name(&self) -> (r: &'static str)
        ensures
            r@ == self.name_spec(),
    {
        match self {
            SubsystemId::DataStore => "data store",
            SubsystemId::TransactionPool => "transaction pool",
            SubsystemId::ConsensusEngine => "consensus engine",
            SubsystemId::SyncService => "synchronization service",
            SubsystemId::BlockProducer => "block producer",
            SubsystemId::DebugRpcHttpServer => "debug HTTP front-end",
            SubsystemId::RpcHttpServer => "HTTP front-end",
            SubsystemId::RpcTcpServer => "TCP front-end",
            SubsystemId::RpcWsServer => "WebSocket front-end",
        }
    }

    /// The name of the step, as a sequence of characters.
    pub open spec fn name_spec(self) -> Seq<char> {
        match self {
            SubsystemId::DataStore => "data store"@,
            SubsystemId::TransactionPool => "transaction pool"@,
            SubsystemId::ConsensusEngine => "consensus engine"@,
            SubsystemId::SyncService => "synchronization service"@,
            SubsystemId::BlockProducer => "block producer"@,
            SubsystemId::DebugRpcHttpServer => "debug HTTP front-end"@,
            SubsystemId::RpcHttpServer => "HTTP front-end"@,
            SubsystemId::RpcTcpServer => "TCP front-end"@,
            SubsystemId::RpcWsServer => "WebSocket front-end"@,
        }
    }
}

/// Why assembly failed. The first failing step aborts the remaining
/// sequence, so one error describes the whole attempt.
#[derive(Clone, Copy, PartialEq, Eq, Structural, Debug)]
pub enum InitializationError {
    /// A required subsystem, or a requested front-end, failed to construct.
    SubsystemInitializationFailure(SubsystemId),
    /// The optional propagation subsystem failed to register against the
    /// network layer.
    OptionalSubsystemRegistrationFailure,
}

impl InitializationError {
    /// Which step the message below names.
    pub open spec fn message_spec(self) -> Seq<char> {
        match self {
            InitializationError::SubsystemInitializationFailure(id) => id.name_spec(),
            InitializationError::OptionalSubsystemRegistrationFailure => "propagation registration"@,
        }
    }

    /// A human-readable description naming the step that failed.
    pub fn message(&self) -> (r: &'static str)
        ensures
            r@ == self.message_spec(),
    {
        match self {
            InitializationError::SubsystemInitializationFailure(id) => id.name(),
            InitializationError::OptionalSubsystemRegistrationFailure => "propagation registration",
        }
    }
}

} // verus!
