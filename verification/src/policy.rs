//! The policy choices a node configuration is made of. Each is a plain
//! value; the configuration assembler picks one of each.

use crate::path::{NodePath, NodePathView};
use vstd::prelude::*;

verus! {

/// The part a node plays in the network.
#[derive(Clone, Copy, Debug, PartialEq, Eq, Structural)]
pub enum Role {
    /// Keeps the full state and validates blocks.
    Full,
    /// Keeps block headers only.
    Light,
    /// A full node that also takes part in block production.
    Authority,
}

/// Where signing keys are kept.
#[derive(Debug)]
pub enum KeystoreConfig {
    /// Keys are stored in this directory.
    Path(NodePath),
    /// Keys live in memory and are gone when the process ends.
    InMemory,
}

/// The mathematical value of a [`KeystoreConfig`].
pub enum KeystoreConfigView {
    Path(NodePathView),
    InMemory,
}

impl View for KeystoreConfig {
    type V = KeystoreConfigView;

    open spec fn view(&self) -> KeystoreConfigView {
        match self {
            KeystoreConfig::Path(path) => KeystoreConfigView::Path(path@),
            KeystoreConfig::InMemory => KeystoreConfigView::InMemory,
        }
    }
}

/// How much historical state is retained.
#[derive(Clone, Copy, Debug, PartialEq, Eq, Structural)]
pub enum PruningMode {
    /// Every state of every block is kept.
    ArchiveAll,
    /// The states of finalized blocks are kept.
    ArchiveCanonical,
    /// Only the states of the most recent blocks are kept.
    Constrained { max_blocks: u32 },
}

/// How many block bodies are retained.
#[derive(Clone, Copy, Debug, PartialEq, Eq, Structural)]
pub enum KeepBlocks {
    /// All of them.
    All,
    /// The bodies of the last finalized blocks, this many.
    Latest(u32),
}

/// What is stored for a transaction.
#[derive(Clone, Copy, Debug, PartialEq, Eq, Structural)]
pub enum TransactionStorageMode {
    /// Transactions are stored with the block body they came in.
    BlockBody,
    /// Transactions are stored one by one, counted by reference.
    StorageChain,
}

/// How the runtime's virtual-machine code is run.
#[derive(Clone, Copy, Debug, PartialEq, Eq, Structural)]
pub enum WasmExecutionMethod {
    /// Step by step, by an interpreter.
    Interpreted,
    /// Compiled to machine code first.
    Compiled,
}

/// Whether the state transition runs as native code or in the virtual
/// machine.
#[derive(Clone, Copy, Debug, PartialEq, Eq, Structural)]
pub enum ExecutionStrategy {
    /// Native code where its version matches, the virtual machine otherwise.
    NativeWhenPossible,
    /// The virtual machine only, never native code.
    AlwaysWasm,
    /// Both, with the results compared.
    Both,
    /// Native code first, the virtual machine where that fails.
    NativeElseWasm,
}

/// One execution strategy for each context in which the runtime is called.
#[derive(Clone, Copy, Debug, PartialEq, Eq, Structural)]
pub struct ExecutionStrategies {
    pub syncing: ExecutionStrategy,
    pub importing: ExecutionStrategy,
    pub block_construction: ExecutionStrategy,
    pub offchain_worker: ExecutionStrategy,
    pub other: ExecutionStrategy,
}

impl ExecutionStrategies {
    /// Whether all five contexts use `strategy`.
    pub open spec fn all_are(self, strategy: ExecutionStrategy) -> bool {
        &&& self.syncing == strategy
        &&& self.importing == strategy
        &&& self.block_construction == strategy
        &&& self.offchain_worker == strategy
        &&& self.other == strategy
    }

    /// The same strategy in every context.
    pub fn uniform(strategy: ExecutionStrategy) -> (strategies: ExecutionStrategies)
        ensures
            strategies.all_are(strategy),
    {
        ExecutionStrategies {
            syncing: strategy,
            importing: strategy,
            block_construction: strategy,
            offchain_worker: strategy,
            other: strategy,
        }
    }
}

/// Which RPC methods are offered.
#[derive(Clone, Copy, Debug, PartialEq, Eq, Structural)]
pub enum RpcMethods {
    /// Privileged methods only when the listener is not reachable from outside.
    Auto,
    /// Never the privileged methods.
    Safe,
    /// All methods, the privileged ones included.
    Unsafe,
}

/// Where tracing output goes.
#[derive(Clone, Copy, Debug, PartialEq, Eq, Structural)]
pub enum TracingReceiver {
    /// To the log.
    Log,
}

} // verus!
