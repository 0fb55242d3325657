//! Assembles the complete configuration of a full node from a chain
//! specification, a base path, an execution handle and the ambient
//! environment.

use crate::chain_spec::{ChainSpec, ChainSpecView, TelemetryEndpoint, TelemetryEndpointView};
use crate::database::{database_config, database_source, DatabaseSource, DatabaseSourceView};
use crate::identity::{
    client_id,
    client_id_of,
    ends_in_number,
    generate_node_name,
    is_valid_node_name,
    NodeNameError,
};
use crate::network::{
    network_configuration,
    network_settings,
    IpAddress,
    NetworkConfiguration,
    NetworkConfigurationView,
    SocketAddress,
};
use crate::path::{NodePath, NodePathView};
use crate::policy::{
    ExecutionStrategies,
    ExecutionStrategy,
    KeepBlocks,
    KeystoreConfig,
    KeystoreConfigView,
    PruningMode,
    Role,
    RpcMethods,
    TracingReceiver,
    TransactionStorageMode,
    WasmExecutionMethod,
};
use tokio::runtime::Handle;
use vstd::prelude::*;

verus! {

/// The name under which this implementation presents itself.
pub const IMPL_NAME: &'static str = "Subspace-desktop";

/// The cache-size hint handed to the storage engine.
pub const DATABASE_CACHE_SIZE: usize = 1024;

/// The size of the state cache, in bytes.
pub const STATE_CACHE_SIZE: usize = 67_108_864;

/// How many instances of a runtime are kept ready at most.
pub const MAX_RUNTIME_INSTANCES: usize = 8;

/// How many runtimes are kept in the runtime cache.
pub const RUNTIME_CACHE_SIZE: u8 = 2;

/// The port of the WebSocket RPC listener.
pub const RPC_WS_PORT: u16 = 9944;

/// The environment variable that switches forced authoring on.
pub const FORCE_AUTHORING_VARIABLE: &'static str = "FORCE_AUTHORING";

/// The value of [`FORCE_AUTHORING_VARIABLE`] that switches forced authoring on.
pub const FORCE_AUTHORING_ON: &'static str = "1";

/// `tokio::runtime::Handle`, the handle of the asynchronous runtime on which
/// the node's tasks are spawned. The library carries it and never looks
/// inside.
#[verifier::external_type_specification]
#[verifier::external_body]
pub struct ExHandle(tokio::runtime::Handle);

/// What configuration takes from its surroundings rather than from its
/// arguments.
#[derive(Debug)]
pub struct Environment {
    /// The version string that the build stamped on this implementation.
    pub impl_version: String,
    /// The value of [`FORCE_AUTHORING_VARIABLE`], if it is set.
    pub force_authoring: Option<String>,
}

/// The mathematical value of an [`Environment`].
pub struct EnvironmentView {
    pub impl_version: Seq<char>,
    pub force_authoring: Option<Seq<char>>,
}

impl View for Environment {
    type V = EnvironmentView;

    open spec fn view(&self) -> EnvironmentView {
        EnvironmentView {
            impl_version: self.impl_version@,
            force_authoring: self.force_authoring.deep_view(),
        }
    }
}

/// The full configuration of a node. It is made once, by
/// [`create_configuration`], and handed to the node service as it is.
#[derive(Debug)]
pub struct Configuration {
    pub impl_name: String,
    pub impl_version: String,
    pub tokio_handle: Handle,
    pub network: NetworkConfiguration,
    pub keystore_remote: Option<String>,
    pub keystore: KeystoreConfig,
    pub database: DatabaseSource,
    pub state_cache_size: usize,
    pub state_cache_child_ratio: Option<usize>,
    pub state_pruning: PruningMode,
    pub keep_blocks: KeepBlocks,
    pub transaction_storage: TransactionStorageMode,
    pub wasm_method: WasmExecutionMethod,
    pub wasm_runtime_overrides: Option<NodePath>,
    pub execution_strategies: ExecutionStrategies,
    pub rpc_http: Option<SocketAddress>,
    pub rpc_ws: Option<SocketAddress>,
    pub rpc_ipc: Option<String>,
    pub rpc_methods: RpcMethods,
    pub rpc_ws_max_connections: Option<usize>,
    pub rpc_cors: Option<Vec<String>>,
    pub rpc_max_payload: Option<usize>,
    pub ws_max_out_buffer_capacity: Option<usize>,
    pub prometheus: Option<SocketAddress>,
    pub telemetry_endpoints: Option<Vec<TelemetryEndpoint>>,
    pub default_heap_pages: Option<u64>,
    pub force_authoring: bool,
    pub disable_grandpa: bool,
    pub dev_key_seed: Option<String>,
    pub tracing_targets: Option<String>,
    pub tracing_receiver: TracingReceiver,
    pub chain_spec: ChainSpec,
    pub max_runtime_instances: usize,
    pub announce_block: bool,
    pub role: Role,
    pub base_path: Option<NodePath>,
    pub runtime_cache_size: u8,
}

/// The mathematical value of a [`Configuration`].
pub struct ConfigurationView {
    pub impl_name: Seq<char>,
    pub impl_version: Seq<char>,
    pub tokio_handle: Handle,
    pub network: NetworkConfigurationView,
    pub keystore_remote: Option<Seq<char>>,
    pub keystore: KeystoreConfigView,
    pub database: DatabaseSourceView,
    pub state_cache_size: usize,
    pub state_cache_child_ratio: Option<usize>,
    pub state_pruning: PruningMode,
    pub keep_blocks: KeepBlocks,
    pub transaction_storage: TransactionStorageMode,
    pub wasm_method: WasmExecutionMethod,
    pub wasm_runtime_overrides: Option<NodePathView>,
    pub execution_strategies: ExecutionStrategies,
    pub rpc_http: Option<SocketAddress>,
    pub rpc_ws: Option<SocketAddress>,
    pub rpc_ipc: Option<Seq<char>>,
    pub rpc_methods: RpcMethods,
    pub rpc_ws_max_connections: Option<usize>,
    pub rpc_cors: Option<Seq<Seq<char>>>,
    pub rpc_max_payload: Option<usize>,
    pub ws_max_out_buffer_capacity: Option<usize>,
    pub prometheus: Option<SocketAddress>,
    pub telemetry_endpoints: Option<Seq<TelemetryEndpointView>>,
    pub default_heap_pages: Option<u64>,
    pub force_authoring: bool,
    pub disable_grandpa: bool,
    pub dev_key_seed: Option<Seq<char>>,
    pub tracing_targets: Option<Seq<char>>,
    pub tracing_receiver: TracingReceiver,
    pub chain_spec: ChainSpecView,
    pub max_runtime_instances: usize,
    pub announce_block: bool,
    pub role: Role,
    pub base_path: Option<NodePathView>,
    pub runtime_cache_size: u8,
}

impl View for Configuration {
    type V = ConfigurationView;

    open spec fn view(&self) -> ConfigurationView {
        ConfigurationView {
            impl_name: self.impl_name@,
            impl_version: self.impl_version@,
            tokio_handle: self.tokio_handle,
            network: self.network@,
            keystore_remote: self.keystore_remote.deep_view(),
            keystore: self.keystore@,
            database: self.database@,
            state_cache_size: self.state_cache_size,
            state_cache_child_ratio: self.state_cache_child_ratio,
            state_pruning: self.state_pruning,
            keep_blocks: self.keep_blocks,
            transaction_storage: self.transaction_storage,
            wasm_method: self.wasm_method,
            wasm_runtime_overrides: self.wasm_runtime_overrides.deep_view(),
            execution_strategies: self.execution_strategies,
            rpc_http: self.rpc_http,
            rpc_ws: self.rpc_ws,
            rpc_ipc: self.rpc_ipc.deep_view(),
            rpc_methods: self.rpc_methods,
            rpc_ws_max_connections: self.rpc_ws_max_connections,
            rpc_cors: self.rpc_cors.deep_view(),
            rpc_max_payload: self.rpc_max_payload,
            ws_max_out_buffer_capacity: self.ws_max_out_buffer_capacity,
            prometheus: self.prometheus,
            telemetry_endpoints: self.telemetry_endpoints.deep_view(),
            default_heap_pages: self.default_heap_pages,
            force_authoring: self.force_authoring,
            disable_grandpa: self.disable_grandpa,
            dev_key_seed: self.dev_key_seed.deep_view(),
            tracing_targets: self.tracing_targets.deep_view(),
            tracing_receiver: self.tracing_receiver,
            chain_spec: self.chain_spec@,
            max_runtime_instances: self.max_runtime_instances,
            announce_block: self.announce_block,
            role: self.role,
            base_path: self.base_path.deep_view(),
            runtime_cache_size: self.runtime_cache_size,
        }
    }
}

/// The directory that holds everything persisted for one chain: the base
/// path, then the chain's identifier.
pub open spec fn config_dir_of(base_path: NodePathView, chain_id: Seq<char>) -> NodePathView {
    base_path.join(chain_id)
}

/// Whether forced authoring is on: only when the variable is set, and set
/// to exactly [`FORCE_AUTHORING_ON`].
pub open spec fn force_authoring_of(flag: Option<Seq<char>>) -> bool {
    flag == Some(FORCE_AUTHORING_ON@)
}

/// The loopback socket on which the WebSocket RPC listens.
pub open spec fn rpc_ws_address() -> SocketAddress {
    SocketAddress { ip: IpAddress::V4(127, 0, 0, 1), port: RPC_WS_PORT }
}

/// The configuration that the given inputs determine, once a node name has
/// been generated.
pub open spec fn configuration_of(
    base_path: NodePathView,
    chain_spec: ChainSpecView,
    tokio_handle: Handle,
    environment: EnvironmentView,
    node_name: Seq<char>,
) -> ConfigurationView {
    let config_dir = config_dir_of(base_path, chain_spec.id);
    ConfigurationView {
        impl_name: IMPL_NAME@,
        impl_version: environment.impl_version,
        tokio_handle,
        network: network_settings(
            config_dir,
            node_name,
            client_id_of(IMPL_NAME@, environment.impl_version),
            chain_spec.boot_nodes,
        ),
        keystore_remote: None,
        keystore: KeystoreConfigView::InMemory,
        database: database_source(config_dir, DATABASE_CACHE_SIZE, Role::Authority),
        state_cache_size: STATE_CACHE_SIZE,
        state_cache_child_ratio: None,
        state_pruning: PruningMode::ArchiveAll,
        keep_blocks: KeepBlocks::All,
        transaction_storage: TransactionStorageMode::BlockBody,
        wasm_method: WasmExecutionMethod::Compiled,
        wasm_runtime_overrides: None,
        execution_strategies: ExecutionStrategies {
            syncing: ExecutionStrategy::AlwaysWasm,
            importing: ExecutionStrategy::AlwaysWasm,
            block_construction: ExecutionStrategy::AlwaysWasm,
            offchain_worker: ExecutionStrategy::AlwaysWasm,
            other: ExecutionStrategy::AlwaysWasm,
        },
        rpc_http: None,
        rpc_ws: Some(rpc_ws_address()),
        rpc_ipc: None,
        rpc_methods: RpcMethods::Unsafe,
        rpc_ws_max_connections: None,
        rpc_cors: None,
        rpc_max_payload: None,
        ws_max_out_buffer_capacity: None,
        prometheus: None,
        telemetry_endpoints: chain_spec.telemetry_endpoints,
        default_heap_pages: None,
        force_authoring: force_authoring_of(environment.force_authoring),
        disable_grandpa: false,
        dev_key_seed: None,
        tracing_targets: None,
        tracing_receiver: TracingReceiver::Log,
        chain_spec,
        max_runtime_instances: MAX_RUNTIME_INSTANCES,
        announce_block: true,
        role: Role::Authority,
        base_path: Some(base_path),
        runtime_cache_size: RUNTIME_CACHE_SIZE,
    }
}

/// Whether `configuration` is one that [`create_configuration`] may return
/// for the given inputs: its node name is valid and of the numbered form,
/// and everything else is what the inputs determine.
pub open spec fn is_created_from(
    configuration: ConfigurationView,
    base_path: NodePathView,
    chain_spec: ChainSpecView,
    tokio_handle: Handle,
    environment: EnvironmentView,
) -> bool {
    &&& is_valid_node_name(configuration.network.node_name)
    &&& ends_in_number(configuration.network.node_name)
    &&& configuration == configuration_of(
        base_path,
        chain_spec,
        tokio_handle,
        environment,
        configuration.network.node_name,
    )
}

/// Whether the only RPC listener is a WebSocket on a loopback address:
/// no HTTP listener, no IPC socket.
pub open spec fn binds_rpc_to_loopback_only(configuration: ConfigurationView) -> bool {
    &&& configuration.rpc_http is None
    &&& configuration.rpc_ipc is None
    &&& configuration.rpc_ws matches Some(address) && address.ip.is_loopback()
}

impl ConfigurationView {
    /// What holds of every configuration that this library hands out: the
    /// node name is short enough, the database cache has its fixed size,
    /// one execution strategy serves all five contexts, RPC is bound to
    /// loopback only, and no historical state is pruned.
    pub open spec fn is_well_formed(self) -> bool {
        &&& is_valid_node_name(self.network.node_name)
        &&& self.database.cache_size == DATABASE_CACHE_SIZE
        &&& self.execution_strategies.all_are(self.execution_strategies.syncing)
        &&& binds_rpc_to_loopback_only(self)
        &&& self.state_pruning == PruningMode::ArchiveAll
    }
}

/// The directory that holds everything persisted for one chain.
pub fn config_dir(base_path: &NodePath, chain_id: &str) -> (dir: NodePath)
    ensures
        dir@ == config_dir_of(base_path@, chain_id@),
{
    base_path.join(chain_id)
}

/// Reads the forced-authoring flag from the value of its variable.
pub fn force_authoring(flag: &Option<String>) -> (forced: bool)
    ensures
        forced == force_authoring_of(flag.deep_view()),
{
    match flag {
        None => false,
        Some(value) => {
            let on = FORCE_AUTHORING_ON.to_owned();
            *value == on
        },
    }
}

/// Assembles the configuration around a node name that was already chosen.
pub fn assemble_configuration(
    base_path: NodePath,
    chain_spec: ChainSpec,
    tokio_handle: Handle,
    environment: &Environment,
    node_name: String,
) -> (configuration: Configuration)
    ensures
        configuration@ == configuration_of(
            base_path@,
            chain_spec@,
            tokio_handle,
            environment@,
            node_name@,
        ),
        binds_rpc_to_loopback_only(configuration@),
        configuration@.execution_strategies.all_are(ExecutionStrategy::AlwaysWasm),
        is_valid_node_name(node_name@) ==> configuration@.is_well_formed(),
{
    let impl_name = IMPL_NAME.to_owned();
    let impl_version = environment.impl_version.clone();
    let config_dir = config_dir(&base_path, chain_spec.id.as_str());
    let client_id = client_id(IMPL_NAME, impl_version.as_str());
    let network = network_configuration(&config_dir, node_name, client_id, chain_spec.boot_nodes());
    let role = Role::Authority;
    let telemetry_endpoints = chain_spec.telemetry_endpoints();
    Configuration {
        impl_name,
        impl_version,
        tokio_handle,
        network,
        keystore_remote: None,
        keystore: KeystoreConfig::InMemory,
        database: database_config(&config_dir, DATABASE_CACHE_SIZE, &role),
        state_cache_size: STATE_CACHE_SIZE,
        state_cache_child_ratio: None,
        state_pruning: PruningMode::ArchiveAll,
        keep_blocks: KeepBlocks::All,
        transaction_storage: TransactionStorageMode::BlockBody,
        wasm_method: WasmExecutionMethod::Compiled,
        wasm_runtime_overrides: None,
        execution_strategies: ExecutionStrategies::uniform(ExecutionStrategy::AlwaysWasm),
        rpc_http: None,
        rpc_ws: Some(SocketAddress { ip: IpAddress::V4(127, 0, 0, 1), port: RPC_WS_PORT }),
        rpc_ipc: None,
        rpc_methods: RpcMethods::Unsafe,
        rpc_ws_max_connections: None,
        rpc_cors: None,
        rpc_max_payload: None,
        ws_max_out_buffer_capacity: None,
        prometheus: None,
        telemetry_endpoints,
        default_heap_pages: None,
        force_authoring: force_authoring(&environment.force_authoring),
        disable_grandpa: false,
        dev_key_seed: None,
        tracing_targets: None,
        tracing_receiver: TracingReceiver::Log,
        chain_spec,
        max_runtime_instances: MAX_RUNTIME_INSTANCES,
        announce_block: true,
        role,
        base_path: Some(base_path),
        runtime_cache_size: RUNTIME_CACHE_SIZE,
    }
}

/// Creates the configuration of the node: generates a node name and
/// assembles the configuration around it. Whether a name is generated is
/// left to chance; a configuration that is returned is the one that the
/// inputs determine around the name.
pub fn create_configuration(
    base_path: NodePath,
    chain_spec: ChainSpec,
    tokio_handle: Handle,
    environment: &Environment,
) -> (created: Result<Configuration, NodeNameError>)
    ensures
        created matches Ok(configuration) ==> {
            &&& is_created_from(configuration@, base_path@, chain_spec@, tokio_handle, environment@)
            &&& configuration@.is_well_formed()
            &&& binds_rpc_to_loopback_only(configuration@)
            &&& configuration@.execution_strategies.all_are(ExecutionStrategy::AlwaysWasm)
        },
{
    match generate_node_name() {
        Ok(node_name) => Ok(
            assemble_configuration(base_path, chain_spec, tokio_handle, environment, node_name),
        ),
        Err(error) => Err(error),
    }
}

/// Creating the configuration is deterministic but for the node name,
/// which is drawn at random: two configurations created from the same
/// inputs differ in nothing else, and are the same field for field where
/// the same name was drawn.
pub proof fn lemma_configuration_is_deterministic(
    first: ConfigurationView,
    second: ConfigurationView,
    base_path: NodePathView,
    chain_spec: ChainSpecView,
    tokio_handle: Handle,
    environment: EnvironmentView,
)
    requires
        is_created_from(first, base_path, chain_spec, tokio_handle, environment),
        is_created_from(second, base_path, chain_spec, tokio_handle, environment),
    ensures
        first == (ConfigurationView {
            network: NetworkConfigurationView {
                node_name: first.network.node_name,
                ..second.network
            },
            ..second
        }),
        first.network.node_name == second.network.node_name ==> first == second,
{
}

/// Whatever the inputs, the configuration offers RPC on the loopback
/// WebSocket at [`RPC_WS_PORT`] and nowhere else, all methods included,
/// without a limit on origins, payloads or connections.
pub proof fn lemma_rpc_is_loopback_only(
    base_path: NodePathView,
    chain_spec: ChainSpecView,
    tokio_handle: Handle,
    environment: EnvironmentView,
    node_name: Seq<char>,
)
    ensures
        ({
            let configuration = configuration_of(
                base_path,
                chain_spec,
                tokio_handle,
                environment,
                node_name,
            );
            &&& binds_rpc_to_loopback_only(configuration)
            &&& configuration.rpc_ws == Some(
                SocketAddress { ip: IpAddress::V4(127, 0, 0, 1), port: RPC_WS_PORT },
            )
            &&& configuration.rpc_methods == RpcMethods::Unsafe
            &&& configuration.rpc_cors is None
            &&& configuration.rpc_max_payload is None
            &&& configuration.rpc_ws_max_connections is None
        }),
{
}

/// Whatever the inputs, the configuration runs the runtime in the virtual
/// machine in all five contexts, never as native code, and keeps the whole
/// history: the node is an authority, prunes no state and drops no block
/// body.
pub proof fn lemma_execution_and_retention_are_fixed(
    base_path: NodePathView,
    chain_spec: ChainSpecView,
    tokio_handle: Handle,
    environment: EnvironmentView,
    node_name: Seq<char>,
)
    ensures
        ({
            let configuration = configuration_of(
                base_path,
                chain_spec,
                tokio_handle,
                environment,
                node_name,
            );
            &&& configuration.execution_strategies.all_are(ExecutionStrategy::AlwaysWasm)
            &&& configuration.wasm_method == WasmExecutionMethod::Compiled
            &&& configuration.role == Role::Authority
            &&& configuration.state_pruning == PruningMode::ArchiveAll
            &&& configuration.keep_blocks == KeepBlocks::All
            &&& configuration.transaction_storage == TransactionStorageMode::BlockBody
            &&& configuration.database.cache_size == DATABASE_CACHE_SIZE
            &&& configuration.network.client_version == client_id_of(
                IMPL_NAME@,
                environment.impl_version,
            )
        }),
{
}

} // verus!
