//! What the node service is asked for when a full client is created.

use crate::bootstrap::BootstrapGuard;
use crate::chain_spec::ChainSpec;
use crate::configuration::{
    binds_rpc_to_loopback_only,
    create_configuration,
    is_created_from,
    Configuration,
    Environment,
};
use crate::identity::NodeNameError;
use crate::path::NodePath;
use crate::policy::{ExecutionStrategy, Role};
use tokio::runtime::Handle;
use vstd::prelude::*;

verus! {

/// A full client always asks the node service to produce blocks.
pub const ENABLE_BLOCK_PRODUCTION: bool = true;

/// The request that is handed to the node service's constructor.
#[derive(Debug)]
pub struct FullClientRequest {
    /// The configuration of the node.
    pub configuration: Configuration,
    /// Whether the node is to take part in block production.
    pub enable_block_production: bool,
}

/// Prepares the creation of a full client below `base_path`, in a process
/// that `guard` has seen initialised: creates the configuration and asks for
/// a node that is an authority and produces blocks. Whether a node name is
/// generated is left to chance; a request that is returned holds the
/// configuration that the inputs determine around the name. Whatever the
/// node service answers to the request is for the caller to pass on
/// unchanged.
pub fn full_client_request(
    guard: &BootstrapGuard,
    chain_spec: ChainSpec,
    base_path: NodePath,
    tokio_handle: Handle,
    environment: &Environment,
) -> (prepared: Result<FullClientRequest, NodeNameError>)
    requires
        guard.completed(),
    ensures
        prepared matches Ok(request) ==> {
            &&& request.enable_block_production
            &&& request.configuration@.role == Role::Authority
            &&& is_created_from(
                request.configuration@,
                base_path@,
                chain_spec@,
                tokio_handle,
                environment@,
            )
            &&& request.configuration@.is_well_formed()
            &&& binds_rpc_to_loopback_only(request.configuration@)
            &&& request.configuration@.execution_strategies.all_are(ExecutionStrategy::AlwaysWasm)
        },
{
    match create_configuration(base_path, chain_spec, tokio_handle, environment) {
        Ok(configuration) => Ok(
            FullClientRequest { configuration, enable_block_production: ENABLE_BLOCK_PRODUCTION },
        ),
        Err(error) => Err(error),
    }
}

} // verus!
