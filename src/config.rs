use vstd::prelude::*;
use crate::error::CliError;
use crate::ids::{ObjectId, ObjectRef};

verus! {

/// The on-chain objects of a Nexus deployment that commands work with.
#[derive(Clone, Copy, Debug, PartialEq, Eq, Structural)]
pub struct NexusObjects {
    pub workflow_pkg_id: ObjectId,
    pub primitives_pkg_id: ObjectId,
    pub interface_pkg_id: ObjectId,
    pub network_id: ObjectId,
    pub tool_registry: ObjectRef,
    pub default_sap: ObjectRef,
    pub gas_service: ObjectRef,
}

/// The Nexus objects of the configuration, which a command cannot do without.
pub fn require_nexus_objects(objects: Option<NexusObjects>) -> (r: Result<NexusObjects, CliError>)
    ensures
        r == match objects {
            Some(o) => Ok(o),
            None => Err(CliError::ConfigurationMissing),
        },
{
    match objects {
        Some(o) => Ok(o),
        None => Err(CliError::ConfigurationMissing),
    }
}

} // verus!
