use vstd::prelude::*;

verus! {

// See the uProtocol specification to learn what these values represent:
// an RPC method is addressed by the tuple
// (authority name, entity id, entity major version, resource id).
/// The expected ID of the horn service's software component.
pub const HORN_SERVICE_ENTITY_ID: u32 = 28;

/// The major version of the horn service's interface.
pub const HORN_SERVICE_MAJOR_VERSION: u8 = 1;

/// The resource identifier of the horn service's "activate horn" method.
pub const ACTIVATE_HORN_RESOURCE_ID: u16 = 0x0001;

/// The resource identifier of the horn service's "deactivate horn" method.
pub const DEACTIVATE_HORN_RESOURCE_ID: u16 = 0x0002;

/// The fixed timeout, in milliseconds, bounding every remote horn call.
pub const RPC_CALL_TIMEOUT_MS: u32 = 1000;

/// The expected name of the deployed network location/domain that the horn
/// service lives on.
pub fn horn_service_authority_name() -> (r: &'static str)
    ensures
        r@ == "horn-service-kuksa"@,
{
    "horn-service-kuksa"
}

} // verus!
