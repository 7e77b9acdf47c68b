use vstd::prelude::*;
use crate::codec::{
    decode_activation_response, encode_activation, encode_deactivation, spec_encodable,
    spec_encode_activation,
};
use crate::constants::{
    ACTIVATE_HORN_RESOURCE_ID, DEACTIVATE_HORN_RESOURCE_ID, HORN_SERVICE_ENTITY_ID,
    HORN_SERVICE_MAJOR_VERSION, RPC_CALL_TIMEOUT_MS,
};
use crate::constants::horn_service_authority_name;
use crate::horn_requests::{
    create_deactivate_horn_request, get_prebuilt_activation_request, spec_prebuilt_cycles,
    spec_prebuilt_mode, ActivateHornRequest, PrebuiltHornRequests,
};

verus! {

// The client translates a desired horn behavior into one bounded remote
// call and interprets its outcome. The transport itself lives at the
// process boundary: this module prepares each call (address, timeout,
// framed payload) and concludes from whatever the transport brought back.
/// Identifies one remote method: the service's network location and the
/// method's resource within it, as plain values.
#[derive(Clone, PartialEq, Eq, Debug)]
pub struct ResourceIdentity {
    pub authority_name: String,
    pub entity_id: u32,
    pub major_version: u8,
    pub resource_id: u16,
}

/// The horn service's process-wide identity with a given method resource.
pub fn horn_resource_identity(resource_id: u16) -> (id: ResourceIdentity)
    ensures
        id.authority_name@ == "horn-service-kuksa"@,
        id.entity_id == HORN_SERVICE_ENTITY_ID,
        id.major_version == HORN_SERVICE_MAJOR_VERSION,
        id.resource_id == resource_id,
{
    ResourceIdentity {
        authority_name: horn_service_authority_name().to_owned(),
        entity_id: HORN_SERVICE_ENTITY_ID,
        major_version: HORN_SERVICE_MAJOR_VERSION,
        resource_id,
    }
}

/// Which confirmation a call site expects from the remote service: an
/// activation is fire-and-forget, a deactivation must confirm.
#[derive(Clone, Copy, PartialEq, Eq, Structural, Debug)]
pub enum CallPolicy {
    FireAndForget,
    ConfirmRequired,
}

/// What one remote call came back with: a response payload, an empty
/// response, or a transport/application failure (with its description for
/// the logs).
#[derive(Clone, PartialEq, Eq, Debug)]
pub enum RpcOutcome {
    Response(Vec<u8>),
    Empty,
    Failure(String),
}

/// How an outcome is surfaced in the logs.
#[derive(Clone, Copy, PartialEq, Eq, Structural, Debug)]
pub enum LogSeverity {
    Info,
    Error,
}

/// The failures a call can report to its caller.
#[derive(Clone, Copy, PartialEq, Eq, Structural, Debug)]
pub enum ClientError {
    MalformedResponse,
}

/// What a concluded call hands back: the result its caller sees and the
/// severity under which the outcome is logged.
#[derive(PartialEq, Eq, Debug)]
pub struct CallReport {
    pub result: Result<(), ClientError>,
    pub severity: LogSeverity,
}

/// The severity an outcome is logged under, given the call site's policy: a
/// failure is always an error, and a missing payload is an error exactly
/// where confirmation is required.
pub open spec fn spec_outcome_severity(policy: CallPolicy, outcome: RpcOutcome) -> LogSeverity {
    match outcome {
        RpcOutcome::Response(_) => LogSeverity::Info,
        RpcOutcome::Empty => if policy == CallPolicy::ConfirmRequired {
            LogSeverity::Error
        } else {
            LogSeverity::Info
        },
        RpcOutcome::Failure(_) => LogSeverity::Error,
    }
}

/// The policy attached to the activation call site: activation failures
/// are non-fatal to the calling sequence.
pub fn activation_policy() -> (p: CallPolicy)
    ensures
        p == CallPolicy::FireAndForget,
{
    CallPolicy::FireAndForget
}

/// The policy attached to the deactivation call site: the service is
/// expected to confirm a deactivation.
pub fn deactivation_policy() -> (p: CallPolicy)
    ensures
        p == CallPolicy::ConfirmRequired,
{
    CallPolicy::ConfirmRequired
}

/// Everything the process boundary needs to issue one remote call: the
/// method's resource identity, the fixed timeout, and the framed payload.
#[derive(Clone, PartialEq, Eq, Debug)]
pub struct PreparedCall {
    pub resource: ResourceIdentity,
    pub timeout_ms: u32,
    pub payload: Vec<u8>,
}

/// Whether an activation request's lists fit the frame's 32-bit counts.
pub fn is_encodable(r: &ActivateHornRequest) -> (b: bool)
    ensures
        b == spec_encodable(r.cycles()),
{
    if r.command.len() > u32::MAX as usize {
        proof {
            assert(!spec_encodable(r.cycles()));
        }
        return false;
    }
    let mut i: usize = 0;
    while i < r.command.len()
        invariant
            i <= r.command.len(),
            r.cycles().len() == r.command.len() <= u32::MAX,
            forall|k: int| 0 <= k < i ==> (#[trigger] r.cycles()[k]).len() <= u32::MAX,
        decreases r.command.len() - i,
    {
        if r.command[i].horn_cycles.len() > u32::MAX as usize {
            proof {
                assert(r.cycles()[i as int].len() > u32::MAX);
            }
            return false;
        }
        i = i + 1;
    }
    true
}

/// Prepares the remote call that asks the horn service to activate the horn
/// with the given behavior: the activation method's identity, the fixed
/// timeout, and the request framed as payload bytes.
pub fn prepare_activation_call(request: &ActivateHornRequest) -> (c: PreparedCall)
    requires
        spec_encodable(request.cycles()),
    ensures
        c.resource.authority_name@ == "horn-service-kuksa"@,
        c.resource.entity_id == HORN_SERVICE_ENTITY_ID,
        c.resource.major_version == HORN_SERVICE_MAJOR_VERSION,
        c.resource.resource_id == ACTIVATE_HORN_RESOURCE_ID,
        c.timeout_ms == RPC_CALL_TIMEOUT_MS,
        c.payload@ == spec_encode_activation(request.mode, request.cycles()),
{
    PreparedCall {
        resource: horn_resource_identity(ACTIVATE_HORN_RESOURCE_ID),
        timeout_ms: RPC_CALL_TIMEOUT_MS,
        payload: encode_activation(request),
    }
}

/// Prepares an activation call like `prepare_activation_call`, but checks
/// the frame limits itself: a request whose lists do not fit the frame's
/// counts is refused instead of assumed away.
pub fn try_prepare_activation_call(request: &ActivateHornRequest) -> (r: Option<PreparedCall>)
    ensures
        spec_encodable(request.cycles()) ==> (r matches Some(c)
            && c.resource.authority_name@ == "horn-service-kuksa"@
            && c.resource.entity_id == HORN_SERVICE_ENTITY_ID
            && c.resource.major_version == HORN_SERVICE_MAJOR_VERSION
            && c.resource.resource_id == ACTIVATE_HORN_RESOURCE_ID
            && c.timeout_ms == RPC_CALL_TIMEOUT_MS
            && c.payload@ == spec_encode_activation(request.mode, request.cycles())),
        !spec_encodable(request.cycles()) ==> r is None,
{
    if is_encodable(request) {
        Some(prepare_activation_call(request))
    } else {
        None
    }
}

/// Prepares the activation call for one of the canned patterns, composing
/// the request builder and `prepare_activation_call`.
pub fn prepare_prebuilt_activation_call(request_type: PrebuiltHornRequests) -> (c: PreparedCall)
    ensures
        c.resource.authority_name@ == "horn-service-kuksa"@,
        c.resource.entity_id == HORN_SERVICE_ENTITY_ID,
        c.resource.major_version == HORN_SERVICE_MAJOR_VERSION,
        c.resource.resource_id == ACTIVATE_HORN_RESOURCE_ID,
        c.timeout_ms == RPC_CALL_TIMEOUT_MS,
        c.payload@ == spec_encode_activation(
            spec_prebuilt_mode(request_type),
            spec_prebuilt_cycles(request_type),
        ),
{
    let request = get_prebuilt_activation_request(request_type);
    prepare_activation_call(&request)
}

/// Prepares the remote call that asks the horn service to deactivate the
/// horn: the deactivation method's identity, the fixed timeout, and the
/// (empty) deactivation frame.
pub fn prepare_deactivation_call() -> (c: PreparedCall)
    ensures
        c.resource.authority_name@ == "horn-service-kuksa"@,
        c.resource.entity_id == HORN_SERVICE_ENTITY_ID,
        c.resource.major_version == HORN_SERVICE_MAJOR_VERSION,
        c.resource.resource_id == DEACTIVATE_HORN_RESOURCE_ID,
        c.timeout_ms == RPC_CALL_TIMEOUT_MS,
        c.payload@ == Seq::<u8>::empty(),
{
    let request = create_deactivate_horn_request();
    PreparedCall {
        resource: horn_resource_identity(DEACTIVATE_HORN_RESOURCE_ID),
        timeout_ms: RPC_CALL_TIMEOUT_MS,
        payload: encode_deactivation(&request),
    }
}

/// Concludes an activation call from its outcome. Activation is
/// fire-and-forget: an empty response and even a failed call still report
/// success to the caller (a controller firing a horn command does not halt
/// on one failed attempt), with the failure surfaced in the logs only. Only
/// a response payload that does not decode as the activation response is a
/// caller-visible error.
pub fn conclude_activation(outcome: &RpcOutcome) -> (r: CallReport)
    ensures
        match *outcome {
            RpcOutcome::Response(ref b) => if b@.len() == 0 {
                r.result == Ok::<(), ClientError>(()) && r.severity == LogSeverity::Info
            } else {
                r.result == Err::<(), ClientError>(ClientError::MalformedResponse) && r.severity
                    == LogSeverity::Error
            },
            RpcOutcome::Empty => r.result == Ok::<(), ClientError>(()) && r.severity
                == LogSeverity::Info,
            RpcOutcome::Failure(_) => r.result == Ok::<(), ClientError>(()) && r.severity
                == LogSeverity::Error,
        },
        !(*outcome matches RpcOutcome::Response(_)) ==> r.severity == spec_outcome_severity(
            CallPolicy::FireAndForget,
            *outcome,
        ),
{
    match outcome {
        RpcOutcome::Response(b) => match decode_activation_response(b) {
            Ok(_) => CallReport { result: Ok(()), severity: LogSeverity::Info },
            Err(_) => CallReport {
                result: Err(ClientError::MalformedResponse),
                severity: LogSeverity::Error,
            },
        },
        RpcOutcome::Empty => CallReport { result: Ok(()), severity: LogSeverity::Info },
        RpcOutcome::Failure(_) => CallReport { result: Ok(()), severity: LogSeverity::Error },
    }
}

/// Concludes a deactivation call from its outcome. Every outcome reports
/// success to the caller; but deactivation expects a confirmation, so an
/// empty response is logged as an error, unlike for activation.
pub fn conclude_deactivation(outcome: &RpcOutcome) -> (r: CallReport)
    ensures
        r.result == Ok::<(), ClientError>(()),
        r.severity == spec_outcome_severity(CallPolicy::ConfirmRequired, *outcome),
{
    match outcome {
        RpcOutcome::Response(_) => CallReport { result: Ok(()), severity: LogSeverity::Info },
        RpcOutcome::Empty => CallReport { result: Ok(()), severity: LogSeverity::Error },
        RpcOutcome::Failure(_) => CallReport { result: Ok(()), severity: LogSeverity::Error },
    }
}

} // verus!
