//! Plain response records of the service client contract, and the
//! adapters that turn a raw call result into the record a caller sees.

use vstd::prelude::*;

use crate::errors::ServiceError;

verus! {

/// Response of a `generate_code` call, as the worker loops consume it.
/// An empty `code` together with a non-empty `message` records a failed
/// call.
#[derive(Clone, Debug)]
pub struct GenerateCodeResp {
    pub code: String,
    pub message: String,
}

/// Response of a `provision_by_code` call. `success == false` means
/// "not yet redeemed", not an error.
#[derive(Clone, Debug)]
pub struct ProvisioningStatusResponse {
    pub success: bool,
    pub message: String,
}

/// Response of a `ping` call. `code == "success"` signals that the agent
/// is ready; any other value signals "reachable but not ready".
#[derive(Clone, Debug)]
pub struct PingResponse {
    pub code: String,
    pub message: String,
}

/// Folds the raw result of a `generate_code` call into one record: the
/// issued code on success, an empty code and the error's message on
/// failure.
pub fn to_generate_code_resp(result: Result<String, ServiceError>) -> (r: GenerateCodeResp)
    ensures
        result matches Ok(code) ==> r.code@ == code@ && r.message@ == Seq::<char>::empty(),
        result matches Err(e) ==> r.code@ == Seq::<char>::empty() && r.message@ == e.message@,
{
    match result {
        Ok(code) => GenerateCodeResp { code, message: String::new() },
        Err(e) => GenerateCodeResp { code: String::new(), message: e.message },
    }
}

/// Folds the raw result of a `provision_by_code` call into one record:
/// the agent's own success flag, or `false` with the error's message on a
/// failed call.
pub fn to_provisioning_status_response(result: Result<bool, ServiceError>) -> (r:
    ProvisioningStatusResponse)
    ensures
        result matches Ok(success) ==> r.success == success && r.message@ == Seq::<char>::empty(),
        result matches Err(e) ==> r.success == false && r.message@ == e.message@,
{
    match result {
        Ok(success) => ProvisioningStatusResponse { success, message: String::new() },
        Err(e) => ProvisioningStatusResponse { success: false, message: e.message },
    }
}

} // verus!
