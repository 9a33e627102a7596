//! Machine-info fetch flow.
//!
//! A simpler, sequential request/response flow: the machine id is asked
//! of the identity service, then the machine's display name and icon of
//! the settings service, each under a fixed settings key. The calls live
//! outside the library; each answer is folded into the state below, and
//! a failed call leaves its field as it was.

use vstd::prelude::*;

use crate::errors::ServiceError;

verus! {

/// What is known about the machine so far: each field is filled by one
/// successful service call.
#[derive(Clone, Debug)]
pub struct MachineInfoHandler {
    pub machine_id: Option<String>,
    pub name: Option<String>,
    pub icon: Option<String>,
}

/// A failure of the machine-info flow, as shown to the user: a message
/// and the agent's error code.
#[derive(Clone, Debug)]
pub struct MachineInfoError {
    pub error_message: String,
    pub error_code: String,
}

impl MachineInfoHandler {
    /// Nothing is known yet.
    pub fn new() -> (s: Self)
        ensures
            s.machine_id is None,
            s.name is None,
            s.icon is None,
    {
        MachineInfoHandler { machine_id: None, name: None, icon: None }
    }

    /// Folds the answer of the `get_machine_id` call in: a successful
    /// answer is stored, a failed one leaves the field unchanged and is
    /// not surfaced.
    pub fn apply_machine_id(&mut self, response: Result<String, ServiceError>)
        ensures
            response matches Ok(v) ==> final(self).machine_id == Some(v),
            response is Err ==> final(self).machine_id == old(self).machine_id,
            final(self).name == old(self).name,
            final(self).icon == old(self).icon,
    {
        if let Ok(v) = response {
            self.machine_id = Some(v);
        }
    }

    /// Folds the answer of the `get_settings` call for the machine's
    /// display name in, like `apply_machine_id`.
    pub fn apply_name(&mut self, response: Result<String, ServiceError>)
        ensures
            response matches Ok(v) ==> final(self).name == Some(v),
            response is Err ==> final(self).name == old(self).name,
            final(self).machine_id == old(self).machine_id,
            final(self).icon == old(self).icon,
    {
        if let Ok(v) = response {
            self.name = Some(v);
        }
    }

    /// Folds the answer of the `get_settings` call for the machine's
    /// icon in, like `apply_machine_id`.
    pub fn apply_icon(&mut self, response: Result<String, ServiceError>)
        ensures
            response matches Ok(v) ==> final(self).icon == Some(v),
            response is Err ==> final(self).icon == old(self).icon,
            final(self).machine_id == old(self).machine_id,
            final(self).name == old(self).name,
    {
        if let Ok(v) = response {
            self.icon = Some(v);
        }
    }
}

impl MachineInfoError {
    pub fn new(error_message: String, error_code: String) -> (e: Self)
        ensures
            e.error_message@ == error_message@,
            e.error_code@ == error_code@,
    {
        MachineInfoError { error_message, error_code }
    }
}

/// The settings key under which the machine's display name is stored.
pub fn machine_name_key() -> (s: String)
    ensures
        s@ == "identity.machine.name"@,
{
    "identity.machine.name".to_owned()
}

/// The settings key under which the machine's icon is stored.
pub fn machine_icon_key() -> (s: String)
    ensures
        s@ == "identity.machine.icon"@,
{
    "identity.machine.icon".to_owned()
}

} // verus!
