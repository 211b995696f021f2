//! Arguments of the token transfer command, and their validation
//! pipeline.
//!
//! A transfer carries two principals and an optional network. Its one
//! command-specific rule — the two sides must differ — runs before the
//! shared network rules, so an identity failure is reported even when a
//! network rule would also fire.

use vstd::prelude::*;

use crate::args::Network;
use crate::mode::Mode;
use crate::principal::Principal;
use crate::validations::{
    a_network_name_is_required_in_project_mode, a_network_url_is_required_in_global_mode,
    name_required_fires, url_required_fires, Validate, ValidateError, DIAG_NAME_REQUIRED,
    DIAG_SAME_IDS, DIAG_URL_REQUIRED,
};

verus! {

/// Refuses a transfer whose two sides are the same principal.
pub fn from_and_to_must_differ(from: &Principal, to: &Principal) -> (r: Option<&'static str>)
    ensures
        r is Some <==> from@ == to@,
        r matches Some(d) ==> d == DIAG_SAME_IDS,
{
    if from == to {
        Some(DIAG_SAME_IDS)
    } else {
        None
    }
}

/// The first diagnostic the transfer pipeline reports for this bundle in
/// this mode, or `None` when every rule passes.
pub open spec fn transfer_outcome(
    from: &Principal,
    to: &Principal,
    network: &Option<Network>,
    m: &Mode,
) -> Option<Seq<char>> {
    if from@ == to@ {
        Some(DIAG_SAME_IDS@)
    } else if url_required_fires(network, m) {
        Some(DIAG_URL_REQUIRED@)
    } else if name_required_fires(network, m) {
        Some(DIAG_NAME_REQUIRED@)
    } else {
        None
    }
}

/// Arguments of the transfer command.
#[derive(Clone, Debug, PartialEq)]
pub struct TransferArgs {
    pub from: Principal,
    pub to: Principal,
    pub network: Option<Network>,
}

impl Validate for TransferArgs {
    open spec fn outcome(&self, m: &Mode) -> Option<Seq<char>> {
        transfer_outcome(&self.from, &self.to, &self.network, m)
    }

    fn validate(&self, m: &Mode) -> (r: Result<(), ValidateError>) {
        if let Some(d) = from_and_to_must_differ(&self.from, &self.to) {
            return Err(ValidateError::Invalid(d));
        }
        if let Some(d) = a_network_url_is_required_in_global_mode(&self.network, m) {
            return Err(ValidateError::Invalid(d));
        }
        if let Some(d) = a_network_name_is_required_in_project_mode(&self.network, m) {
            return Err(ValidateError::Invalid(d));
        }
        Ok(())
    }
}

} // verus!
