//! Argument bundles of the canister lifecycle commands, and their
//! validation pipeline.
//!
//! Both lifecycle commands (start, stop) take the same bundle: a target,
//! an optional network, an optional environment. They share one pipeline
//! of general rules, evaluated in a fixed order with short-circuit
//! semantics. The mutual-exclusion rule on network and environment comes
//! first, so its diagnostic wins whenever both are given; the
//! principal-form rule on the target comes after the network rules.

use vstd::prelude::*;

use crate::args::{Canister, Network};
use crate::mode::Mode;
use crate::validations::{
    a_canister_id_is_required_in_global_mode, a_network_name_is_required_in_project_mode,
    a_network_url_is_required_in_global_mode, environments_are_not_available_in_a_global_mode,
    name_required_fires, network_or_environment_not_both, no_environment_in_global_fires,
    not_both_fires, principal_required_fires, url_required_fires, Validate, ValidateError,
    DIAG_NAME_REQUIRED, DIAG_NOT_BOTH, DIAG_NO_ENVIRONMENT_IN_GLOBAL, DIAG_PRINCIPAL_REQUIRED,
    DIAG_URL_REQUIRED,
};

verus! {

/// The first diagnostic the lifecycle pipeline reports for this bundle in
/// this mode, or `None` when every rule passes.
pub open spec fn lifecycle_outcome(
    canister: &Canister,
    network: &Option<Network>,
    environment: &Option<String>,
    m: &Mode,
) -> Option<Seq<char>> {
    if not_both_fires(network, environment) {
        Some(DIAG_NOT_BOTH@)
    } else if no_environment_in_global_fires(environment, m) {
        Some(DIAG_NO_ENVIRONMENT_IN_GLOBAL@)
    } else if url_required_fires(network, m) {
        Some(DIAG_URL_REQUIRED@)
    } else if name_required_fires(network, m) {
        Some(DIAG_NAME_REQUIRED@)
    } else if principal_required_fires(canister, m) {
        Some(DIAG_PRINCIPAL_REQUIRED@)
    } else {
        None
    }
}

/// Runs the lifecycle pipeline: each general rule in order, stopping at
/// the first failure.
fn validate_lifecycle(
    canister: &Canister,
    network: &Option<Network>,
    environment: &Option<String>,
    m: &Mode,
) -> (r: Result<(), ValidateError>)
    ensures
        r is Ok <==> lifecycle_outcome(canister, network, environment, m) is None,
        r matches Err(e) ==> (e matches ValidateError::Invalid(d) && Some(d@)
            == lifecycle_outcome(canister, network, environment, m)),
{
    if let Some(d) = network_or_environment_not_both(network, environment, m) {
        return Err(ValidateError::Invalid(d));
    }
    if let Some(d) = environments_are_not_available_in_a_global_mode(environment, m) {
        return Err(ValidateError::Invalid(d));
    }
    if let Some(d) = a_network_url_is_required_in_global_mode(network, m) {
        return Err(ValidateError::Invalid(d));
    }
    if let Some(d) = a_network_name_is_required_in_project_mode(network, m) {
        return Err(ValidateError::Invalid(d));
    }
    if let Some(d) = a_canister_id_is_required_in_global_mode(canister, m) {
        return Err(ValidateError::Invalid(d));
    }
    Ok(())
}

/// Arguments of the start command.
#[derive(Clone, Debug, PartialEq)]
pub struct StartArgs {
    pub canister: Canister,
    pub network: Option<Network>,
    pub environment: Option<String>,
}

impl Validate for StartArgs {
    open spec fn outcome(&self, m: &Mode) -> Option<Seq<char>> {
        lifecycle_outcome(&self.canister, &self.network, &self.environment, m)
    }

    fn validate(&self, m: &Mode) -> (r: Result<(), ValidateError>) {
        validate_lifecycle(&self.canister, &self.network, &self.environment, m)
    }
}

/// Arguments of the stop command.
#[derive(Clone, Debug, PartialEq)]
pub struct StopArgs {
    pub canister: Canister,
    pub network: Option<Network>,
    pub environment: Option<String>,
}

impl Validate for StopArgs {
    open spec fn outcome(&self, m: &Mode) -> Option<Seq<char>> {
        lifecycle_outcome(&self.canister, &self.network, &self.environment, m)
    }

    fn validate(&self, m: &Mode) -> (r: Result<(), ValidateError>) {
        validate_lifecycle(&self.canister, &self.network, &self.environment, m)
    }
}

} // verus!
