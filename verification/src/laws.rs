//! Laws of the validation pipelines, stated over every input.
//!
//! Each proof function here is a library-level guarantee relating the
//! pipelines and their rules, checked for all argument bundles and both
//! modes — not for sampled values.

use vstd::prelude::*;

use crate::args::{Canister, Network};
use crate::lifecycle::lifecycle_outcome;
use crate::mode::Mode;
use crate::principal::Principal;
use crate::transfer::transfer_outcome;
use crate::validations::{
    reports_outcome, Validate, ValidateError, DIAG_NAME_REQUIRED, DIAG_NOT_BOTH,
    DIAG_NO_ENVIRONMENT_IN_GLOBAL, DIAG_PRINCIPAL_REQUIRED, DIAG_SAME_IDS, DIAG_URL_REQUIRED,
};

verus! {

/// Whenever a network and an environment are both given, a lifecycle
/// bundle fails with the not-both diagnostic — in every mode, whatever
/// the target, and even where another rule would also fire.
pub proof fn lemma_not_both_takes_precedence(
    canister: &Canister,
    network: &Option<Network>,
    environment: &Option<String>,
    m: &Mode,
)
    requires
        network is Some,
        environment is Some,
    ensures
        lifecycle_outcome(canister, network, environment, m) == Some(DIAG_NOT_BOTH@),
{
}

/// In global mode a lifecycle bundle is legal exactly when the target is
/// a principal, no environment is given, and the network, if given, is a
/// URL.
pub proof fn lemma_global_lifecycle_success(
    canister: &Canister,
    network: &Option<Network>,
    environment: &Option<String>,
    m: &Mode,
)
    requires
        m is Global,
    ensures
        lifecycle_outcome(canister, network, environment, m) is None <==> {
            &&& canister is Principal
            &&& environment is None
            &&& network matches Some(n) ==> n is Url
        },
{
}

/// In project mode a lifecycle bundle is legal exactly when network and
/// environment are not both given and the network, if given, is a name.
pub proof fn lemma_project_lifecycle_success(
    canister: &Canister,
    network: &Option<Network>,
    environment: &Option<String>,
    m: &Mode,
)
    requires
        m is Project,
    ensures
        lifecycle_outcome(canister, network, environment, m) is None <==> {
            &&& !(network is Some && environment is Some)
            &&& network matches Some(n) ==> n is Name
        },
{
}

/// A transfer between equal principals fails with the identity
/// diagnostic, in every mode and whatever the network: the
/// command-specific rule precedes the general rules.
pub proof fn lemma_transfer_identity_precedence(
    from: &Principal,
    to: &Principal,
    network: &Option<Network>,
    m: &Mode,
)
    requires
        from@ == to@,
    ensures
        transfer_outcome(from, to, network, m) == Some(DIAG_SAME_IDS@),
{
}

/// The diagnostic catalog is closed: a lifecycle failure always carries
/// one of the five fixed lifecycle messages, never an interpolated or
/// foreign text.
pub proof fn lemma_lifecycle_catalog_closed(
    canister: &Canister,
    network: &Option<Network>,
    environment: &Option<String>,
    m: &Mode,
)
    ensures
        lifecycle_outcome(canister, network, environment, m) matches Some(d) ==> {
            ||| d == DIAG_NOT_BOTH@
            ||| d == DIAG_NO_ENVIRONMENT_IN_GLOBAL@
            ||| d == DIAG_URL_REQUIRED@
            ||| d == DIAG_NAME_REQUIRED@
            ||| d == DIAG_PRINCIPAL_REQUIRED@
        },
{
}

/// The diagnostic catalog is closed for transfers too: a failure carries
/// the identity message or one of the two network messages.
pub proof fn lemma_transfer_catalog_closed(
    from: &Principal,
    to: &Principal,
    network: &Option<Network>,
    m: &Mode,
)
    ensures
        transfer_outcome(from, to, network, m) matches Some(d) ==> {
            ||| d == DIAG_SAME_IDS@
            ||| d == DIAG_URL_REQUIRED@
            ||| d == DIAG_NAME_REQUIRED@
        },
{
}

/// Validation is pure: any two results that `validate` may report for the
/// same bundle and the same mode agree — same success, same diagnostic.
pub proof fn lemma_validate_pure<V: Validate>(
    v: &V,
    m: &Mode,
    r1: Result<(), ValidateError>,
    r2: Result<(), ValidateError>,
)
    requires
        reports_outcome(r1, v.outcome(m)),
        reports_outcome(r2, v.outcome(m)),
    ensures
        r1 is Ok <==> r2 is Ok,
        r1 matches Err(ValidateError::Invalid(d1)) ==> (r2 matches Err(ValidateError::Invalid(d2))
            && d1@ == d2@),
{
}

} // verus!
