//! The validation rules, the diagnostic catalog, and the pipeline contract.
//!
//! Each rule is a total, pure predicate over a narrow projection of an
//! argument bundle and the execution mode. A rule either finds no issue
//! (`None`) or reports one fixed diagnostic from the catalog below
//! (`Some`); the text never interpolates runtime values, so exact string
//! equality is a valid oracle for callers and tests.

use vstd::prelude::*;
use vstd::string::StringExecFns;

use crate::args::{Canister, Network};
use crate::mode::Mode;

verus! {

/// Reported when a lifecycle target in global mode is a symbolic name.
pub const DIAG_PRINCIPAL_REQUIRED: &'static str =
    "Please provide a canister principal in global mode.";

/// Reported when a network and an environment are both given.
pub const DIAG_NOT_BOTH: &'static str =
    "Please provide either a network or an environment, but not both.";

/// Reported when an environment is given in global mode.
pub const DIAG_NO_ENVIRONMENT_IN_GLOBAL: &'static str =
    "Environments are not available in global mode.";

/// Reported when the network given in global mode is not a URL.
pub const DIAG_URL_REQUIRED: &'static str = "A network `url` is required in global mode.";

/// Reported when the network given in project mode is not a name.
pub const DIAG_NAME_REQUIRED: &'static str = "A network `name` is required in project mode.";

/// Reported when a transfer names the same principal on both sides.
pub const DIAG_SAME_IDS: &'static str = "`from` and `to` cannot be the same IDs.";

/// A validation failure: exactly one diagnostic from the catalog.
#[derive(Clone, Copy, Debug)]
pub enum ValidateError {
    Invalid(&'static str),
}

impl ValidateError {
    /// The diagnostic text carried by this failure.
    pub fn text(&self) -> (r: &'static str)
        ensures
            self matches ValidateError::Invalid(m) && r == m,
    {
        match self {
            ValidateError::Invalid(m) => m,
        }
    }
}

/// When the target-identifier rule fires: in global mode there is no
/// project to resolve a symbolic name, so the target must be a principal.
pub open spec fn principal_required_fires(canister: &Canister, m: &Mode) -> bool {
    m is Global && !(canister is Principal)
}

/// When the not-both rule fires: a network and an environment are mutually
/// exclusive, in every mode.
pub open spec fn not_both_fires(network: &Option<Network>, environment: &Option<String>) -> bool {
    network is Some && environment is Some
}

/// When the environment rule fires: environments only exist inside a
/// project.
pub open spec fn no_environment_in_global_fires(environment: &Option<String>, m: &Mode) -> bool {
    m is Global && environment is Some
}

/// When the network-URL rule fires: a network given in global mode must be
/// an explicit URL, since there is no project configuration to resolve a
/// name against. An absent network is no issue.
pub open spec fn url_required_fires(network: &Option<Network>, m: &Mode) -> bool {
    m is Global && (network matches Some(n) && !(n is Url))
}

/// When the network-name rule fires: a network given in project mode must
/// be a symbolic name from the project configuration. An absent network is
/// no issue.
pub open spec fn name_required_fires(network: &Option<Network>, m: &Mode) -> bool {
    m is Project && (network matches Some(n) && !(n is Name))
}

/// Requires a principal target in global mode.
pub fn a_canister_id_is_required_in_global_mode(canister: &Canister, m: &Mode) -> (r: Option<
    &'static str,
>)
    ensures
        r is Some <==> principal_required_fires(canister, m),
        r matches Some(d) ==> d == DIAG_PRINCIPAL_REQUIRED,
{
    if matches!(m, Mode::Global) && !matches!(canister, Canister::Principal(_)) {
        Some(DIAG_PRINCIPAL_REQUIRED)
    } else {
        None
    }
}

/// Refuses a network and an environment together.
pub fn network_or_environment_not_both(
    network: &Option<Network>,
    environment: &Option<String>,
    m: &Mode,
) -> (r: Option<&'static str>)
    ensures
        r is Some <==> not_both_fires(network, environment),
        r matches Some(d) ==> d == DIAG_NOT_BOTH,
{
    if network.is_some() && environment.is_some() {
        Some(DIAG_NOT_BOTH)
    } else {
        None
    }
}

/// Refuses an environment in global mode.
pub fn environments_are_not_available_in_a_global_mode(
    environment: &Option<String>,
    m: &Mode,
) -> (r: Option<&'static str>)
    ensures
        r is Some <==> no_environment_in_global_fires(environment, m),
        r matches Some(d) ==> d == DIAG_NO_ENVIRONMENT_IN_GLOBAL,
{
    if matches!(m, Mode::Global) && environment.is_some() {
        Some(DIAG_NO_ENVIRONMENT_IN_GLOBAL)
    } else {
        None
    }
}

/// Requires a network given in global mode to be a URL.
pub fn a_network_url_is_required_in_global_mode(network: &Option<Network>, m: &Mode) -> (r: Option<
    &'static str,
>)
    ensures
        r is Some <==> url_required_fires(network, m),
        r matches Some(d) ==> d == DIAG_URL_REQUIRED,
{
    if matches!(m, Mode::Global) && matches!(network, Some(Network::Name(_))) {
        Some(DIAG_URL_REQUIRED)
    } else {
        None
    }
}

/// Requires a network given in project mode to be a name.
pub fn a_network_name_is_required_in_project_mode(network: &Option<Network>, m: &Mode) -> (r:
    Option<&'static str>)
    ensures
        r is Some <==> name_required_fires(network, m),
        r matches Some(d) ==> d == DIAG_NAME_REQUIRED,
{
    if matches!(m, Mode::Project(_)) && matches!(network, Some(Network::Url(_))) {
        Some(DIAG_NAME_REQUIRED)
    } else {
        None
    }
}

/// How a validation result relates to a pipeline's spec-level decision:
/// success exactly when no rule fires, and a failure carries exactly the
/// decided diagnostic.
pub open spec fn reports_outcome(r: Result<(), ValidateError>, outcome: Option<Seq<char>>) -> bool {
    &&& r is Ok <==> outcome is None
    &&& r matches Err(e) ==> (e matches ValidateError::Invalid(d) && Some(d@) == outcome)
}

/// An argument bundle that can be validated against a mode.
///
/// `outcome` is the bundle's whole validation pipeline as one spec-level
/// decision: `None` when every rule passes, otherwise the first failing
/// rule's diagnostic. `validate` must report exactly that decision.
pub trait Validate: Sized {
    /// The first failing rule's diagnostic, or `None` when the bundle is
    /// legal in the given mode.
    spec fn outcome(&self, m: &Mode) -> Option<Seq<char>>;

    /// Evaluates the bundle's rules in order, stopping at the first
    /// failure.
    fn validate(&self, m: &Mode) -> (r: Result<(), ValidateError>)
        ensures
            reports_outcome(r, self.outcome(m)),
    ;
}

/// Both modes, with a sample project directory: inputs for combinatorial
/// checks across every context.
pub fn all_modes() -> (r: Vec<Mode>)
    ensures
        r@.len() == 2,
        r@[0] is Global,
        r@[1] matches Mode::Project(d) && d@ == "dir"@,
{
    let mut v: Vec<Mode> = Vec::new();
    v.push(Mode::Global);
    v.push(Mode::Project(String::from_str("dir")));
    v
}

/// One network of each variant: inputs for combinatorial checks across
/// every network shape.
pub fn all_networks() -> (r: Vec<Network>)
    ensures
        r@.len() == 2,
        r@[0] matches Network::Name(n) && n@ == "my-network"@,
        r@[1] matches Network::Url(u) && u@ == "http::/www.example.com"@,
{
    let mut v: Vec<Network> = Vec::new();
    v.push(Network::Name(String::from_str("my-network")));
    v.push(Network::Url(String::from_str("http::/www.example.com")));
    v
}

/// Widens a list of values to a list of optional values, led by `None`:
/// the absent case joins the present ones in combinatorial checks.
pub trait IntoOptions<T>: Sized {
    /// The widened list, as a sequence.
    spec fn options_seq(&self) -> Seq<Option<T>>;

    /// Prepends `None` and wraps each value in `Some`.
    fn into_options(self) -> (r: Vec<Option<T>>)
        ensures
            r@ == self.options_seq(),
    ;
}

impl<T> IntoOptions<T> for Vec<T> {
    open spec fn options_seq(&self) -> Seq<Option<T>> {
        seq![None].add(self@.map_values(|x: T| Some(x)))
    }

    fn into_options(self) -> (r: Vec<Option<T>>) {
        let ghost orig = self@;
        let mut rest = self;
        let mut r: Vec<Option<T>> = Vec::new();
        r.push(None);
        proof {
            assert(orig.subrange(0, orig.len() as int) =~= orig);
        }
        while rest.len() > 0
            invariant
                1 <= r@.len() <= orig.len() + 1,
                r@.len() + rest@.len() == orig.len() + 1,
                r@[0] is None,
                forall|i: int| 0 <= i < r@.len() - 1 ==> r@[i + 1] == Some(orig[i]),
                rest@ == orig.subrange(r@.len() - 1, orig.len() as int),
            decreases rest@.len(),
        {
            let ghost done: int = r@.len() - 1;
            let x = rest.remove(0);
            proof {
                assert(x == orig[done]);
                assert(rest@ =~= orig.subrange(done + 1, orig.len() as int));
            }
            r.push(Some(x));
        }
        proof {
            assert(r@ =~= seq![None].add(orig.map_values(|x: T| Some(x))));
        }
        r
    }
}

} // verus!
