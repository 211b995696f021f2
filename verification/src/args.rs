//! Addressing value types: how a target and a network were specified.

use vstd::prelude::*;
use vstd::string::StringExecFns;

use crate::principal::{decoded_principal, Principal};

verus! {

/// A canister as the user wrote it: a symbolic name, or a fully-qualified
/// principal identifier.
#[derive(Clone, Debug, PartialEq)]
pub enum Canister {
    Name(String),
    Principal(Principal),
}

/// A network as the user wrote it: a symbolic name, or an explicit URL.
#[derive(Clone, Debug, PartialEq)]
pub enum Network {
    Name(String),
    Url(String),
}

/// Whether the text is taken for a URL: it begins with `http://` or
/// `https://`.
pub open spec fn is_url_text(s: Seq<char>) -> bool {
    "http://"@.is_prefix_of(s) || "https://"@.is_prefix_of(s)
}

/// Relies on `str::starts_with`: true exactly when the string's characters
/// begin with the pattern's characters.
#[verifier::external_body]
fn has_prefix(s: &str, prefix: &str) -> (r: bool)
    ensures
        r <==> prefix@.is_prefix_of(s@),
{
    s.starts_with(prefix)
}

impl Canister {
    /// Reads a target from raw text. The stricter parse is attempted first:
    /// text in the fixed principal format becomes `Principal`, anything else
    /// falls back to a symbolic `Name`. Total: no input is rejected.
    pub fn from_text(v: &str) -> (r: Canister)
        ensures
            match decoded_principal(v@) {
                Some(b) => r matches Canister::Principal(p) && p@ == b,
                None => r matches Canister::Name(n) && n@ == v@,
            },
    {
        if let Some(p) = Principal::from_text(v) {
            return Canister::Principal(p);
        }
        Canister::Name(String::from_str(v))
    }
}

impl From<&str> for Canister {
    fn from(v: &str) -> (r: Canister) {
        Canister::from_text(v)
    }
}

// The conversion allocates fresh strings, whose spec-level identity no
// spec function can name; callers that need the contract use `from_text`.
impl vstd::std_specs::convert::FromSpecImpl<&str> for Canister {
    open spec fn obeys_from_spec() -> bool {
        false
    }

    open spec fn from_spec(v: &str) -> Canister {
        arbitrary()
    }
}

impl Network {
    /// Reads a network from raw text: a URL when the text carries an
    /// `http://` or `https://` prefix, a symbolic name otherwise. Total: no
    /// input is rejected.
    pub fn from_text(v: &str) -> (r: Network)
        ensures
            is_url_text(v@) ==> (r matches Network::Url(u) && u@ == v@),
            !is_url_text(v@) ==> (r matches Network::Name(n) && n@ == v@),
    {
        if has_prefix(v, "http://") || has_prefix(v, "https://") {
            return Network::Url(String::from_str(v));
        }
        Network::Name(String::from_str(v))
    }
}

impl From<&str> for Network {
    fn from(v: &str) -> (r: Network) {
        Network::from_text(v)
    }
}

// As for `Canister`: the contract lives on `from_text`.
impl vstd::std_specs::convert::FromSpecImpl<&str> for Network {
    open spec fn obeys_from_spec() -> bool {
        false
    }

    open spec fn from_spec(v: &str) -> Network {
        arbitrary()
    }
}

} // verus!
