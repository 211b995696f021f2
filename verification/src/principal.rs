//! The fixed-format identifier a canister or a user is addressed by.
//!
//! A principal is an opaque blob of at most 29 bytes with a textual form
//! (grouped base32 with a leading checksum). Decoding the textual form is
//! left to the `candid` crate; the decoded bytes are what this library
//! holds and compares.

use vstd::prelude::*;

verus! {

/// The bytes a well-formed principal text decodes to, or `None` when the
/// text is not in the principal format. Decoding depends on the text alone.
pub uninterp spec fn decoded_principal(text: Seq<char>) -> Option<Seq<u8>>;

/// A principal identifier, held as its decoded bytes.
#[derive(Clone, Debug, Eq, Hash)]
pub struct Principal {
    bytes: Vec<u8>,
}

impl View for Principal {
    type V = Seq<u8>;

    closed spec fn view(&self) -> Seq<u8> {
        self.bytes@
    }
}

/// Relies on `candid::Principal::from_text`: parsing is deterministic in
/// the text, and `as_slice` hands back the decoded bytes.
#[verifier::external_body]
fn parse_principal_text(text: &str) -> (r: Option<Vec<u8>>)
    ensures
        match decoded_principal(text@) {
            Some(b) => r matches Some(v) && v@ == b,
            None => r is None,
        },
{
    match candid::Principal::from_text(text) {
        Ok(p) => Some(p.as_slice().to_vec()),
        Err(_) => None,
    }
}

impl Principal {
    /// Parses the textual form; `None` when the text is not a well-formed
    /// principal.
    pub fn from_text(text: &str) -> (r: Option<Principal>)
        ensures
            match decoded_principal(text@) {
                Some(b) => r matches Some(p) && p@ == b,
                None => r is None,
            },
    {
        match parse_principal_text(text) {
            Some(bytes) => Some(Principal { bytes }),
            None => None,
        }
    }

    /// The decoded bytes of the identifier.
    pub fn bytes(&self) -> (r: &Vec<u8>)
        ensures
            r@ == self@,
    {
        &self.bytes
    }

    /// The anonymous principal: the single tag byte `4`.
    pub fn anonymous() -> (r: Principal)
        ensures
            r@ == seq![4u8],
    {
        let mut bytes: Vec<u8> = Vec::new();
        bytes.push(4u8);
        proof {
            assert(bytes@ =~= seq![4u8]);
        }
        Principal { bytes }
    }
}

impl PartialEq for Principal {
    fn eq(&self, other: &Principal) -> (r: bool) {
        let r = self.bytes == other.bytes;
        proof {
            if r {
                assert(self.bytes@ =~= other.bytes@);
            }
        }
        r
    }
}

impl vstd::std_specs::cmp::PartialEqSpecImpl for Principal {
    open spec fn obeys_eq_spec() -> bool {
        true
    }

    open spec fn eq_spec(&self, other: &Principal) -> bool {
        self@ == other@
    }
}

} // verus!
