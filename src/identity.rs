//! Principals that make calls and own engines.
use vstd::prelude::*;

verus! {

/// The most bytes a principal holds.
pub const MAX_IDENTITY_BYTES: usize = 29;

/// The tag byte of the anonymous principal.
pub const ANONYMOUS_TAG: u8 = 4;

/// The textual form of the principal with the given bytes.
pub uninterp spec fn principal_text_of(bytes: Seq<u8>) -> Seq<char>;

/// Relies on `candid::Principal::from_slice`, which panics on more than 29
/// bytes, and `Principal::to_text`.
#[verifier::external_body]
fn principal_text(bytes: &Vec<u8>) -> (r: String)
    requires
        bytes@.len() <= MAX_IDENTITY_BYTES,
    ensures
        r@ == principal_text_of(bytes@),
{
    candid::Principal::from_slice(bytes.as_slice()).to_text()
}

/// A principal, held as its significant bytes.
#[derive(Debug)]
pub struct Identity {
    bytes: Vec<u8>,
}

impl View for Identity {
    type V = Seq<u8>;

    closed spec fn view(&self) -> Seq<u8> {
        self.bytes@
    }
}

impl Identity {
    /// A principal holds at most `MAX_IDENTITY_BYTES` bytes.
    pub open spec fn wf(&self) -> bool {
        self@.len() <= MAX_IDENTITY_BYTES
    }

    /// The anonymous principal: the single anonymous tag byte.
    pub fn anonymous() -> (r: Identity)
        ensures
            r@ == seq![ANONYMOUS_TAG],
            r.wf(),
    {
        let mut bytes: Vec<u8> = Vec::new();
        bytes.push(ANONYMOUS_TAG);
        Identity { bytes }
    }

    /// The principal with the given bytes, if there are not too many.
    pub fn from_bytes(bytes: Vec<u8>) -> (r: Option<Identity>)
        ensures
            r is Some <==> bytes@.len() <= MAX_IDENTITY_BYTES,
            r matches Some(id) ==> id@ == bytes@ && id.wf(),
    {
        if bytes.len() <= MAX_IDENTITY_BYTES {
            Some(Identity { bytes })
        } else {
            None
        }
    }

    /// The significant bytes.
    pub fn as_bytes(&self) -> (r: &Vec<u8>)
        ensures
            r@ == self@,
    {
        &self.bytes
    }

    /// The textual form.
    pub fn to_text(&self) -> (r: String)
        requires
            self.wf(),
        ensures
            r@ == principal_text_of(self@),
    {
        principal_text(&self.bytes)
    }

    /// A copy of the principal.
    pub fn duplicate(&self) -> (r: Identity)
        ensures
            r@ == self@,
    {
        Identity { bytes: self.bytes.clone() }
    }
}

} // verus!
