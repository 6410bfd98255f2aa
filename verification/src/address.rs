//! Identities: who creates, funds and is paid by a campaign.

use vstd::prelude::*;
use vstd::std_specs::cmp::PartialEqSpecImpl;

verus! {

/// An identity on the ledger, held as the text by which the host names it.
///
/// Two addresses stand for the same party exactly when their texts are equal.
/// The library never looks inside the text.
#[derive(Debug, Hash)]
pub struct Address {
    strkey: String,
}

impl View for Address {
    type V = Seq<char>;

    closed spec fn view(&self) -> Seq<char> {
        self.strkey@
    }
}

impl Address {
    /// The address that the host writes as `strkey`.
    pub fn new(strkey: &str) -> (address: Address)
        ensures
            address@ == strkey@,
    {
        Address { strkey: strkey.to_owned() }
    }

    /// The text by which the host names this address.
    pub fn as_str(&self) -> (strkey: &str)
        ensures
            strkey@ == self@,
    {
        self.strkey.as_str()
    }
}

impl Clone for Address {
    fn clone(&self) -> (copy: Address)
        ensures
            copy == *self,
    {
        Address { strkey: self.strkey.clone() }
    }
}

impl PartialEq for Address {
    fn eq(&self, other: &Address) -> (same: bool) {
        self.strkey == other.strkey
    }
}

impl PartialEqSpecImpl for Address {
    open spec fn obeys_eq_spec() -> bool {
        true
    }

    open spec fn eq_spec(&self, other: &Address) -> bool {
        self@ == other@
    }
}

impl Eq for Address {}

} // verus!
