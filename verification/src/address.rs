//! Socket addresses in their written form.

use crate::paths::same_text;
use vstd::prelude::*;

verus! {

/// A socket address.
pub struct ListenAddress {
    /// Host in its written form.
    pub host: String,
    /// Port.
    pub port: u16,
}

/// Mathematical value of a socket address.
#[verifier::ext_equal]
pub struct AddressView {
    /// Host in its written form.
    pub host: Seq<char>,
    /// Port.
    pub port: u16,
}

impl View for ListenAddress {
    type V = AddressView;

    open spec fn view(&self) -> AddressView {
        AddressView { host: self.host@, port: self.port }
    }
}

impl ListenAddress {
    /// Copies the address.
    pub fn copy(&self) -> (copy: Self)
        ensures
            copy@ == self@,
    {
        ListenAddress { host: self.host.as_str().to_owned(), port: self.port }
    }

    /// Tells whether two addresses are the same.
    pub fn same(&self, other: &Self) -> (same: bool)
        ensures
            same == (self@ == other@),
    {
        self.port == other.port && same_text(self.host.as_str(), other.host.as_str())
    }
}

} // verus!
