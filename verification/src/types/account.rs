//! Account identifiers.

use vstd::prelude::*;

verus! {

/// A human readable account identifier.
///
/// The text is opaque to this crate: the only operations are to compare two
/// identifiers and to hand the text out again. A value is meant to come from
/// an address validator or from the authenticated sender of a message;
/// [`AccountId::unchecked`] builds one without either.
#[derive(Debug)]
pub struct AccountId {
    text: String,
}

impl View for AccountId {
    type V = Seq<char>;

    closed spec fn view(&self) -> Seq<char> {
        self.text@
    }
}

impl AccountId {
    /// Wraps `text` as it is, without any validation.
    pub fn unchecked(text: String) -> (id: AccountId)
        ensures
            id@ == text@,
    {
        AccountId { text }
    }

    /// The text of the identifier.
    pub fn as_str(&self) -> (text: &str)
        ensures
            text@ == self@,
    {
        self.text.as_str()
    }

    /// The text of the identifier, as an owned string.
    pub fn into_string(self) -> (text: String)
        ensures
            text@ == self@,
    {
        self.text
    }
}

impl Clone for AccountId {
    fn clone(&self) -> (id: AccountId)
        ensures
            id@ == self@,
    {
        AccountId { text: self.text.clone() }
    }
}

impl PartialEq for AccountId {
    fn eq(&self, other: &AccountId) -> (same: bool) {
        self.text == other.text
    }
}

impl Eq for AccountId {}

impl vstd::std_specs::cmp::PartialEqSpecImpl for AccountId {
    open spec fn obeys_eq_spec() -> bool {
        true
    }

    open spec fn eq_spec(&self, other: &AccountId) -> bool {
        self@ == other@
    }
}

} // verus!
