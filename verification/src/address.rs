use vstd::prelude::*;

verus! {

/// An identity: a party that can issue, own or receive certificates.
///
/// An address is compared by its key alone; its view is the key's characters.
#[derive(Debug)]
pub struct Address {
    key: String,
}

impl View for Address {
    type V = Seq<char>;

    closed spec fn view(&self) -> Seq<char> {
        self.key@
    }
}

impl DeepView for Address {
    type V = Seq<char>;

    open spec fn deep_view(&self) -> Seq<char> {
        self@
    }
}

impl Address {
    /// The identity with the given key.
    pub fn from_str(key: &str) -> (address: Address)
        ensures
            address@ == key@,
    {
        Address { key: String::from_str(key) }
    }

    /// The identity's key.
    pub fn as_str(&self) -> (key: &str)
        ensures
            key@ == self@,
    {
        self.key.as_str()
    }

    /// The identity's key, as the text under which records about it are kept.
    pub fn key(&self) -> (key: &String)
        ensures
            key@ == self@,
    {
        &self.key
    }
}

impl Clone for Address {
    fn clone(&self) -> (copy: Address)
        ensures
            copy@ == self@,
    {
        Address { key: self.key.clone() }
    }
}

impl PartialEq for Address {
    fn eq(&self, other: &Address) -> (same: bool) {
        self.key == other.key
    }
}

impl Eq for Address {}

impl vstd::std_specs::cmp::PartialEqSpecImpl for Address {
    open spec fn obeys_eq_spec() -> bool {
        true
    }

    open spec fn eq_spec(&self, other: &Address) -> bool {
        self@ == other@
    }
}

} // verus!
