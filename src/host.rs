use vstd::prelude::*;

verus! {

/// A host a certificate is requested for: a symbolic domain name or a
/// numeric address, each held as its text.
#[derive(Debug, Clone, PartialEq, Eq, Hash)]
pub enum Host {
    Name(String),
    Address(String),
}

impl Host {
    /// The text of the host, as it stands in a common name.
    pub open spec fn text(&self) -> Seq<char> {
        match self {
            Host::Name(d) => d@,
            Host::Address(a) => a@,
        }
    }

    /// The text of the host.
    pub fn to_text(&self) -> (r: String)
        ensures
            r@ == self.text(),
    {
        match self {
            Host::Name(d) => d.clone(),
            Host::Address(a) => a.clone(),
        }
    }

    /// Whether this host is a numeric address.
    pub fn is_address(&self) -> (r: bool)
        ensures
            r == (self is Address),
    {
        match self {
            Host::Name(_) => false,
            Host::Address(_) => true,
        }
    }
}

} // verus!
