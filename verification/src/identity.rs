use vstd::prelude::*;

verus! {

/// An opaque principal: an account or a contract, known by the text that names it.
///
/// Two identities are the same principal exactly when their names are equal;
/// the ledger reads nothing else of them.
#[derive(Debug, PartialEq, Eq, Hash)]
pub struct Identity {
    name: String,
}

impl View for Identity {
    type V = Seq<char>;

    closed spec fn view(&self) -> Seq<char> {
        self.name@
    }
}

impl Identity {
    /// The principal that `name` names.
    pub fn new(name: &str) -> (id: Identity)
        ensures
            id@ == name@,
    {
        Identity { name: name.to_owned() }
    }

    /// The text that names the principal.
    pub fn as_str(&self) -> (name: &str)
        ensures
            name@ == self@,
    {
        self.name.as_str()
    }

    /// Whether `self` and `other` name the same principal.
    pub fn same_as(&self, other: &Identity) -> (same: bool)
        ensures
            same == (self@ == other@),
    {
        self.name == other.name
    }
}

impl Clone for Identity {
    fn clone(&self) -> (id: Identity)
        ensures
            id == *self,
    {
        Identity { name: self.name.clone() }
    }
}

/// The names of the identities of `list`, in order.
pub open spec fn names(list: Seq<Identity>) -> Seq<Seq<char>> {
    Seq::new(list.len(), |i: int| list[i]@)
}

/// What the host has verified about who consented to the current call.
///
/// The host checks the credential; the ledger only learns whose consent was
/// proved, if anybody's.
#[derive(Debug, PartialEq, Eq)]
pub struct Authorization {
    signer: Option<Identity>,
}

impl View for Authorization {
    type V = Option<Seq<char>>;

    closed spec fn view(&self) -> Option<Seq<char>> {
        match self.signer {
            Some(who) => Some(who@),
            None => None,
        }
    }
}

impl Authorization {
    /// No consent was proved.
    pub fn none() -> (auth: Authorization)
        ensures
            auth@ is None,
    {
        Authorization { signer: None }
    }

    /// The consent of `who` was proved.
    pub fn signed_by(who: Identity) -> (auth: Authorization)
        ensures
            auth@ == Some(who@),
    {
        Authorization { signer: Some(who) }
    }

    /// Whether the consent of `who` was proved.
    pub fn covers(&self, who: &Identity) -> (covered: bool)
        ensures
            covered == (self@ == Some(who@)),
    {
        match &self.signer {
            Some(signer) => signer.same_as(who),
            None => false,
        }
    }
}

} // verus!
