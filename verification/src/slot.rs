use vstd::prelude::*;

verus! {

/// The cryptographic context that the client keeps between the start of an
/// exchange and the server's answer. At most one is pending at a time.
#[derive(Debug, PartialEq, Eq)]
pub enum OpaqueData {
    Empty,
    /// The context of a login that was started with the current password.
    Login(Vec<u8>),
    /// The context of a registration that was started with the new password.
    Registration(Vec<u8>),
}

/// What the slot holds, as plain bytes.
pub enum Pending {
    Empty,
    Login(Seq<u8>),
    Registration(Seq<u8>),
}

impl View for OpaqueData {
    type V = Pending;

    open spec fn view(&self) -> Pending {
        match *self {
            OpaqueData::Empty => Pending::Empty,
            OpaqueData::Login(context) => Pending::Login(context@),
            OpaqueData::Registration(context) => Pending::Registration(context@),
        }
    }
}

impl OpaqueData {
    #[verifier::when_used_as_spec(spec_is_empty)]
    pub fn is_empty(&self) -> (empty: bool)
        ensures
            empty == (self@ is Empty),
    {
        match self {
            OpaqueData::Empty => true,
            _ => false,
        }
    }

    pub open spec fn spec_is_empty(&self) -> bool {
        self@ is Empty
    }

    /// Hands out what is pending and leaves the slot empty.
    pub fn take(&mut self) -> (taken: Self)
        ensures
            taken@ == old(self)@,
            final(self)@ is Empty,
    {
        let mut taken = OpaqueData::Empty;
        core::mem::swap(self, &mut taken);
        taken
    }

    /// Puts `context` into the slot if it is empty. An occupied slot keeps
    /// what it holds and the call reports `false`.
    pub fn store(&mut self, context: OpaqueData) -> (stored: bool)
        ensures
            stored == (old(self)@ is Empty),
            final(self)@ == (if stored { context@ } else { old(self)@ }),
    {
        if self.is_empty() {
            *self = context;
            true
        } else {
            false
        }
    }
}

impl Default for OpaqueData {
    fn default() -> (slot: Self)
        ensures
            slot@ is Empty,
    {
        OpaqueData::Empty
    }
}

} // verus!
