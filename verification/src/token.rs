//! The token identities the sale speaks of: the chain-native base currency,
//! or a fungible sale token named by its identifier bytes.

use vstd::prelude::*;

verus! {

/// A token identity as the ledger names it. Whether an `Esdt` identifier is
/// well formed is the ledger's own judgement; the configuration operation
/// takes that verdict as an argument.
#[derive(PartialEq, Eq, Debug)]
pub enum TokenId {
    /// The chain-native base currency.
    Egld,
    /// A fungible sale token, named by its identifier bytes.
    Esdt(Vec<u8>),
}

/// The mathematical value of a [`TokenId`]: the identifier bytes as a
/// sequence, with the base currency as its own case.
pub enum TokenIdView {
    /// The chain-native base currency.
    Egld,
    /// A fungible sale token, named by its identifier bytes.
    Esdt(Seq<u8>),
}

impl View for TokenId {
    type V = TokenIdView;

    open spec fn view(&self) -> TokenIdView {
        match self {
            TokenId::Egld => TokenIdView::Egld,
            TokenId::Esdt(bytes) => TokenIdView::Esdt(bytes@),
        }
    }
}

impl TokenId {
    /// Whether this identity is the base currency itself.
    pub fn is_egld(&self) -> (r: bool)
        ensures
            r == (self@ is Egld),
    {
        match self {
            TokenId::Egld => true,
            TokenId::Esdt(_) => false,
        }
    }
}

impl Clone for TokenId {
    fn clone(&self) -> (r: Self)
        ensures
            r@ == self@,
    {
        match self {
            TokenId::Egld => TokenId::Egld,
            TokenId::Esdt(bytes) => TokenId::Esdt(clone_bytes(bytes)),
        }
    }
}

/// A fresh copy of a byte string.
pub fn clone_bytes(bytes: &Vec<u8>) -> (r: Vec<u8>)
    ensures
        r@ == bytes@,
{
    let mut copy: Vec<u8> = Vec::new();
    let mut i: usize = 0;
    while i < bytes.len()
        invariant
            i <= bytes.len(),
            copy@ == bytes@.subrange(0, i as int),
        decreases bytes.len() - i,
    {
        copy.push(bytes[i]);
        proof {
            assert(copy@ =~= bytes@.subrange(0, i + 1));
        }
        i = i + 1;
    }
    proof {
        assert(copy@ =~= bytes@);
    }
    copy
}

/// Whether two byte strings are equal.
pub fn bytes_eq(a: &Vec<u8>, b: &Vec<u8>) -> (r: bool)
    ensures
        r == (a@ == b@),
{
    if a.len() != b.len() {
        return false;
    }
    let mut i: usize = 0;
    while i < a.len()
        invariant
            a@.len() == b@.len(),
            i <= a.len(),
            forall|j: int| 0 <= j < i ==> a@[j] == b@[j],
        decreases a.len() - i,
    {
        if a[i] != b[i] {
            return false;
        }
        i = i + 1;
    }
    proof {
        assert(a@ =~= b@);
    }
    true
}

} // verus!
