//! Addresses of accounts and contracts.
use vstd::prelude::*;

verus! {

/// Whether an address names an account (keyed by its ed25519 public key) or a
/// contract (keyed by its contract hash).
#[derive(Clone, Copy, Debug, PartialEq, Eq, Structural)]
pub enum AddressKind {
    Account,
    Contract,
}

/// An address: its kind and its 32-byte payload.
#[derive(Clone, Copy, Debug)]
pub struct Address {
    pub kind: AddressKind,
    pub key: [u8; 32],
}

impl Address {
    /// Builds an address from its kind and payload.
    pub fn new(kind: AddressKind, key: [u8; 32]) -> (r: Address)
        ensures
            r.kind == kind,
            r.key == key,
    {
        Address { kind, key }
    }

    /// An account address with the given public key.
    pub fn account(key: [u8; 32]) -> (r: Address)
        ensures
            r == (Address { kind: AddressKind::Account, key }),
    {
        Address { kind: AddressKind::Account, key }
    }

    /// A contract address with the given contract hash.
    pub fn contract(key: [u8; 32]) -> (r: Address)
        ensures
            r == (Address { kind: AddressKind::Contract, key }),
    {
        Address { kind: AddressKind::Contract, key }
    }

    /// Whether two addresses are the same address.
    pub fn same(&self, other: &Address) -> (r: bool)
        ensures
            r == (*self == *other),
    {
        if self.kind != other.kind {
            return false;
        }
        let mut i: usize = 0;
        while i < 32
            invariant
                i <= 32,
                forall|j: int| 0 <= j < i ==> self.key@[j] == other.key@[j],
            decreases 32 - i,
        {
            if self.key[i] != other.key[i] {
                return false;
            }
            i = i + 1;
        }
        proof {
            assert(self.key@ =~= other.key@);
            vstd::array::axiom_array_ext_equal(self.key, other.key);
        }
        true
    }
}

} // verus!
