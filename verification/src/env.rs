//! The context a contract call runs in: which contract is running, which
//! addresses have authorized the call, and the contract's storage.
use vstd::prelude::*;
use crate::address::Address;

verus! {

/// A contract invocation: the running contract's address, the addresses whose
/// authorization the call carries, and the contract's storage `S`.
pub struct Env<S> {
    pub current_contract: Address,
    pub authorized: Vec<Address>,
    pub storage: S,
}

impl<S> Env<S> {
    /// Builds the context of a call.
    pub fn new(current_contract: Address, authorized: Vec<Address>, storage: S) -> (r: Self)
        ensures
            r.current_contract == current_contract,
            r.authorized@ == authorized@,
            r.storage == storage,
    {
        Env { current_contract, authorized, storage }
    }

    /// The call carries the authorization of `a`, so that `a.require_auth()`
    /// passes.
    pub open spec fn authorizes(&self, a: Address) -> bool {
        self.authorized@.contains(a)
    }

    /// Two calls run the same contract with the same authorizations.
    pub open spec fn same_context(&self, other: &Self) -> bool {
        &&& self.current_contract == other.current_contract
        &&& self.authorized@ == other.authorized@
    }

    /// The address of the running contract.
    pub fn current_contract_address(&self) -> (r: Address)
        ensures
            r == self.current_contract,
    {
        self.current_contract
    }
}

} // verus!
