//! Principals: who may own a wallet, and the derivation path of a
//! principal's key.

use vstd::prelude::*;
use crate::tx::Error;

verus! {

/// A principal, held as its bytes.
#[derive(Clone, Debug)]
pub struct Principal {
    pub bytes: Vec<u8>,
}

impl View for Principal {
    type V = Seq<u8>;

    open spec fn view(&self) -> Seq<u8> {
        self.bytes@
    }
}

/// The bytes of the management canister's principal: none.
pub open spec fn management_bytes() -> Seq<u8> {
    Seq::empty()
}

/// The bytes of the anonymous principal: the one byte 4.
pub open spec fn anonymous_bytes() -> Seq<u8> {
    seq![0x04u8]
}

/// Whether a principal is neither the management canister nor anonymous.
pub open spec fn is_normal_principal(principal: Seq<u8>) -> bool {
    principal != management_bytes() && principal != anonymous_bytes()
}

/// `candid::Principal::management_canister`: the principal of the
/// management canister has no bytes.
#[verifier::external_body]
fn management_canister() -> (bytes: Vec<u8>)
    ensures
        bytes@ == management_bytes(),
{
    candid::Principal::management_canister().as_slice().to_vec()
}

/// `candid::Principal::anonymous`: the anonymous principal is the one
/// byte 4.
#[verifier::external_body]
fn anonymous() -> (bytes: Vec<u8>)
    ensures
        bytes@ == anonymous_bytes(),
{
    candid::Principal::anonymous().as_slice().to_vec()
}

/// Whether two byte strings are the same.
fn same_bytes(left: &Vec<u8>, right: &Vec<u8>) -> (same: bool)
    ensures
        same == (left@ == right@),
{
    if left.len() != right.len() {
        return false;
    }
    let mut i: usize = 0;
    while i < left.len()
        invariant
            i <= left.len(),
            left.len() == right.len(),
            forall|k: int| 0 <= k < i ==> left@[k] == right@[k],
        decreases left.len() - i,
    {
        if left[i] != right[i] {
            return false;
        }
        i = i + 1;
    }
    assert(left@ =~= right@);
    true
}

/// The principal of the management canister.
pub fn mgmt_canister_id() -> (principal: Principal)
    ensures
        principal@ == management_bytes(),
{
    Principal { bytes: management_canister() }
}

/// Accepts a principal that is neither the management canister nor
/// anonymous, and hands every other back in the error.
pub fn check_normal_principal(principal: Principal) -> (result: Result<(), Error>)
    ensures
        result is Ok <==> is_normal_principal(principal@),
        result matches Err(e) ==> e == Error::InvalidPrincipal(principal),
{
    let management = mgmt_canister_id();
    let nobody: Vec<u8> = anonymous();
    if !same_bytes(&principal.bytes, &management.bytes) && !same_bytes(&nobody, &principal.bytes) {
        Ok(())
    } else {
        Err(Error::InvalidPrincipal(principal))
    }
}

/// The derivation path of a principal's key: one step, the principal's
/// bytes.
pub fn principal_to_derivation_path(principal: Principal) -> (path: Vec<Vec<u8>>)
    ensures
        path@.len() == 1,
        path@[0]@ == principal@,
{
    let mut path: Vec<Vec<u8>> = Vec::new();
    path.push(principal.bytes);
    path
}

} // verus!
