use vstd::prelude::*;

use crate::keys::Pubkey;

verus! {

/// Mathematical view of an account snapshot: the same fields with the data
/// region abstracted to a byte sequence.
#[verifier::ext_equal]
pub ghost struct AccountModel {
    pub key: Pubkey,
    pub owner: Pubkey,
    pub is_signer: bool,
    pub lamports: u64,
    pub data: Seq<u8>,
}

/// Snapshot of one host-managed account as handed to an invocation: its
/// address, its owning program, whether its holder signed the current
/// invocation, its balance in the ledger's base unit, and its data region.
///
/// The host runtime guarantees each invocation exclusive access to the
/// accounts it declares, so a transition may mutate a snapshot in place;
/// on failure the host discards the whole snapshot set.
#[derive(Debug)]
pub struct Account {
    pub key: Pubkey,
    pub owner: Pubkey,
    pub is_signer: bool,
    pub lamports: u64,
    pub data: Vec<u8>,
}

impl View for Account {
    type V = AccountModel;

    open spec fn view(&self) -> AccountModel {
        AccountModel {
            key: self.key,
            owner: self.owner,
            is_signer: self.is_signer,
            lamports: self.lamports,
            data: self.data@,
        }
    }
}

} // verus!
