use vstd::prelude::*;

use crate::codec::{key_bytes, read_pubkey};

verus! {

/// A 256-bit account address / identity, held as four 64-bit words.
/// Word `w0` covers bytes 0..8 of the address in little-endian order,
/// `w3` bytes 24..32; the codec lays the words out accordingly.
#[derive(Debug, Clone, Copy, PartialEq, Eq, Structural)]
pub struct Pubkey {
    pub w0: u64,
    pub w1: u64,
    pub w2: u64,
    pub w3: u64,
}

// What the host's program-derived-address mechanism yields for the escrow
// of a (campaign, donor) pair under this program: a deterministic function
// of the three identities alone. `None` stands for the case that no viable
// derived address exists for the pair.
pub uninterp spec fn escrow_key_of(pid: Pubkey, campaign: Pubkey, donor: Pubkey) -> Option<Pubkey>;

/// Relies on solana_program::pubkey::Pubkey::try_find_program_address,
/// seeded with the campaign and donor addresses: the result is computed
/// from the seeds and the program identity alone (a hash plus a curve
/// check, the same off-chain and via the host's syscall), so it is named
/// by `escrow_key_of`; it returns `None` when no bump seed yields a valid
/// derived address.
#[verifier::external_body]
pub(crate) fn derive_escrow_key(pid: &Pubkey, campaign: &Pubkey, donor: &Pubkey) -> (k: Option<
    Pubkey,
>)
    ensures
        k == escrow_key_of(*pid, *campaign, *donor),
{
    let (c, d, p) = (key_bytes(campaign), key_bytes(donor), key_bytes(pid));
    let found = solana_program::pubkey::Pubkey::try_find_program_address(
        &[&c, &d],
        &solana_program::pubkey::Pubkey::new_from_array(p.try_into().unwrap()),
    );
    found.map(|(addr, _bump)| read_pubkey(&addr.to_bytes(), 0))
}

} // verus!
