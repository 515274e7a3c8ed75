use vstd::prelude::*;

use crate::account::{Account, AccountModel};
use crate::codec::{
    decode_campaign, decode_withdrawal_request, encode_campaign, lemma_campaign_canonical,
    lemma_campaign_round_trip, lemma_encode_campaign_len, spec_decode_campaign,
    spec_decode_withdrawal, spec_encode_campaign, spec_encoded_len, CampaignDetails,
    CampaignModel,
};
use crate::error::CampaignError;
use crate::keys::{derive_escrow_key, escrow_key_of, Pubkey};

verus! {

/// The create transition on account models: validates the account pair and
/// the payload, and on success yields the campaign account's new data
/// region — the payload's record with its donation counter overwritten to
/// zero, followed by the untouched tail of the region.
pub open spec fn spec_create(
    pid: Pubkey,
    campaign: AccountModel,
    initializer: AccountModel,
    payload: Seq<u8>,
    rent_minimum: u64,
) -> Result<Seq<u8>, CampaignError> {
    if !initializer.is_signer {
        Err(CampaignError::Unauthorized)
    } else if campaign.owner != pid {
        Err(CampaignError::WrongOwner)
    } else {
        match spec_decode_campaign(payload) {
            None => Err(CampaignError::MalformedPayload),
            Some(m) => {
                if m.admin != initializer.key {
                    Err(CampaignError::AdminMismatch)
                } else if campaign.lamports < rent_minimum {
                    Err(CampaignError::NotRentExempt)
                } else {
                    let enc = spec_encode_campaign(CampaignModel { amount_donated: 0, ..m });
                    if enc.len() > campaign.data.len() {
                        Err(CampaignError::AccountDataTooSmall)
                    } else {
                        Ok(enc + campaign.data.skip(enc.len() as int))
                    }
                }
            },
        }
    }
}

/// The withdraw transition on account models: validates the claimed admin
/// against the stored record and the rent floor, and on success yields the
/// new (campaign, admin) balances.
pub open spec fn spec_withdraw(
    pid: Pubkey,
    campaign: AccountModel,
    admin: AccountModel,
    payload: Seq<u8>,
    rent_minimum: u64,
) -> Result<(u64, u64), CampaignError> {
    if !admin.is_signer {
        Err(CampaignError::Unauthorized)
    } else if campaign.owner != pid {
        Err(CampaignError::WrongOwner)
    } else {
        match spec_decode_campaign(campaign.data) {
            None => Err(CampaignError::MalformedPayload),
            Some(m) => {
                if m.admin != admin.key {
                    Err(CampaignError::Unauthorized)
                } else {
                    match spec_decode_withdrawal(payload) {
                        None => Err(CampaignError::MalformedPayload),
                        Some(amount) => {
                            if campaign.lamports < rent_minimum + amount {
                                Err(CampaignError::InsufficientFunds)
                            } else if admin.lamports + amount > u64::MAX {
                                Err(CampaignError::Overflow)
                            } else {
                                Ok(
                                    (
                                        (campaign.lamports - amount) as u64,
                                        (admin.lamports + amount) as u64,
                                    ),
                                )
                            }
                        },
                    }
                }
            },
        }
    }
}

/// The donate transition on account models: validates ownership of the
/// campaign and escrow accounts, the donor's signature, and that the
/// escrow's address is the program-derived address for the (campaign,
/// donor) pair — ownership alone would let any program-owned account,
/// another campaign included, be drained through the escrow slot. On
/// success it yields the campaign account's new balance and new data
/// region. The escrow's whole balance `v` is observed once and used for
/// both the balance move and the counter update; the escrow balance
/// becomes zero.
pub open spec fn spec_donate(
    pid: Pubkey,
    campaign: AccountModel,
    escrow: AccountModel,
    donor: AccountModel,
) -> Result<(u64, Seq<u8>), CampaignError> {
    if campaign.owner != pid {
        Err(CampaignError::WrongOwner)
    } else if escrow.owner != pid {
        Err(CampaignError::WrongOwner)
    } else if !donor.is_signer {
        Err(CampaignError::Unauthorized)
    } else if escrow_key_of(pid, campaign.key, donor.key) != Some(escrow.key) {
        Err(CampaignError::Unauthorized)
    } else {
        match spec_decode_campaign(campaign.data) {
            None => Err(CampaignError::MalformedPayload),
            Some(m) => {
                let v = escrow.lamports;
                if m.amount_donated + v > u64::MAX || campaign.lamports + v > u64::MAX {
                    Err(CampaignError::Overflow)
                } else {
                    let updated = CampaignModel {
                        amount_donated: (m.amount_donated + v) as u64,
                        ..m
                    };
                    Ok(((campaign.lamports + v) as u64, spec_encode_campaign(updated)))
                }
            },
        }
    }
}

/// Uninitialized -> Active: validate the account pair and the payload, then
/// write the record with its donation counter forced to zero into the
/// campaign account's data region. Bytes of the region beyond the record
/// are left as they were. On any failure the account is untouched.
pub fn create_campaign(
    program_id: &Pubkey,
    campaign: &mut Account,
    initializer: &Account,
    payload: &[u8],
    rent_minimum: u64,
) -> (r: Result<(), CampaignError>)
    ensures
        match spec_create(*program_id, old(campaign)@, initializer@, payload@, rent_minimum) {
            Ok(nd) => r is Ok && final(campaign)@ == (AccountModel { data: nd, ..old(campaign)@ }),
            Err(e) => r == Err::<(), CampaignError>(e) && *final(campaign) == *old(campaign),
        },
{
    if !initializer.is_signer {
        return Err(CampaignError::Unauthorized);
    }
    if !(campaign.owner == *program_id) {
        return Err(CampaignError::WrongOwner);
    }
    let decoded = match decode_campaign(payload) {
        Ok(c) => c,
        Err(e) => {
            return Err(e);
        },
    };
    if !(decoded.admin == initializer.key) {
        return Err(CampaignError::AdminMismatch);
    }
    if campaign.lamports < rent_minimum {
        return Err(CampaignError::NotRentExempt);
    }
    let stored = CampaignDetails { amount_donated: 0, ..decoded };
    proof {
        assert(stored@ =~= (CampaignModel {
            amount_donated: 0,
            ..spec_decode_campaign(payload@)->Some_0
        }));
    }
    let mut nd = encode_campaign(&stored);
    if nd.len() > campaign.data.len() {
        return Err(CampaignError::AccountDataTooSmall);
    }
    let ghost enc = nd@;
    let mut i: usize = nd.len();
    while i < campaign.data.len()
        invariant
            enc.len() <= i <= campaign.data.len(),
            nd@ == enc + campaign.data@.subrange(enc.len() as int, i as int),
        decreases campaign.data.len() - i,
    {
        let b = campaign.data[i];
        nd.push(b);
        proof {
            assert(enc + campaign.data@.subrange(enc.len() as int, i as int) + seq![
                campaign.data@[i as int],
            ] =~= enc + campaign.data@.subrange(enc.len() as int, i as int + 1));
        }
        i = i + 1;
    }
    proof {
        assert(nd@ =~= enc + old(campaign).data@.skip(enc.len() as int));
    }
    campaign.data = nd;
    Ok(())
}

/// Active -> Active, balance decreases: validate the claimed admin and the
/// rent floor, then move the requested amount from the campaign account's
/// balance to the admin's. On any failure both accounts are untouched.
pub fn withdraw(
    program_id: &Pubkey,
    campaign: &mut Account,
    admin: &mut Account,
    payload: &[u8],
    rent_minimum: u64,
) -> (r: Result<(), CampaignError>)
    ensures
        match spec_withdraw(*program_id, old(campaign)@, old(admin)@, payload@, rent_minimum) {
            Ok(bal) => r is Ok && final(campaign)@ == (AccountModel {
                lamports: bal.0,
                ..old(campaign)@
            }) && final(admin)@ == (AccountModel { lamports: bal.1, ..old(admin)@ }),
            Err(e) => r == Err::<(), CampaignError>(e) && *final(campaign) == *old(campaign)
                && *final(admin) == *old(admin),
        },
{
    if !admin.is_signer {
        return Err(CampaignError::Unauthorized);
    }
    if !(campaign.owner == *program_id) {
        return Err(CampaignError::WrongOwner);
    }
    let stored = match decode_campaign(campaign.data.as_slice()) {
        Ok(c) => c,
        Err(e) => {
            return Err(e);
        },
    };
    if !(stored.admin == admin.key) {
        return Err(CampaignError::Unauthorized);
    }
    let request = match decode_withdrawal_request(payload) {
        Ok(w) => w,
        Err(e) => {
            return Err(e);
        },
    };
    if campaign.lamports < rent_minimum || campaign.lamports - rent_minimum < request.amount {
        return Err(CampaignError::InsufficientFunds);
    }
    if request.amount > u64::MAX - admin.lamports {
        return Err(CampaignError::Overflow);
    }
    campaign.lamports = campaign.lamports - request.amount;
    admin.lamports = admin.lamports + request.amount;
    Ok(())
}

/// Active -> Active, counter and balance increase: drain the escrow
/// account's whole balance into the campaign account and add the same
/// amount to the stored record's donation counter, re-serializing the
/// record. The escrow account must sit at the program-derived address for
/// the (campaign, donor) pair; any other account is refused, whoever owns
/// it. On any failure all three accounts are untouched.
pub fn donate(
    program_id: &Pubkey,
    campaign: &mut Account,
    escrow: &mut Account,
    donor: &Account,
    _payload: &[u8],
) -> (r: Result<(), CampaignError>)
    ensures
        match spec_donate(*program_id, old(campaign)@, old(escrow)@, donor@) {
            Ok(res) => r is Ok && final(campaign)@ == (AccountModel {
                lamports: res.0,
                data: res.1,
                ..old(campaign)@
            }) && final(escrow)@ == (AccountModel { lamports: 0, ..old(escrow)@ }),
            Err(e) => r == Err::<(), CampaignError>(e) && *final(campaign) == *old(campaign)
                && *final(escrow) == *old(escrow),
        },
{
    if !(campaign.owner == *program_id) {
        return Err(CampaignError::WrongOwner);
    }
    if !(escrow.owner == *program_id) {
        return Err(CampaignError::WrongOwner);
    }
    if !donor.is_signer {
        return Err(CampaignError::Unauthorized);
    }
    let derived = derive_escrow_key(program_id, &campaign.key, &donor.key);
    let derived_matches = match derived {
        Some(k) => k == escrow.key,
        None => false,
    };
    if !derived_matches {
        return Err(CampaignError::Unauthorized);
    }
    let stored = match decode_campaign(campaign.data.as_slice()) {
        Ok(c) => c,
        Err(e) => {
            return Err(e);
        },
    };
    let v = escrow.lamports;
    if v > u64::MAX - stored.amount_donated {
        return Err(CampaignError::Overflow);
    }
    if v > u64::MAX - campaign.lamports {
        return Err(CampaignError::Overflow);
    }
    let counter = stored.amount_donated + v;
    let updated = CampaignDetails { amount_donated: counter, ..stored };
    proof {
        assert(updated@ =~= (CampaignModel {
            amount_donated: counter,
            ..spec_decode_campaign(old(campaign).data@)->Some_0
        }));
    }
    let nd = encode_campaign(&updated);
    campaign.lamports = campaign.lamports + v;
    campaign.data = nd;
    escrow.lamports = 0;
    Ok(())
}

/// Law: a successful creation stores a record whose donation counter is
/// zero and whose admin is the signing initializer, whatever counter value
/// the payload carried. The stored record is the encoded prefix of the new
/// data region and decodes back exactly.
pub proof fn lemma_create_zeroes_counter(
    pid: Pubkey,
    campaign: AccountModel,
    initializer: AccountModel,
    payload: Seq<u8>,
    rent_minimum: u64,
)
    requires
        spec_create(pid, campaign, initializer, payload, rent_minimum) is Ok,
    ensures
        ({
            let nd = spec_create(pid, campaign, initializer, payload, rent_minimum)->Ok_0;
            let m = spec_decode_campaign(payload)->Some_0;
            let stored = CampaignModel { amount_donated: 0, ..m };
            &&& stored.amount_donated == 0
            &&& stored.admin == initializer.key
            &&& nd.take(spec_encoded_len(stored)) == spec_encode_campaign(stored)
            &&& spec_decode_campaign(nd.take(spec_encoded_len(stored))) == Some(stored)
        }),
{
    let nd = spec_create(pid, campaign, initializer, payload, rent_minimum)->Ok_0;
    let m = spec_decode_campaign(payload)->Some_0;
    let stored = CampaignModel { amount_donated: 0, ..m };
    lemma_campaign_canonical(payload);
    lemma_campaign_round_trip(stored);
    lemma_encode_campaign_len(stored);
    assert(nd.take(spec_encoded_len(stored)) =~= spec_encode_campaign(stored));
}

/// Law: creation reports `AdminMismatch` whenever the payload decodes but
/// designates an admin other than the signing initializer, all earlier
/// checks passing.
pub proof fn lemma_create_admin_mismatch(
    pid: Pubkey,
    campaign: AccountModel,
    initializer: AccountModel,
    payload: Seq<u8>,
    rent_minimum: u64,
)
    requires
        initializer.is_signer,
        campaign.owner == pid,
        spec_decode_campaign(payload) is Some,
        spec_decode_campaign(payload)->Some_0.admin != initializer.key,
    ensures
        spec_create(pid, campaign, initializer, payload, rent_minimum) == Err::<
            Seq<u8>,
            CampaignError,
        >(CampaignError::AdminMismatch),
{
}

/// Law: creation reports `NotRentExempt` whenever the campaign account's
/// balance is below the rent-exemption minimum, for any payload that
/// passes the earlier checks.
pub proof fn lemma_create_not_rent_exempt(
    pid: Pubkey,
    campaign: AccountModel,
    initializer: AccountModel,
    payload: Seq<u8>,
    rent_minimum: u64,
)
    requires
        initializer.is_signer,
        campaign.owner == pid,
        spec_decode_campaign(payload) is Some,
        spec_decode_campaign(payload)->Some_0.admin == initializer.key,
        campaign.lamports < rent_minimum,
    ensures
        spec_create(pid, campaign, initializer, payload, rent_minimum) == Err::<
            Seq<u8>,
            CampaignError,
        >(CampaignError::NotRentExempt),
{
}

/// Law: a withdrawal never leaves the campaign balance below the
/// rent-exemption minimum; a request that would breach the floor (or
/// overdraw) is reported as `InsufficientFunds`.
pub proof fn lemma_withdraw_respects_rent_floor(
    pid: Pubkey,
    campaign: AccountModel,
    admin: AccountModel,
    payload: Seq<u8>,
    rent_minimum: u64,
)
    ensures
        spec_withdraw(pid, campaign, admin, payload, rent_minimum) matches Ok(bal) ==> bal.0
            >= rent_minimum,
        (admin.is_signer && campaign.owner == pid && spec_decode_campaign(campaign.data) is Some
            && spec_decode_campaign(campaign.data)->Some_0.admin == admin.key
            && spec_decode_withdrawal(payload) is Some && campaign.lamports < rent_minimum
            + spec_decode_withdrawal(payload)->Some_0) ==> spec_withdraw(
            pid,
            campaign,
            admin,
            payload,
            rent_minimum,
        ) == Err::<(u64, u64), CampaignError>(CampaignError::InsufficientFunds),
{
}

/// Law: a withdrawal signed by anyone other than the stored admin is
/// reported as `Unauthorized`, even when that signer did sign.
pub proof fn lemma_withdraw_unauthorized(
    pid: Pubkey,
    campaign: AccountModel,
    admin: AccountModel,
    payload: Seq<u8>,
    rent_minimum: u64,
)
    requires
        admin.is_signer,
        campaign.owner == pid,
        spec_decode_campaign(campaign.data) is Some,
        spec_decode_campaign(campaign.data)->Some_0.admin != admin.key,
    ensures
        spec_withdraw(pid, campaign, admin, payload, rent_minimum) == Err::<
            (u64, u64),
            CampaignError,
        >(CampaignError::Unauthorized),
{
}

/// Law: donating is idempotent once the escrow is drained. Running the
/// transition again on the post-state — the escrow at balance zero — moves
/// no value and leaves the campaign balance, data region and donation
/// counter exactly as they were.
pub proof fn lemma_donate_idempotent(
    pid: Pubkey,
    campaign: AccountModel,
    escrow: AccountModel,
    donor: AccountModel,
)
    requires
        spec_donate(pid, campaign, escrow, donor) is Ok,
    ensures
        ({
            let res = spec_donate(pid, campaign, escrow, donor)->Ok_0;
            let campaign_after = AccountModel { lamports: res.0, data: res.1, ..campaign };
            let escrow_after = AccountModel { lamports: 0, ..escrow };
            spec_donate(pid, campaign_after, escrow_after, donor) == Ok::<
                (u64, Seq<u8>),
                CampaignError,
            >(res)
        }),
{
    let res = spec_donate(pid, campaign, escrow, donor)->Ok_0;
    let campaign_after = AccountModel { lamports: res.0, data: res.1, ..campaign };
    let m = spec_decode_campaign(campaign.data)->Some_0;
    let v = escrow.lamports;
    let updated = CampaignModel { amount_donated: (m.amount_donated + v) as u64, ..m };
    lemma_campaign_canonical(campaign.data);
    lemma_campaign_round_trip(updated);
    let again = CampaignModel { amount_donated: (updated.amount_donated + 0) as u64, ..updated };
    assert(again =~= updated);
}

/// Law: a successful donation increases the campaign balance by exactly
/// the escrow's pre-call balance `v` and stores a record identical to the
/// old one except for a donation counter raised by exactly `v`.
pub proof fn lemma_donate_effects(
    pid: Pubkey,
    campaign: AccountModel,
    escrow: AccountModel,
    donor: AccountModel,
)
    requires
        spec_donate(pid, campaign, escrow, donor) is Ok,
    ensures
        ({
            let res = spec_donate(pid, campaign, escrow, donor)->Ok_0;
            let m = spec_decode_campaign(campaign.data)->Some_0;
            let v = escrow.lamports;
            &&& res.0 == campaign.lamports + v
            &&& spec_decode_campaign(res.1) == Some(
                CampaignModel { amount_donated: (m.amount_donated + v) as u64, ..m },
            )
            &&& res.1.len() == campaign.data.len()
        }),
{
    let m = spec_decode_campaign(campaign.data)->Some_0;
    let v = escrow.lamports;
    let updated = CampaignModel { amount_donated: (m.amount_donated + v) as u64, ..m };
    lemma_campaign_canonical(campaign.data);
    lemma_campaign_round_trip(updated);
    lemma_encode_campaign_len(updated);
    lemma_encode_campaign_len(m);
}

/// Law: the stored record's donation counter never decreases and its
/// admin and text fields never change across a donation. (A withdrawal
/// leaves the data region untouched altogether, by its contract; only
/// creation writes a fresh record, with the counter at zero.)
pub proof fn lemma_donate_counter_monotonic(
    pid: Pubkey,
    campaign: AccountModel,
    escrow: AccountModel,
    donor: AccountModel,
)
    requires
        spec_donate(pid, campaign, escrow, donor) is Ok,
    ensures
        ({
            let res = spec_donate(pid, campaign, escrow, donor)->Ok_0;
            let before = spec_decode_campaign(campaign.data)->Some_0;
            let after = spec_decode_campaign(res.1)->Some_0;
            &&& after.amount_donated >= before.amount_donated
            &&& after.admin == before.admin
            &&& after.name == before.name
            &&& after.description == before.description
            &&& after.image_link == before.image_link
        }),
{
    lemma_donate_effects(pid, campaign, escrow, donor);
}

} // verus!
