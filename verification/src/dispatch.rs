use vstd::prelude::*;

use vstd::slice::{slice_index_get, slice_subrange};

use crate::account::{Account, AccountModel};
use crate::error::CampaignError;
use crate::keys::Pubkey;
use crate::lifecycle::{
    create_campaign, donate, spec_create, spec_donate, spec_withdraw, withdraw,
};

verus! {

/// The account models of a snapshot list.
pub open spec fn views_of(accounts: Seq<Account>) -> Seq<AccountModel> {
    accounts.map_values(|a: Account| a@)
}

/// The whole invocation on account models: route the first instruction
/// byte to one of the three transitions, handing it the leading accounts
/// and the remaining bytes verbatim. Accounts past the ones an operation
/// requires are left untouched; any failure leaves every account untouched
/// (the host also discards the snapshot on failure).
pub open spec fn spec_process(
    pid: Pubkey,
    accounts: Seq<AccountModel>,
    data: Seq<u8>,
    rent_minimum: u64,
) -> Result<Seq<AccountModel>, CampaignError> {
    if data.len() == 0 {
        Err(CampaignError::UnrecognizedInstruction)
    } else {
        let payload = data.skip(1);
        if data[0] == 0 {
            if accounts.len() < 2 {
                Err(CampaignError::NotEnoughAccounts)
            } else {
                match spec_create(pid, accounts[0], accounts[1], payload, rent_minimum) {
                    Ok(nd) => Ok(accounts.update(0, AccountModel { data: nd, ..accounts[0] })),
                    Err(e) => Err(e),
                }
            }
        } else if data[0] == 1 {
            if accounts.len() < 2 {
                Err(CampaignError::NotEnoughAccounts)
            } else {
                match spec_withdraw(pid, accounts[0], accounts[1], payload, rent_minimum) {
                    Ok(bal) => Ok(
                        accounts.update(0, AccountModel { lamports: bal.0, ..accounts[0] }).update(
                            1,
                            AccountModel { lamports: bal.1, ..accounts[1] },
                        ),
                    ),
                    Err(e) => Err(e),
                }
            }
        } else if data[0] == 2 {
            if accounts.len() < 3 {
                Err(CampaignError::NotEnoughAccounts)
            } else {
                match spec_donate(pid, accounts[0], accounts[1], accounts[2]) {
                    Ok(res) => Ok(
                        accounts.update(
                            0,
                            AccountModel { lamports: res.0, data: res.1, ..accounts[0] },
                        ).update(1, AccountModel { lamports: 0, ..accounts[1] }),
                    ),
                    Err(e) => Err(e),
                }
            }
        } else {
            Err(CampaignError::UnrecognizedInstruction)
        }
    }
}

/// Single entry point: reject empty instruction data, route by the tag
/// byte, and pass the remaining bytes to the chosen transition. On success
/// the leading accounts carry the transition's effects; on any error the
/// account list is exactly as it was handed in.
pub fn process_instruction(
    program_id: &Pubkey,
    accounts: &mut Vec<Account>,
    instruction_data: &[u8],
    rent_minimum: u64,
) -> (r: Result<(), CampaignError>)
    ensures
        match spec_process(
            *program_id,
            views_of(old(accounts)@),
            instruction_data@,
            rent_minimum,
        ) {
            Ok(models) => r is Ok && views_of(final(accounts)@) == models
                && final(accounts)@.len() == old(accounts)@.len(),
            Err(e) => r == Err::<(), CampaignError>(e) && final(accounts)@ == old(accounts)@,
        },
{
    let ghost pre = views_of(old(accounts)@);
    if instruction_data.len() == 0 {
        return Err(CampaignError::UnrecognizedInstruction);
    }
    let tag = *slice_index_get(instruction_data, 0);
    let payload = slice_subrange(instruction_data, 1, instruction_data.len());
    proof {
        assert(payload@ =~= instruction_data@.skip(1));
    }
    if tag == 0 {
        if accounts.len() < 2 {
            return Err(CampaignError::NotEnoughAccounts);
        }
        let mut campaign = accounts.remove(0);
        let initializer = accounts.remove(0);
        let r = create_campaign(program_id, &mut campaign, &initializer, payload, rent_minimum);
        accounts.insert(0, initializer);
        accounts.insert(0, campaign);
        proof {
            if r is Ok {
                let nd = spec_create(*program_id, pre[0], pre[1], payload@, rent_minimum)->Ok_0;
                assert(views_of(accounts@) =~= pre.update(
                    0,
                    AccountModel { data: nd, ..pre[0] },
                ));
            } else {
                assert(accounts@ =~= old(accounts)@);
            }
        }
        r
    } else if tag == 1 {
        if accounts.len() < 2 {
            return Err(CampaignError::NotEnoughAccounts);
        }
        let mut campaign = accounts.remove(0);
        let mut admin = accounts.remove(0);
        let r = withdraw(program_id, &mut campaign, &mut admin, payload, rent_minimum);
        accounts.insert(0, admin);
        accounts.insert(0, campaign);
        proof {
            if r is Ok {
                let bal = spec_withdraw(*program_id, pre[0], pre[1], payload@, rent_minimum)->Ok_0;
                assert(views_of(accounts@) =~= pre.update(
                    0,
                    AccountModel { lamports: bal.0, ..pre[0] },
                ).update(1, AccountModel { lamports: bal.1, ..pre[1] }));
            } else {
                assert(accounts@ =~= old(accounts)@);
            }
        }
        r
    } else if tag == 2 {
        if accounts.len() < 3 {
            return Err(CampaignError::NotEnoughAccounts);
        }
        let mut campaign = accounts.remove(0);
        let mut escrow = accounts.remove(0);
        let donor = accounts.remove(0);
        let r = donate(program_id, &mut campaign, &mut escrow, &donor, payload);
        accounts.insert(0, donor);
        accounts.insert(0, escrow);
        accounts.insert(0, campaign);
        proof {
            if r is Ok {
                let res = spec_donate(*program_id, pre[0], pre[1], pre[2])->Ok_0;
                assert(views_of(accounts@) =~= pre.update(
                    0,
                    AccountModel { lamports: res.0, data: res.1, ..pre[0] },
                ).update(1, AccountModel { lamports: 0, ..pre[1] }));
            } else {
                assert(accounts@ =~= old(accounts)@);
            }
        }
        r
    } else {
        Err(CampaignError::UnrecognizedInstruction)
    }
}

/// Law: an empty instruction or an unknown tag byte is rejected as
/// `UnrecognizedInstruction`, and no account changes (the entry point's
/// contract leaves the account list untouched on every error).
pub proof fn lemma_dispatch_unrecognized(
    pid: Pubkey,
    accounts: Seq<AccountModel>,
    data: Seq<u8>,
    rent_minimum: u64,
)
    requires
        data.len() == 0 || (data[0] != 0 && data[0] != 1 && data[0] != 2),
    ensures
        spec_process(pid, accounts, data, rent_minimum) == Err::<
            Seq<AccountModel>,
            CampaignError,
        >(CampaignError::UnrecognizedInstruction),
{
}

} // verus!
