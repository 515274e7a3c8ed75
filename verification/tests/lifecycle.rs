use crowdfund::account::Account;
use crowdfund::codec::{
    decode_campaign, encode_campaign, encode_withdrawal_request, CampaignDetails,
    WithdrawalRequest,
};
use crowdfund::error::CampaignError;
use crowdfund::keys::Pubkey;
use crowdfund::lifecycle::{create_campaign, donate, withdraw};

fn key(n: u64) -> Pubkey {
    Pubkey { w0: n, w1: 2 * n, w2: 3 * n, w3: 4 * n }
}

fn record(admin: Pubkey, amount: u64) -> CampaignDetails {
    CampaignDetails {
        admin,
        name: b"Fund".to_vec(),
        description: b"d".to_vec(),
        image_link: b"i".to_vec(),
        amount_donated: amount,
    }
}

fn account(key: Pubkey, owner: Pubkey, is_signer: bool, lamports: u64, data: Vec<u8>) -> Account {
    Account { key, owner, is_signer, lamports, data }
}

fn key_bytes(k: Pubkey) -> [u8; 32] {
    let mut b = [0u8; 32];
    b[0..8].copy_from_slice(&k.w0.to_le_bytes());
    b[8..16].copy_from_slice(&k.w1.to_le_bytes());
    b[16..24].copy_from_slice(&k.w2.to_le_bytes());
    b[24..32].copy_from_slice(&k.w3.to_le_bytes());
    b
}

/// The escrow address the program accepts: the host's program-derived
/// address for the (campaign, donor) seed pair.
fn derived_escrow(program: Pubkey, campaign: Pubkey, donor: Pubkey) -> Pubkey {
    let (addr, _bump) = solana_program::pubkey::Pubkey::find_program_address(
        &[&key_bytes(campaign), &key_bytes(donor)],
        &solana_program::pubkey::Pubkey::new_from_array(key_bytes(program)),
    );
    let b = addr.to_bytes();
    let word = |i: usize| u64::from_le_bytes(b[i..i + 8].try_into().unwrap());
    Pubkey { w0: word(0), w1: word(8), w2: word(16), w3: word(24) }
}

const RENT: u64 = 500;

#[test]
fn create_stores_record_with_zero_counter() {
    let program = key(100);
    let admin = key(1);
    let payload = encode_campaign(&record(admin, 999));
    let mut campaign = account(key(50), program, false, 1000, vec![0u8; payload.len()]);
    let initializer = account(admin, key(99), true, 10, Vec::new());
    let r = create_campaign(&program, &mut campaign, &initializer, &payload, RENT);
    assert!(r.is_ok());
    let stored = decode_campaign(&campaign.data).unwrap();
    assert_eq!(stored.amount_donated, 0);
    assert_eq!(stored.admin, admin);
    assert_eq!(stored.name, b"Fund".to_vec());
    assert_eq!(stored.description, b"d".to_vec());
    assert_eq!(stored.image_link, b"i".to_vec());
    assert_eq!(campaign.lamports, 1000);
}

#[test]
fn create_preserves_data_region_tail() {
    let program = key(100);
    let admin = key(1);
    let payload = encode_campaign(&record(admin, 0));
    let mut region = vec![0u8; payload.len()];
    region.extend_from_slice(&[9, 9, 9]);
    let mut campaign = account(key(50), program, false, 1000, region);
    let initializer = account(admin, key(99), true, 10, Vec::new());
    let r = create_campaign(&program, &mut campaign, &initializer, &payload, RENT);
    assert!(r.is_ok());
    assert_eq!(&campaign.data[campaign.data.len() - 3..], &[9, 9, 9]);
}

#[test]
fn create_requires_signer() {
    let program = key(100);
    let admin = key(1);
    let payload = encode_campaign(&record(admin, 0));
    let mut campaign = account(key(50), program, false, 1000, vec![0u8; payload.len()]);
    let initializer = account(admin, key(99), false, 10, Vec::new());
    let r = create_campaign(&program, &mut campaign, &initializer, &payload, RENT);
    assert_eq!(r, Err(CampaignError::Unauthorized));
}

#[test]
fn create_requires_program_ownership() {
    let program = key(100);
    let admin = key(1);
    let payload = encode_campaign(&record(admin, 0));
    let mut campaign = account(key(50), key(101), false, 1000, vec![0u8; payload.len()]);
    let initializer = account(admin, key(99), true, 10, Vec::new());
    let r = create_campaign(&program, &mut campaign, &initializer, &payload, RENT);
    assert_eq!(r, Err(CampaignError::WrongOwner));
}

#[test]
fn create_rejects_foreign_admin() {
    let program = key(100);
    let payload = encode_campaign(&record(key(2), 0));
    let mut campaign = account(key(50), program, false, 1000, vec![0u8; payload.len()]);
    let initializer = account(key(1), key(99), true, 10, Vec::new());
    let r = create_campaign(&program, &mut campaign, &initializer, &payload, RENT);
    assert_eq!(r, Err(CampaignError::AdminMismatch));
}

#[test]
fn create_rejects_underfunded_account() {
    let program = key(100);
    let admin = key(1);
    let payload = encode_campaign(&record(admin, 0));
    let mut campaign = account(key(50), program, false, RENT - 1, vec![0u8; payload.len()]);
    let initializer = account(admin, key(99), true, 10, Vec::new());
    let r = create_campaign(&program, &mut campaign, &initializer, &payload, RENT);
    assert_eq!(r, Err(CampaignError::NotRentExempt));
    assert_eq!(campaign.lamports, RENT - 1);
    assert!(campaign.data.iter().all(|b| *b == 0));
}

#[test]
fn create_rejects_malformed_payload() {
    let program = key(100);
    let admin = key(1);
    let mut payload = encode_campaign(&record(admin, 0));
    payload.pop();
    let mut campaign = account(key(50), program, false, 1000, vec![0u8; 128]);
    let initializer = account(admin, key(99), true, 10, Vec::new());
    let r = create_campaign(&program, &mut campaign, &initializer, &payload, RENT);
    assert_eq!(r, Err(CampaignError::MalformedPayload));
}

#[test]
fn create_rejects_small_data_region() {
    let program = key(100);
    let admin = key(1);
    let payload = encode_campaign(&record(admin, 0));
    let mut campaign = account(key(50), program, false, 1000, vec![0u8; payload.len() - 1]);
    let initializer = account(admin, key(99), true, 10, Vec::new());
    let r = create_campaign(&program, &mut campaign, &initializer, &payload, RENT);
    assert_eq!(r, Err(CampaignError::AccountDataTooSmall));
}

#[test]
fn withdraw_enforces_rent_floor_then_succeeds() {
    let program = key(100);
    let admin_key = key(1);
    let data = encode_campaign(&record(admin_key, 0));
    let mut campaign = account(key(50), program, false, 1000, data);
    let mut admin = account(admin_key, key(99), true, 10, Vec::new());

    // 1000 - 600 = 400 would fall below the rent minimum of 500
    let r = withdraw(
        &program,
        &mut campaign,
        &mut admin,
        &encode_withdrawal_request(&WithdrawalRequest { amount: 600 }),
        RENT,
    );
    assert_eq!(r, Err(CampaignError::InsufficientFunds));
    assert_eq!(campaign.lamports, 1000);
    assert_eq!(admin.lamports, 10);

    // 1000 - 400 = 500 stays exactly at the floor
    let r = withdraw(
        &program,
        &mut campaign,
        &mut admin,
        &encode_withdrawal_request(&WithdrawalRequest { amount: 400 }),
        RENT,
    );
    assert!(r.is_ok());
    assert_eq!(campaign.lamports, 600);
    assert_eq!(admin.lamports, 410);
}

#[test]
fn withdraw_rejects_non_admin_signer() {
    let program = key(100);
    let data = encode_campaign(&record(key(1), 0));
    let mut campaign = account(key(50), program, false, 1000, data);
    let mut imposter = account(key(2), key(99), true, 10, Vec::new());
    let r = withdraw(
        &program,
        &mut campaign,
        &mut imposter,
        &encode_withdrawal_request(&WithdrawalRequest { amount: 600 }),
        RENT,
    );
    assert_eq!(r, Err(CampaignError::Unauthorized));
    assert_eq!(campaign.lamports, 1000);
    assert_eq!(imposter.lamports, 10);
}

#[test]
fn withdraw_requires_signature() {
    let program = key(100);
    let admin_key = key(1);
    let data = encode_campaign(&record(admin_key, 0));
    let mut campaign = account(key(50), program, false, 1000, data);
    let mut admin = account(admin_key, key(99), false, 10, Vec::new());
    let r = withdraw(
        &program,
        &mut campaign,
        &mut admin,
        &encode_withdrawal_request(&WithdrawalRequest { amount: 100 }),
        RENT,
    );
    assert_eq!(r, Err(CampaignError::Unauthorized));
}

#[test]
fn withdraw_rejects_malformed_request() {
    let program = key(100);
    let admin_key = key(1);
    let data = encode_campaign(&record(admin_key, 0));
    let mut campaign = account(key(50), program, false, 1000, data);
    let mut admin = account(admin_key, key(99), true, 10, Vec::new());
    let r = withdraw(&program, &mut campaign, &mut admin, &[1, 2, 3], RENT);
    assert_eq!(r, Err(CampaignError::MalformedPayload));
}

#[test]
fn withdraw_fails_closed_on_recipient_overflow() {
    let program = key(100);
    let admin_key = key(1);
    let data = encode_campaign(&record(admin_key, 0));
    let mut campaign = account(key(50), program, false, 1000, data);
    let mut admin = account(admin_key, key(99), true, u64::MAX, Vec::new());
    let r = withdraw(
        &program,
        &mut campaign,
        &mut admin,
        &encode_withdrawal_request(&WithdrawalRequest { amount: 400 }),
        RENT,
    );
    assert_eq!(r, Err(CampaignError::Overflow));
    assert_eq!(campaign.lamports, 1000);
    assert_eq!(admin.lamports, u64::MAX);
}

#[test]
fn donate_drains_escrow_into_campaign() {
    let program = key(100);
    let data = encode_campaign(&record(key(1), 5));
    let mut campaign = account(key(50), program, false, 1000, data);
    let escrow_key = derived_escrow(program, key(50), key(2));
    let mut escrow = account(escrow_key, program, false, 250, Vec::new());
    let donor = account(key(2), key(99), true, 7, Vec::new());
    let r = donate(&program, &mut campaign, &mut escrow, &donor, &[]);
    assert!(r.is_ok());
    assert_eq!(campaign.lamports, 1250);
    assert_eq!(escrow.lamports, 0);
    let stored = decode_campaign(&campaign.data).unwrap();
    assert_eq!(stored.amount_donated, 255);
    assert_eq!(stored.admin, key(1));
}

#[test]
fn donate_on_drained_escrow_changes_nothing() {
    let program = key(100);
    let data = encode_campaign(&record(key(1), 5));
    let mut campaign = account(key(50), program, false, 1000, data);
    let escrow_key = derived_escrow(program, key(50), key(2));
    let mut escrow = account(escrow_key, program, false, 250, Vec::new());
    let donor = account(key(2), key(99), true, 7, Vec::new());
    assert!(donate(&program, &mut campaign, &mut escrow, &donor, &[]).is_ok());
    let data_after = campaign.data.clone();

    // the escrow now holds zero: a second donation moves nothing
    let r = donate(&program, &mut campaign, &mut escrow, &donor, &[]);
    assert!(r.is_ok());
    assert_eq!(campaign.lamports, 1250);
    assert_eq!(escrow.lamports, 0);
    assert_eq!(campaign.data, data_after);
    assert_eq!(decode_campaign(&campaign.data).unwrap().amount_donated, 255);
}

#[test]
fn donate_requires_campaign_ownership() {
    let program = key(100);
    let data = encode_campaign(&record(key(1), 0));
    let mut campaign = account(key(50), key(101), false, 1000, data);
    let mut escrow = account(key(60), program, false, 250, Vec::new());
    let donor = account(key(2), key(99), true, 7, Vec::new());
    let r = donate(&program, &mut campaign, &mut escrow, &donor, &[]);
    assert_eq!(r, Err(CampaignError::WrongOwner));
}

#[test]
fn donate_requires_escrow_ownership() {
    let program = key(100);
    let data = encode_campaign(&record(key(1), 0));
    let mut campaign = account(key(50), program, false, 1000, data);
    let mut escrow = account(key(60), key(101), false, 250, Vec::new());
    let donor = account(key(2), key(99), true, 7, Vec::new());
    let r = donate(&program, &mut campaign, &mut escrow, &donor, &[]);
    assert_eq!(r, Err(CampaignError::WrongOwner));
    assert_eq!(escrow.lamports, 250);
}

#[test]
fn donate_requires_donor_signature() {
    let program = key(100);
    let data = encode_campaign(&record(key(1), 0));
    let mut campaign = account(key(50), program, false, 1000, data);
    let mut escrow = account(key(60), program, false, 250, Vec::new());
    let donor = account(key(2), key(99), false, 7, Vec::new());
    let r = donate(&program, &mut campaign, &mut escrow, &donor, &[]);
    assert_eq!(r, Err(CampaignError::Unauthorized));
}

#[test]
fn donate_fails_closed_on_counter_overflow() {
    let program = key(100);
    let data = encode_campaign(&record(key(1), u64::MAX));
    let mut campaign = account(key(50), program, false, 1000, data.clone());
    let escrow_key = derived_escrow(program, key(50), key(2));
    let mut escrow = account(escrow_key, program, false, 1, Vec::new());
    let donor = account(key(2), key(99), true, 7, Vec::new());
    let r = donate(&program, &mut campaign, &mut escrow, &donor, &[]);
    assert_eq!(r, Err(CampaignError::Overflow));
    assert_eq!(campaign.lamports, 1000);
    assert_eq!(escrow.lamports, 1);
    assert_eq!(campaign.data, data);
}

#[test]
fn donate_rejects_underived_escrow() {
    let program = key(100);
    let data = encode_campaign(&record(key(1), 5));
    let mut campaign = account(key(50), program, false, 1000, data.clone());
    // program-owned, but not the derived address for (campaign, donor)
    let mut escrow = account(key(60), program, false, 250, Vec::new());
    let donor = account(key(2), key(99), true, 7, Vec::new());
    let r = donate(&program, &mut campaign, &mut escrow, &donor, &[]);
    assert_eq!(r, Err(CampaignError::Unauthorized));
    assert_eq!(campaign.lamports, 1000);
    assert_eq!(escrow.lamports, 250);
    assert_eq!(campaign.data, data);
}

#[test]
fn donate_cannot_drain_another_campaign() {
    let program = key(100);
    let mut campaign_a = account(key(50), program, false, 1000, encode_campaign(&record(key(1), 0)));
    // a second campaign: program-owned with a balance, handed in as the escrow
    let mut campaign_b = account(key(51), program, false, 800, encode_campaign(&record(key(3), 0)));
    let donor = account(key(2), key(99), true, 7, Vec::new());
    let r = donate(&program, &mut campaign_a, &mut campaign_b, &donor, &[]);
    assert_eq!(r, Err(CampaignError::Unauthorized));
    assert_eq!(campaign_a.lamports, 1000);
    assert_eq!(campaign_b.lamports, 800);
}
