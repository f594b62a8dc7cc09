use lvm_media::error::{LVMError, ProcessError};
use lvm_media::processor::{Account, Processor};
use lvm_media::state::{AccessTime, Media, ACCESS_TIME_LEN, MEDIA_LEN};

use spl_token::solana_program::program_pack::Pack;

fn spl_id_bytes() -> [u8; 32] {
    spl_token::id().to_bytes()
}

fn plain_account(key: u8) -> Account {
    Account {
        key: [key; 32],
        is_signer: false,
        owner: [0u8; 32],
        lamports: 0,
        data: Vec::new(),
    }
}

fn signer_account(key: u8) -> Account {
    let mut account = plain_account(key);
    account.is_signer = true;
    account
}

fn token_account(key: u8, amount: u64) -> Account {
    // A 165-byte token-account snapshot, packed by the token program itself.
    let state = spl_token::state::Account {
        mint: spl_token::solana_program::pubkey::Pubkey::new_from_array([1u8; 32]),
        owner: spl_token::solana_program::pubkey::Pubkey::new_from_array([2u8; 32]),
        amount,
        delegate: spl_token::solana_program::program_option::COption::None,
        state: spl_token::state::AccountState::Initialized,
        is_native: spl_token::solana_program::program_option::COption::None,
        delegated_amount: 0,
        close_authority: spl_token::solana_program::program_option::COption::None,
    };
    let mut data = vec![0u8; spl_token::state::Account::LEN];
    spl_token::state::Account::pack(state, &mut data).unwrap();
    let mut account = plain_account(key);
    account.owner = spl_id_bytes();
    account.data = data;
    account
}

fn media_account(key: u8, price_per_minute: u64, distributor_fee: u64) -> Account {
    let media = Media {
        author_pubkey: [21u8; 32],
        price_per_minute,
        distributor_fee,
        nft_token: [22u8; 32],
        nft_account_pubkey: [23u8; 32],
    };
    let mut data = vec![0u8; MEDIA_LEN];
    Media::pack(media, &mut data).unwrap();
    let mut account = plain_account(key);
    account.data = data;
    account
}

fn storage_account(key: u8, len: usize) -> Account {
    let mut account = plain_account(key);
    account.data = vec![0u8; len];
    account
}

#[test]
fn create_media_writes_all_five_fields() {
    let author = signer_account(1);
    let mut nft_token_account = plain_account(2);
    nft_token_account.owner = spl_id_bytes();
    let mut lvm_account = storage_account(3, MEDIA_LEN);
    let nft_program = plain_account(4);

    Processor::process_create_media(
        &author,
        &nft_token_account,
        &mut lvm_account,
        &nft_program,
        true,
        10,
        100,
    )
    .unwrap();

    let stored = Media::unpack_unchecked(&lvm_account.data).unwrap();
    assert_eq!(stored.author_pubkey, [1u8; 32]);
    assert_eq!(stored.price_per_minute, 100);
    assert_eq!(stored.distributor_fee, 10);
    assert_eq!(stored.nft_token, [4u8; 32]);
    assert_eq!(stored.nft_account_pubkey, [2u8; 32]);
}

#[test]
fn create_media_requires_author_signature() {
    let author = plain_account(1);
    let mut nft_token_account = plain_account(2);
    nft_token_account.owner = spl_id_bytes();
    let mut lvm_account = storage_account(3, MEDIA_LEN);
    let nft_program = plain_account(4);

    let err = Processor::process_create_media(
        &author,
        &nft_token_account,
        &mut lvm_account,
        &nft_program,
        true,
        10,
        100,
    )
    .unwrap_err();
    assert_eq!(err, ProcessError::MissingRequiredSignature);
    assert_eq!(lvm_account.data, vec![0u8; MEDIA_LEN]);
}

#[test]
fn create_media_requires_token_program_ownership() {
    let author = signer_account(1);
    let nft_token_account = plain_account(2);
    let mut lvm_account = storage_account(3, MEDIA_LEN);
    let nft_program = plain_account(4);

    let err = Processor::process_create_media(
        &author,
        &nft_token_account,
        &mut lvm_account,
        &nft_program,
        true,
        10,
        100,
    )
    .unwrap_err();
    assert_eq!(err, ProcessError::IncorrectProgramId);
}

#[test]
fn create_media_requires_rent_exemption() {
    let author = signer_account(1);
    let mut nft_token_account = plain_account(2);
    nft_token_account.owner = spl_id_bytes();
    let mut lvm_account = storage_account(3, MEDIA_LEN);
    let nft_program = plain_account(4);

    let err = Processor::process_create_media(
        &author,
        &nft_token_account,
        &mut lvm_account,
        &nft_program,
        false,
        10,
        100,
    )
    .unwrap_err();
    assert_eq!(err, ProcessError::Lvm(LVMError::NotRentExempt));
}

#[test]
fn create_media_rejects_wrong_storage_size() {
    let author = signer_account(1);
    let mut nft_token_account = plain_account(2);
    nft_token_account.owner = spl_id_bytes();
    let mut lvm_account = storage_account(3, MEDIA_LEN - 1);
    let nft_program = plain_account(4);

    let err = Processor::process_create_media(
        &author,
        &nft_token_account,
        &mut lvm_account,
        &nft_program,
        true,
        10,
        100,
    )
    .unwrap_err();
    assert_eq!(err, ProcessError::InvalidAccountData);
}

#[test]
fn purchase_splits_cost_between_distributor_and_author() {
    // price 100, fee 10, time 5: total 500; 10 / 100 truncates to 0, so the
    // distributor gets 0 and the author the full 500.
    let payer = signer_account(1);
    let buyer = signer_account(2);
    let mut lvm_account = storage_account(3, ACCESS_TIME_LEN);
    let media = media_account(4, 100, 10);
    let author_token = token_account(5, 0);
    let distributor_token = token_account(6, 0);
    let buyer_token = token_account(7, 500);
    let mut token_program = plain_account(8);
    token_program.key = spl_id_bytes();

    let (to_distributor, to_author) = Processor::process_purchase_time(
        &payer,
        &buyer,
        &mut lvm_account,
        &media,
        &author_token,
        &distributor_token,
        &buyer_token,
        &token_program,
        true,
        5,
    )
    .unwrap();

    assert_eq!(to_distributor.amount, 0);
    assert_eq!(to_author.amount, 500);
    assert_eq!(to_distributor.amount + to_author.amount, 5 * 100);
    assert_eq!(to_distributor.source, [7u8; 32]);
    assert_eq!(to_distributor.destination, [6u8; 32]);
    assert_eq!(to_distributor.authority, [2u8; 32]);
    assert_eq!(to_author.source, [7u8; 32]);
    assert_eq!(to_author.destination, [5u8; 32]);
    assert_eq!(to_author.authority, [2u8; 32]);
    assert_eq!(to_author.token_program, spl_id_bytes());

    let record = AccessTime::unpack_unchecked(&lvm_account.data).unwrap();
    assert_eq!(record.owner_pubkey, [2u8; 32]);
    assert_eq!(record.total_time, 5);
    assert_eq!(record.time_spent, 0);
}

#[test]
fn purchase_with_even_fee_split() {
    // Fee 100 routes everything to the distributor: 100 / 100 == 1.
    let payer = signer_account(1);
    let buyer = signer_account(2);
    let mut lvm_account = storage_account(3, ACCESS_TIME_LEN);
    let media = media_account(4, 7, 100);
    let author_token = token_account(5, 0);
    let distributor_token = token_account(6, 0);
    let buyer_token = token_account(7, 100);
    let mut token_program = plain_account(8);
    token_program.key = spl_id_bytes();

    let (to_distributor, to_author) = Processor::process_purchase_time(
        &payer,
        &buyer,
        &mut lvm_account,
        &media,
        &author_token,
        &distributor_token,
        &buyer_token,
        &token_program,
        true,
        3,
    )
    .unwrap();
    assert_eq!(to_distributor.amount, 21);
    assert_eq!(to_author.amount, 0);
}

#[test]
fn purchase_rejects_insufficient_balance() {
    let payer = signer_account(1);
    let buyer = signer_account(2);
    let mut lvm_account = storage_account(3, ACCESS_TIME_LEN);
    let media = media_account(4, 100, 10);
    let author_token = token_account(5, 0);
    let distributor_token = token_account(6, 0);
    let buyer_token = token_account(7, 499);
    let mut token_program = plain_account(8);
    token_program.key = spl_id_bytes();

    let before = lvm_account.data.clone();
    let err = Processor::process_purchase_time(
        &payer,
        &buyer,
        &mut lvm_account,
        &media,
        &author_token,
        &distributor_token,
        &buyer_token,
        &token_program,
        true,
        5,
    )
    .unwrap_err();
    assert_eq!(err, ProcessError::Lvm(LVMError::InsufficientTokenBalance));
    assert_eq!(lvm_account.data, before);
}

#[test]
fn purchase_rejects_uninitialized_buyer_token_account() {
    let payer = signer_account(1);
    let buyer = signer_account(2);
    let mut lvm_account = storage_account(3, ACCESS_TIME_LEN);
    let media = media_account(4, 100, 10);
    let author_token = token_account(5, 0);
    let distributor_token = token_account(6, 0);
    let mut buyer_token = plain_account(7);
    buyer_token.owner = spl_id_bytes();
    buyer_token.data = vec![0u8; 165];
    let mut token_program = plain_account(8);
    token_program.key = spl_id_bytes();

    let err = Processor::process_purchase_time(
        &payer,
        &buyer,
        &mut lvm_account,
        &media,
        &author_token,
        &distributor_token,
        &buyer_token,
        &token_program,
        true,
        5,
    )
    .unwrap_err();
    assert_eq!(err, ProcessError::UninitializedAccount);
}

#[test]
fn purchase_rejects_wrong_token_program_identity() {
    let payer = signer_account(1);
    let buyer = signer_account(2);
    let mut lvm_account = storage_account(3, ACCESS_TIME_LEN);
    let media = media_account(4, 100, 10);
    let author_token = token_account(5, 0);
    let distributor_token = token_account(6, 0);
    let buyer_token = token_account(7, 500);
    let token_program = plain_account(8);

    let err = Processor::process_purchase_time(
        &payer,
        &buyer,
        &mut lvm_account,
        &media,
        &author_token,
        &distributor_token,
        &buyer_token,
        &token_program,
        true,
        5,
    )
    .unwrap_err();
    assert_eq!(err, ProcessError::IncorrectProgramId);
}

#[test]
fn purchase_requires_both_signatures() {
    let payer = plain_account(1);
    let buyer = signer_account(2);
    let mut lvm_account = storage_account(3, ACCESS_TIME_LEN);
    let media = media_account(4, 100, 10);
    let author_token = token_account(5, 0);
    let distributor_token = token_account(6, 0);
    let buyer_token = token_account(7, 500);
    let mut token_program = plain_account(8);
    token_program.key = spl_id_bytes();

    let err = Processor::process_purchase_time(
        &payer,
        &buyer,
        &mut lvm_account,
        &media,
        &author_token,
        &distributor_token,
        &buyer_token,
        &token_program,
        true,
        5,
    )
    .unwrap_err();
    assert_eq!(err, ProcessError::MissingRequiredSignature);
}

fn access_time_storage(key: u8, owner: u8, total_time: u64, time_spent: u64) -> Account {
    let record = AccessTime { owner_pubkey: [owner; 32], total_time, time_spent };
    let mut data = vec![0u8; ACCESS_TIME_LEN];
    AccessTime::pack(record, &mut data).unwrap();
    let mut account = plain_account(key);
    account.data = data;
    account
}

#[test]
fn update_rejects_reduced_access_time() {
    let mut payer = signer_account(1);
    let mut lvm_account = access_time_storage(3, 2, 60, 10);
    let before = lvm_account.data.clone();

    let err = Processor::update_access_time(&mut payer, &mut lvm_account, 5).unwrap_err();
    assert_eq!(err, ProcessError::Lvm(LVMError::AccessTimeCannotReduce));
    assert_eq!(lvm_account.data, before);
    assert_eq!(payer.lamports, 0);
}

#[test]
fn update_persists_partial_consumption() {
    let mut payer = signer_account(1);
    payer.lamports = 11;
    let mut lvm_account = access_time_storage(3, 2, 60, 10);
    lvm_account.lamports = 1000;

    Processor::update_access_time(&mut payer, &mut lvm_account, 30).unwrap();
    let record = AccessTime::unpack_unchecked(&lvm_account.data).unwrap();
    assert_eq!(record.owner_pubkey, [2u8; 32]);
    assert_eq!(record.total_time, 60);
    assert_eq!(record.time_spent, 30);
    assert_eq!(lvm_account.lamports, 1000);
    assert_eq!(payer.lamports, 11);
}

#[test]
fn update_reclaims_exhausted_record() {
    let mut payer = signer_account(1);
    payer.lamports = 11;
    let mut lvm_account = access_time_storage(3, 2, 60, 10);
    lvm_account.lamports = 1000;

    Processor::update_access_time(&mut payer, &mut lvm_account, 60).unwrap();
    assert_eq!(payer.lamports, 1011);
    assert_eq!(lvm_account.lamports, 0);
    assert!(lvm_account.data.is_empty());
}

#[test]
fn update_reclamation_detects_balance_overflow() {
    let mut payer = signer_account(1);
    payer.lamports = u64::MAX;
    let mut lvm_account = access_time_storage(3, 2, 60, 10);
    lvm_account.lamports = 1;
    let before = lvm_account.data.clone();

    let err = Processor::update_access_time(&mut payer, &mut lvm_account, 60).unwrap_err();
    assert_eq!(err, ProcessError::Lvm(LVMError::AmountOverflow));
    assert_eq!(payer.lamports, u64::MAX);
    assert_eq!(lvm_account.lamports, 1);
    assert_eq!(lvm_account.data, before);
}

#[test]
fn update_requires_payer_signature() {
    let mut payer = plain_account(1);
    let mut lvm_account = access_time_storage(3, 2, 60, 10);

    let err = Processor::update_access_time(&mut payer, &mut lvm_account, 60).unwrap_err();
    assert_eq!(err, ProcessError::MissingRequiredSignature);
}

#[test]
fn process_dispatches_create_media() {
    let mut nft_token_account = plain_account(2);
    nft_token_account.owner = spl_id_bytes();
    let mut accounts = vec![
        signer_account(1),
        nft_token_account,
        storage_account(3, MEDIA_LEN),
        plain_account(4),
    ];
    let mut buf = vec![0u8];
    buf.extend_from_slice(&100u64.to_le_bytes());
    buf.extend_from_slice(&10u64.to_le_bytes());

    let requests = Processor::process(&[0u8; 32], &mut accounts, &buf, true).unwrap();
    assert!(requests.is_empty());
    let stored = Media::unpack_unchecked(&accounts[2].data).unwrap();
    assert_eq!(stored.price_per_minute, 100);
    assert_eq!(stored.distributor_fee, 10);
    assert_eq!(stored.author_pubkey, [1u8; 32]);
}

#[test]
fn process_dispatches_purchase_and_returns_transfers() {
    let mut token_program = plain_account(8);
    token_program.key = spl_id_bytes();
    let mut accounts = vec![
        signer_account(1),
        signer_account(2),
        storage_account(3, ACCESS_TIME_LEN),
        media_account(4, 100, 10),
        token_account(5, 0),
        token_account(6, 0),
        token_account(7, 500),
        token_program,
    ];
    let mut buf = vec![1u8];
    buf.extend_from_slice(&5u64.to_le_bytes());

    let requests = Processor::process(&[0u8; 32], &mut accounts, &buf, true).unwrap();
    assert_eq!(requests.len(), 2);
    assert_eq!(requests[0].amount + requests[1].amount, 500);
    let record = AccessTime::unpack_unchecked(&accounts[2].data).unwrap();
    assert_eq!(record.owner_pubkey, [2u8; 32]);
    assert_eq!(record.total_time, 5);
    assert_eq!(record.time_spent, 0);
}

#[test]
fn process_dispatches_update() {
    let mut payer = signer_account(1);
    payer.lamports = 5;
    let mut lvm_account = access_time_storage(3, 2, 60, 10);
    lvm_account.lamports = 20;
    let mut accounts = vec![payer, lvm_account];
    let mut buf = vec![2u8];
    buf.extend_from_slice(&60u64.to_le_bytes());

    let requests = Processor::process(&[0u8; 32], &mut accounts, &buf, true).unwrap();
    assert!(requests.is_empty());
    assert_eq!(accounts[0].lamports, 25);
    assert_eq!(accounts[1].lamports, 0);
    assert!(accounts[1].data.is_empty());
}

#[test]
fn process_rejects_malformed_buffer() {
    let mut accounts = vec![signer_account(1)];
    let err = Processor::process(&[0u8; 32], &mut accounts, &[9u8], true).unwrap_err();
    assert_eq!(err, ProcessError::Lvm(LVMError::InvalidInstruction));
}

#[test]
fn process_rejects_missing_accounts() {
    let mut accounts = vec![signer_account(1)];
    let mut buf = vec![2u8];
    buf.extend_from_slice(&60u64.to_le_bytes());
    let err = Processor::process(&[0u8; 32], &mut accounts, &buf, true).unwrap_err();
    assert_eq!(err, ProcessError::NotEnoughAccountKeys);
}

#[test]
fn process_create_reports_bad_storage_before_missing_fourth_account() {
    // Three accounts only: the storage size check fires before the fetch of
    // the token program account would fail.
    let mut nft_token_account = plain_account(2);
    nft_token_account.owner = spl_id_bytes();
    let mut accounts = vec![
        signer_account(1),
        nft_token_account,
        storage_account(3, MEDIA_LEN - 1),
    ];
    let mut buf = vec![0u8];
    buf.extend_from_slice(&100u64.to_le_bytes());
    buf.extend_from_slice(&10u64.to_le_bytes());

    let err = Processor::process(&[0u8; 32], &mut accounts, &buf, true).unwrap_err();
    assert_eq!(err, ProcessError::InvalidAccountData);
}

#[test]
fn process_create_needs_fourth_account_when_storage_is_valid() {
    let mut nft_token_account = plain_account(2);
    nft_token_account.owner = spl_id_bytes();
    let mut accounts = vec![
        signer_account(1),
        nft_token_account,
        storage_account(3, MEDIA_LEN),
    ];
    let mut buf = vec![0u8];
    buf.extend_from_slice(&100u64.to_le_bytes());
    buf.extend_from_slice(&10u64.to_le_bytes());

    let err = Processor::process(&[0u8; 32], &mut accounts, &buf, true).unwrap_err();
    assert_eq!(err, ProcessError::NotEnoughAccountKeys);
}

#[test]
fn process_create_reports_missing_signature_before_other_missing_accounts() {
    let mut accounts = vec![plain_account(1)];
    let mut buf = vec![0u8];
    buf.extend_from_slice(&100u64.to_le_bytes());
    buf.extend_from_slice(&10u64.to_le_bytes());

    let err = Processor::process(&[0u8; 32], &mut accounts, &buf, true).unwrap_err();
    assert_eq!(err, ProcessError::MissingRequiredSignature);
}

#[test]
fn purchase_with_mid_range_fee_overpays_distributor() {
    // A stored fee above 100 is not rejected: 150 / 100 truncates to 1, so
    // the distributor receives the whole cost and the author nothing.
    let payer = signer_account(1);
    let buyer = signer_account(2);
    let mut lvm_account = storage_account(3, ACCESS_TIME_LEN);
    let media = media_account(4, 10, 150);
    let author_token = token_account(5, 0);
    let distributor_token = token_account(6, 0);
    let buyer_token = token_account(7, 40);
    let mut token_program = plain_account(8);
    token_program.key = spl_id_bytes();

    let (to_distributor, to_author) = Processor::process_purchase_time(
        &payer,
        &buyer,
        &mut lvm_account,
        &media,
        &author_token,
        &distributor_token,
        &buyer_token,
        &token_program,
        true,
        4,
    )
    .unwrap();
    assert_eq!(to_distributor.amount, 40);
    assert_eq!(to_author.amount, 0);
}

#[test]
fn purchase_rejects_wrong_sized_media_storage() {
    let payer = signer_account(1);
    let buyer = signer_account(2);
    let mut lvm_account = storage_account(3, ACCESS_TIME_LEN);
    let media = storage_account(4, MEDIA_LEN + 1);
    let author_token = token_account(5, 0);
    let distributor_token = token_account(6, 0);
    let buyer_token = token_account(7, 500);
    let mut token_program = plain_account(8);
    token_program.key = spl_id_bytes();

    let err = Processor::process_purchase_time(
        &payer,
        &buyer,
        &mut lvm_account,
        &media,
        &author_token,
        &distributor_token,
        &buyer_token,
        &token_program,
        true,
        5,
    )
    .unwrap_err();
    assert_eq!(err, ProcessError::InvalidAccountData);
}
