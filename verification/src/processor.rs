//! The instruction-processing state machine.
//!
//! The processor works on plain snapshots of ledger-owned accounts. The host
//! boundary verifies signatures (the `is_signer` flag), evaluates the
//! minimum-balance persistence policy (the `rent_exempt` argument) and
//! executes the returned [`TransferRequest`]s through the external
//! token-transfer service, committing or aborting a whole operation
//! atomically.

use vstd::prelude::*;

use crate::error::{LVMError, ProcessError};
use crate::instruction::{spec_unpack_instruction, LVMInstruction};
use crate::state::{
    spec_pack_access_time, spec_pack_media, spec_unpack_access_time, spec_unpack_media, AccessTime,
    AccessTimeView, Media, MediaView, ACCESS_TIME_LEN, MEDIA_LEN,
};
use crate::token::{
    spec_token_account_amount, spec_token_account_parses, spl_token_id_seq, spl_token_program_id,
    token_account_amount,
};

verus! {

broadcast use vstd::array::group_array_axioms;

/// A snapshot of a ledger-owned account, as the host boundary hands it to
/// the processor: its address, whether its holder signed the operation, the
/// program that owns it, its balance funding persistence, and its stored
/// bytes.
#[derive(Debug)]
pub struct Account {
    /// The account's address.
    pub key: [u8; 32],
    /// Whether the hosting ledger verified this account's signature for the
    /// operation.
    pub is_signer: bool,
    /// The program that owns the account.
    pub owner: [u8; 32],
    /// The balance funding the account's persistence.
    pub lamports: u64,
    /// The stored bytes.
    pub data: Vec<u8>,
}

/// Mathematical model of an [`Account`] snapshot.
#[verifier::ext_equal]
pub struct AccountView {
    pub key: Seq<u8>,
    pub is_signer: bool,
    pub owner: Seq<u8>,
    pub lamports: u64,
    pub data: Seq<u8>,
}

impl View for Account {
    type V = AccountView;

    open spec fn view(&self) -> AccountView {
        AccountView {
            key: self.key@,
            is_signer: self.is_signer,
            owner: self.owner@,
            lamports: self.lamports,
            data: self.data@,
        }
    }
}

/// A requested movement of token value, handed back to the host to execute
/// through the external transfer service: debit `source`, credit
/// `destination`, under `authority`'s signature, via `token_program`.
#[derive(Clone, Copy, Debug)]
pub struct TransferRequest {
    /// The token program to invoke.
    pub token_program: [u8; 32],
    /// The token account to debit.
    pub source: [u8; 32],
    /// The token account to credit.
    pub destination: [u8; 32],
    /// The signer authorizing the debit.
    pub authority: [u8; 32],
    /// The amount moved, in token base units.
    pub amount: u64,
}

/// Mathematical model of a [`TransferRequest`].
#[verifier::ext_equal]
pub struct TransferRequestView {
    pub token_program: Seq<u8>,
    pub source: Seq<u8>,
    pub destination: Seq<u8>,
    pub authority: Seq<u8>,
    pub amount: u64,
}

impl View for TransferRequest {
    type V = TransferRequestView;

    open spec fn view(&self) -> TransferRequestView {
        TransferRequestView {
            token_program: self.token_program@,
            source: self.source@,
            destination: self.destination@,
            authority: self.authority@,
            amount: self.amount,
        }
    }
}

/// Compares two 32-byte identities.
fn key_eq(a: &[u8; 32], b: &[u8; 32]) -> (r: bool)
    ensures
        r == (a@ == b@),
{
    let mut i: usize = 0;
    while i < 32
        invariant
            i <= 32,
            forall|j: int| 0 <= j < i ==> a@[j] == b@[j],
        decreases 32 - i,
    {
        if a[i] != b[i] {
            return false;
        }
        i += 1;
    }
    proof {
        assert(a@ =~= b@);
    }
    true
}

/// Copies an account snapshot.
fn dup_account(a: &Account) -> (r: Account)
    ensures
        r@ == a@,
{
    let mut data: Vec<u8> = Vec::new();
    let mut i: usize = 0;
    let n: usize = a.data.len();
    while i < n
        invariant
            i <= n,
            n == a.data@.len(),
            data@ == a.data@.subrange(0, i as int),
        decreases n - i,
    {
        data.push(a.data[i]);
        proof {
            assert(data@ =~= a.data@.subrange(0, i + 1));
        }
        i += 1;
    }
    proof {
        assert(data@ =~= a.data@);
    }
    let r = Account {
        key: a.key,
        is_signer: a.is_signer,
        owner: a.owner,
        lamports: a.lamports,
        data,
    };
    proof {
        assert(r@ =~= a@);
    }
    r
}

/// The outcome of registering a piece of media: either the new contents of
/// the media storage account, or the first error of the operation's checks,
/// in their order: author signature, token-account ownership, persistence
/// policy, storage size.
pub open spec fn spec_create_media(
    author: AccountView,
    nft_token_account: AccountView,
    lvm_account: AccountView,
    nft_program: AccountView,
    rent_exempt: bool,
    distributor_fee: u64,
    price_per_minute: u64,
) -> Result<Seq<u8>, ProcessError> {
    if !author.is_signer {
        Err(ProcessError::MissingRequiredSignature)
    } else if nft_token_account.owner != spl_token_id_seq() {
        Err(ProcessError::IncorrectProgramId)
    } else if !rent_exempt {
        Err(ProcessError::Lvm(LVMError::NotRentExempt))
    } else if lvm_account.data.len() != MEDIA_LEN {
        Err(ProcessError::InvalidAccountData)
    } else {
        Ok(
            spec_pack_media(
                MediaView {
                    author_pubkey: author.key,
                    price_per_minute: price_per_minute,
                    distributor_fee: distributor_fee,
                    nft_token: nft_program.key,
                    nft_account_pubkey: nft_token_account.key,
                },
            ),
        )
    }
}

/// The media record a successful CreateMedia call stores.
pub open spec fn spec_created_media(
    author: AccountView,
    nft_token_account: AccountView,
    nft_program: AccountView,
    distributor_fee: u64,
    price_per_minute: u64,
) -> MediaView {
    MediaView {
        author_pubkey: author.key,
        price_per_minute: price_per_minute,
        distributor_fee: distributor_fee,
        nft_token: nft_program.key,
        nft_account_pubkey: nft_token_account.key,
    }
}

/// The checks of PurchaseAccessTime that precede the cost computation all
/// pass: both signatures, the three token-account owners, the persistence
/// policy, the media storage size, and the buyer's token-account snapshot
/// parses as an initialized account.
pub open spec fn spec_purchase_reaches_cost(
    payer: AccountView,
    buyer: AccountView,
    media_account: AccountView,
    author_token: AccountView,
    distributor_token: AccountView,
    buyer_token: AccountView,
    rent_exempt: bool,
) -> bool {
    &&& payer.is_signer
    &&& buyer.is_signer
    &&& author_token.owner == spl_token_id_seq()
    &&& distributor_token.owner == spl_token_id_seq()
    &&& buyer_token.owner == spl_token_id_seq()
    &&& rent_exempt
    &&& media_account.data.len() == MEDIA_LEN
    &&& spec_token_account_parses(buyer_token.data)
    &&& buyer_token.data[108] != 0
}

/// The purchase arithmetic stays within unsigned 64-bit range: the total
/// cost fits, and once the buyer can pay, the distributor's share is between
/// zero and the total cost (the stored fee is a percentage, so its truncated
/// ratio is 0 or 1 for fees up to 100).
pub open spec fn spec_purchase_fits_u64(
    media_account: AccountView,
    buyer_token: AccountView,
    time_in_minute: u64,
) -> bool {
    let media = spec_unpack_media(media_account.data);
    let total_cost = time_in_minute * media.price_per_minute;
    let distributor_share = total_cost * (media.distributor_fee as int / 100);
    &&& total_cost <= u64::MAX
    &&& (spec_token_account_amount(buyer_token.data) >= total_cost ==> 0 <= distributor_share
        <= total_cost)
}

/// The outcome of purchasing a block of access minutes: either the two
/// transfer requests (buyer to distributor, then buyer to author) and the new
/// contents of the access-time storage account, or the first error of the
/// operation's checks, in their order: the two signatures, the three
/// token-account owners, the persistence policy, the media storage size, the
/// buyer's token-account snapshot, the buyer's balance, the token program
/// identity, the access-time storage size.
pub open spec fn spec_purchase_time(
    payer: AccountView,
    buyer: AccountView,
    lvm_account: AccountView,
    media_account: AccountView,
    author_token: AccountView,
    distributor_token: AccountView,
    buyer_token: AccountView,
    token_program: AccountView,
    rent_exempt: bool,
    time_in_minute: u64,
) -> Result<(TransferRequestView, TransferRequestView, Seq<u8>), ProcessError> {
    let media = spec_unpack_media(media_account.data);
    let total_cost = time_in_minute * media.price_per_minute;
    let distributor_share = total_cost * (media.distributor_fee as int / 100);
    if !payer.is_signer {
        Err(ProcessError::MissingRequiredSignature)
    } else if !buyer.is_signer {
        Err(ProcessError::MissingRequiredSignature)
    } else if author_token.owner != spl_token_id_seq() {
        Err(ProcessError::IncorrectProgramId)
    } else if distributor_token.owner != spl_token_id_seq() {
        Err(ProcessError::IncorrectProgramId)
    } else if buyer_token.owner != spl_token_id_seq() {
        Err(ProcessError::IncorrectProgramId)
    } else if !rent_exempt {
        Err(ProcessError::Lvm(LVMError::NotRentExempt))
    } else if media_account.data.len() != MEDIA_LEN {
        Err(ProcessError::InvalidAccountData)
    } else if !spec_token_account_parses(buyer_token.data) {
        Err(ProcessError::InvalidAccountData)
    } else if buyer_token.data[108] == 0 {
        Err(ProcessError::UninitializedAccount)
    } else if spec_token_account_amount(buyer_token.data) < total_cost {
        Err(ProcessError::Lvm(LVMError::InsufficientTokenBalance))
    } else if token_program.key != spl_token_id_seq() {
        Err(ProcessError::IncorrectProgramId)
    } else if lvm_account.data.len() != ACCESS_TIME_LEN {
        Err(ProcessError::InvalidAccountData)
    } else {
        Ok(
            (
                TransferRequestView {
                    token_program: token_program.key,
                    source: buyer_token.key,
                    destination: distributor_token.key,
                    authority: buyer.key,
                    amount: distributor_share as u64,
                },
                TransferRequestView {
                    token_program: token_program.key,
                    source: buyer_token.key,
                    destination: author_token.key,
                    authority: buyer.key,
                    amount: (total_cost - distributor_share) as u64,
                },
                spec_pack_access_time(
                    AccessTimeView {
                        owner_pubkey: buyer.key,
                        total_time: time_in_minute,
                        time_spent: 0,
                    },
                ),
            ),
        )
    }
}

/// The outcome of reporting consumed access time: the updated payer and
/// access-time storage accounts, or the first error of the operation's
/// checks, in their order: the payer's signature, the storage size, the
/// monotonicity of `time_spent`, and the reclamation arithmetic. When the
/// reported time reaches or exceeds the purchased total, the storage account
/// is reclaimed: its whole balance moves to the payer and its contents and
/// balance are cleared; otherwise the record is persisted with `time_spent`
/// set to the reported time.
pub open spec fn spec_update_access_time(
    payer: AccountView,
    lvm_account: AccountView,
    access_time: u64,
) -> Result<(AccountView, AccountView), ProcessError> {
    if !payer.is_signer {
        Err(ProcessError::MissingRequiredSignature)
    } else if lvm_account.data.len() != ACCESS_TIME_LEN {
        Err(ProcessError::InvalidAccountData)
    } else {
        let record = spec_unpack_access_time(lvm_account.data);
        if record.time_spent > access_time {
            Err(ProcessError::Lvm(LVMError::AccessTimeCannotReduce))
        } else if access_time >= record.total_time {
            if payer.lamports + lvm_account.lamports > u64::MAX {
                Err(ProcessError::Lvm(LVMError::AmountOverflow))
            } else {
                Ok(
                    (
                        AccountView {
                            lamports: (payer.lamports + lvm_account.lamports) as u64,
                            ..payer
                        },
                        AccountView { lamports: 0, data: Seq::empty(), ..lvm_account },
                    ),
                )
            }
        } else {
            Ok(
                (
                    payer,
                    AccountView {
                        data: spec_pack_access_time(
                            AccessTimeView { time_spent: access_time, ..record },
                        ),
                        ..lvm_account
                    },
                ),
            )
        }
    }
}

/// The models of a sequence of account snapshots.
pub open spec fn spec_account_views(accounts: Seq<Account>) -> Seq<AccountView> {
    accounts.map_values(|a: Account| a@)
}

/// The models of a sequence of transfer requests.
pub open spec fn spec_transfer_views(requests: Seq<TransferRequest>) -> Seq<TransferRequestView> {
    requests.map_values(|t: TransferRequest| t@)
}

/// The outcome of one whole operation: the transfer requests it issues (or
/// its first error) and the accounts as the operation leaves them. Accounts
/// are consumed in the order the decoded instruction documents; a fetch past
/// the end of the list fails with `NotEnoughAccountKeys` at the point the
/// operation first needs that account.
pub open spec fn spec_process(
    accounts: Seq<AccountView>,
    instruction_data: Seq<u8>,
    rent_exempt: bool,
) -> (Result<Seq<TransferRequestView>, ProcessError>, Seq<AccountView>) {
    match spec_unpack_instruction(instruction_data) {
        None => (Err(ProcessError::Lvm(LVMError::InvalidInstruction)), accounts),
        Some(LVMInstruction::CreateMedia { price_per_minute, distributor_fee }) => {
            if accounts.len() < 1 {
                (Err(ProcessError::NotEnoughAccountKeys), accounts)
            } else if !accounts[0].is_signer {
                (Err(ProcessError::MissingRequiredSignature), accounts)
            } else if accounts.len() < 2 {
                (Err(ProcessError::NotEnoughAccountKeys), accounts)
            } else if accounts[1].owner != spl_token_id_seq() {
                (Err(ProcessError::IncorrectProgramId), accounts)
            } else if accounts.len() < 3 {
                (Err(ProcessError::NotEnoughAccountKeys), accounts)
            } else if !rent_exempt {
                (Err(ProcessError::Lvm(LVMError::NotRentExempt)), accounts)
            } else if accounts[2].data.len() != MEDIA_LEN {
                (Err(ProcessError::InvalidAccountData), accounts)
            } else if accounts.len() < 4 {
                (Err(ProcessError::NotEnoughAccountKeys), accounts)
            } else {
                (
                    Ok(Seq::empty()),
                    accounts.update(
                        2,
                        AccountView {
                            data: spec_pack_media(
                                spec_created_media(
                                    accounts[0],
                                    accounts[1],
                                    accounts[3],
                                    distributor_fee,
                                    price_per_minute,
                                ),
                            ),
                            ..accounts[2]
                        },
                    ),
                )
            }
        },
        Some(LVMInstruction::PurchaseAccessTime { time_in_minute }) => {
            if accounts.len() < 8 {
                (Err(ProcessError::NotEnoughAccountKeys), accounts)
            } else {
                match spec_purchase_time(
                    accounts[0],
                    accounts[1],
                    accounts[2],
                    accounts[3],
                    accounts[4],
                    accounts[5],
                    accounts[6],
                    accounts[7],
                    rent_exempt,
                    time_in_minute,
                ) {
                    Ok(out) => (
                        Ok(seq![out.0, out.1]),
                        accounts.update(2, AccountView { data: out.2, ..accounts[2] }),
                    ),
                    Err(e) => (Err(e), accounts),
                }
            }
        },
        Some(LVMInstruction::UpdateAccessTime { access_time }) => {
            if accounts.len() < 2 {
                (Err(ProcessError::NotEnoughAccountKeys), accounts)
            } else {
                match spec_update_access_time(accounts[0], accounts[1], access_time) {
                    Ok(out) => (Ok(Seq::empty()), accounts.update(0, out.0).update(1, out.1)),
                    Err(e) => (Err(e), accounts),
                }
            }
        },
    }
}

/// Updating one account of a snapshot list updates the same position of its
/// models.
proof fn lemma_views_update(accounts: Seq<Account>, i: int, a: Account)
    requires
        0 <= i < accounts.len(),
    ensures
        spec_account_views(accounts.update(i, a)) == spec_account_views(accounts).update(i, a@),
{
    assert(spec_account_views(accounts.update(i, a)) =~= spec_account_views(accounts).update(
        i,
        a@,
    ));
}

/// The instruction-processing state machine.
pub struct Processor;

impl Processor {
    /// Registers a piece of media: checks the author's signature, the token
    /// account's owning program, and the persistence policy, then overwrites
    /// every field of the media storage account.
    ///
    /// Re-reading the storage account after a successful call yields a record
    /// whose five fields exactly match the author identity, the two numeric
    /// operands, the token program identity and the token account identity.
    pub fn process_create_media(
        author: &Account,
        nft_token_account: &Account,
        lvm_account: &mut Account,
        nft_program: &Account,
        rent_exempt: bool,
        distributor_fee: u64,
        price_per_minute: u64,
    ) -> (r: Result<(), ProcessError>)
        ensures
            match spec_create_media(
                author@,
                nft_token_account@,
                old(lvm_account)@,
                nft_program@,
                rent_exempt,
                distributor_fee,
                price_per_minute,
            ) {
                Ok(bytes) => r is Ok && final(lvm_account)@ == (AccountView {
                    data: bytes,
                    ..old(lvm_account)@
                }),
                Err(e) => r == Err::<(), ProcessError>(e) && final(lvm_account)@ == old(
                    lvm_account,
                )@,
            },
            r is Ok ==> spec_unpack_media(final(lvm_account)@.data) == spec_created_media(
                author@,
                nft_token_account@,
                nft_program@,
                distributor_fee,
                price_per_minute,
            ),
    {
        if !author.is_signer {
            return Err(ProcessError::MissingRequiredSignature);
        }
        let token_program_id = spl_token_program_id();
        if !key_eq(&nft_token_account.owner, &token_program_id) {
            return Err(ProcessError::IncorrectProgramId);
        }
        if !rent_exempt {
            return Err(ProcessError::Lvm(LVMError::NotRentExempt));
        }
        let mut media_info = match Media::unpack_unchecked(lvm_account.data.as_slice()) {
            Ok(m) => m,
            Err(e) => {
                return Err(e);
            },
        };
        media_info.author_pubkey = author.key;
        media_info.distributor_fee = distributor_fee;
        media_info.nft_account_pubkey = nft_token_account.key;
        media_info.price_per_minute = price_per_minute;
        media_info.nft_token = nft_program.key;
        let packed = Media::pack(media_info, &mut lvm_account.data);
        proof {
            assert(media_info@ =~= spec_created_media(
                author@,
                nft_token_account@,
                nft_program@,
                distributor_fee,
                price_per_minute,
            ));
            assert(lvm_account@ =~= (AccountView {
                data: spec_pack_media(media_info@),
                ..old(lvm_account)@
            }));
            crate::state::lemma_media_round_trip(media_info@);
        }
        match packed {
            Ok(_) => Ok(()),
            Err(e) => Err(e),
        }
    }

    /// Purchases a block of access minutes: validates signatures, token
    /// accounts and the persistence policy, reads the media terms and the
    /// buyer's balance, splits `time_in_minute * price_per_minute` between
    /// distributor and author (the distributor's share uses the truncated
    /// ratio `distributor_fee / 100`), and overwrites the access-time storage
    /// account with a fresh record for the buyer.
    ///
    /// On success the two returned requests move exactly the total cost, and
    /// the stored record reads back as `owner = buyer`, `total_time =
    /// time_in_minute`, `time_spent = 0`. When the buyer cannot pay, the call
    /// fails with `InsufficientTokenBalance` and nothing is written.
    pub fn process_purchase_time(
        payer_account: &Account,
        buyer_main_account: &Account,
        lvm_program_account: &mut Account,
        media_program_account: &Account,
        author_lvm_token_account: &Account,
        distributor_lvm_token_account: &Account,
        buyer_lvm_token_account: &Account,
        lvm_token_program: &Account,
        rent_exempt: bool,
        time_in_minute: u64,
    ) -> (r: Result<(TransferRequest, TransferRequest), ProcessError>)
        requires
            spec_purchase_reaches_cost(
                payer_account@,
                buyer_main_account@,
                media_program_account@,
                author_lvm_token_account@,
                distributor_lvm_token_account@,
                buyer_lvm_token_account@,
                rent_exempt,
            ) ==> spec_purchase_fits_u64(
                media_program_account@,
                buyer_lvm_token_account@,
                time_in_minute,
            ),
        ensures
            match spec_purchase_time(
                payer_account@,
                buyer_main_account@,
                old(lvm_program_account)@,
                media_program_account@,
                author_lvm_token_account@,
                distributor_lvm_token_account@,
                buyer_lvm_token_account@,
                lvm_token_program@,
                rent_exempt,
                time_in_minute,
            ) {
                Ok(out) => r matches Ok(t) && t.0@ == out.0 && t.1@ == out.1
                    && final(lvm_program_account)@ == (AccountView {
                    data: out.2,
                    ..old(lvm_program_account)@
                }),
                Err(e) => r matches Err(e2) && e2 == e && final(lvm_program_account)@ == old(
                    lvm_program_account,
                )@,
            },
            r matches Ok(t) ==> t.0@.amount + t.1@.amount == time_in_minute * spec_unpack_media(
                media_program_account@.data,
            ).price_per_minute,
            r is Ok ==> spec_unpack_access_time(final(lvm_program_account)@.data)
                == (AccessTimeView {
                owner_pubkey: buyer_main_account@.key,
                total_time: time_in_minute,
                time_spent: 0,
            }),
            spec_purchase_reaches_cost(
                payer_account@,
                buyer_main_account@,
                media_program_account@,
                author_lvm_token_account@,
                distributor_lvm_token_account@,
                buyer_lvm_token_account@,
                rent_exempt,
            ) && spec_token_account_amount(buyer_lvm_token_account@.data) < time_in_minute
                * spec_unpack_media(media_program_account@.data).price_per_minute ==> r == Err::<
                (TransferRequest, TransferRequest),
                ProcessError,
            >(ProcessError::Lvm(LVMError::InsufficientTokenBalance)) && final(lvm_program_account)@
                == old(lvm_program_account)@,
    {
        if !payer_account.is_signer {
            return Err(ProcessError::MissingRequiredSignature);
        }
        if !buyer_main_account.is_signer {
            return Err(ProcessError::MissingRequiredSignature);
        }
        let token_program_id = spl_token_program_id();
        if !key_eq(&author_lvm_token_account.owner, &token_program_id) {
            return Err(ProcessError::IncorrectProgramId);
        }
        if !key_eq(&distributor_lvm_token_account.owner, &token_program_id) {
            return Err(ProcessError::IncorrectProgramId);
        }
        if !key_eq(&buyer_lvm_token_account.owner, &token_program_id) {
            return Err(ProcessError::IncorrectProgramId);
        }
        if !rent_exempt {
            return Err(ProcessError::Lvm(LVMError::NotRentExempt));
        }
        let media_info = match Media::unpack_unchecked(media_program_account.data.as_slice()) {
            Ok(m) => m,
            Err(e) => {
                return Err(e);
            },
        };
        let buyer_token_balance = match token_account_amount(
            buyer_lvm_token_account.data.as_slice(),
        ) {
            Ok(amount) => amount,
            Err(e) => {
                return Err(e);
            },
        };
        let total_time_cost = time_in_minute * media_info.price_per_minute;
        if buyer_token_balance < total_time_cost {
            return Err(ProcessError::Lvm(LVMError::InsufficientTokenBalance));
        }
        let token_for_distributor = total_time_cost * (media_info.distributor_fee / 100);
        let token_for_author = total_time_cost - token_for_distributor;
        if !key_eq(&lvm_token_program.key, &token_program_id) {
            return Err(ProcessError::IncorrectProgramId);
        }
        let transfer_to_distributor = TransferRequest {
            token_program: lvm_token_program.key,
            source: buyer_lvm_token_account.key,
            destination: distributor_lvm_token_account.key,
            authority: buyer_main_account.key,
            amount: token_for_distributor,
        };
        let transfer_to_author = TransferRequest {
            token_program: lvm_token_program.key,
            source: buyer_lvm_token_account.key,
            destination: author_lvm_token_account.key,
            authority: buyer_main_account.key,
            amount: token_for_author,
        };
        let mut access_time_info = match AccessTime::unpack_unchecked(
            lvm_program_account.data.as_slice(),
        ) {
            Ok(a) => a,
            Err(e) => {
                return Err(e);
            },
        };
        access_time_info.owner_pubkey = buyer_main_account.key;
        access_time_info.total_time = time_in_minute;
        access_time_info.time_spent = 0;
        let packed = AccessTime::pack(access_time_info, &mut lvm_program_account.data);
        proof {
            assert(access_time_info@ =~= (AccessTimeView {
                owner_pubkey: buyer_main_account@.key,
                total_time: time_in_minute,
                time_spent: 0,
            }));
            assert(lvm_program_account@ =~= (AccountView {
                data: spec_pack_access_time(access_time_info@),
                ..old(lvm_program_account)@
            }));
            crate::state::lemma_access_time_round_trip(access_time_info@);
        }
        match packed {
            Ok(_) => Ok((transfer_to_distributor, transfer_to_author)),
            Err(e) => Err(e),
        }
    }

    /// Reports consumed access time. A report below the recorded `time_spent`
    /// fails with `AccessTimeCannotReduce` and changes nothing. A report that
    /// reaches or exceeds the purchased total reclaims the storage account:
    /// the payer's balance grows by exactly the storage balance, which
    /// becomes zero, and the stored bytes are cleared. Any other report
    /// persists the record with `time_spent` set to the reported time.
    pub fn update_access_time(
        payer_account: &mut Account,
        lvm_program_account: &mut Account,
        access_time: u64,
    ) -> (r: Result<(), ProcessError>)
        ensures
            match spec_update_access_time(
                old(payer_account)@,
                old(lvm_program_account)@,
                access_time,
            ) {
                Ok(out) => r is Ok && final(payer_account)@ == out.0 && final(lvm_program_account)@
                    == out.1,
                Err(e) => r matches Err(e2) && e2 == e && final(payer_account)@ == old(
                    payer_account,
                )@ && final(lvm_program_account)@ == old(lvm_program_account)@,
            },
            ({
                let prior = spec_unpack_access_time(old(lvm_program_account)@.data);
                old(payer_account)@.is_signer && old(lvm_program_account)@.data.len()
                    == ACCESS_TIME_LEN && access_time < prior.time_spent ==> r == Err::<
                    (),
                    ProcessError,
                >(ProcessError::Lvm(LVMError::AccessTimeCannotReduce))
                    && final(lvm_program_account)@ == old(lvm_program_account)@
                    && final(payer_account)@ == old(payer_account)@
            }),
            ({
                let prior = spec_unpack_access_time(old(lvm_program_account)@.data);
                r is Ok && access_time >= prior.total_time ==> final(lvm_program_account)@.lamports
                    == 0 && final(lvm_program_account)@.data.len() == 0
                    && final(payer_account)@.lamports == old(payer_account)@.lamports + old(
                    lvm_program_account,
                )@.lamports
            }),
    {
        if !payer_account.is_signer {
            return Err(ProcessError::MissingRequiredSignature);
        }
        let mut access_time_info = match AccessTime::unpack_unchecked(
            lvm_program_account.data.as_slice(),
        ) {
            Ok(a) => a,
            Err(e) => {
                return Err(e);
            },
        };
        if access_time_info.time_spent > access_time {
            return Err(ProcessError::Lvm(LVMError::AccessTimeCannotReduce));
        }
        access_time_info.time_spent = access_time;
        if access_time >= access_time_info.total_time {
            let raised = match payer_account.lamports.checked_add(lvm_program_account.lamports) {
                Some(v) => v,
                None => {
                    return Err(ProcessError::Lvm(LVMError::AmountOverflow));
                },
            };
            payer_account.lamports = raised;
            lvm_program_account.lamports = 0;
            lvm_program_account.data = Vec::new();
            proof {
                assert(payer_account@ =~= (AccountView {
                    lamports: (old(payer_account)@.lamports + old(
                        lvm_program_account,
                    )@.lamports) as u64,
                    ..old(payer_account)@
                }));
                assert(lvm_program_account@ =~= (AccountView {
                    lamports: 0,
                    data: Seq::empty(),
                    ..old(lvm_program_account)@
                }));
            }
            Ok(())
        } else {
            let packed = AccessTime::pack(access_time_info, &mut lvm_program_account.data);
            proof {
                assert(access_time_info@ =~= (AccessTimeView {
                    time_spent: access_time,
                    ..spec_unpack_access_time(old(lvm_program_account)@.data)
                }));
                assert(lvm_program_account@ =~= (AccountView {
                    data: spec_pack_access_time(access_time_info@),
                    ..old(lvm_program_account)@
                }));
            }
            match packed {
                Ok(_) => Ok(()),
                Err(e) => Err(e),
            }
        }
    }

    /// Decodes the command buffer and runs the selected operation over the
    /// supplied accounts, returning the transfer requests the host must
    /// execute. The accounts are taken in the order the decoded instruction
    /// documents; `rent_exempt` is the host's persistence-policy verdict for
    /// the operation's target storage account.
    pub fn process(
        _program_id: &[u8; 32],
        accounts: &mut Vec<Account>,
        instruction_data: &[u8],
        rent_exempt: bool,
    ) -> (r: Result<Vec<TransferRequest>, ProcessError>)
        requires
            match spec_unpack_instruction(instruction_data@) {
                Some(LVMInstruction::PurchaseAccessTime { time_in_minute }) => {
                    let views = spec_account_views(old(accounts)@);
                    views.len() >= 8 && spec_purchase_reaches_cost(
                        views[0],
                        views[1],
                        views[3],
                        views[4],
                        views[5],
                        views[6],
                        rent_exempt,
                    ) ==> spec_purchase_fits_u64(views[3], views[6], time_in_minute)
                },
                _ => true,
            },
        ensures
            ({
                let out = spec_process(
                    spec_account_views(old(accounts)@),
                    instruction_data@,
                    rent_exempt,
                );
                &&& spec_account_views(final(accounts)@) == out.1
                &&& match out.0 {
                    Ok(requests) => r matches Ok(v) && spec_transfer_views(v@) == requests,
                    Err(e) => r matches Err(e2) && e2 == e,
                }
            }),
    {
        let instruction = match LVMInstruction::unpack(instruction_data) {
            Ok(i) => i,
            Err(e) => {
                return Err(e);
            },
        };
        match instruction {
            LVMInstruction::CreateMedia { distributor_fee, price_per_minute } => {
                if accounts.len() < 1 {
                    return Err(ProcessError::NotEnoughAccountKeys);
                }
                if !accounts[0].is_signer {
                    return Err(ProcessError::MissingRequiredSignature);
                }
                if accounts.len() < 2 {
                    return Err(ProcessError::NotEnoughAccountKeys);
                }
                let token_program_id = spl_token_program_id();
                if !key_eq(&accounts[1].owner, &token_program_id) {
                    return Err(ProcessError::IncorrectProgramId);
                }
                if accounts.len() < 3 {
                    return Err(ProcessError::NotEnoughAccountKeys);
                }
                if !rent_exempt {
                    return Err(ProcessError::Lvm(LVMError::NotRentExempt));
                }
                if accounts[2].data.len() != MEDIA_LEN {
                    return Err(ProcessError::InvalidAccountData);
                }
                if accounts.len() < 4 {
                    return Err(ProcessError::NotEnoughAccountKeys);
                }
                let author = dup_account(&accounts[0]);
                let nft_token_account = dup_account(&accounts[1]);
                let nft_program = dup_account(&accounts[3]);
                let mut lvm_account = dup_account(&accounts[2]);
                let result = Self::process_create_media(
                    &author,
                    &nft_token_account,
                    &mut lvm_account,
                    &nft_program,
                    rent_exempt,
                    distributor_fee,
                    price_per_minute,
                );
                match result {
                    Ok(_) => {
                        proof {
                            lemma_views_update(accounts@, 2, lvm_account);
                        }
                        accounts[2] = lvm_account;
                        let requests: Vec<TransferRequest> = Vec::new();
                        proof {
                            assert(spec_transfer_views(requests@) =~= Seq::<
                                TransferRequestView,
                            >::empty());
                        }
                        Ok(requests)
                    },
                    Err(e) => Err(e),
                }
            },
            LVMInstruction::PurchaseAccessTime { time_in_minute } => {
                if accounts.len() < 8 {
                    return Err(ProcessError::NotEnoughAccountKeys);
                }
                let payer_account = dup_account(&accounts[0]);
                let buyer_main_account = dup_account(&accounts[1]);
                let media_program_account = dup_account(&accounts[3]);
                let author_lvm_token_account = dup_account(&accounts[4]);
                let distributor_lvm_token_account = dup_account(&accounts[5]);
                let buyer_lvm_token_account = dup_account(&accounts[6]);
                let lvm_token_program = dup_account(&accounts[7]);
                let mut lvm_program_account = dup_account(&accounts[2]);
                let result = Self::process_purchase_time(
                    &payer_account,
                    &buyer_main_account,
                    &mut lvm_program_account,
                    &media_program_account,
                    &author_lvm_token_account,
                    &distributor_lvm_token_account,
                    &buyer_lvm_token_account,
                    &lvm_token_program,
                    rent_exempt,
                    time_in_minute,
                );
                match result {
                    Ok(pair) => {
                        proof {
                            lemma_views_update(accounts@, 2, lvm_program_account);
                        }
                        accounts[2] = lvm_program_account;
                        let mut requests: Vec<TransferRequest> = Vec::new();
                        requests.push(pair.0);
                        requests.push(pair.1);
                        proof {
                            assert(spec_transfer_views(requests@) =~= seq![pair.0@, pair.1@]);
                        }
                        Ok(requests)
                    },
                    Err(e) => Err(e),
                }
            },
            LVMInstruction::UpdateAccessTime { access_time } => {
                if accounts.len() < 2 {
                    return Err(ProcessError::NotEnoughAccountKeys);
                }
                let mut payer_account = dup_account(&accounts[0]);
                let mut lvm_program_account = dup_account(&accounts[1]);
                let result = Self::update_access_time(
                    &mut payer_account,
                    &mut lvm_program_account,
                    access_time,
                );
                match result {
                    Ok(_) => {
                        proof {
                            lemma_views_update(accounts@, 0, payer_account);
                            lemma_views_update(accounts@.update(0, payer_account), 1, lvm_program_account);
                        }
                        accounts[0] = payer_account;
                        accounts[1] = lvm_program_account;
                        let requests: Vec<TransferRequest> = Vec::new();
                        proof {
                            assert(spec_transfer_views(requests@) =~= Seq::<
                                TransferRequestView,
                            >::empty());
                        }
                        Ok(requests)
                    },
                    Err(e) => Err(e),
                }
            },
        }
    }
}

} // verus!
