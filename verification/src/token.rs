//! Trusted bindings to the external token program.
//!
//! The processor needs two facts from the token program's crate: its own
//! program identity, against which token-account owners are checked, and the
//! balance recorded in a packed token-account snapshot. Both calls are pure
//! computations; their contracts state what the token program's source shows.

use vstd::bytes::spec_u64_from_le_bytes;
use vstd::prelude::*;

use crate::error::ProcessError;
use spl_token::solana_program::program_pack::Pack;

verus! {

/// The 32 bytes of the token program's well-known address.
pub open spec fn spl_token_id_seq() -> Seq<u8> {
    seq![
        6u8, 221u8, 246u8, 225u8, 215u8, 101u8, 161u8, 147u8, 217u8, 203u8, 225u8, 70u8, 206u8,
        235u8, 121u8, 172u8, 28u8, 180u8, 133u8, 237u8, 95u8, 91u8, 55u8, 145u8, 58u8, 140u8,
        245u8, 133u8, 126u8, 255u8, 0u8, 169u8,
    ]
}

/// Relies on `spl_token::id`: the token program's identity is the fixed,
/// well-known address spelled out in [`spl_token_id_seq`].
#[verifier::external_body]
pub(crate) fn spl_token_program_id() -> (r: [u8; 32])
    ensures
        r@ == spl_token_id_seq(),
{
    spl_token::id().to_bytes()
}

/// A 4-byte optional-field tag as the token program packs it: little-endian
/// 0 for an absent value, 1 for a present one; anything else is malformed.
pub open spec fn spec_coption_tag_ok(s: Seq<u8>) -> bool {
    &&& s.len() == 4
    &&& (s[0] == 0 || s[0] == 1)
    &&& s[1] == 0
    &&& s[2] == 0
    &&& s[3] == 0
}

/// A 165-byte token-account snapshot parses: each of the three optional
/// fields (delegate, native marker, close authority) has a valid tag and the
/// state byte at offset 108 is a known variant.
pub open spec fn spec_token_account_parses(s: Seq<u8>) -> bool {
    &&& s.len() == 165
    &&& spec_coption_tag_ok(s.subrange(72, 76))
    &&& (s[108] == 0 || s[108] == 1 || s[108] == 2)
    &&& spec_coption_tag_ok(s.subrange(109, 113))
    &&& spec_coption_tag_ok(s.subrange(129, 133))
}

/// The balance recorded in a token-account snapshot: the little-endian word
/// at bytes 64..72.
pub open spec fn spec_token_account_amount(s: Seq<u8>) -> u64 {
    spec_u64_from_le_bytes(s.subrange(64, 72))
}

/// Relies on `spl_token::state::Account::unpack` (its `Pack` impl): it fails
/// with `InvalidAccountData` on any length other than 165, a bad
/// optional-field tag or an unknown state byte; with `UninitializedAccount`
/// on a parsed snapshot whose state byte is zero; and otherwise returns the
/// account, whose `amount` is the little-endian word at bytes 64..72.
#[verifier::external_body]
pub(crate) fn token_account_amount(data: &[u8]) -> (r: Result<u64, ProcessError>)
    ensures
        r == (if !spec_token_account_parses(data@) {
            Err::<u64, ProcessError>(ProcessError::InvalidAccountData)
        } else if data@[108] == 0 {
            Err::<u64, ProcessError>(ProcessError::UninitializedAccount)
        } else {
            Ok::<u64, ProcessError>(spec_token_account_amount(data@))
        }),
{
    match spl_token::state::Account::unpack(data) {
        Ok(account) => Ok(account.amount),
        Err(spl_token::solana_program::program_error::ProgramError::UninitializedAccount) => Err(
            ProcessError::UninitializedAccount,
        ),
        Err(_) => Err(ProcessError::InvalidAccountData),
    }
}

} // verus!
