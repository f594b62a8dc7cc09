//! The two persisted binary records and their fixed-size codecs.
//!
//! A `Media` record stores the terms of a registered piece of media; an
//! `AccessTime` record is the ledger of one purchased block of access
//! minutes. Both are packed into ledger-owned storage slots as fixed-size
//! little-endian layouts.

use vstd::bytes::{
    lemma_auto_spec_u64_to_from_le_bytes, spec_u64_from_le_bytes, spec_u64_to_le_bytes,
    u64_from_le_bytes, u64_to_le_bytes,
};
use vstd::prelude::*;

use crate::error::ProcessError;

verus! {

/// Byte length of a packed `Media` record.
pub const MEDIA_LEN: usize = 112;

/// Byte length of a packed `AccessTime` record.
pub const ACCESS_TIME_LEN: usize = 48;

/// Media terms, packed as
/// `[author:32][price_per_minute:8 LE][distributor_fee:8 LE][nft_token:32][nft_account:32]`.
#[derive(Clone, Copy, Debug)]
pub struct Media {
    /// Owner entitled to the author's share of payments.
    pub author_pubkey: [u8; 32],
    /// Cost per minute of access, in token base units.
    pub price_per_minute: u64,
    /// Percentage (expected in 0..=100) of a sale routed to the distributor.
    pub distributor_fee: u64,
    /// Identity of the token this record describes.
    pub nft_token: [u8; 32],
    /// The token account associated with the content.
    pub nft_account_pubkey: [u8; 32],
}

/// Mathematical model of a [`Media`] record.
#[verifier::ext_equal]
pub struct MediaView {
    pub author_pubkey: Seq<u8>,
    pub price_per_minute: u64,
    pub distributor_fee: u64,
    pub nft_token: Seq<u8>,
    pub nft_account_pubkey: Seq<u8>,
}

impl MediaView {
    /// Each identity field is exactly 32 bytes.
    pub open spec fn wf(self) -> bool {
        &&& self.author_pubkey.len() == 32
        &&& self.nft_token.len() == 32
        &&& self.nft_account_pubkey.len() == 32
    }
}

impl View for Media {
    type V = MediaView;

    open spec fn view(&self) -> MediaView {
        MediaView {
            author_pubkey: self.author_pubkey@,
            price_per_minute: self.price_per_minute,
            distributor_fee: self.distributor_fee,
            nft_token: self.nft_token@,
            nft_account_pubkey: self.nft_account_pubkey@,
        }
    }
}

/// The exact bytes of a packed `Media` record.
pub open spec fn spec_pack_media(m: MediaView) -> Seq<u8> {
    m.author_pubkey + spec_u64_to_le_bytes(m.price_per_minute)
        + spec_u64_to_le_bytes(m.distributor_fee) + m.nft_token + m.nft_account_pubkey
}

/// The record described by 112 bytes of a storage slot.
pub open spec fn spec_unpack_media(s: Seq<u8>) -> MediaView {
    MediaView {
        author_pubkey: s.subrange(0, 32),
        price_per_minute: spec_u64_from_le_bytes(s.subrange(32, 40)),
        distributor_fee: spec_u64_from_le_bytes(s.subrange(40, 48)),
        nft_token: s.subrange(48, 80),
        nft_account_pubkey: s.subrange(80, 112),
    }
}

/// Access-time ledger, packed as `[owner:32][total_time:8 LE][time_spent:8 LE]`.
#[derive(Clone, Copy, Debug)]
pub struct AccessTime {
    /// The buyer who purchased the access block.
    pub owner_pubkey: [u8; 32],
    /// Minutes purchased.
    pub total_time: u64,
    /// Minutes consumed so far; monotonically non-decreasing.
    pub time_spent: u64,
}

/// Mathematical model of an [`AccessTime`] record.
#[verifier::ext_equal]
pub struct AccessTimeView {
    pub owner_pubkey: Seq<u8>,
    pub total_time: u64,
    pub time_spent: u64,
}

impl AccessTimeView {
    /// The identity field is exactly 32 bytes.
    pub open spec fn wf(self) -> bool {
        self.owner_pubkey.len() == 32
    }
}

impl View for AccessTime {
    type V = AccessTimeView;

    open spec fn view(&self) -> AccessTimeView {
        AccessTimeView {
            owner_pubkey: self.owner_pubkey@,
            total_time: self.total_time,
            time_spent: self.time_spent,
        }
    }
}

/// The exact bytes of a packed `AccessTime` record.
pub open spec fn spec_pack_access_time(a: AccessTimeView) -> Seq<u8> {
    a.owner_pubkey + spec_u64_to_le_bytes(a.total_time) + spec_u64_to_le_bytes(a.time_spent)
}

/// The record described by 48 bytes of a storage slot.
pub open spec fn spec_unpack_access_time(s: Seq<u8>) -> AccessTimeView {
    AccessTimeView {
        owner_pubkey: s.subrange(0, 32),
        total_time: spec_u64_from_le_bytes(s.subrange(32, 40)),
        time_spent: spec_u64_from_le_bytes(s.subrange(40, 48)),
    }
}

/// Copies a 32-byte identity out of `src` at `off`.
fn read_bytes32(src: &[u8], off: usize) -> (r: [u8; 32])
    requires
        off + 32 <= src@.len(),
    ensures
        r@ == src@.subrange(off as int, off as int + 32),
{
    broadcast use vstd::array::group_array_axioms;

    let n: usize = src.len();
    let mut out: [u8; 32] = [0u8; 32];
    let mut i: usize = 0;
    while i < 32
        invariant
            i <= 32,
            off + 32 <= n,
            n == src@.len(),
            forall|j: int| 0 <= j < i ==> out@[j] == src@[off + j],
        decreases 32 - i,
    {
        out[i] = src[off + i];
        i += 1;
    }
    proof {
        assert(out@ =~= src@.subrange(off as int, off as int + 32));
    }
    out
}

/// Appends a 32-byte identity to `v`.
fn push_bytes32(v: &mut Vec<u8>, a: &[u8; 32])
    requires
        old(v)@.len() + 32 <= usize::MAX,
    ensures
        final(v)@ == old(v)@ + a@,
{
    broadcast use vstd::array::group_array_axioms;

    let mut i: usize = 0;
    while i < 32
        invariant
            i <= 32,
            v@ == old(v)@ + a@.subrange(0, i as int),
        decreases 32 - i,
    {
        v.push(a[i]);
        proof {
            assert(v@ =~= old(v)@ + a@.subrange(0, i + 1));
        }
        i += 1;
    }
    proof {
        assert(old(v)@ + a@.subrange(0, 32) =~= old(v)@ + a@);
    }
}

impl Media {
    /// Reinterprets exactly 112 bytes as a `Media` record; never fails on a
    /// slice of the right length.
    pub fn unpack_from_slice(src: &[u8]) -> (r: Result<Media, ProcessError>)
        requires
            src@.len() == MEDIA_LEN,
        ensures
            r matches Ok(m) && m@ == spec_unpack_media(src@) && m@.wf(),
    {
        let media = Media {
            author_pubkey: read_bytes32(src, 0),
            price_per_minute: u64_from_le_bytes(&src[32..40]),
            distributor_fee: u64_from_le_bytes(&src[40..48]),
            nft_token: read_bytes32(src, 48),
            nft_account_pubkey: read_bytes32(src, 80),
        };
        Ok(media)
    }

    /// Decodes a storage slot as a `Media` record without validating prior
    /// field contents, rejecting only a slot of the wrong size.
    pub fn unpack_unchecked(src: &[u8]) -> (r: Result<Media, ProcessError>)
        ensures
            src@.len() == MEDIA_LEN ==> (r matches Ok(m) && m@ == spec_unpack_media(src@)
                && m@.wf()),
            src@.len() != MEDIA_LEN ==> (r matches Err(e) && e == ProcessError::InvalidAccountData),
    {
        if src.len() != MEDIA_LEN {
            return Err(ProcessError::InvalidAccountData);
        }
        Media::unpack_from_slice(src)
    }

    /// Writes the packed record over a 112-byte storage slot.
    pub fn pack_into_slice(&self, dst: &mut Vec<u8>)
        requires
            old(dst)@.len() == MEDIA_LEN,
        ensures
            final(dst)@ == spec_pack_media(self@),
    {
        let mut out: Vec<u8> = Vec::new();
        push_bytes32(&mut out, &self.author_pubkey);
        let mut price = u64_to_le_bytes(self.price_per_minute);
        out.append(&mut price);
        let mut fee = u64_to_le_bytes(self.distributor_fee);
        out.append(&mut fee);
        push_bytes32(&mut out, &self.nft_token);
        push_bytes32(&mut out, &self.nft_account_pubkey);
        *dst = out;
    }

    /// Packs the record into a storage slot, rejecting a slot of the wrong
    /// size.
    pub fn pack(src: Media, dst: &mut Vec<u8>) -> (r: Result<(), ProcessError>)
        ensures
            old(dst)@.len() == MEDIA_LEN ==> r is Ok && final(dst)@ == spec_pack_media(src@),
            old(dst)@.len() != MEDIA_LEN ==> (r matches Err(e) && e
                == ProcessError::InvalidAccountData && final(dst)@ == old(dst)@),
    {
        if dst.len() != MEDIA_LEN {
            return Err(ProcessError::InvalidAccountData);
        }
        src.pack_into_slice(dst);
        Ok(())
    }
}

impl AccessTime {
    /// Reinterprets exactly 48 bytes as an `AccessTime` record; never fails
    /// on a slice of the right length.
    pub fn unpack_from_slice(src: &[u8]) -> (r: Result<AccessTime, ProcessError>)
        requires
            src@.len() == ACCESS_TIME_LEN,
        ensures
            r matches Ok(a) && a@ == spec_unpack_access_time(src@) && a@.wf(),
    {
        let access = AccessTime {
            owner_pubkey: read_bytes32(src, 0),
            total_time: u64_from_le_bytes(&src[32..40]),
            time_spent: u64_from_le_bytes(&src[40..48]),
        };
        Ok(access)
    }

    /// Decodes a storage slot as an `AccessTime` record without validating
    /// prior field contents, rejecting only a slot of the wrong size.
    pub fn unpack_unchecked(src: &[u8]) -> (r: Result<AccessTime, ProcessError>)
        ensures
            src@.len() == ACCESS_TIME_LEN ==> (r matches Ok(a) && a@ == spec_unpack_access_time(
                src@,
            ) && a@.wf()),
            src@.len() != ACCESS_TIME_LEN ==> (r matches Err(e) && e
                == ProcessError::InvalidAccountData),
    {
        if src.len() != ACCESS_TIME_LEN {
            return Err(ProcessError::InvalidAccountData);
        }
        AccessTime::unpack_from_slice(src)
    }

    /// Writes the packed record over a 48-byte storage slot.
    pub fn pack_into_slice(&self, dst: &mut Vec<u8>)
        requires
            old(dst)@.len() == ACCESS_TIME_LEN,
        ensures
            final(dst)@ == spec_pack_access_time(self@),
    {
        let mut out: Vec<u8> = Vec::new();
        push_bytes32(&mut out, &self.owner_pubkey);
        let mut total = u64_to_le_bytes(self.total_time);
        out.append(&mut total);
        let mut spent = u64_to_le_bytes(self.time_spent);
        out.append(&mut spent);
        *dst = out;
    }

    /// Packs the record into a storage slot, rejecting a slot of the wrong
    /// size.
    pub fn pack(src: AccessTime, dst: &mut Vec<u8>) -> (r: Result<(), ProcessError>)
        ensures
            old(dst)@.len() == ACCESS_TIME_LEN ==> r is Ok && final(dst)@
                == spec_pack_access_time(src@),
            old(dst)@.len() != ACCESS_TIME_LEN ==> (r matches Err(e) && e
                == ProcessError::InvalidAccountData && final(dst)@ == old(dst)@),
    {
        if dst.len() != ACCESS_TIME_LEN {
            return Err(ProcessError::InvalidAccountData);
        }
        src.pack_into_slice(dst);
        Ok(())
    }
}

/// Packing a well-formed media record yields 112 bytes, and unpacking them
/// yields the original record, every field unchanged.
pub proof fn lemma_media_round_trip(m: MediaView)
    requires
        m.wf(),
    ensures
        spec_pack_media(m).len() == MEDIA_LEN,
        spec_unpack_media(spec_pack_media(m)) == m,
{
    lemma_auto_spec_u64_to_from_le_bytes();
    let s = spec_pack_media(m);
    assert(s.subrange(0, 32) =~= m.author_pubkey);
    assert(s.subrange(32, 40) =~= spec_u64_to_le_bytes(m.price_per_minute));
    assert(s.subrange(40, 48) =~= spec_u64_to_le_bytes(m.distributor_fee));
    assert(s.subrange(48, 80) =~= m.nft_token);
    assert(s.subrange(80, 112) =~= m.nft_account_pubkey);
    assert(spec_unpack_media(s) =~= m);
}

/// Packing a well-formed access-time record yields 48 bytes, and unpacking
/// them yields the original record, every field unchanged.
pub proof fn lemma_access_time_round_trip(a: AccessTimeView)
    requires
        a.wf(),
    ensures
        spec_pack_access_time(a).len() == ACCESS_TIME_LEN,
        spec_unpack_access_time(spec_pack_access_time(a)) == a,
{
    lemma_auto_spec_u64_to_from_le_bytes();
    let s = spec_pack_access_time(a);
    assert(s.subrange(0, 32) =~= a.owner_pubkey);
    assert(s.subrange(32, 40) =~= spec_u64_to_le_bytes(a.total_time));
    assert(s.subrange(40, 48) =~= spec_u64_to_le_bytes(a.time_spent));
    assert(spec_unpack_access_time(s) =~= a);
}

} // verus!
