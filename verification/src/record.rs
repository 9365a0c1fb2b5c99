use vstd::prelude::*;

use vstd::array::ArrayAdditionalExecFns;

use crate::bytes::{
    lemma_u64_from_le_round_trip, lemma_u64_le_round_trip, read_u64_le, u64_from_le, u64_le,
    u64_to_le_bytes,
};
use crate::errors::SubError;
use crate::identity::Identity;

verus! {

/// Serialized size of a subscription record: one flag byte, an eight-byte
/// timestamp, and a 32-byte authority identity.
pub const RECORD_SIZE: usize = 41;

/// The persisted subscription record.
#[derive(Clone, Copy, Debug, PartialEq, Eq)]
pub struct SubscriptionAccount {
    /// True iff the most recent payment succeeded.
    pub is_subscribed: bool,
    /// Seconds since epoch of the most recent successful payment.
    pub subscription_date: u64,
    /// The identity entitled to withdraw funds; fixed at creation.
    pub admin: Identity,
}

/// The serialized form of a record: flag byte, timestamp bytes, authority bytes.
pub open spec fn record_bytes(flag: bool, date: u64, admin: Seq<u8>) -> Seq<u8> {
    seq![if flag { 1u8 } else { 0u8 }] + u64_le(date) + admin
}

/// Whether stored bytes are a well-formed record.
pub open spec fn record_decodes(data: Seq<u8>) -> bool {
    data.len() == RECORD_SIZE && (data[0] == 0 || data[0] == 1)
}

/// The subscription flag stored in well-formed record bytes.
pub open spec fn decoded_flag(data: Seq<u8>) -> bool {
    data[0] == 1
}

/// The subscription timestamp stored in well-formed record bytes.
pub open spec fn decoded_date(data: Seq<u8>) -> u64 {
    u64_from_le(data.subrange(1, 9))
}

/// The authority identity stored in well-formed record bytes.
pub open spec fn decoded_admin(data: Seq<u8>) -> Seq<u8> {
    data.subrange(9, 41)
}

/// Serialized record bytes decode to exactly the fields they were built from.
pub proof fn lemma_record_bytes_decode(flag: bool, date: u64, admin: Seq<u8>)
    requires
        admin.len() == 32,
    ensures
        record_decodes(record_bytes(flag, date, admin)),
        decoded_flag(record_bytes(flag, date, admin)) == flag,
        decoded_date(record_bytes(flag, date, admin)) == date,
        decoded_admin(record_bytes(flag, date, admin)) == admin,
{
    let data = record_bytes(flag, date, admin);
    assert(data.subrange(1, 9) =~= u64_le(date));
    assert(data.subrange(9, 41) =~= admin);
    lemma_u64_le_round_trip(date);
}

/// Serializes a record into its fixed 41-byte layout.
pub fn encode_record(r: &SubscriptionAccount) -> (out: Vec<u8>)
    ensures
        out@ == record_bytes(r.is_subscribed, r.subscription_date, r.admin@),
        out@.len() == RECORD_SIZE,
{
    let mut out: Vec<u8> = Vec::new();
    if r.is_subscribed {
        out.push(1);
    } else {
        out.push(0);
    }
    let date_bytes = u64_to_le_bytes(r.subscription_date);
    let mut i: usize = 0;
    while i < 8
        invariant
            i <= 8,
            date_bytes@ == u64_le(r.subscription_date),
            out@ == seq![if r.is_subscribed { 1u8 } else { 0u8 }] + date_bytes@.subrange(0, i as int),
        decreases 8 - i,
    {
        out.push(date_bytes[i]);
        proof {
            assert(out@ =~= seq![if r.is_subscribed { 1u8 } else { 0u8 }] + date_bytes@.subrange(
                0,
                i as int + 1,
            ));
        }
        i += 1;
    }
    proof {
        assert(date_bytes@.subrange(0, 8) =~= date_bytes@);
    }
    let mut j: usize = 0;
    while j < 32
        invariant
            j <= 32,
            out@ == seq![if r.is_subscribed { 1u8 } else { 0u8 }] + u64_le(r.subscription_date)
                + r.admin@.subrange(0, j as int),
        decreases 32 - j,
    {
        out.push(r.admin.bytes[j]);
        proof {
            assert(out@ =~= seq![if r.is_subscribed { 1u8 } else { 0u8 }] + u64_le(
                r.subscription_date,
            ) + r.admin@.subrange(0, j as int + 1));
        }
        j += 1;
    }
    proof {
        assert(r.admin@.subrange(0, 32) =~= r.admin@);
        assert(out@ =~= record_bytes(r.is_subscribed, r.subscription_date, r.admin@));
    }
    out
}

/// Deserializes a record from its fixed 41-byte layout; rejects any other
/// length and any flag byte other than 0 or 1.
pub fn decode_record(data: &[u8]) -> (r: Result<SubscriptionAccount, SubError>)
    ensures
        r is Ok <==> record_decodes(data@),
        r matches Ok(rec) ==> {
            &&& rec.is_subscribed == decoded_flag(data@)
            &&& rec.subscription_date == decoded_date(data@)
            &&& rec.admin@ == decoded_admin(data@)
            &&& data@ == record_bytes(rec.is_subscribed, rec.subscription_date, rec.admin@)
        },
        r is Err ==> r == Err::<SubscriptionAccount, SubError>(SubError::InvalidInstructionData),
{
    if data.len() != RECORD_SIZE {
        return Err(SubError::InvalidInstructionData);
    }
    let flag_byte = data[0];
    if flag_byte > 1 {
        return Err(SubError::InvalidInstructionData);
    }
    let date = read_u64_le(data, 1);
    let mut admin_bytes: [u8; 32] = [0u8; 32];
    let mut j: usize = 0;
    while j < 32
        invariant
            j <= 32,
            data@.len() == RECORD_SIZE,
            forall|k: int| 0 <= k < j ==> admin_bytes@[k] == data@[9 + k],
        decreases 32 - j,
    {
        admin_bytes.set(j, data[9 + j]);
        j += 1;
    }
    let rec = SubscriptionAccount {
        is_subscribed: flag_byte == 1,
        subscription_date: date,
        admin: Identity { bytes: admin_bytes },
    };
    proof {
        assert(admin_bytes@ =~= decoded_admin(data@));
        lemma_u64_from_le_round_trip(data@.subrange(1, 9));
        assert(data@ =~= record_bytes(rec.is_subscribed, rec.subscription_date, rec.admin@));
    }
    Ok(rec)
}

} // verus!
