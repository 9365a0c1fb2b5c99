use vstd::prelude::*;

use crate::addressing::{matches_derived, verify_record_address};
use crate::errors::SubError;
use crate::identity::Identity;
use crate::ledger::{owned_by, LedgerAccount};
use crate::record::{
    decode_record, decoded_admin, decoded_date, decoded_flag, encode_record, record_bytes,
    record_decodes, SubscriptionAccount,
};

verus! {

/// The fixed subscription fee, in the token's smallest unit.
pub const SUBSCRIPTION_FEE: u64 = 10_000_000;

/// The error a payment stops at, or None where every step succeeds: the payer
/// must have signed; a record that is not yet this program's must sit at the
/// payer's derived address; an existing record must decode; and the fee
/// transfer must neither overdraw the payer nor overflow the recipient.
pub open spec fn pay_error(
    program: Identity,
    payer: Identity,
    payer_is_signer: bool,
    record_address: Identity,
    record: LedgerAccount,
    payer_funding: u64,
    authority_funding: u64,
) -> Option<SubError> {
    if !payer_is_signer {
        Some(SubError::MissingSignature)
    } else if !owned_by(record, program) && !matches_derived(record_address@, program@, payer@) {
        Some(SubError::AddressMismatch)
    } else if owned_by(record, program) && !record_decodes(record.data@) {
        Some(SubError::InvalidInstructionData)
    } else if payer_funding < SUBSCRIPTION_FEE || authority_funding + SUBSCRIPTION_FEE
        > u64::MAX {
        Some(SubError::TransferFailed)
    } else {
        None
    }
}

/// Pays one subscription period: creates the record sub-account at the payer's
/// derived address if it does not exist yet, moves the fixed fee from the
/// payer's funding balance to the authority's, and marks the record subscribed
/// at time `now`. On any error nothing changes. Returns whether the record was
/// created by this call. The stored authority is fixed at creation and kept on
/// every later payment; `reserve` is the ledger's minimum balance for the
/// record's size and funds a newly created record exactly.
pub fn pay_subscription(
    program_id: &Identity,
    payer_id: &Identity,
    payer_is_signer: bool,
    record_address: &Identity,
    record: &mut LedgerAccount,
    authority_id: &Identity,
    payer_funding: &mut u64,
    authority_funding: &mut u64,
    now: u64,
    reserve: u64,
) -> (r: Result<bool, SubError>)
    ensures
        r is Err <==> pay_error(
            *program_id,
            *payer_id,
            payer_is_signer,
            *record_address,
            *old(record),
            *old(payer_funding),
            *old(authority_funding),
        ) is Some,
        r matches Err(e) ==> {
            &&& Some(e) == pay_error(
                *program_id,
                *payer_id,
                payer_is_signer,
                *record_address,
                *old(record),
                *old(payer_funding),
                *old(authority_funding),
            )
            &&& *final(record) == *old(record)
            &&& *final(payer_funding) == *old(payer_funding)
            &&& *final(authority_funding) == *old(authority_funding)
        },
        r matches Ok(created) ==> {
            &&& created == !owned_by(*old(record), *program_id)
            &&& owned_by(*final(record), *program_id)
            &&& final(record).lamports == if created {
                reserve
            } else {
                old(record).lamports
            }
            &&& final(record).data@ == record_bytes(
                true,
                now,
                if created {
                    authority_id@
                } else {
                    decoded_admin(old(record).data@)
                },
            )
            &&& *final(payer_funding) == *old(payer_funding) - SUBSCRIPTION_FEE
            &&& *final(authority_funding) == *old(authority_funding) + SUBSCRIPTION_FEE
        },
{
    if !payer_is_signer {
        return Err(SubError::MissingSignature);
    }
    let needs_create = !record.owner.equals(program_id);
    let mut admin = *authority_id;
    if needs_create {
        if !verify_record_address(record_address, program_id, payer_id) {
            return Err(SubError::AddressMismatch);
        }
    } else {
        match decode_record(record.data.as_slice()) {
            Ok(rec) => {
                admin = rec.admin;
            },
            Err(_) => {
                return Err(SubError::InvalidInstructionData);
            },
        }
    }
    if *payer_funding < SUBSCRIPTION_FEE {
        return Err(SubError::TransferFailed);
    }
    if *authority_funding > u64::MAX - SUBSCRIPTION_FEE {
        return Err(SubError::TransferFailed);
    }
    *payer_funding = *payer_funding - SUBSCRIPTION_FEE;
    *authority_funding = *authority_funding + SUBSCRIPTION_FEE;
    if needs_create {
        record.owner = *program_id;
        record.lamports = reserve;
    }
    let new_rec = SubscriptionAccount { is_subscribed: true, subscription_date: now, admin };
    record.data = encode_record(&new_rec);
    Ok(needs_create)
}

/// The error a withdrawal stops at, or None where it succeeds: the authority
/// must have signed, the record must belong to this program and decode, its
/// stored authority must be the signer, and the balance less the amount must
/// stay at or above the reserve.
pub open spec fn withdraw_error(
    program: Identity,
    authority: Identity,
    authority_is_signer: bool,
    record: LedgerAccount,
    amount: u64,
    reserve: u64,
) -> Option<SubError> {
    if !authority_is_signer {
        Some(SubError::MissingSignature)
    } else if !owned_by(record, program) {
        Some(SubError::AddressMismatch)
    } else if !record_decodes(record.data@) {
        Some(SubError::InvalidInstructionData)
    } else if decoded_admin(record.data@) != authority@ {
        Some(SubError::UnauthorizedAuthority)
    } else if record.lamports < reserve + amount {
        Some(SubError::InsufficientFunds)
    } else {
        None
    }
}

/// Withdraws `amount` from the record sub-account to the authority's balance.
/// Only the stored authority may withdraw, and only down to the reserve; the
/// subscription flag and timestamp are never touched. On any error nothing
/// changes.
pub fn withdraw_fees(
    program_id: &Identity,
    authority_id: &Identity,
    authority_is_signer: bool,
    record: &mut LedgerAccount,
    authority_lamports: &mut u64,
    amount: u64,
    reserve: u64,
) -> (r: Result<(), SubError>)
    requires
        *old(authority_lamports) + amount <= u64::MAX,
    ensures
        r is Err <==> withdraw_error(
            *program_id,
            *authority_id,
            authority_is_signer,
            *old(record),
            amount,
            reserve,
        ) is Some,
        r matches Err(e) ==> {
            &&& Some(e) == withdraw_error(
                *program_id,
                *authority_id,
                authority_is_signer,
                *old(record),
                amount,
                reserve,
            )
            &&& *final(record) == *old(record)
            &&& *final(authority_lamports) == *old(authority_lamports)
        },
        r is Ok ==> {
            &&& final(record).lamports == old(record).lamports - amount
            &&& final(record).lamports >= reserve
            &&& final(record).owner == old(record).owner
            &&& final(record).data == old(record).data
            &&& *final(authority_lamports) == *old(authority_lamports) + amount
        },
{
    if !authority_is_signer {
        return Err(SubError::MissingSignature);
    }
    if !record.owner.equals(program_id) {
        return Err(SubError::AddressMismatch);
    }
    let stored = match decode_record(record.data.as_slice()) {
        Ok(rec) => rec,
        Err(e) => {
            return Err(e);
        },
    };
    if !stored.admin.equals(authority_id) {
        return Err(SubError::UnauthorizedAuthority);
    }
    if record.lamports < reserve || record.lamports - reserve < amount {
        return Err(SubError::InsufficientFunds);
    }
    record.lamports = record.lamports - amount;
    *authority_lamports = *authority_lamports + amount;
    Ok(())
}

/// What a status query reports.
#[derive(Clone, Copy, Debug, PartialEq, Eq, Structural)]
pub struct SubscriptionStatus {
    pub subscribed: bool,
    pub since: Option<u64>,
}

/// What the status query answers for a given record account: an absent or
/// foreign record is a valid negative result, a well-formed record reports its
/// stored flag and timestamp verbatim, and malformed stored bytes are an error.
pub open spec fn check_outcome(program: Identity, record: LedgerAccount) -> Result<
    SubscriptionStatus,
    SubError,
> {
    if !owned_by(record, program) {
        Ok(SubscriptionStatus { subscribed: false, since: None })
    } else if !record_decodes(record.data@) {
        Err(SubError::InvalidInstructionData)
    } else {
        Ok(
            SubscriptionStatus {
                subscribed: decoded_flag(record.data@),
                since: Some(decoded_date(record.data@)),
            },
        )
    }
}

/// Reads a payer's subscription status from the record account. Read-only and
/// signature-free; a record that was never created reports not subscribed.
pub fn check_subscription(program_id: &Identity, record: &LedgerAccount) -> (r: Result<
    SubscriptionStatus,
    SubError,
>)
    ensures
        r == check_outcome(*program_id, *record),
{
    if !record.owner.equals(program_id) {
        return Ok(SubscriptionStatus { subscribed: false, since: None });
    }
    match decode_record(record.data.as_slice()) {
        Ok(rec) => Ok(
            SubscriptionStatus {
                subscribed: rec.is_subscribed,
                since: Some(rec.subscription_date),
            },
        ),
        Err(e) => Err(e),
    }
}

} // verus!
