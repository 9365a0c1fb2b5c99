use vstd::prelude::*;

use crate::addressing::{derived_of, matches_derived, subscription_label};
use crate::errors::SubError;
use crate::identity::Identity;
use crate::ledger::{owned_by, LedgerAccount};
use crate::ops::{
    check_outcome, pay_error, withdraw_error, SubscriptionStatus, SUBSCRIPTION_FEE,
};
use crate::record::{
    decoded_admin, decoded_date, lemma_record_bytes_decode, record_bytes, record_decodes,
};

verus! {

/// Law: record-address derivation is deterministic — any two derivations for
/// the same program and payer under the fixed label yield the same address and
/// bump seed.
pub proof fn lemma_derivation_deterministic(
    program: Seq<u8>,
    payer: Seq<u8>,
    r1: Option<(Seq<u8>, u8)>,
    r2: Option<(Seq<u8>, u8)>,
)
    requires
        r1 == derived_of(program, subscription_label(), payer),
        r2 == derived_of(program, subscription_label(), payer),
    ensures
        r1 == r2,
{
}

/// Law: after a successful payment at time `now`, the status query on the
/// updated record reports the subscription active since exactly `now`. The
/// hypotheses are what `pay_subscription` ensures of the record on success.
pub proof fn lemma_pay_then_check(program: Identity, record: LedgerAccount, now: u64, admin: Seq<
    u8,
>)
    requires
        owned_by(record, program),
        record.data@ == record_bytes(true, now, admin),
        admin.len() == 32,
    ensures
        check_outcome(program, record) == Ok::<SubscriptionStatus, SubError>(
            SubscriptionStatus { subscribed: true, since: Some(now) },
        ),
{
    lemma_record_bytes_decode(true, now, admin);
}

/// Law: a payment whose preliminary checks all pass but whose fee transfer is
/// rejected — the payer's funding cannot cover the fee, or the authority's
/// funding cannot receive it — stops exactly at TransferFailed; by
/// `pay_subscription`'s contract the record and both balances then stay as
/// they were, and no account is created.
pub proof fn lemma_pay_transfer_failure(
    program: Identity,
    payer: Identity,
    record_address: Identity,
    record: LedgerAccount,
    payer_funding: u64,
    authority_funding: u64,
)
    requires
        !owned_by(record, program) ==> matches_derived(record_address@, program@, payer@),
        owned_by(record, program) ==> record_decodes(record.data@),
        payer_funding < SUBSCRIPTION_FEE || authority_funding + SUBSCRIPTION_FEE > u64::MAX,
    ensures
        pay_error(program, payer, true, record_address, record, payer_funding, authority_funding)
            == Some(SubError::TransferFailed),
{
}

/// Law: a withdrawal that clears the signature, ownership and authority checks
/// is permitted exactly when the balance less the amount stays at or above the
/// reserve.
pub proof fn lemma_withdraw_solvency(
    program: Identity,
    authority: Identity,
    record: LedgerAccount,
    amount: u64,
    reserve: u64,
)
    requires
        owned_by(record, program),
        record_decodes(record.data@),
        decoded_admin(record.data@) == authority@,
    ensures
        withdraw_error(program, authority, true, record, amount, reserve) is None <==> record.lamports
            - amount >= reserve,
        record.lamports - amount < reserve ==> withdraw_error(
            program,
            authority,
            true,
            record,
            amount,
            reserve,
        ) == Some(SubError::InsufficientFunds),
{
}

/// Law: a withdrawal signed by any identity other than the record's stored
/// authority fails with UnauthorizedAuthority, whatever the amount — zero
/// included.
pub proof fn lemma_withdraw_unauthorized(
    program: Identity,
    authority: Identity,
    record: LedgerAccount,
    amount: u64,
    reserve: u64,
)
    requires
        owned_by(record, program),
        record_decodes(record.data@),
        decoded_admin(record.data@) != authority@,
    ensures
        withdraw_error(program, authority, true, record, amount, reserve) == Some(
            SubError::UnauthorizedAuthority,
        ),
{
}

/// Law: the status query on a record account that was never created — one not
/// owned by this program — reports not subscribed with no timestamp, and never
/// an error.
pub proof fn lemma_check_absent(program: Identity, record: LedgerAccount)
    requires
        !owned_by(record, program),
    ensures
        check_outcome(program, record) == Ok::<SubscriptionStatus, SubError>(
            SubscriptionStatus { subscribed: false, since: None },
        ),
{
}

/// Law: a second payment finds the record already owned, so by
/// `pay_subscription`'s contract it creates no new account and never reports
/// an address mismatch; and with a clock that has not gone backwards, the
/// timestamp the second payment stores is at least the first one's.
pub proof fn lemma_repeated_pay(
    program: Identity,
    rec1: LedgerAccount,
    rec2: LedgerAccount,
    now1: u64,
    now2: u64,
    adm1: Seq<u8>,
    adm2: Seq<u8>,
)
    requires
        owned_by(rec1, program),
        rec1.data@ == record_bytes(true, now1, adm1),
        adm1.len() == 32,
        owned_by(rec2, program),
        rec2.data@ == record_bytes(true, now2, adm2),
        adm2.len() == 32,
        now1 <= now2,
    ensures
        forall|payer: Identity, addr: Identity, pf: u64, af: u64|
            pay_error(program, payer, true, addr, rec1, pf, af) != Some(SubError::AddressMismatch),
        record_decodes(rec1.data@),
        decoded_date(rec2.data@) >= decoded_date(rec1.data@),
{
    lemma_record_bytes_decode(true, now1, adm1);
    lemma_record_bytes_decode(true, now2, adm2);
    assert forall|payer: Identity, addr: Identity, pf: u64, af: u64|
        pay_error(program, payer, true, addr, rec1, pf, af) != Some(
            SubError::AddressMismatch,
        ) by {
        assert(owned_by(rec1, program));
    }
}

} // verus!
