use vstd::prelude::*;

use crate::identity::Identity;

verus! {

/// The fixed namespacing label under which every payer's record address is
/// derived: the bytes of "subscription".
pub open spec fn subscription_label() -> Seq<u8> {
    seq![115u8, 117u8, 98u8, 115u8, 99u8, 114u8, 105u8, 112u8, 116u8, 105u8, 111u8, 110u8]
}

/// Builds the derivation label as a byte vector.
pub fn subscription_label_bytes() -> (v: Vec<u8>)
    ensures
        v@ == subscription_label(),
{
    let mut v: Vec<u8> = Vec::new();
    v.push(115);
    v.push(117);
    v.push(98);
    v.push(115);
    v.push(99);
    v.push(114);
    v.push(105);
    v.push(112);
    v.push(116);
    v.push(105);
    v.push(111);
    v.push(110);
    proof {
        assert(v@ =~= subscription_label());
    }
    v
}

/// The address and bump seed that the ledger's derivation primitive assigns to
/// a (program, label, payer) triple — a fixed function of those inputs alone —
/// or None in the statistically improbable case that no bump seed works.
pub uninterp spec fn derived_of(program: Seq<u8>, label: Seq<u8>, payer: Seq<u8>) -> Option<
    (Seq<u8>, u8),
>;

/// Relies on solana_program::pubkey::Pubkey::try_find_program_address: the
/// address and bump seed it returns, or its finding none, depend only on the
/// seeds and the program id.
#[verifier::external_body]
fn find_derived_address(program_id: &Identity, label: &Vec<u8>, payer: &Identity) -> (r: Option<
    (Identity, u8),
>)
    ensures
        r is Some <==> derived_of(program_id@, label@, payer@) is Some,
        r matches Some(p) ==> Some((p.0@, p.1)) == derived_of(program_id@, label@, payer@),
{
    let program = solana_program::pubkey::Pubkey::new_from_array(program_id.bytes);
    let payer_key = solana_program::pubkey::Pubkey::new_from_array(payer.bytes);
    let found = solana_program::pubkey::Pubkey::try_find_program_address(
        &[label.as_slice(), payer_key.as_ref()],
        &program,
    );
    match found {
        Some((pda, bump)) => Some((Identity { bytes: pda.to_bytes() }, bump)),
        None => None,
    }
}

/// Derives the record sub-account address and bump seed for a payer under the
/// fixed subscription label.
pub fn derive_record_address(program_id: &Identity, payer_id: &Identity) -> (r: Option<
    (Identity, u8),
>)
    ensures
        r is Some <==> derived_of(program_id@, subscription_label(), payer_id@) is Some,
        r matches Some(p) ==> Some((p.0@, p.1)) == derived_of(
            program_id@,
            subscription_label(),
            payer_id@,
        ),
{
    let label = subscription_label_bytes();
    find_derived_address(program_id, &label, payer_id)
}

/// Whether a candidate address is the one derived for the payer: some address
/// was derivable and the candidate equals it.
pub open spec fn matches_derived(candidate: Seq<u8>, program: Seq<u8>, payer: Seq<u8>) -> bool {
    match derived_of(program, subscription_label(), payer) {
        Some(p) => candidate == p.0,
        None => false,
    }
}

/// Recomputes the derived address for a payer and compares it with a
/// caller-supplied candidate.
pub fn verify_record_address(candidate: &Identity, program_id: &Identity, payer_id: &Identity) -> (r:
    bool)
    ensures
        r == matches_derived(candidate@, program_id@, payer_id@),
{
    match derive_record_address(program_id, payer_id) {
        Some((expected, _bump)) => candidate.equals(&expected),
        None => false,
    }
}

} // verus!
