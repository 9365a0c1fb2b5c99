use vstd::prelude::*;

use crate::bytes::{lemma_u64_from_le_round_trip, read_u64_le, u64_le, u64_to_le_bytes};
use crate::errors::SubError;

verus! {

/// The operations the program accepts, in their wire order: a tag byte,
/// followed for WithdrawFees by the amount as eight little-endian bytes.
#[derive(Clone, Copy, Debug, PartialEq, Eq, Structural)]
pub enum SubscriptionInstruction {
    /// Pay the fixed subscription fee.
    PaySubscription,
    /// Withdraw accumulated fees (stored authority only).
    WithdrawFees { amount: u64 },
    /// Check whether a payer is subscribed.
    CheckSubscription,
}

/// The serialized form of an operation.
pub open spec fn instruction_bytes(ix: SubscriptionInstruction) -> Seq<u8> {
    match ix {
        SubscriptionInstruction::PaySubscription => seq![0u8],
        SubscriptionInstruction::WithdrawFees { amount } => seq![1u8] + u64_le(amount),
        SubscriptionInstruction::CheckSubscription => seq![2u8],
    }
}

/// Whether a payload is a well-formed operation.
pub open spec fn instruction_decodes(data: Seq<u8>) -> bool {
    (data.len() == 1 && (data[0] == 0 || data[0] == 2)) || (data.len() == 9 && data[0] == 1)
}

/// How many accounts an operation requires.
pub open spec fn spec_required_accounts(ix: SubscriptionInstruction) -> int {
    match ix {
        SubscriptionInstruction::PaySubscription => 7,
        SubscriptionInstruction::WithdrawFees { .. } => 3,
        SubscriptionInstruction::CheckSubscription => 2,
    }
}

/// The least number of accounts a request must supply for an operation.
pub fn required_accounts(ix: &SubscriptionInstruction) -> (n: usize)
    ensures
        n == spec_required_accounts(*ix),
{
    match ix {
        SubscriptionInstruction::PaySubscription => 7,
        SubscriptionInstruction::WithdrawFees { .. } => 3,
        SubscriptionInstruction::CheckSubscription => 2,
    }
}

/// Serializes an operation into its wire form.
pub fn encode_instruction(ix: &SubscriptionInstruction) -> (out: Vec<u8>)
    ensures
        out@ == instruction_bytes(*ix),
{
    let mut out: Vec<u8> = Vec::new();
    match ix {
        SubscriptionInstruction::PaySubscription => {
            out.push(0);
            proof {
                assert(out@ =~= instruction_bytes(*ix));
            }
        },
        SubscriptionInstruction::WithdrawFees { amount } => {
            out.push(1);
            let amount_bytes = u64_to_le_bytes(*amount);
            let mut i: usize = 0;
            while i < 8
                invariant
                    i <= 8,
                    amount_bytes@ == u64_le(*amount),
                    out@ == seq![1u8] + amount_bytes@.subrange(0, i as int),
                decreases 8 - i,
            {
                out.push(amount_bytes[i]);
                proof {
                    assert(out@ =~= seq![1u8] + amount_bytes@.subrange(0, i as int + 1));
                }
                i += 1;
            }
            proof {
                assert(amount_bytes@.subrange(0, 8) =~= amount_bytes@);
                assert(out@ =~= instruction_bytes(*ix));
            }
        },
        SubscriptionInstruction::CheckSubscription => {
            out.push(2);
            proof {
                assert(out@ =~= instruction_bytes(*ix));
            }
        },
    }
    out
}

/// Decodes an operation from its wire form; any unknown tag, wrong length or
/// trailing byte is rejected.
pub fn decode_instruction(data: &[u8]) -> (r: Result<SubscriptionInstruction, SubError>)
    ensures
        r is Ok <==> instruction_decodes(data@),
        r matches Ok(ix) ==> instruction_bytes(ix) == data@,
        r is Err ==> r == Err::<SubscriptionInstruction, SubError>(
            SubError::InvalidInstructionData,
        ),
{
    if data.len() == 0 {
        return Err(SubError::InvalidInstructionData);
    }
    let tag = data[0];
    if tag == 0 && data.len() == 1 {
        proof {
            assert(instruction_bytes(SubscriptionInstruction::PaySubscription) =~= data@);
        }
        Ok(SubscriptionInstruction::PaySubscription)
    } else if tag == 1 && data.len() == 9 {
        let amount = read_u64_le(data, 1);
        proof {
            lemma_u64_from_le_round_trip(data@.subrange(1, 9));
            assert(instruction_bytes(SubscriptionInstruction::WithdrawFees { amount }) =~= data@);
        }
        Ok(SubscriptionInstruction::WithdrawFees { amount })
    } else if tag == 2 && data.len() == 1 {
        proof {
            assert(instruction_bytes(SubscriptionInstruction::CheckSubscription) =~= data@);
        }
        Ok(SubscriptionInstruction::CheckSubscription)
    } else {
        Err(SubError::InvalidInstructionData)
    }
}

} // verus!
