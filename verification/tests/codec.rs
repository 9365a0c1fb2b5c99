use subscription_gate::errors::SubError;
use subscription_gate::identity::Identity;
use subscription_gate::instruction::{
    decode_instruction, encode_instruction, required_accounts, SubscriptionInstruction,
};
use subscription_gate::record::{decode_record, encode_record, SubscriptionAccount, RECORD_SIZE};

fn id(b: u8) -> Identity {
    Identity { bytes: [b; 32] }
}

#[test]
fn record_layout_is_exact() {
    let rec = SubscriptionAccount {
        is_subscribed: true,
        subscription_date: 0x0102030405060708,
        admin: id(9),
    };
    let bytes = encode_record(&rec);
    assert_eq!(bytes.len(), RECORD_SIZE);
    assert_eq!(bytes[0], 1);
    assert_eq!(&bytes[1..9], &[0x08, 0x07, 0x06, 0x05, 0x04, 0x03, 0x02, 0x01]);
    assert_eq!(&bytes[9..41], &[9u8; 32][..]);
}

#[test]
fn record_round_trips() {
    let rec = SubscriptionAccount {
        is_subscribed: false,
        subscription_date: 1_700_000_000,
        admin: id(77),
    };
    let bytes = encode_record(&rec);
    let back = decode_record(&bytes).unwrap();
    assert_eq!(back.is_subscribed, false);
    assert_eq!(back.subscription_date, 1_700_000_000);
    assert_eq!(back.admin.bytes, [77u8; 32]);
}

#[test]
fn record_rejects_bad_length() {
    assert_eq!(decode_record(&[]), Err(SubError::InvalidInstructionData));
    assert_eq!(decode_record(&[1u8; 40]), Err(SubError::InvalidInstructionData));
    assert_eq!(decode_record(&[1u8; 42]), Err(SubError::InvalidInstructionData));
}

#[test]
fn record_rejects_bad_flag_byte() {
    let mut bytes = encode_record(&SubscriptionAccount {
        is_subscribed: true,
        subscription_date: 5,
        admin: id(1),
    });
    bytes[0] = 2;
    assert_eq!(decode_record(&bytes), Err(SubError::InvalidInstructionData));
}

#[test]
fn instruction_pay_decodes() {
    assert_eq!(decode_instruction(&[0]), Ok(SubscriptionInstruction::PaySubscription));
    assert_eq!(encode_instruction(&SubscriptionInstruction::PaySubscription), vec![0u8]);
}

#[test]
fn instruction_withdraw_round_trips() {
    let ix = SubscriptionInstruction::WithdrawFees { amount: 0x1122334455667788 };
    let bytes = encode_instruction(&ix);
    assert_eq!(bytes, vec![1, 0x88, 0x77, 0x66, 0x55, 0x44, 0x33, 0x22, 0x11]);
    assert_eq!(decode_instruction(&bytes), Ok(ix));
}

#[test]
fn instruction_check_decodes() {
    assert_eq!(decode_instruction(&[2]), Ok(SubscriptionInstruction::CheckSubscription));
    assert_eq!(encode_instruction(&SubscriptionInstruction::CheckSubscription), vec![2u8]);
}

#[test]
fn instruction_rejects_malformed_payloads() {
    assert_eq!(decode_instruction(&[]), Err(SubError::InvalidInstructionData));
    assert_eq!(decode_instruction(&[3]), Err(SubError::InvalidInstructionData));
    assert_eq!(decode_instruction(&[0, 0]), Err(SubError::InvalidInstructionData));
    assert_eq!(decode_instruction(&[1]), Err(SubError::InvalidInstructionData));
    assert_eq!(decode_instruction(&[1, 0, 0, 0]), Err(SubError::InvalidInstructionData));
    assert_eq!(decode_instruction(&[2, 9]), Err(SubError::InvalidInstructionData));
}

#[test]
fn account_counts_match_the_instruction_table() {
    assert_eq!(required_accounts(&SubscriptionInstruction::PaySubscription), 7);
    assert_eq!(required_accounts(&SubscriptionInstruction::WithdrawFees { amount: 1 }), 3);
    assert_eq!(required_accounts(&SubscriptionInstruction::CheckSubscription), 2);
}
