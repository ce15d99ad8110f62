//! Byte-level tests of the instruction and record codecs.

use etomic_swap::error_code::SwapError;
use etomic_swap::instruction::AtomicSwapInstruction;
use etomic_swap::payment::{Payment, PaymentState};

fn sample_lamports_payment() -> AtomicSwapInstruction {
    AtomicSwapInstruction::LamportsPayment {
        secret_hash: [0xab; 32],
        lock_time: 777,
        amount: 10000,
        receiver: [0x11; 32],
        rent_exemption_lamports: 2039280,
        vault_bump_seed: 254,
        vault_bump_seed_data: 253,
    }
}

#[test]
fn lamports_payment_round_trip() {
    let x = sample_lamports_payment();
    let bytes = x.pack();
    assert_eq!(bytes.len(), 91);
    assert_eq!(bytes[0], 0);
    let y = AtomicSwapInstruction::unpack(bytes[0], &bytes).unwrap();
    assert_eq!(x, y);
}

#[test]
fn spl_token_payment_round_trip() {
    let x = AtomicSwapInstruction::SPLTokenPayment {
        secret_hash: [0x01; 32],
        lock_time: u64::MAX,
        amount: 1,
        receiver: [0x22; 32],
        token_program: [0x33; 32],
        rent_exemption_lamports: 0,
        vault_bump_seed: 0,
        vault_bump_seed_data: 255,
    };
    let bytes = x.pack();
    assert_eq!(bytes.len(), 123);
    assert_eq!(bytes[0], 1);
    let y = AtomicSwapInstruction::unpack(bytes[0], &bytes).unwrap();
    assert_eq!(x, y);
}

#[test]
fn receiver_spend_round_trip() {
    let x = AtomicSwapInstruction::ReceiverSpend {
        secret: [0x44; 32],
        lock_time: 1,
        amount: 123456789,
        sender: [0x55; 32],
        token_program: [0; 32],
        vault_bump_seed: 7,
        vault_bump_seed_data: 8,
    };
    let bytes = x.pack();
    assert_eq!(bytes.len(), 115);
    assert_eq!(bytes[0], 2);
    let y = AtomicSwapInstruction::unpack(bytes[0], &bytes).unwrap();
    assert_eq!(x, y);
}

#[test]
fn sender_refund_round_trip() {
    let x = AtomicSwapInstruction::SenderRefund {
        secret_hash: [0x66; 32],
        lock_time: 42,
        amount: 5,
        receiver: [0x77; 32],
        token_program: [0x88; 32],
        vault_bump_seed: 9,
        vault_bump_seed_data: 10,
    };
    let bytes = x.pack();
    assert_eq!(bytes.len(), 115);
    assert_eq!(bytes[0], 3);
    let y = AtomicSwapInstruction::unpack(bytes[0], &bytes).unwrap();
    assert_eq!(x, y);
}

#[test]
fn instruction_fields_sit_at_fixed_offsets() {
    let x = sample_lamports_payment();
    let bytes = x.pack();
    assert_eq!(&bytes[1..33], &[0xab; 32]);
    assert_eq!(&bytes[33..41], &777u64.to_le_bytes());
    assert_eq!(&bytes[41..49], &10000u64.to_le_bytes());
    assert_eq!(&bytes[49..81], &[0x11; 32]);
    assert_eq!(&bytes[81..89], &2039280u64.to_le_bytes());
    assert_eq!(bytes[89], 254);
    assert_eq!(bytes[90], 253);
}

#[test]
fn wrong_length_is_rejected_before_any_field() {
    let x = sample_lamports_payment();
    let mut bytes = x.pack();
    bytes.push(0);
    let r = AtomicSwapInstruction::unpack(bytes[0], &bytes);
    assert_eq!(r.unwrap_err(), SwapError::InvalidInputLength);

    let short = &x.pack()[..90];
    let r = AtomicSwapInstruction::unpack(short[0], short);
    assert_eq!(r.unwrap_err(), SwapError::InvalidInputLength);

    // A buffer of the right length for a different tag is still wrong for
    // this tag.
    let r = AtomicSwapInstruction::unpack(1, &x.pack());
    assert_eq!(r.unwrap_err(), SwapError::InvalidInputLength);
}

#[test]
fn unknown_tag_is_rejected() {
    let bytes = vec![4u8; 91];
    let r = AtomicSwapInstruction::unpack(4, &bytes);
    assert_eq!(r.unwrap_err(), SwapError::InvalidAtomicSwapInstruction);
    let r = AtomicSwapInstruction::unpack(255, &bytes);
    assert_eq!(r.unwrap_err(), SwapError::InvalidAtomicSwapInstruction);
}

#[test]
fn record_round_trip_all_states() {
    let states = [
        PaymentState::Uninitialized,
        PaymentState::PaymentSent,
        PaymentState::ReceiverSpent,
        PaymentState::SenderRefunded,
    ];
    for (i, state) in states.into_iter().enumerate() {
        let p = Payment { payment_hash: [0x5a; 32], lock_time: 99, state };
        let bytes = p.pack();
        assert_eq!(bytes.len(), 41);
        assert_eq!(&bytes[0..32], &[0x5a; 32]);
        assert_eq!(&bytes[32..40], &99u64.to_le_bytes());
        assert_eq!(bytes[40], i as u8);
        let q = Payment::unpack(&bytes).unwrap();
        assert_eq!(p, q);
    }
}

#[test]
fn record_wrong_length_is_rejected() {
    let r = Payment::unpack(&[0u8; 40]);
    assert_eq!(r.unwrap_err(), SwapError::InvalidInputLength);
    let r = Payment::unpack(&[0u8; 42]);
    assert_eq!(r.unwrap_err(), SwapError::InvalidInputLength);
    let r = Payment::unpack(&[]);
    assert_eq!(r.unwrap_err(), SwapError::InvalidInputLength);
}

#[test]
fn record_unknown_state_byte_is_rejected() {
    let mut bytes = vec![0u8; 41];
    bytes[40] = 4;
    let r = Payment::unpack(&bytes);
    assert_eq!(r.unwrap_err(), SwapError::UnknownPaymentState);
    bytes[40] = 255;
    let r = Payment::unpack(&bytes);
    assert_eq!(r.unwrap_err(), SwapError::UnknownPaymentState);
}

#[test]
fn error_codes_are_stable() {
    assert_eq!(SwapError::InvalidInputLength.code(), 601);
    assert_eq!(SwapError::InvalidAtomicSwapInstruction.code(), 609);
    assert_eq!(SwapError::ReceiverSetToDefault.code(), 610);
    assert_eq!(SwapError::AmountZero.code(), 611);
    assert_eq!(SwapError::InvalidPaymentHash.code(), 613);
    assert_eq!(SwapError::InvalidPaymentState.code(), 614);
    assert_eq!(SwapError::InvalidOwner.code(), 616);
    assert_eq!(SwapError::WaitForLockTime.code(), 617);
    assert_eq!(SwapError::InvalidVaultDerivation.code(), 623);
}
