use ledger_core::program_error::ProgramError;
use ledger_core::token::instruction::{TokenInstruction, AMOUNT_MIN_LEN, INITIALIZE_MINT_MIN_LEN};

fn amount_payload(tag: u8, amount: u64) -> Vec<u8> {
    let mut data = vec![tag];
    data.extend_from_slice(&amount.to_le_bytes());
    data
}

#[test]
fn minimum_lengths_are_34_and_9() {
    assert_eq!(INITIALIZE_MINT_MIN_LEN, 34);
    assert_eq!(AMOUNT_MIN_LEN, 9);
}

#[test]
fn tag_0_is_initialize_mint() {
    let mut data = vec![0u8, 2];
    data.extend_from_slice(&[0xabu8; 32]);
    match TokenInstruction::unpack(&data) {
        Ok(TokenInstruction::InitializeMint { decimals, mint_authority }) => {
            assert_eq!(decimals, 2);
            assert_eq!(mint_authority.to_bytes(), [0xab; 32]);
        }
        other => panic!("decoded {:?}", other),
    }
}

#[test]
fn tags_1_to_3_carry_an_amount() {
    assert!(matches!(
        TokenInstruction::unpack(&amount_payload(1, 500)),
        Ok(TokenInstruction::MintTo { amount: 500 })
    ));
    assert!(matches!(
        TokenInstruction::unpack(&amount_payload(2, 200)),
        Ok(TokenInstruction::Transfer { amount: 200 })
    ));
    assert!(matches!(
        TokenInstruction::unpack(&amount_payload(3, u64::MAX)),
        Ok(TokenInstruction::Burn { amount: u64::MAX })
    ));
}

#[test]
fn bytes_after_the_fields_are_ignored() {
    let mut data = amount_payload(1, 7);
    data.extend_from_slice(&[9, 9, 9]);
    assert!(matches!(TokenInstruction::unpack(&data), Ok(TokenInstruction::MintTo { amount: 7 })));
    let mut data = vec![0u8, 6];
    data.extend_from_slice(&[1u8; 40]);
    assert!(matches!(
        TokenInstruction::unpack(&data),
        Ok(TokenInstruction::InitializeMint { decimals: 6, .. })
    ));
}

#[test]
fn an_empty_payload_is_refused() {
    assert_eq!(TokenInstruction::unpack(&[]).err(), Some(ProgramError::InvalidInstructionData));
}

#[test]
fn an_unknown_tag_is_refused() {
    for tag in [4u8, 5, 100, 255] {
        let data = amount_payload(tag, 1);
        assert_eq!(TokenInstruction::unpack(&data).err(), Some(ProgramError::InvalidInstructionData));
        let mut long = vec![tag];
        long.extend_from_slice(&[0u8; 64]);
        assert_eq!(TokenInstruction::unpack(&long).err(), Some(ProgramError::InvalidInstructionData));
    }
}

#[test]
fn a_short_payload_is_refused() {
    assert_eq!(TokenInstruction::unpack(&[0u8; 33]).err(), Some(ProgramError::InvalidInstructionData));
    assert_eq!(TokenInstruction::unpack(&[0u8]).err(), Some(ProgramError::InvalidInstructionData));
    for tag in [1u8, 2, 3] {
        let data = amount_payload(tag, 1);
        assert_eq!(
            TokenInstruction::unpack(&data[..8]).err(),
            Some(ProgramError::InvalidInstructionData)
        );
        assert_eq!(TokenInstruction::unpack(&[tag]).err(), Some(ProgramError::InvalidInstructionData));
    }
}
