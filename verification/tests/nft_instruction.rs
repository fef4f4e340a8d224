use ledger_core::nft::instruction::NFTInstruction;
use ledger_core::program_error::ProgramError;

fn create_payload(name: &str, symbol: &str, uri: &str, royalty: u8, mutable: bool) -> Vec<u8> {
    let mut data = vec![0u8];
    data.extend(
        borsh::to_vec(&(name.to_string(), symbol.to_string(), uri.to_string(), royalty, mutable)).unwrap(),
    );
    data
}

fn update_payload(name: Option<&str>, symbol: Option<&str>, uri: Option<&str>) -> Vec<u8> {
    let own = |t: Option<&str>| t.map(|s| s.to_string());
    let mut data = vec![2u8];
    data.extend(borsh::to_vec(&(own(name), own(symbol), own(uri))).unwrap());
    data
}

#[test]
fn tag_0_is_create() {
    match NFTInstruction::unpack(&create_payload("X", "SYM", "https://x", 10, true)) {
        Ok(NFTInstruction::CreateNFT { name, symbol, uri, royalty_percentage, is_mutable }) => {
            assert_eq!(name, "X");
            assert_eq!(symbol, "SYM");
            assert_eq!(uri, "https://x");
            assert_eq!(royalty_percentage, 10);
            assert!(is_mutable);
        }
        other => panic!("decoded {:?}", other),
    }
}

#[test]
fn the_decoder_does_not_judge_the_royalty() {
    assert!(matches!(
        NFTInstruction::unpack(&create_payload("", "", "", 255, false)),
        Ok(NFTInstruction::CreateNFT { royalty_percentage: 255, is_mutable: false, .. })
    ));
}

#[test]
fn tag_1_is_transfer() {
    let mut data = vec![1u8];
    data.extend_from_slice(&[0x5au8; 32]);
    match NFTInstruction::unpack(&data) {
        Ok(NFTInstruction::TransferNFT { new_owner }) => assert_eq!(new_owner.to_bytes(), [0x5a; 32]),
        other => panic!("decoded {:?}", other),
    }
}

#[test]
fn tag_2_is_update() {
    match NFTInstruction::unpack(&update_payload(Some("new"), None, Some(""))) {
        Ok(NFTInstruction::UpdateMetadata { name, symbol, uri }) => {
            assert_eq!(name, Some("new".to_string()));
            assert_eq!(symbol, None);
            assert_eq!(uri, Some(String::new()));
        }
        other => panic!("decoded {:?}", other),
    }
    assert!(matches!(
        NFTInstruction::unpack(&[2u8, 0, 0, 0]),
        Ok(NFTInstruction::UpdateMetadata { name: None, symbol: None, uri: None })
    ));
}

#[test]
fn an_empty_registry_payload_is_refused() {
    assert_eq!(NFTInstruction::unpack(&[]).err(), Some(ProgramError::InvalidInstructionData));
}

#[test]
fn an_unknown_registry_tag_is_refused() {
    for tag in [3u8, 4, 255] {
        let mut data = create_payload("X", "S", "u", 1, true);
        data[0] = tag;
        assert_eq!(NFTInstruction::unpack(&data).err(), Some(ProgramError::InvalidInstructionData));
        assert_eq!(NFTInstruction::unpack(&[tag]).err(), Some(ProgramError::InvalidInstructionData));
    }
}

#[test]
fn truncated_payloads_are_refused() {
    for full in [
        create_payload("Xy", "S", "u", 1, true),
        update_payload(Some("a"), Some("b"), None),
        {
            let mut data = vec![1u8];
            data.extend_from_slice(&[1u8; 32]);
            data
        },
    ] {
        for len in 0..full.len() {
            assert_eq!(
                NFTInstruction::unpack(&full[..len]).err(),
                Some(ProgramError::InvalidInstructionData)
            );
        }
        assert!(NFTInstruction::unpack(&full).is_ok());
    }
}

#[test]
fn bytes_after_the_fields_are_refused() {
    for mut data in [
        create_payload("X", "S", "u", 1, true),
        update_payload(None, None, None),
        {
            let mut data = vec![1u8];
            data.extend_from_slice(&[1u8; 32]);
            data
        },
    ] {
        data.push(0);
        assert_eq!(NFTInstruction::unpack(&data).err(), Some(ProgramError::InvalidInstructionData));
    }
}

#[test]
fn malformed_flags_and_tags_are_refused() {
    let mut data = create_payload("X", "S", "u", 1, true);
    let last = data.len() - 1;
    data[last] = 2;
    assert_eq!(NFTInstruction::unpack(&data).err(), Some(ProgramError::InvalidInstructionData));
    assert_eq!(NFTInstruction::unpack(&[2u8, 0, 2, 0]).err(), Some(ProgramError::InvalidInstructionData));
    assert_eq!(
        NFTInstruction::unpack(&[2u8, 1, 1, 0, 0, 0, 0xff, 0, 0]).err(),
        Some(ProgramError::InvalidInstructionData)
    );
}
