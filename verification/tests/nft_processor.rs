use ledger_core::account::AccountInfo;
use ledger_core::nft::processor::{
    create_nft_with_exemption, is_vacant, process_create_nft, process_instruction,
    process_transfer_nft, process_update_metadata, MAX_ROYALTY_PERCENTAGE,
};
use ledger_core::nft::state::NFTMetadata;
use ledger_core::program_error::ProgramError;
use ledger_core::pubkey::Pubkey;
use ledger_core::rent::RENT_ID;

fn key(seed: u8) -> Pubkey {
    Pubkey::new_from_array([seed; 32])
}

fn program() -> Pubkey {
    key(0xAA)
}

fn rent_account() -> AccountInfo {
    let mut data = 6_960u64.to_le_bytes().to_vec();
    data.extend_from_slice(&[0, 0, 0, 0, 0, 0, 240, 63]);
    data.push(50);
    AccountInfo::new(Pubkey::new_from_array(RENT_ID), false, 1, data, key(0))
}

fn exempt(len: usize) -> u64 {
    (128 + len as u64) * 6_960
}

fn slot(len: usize) -> AccountInfo {
    AccountInfo::new(key(10), false, exempt(len), vec![0u8; len], program())
}

fn party(who: Pubkey, signed: bool) -> AccountInfo {
    AccountInfo::new(who, signed, 0, Vec::new(), key(0))
}

fn text(s: &str) -> String {
    s.to_string()
}

fn stored(name: &str, symbol: &str, uri: &str, creator: Pubkey, royalty: u8, mutable: bool) -> AccountInfo {
    let record = NFTMetadata {
        name: text(name),
        symbol: text(symbol),
        uri: text(uri),
        creator,
        royalty_percentage: royalty,
        is_mutable: mutable,
    };
    let data = record.try_to_vec().unwrap();
    AccountInfo::new(key(10), false, exempt(data.len()), data, program())
}

fn record_of(account: &AccountInfo) -> NFTMetadata {
    NFTMetadata::unpack(&account.data).unwrap()
}

fn create_payload(name: &str, symbol: &str, uri: &str, royalty: u8, mutable: bool) -> Vec<u8> {
    let mut data = vec![0u8];
    data.extend(borsh::to_vec(&(text(name), text(symbol), text(uri), royalty, mutable)).unwrap());
    data
}

fn transfer_payload(new_owner: Pubkey) -> Vec<u8> {
    let mut data = vec![1u8];
    data.extend_from_slice(&new_owner.to_bytes());
    data
}

fn update_payload(name: Option<&str>, symbol: Option<&str>, uri: Option<&str>) -> Vec<u8> {
    let own = |t: Option<&str>| t.map(text);
    let mut data = vec![2u8];
    data.extend(borsh::to_vec(&(own(name), own(symbol), own(uri))).unwrap());
    data
}

#[test]
fn scenario_create_transfer_then_the_creator_cannot_update() {
    let c = key(0xC0);
    let d = key(0xD0);
    let mut accounts = vec![slot(49), party(c, true), rent_account()];
    assert_eq!(
        process_instruction(&program(), &mut accounts, &create_payload("X", "S", "u", 10, true)),
        Ok(())
    );
    let record = record_of(&accounts[0]);
    assert_eq!(record.name, "X");
    assert_eq!(record.royalty_percentage, 10);
    assert!(record.is_mutable);
    assert!(record.creator == c);

    let nft = accounts.remove(0);
    let mut accounts = vec![nft, party(c, true), party(d, false)];
    assert_eq!(process_instruction(&program(), &mut accounts, &transfer_payload(d)), Ok(()));
    assert!(record_of(&accounts[0]).creator == d);

    let nft = accounts.remove(0);
    let mut accounts = vec![nft, party(c, true)];
    let before = accounts[0].data.clone();
    assert_eq!(
        process_instruction(&program(), &mut accounts, &update_payload(Some("Y"), None, None)),
        Err(ProgramError::InvalidAccountData)
    );
    assert_eq!(accounts[0].data, before);

    accounts[1] = party(d, true);
    assert_eq!(
        process_instruction(&program(), &mut accounts, &update_payload(Some("Y"), None, None)),
        Ok(())
    );
    assert_eq!(record_of(&accounts[0]).name, "Y");
}

#[test]
fn royalty_of_101_is_refused_and_of_100_accepted() {
    assert_eq!(MAX_ROYALTY_PERCENTAGE, 100);
    let c = key(0xC0);
    let mut accounts = vec![slot(49), party(c, true), rent_account()];
    assert_eq!(
        process_create_nft(&program(), &mut accounts, text("X"), text("S"), text("u"), 101, true),
        Err(ProgramError::InvalidArgument)
    );
    assert_eq!(accounts[0].data, vec![0u8; 49]);
    assert_eq!(
        process_create_nft(&program(), &mut accounts, text("X"), text("S"), text("u"), 100, true),
        Ok(())
    );
    assert_eq!(record_of(&accounts[0]).royalty_percentage, 100);
    let mut accounts = vec![slot(49), party(c, true), rent_account()];
    assert_eq!(
        process_create_nft(&program(), &mut accounts, text("X"), text("S"), text("u"), 255, true),
        Err(ProgramError::InvalidArgument)
    );
    let mut accounts = vec![slot(49), party(c, true), rent_account()];
    assert_eq!(
        process_create_nft(&program(), &mut accounts, text("X"), text("S"), text("u"), 0, false),
        Ok(())
    );
}

#[test]
fn create_writes_the_record_with_the_signer_as_controller() {
    let c = key(0xC0);
    let mut accounts = vec![slot(49), party(c, true), rent_account()];
    assert_eq!(
        process_create_nft(&program(), &mut accounts, text("X"), text("S"), text("u"), 10, false),
        Ok(())
    );
    let expected =
        borsh::to_vec(&(text("X"), text("S"), text("u"), [0xC0u8; 32], 10u8, false)).unwrap();
    assert_eq!(accounts[0].data, expected);
    assert_eq!(accounts[0].lamports, exempt(49));
    assert!(accounts[0].owner == program());
    assert!(accounts[1].data.is_empty());
}

#[test]
fn create_leaves_the_bytes_after_the_record() {
    let c = key(0xC0);
    let mut accounts = vec![slot(60), party(c, true), rent_account()];
    assert_eq!(
        process_create_nft(&program(), &mut accounts, text("X"), text("S"), text("u"), 10, false),
        Ok(())
    );
    assert_eq!(accounts[0].data.len(), 60);
    assert_eq!(&accounts[0].data[49..], &[0u8; 11][..]);
    assert_eq!(accounts[0].data[0], 1);
    let record = record_of(&accounts[0]);
    assert_eq!((record.name.as_str(), record.symbol.as_str(), record.uri.as_str()), ("X", "S", "u"));
    assert!(record.creator == c);
    assert_eq!(record.royalty_percentage, 10);
    assert!(!record.is_mutable);
}

#[test]
fn a_record_in_a_wider_slot_can_be_transferred_and_updated() {
    let c = key(0xC0);
    let d = key(0xD0);
    let mut accounts = vec![slot(64), party(c, true), rent_account()];
    assert_eq!(
        process_create_nft(&program(), &mut accounts, text("X"), text("S"), text("u"), 100, true),
        Ok(())
    );
    let nft = accounts.remove(0);
    let mut accounts = vec![nft, party(c, true), party(d, false)];
    assert_eq!(process_transfer_nft(&program(), &mut accounts, d), Ok(()));
    assert!(record_of(&accounts[0]).creator == d);
    let nft = accounts.remove(0);
    let mut accounts = vec![nft, party(d, true)];
    assert_eq!(
        process_update_metadata(&program(), &mut accounts, Some(text("A longer name")), None, None),
        Ok(())
    );
    let record = record_of(&accounts[0]);
    assert_eq!(record.name, "A longer name");
    assert_eq!((record.symbol.as_str(), record.uri.as_str()), ("S", "u"));
    assert_eq!(process_update_metadata(&program(), &mut accounts, Some(text("")), None, None), Ok(()));
    let record = record_of(&accounts[0]);
    assert_eq!((record.name.as_str(), record.symbol.as_str(), record.uri.as_str()), ("", "S", "u"));
    assert!(record.creator == d);
    assert_eq!(record.royalty_percentage, 100);
    assert!(record.is_mutable);
    assert_eq!(accounts[0].data.len(), 64);
    assert_eq!(
        process_update_metadata(
            &program(),
            &mut accounts,
            Some(text("A name that is too long for it")),
            None,
            None
        ),
        Err(ProgramError::BorshIoError)
    );
    assert_eq!(record_of(&accounts[0]).name, "");
}

#[test]
fn create_needs_all_its_slots() {
    let mut accounts = vec![slot(49), party(key(1), true)];
    assert_eq!(
        process_create_nft(&program(), &mut accounts, text("X"), text("S"), text("u"), 10, false),
        Err(ProgramError::NotEnoughAccountKeys)
    );
    assert_eq!(process_transfer_nft(&program(), &mut accounts, key(2)), Err(ProgramError::NotEnoughAccountKeys));
    let mut accounts = vec![slot(49)];
    assert_eq!(
        process_update_metadata(&program(), &mut accounts, None, None, None),
        Err(ProgramError::NotEnoughAccountKeys)
    );
}

#[test]
fn a_foreign_slot_is_refused_first() {
    let mut foreign = stored("X", "S", "u", key(1), 10, true);
    foreign.owner = key(0xBB);
    let mut accounts = vec![foreign, party(key(1), false), party(key(2), false)];
    let before = accounts[0].data.clone();
    assert_eq!(
        process_create_nft(&program(), &mut accounts, text("X"), text("S"), text("u"), 200, false),
        Err(ProgramError::IncorrectProgramId)
    );
    assert_eq!(process_transfer_nft(&program(), &mut accounts, key(2)), Err(ProgramError::IncorrectProgramId));
    assert_eq!(
        process_update_metadata(&program(), &mut accounts, None, None, None),
        Err(ProgramError::IncorrectProgramId)
    );
    assert_eq!(accounts[0].data, before);
}

#[test]
fn create_refuses_a_slot_that_holds_a_record() {
    let c = key(0xC0);
    let mut accounts = vec![stored("X", "S", "u", c, 10, true), party(c, true), rent_account()];
    let before = accounts[0].data.clone();
    assert_eq!(
        process_create_nft(&program(), &mut accounts, text("Y"), text("S"), text("u"), 10, true),
        Err(ProgramError::AccountAlreadyInitialized)
    );
    assert_eq!(accounts[0].data, before);
    let mut touched = slot(49);
    touched.data[48] = 1;
    let mut accounts = vec![touched, party(c, false), rent_account()];
    assert_eq!(
        process_create_nft(&program(), &mut accounts, text("Y"), text("S"), text("u"), 10, true),
        Err(ProgramError::AccountAlreadyInitialized)
    );
}

#[test]
fn vacancy_is_all_zero() {
    assert!(is_vacant(&[]));
    assert!(is_vacant(&[0u8; 5]));
    assert!(!is_vacant(&[0u8, 0, 1]));
    assert!(!is_vacant(&[1u8, 0, 0]));
}

#[test]
fn create_needs_the_creators_signature() {
    let mut accounts = vec![slot(49), party(key(1), false), rent_account()];
    assert_eq!(
        process_create_nft(&program(), &mut accounts, text("X"), text("S"), text("u"), 101, true),
        Err(ProgramError::MissingRequiredSignature)
    );
    assert_eq!(accounts[0].data, vec![0u8; 49]);
}

#[test]
fn create_needs_an_exempt_slot() {
    let mut poor = slot(49);
    poor.lamports -= 1;
    let mut accounts = vec![poor, party(key(1), true), rent_account()];
    assert_eq!(
        process_create_nft(&program(), &mut accounts, text("X"), text("S"), text("u"), 101, true),
        Err(ProgramError::AccountNotRentExempt)
    );
    let mut accounts = vec![slot(49), party(key(1), true), party(key(3), false)];
    assert_eq!(
        process_create_nft(&program(), &mut accounts, text("X"), text("S"), text("u"), 1, true),
        Err(ProgramError::InvalidArgument)
    );
    assert_eq!(accounts[0].data, vec![0u8; 49]);
}

#[test]
fn create_follows_the_answer_it_is_given() {
    let fresh = || vec![slot(49), party(key(1), true), party(key(3), false)];
    let mut accounts = fresh();
    assert_eq!(
        create_nft_with_exemption(&program(), &mut accounts, text("X"), text("S"), text("u"), 5, true, Ok(true)),
        Ok(())
    );
    assert!(record_of(&accounts[0]).creator == key(1));
    let mut accounts = fresh();
    assert_eq!(
        create_nft_with_exemption(&program(), &mut accounts, text("X"), text("S"), text("u"), 5, true, Ok(false)),
        Err(ProgramError::AccountNotRentExempt)
    );
    let mut accounts = fresh();
    assert_eq!(
        create_nft_with_exemption(
            &program(),
            &mut accounts,
            text("X"),
            text("S"),
            text("u"),
            5,
            true,
            Err(ProgramError::InvalidArgument)
        ),
        Err(ProgramError::InvalidArgument)
    );
    let mut accounts = vec![slot(49), party(key(1), false), party(key(3), false)];
    assert_eq!(
        create_nft_with_exemption(&program(), &mut accounts, text("X"), text("S"), text("u"), 5, true, Ok(false)),
        Err(ProgramError::MissingRequiredSignature)
    );
}

#[test]
fn create_refuses_a_record_longer_than_the_slot() {
    let mut accounts = vec![slot(48), party(key(1), true), rent_account()];
    assert_eq!(
        process_create_nft(&program(), &mut accounts, text("X"), text("S"), text("u"), 1, true),
        Err(ProgramError::BorshIoError)
    );
    assert_eq!(accounts[0].data, vec![0u8; 48]);
}

#[test]
fn transfer_and_update_need_a_stored_record() {
    let mut garbled = slot(49);
    garbled.data = vec![0xffu8; 49];
    let mut accounts = vec![garbled, party(key(1), true), party(key(2), false)];
    let before = accounts[0].data.clone();
    assert_eq!(process_transfer_nft(&program(), &mut accounts, key(2)), Err(ProgramError::BorshIoError));
    assert_eq!(
        process_update_metadata(&program(), &mut accounts, None, None, None),
        Err(ProgramError::BorshIoError)
    );
    assert_eq!(accounts[0].data, before);
    let mut short = slot(45);
    short.data[0] = 0;
    let mut accounts = vec![short, party(key(1), true), party(key(2), false)];
    assert_eq!(process_transfer_nft(&program(), &mut accounts, key(2)), Err(ProgramError::BorshIoError));
    let mut bad_flag = stored("X", "S", "u", key(1), 10, true);
    let last = bad_flag.data.len() - 1;
    bad_flag.data[last] = 2;
    let mut accounts = vec![bad_flag, party(key(1), true), party(key(2), false)];
    assert_eq!(process_transfer_nft(&program(), &mut accounts, key(2)), Err(ProgramError::BorshIoError));
}

#[test]
fn a_vacant_slot_is_controlled_by_nobody_who_signs() {
    let mut accounts = vec![slot(49), party(key(1), true), party(key(2), false)];
    assert_eq!(process_transfer_nft(&program(), &mut accounts, key(2)), Err(ProgramError::InvalidAccountData));
    assert_eq!(
        process_update_metadata(&program(), &mut accounts, None, None, None),
        Err(ProgramError::InvalidAccountData)
    );
    assert_eq!(accounts[0].data, vec![0u8; 49]);
}

#[test]
fn transfer_needs_the_controllers_signature() {
    let c = key(0xC0);
    let d = key(0xD0);
    let mut accounts = vec![stored("X", "S", "u", c, 10, true), party(c, false), party(d, false)];
    let before = accounts[0].data.clone();
    assert_eq!(process_transfer_nft(&program(), &mut accounts, d), Err(ProgramError::MissingRequiredSignature));
    accounts[1] = party(d, true);
    assert_eq!(process_transfer_nft(&program(), &mut accounts, d), Err(ProgramError::InvalidAccountData));
    accounts[1] = party(c, true);
    assert_eq!(process_transfer_nft(&program(), &mut accounts, key(0xEE)), Err(ProgramError::InvalidArgument));
    assert_eq!(accounts[0].data, before);
    assert_eq!(process_transfer_nft(&program(), &mut accounts, d), Ok(()));
    let record = record_of(&accounts[0]);
    assert!(record.creator == d);
    assert_eq!((record.name.as_str(), record.symbol.as_str(), record.uri.as_str()), ("X", "S", "u"));
    assert_eq!(record.royalty_percentage, 10);
    assert!(record.is_mutable);
    assert_eq!(accounts[0].data.len(), before.len());
}

#[test]
fn update_of_an_immutable_record_is_refused() {
    let c = key(0xC0);
    let mut accounts = vec![slot(49), party(c, true), rent_account()];
    assert_eq!(
        process_create_nft(&program(), &mut accounts, text("X"), text("S"), text("u"), 10, false),
        Ok(())
    );
    let nft = accounts.remove(0);
    let mut accounts = vec![nft, party(c, true)];
    let before = accounts[0].data.clone();
    assert_eq!(
        process_update_metadata(&program(), &mut accounts, Some(text("Y")), None, None),
        Err(ProgramError::InvalidArgument)
    );
    assert_eq!(
        process_update_metadata(&program(), &mut accounts, None, None, None),
        Err(ProgramError::InvalidArgument)
    );
    assert_eq!(accounts[0].data, before);
}

#[test]
fn update_checks_signature_then_controller_then_mutability() {
    let c = key(0xC0);
    let mut accounts = vec![stored("X", "S", "u", c, 10, false), party(key(1), false)];
    assert_eq!(
        process_update_metadata(&program(), &mut accounts, None, None, None),
        Err(ProgramError::MissingRequiredSignature)
    );
    accounts[1] = party(key(1), true);
    assert_eq!(
        process_update_metadata(&program(), &mut accounts, None, None, None),
        Err(ProgramError::InvalidAccountData)
    );
    accounts[1] = party(c, true);
    assert_eq!(
        process_update_metadata(&program(), &mut accounts, None, None, None),
        Err(ProgramError::InvalidArgument)
    );
}

#[test]
fn update_replaces_the_given_texts_only() {
    let c = key(0xC0);
    let mut accounts = vec![stored("Xx", "S", "u", c, 10, true), party(c, true)];
    assert_eq!(
        process_update_metadata(&program(), &mut accounts, None, Some(text("T")), Some(text("vw"))),
        Err(ProgramError::BorshIoError)
    );
    assert_eq!(
        process_update_metadata(&program(), &mut accounts, Some(text("Yy")), None, Some(text("v"))),
        Ok(())
    );
    let record = record_of(&accounts[0]);
    assert_eq!((record.name.as_str(), record.symbol.as_str(), record.uri.as_str()), ("Yy", "S", "v"));
    assert!(record.creator == c);
    assert_eq!(record.royalty_percentage, 10);
    assert_eq!(process_update_metadata(&program(), &mut accounts, None, None, None), Ok(()));
    assert_eq!(record_of(&accounts[0]).name, "Yy");
}

#[test]
fn a_shorter_update_keeps_the_record_readable() {
    let c = key(0xC0);
    let mut accounts = vec![stored("Xx", "S", "u", c, 10, true), party(c, true)];
    let before = accounts[0].data.clone();
    assert_eq!(
        process_update_metadata(&program(), &mut accounts, Some(text("Y")), None, None),
        Ok(())
    );
    let shorter = borsh::to_vec(&(text("Y"), text("S"), text("u"), [0xC0u8; 32], 10u8, true)).unwrap();
    assert_eq!(accounts[0].data.len(), before.len());
    assert_eq!(&accounts[0].data[..shorter.len()], &shorter[..]);
    assert_eq!(&accounts[0].data[shorter.len()..], &before[shorter.len()..]);
    let record = record_of(&accounts[0]);
    assert_eq!((record.name.as_str(), record.symbol.as_str(), record.uri.as_str()), ("Y", "S", "u"));
    assert!(record.creator == c);
    assert_eq!(record.royalty_percentage, 10);
    assert!(record.is_mutable);
    assert_eq!(
        process_update_metadata(&program(), &mut accounts, Some(text("Xx")), None, None),
        Ok(())
    );
    assert_eq!(accounts[0].data, before);
}

#[test]
fn undecodable_registry_payloads_touch_nothing() {
    let c = key(0xC0);
    let mut accounts = vec![stored("X", "S", "u", c, 10, true), party(c, true), party(c, false)];
    let before = accounts[0].data.clone();
    for payload in [vec![], vec![3u8], vec![1u8; 32], vec![2u8, 0, 0]] {
        assert_eq!(
            process_instruction(&program(), &mut accounts, &payload),
            Err(ProgramError::InvalidInstructionData)
        );
    }
    assert_eq!(accounts[0].data, before);
}
