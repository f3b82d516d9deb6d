use std::str::FromStr;

use depin_lite::relay::build_reward_instruction;
use depin_lite::relay::get_anchor_discriminator;
use depin_lite::state::AccountId;
use sha2::Digest;
use sha2::Sha256;
use solana_sdk::pubkey::Pubkey;

#[test]
fn discriminator_is_first_eight_digest_bytes() {
    let selector = get_anchor_discriminator("global:verify_and_reward");
    let reference = Sha256::digest("global:verify_and_reward".as_bytes());
    assert_eq!(selector.len(), 8);
    assert_eq!(selector.as_slice(), &reference[..8]);
}

#[test]
fn discriminators_of_distinct_names_differ() {
    let a = get_anchor_discriminator("global:verify_and_reward");
    let b = get_anchor_discriminator("global:initialize");
    assert_ne!(a, b);
}

#[test]
fn reward_instruction_carries_selector_and_signer() {
    let signer_key = Pubkey::from_str("7nMrAY8nNgHcyAimQJgrzM5LisT2jVaNRX2s6hvnNsxU").unwrap();
    let signer = AccountId { bytes: signer_key.to_bytes() };
    let instruction = build_reward_instruction("11111111111111111111111111111111", signer)
        .expect("the system address text is a valid base58 address");

    let expected_program = Pubkey::from_str("11111111111111111111111111111111").unwrap();
    assert_eq!(instruction.program_id.bytes, expected_program.to_bytes());

    assert_eq!(instruction.accounts.len(), 1);
    assert_eq!(instruction.accounts[0].pubkey.bytes, signer_key.to_bytes());
    assert!(instruction.accounts[0].is_signer);
    assert!(instruction.accounts[0].is_writable);

    let reference = Sha256::digest("global:verify_and_reward".as_bytes());
    assert_eq!(instruction.data.as_slice(), &reference[..8]);
}

#[test]
fn invalid_program_address_is_rejected() {
    let signer = AccountId { bytes: [2u8; 32] };
    // '0' is not a base58 character
    assert!(build_reward_instruction("0invalid0", signer).is_none());
    // far too long for a 32-byte address
    let long_text = "1".repeat(60);
    assert!(build_reward_instruction(&long_text, signer).is_none());
}
