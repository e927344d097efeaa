use std::str::FromStr;

use solana_sdk::pubkey::Pubkey;
use transfer_indexer::{
    address_text, parse_address, parse_signature, signature_text, Address, IndexError, Signature,
};

const USDC_MINT: &str = "EPjFWdd5AufqSSqeM2qN1xzybapC8G4wEGGkZwyTDt1v";

#[test]
fn system_address_decodes_to_zero_bytes() {
    let address = parse_address("11111111111111111111111111111111").unwrap();
    assert_eq!(address.bytes, [0u8; 32]);
}

#[test]
fn address_text_of_zero_bytes_is_all_ones() {
    let text = address_text(&Address { bytes: [0u8; 32] });
    assert_eq!(text, "11111111111111111111111111111111");
}

#[test]
fn address_survives_decoding_and_encoding() {
    let address = parse_address(USDC_MINT).unwrap();
    assert_ne!(address.bytes, [0u8; 32]);
    assert_eq!(address_text(&address), USDC_MINT);
}

#[test]
fn address_bytes_are_those_of_the_ledger_key() {
    let address = parse_address(USDC_MINT).unwrap();
    let key = Pubkey::from_str(USDC_MINT).unwrap();
    assert_eq!(address.bytes, key.to_bytes());
    assert_eq!(address_text(&Address { bytes: [9u8; 32] }), Pubkey::new_from_array([9u8; 32]).to_string());
}

#[test]
fn address_with_a_letter_outside_the_alphabet_is_invalid() {
    // '0', 'O', 'I' and 'l' are no base58 digits
    assert_eq!(parse_address("0PjFWdd5AufqSSqeM2qN1xzybapC8G4wEGGkZwyTDt1v"), Err(IndexError::InvalidAddress));
    assert_eq!(parse_address("not an address"), Err(IndexError::InvalidAddress));
}

#[test]
fn address_of_the_wrong_length_is_invalid() {
    assert_eq!(parse_address(""), Err(IndexError::InvalidAddress));
    assert_eq!(parse_address("1111"), Err(IndexError::InvalidAddress));
    let long = format!("{}{}", USDC_MINT, USDC_MINT);
    assert_eq!(parse_address(&long), Err(IndexError::InvalidAddress));
}

#[test]
fn signature_of_zero_bytes_is_sixty_four_ones() {
    let text = signature_text(&Signature { bytes: [0u8; 64] });
    assert_eq!(text, "1".repeat(64));
    assert_eq!(parse_signature(&text), Ok(Signature { bytes: [0u8; 64] }));
}

#[test]
fn signature_survives_encoding_and_decoding() {
    let mut bytes = [0u8; 64];
    for (i, b) in bytes.iter_mut().enumerate() {
        *b = (i as u8).wrapping_mul(7).wrapping_add(3);
    }
    let text = signature_text(&Signature { bytes });
    assert_ne!(text.as_bytes(), &bytes[..]);
    assert_eq!(text, solana_sdk::signature::Signature::from(bytes).to_string());
    assert_eq!(parse_signature(&text), Ok(Signature { bytes }));
}

#[test]
fn malformed_signature_is_invalid() {
    assert_eq!(parse_signature(""), Err(IndexError::InvalidSignature));
    assert_eq!(parse_signature("not-a-signature"), Err(IndexError::InvalidSignature));
    // an address is too short for a signature
    assert_eq!(parse_signature(USDC_MINT), Err(IndexError::InvalidSignature));
}
