//! Addresses and transaction signatures, and their base58 text.
//!
//! The text form is the ledger's own: decoding and encoding are done by
//! `solana_sdk`, and this module states what the rest of the library relies
//! on.

use vstd::prelude::*;
use crate::model::IndexError;
use solana_sdk::pubkey::{ParsePubkeyError, Pubkey};
use solana_sdk::signature::ParseSignatureError;
use std::str::FromStr;

verus! {

/// The 32 bytes of an account address.
#[derive(Clone, Copy, Debug, PartialEq, Eq)]
pub struct Address {
    pub bytes: [u8; 32],
}

/// The 64 bytes of a transaction signature.
#[derive(Clone, Copy, Debug, PartialEq, Eq)]
pub struct Signature {
    pub bytes: [u8; 64],
}

#[verifier::external_type_specification]
#[verifier::external_body]
pub struct ExParsePubkeyError(solana_sdk::pubkey::ParsePubkeyError);

#[verifier::external_type_specification]
#[verifier::external_body]
pub struct ExParseSignatureError(solana_sdk::signature::ParseSignatureError);

impl Signature {
    /// The signature that has the given bytes.
    pub open spec fn of_bytes(bytes: Seq<u8>) -> Signature {
        choose|s: Signature| s.bytes@ == bytes
    }

    /// A signature is determined by its bytes.
    pub proof fn lemma_of_bytes(self)
        ensures
            Signature::of_bytes(self.bytes@) == self,
    {
        let other = Signature::of_bytes(self.bytes@);
        assert(other.bytes@ == self.bytes@);
        assert(other.bytes =~= self.bytes);
    }
}

/// The bytes that `text` decodes to as an address, or `None` where `text`
/// is no address.
pub uninterp spec fn address_decoding(text: Seq<char>) -> Option<Seq<u8>>;

/// The base58 text of the address with the given bytes.
pub uninterp spec fn address_encoding(bytes: Seq<u8>) -> Seq<char>;

/// The bytes that `text` decodes to as a signature, or `None` where `text`
/// is no signature.
pub uninterp spec fn signature_decoding(text: Seq<char>) -> Option<Seq<u8>>;

/// The base58 text of the signature with the given bytes.
pub uninterp spec fn signature_encoding(bytes: Seq<u8>) -> Seq<char>;

/// The signature that `text` decodes to, or `None` where `text` is no
/// signature.
pub open spec fn decoded_signature(text: Seq<char>) -> Option<Signature> {
    match signature_decoding(text) {
        Some(bytes) => Some(Signature::of_bytes(bytes)),
        None => None,
    }
}

/// Calls `Pubkey::from_str` of `solana_sdk` and hands out the bytes of the key.
///
/// Trusted: the outcome depends on `text` alone, and it is what
/// [`address_decoding`] names.
#[verifier::external_body]
fn decode_address(text: &str) -> (r: Result<[u8; 32], ParsePubkeyError>)
    ensures
        match r {
            Ok(bytes) => address_decoding(text@) == Some(bytes@),
            Err(_) => address_decoding(text@) is None,
        },
{
    match Pubkey::from_str(text) {
        Ok(key) => Ok(key.to_bytes()),
        Err(e) => Err(e),
    }
}

/// Calls `to_string` on the `Pubkey` of `solana_sdk` made from `bytes`.
///
/// Trusted: the text depends on `bytes` alone, and it is what
/// [`address_encoding`] names.
#[verifier::external_body]
fn encode_address(bytes: &[u8; 32]) -> (r: String)
    ensures
        r@ == address_encoding(bytes@),
{
    Pubkey::new_from_array(*bytes).to_string()
}

/// Calls `Signature::from_str` of `solana_sdk` and hands out the bytes of
/// the signature.
///
/// Trusted: the outcome depends on `text` alone, and it is what
/// [`signature_decoding`] names.
#[verifier::external_body]
fn decode_signature(text: &str) -> (r: Result<[u8; 64], ParseSignatureError>)
    ensures
        match r {
            Ok(bytes) => signature_decoding(text@) == Some(bytes@),
            Err(_) => signature_decoding(text@) is None,
        },
{
    match solana_sdk::signature::Signature::from_str(text) {
        Ok(signature) => Ok(signature.into()),
        Err(e) => Err(e),
    }
}

/// Calls `to_string` on the `Signature` of `solana_sdk` made from `bytes`.
///
/// Trusted: the text depends on `bytes` alone, and it is what
/// [`signature_encoding`] names.
#[verifier::external_body]
fn encode_signature(bytes: &[u8; 64]) -> (r: String)
    ensures
        r@ == signature_encoding(bytes@),
{
    solana_sdk::signature::Signature::from(*bytes).to_string()
}

/// Reads an address from its base58 text.
///
/// Succeeds exactly on the texts that decode, with the decoded bytes; any
/// other text is an [`IndexError::InvalidAddress`].
pub fn parse_address(text: &str) -> (r: Result<Address, IndexError>)
    ensures
        match r {
            Ok(address) => address_decoding(text@) == Some(address.bytes@),
            Err(e) => e == IndexError::InvalidAddress && address_decoding(text@) is None,
        },
{
    match decode_address(text) {
        Ok(bytes) => Ok(Address { bytes }),
        Err(_) => Err(IndexError::InvalidAddress),
    }
}

/// The base58 text of an address.
pub fn address_text(address: &Address) -> (r: String)
    ensures
        r@ == address_encoding(address.bytes@),
{
    encode_address(&address.bytes)
}

/// Reads a transaction signature from its base58 text.
///
/// Succeeds exactly on the texts that decode, with the decoded bytes; any
/// other text is an [`IndexError::InvalidSignature`].
pub fn parse_signature(text: &str) -> (r: Result<Signature, IndexError>)
    ensures
        match r {
            Ok(signature) => signature_decoding(text@) == Some(signature.bytes@),
            Err(e) => e == IndexError::InvalidSignature && signature_decoding(text@) is None,
        },
{
    match decode_signature(text) {
        Ok(bytes) => Ok(Signature { bytes }),
        Err(_) => Err(IndexError::InvalidSignature),
    }
}

/// The base58 text of a transaction signature.
pub fn signature_text(signature: &Signature) -> (r: String)
    ensures
        r@ == signature_encoding(signature.bytes@),
{
    encode_signature(&signature.bytes)
}

} // verus!
