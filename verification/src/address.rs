//! Account and contract addresses: twenty bytes, written as forty hexadecimal
//! digits behind `0x`.

use vstd::prelude::*;
use crate::hexadecimal::{hex_bytes, hex_text};
use crate::text::is_hex_digit;

verus! {

/// An address: its twenty bytes.
#[derive(Clone, Copy, Debug)]
pub struct Address {
    pub bytes: [u8; 20],
}

/// `s` without a leading `0x` or `0X`.
pub open spec fn address_digits(s: Seq<char>) -> Seq<char> {
    if s.len() >= 2 && s[0] == '0' && (s[1] == 'x' || s[1] == 'X') {
        s.skip(2)
    } else {
        s
    }
}

/// `s` spells an address: forty hexadecimal digits, with or without the prefix.
pub open spec fn is_address_text(s: Seq<char>) -> bool {
    address_digits(s).len() == 40 && forall|i: int|
        0 <= i < 40 ==> is_hex_digit(#[trigger] address_digits(s)[i])
}

/// What the address parser says of a text that spells no address.
pub uninterp spec fn address_parse_failure(s: Seq<char>) -> Seq<char>;

/// `Address::from_str` of alloy: succeeds exactly on forty hexadecimal digits
/// behind an optional `0x` or `0X`, and gives the twenty bytes they spell; on
/// any other text it fails, and the failure's message is handed back.
#[verifier::external_body]
fn parse_address(s: &str) -> (r: Result<Address, String>)
    ensures
        r is Ok <==> is_address_text(s@),
        r is Ok ==> r->Ok_0.bytes@ == hex_bytes(address_digits(s@)),
        r is Err ==> r->Err_0@ == address_parse_failure(s@),
{
    match s.parse::<alloy::primitives::Address>() {
        Ok(a) => Ok(Address { bytes: a.0.0 }),
        Err(e) => Err(e.to_string()),
    }
}

/// The address written with its checksum: `0x` and forty hexadecimal digits
/// whose letters are in upper or lower case as the checksum has it.
pub uninterp spec fn checksummed(bytes: Seq<u8>) -> Seq<char>;

/// `Address::to_checksum` of alloy, without a chain identifier.
#[verifier::external_body]
fn checksum_text(address: &Address) -> (r: String)
    ensures
        r@ == checksummed(address.bytes@),
{
    alloy::primitives::Address::from(address.bytes).to_checksum(None)
}

/// The address that the signing key `key` stands for, or what the key parser
/// says of a text that is no key.
pub uninterp spec fn key_address(key: Seq<char>) -> Result<Seq<u8>, Seq<char>>;

/// `PrivateKeySigner::from_str` of alloy and the signer's `address`.
#[verifier::external_body]
fn signer_address(key: &str) -> (r: Result<Address, String>)
    ensures
        match r {
            Ok(a) => key_address(key@) == Ok::<Seq<u8>, Seq<char>>(a.bytes@),
            Err(e) => key_address(key@) == Err::<Seq<u8>, Seq<char>>(e@),
        },
{
    match key.parse::<alloy::signers::local::PrivateKeySigner>() {
        Ok(signer) => Ok(Address { bytes: signer.address().0.0 }),
        Err(e) => Err(e.to_string()),
    }
}

impl Address {
    /// The address with its checksum in the case of its letters.
    pub fn to_checksum(&self) -> (r: String)
        ensures
            r@ == checksummed(self.bytes@),
    {
        checksum_text(self)
    }

    /// The address that the signing key `key` stands for.
    pub fn of_signing_key(key: &str) -> (r: Result<Address, String>)
        ensures
            match r {
                Ok(a) => key_address(key@) == Ok::<Seq<u8>, Seq<char>>(a.bytes@),
                Err(e) => key_address(key@) == Err::<Seq<u8>, Seq<char>>(e@),
            },
    {
        signer_address(key)
    }

    /// The address that `s` spells, or the parser's message.
    pub fn parse(s: &str) -> (r: Result<Address, String>)
        ensures
            r is Ok <==> is_address_text(s@),
            r is Ok ==> r->Ok_0.bytes@ == hex_bytes(address_digits(s@)),
            r is Err ==> r->Err_0@ == address_parse_failure(s@),
    {
        parse_address(s)
    }

    /// The address in lower case behind `0x`.
    pub fn to_hex(&self) -> (r: String)
        ensures
            r@ == "0x"@ + hex_text(self.bytes@),
    {
        crate::hexadecimal::to_prefixed_hex(self.bytes.as_slice())
    }
}

} // verus!
