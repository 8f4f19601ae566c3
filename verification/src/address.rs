//! Account addresses: 32-byte keys, written in base 58.
//!
//! Decoding the text is the work of `solana_sdk`; this module holds the
//! address once it is known to be one, and says what a refusal means.

use vstd::prelude::*;
use vstd::string::*;
use solana_sdk::pubkey::{ParsePubkeyError, Pubkey};
use std::str::FromStr;

verus! {

/// The longest text, counted in characters, that can be an address.
pub const MAX_ADDRESS_CHARS: usize = 44;

/// Why a text is no address.
#[derive(Clone, Copy, Debug, PartialEq, Eq, Structural)]
pub enum AddressError {
    /// The text is too long, or stands for more or fewer than 32 bytes.
    WrongSize,
    /// The text is not written in base 58.
    Invalid,
}

/// What `Pubkey::from_str` of `solana_sdk` gives for `text`: the key's bytes,
/// or the reason for its refusal.
pub uninterp spec fn decoded_key(text: Seq<char>) -> Result<Seq<u8>, AddressError>;

/// The refusal of a text for its size.
pub open spec fn wrong_size() -> Result<[u8; 32], AddressError> {
    Err(AddressError::WrongSize)
}

/// An answer of the decoder, with the key as a sequence of bytes.
pub open spec fn decoded_view(decoded: Result<[u8; 32], AddressError>) -> Result<
    Seq<u8>,
    AddressError,
> {
    match decoded {
        Ok(key) => Ok(key@),
        Err(reason) => Err(reason),
    }
}

/// Decodes `text` with `Pubkey::from_str` of `solana_sdk`, which is believed,
/// not proved, to behave as stated: its answer depends on the text alone, and
/// a text of more than 44 characters is refused as being of the wrong size.
/// The key comes back as its 32 bytes, a refusal as the matching reason.
#[verifier::external_body]
fn decode_key(text: &str) -> (decoded: Result<[u8; 32], AddressError>)
    ensures
        decoded_view(decoded) == decoded_key(text@),
        text@.len() > MAX_ADDRESS_CHARS ==> decoded == wrong_size(),
{
    match Pubkey::from_str(text) {
        Ok(key) => Ok(key.to_bytes()),
        Err(ParsePubkeyError::WrongSize) => Err(AddressError::WrongSize),
        Err(ParsePubkeyError::Invalid) => Err(AddressError::Invalid),
    }
}

/// An address: a text together with the key that it decodes to.
#[derive(Debug)]
pub struct Address {
    text: String,
    key: [u8; 32],
}

/// What an [`Address`] stands for.
pub struct AddressView {
    pub text: Seq<char>,
    pub key: Seq<u8>,
}

impl View for Address {
    type V = AddressView;

    closed spec fn view(&self) -> AddressView {
        AddressView { text: self.text@, key: self.key@ }
    }
}

/// The address that `text` is, or why it is none: a text is an address
/// exactly when the decoder gives a key for it.
pub open spec fn address_of(text: Seq<char>) -> Result<AddressView, AddressError> {
    match decoded_key(text) {
        Ok(key) => Ok(AddressView { text: text, key: key }),
        Err(reason) => Err(reason),
    }
}

/// What an address that was read, or its refusal, stands for.
pub open spec fn parsed_view(parsed: Result<Address, AddressError>) -> Result<
    AddressView,
    AddressError,
> {
    match parsed {
        Ok(address) => Ok(address@),
        Err(reason) => Err(reason),
    }
}

impl AddressError {
    /// The message for a refusal.
    pub open spec fn message(self) -> Seq<char> {
        match self {
            AddressError::WrongSize => "String is the wrong size"@,
            AddressError::Invalid => "Invalid Base58 string"@,
        }
    }

    /// Says in words why the text was refused.
    pub fn describe(&self) -> (text: &'static str)
        ensures
            text@ == self.message(),
    {
        match self {
            AddressError::WrongSize => "String is the wrong size",
            AddressError::Invalid => "Invalid Base58 string",
        }
    }
}

impl Address {
    #[verifier::type_invariant]
    spec fn decodes(self) -> bool {
        decoded_key(self.text@) == Ok::<Seq<u8>, AddressError>(self.key@)
    }

    /// Makes an address of a text and of what decoding it gave: the address
    /// where a key came out, the refusal where none did.
    pub fn from_decoded(text: &str, decoded: Result<[u8; 32], AddressError>) -> (made: Result<
        Address,
        AddressError,
    >)
        requires
            decoded_view(decoded) == decoded_key(text@),
        ensures
            parsed_view(made) == address_of(text@),
            decoded matches Ok(key) ==> (made matches Ok(address) && address@.text == text@
                && address@.key == key@),
            decoded matches Err(reason) ==> (made matches Err(given) && given == reason),
    {
        match decoded {
            Ok(key) => Ok(Address { text: text.to_owned(), key }),
            Err(reason) => Err(reason),
        }
    }

    /// Reads an address. A text is an address exactly when it decodes to a
    /// key; any other text is refused with the decoder's reason, and a text
    /// of more than 44 characters always, for its size.
    pub fn parse(text: &str) -> (parsed: Result<Address, AddressError>)
        ensures
            parsed_view(parsed) == address_of(text@),
            text@.len() > MAX_ADDRESS_CHARS ==> (parsed matches Err(reason) && reason
                == AddressError::WrongSize),
    {
        Address::from_decoded(text, decode_key(text))
    }

    /// The address as it was written.
    pub fn as_str(&self) -> (text: &str)
        ensures
            text@ == self@.text,
            address_of(text@) is Ok,
            address_of(text@)->Ok_0 == self@,
    {
        proof {
            use_type_invariant(self);
        }
        self.text.as_str()
    }

    /// The 32 bytes of the key.
    pub fn key(&self) -> (key: [u8; 32])
        ensures
            key@ == self@.key,
    {
        self.key
    }
}

} // verus!
