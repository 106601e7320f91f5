//! The payload of an authenticator export, and how its parameters become
//! entries of the secrets file.

use crate::config::secrets::{ConfigEntry, ConfigEntryView};
use base32::Alphabet;
use vstd::prelude::*;

verus! {

/// An export of one-time password parameters, possibly one batch of several.
#[derive(Debug)]
pub struct MigrationPayload {
    pub otp_parameters: Vec<OtpParameters>,
    pub version: i32,
    pub batch_size: i32,
    pub batch_index: i32,
    pub batch_id: i32,
}

/// The parameters of one exported secret.
#[derive(Debug)]
pub struct OtpParameters {
    /// The key material as bytes.
    pub secret: Vec<u8>,
    pub name: String,
    pub issuer: String,
    pub algorithm: i32,
    pub digits: i32,
    /// Whether the codes are counter-based or time-based.
    pub kind: i32,
    pub counter: i32,
}

/// The text that the Base32 encoder of the `base32` crate gives for `bytes`
/// under the RFC 4648 alphabet, without padding.
pub uninterp spec fn base32_encoded(bytes: Seq<u8>) -> Seq<char>;

/// Encodes key bytes as an unpadded Base32 secret.
///
/// Trusted: calls `base32::encode` with the RFC 4648 alphabet and padding
/// switched off. The contract only gives the outcome its name: the encoder is
/// a function of the bytes alone.
#[verifier::external_body]
fn encode_secret(bytes: &[u8]) -> (text: String)
    ensures
        text@ == base32_encoded(bytes@),
{
    base32::encode(Alphabet::RFC4648 { padding: false }, bytes)
}

/// The entry that exported parameters stand for.
pub open spec fn entry_of(name: Seq<char>, secret: Seq<u8>) -> ConfigEntryView {
    ConfigEntryView {
        name,
        handle: Seq::empty(),
        secret: base32_encoded(secret),
        timestep: 30,
        digits: 6,
    }
}

/// The entry for exported parameters: their name, their secret in Base32,
/// no handle, and the default time step and digit count.
pub fn entry_from_parameters(param: OtpParameters) -> (entry: ConfigEntry)
    ensures
        entry@ == entry_of(param.name@, param.secret@),
        entry@.valid(),
{
    let secret = encode_secret(param.secret.as_slice());
    ConfigEntry::new(param.name, secret)
}

} // verus!
