//! From what a QR code says to the bytes of the payload it carries.

use base64::Engine;
use url::Url;
use vstd::prelude::*;

verus! {

/// Why a QR code could not be turned into secrets.
#[derive(Clone, Copy, PartialEq, Eq, Debug, Structural)]
pub enum QrError {
    /// The image holds no QR code.
    NoCode,
    /// The QR code could not be read.
    Unreadable,
    /// What the QR code says is not a URI.
    InvalidUri,
    /// The URI has no `data` parameter.
    MissingData,
    /// The `data` parameter is not Base64.
    InvalidBase64,
}

/// The parameters of the query of `uri`, in order, as the `url` crate parses
/// them; `None` where it does not accept `uri` as an absolute URL.
pub uninterp spec fn url_query_pairs(uri: Seq<char>) -> Option<Seq<(Seq<char>, Seq<char>)>>;

/// The bytes that the standard Base64 engine of the `base64` crate decodes
/// `text` to, or `None` where it rejects the text.
pub uninterp spec fn base64_decoded(text: Seq<char>) -> Option<Seq<u8>>;

/// A list of pairs of texts as plain values.
pub open spec fn pairs_view(pairs: Seq<(String, String)>) -> Seq<(Seq<char>, Seq<char>)> {
    pairs.map_values(|pair: (String, String)| (pair.0@, pair.1@))
}

/// Parses a URI and returns the parameters of its query, in order.
///
/// Trusted: calls `Url::parse` and `Url::query_pairs` of the `url` crate,
/// and copies each pair out. The contract only gives the outcome its name:
/// both are functions of the text alone.
#[verifier::external_body]
fn query_pairs(uri: &str) -> (pairs: Option<Vec<(String, String)>>)
    ensures
        match pairs {
            Some(found) => url_query_pairs(uri@) == Some(pairs_view(found@)),
            None => url_query_pairs(uri@) is None,
        },
{
    match Url::parse(uri) {
        Ok(url) => Some(url.query_pairs().map(|(k, v)| (k.into_owned(), v.into_owned())).collect()),
        Err(_) => None,
    }
}

/// Decodes standard Base64.
///
/// Trusted: calls `decode` of `base64::engine::general_purpose::STANDARD`.
/// The contract only gives the outcome its name: the decoder is a function
/// of the text alone.
#[verifier::external_body]
fn decode_base64(text: &str) -> (bytes: Option<Vec<u8>>)
    ensures
        match bytes {
            Some(decoded) => base64_decoded(text@) == Some(decoded@),
            None => base64_decoded(text@) is None,
        },
{
    match base64::engine::general_purpose::STANDARD.decode(text) {
        Ok(decoded) => Some(decoded),
        Err(_) => None,
    }
}

/// Whether position `i` holds the first pair whose key is `key`.
pub open spec fn is_first_pair(pairs: Seq<(Seq<char>, Seq<char>)>, key: Seq<char>, i: int) -> bool {
    &&& 0 <= i < pairs.len()
    &&& pairs[i].0 == key
    &&& forall|j: int| 0 <= j < i ==> (#[trigger] pairs[j]).0 != key
}

/// The value of the first pair whose key is `key`, if there is one.
pub open spec fn first_value(pairs: Seq<(Seq<char>, Seq<char>)>, key: Seq<char>) -> Option<
    Seq<char>,
> {
    if exists|i: int| is_first_pair(pairs, key, i) {
        Some(pairs[choose|i: int| is_first_pair(pairs, key, i)].1)
    } else {
        None
    }
}

/// The payload bytes that `uri` carries, or why it carries none: the URI must
/// parse, have a `data` parameter, and the first such parameter must be
/// Base64.
pub open spec fn payload_of(uri: Seq<char>) -> Result<Seq<u8>, QrError> {
    match url_query_pairs(uri) {
        None => Err(QrError::InvalidUri),
        Some(pairs) => match first_value(pairs, "data"@) {
            None => Err(QrError::MissingData),
            Some(value) => match base64_decoded(value) {
                None => Err(QrError::InvalidBase64),
                Some(bytes) => Ok(bytes),
            },
        },
    }
}

/// The bytes of the payload that the first `data` parameter of the given
/// query holds in Base64.
pub fn payload_from_pairs(pairs: &Vec<(String, String)>) -> (result: Result<Vec<u8>, QrError>)
    ensures
        match first_value(pairs_view(pairs@), "data"@) {
            None => result == Err::<Vec<u8>, QrError>(QrError::MissingData),
            Some(value) => match base64_decoded(value) {
                None => result == Err::<Vec<u8>, QrError>(QrError::InvalidBase64),
                Some(bytes) => result matches Ok(found) && found@ == bytes,
            },
        },
{
    let key = "data".to_owned();
    let ghost shown = pairs_view(pairs@);
    let mut i: usize = 0;
    while i < pairs.len()
        invariant
            i <= pairs@.len(),
            key@ == "data"@,
            shown == pairs_view(pairs@),
            forall|j: int| 0 <= j < i ==> (#[trigger] shown[j]).0 != "data"@,
        decreases pairs@.len() - i,
    {
        assert(shown[i as int] == (pairs@[i as int].0@, pairs@[i as int].1@));
        if pairs[i].0 == key {
            proof {
                assert(is_first_pair(shown, "data"@, i as int));
                let chosen = choose|k: int| is_first_pair(shown, "data"@, k);
                if chosen < i {
                    assert(shown[chosen].0 != "data"@);
                } else if i < chosen {
                    assert(shown[i as int].0 != "data"@);
                }
            }
            return match decode_base64(pairs[i].1.as_str()) {
                Some(bytes) => Ok(bytes),
                None => Err(QrError::InvalidBase64),
            };
        }
        i = i + 1;
    }
    proof {
        if exists|k: int| is_first_pair(shown, "data"@, k) {
            let k = choose|k: int| is_first_pair(shown, "data"@, k);
            assert(shown[k].0 != "data"@);
        }
    }
    Err(QrError::MissingData)
}

/// Reads QR codes.
#[derive(Clone, Copy, Debug)]
pub struct QrDecoder;

impl QrDecoder {
    /// The bytes of the migration payload that an authenticator export URI
    /// carries in its `data` parameter.
    pub fn parse_google_auth_export(uri: &str) -> (result: Result<Vec<u8>, QrError>)
        ensures
            match payload_of(uri@) {
                Ok(bytes) => result matches Ok(found) && found@ == bytes,
                Err(e) => result == Err::<Vec<u8>, QrError>(e),
            },
    {
        match query_pairs(uri) {
            None => Err(QrError::InvalidUri),
            Some(pairs) => payload_from_pairs(&pairs),
        }
    }

    /// What the first QR code of an image says, given what reading each code
    /// found in the image gave, in order.
    pub fn first_content(codes: Vec<Option<String>>) -> (result: Result<String, QrError>)
        ensures
            result == if codes@.len() == 0 {
                Err::<String, QrError>(QrError::NoCode)
            } else {
                match codes@[0] {
                    Some(content) => Ok::<String, QrError>(content),
                    None => Err::<String, QrError>(QrError::Unreadable),
                }
            },
    {
        let mut codes = codes;
        if codes.len() == 0 {
            return Err(QrError::NoCode);
        }
        match codes.swap_remove(0) {
            Some(content) => Ok(content),
            None => Err(QrError::Unreadable),
        }
    }
}

/// What is said of a failure to read a QR code.
pub fn qr_error_message(error: QrError) -> (text: &'static str)
    ensures
        text@ == match error {
            QrError::NoCode => "No QR codes found"@,
            QrError::Unreadable => "Failed to decode QR content"@,
            QrError::InvalidUri => "Invalid QR code URI"@,
            QrError::MissingData => "Missing `data` query parameter"@,
            QrError::InvalidBase64 => "Base64 decode failed"@,
        },
{
    match error {
        QrError::NoCode => "No QR codes found",
        QrError::Unreadable => "Failed to decode QR content",
        QrError::InvalidUri => "Invalid QR code URI",
        QrError::MissingData => "Missing `data` query parameter",
        QrError::InvalidBase64 => "Base64 decode failed",
    }
}

} // verus!
