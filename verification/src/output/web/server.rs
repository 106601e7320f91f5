//! What the HTTP surface answers. Requests arrive and answers leave as plain
//! values; which answer a request gets is decided here.

use crate::config::secrets::{ConfigEntry, ConfigEntryPublic, ConfigFile};
use crate::error::Error;
use crate::text::join_text;
use crate::totp::{entry_totp, generated, Totp, TotpView, LAST_MOMENT};
use crate::config::secrets::selected;
use vstd::prelude::*;

verus! {

/// The status of an answer that carries what was asked for.
pub const STATUS_OK: u16 = 200;

/// The status of an answer to a request that cannot be served.
pub const STATUS_BAD_REQUEST: u16 = 400;

/// The status of an answer where nothing matches.
pub const STATUS_NOT_FOUND: u16 = 404;

/// One media type that a request accepts, as type and subtype in lower case.
#[derive(Debug)]
pub struct MediaType {
    pub kind: String,
    pub subtype: String,
}

/// An answer with a body of text.
#[derive(Debug)]
pub struct TextReply {
    pub status: u16,
    pub content_type: String,
    pub body: String,
}

/// The answer to a request for a code.
#[derive(Debug)]
pub enum CodeReply {
    /// The code with its counter and end of validity, to be sent as JSON.
    Json(Totp),
    /// The code as a line of text, or why there is none.
    Text(TextReply),
}

/// Whether a media type is JSON.
pub open spec fn is_json(media: MediaType) -> bool {
    media.kind@ == "application"@ && media.subtype@ == "json"@
}

/// Whether a list of accepted media types names JSON.
pub open spec fn accepts_json(accept: Seq<MediaType>) -> bool {
    exists|i: int| 0 <= i < accept.len() && is_json(#[trigger] accept[i])
}

/// Whether a request that accepts these media types asks for JSON.
pub fn accept_contains_json(accept: &Vec<MediaType>) -> (answer: bool)
    ensures
        answer == accepts_json(accept@),
{
    let application = "application".to_owned();
    let json = "json".to_owned();
    let mut i: usize = 0;
    while i < accept.len()
        invariant
            i <= accept@.len(),
            application@ == "application"@,
            json@ == "json"@,
            forall|j: int| 0 <= j < i ==> !is_json(#[trigger] accept@[j]),
        decreases accept@.len() - i,
    {
        if accept[i].kind == application && accept[i].subtype == json {
            assert(is_json(accept@[i as int]));
            return true;
        }
        i = i + 1;
    }
    false
}

/// The answer that carries a code as a line of plain text.
pub fn plain_text_response(totp: &Totp) -> (reply: TextReply)
    ensures
        reply.status == STATUS_OK,
        reply.content_type@ == "text/plain"@,
        reply.body@ == totp.token@ + "\n"@,
{
    TextReply {
        status: STATUS_OK,
        content_type: "text/plain".to_owned(),
        body: join_text(totp.token.as_str(), "\n"),
    }
}

/// The answer where no code can be given.
pub fn not_found_response() -> (reply: TextReply)
    ensures
        reply.status == STATUS_NOT_FOUND,
        reply.content_type@ == "text/plain"@,
        reply.body@ == "No matching code found."@,
{
    TextReply {
        status: STATUS_NOT_FOUND,
        content_type: "text/plain".to_owned(),
        body: "No matching code found.".to_owned(),
    }
}

/// The answer where the secrets file is malformed.
pub fn bad_request_response() -> (reply: TextReply)
    ensures
        reply.status == STATUS_BAD_REQUEST,
        reply.content_type@ == "text/plain"@,
        reply.body@ == "Failed to load secrets"@,
{
    TextReply {
        status: STATUS_BAD_REQUEST,
        content_type: "text/plain".to_owned(),
        body: "Failed to load secrets".to_owned(),
    }
}

/// What a request for a code is answered with.
pub enum CodeAnswer {
    /// The secrets file is malformed: status 400.
    Malformed,
    /// Nothing matches, or no code can be given: status 404.
    NoMatch,
    /// This code: status 200.
    Code(TotpView),
}

/// What a request for the code of `selector` is answered with at `now`,
/// given what the load of the store gave. A load that failed because the
/// file is malformed is a bad request, and so is a selected entry whose time
/// step or digit count is not usable. Any other failed load, a selector that
/// picks no entry, and a secret that does not decode have no code to give.
pub open spec fn code_answer(
    loaded: Result<(bool, Vec<ConfigEntry>), Error>,
    selector: Seq<char>,
    now: u64,
) -> CodeAnswer {
    match loaded {
        Err(e) => if e is ConfigParse {
            CodeAnswer::Malformed
        } else {
            CodeAnswer::NoMatch
        },
        Ok((_, secrets)) => match selected(secrets@, selector) {
            None => CodeAnswer::NoMatch,
            Some(i) => if !secrets@[i]@.valid() {
                CodeAnswer::Malformed
            } else {
                match generated(
                    secrets@[i].secret@,
                    secrets@[i].timestep as u64,
                    secrets@[i].digits,
                    now,
                ) {
                    Some(code) => CodeAnswer::Code(code),
                    None => CodeAnswer::NoMatch,
                }
            },
        },
    }
}

/// The answer to a request for the code of `code`, given what the load of
/// the store gave. A malformed secrets file is answered with `400`, and a
/// request that no code can be given for with `404`. Otherwise the code is
/// sent as JSON where the request's accepted media types name JSON, and as a
/// line of plain text where they do not or where none are given.
pub fn get_code(
    loaded: Result<(bool, Vec<ConfigEntry>), Error>,
    code: &str,
    accept: Option<&Vec<MediaType>>,
    now: u64,
) -> (reply: CodeReply)
    requires
        now <= LAST_MOMENT,
    ensures
        match code_answer(loaded, code@, now) {
            CodeAnswer::Malformed => reply matches CodeReply::Text(text) && text.status
                == STATUS_BAD_REQUEST && text.content_type@ == "text/plain"@ && text.body@
                == "Failed to load secrets"@,
            CodeAnswer::NoMatch => reply matches CodeReply::Text(text) && text.status
                == STATUS_NOT_FOUND && text.content_type@ == "text/plain"@ && text.body@
                == "No matching code found."@,
            CodeAnswer::Code(shown) => if accept matches Some(media) && accepts_json(media@) {
                reply matches CodeReply::Json(totp) && totp@ == shown
            } else {
                reply matches CodeReply::Text(text) && text.status == STATUS_OK
                    && text.content_type@ == "text/plain"@ && text.body@ == shown.token + "\n"@
            },
        },
{
    let secrets = match loaded {
        Ok((_, secrets)) => secrets,
        Err(Error::ConfigParse(_)) => {
            return CodeReply::Text(bad_request_response());
        },
        Err(_) => {
            return CodeReply::Text(not_found_response());
        },
    };
    let entry = match ConfigFile::get_secret(secrets.as_slice(), code) {
        Ok(entry) => entry,
        Err(_) => {
            return CodeReply::Text(not_found_response());
        },
    };
    if !entry.is_valid() {
        return CodeReply::Text(bad_request_response());
    }
    let totp = match entry_totp(&entry, now) {
        Ok(totp) => totp,
        Err(_) => {
            return CodeReply::Text(not_found_response());
        },
    };
    match accept {
        Some(media) => {
            if accept_contains_json(media) {
                CodeReply::Json(totp)
            } else {
                CodeReply::Text(plain_text_response(&totp))
            }
        },
        None => CodeReply::Text(plain_text_response(&totp)),
    }
}

/// The public forms of a list of entries, in order: every entry without its
/// secret.
pub fn public_entries<'a>(secrets: &'a Vec<ConfigEntry>) -> (shown: Vec<ConfigEntryPublic<'a>>)
    ensures
        shown@.len() == secrets@.len(),
        forall|i: int| 0 <= i < secrets@.len() ==> (#[trigger] shown@[i])@ == secrets@[i]@.shown(),
{
    let mut shown: Vec<ConfigEntryPublic<'a>> = Vec::new();
    let mut i: usize = 0;
    while i < secrets.len()
        invariant
            i <= secrets@.len(),
            shown@.len() == i,
            forall|j: int| 0 <= j < i ==> (#[trigger] shown@[j])@ == secrets@[j]@.shown(),
        decreases secrets@.len() - i,
    {
        shown.push(ConfigEntryPublic::from(&secrets[i]));
        i = i + 1;
    }
    shown
}

/// The answer to a request for the list of entries, given what the load of
/// the store gave: the public forms of the entries, to be sent as JSON, or
/// `400` where the load failed.
pub fn list_entries<'a>(loaded: &'a Result<(bool, Vec<ConfigEntry>), Error>) -> (reply: Result<
    Vec<ConfigEntryPublic<'a>>,
    TextReply,
>)
    ensures
        match *loaded {
            Ok((_, secrets)) => reply matches Ok(shown) && shown@.len() == secrets@.len()
                && forall|i: int|
                0 <= i < secrets@.len() ==> (#[trigger] shown@[i])@ == secrets@[i]@.shown(),
            Err(_) => reply matches Err(text) && text.status == STATUS_BAD_REQUEST
                && text.content_type@ == "text/plain"@ && text.body@ == "Failed to load secrets"@,
        },
{
    match loaded {
        Ok((_, secrets)) => Ok(public_entries(secrets)),
        Err(_) => Err(bad_request_response()),
    }
}

} // verus!
