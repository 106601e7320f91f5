//! The failures that the library reports.

use vstd::prelude::*;

verus! {

/// Why an operation of the library failed.
#[derive(Debug)]
pub enum Error {
    /// The secrets file could not be read.
    ConfigIo(String),
    /// The secrets file does not hold a valid list of entries.
    ConfigParse(String),
    /// No entry matches the selector.
    EntryNotFound,
    /// The key material of an entry is not valid Base32.
    InvalidSecret,
    /// A requested surface could not be started.
    SurfaceStartup(String),
}

impl Error {
    /// The one-line description of a failure.
    pub open spec fn message_text(self) -> Seq<char> {
        match self {
            Error::ConfigIo(detail) => "Failed to read config file: "@ + detail@,
            Error::ConfigParse(detail) => "Failed to parse secrets: "@ + detail@,
            Error::EntryNotFound => "Entry not found"@,
            Error::InvalidSecret => "Invalid base32 secret"@,
            Error::SurfaceStartup(detail) => "Failed to start: "@ + detail@,
        }
    }

    /// A one-line description for people.
    pub fn message(&self) -> (out: String)
        ensures
            out@ == self.message_text(),
    {
        match self {
            Error::ConfigIo(detail) => crate::text::join_text("Failed to read config file: ", detail.as_str()),
            Error::ConfigParse(detail) => crate::text::join_text("Failed to parse secrets: ", detail.as_str()),
            Error::EntryNotFound => "Entry not found".to_owned(),
            Error::InvalidSecret => "Invalid base32 secret".to_owned(),
            Error::SurfaceStartup(detail) => crate::text::join_text("Failed to start: ", detail.as_str()),
        }
    }
}

} // verus!
