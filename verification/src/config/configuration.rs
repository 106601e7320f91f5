//! The validated command line: which mode runs, and with what settings.

use std::path::PathBuf;
use vstd::prelude::*;

verus! {

/// Trusted: the path type of std, declared so that a path can be carried
/// from the command line to where a file is opened. Nothing is said of what a
/// path holds.
#[verifier::external_type_specification]
#[verifier::external_body]
pub struct ExPathBuf(std::path::PathBuf);

/// How the digits of a code are drawn in the interactive display.
#[derive(Clone, Copy, PartialEq, Eq, Debug, Structural)]
pub enum NumberStyle {
    Standard,
    Pipe,
    Lite,
    Utf8,
}

/// Where an imported QR code comes from.
#[derive(Clone, Copy, PartialEq, Eq, Debug, Structural)]
pub enum Origin {
    GoogleAuthenticator,
}

/// The port the HTTP surface listens on where none is given.
pub const DEFAULT_PORT: u16 = 3000;

/// The seconds without activity after which the display locks where none are
/// given.
pub const DEFAULT_LOCK_AFTER: u16 = 300;

/// One of the program's modes with its settings.
#[derive(Debug)]
pub enum Mode {
    /// Print one code and exit.
    OneTime {
        /// The handle or the position of the entry.
        target: String,
        /// The path of the secrets file.
        secrets: String,
    },
    /// Run the interactive display, the HTTP surface, or both.
    Interface {
        /// The path of the secrets file.
        secrets: String,
        /// The address the HTTP surface binds to; without it there is none.
        bind: Option<String>,
        /// Whether the interactive display is switched off.
        no_console: bool,
        /// The port of the HTTP surface.
        port: u16,
        /// Seconds before the display locks; zero never locks.
        lock_after: u16,
        /// How digits are drawn.
        number_style: NumberStyle,
    },
    /// Turn a QR code image into a secrets file.
    Configure {
        /// The path of the image.
        from_image: PathBuf,
        /// Whether to ask for a handle for each entry.
        prompt: bool,
        /// Whether to scan with the zbar library.
        use_zbar: bool,
        /// Where the QR code comes from.
        origin: Origin,
    },
}

/// The whole command line.
#[derive(Debug)]
pub struct Args {
    /// The path of a log file, if logging to a file is wanted.
    pub log_file: Option<PathBuf>,
    /// Whether to log to standard error.
    pub std_err: bool,
    /// The mode to run.
    pub mode: Mode,
}

} // verus!
