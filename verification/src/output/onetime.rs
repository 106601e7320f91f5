//! The one-shot surface: one code for one selected entry.

use crate::config::secrets::{
    invalid_detail, selected, ConfigEntry, ConfigFile, FileObservation,
};
use crate::error::Error;
use crate::text::{decimal, decimal_text, join_text};
use crate::totp::{entry_totp, generated, LAST_MOMENT};
use vstd::prelude::*;
use vstd::string::StringExecFns;

verus! {

/// Why an entry named `name` cannot be used.
pub open spec fn unusable_detail(name: Seq<char>) -> Seq<char> {
    "entry "@ + name + ": the time step must be positive and the digits between 1 and 9"@
}

/// The answer of the one-shot surface for a code: the code, and below it the
/// seconds for which it is still valid.
pub open spec fn one_time_text(token: Seq<char>, seconds: nat) -> Seq<char> {
    token + "\nValid for "@ + decimal_text(seconds) + "s"@
}

/// The code of the entry that `arg` selects among `secrets`, as the one-shot
/// surface prints it. Fails with `EntryNotFound` where nothing is selected,
/// with `ConfigParse` where the selected entry's time step or digit count is
/// not usable, and with `InvalidSecret` where its secret does not decode.
pub fn one_time_code(secrets: &[ConfigEntry], arg: &str, now: u64) -> (result: Result<
    String,
    Error,
>)
    requires
        now <= LAST_MOMENT,
    ensures
        one_time_answer(secrets@, arg@, now, result),
{
    let entry = match ConfigFile::get_secret(secrets, arg) {
        Ok(entry) => entry,
        Err(e) => {
            return Err(e);
        },
    };
    if !entry.is_valid() {
        let mut detail = join_text("entry ", entry.name.as_str());
        detail.append(": the time step must be positive and the digits between 1 and 9");
        return Err(Error::ConfigParse(detail));
    }
    let totp = match entry_totp(&entry, now) {
        Ok(totp) => totp,
        Err(e) => {
            return Err(e);
        },
    };
    proof {
        crate::totp::lemma_timely_is_generable(entry.timestep, entry.digits, now);
        crate::totp::lemma_generated_window(
            entry.secret@,
            entry.timestep as u64,
            entry.digits,
            now,
        );
    }
    let valid_in_seconds = totp.valid_duration(now);
    let mut text = join_text(totp.token.as_str(), "\nValid for ");
    text.append(decimal(valid_in_seconds as u64).as_str());
    text.append("s");
    Ok(text)
}

/// The one-shot surface: loads the store once against what the file system
/// showed, then answers with the code of the entry that `arg` selects. A
/// failure of the load is handed on, and so is the rejection of a file with
/// an entry that is not usable.
pub fn one_time_mode(cf: &mut ConfigFile, observed: FileObservation, arg: &str, now: u64) -> (result:
    Result<String, Error>)
    requires
        now <= LAST_MOMENT,
    ensures
        final(cf).path() == old(cf).path(),
        final(cf).state() == observed.applied(old(cf).state()),
        match observed.failure(old(cf).state()) {
            Some(e) => result == Err::<String, Error>(e),
            None => match observed.rejected(old(cf).state()) {
                Some(position) => result matches Err(Error::ConfigParse(detail)) && detail@
                    == invalid_detail(position),
                None => one_time_answer(final(cf).state().entries, arg@, now, result),
            },
        },
{
    let (_, secrets) = match cf.load(observed) {
        Ok(loaded) => loaded,
        Err(e) => {
            return Err(e);
        },
    };
    one_time_code(secrets.as_slice(), arg, now)
}

/// Whether `result` is the answer of the one-shot surface for the selector
/// `arg` among `secrets` at `now`.
pub open spec fn one_time_answer(
    secrets: Seq<ConfigEntry>,
    arg: Seq<char>,
    now: u64,
    result: Result<String, Error>,
) -> bool {
    match selected(secrets, arg) {
        None => result matches Err(e) && e is EntryNotFound,
        Some(i) => if !secrets[i]@.valid() {
            result matches Err(Error::ConfigParse(detail)) && detail@ == unusable_detail(
                secrets[i].name@,
            )
        } else {
            match generated(secrets[i].secret@, secrets[i].timestep as u64, secrets[i].digits, now) {
                None => result matches Err(e) && e is InvalidSecret,
                Some(code) => result matches Ok(text) && text@ == one_time_text(
                    code.token,
                    ((code.valid_until - now) % 0x1_0000) as nat,
                ),
            }
        },
    }
}

} // verus!
