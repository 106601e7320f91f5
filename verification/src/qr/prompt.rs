//! Turning exported parameters into entries, with a handle asked for each.

use crate::config::secrets::{ConfigEntry, ConfigEntryView};
use crate::qr::migration_payload::{entry_from_parameters, entry_of, OtpParameters};
use crate::text::{join_text, trim, trimmed};
use vstd::prelude::*;
use vstd::string::StringExecFns;

verus! {

/// The question asked for the entry named `name`.
pub fn prompt_text(name: &str) -> (text: String)
    ensures
        text@ == "Enter code for "@ + name@ + " (or `-` to not include into config): "@,
{
    let mut text = join_text("Enter code for ", name);
    text.append(" (or `-` to not include into config): ");
    text
}

/// The entry that comes of exported parameters and the answer to the
/// question for a handle. Without a question the entry is taken as it is.
/// With one, no answer leaves the entry out, and so does the answer `-`; any
/// other answer, without the blanks around it, becomes the handle.
pub open spec fn configured(
    name: Seq<char>,
    secret: Seq<u8>,
    prompt: bool,
    answer: Option<Seq<char>>,
) -> Option<ConfigEntryView> {
    if !prompt {
        Some(entry_of(name, secret))
    } else {
        match answer {
            None => None,
            Some(line) => if trimmed(line) == "-"@ {
                None
            } else {
                Some(ConfigEntryView { handle: trimmed(line), ..entry_of(name, secret) })
            },
        }
    }
}

/// The entry that comes of exported parameters and the answer to the
/// question for a handle.
pub fn configure_entry(param: OtpParameters, prompt: bool, answer: Option<&str>) -> (entry: Option<
    ConfigEntry,
>)
    ensures
        match configured(
            param.name@,
            param.secret@,
            prompt,
            match answer {
                Some(line) => Some(line@),
                None => None,
            },
        ) {
            Some(view) => entry matches Some(made) && made@ == view,
            None => entry is None,
        },
{
    let mut entry = entry_from_parameters(param);
    if prompt {
        let line = match answer {
            Some(line) => line,
            None => {
                return None;
            },
        };
        let code = trim(line);
        let skip = "-".to_owned();
        if code == skip {
            return None;
        }
        entry.handle = code;
    }
    Some(entry)
}

/// The entries of a new secrets file: one for each of the exported
/// parameters, in order, but for those that are left out. `answers` holds,
/// for each of the parameters, the answer to the question for its handle, or
/// `None` where none could be read; answers that are missing at the end
/// count as not read.
pub fn generate_configuration(
    parameters: Vec<OtpParameters>,
    prompt: bool,
    answers: &Vec<Option<String>>,
) -> (entries: Vec<ConfigEntry>)
    ensures
        entries@.map_values(|e: ConfigEntry| e@) == configured_all(
            parameters@,
            prompt,
            answers@,
            parameters@.len() as int,
        ),
{
    let mut parameters = parameters;
    let ghost all = parameters@;
    let n = parameters.len();
    let mut entries: Vec<ConfigEntry> = Vec::new();
    // Taken from the end, so that each of the parameters can be moved out.
    let mut taken: Vec<Option<ConfigEntry>> = Vec::new();
    let mut i: usize = n;
    while i > 0
        invariant
            i <= n,
            n == all.len(),
            parameters@ == all.take(i as int),
            taken@.len() == n - i,
            forall|k: int|
                0 <= k < taken@.len() ==> option_view(#[trigger] taken@[k]) == configured(
                    all[n - 1 - k].name@,
                    all[n - 1 - k].secret@,
                    prompt,
                    answer_at(answers@, n - 1 - k),
                ),
        decreases i,
    {
        i = i - 1;
        let param = parameters.pop().unwrap();
        assert(param == all[i as int]);
        let made = if i < answers.len() {
            match &answers[i] {
                Some(line) => configure_entry(param, prompt, Some(line.as_str())),
                None => configure_entry(param, prompt, None),
            }
        } else {
            configure_entry(param, prompt, None)
        };
        taken.push(made);
        assert(parameters@ =~= all.take(i as int));
    }
    while taken.len() > 0
        invariant
            n == all.len(),
            taken@.len() <= n,
            forall|k: int|
                0 <= k < taken@.len() ==> option_view(#[trigger] taken@[k]) == configured(
                    all[n - 1 - k].name@,
                    all[n - 1 - k].secret@,
                    prompt,
                    answer_at(answers@, n - 1 - k),
                ),
            entries@.map_values(|e: ConfigEntry| e@) == configured_all(
                all,
                prompt,
                answers@,
                n - taken@.len(),
            ),
        decreases taken@.len(),
    {
        let ghost done = n - taken@.len();
        let ghost before = entries@;
        let made = taken.pop().unwrap();
        assert(option_view(made) == configured(
            all[done].name@,
            all[done].secret@,
            prompt,
            answer_at(answers@, done),
        ));
        match made {
            Some(entry) => {
                entries.push(entry);
                assert(entries@.map_values(|e: ConfigEntry| e@) =~= before.map_values(
                    |e: ConfigEntry| e@,
                ).push(entry@));
            },
            None => {},
        }
    }
    entries
}

/// An optional entry as plain values.
pub open spec fn option_view(entry: Option<ConfigEntry>) -> Option<ConfigEntryView> {
    match entry {
        Some(made) => Some(made@),
        None => None,
    }
}

/// The answer for the parameters at `position`, if one was read.
pub open spec fn answer_at(answers: Seq<Option<String>>, position: int) -> Option<Seq<char>> {
    if 0 <= position < answers.len() {
        match answers[position] {
            Some(line) => Some(line@),
            None => None,
        }
    } else {
        None
    }
}

/// The entries that come of the first `upto` of the parameters, in order.
pub open spec fn configured_all(
    parameters: Seq<OtpParameters>,
    prompt: bool,
    answers: Seq<Option<String>>,
    upto: int,
) -> Seq<ConfigEntryView>
    decreases upto,
{
    if upto <= 0 {
        Seq::empty()
    } else {
        let before = configured_all(parameters, prompt, answers, upto - 1);
        match configured(
            parameters[upto - 1].name@,
            parameters[upto - 1].secret@,
            prompt,
            answer_at(answers, upto - 1),
        ) {
            Some(entry) => before.push(entry),
            None => before,
        }
    }
}

} // verus!
