use totp_generator::config::secrets::{
    clone_entries, default_digits, default_step, empty_string, validate_entries, ConfigData,
    ConfigEntry, ConfigEntryPublic, ConfigFile, FileObservation, LoadStep,
};
use totp_generator::error::Error;
use totp_generator::text::parse_index;

fn entry(name: &str, handle: &str) -> ConfigEntry {
    let mut e = ConfigEntry::new(name.to_string(), "JBSWY3DPEHPK3PXP".to_string());
    e.handle = handle.to_string();
    e
}

fn five() -> Vec<ConfigEntry> {
    vec![
        entry("zero", "z"),
        entry("one", "o"),
        entry("two", "t"),
        entry("three", "o"),
        entry("four", ""),
    ]
}

fn names(entries: &[ConfigEntry]) -> Vec<String> {
    entries.iter().map(|e| e.name.clone()).collect()
}

#[test]
fn entry_defaults() {
    assert_eq!(default_digits(), 6);
    assert_eq!(default_step(), 30);
    assert_eq!(empty_string(), "");
    let e = ConfigEntry::new("mail".to_string(), "ABC".to_string());
    assert_eq!(e.name, "mail");
    assert_eq!(e.handle, "");
    assert_eq!(e.secret, "ABC");
    assert_eq!(e.timestep, 30);
    assert_eq!(e.digits, 6);
    assert!(e.is_valid());
}

#[test]
fn entry_validity_bounds() {
    let mut e = entry("a", "a");
    e.timestep = 0;
    assert!(!e.is_valid());
    e.timestep = 1;
    e.digits = 0;
    assert!(!e.is_valid());
    e.digits = 1;
    assert!(e.is_valid());
    e.digits = 9;
    assert!(e.is_valid());
    e.digits = 10;
    assert!(!e.is_valid());
    e.digits = 6;
    e.timestep = u16::MAX;
    assert!(e.is_valid());
}

#[test]
fn entry_clone_keeps_every_field() {
    let mut e = entry("a", "h");
    e.timestep = 60;
    e.digits = 8;
    let c = e.clone();
    assert_eq!(c.name, "a");
    assert_eq!(c.handle, "h");
    assert_eq!(c.secret, "JBSWY3DPEHPK3PXP");
    assert_eq!(c.timestep, 60);
    assert_eq!(c.digits, 8);
    let all = clone_entries(&five());
    assert_eq!(names(&all), vec!["zero", "one", "two", "three", "four"]);
}

#[test]
fn validation_accepts_usable_entries() {
    let accepted = validate_entries(five()).unwrap();
    assert_eq!(names(&accepted), vec!["zero", "one", "two", "three", "four"]);
    assert!(validate_entries(Vec::new()).unwrap().is_empty());
}

#[test]
fn validation_names_the_first_unusable_entry() {
    let mut entries = five();
    entries[3].digits = 10;
    entries[1].timestep = 0;
    match validate_entries(entries) {
        Err(Error::ConfigParse(detail)) => assert_eq!(
            detail,
            "entry 1: the time step must be positive and the digits between 1 and 9"
        ),
        other => panic!("unexpected {:?}", other),
    }
    let mut entries = five();
    entries[4].digits = 0;
    match validate_entries(entries) {
        Err(Error::ConfigParse(detail)) => assert!(detail.starts_with("entry 4:")),
        other => panic!("unexpected {:?}", other),
    }
}

#[test]
fn public_form_leaves_the_secret_out() {
    let mut e = entry("mail", "m");
    e.timestep = 45;
    e.digits = 7;
    let shown = ConfigEntryPublic::from(&e);
    assert_eq!(shown.name, "mail");
    assert_eq!(shown.code, "m");
    assert_eq!(shown.timestep, 45);
    assert_eq!(shown.digits, 7);
    assert!(!format!("{:?}", shown).contains("JBSWY3DPEHPK3PXP"));
}

#[test]
fn index_parsing() {
    assert_eq!(parse_index("0"), Some(0));
    assert_eq!(parse_index("2"), Some(2));
    assert_eq!(parse_index("007"), Some(7));
    assert_eq!(parse_index("+5"), Some(5));
    assert_eq!(parse_index("1234567890"), Some(1234567890));
    assert_eq!(parse_index(""), None);
    assert_eq!(parse_index("+"), None);
    assert_eq!(parse_index("-1"), None);
    assert_eq!(parse_index("-0"), None);
    assert_eq!(parse_index("++1"), None);
    assert_eq!(parse_index("1+"), None);
    assert_eq!(parse_index("12a"), None);
    assert_eq!(parse_index(" 1"), None);
    assert_eq!(parse_index("1 "), None);
    assert_eq!(parse_index("٣"), None);
    assert_eq!(parse_index("1٣"), None);
    assert_eq!(parse_index("+é"), None);
    assert_eq!(parse_index(&usize::MAX.to_string()), Some(usize::MAX));
    assert_eq!(parse_index("99999999999999999999999999"), None);
    assert_eq!(parse_index("18446744073709551616"), None);
}

#[test]
fn index_parsing_agrees_with_std() {
    for text in ["0", "42", "+42", "-42", "", "+", "0x1", "1e3", "00", "+00012", "4 2", "٤٢"] {
        assert_eq!(parse_index(text), text.parse::<usize>().ok(), "for {:?}", text);
    }
}

#[test]
fn lookup_by_position() {
    let entries = five();
    assert_eq!(ConfigFile::get_secret(&entries, "2").unwrap().name, "two");
    assert_eq!(ConfigFile::get_secret(&entries, "0").unwrap().name, "zero");
    assert_eq!(ConfigFile::get_secret(&entries, "4").unwrap().name, "four");
    assert_eq!(ConfigFile::get_secret(&entries, "+3").unwrap().name, "three");
    assert_eq!(ConfigFile::get_secret(&entries, "01").unwrap().name, "one");
}

#[test]
fn lookup_unknown_selector() {
    let entries = five();
    assert!(matches!(
        ConfigFile::get_secret(&entries, "nonexistent"),
        Err(Error::EntryNotFound)
    ));
    assert!(matches!(ConfigFile::get_secret(&[], "0"), Err(Error::EntryNotFound)));
    assert!(matches!(ConfigFile::get_secret(&[], "x"), Err(Error::EntryNotFound)));
}

#[test]
fn lookup_position_out_of_range_does_not_fall_back_to_handles() {
    let mut entries = five();
    entries[0].handle = "7".to_string();
    assert!(matches!(ConfigFile::get_secret(&entries, "5"), Err(Error::EntryNotFound)));
    assert!(matches!(ConfigFile::get_secret(&entries, "7"), Err(Error::EntryNotFound)));
}

#[test]
fn lookup_by_handle_takes_the_first_match() {
    let entries = five();
    assert_eq!(ConfigFile::get_secret(&entries, "o").unwrap().name, "one");
    assert_eq!(ConfigFile::get_secret(&entries, "t").unwrap().name, "two");
    assert_eq!(ConfigFile::get_secret(&entries, "z").unwrap().name, "zero");
    assert!(matches!(ConfigFile::get_secret(&entries, "O"), Err(Error::EntryNotFound)));
    assert!(matches!(ConfigFile::get_secret(&entries, "o "), Err(Error::EntryNotFound)));
}

#[test]
fn lookup_of_the_empty_selector_matches_an_empty_handle() {
    let entries = five();
    assert_eq!(ConfigFile::get_secret(&entries, "").unwrap().name, "four");
    assert_eq!(ConfigFile::get_secret(&entries, "-1").is_err(), true);
}

#[test]
fn new_store_is_empty_as_of_the_epoch() {
    let store = ConfigFile::new("secrets.json".to_string());
    assert_eq!(store.secrets_path(), "secrets.json");
    assert_eq!(store.last_modified(), 0);
    assert!(store.snapshot().is_empty());
    assert!(!store.has_been_modified(0));
    assert!(store.has_been_modified(1));
    let data = ConfigData::new();
    assert_eq!(data.last_modified(), 0);
    assert!(data.entries.is_empty());
}

#[test]
fn check_serves_the_cache_for_an_unchanged_file() {
    let mut store = ConfigFile::new("s".to_string());
    assert!(matches!(store.check(10), LoadStep::Reload));
    let (changed, served) = store.install(five(), 10);
    assert!(changed);
    assert_eq!(served.len(), 5);
    for _ in 0..2 {
        match store.check(10) {
            LoadStep::Current(entries) => {
                assert_eq!(names(&entries), vec!["zero", "one", "two", "three", "four"])
            }
            LoadStep::Reload => panic!("an unchanged file is not read again"),
        }
    }
    assert!(matches!(store.check(9), LoadStep::Current(_)));
    assert!(matches!(store.check(11), LoadStep::Reload));
    assert_eq!(store.last_modified(), 10);
}

#[test]
fn only_the_first_of_racing_installs_is_taken() {
    let mut store = ConfigFile::new("s".to_string());
    store.install(vec![entry("old", "")], 5);
    // Three callers saw the file change to time 9 and read it.
    let mut outcomes = Vec::new();
    for caller in ["first", "second", "third"] {
        assert!(caller.len() > 0);
        outcomes.push(store.install(vec![entry(caller, "")], 9));
    }
    let installed: Vec<bool> = outcomes.iter().map(|o| o.0).collect();
    assert_eq!(installed, vec![true, false, false]);
    for (_, served) in &outcomes {
        assert_eq!(names(served), vec!["first"]);
    }
    assert_eq!(names(&store.snapshot()), vec!["first"]);
    assert_eq!(store.last_modified(), 9);
}

#[test]
fn install_of_an_older_file_is_dropped() {
    let mut store = ConfigFile::new("s".to_string());
    store.install(vec![entry("new", "")], 9);
    let (changed, served) = store.install(vec![entry("stale", "")], 8);
    assert!(!changed);
    assert_eq!(names(&served), vec!["new"]);
    assert_eq!(store.last_modified(), 9);
}

fn observed(
    modified: Result<u128, Error>,
    contents: Result<Vec<ConfigEntry>, Error>,
    modified_again: Result<u128, Error>,
) -> FileObservation {
    FileObservation { modified, contents, modified_again }
}

#[test]
fn load_installs_a_newer_file() {
    let mut store = ConfigFile::new("s".to_string());
    let (changed, entries) = store.load(observed(Ok(3), Ok(five()), Ok(3))).unwrap();
    assert!(changed);
    assert_eq!(entries.len(), 5);
    assert_eq!(store.last_modified(), 3);
    let (changed, entries) = store
        .load(observed(Ok(3), Err(Error::ConfigIo("not read".to_string())), Err(Error::EntryNotFound)))
        .unwrap();
    assert!(!changed);
    assert_eq!(entries.len(), 5);
}

#[test]
fn load_uses_the_second_look_when_installing() {
    let mut store = ConfigFile::new("s".to_string());
    let (changed, _) = store.load(observed(Ok(3), Ok(five()), Ok(4))).unwrap();
    assert!(changed);
    assert_eq!(store.last_modified(), 4);
    // Another caller was first: the file seen again is not newer any more.
    let (changed, entries) = store.load(observed(Ok(5), Ok(vec![entry("late", "")]), Ok(4))).unwrap();
    assert!(!changed);
    assert_eq!(entries.len(), 5);
    assert_eq!(store.last_modified(), 4);
}

#[test]
fn load_failures_keep_the_cache() {
    let mut store = ConfigFile::new("s".to_string());
    store.load(observed(Ok(3), Ok(five()), Ok(3))).unwrap();
    let failed = store.load(observed(Err(Error::ConfigIo("gone".to_string())), Ok(Vec::new()), Ok(9)));
    assert!(matches!(failed, Err(Error::ConfigIo(detail)) if detail == "gone"));
    let failed = store.load(observed(Ok(9), Err(Error::ConfigParse("bad".to_string())), Ok(9)));
    assert!(matches!(failed, Err(Error::ConfigParse(detail)) if detail == "bad"));
    let failed = store.load(observed(Ok(9), Ok(Vec::new()), Err(Error::ConfigIo("late".to_string()))));
    assert!(matches!(failed, Err(Error::ConfigIo(detail)) if detail == "late"));
    assert_eq!(store.snapshot().len(), 5);
    assert_eq!(store.last_modified(), 3);
}

#[test]
fn load_rejects_a_file_with_an_unusable_entry_and_keeps_the_cache() {
    let mut store = ConfigFile::new("s".to_string());
    store.load(observed(Ok(3), Ok(five()), Ok(3))).unwrap();
    for (timestep, digits) in [(0u16, 6u8), (30, 0), (30, 10), (0, 0)] {
        let mut entries = vec![entry("fine", "f"), entry("also fine", "a"), entry("bad", "b")];
        entries[2].timestep = timestep;
        entries[2].digits = digits;
        match store.load(observed(Ok(9), Ok(entries), Ok(9))) {
            Err(Error::ConfigParse(detail)) => assert_eq!(
                detail,
                "entry 2: the time step must be positive and the digits between 1 and 9"
            ),
            other => panic!("unexpected {:?}", other),
        }
        assert_eq!(names(&store.snapshot()), vec!["zero", "one", "two", "three", "four"]);
        assert_eq!(store.last_modified(), 3);
    }
    // The file is rejected before it is looked at again.
    let mut entries = five();
    entries[0].digits = 12;
    let rejected = store.load(observed(Ok(9), Ok(entries), Err(Error::ConfigIo("late".to_string()))));
    assert!(matches!(rejected, Err(Error::ConfigParse(detail)) if detail.starts_with("entry 0:")));
    // An unusable entry in a file that is not newer is never looked at.
    let mut entries = five();
    entries[0].timestep = 0;
    let (changed, served) = store.load(observed(Ok(3), Ok(entries), Ok(3))).unwrap();
    assert!(!changed);
    assert!(served.iter().all(|e| e.is_valid()));
}

#[test]
fn every_entry_that_the_store_serves_is_usable() {
    let mut store = ConfigFile::new("s".to_string());
    let mut stamp = 1;
    for bad in [false, true, false, true, true, false] {
        let mut entries = five();
        if bad {
            entries[3].timestep = 0;
        }
        stamp += 1;
        let outcome = store.load(observed(Ok(stamp), Ok(entries), Ok(stamp)));
        assert_eq!(outcome.is_err(), bad);
        if let Ok((_, served)) = outcome {
            assert!(served.iter().all(|e| e.is_valid()));
        }
        assert!(store.snapshot().iter().all(|e| e.is_valid()));
        if let LoadStep::Current(served) = store.check(0) {
            assert!(served.iter().all(|e| e.is_valid()));
        }
    }
}
