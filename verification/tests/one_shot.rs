use totp_generator::config::secrets::{ConfigEntry, ConfigFile, FileObservation};
use totp_generator::error::Error;
use totp_generator::output::onetime::{one_time_code, one_time_mode};

const T0: u64 = 1748742637;

fn entry(name: &str, handle: &str) -> ConfigEntry {
    let mut e = ConfigEntry::new(name.to_string(), "JBSWY3DPEHPK3PXP".to_string());
    e.handle = handle.to_string();
    e
}

fn seen(entries: Vec<ConfigEntry>) -> FileObservation {
    FileObservation { modified: Ok(7), contents: Ok(entries), modified_again: Ok(7) }
}

#[test]
fn one_shot_prints_the_code_and_its_validity() {
    let entries = vec![entry("mail", "m"), entry("git", "g")];
    assert_eq!(one_time_code(&entries, "g", T0).unwrap(), "879599\nValid for 23s");
    assert_eq!(one_time_code(&entries, "0", 1748742663).unwrap(), "690726\nValid for 27s");
    assert_eq!(one_time_code(&entries, "1", 1748742660).unwrap(), "690726\nValid for 30s");
}

#[test]
fn one_shot_with_other_parameters() {
    let mut long = entry("long", "l");
    long.timestep = 60;
    long.digits = 8;
    assert_eq!(one_time_code(&[long], "l", T0).unwrap(), "50837246\nValid for 23s");
}

#[test]
fn one_shot_failures() {
    let mut bad = entry("bad", "b");
    bad.secret = "not base32!".to_string();
    let mut zero = entry("zero", "z");
    zero.timestep = 0;
    let entries = vec![entry("mail", "m"), bad, zero];
    assert!(matches!(one_time_code(&entries, "nonexistent", T0), Err(Error::EntryNotFound)));
    assert!(matches!(one_time_code(&entries, "3", T0), Err(Error::EntryNotFound)));
    assert!(matches!(one_time_code(&entries, "b", T0), Err(Error::InvalidSecret)));
    match one_time_code(&entries, "2", T0) {
        Err(Error::ConfigParse(detail)) => assert_eq!(
            detail,
            "entry zero: the time step must be positive and the digits between 1 and 9"
        ),
        other => panic!("unexpected {:?}", other),
    }
}

#[test]
fn one_shot_loads_the_store_once() {
    let mut store = ConfigFile::new("secrets.json".to_string());
    let text = one_time_mode(&mut store, seen(vec![entry("mail", "m")]), "m", T0).unwrap();
    assert_eq!(text, "879599\nValid for 23s");
    assert_eq!(store.last_modified(), 7);
    assert_eq!(store.snapshot().len(), 1);
    let missing = one_time_mode(&mut store, seen(Vec::new()), "x", T0);
    assert!(matches!(missing, Err(Error::EntryNotFound)));
}

#[test]
fn one_shot_hands_load_failures_on() {
    let mut store = ConfigFile::new("secrets.json".to_string());
    let unreadable = FileObservation {
        modified: Err(Error::ConfigIo("no such file".to_string())),
        contents: Ok(Vec::new()),
        modified_again: Ok(0),
    };
    let failed = one_time_mode(&mut store, unreadable, "0", T0);
    assert!(matches!(failed, Err(Error::ConfigIo(detail)) if detail == "no such file"));
    let malformed = FileObservation {
        modified: Ok(3),
        contents: Err(Error::ConfigParse("expected value".to_string())),
        modified_again: Ok(3),
    };
    let failed = one_time_mode(&mut store, malformed, "0", T0);
    assert!(matches!(failed, Err(Error::ConfigParse(detail)) if detail == "expected value"));
    assert_eq!(store.last_modified(), 0);
}

#[test]
fn one_shot_rejects_a_file_with_an_unusable_entry() {
    let mut store = ConfigFile::new("secrets.json".to_string());
    let mut zero = entry("zero", "z");
    zero.timestep = 0;
    // Also where another entry is asked for: the file as a whole is malformed.
    let failed = one_time_mode(&mut store, seen(vec![entry("mail", "m"), zero]), "m", T0);
    match failed {
        Err(Error::ConfigParse(detail)) => assert_eq!(
            detail,
            "entry 1: the time step must be positive and the digits between 1 and 9"
        ),
        other => panic!("unexpected {:?}", other),
    }
    assert_eq!(store.last_modified(), 0);
    assert!(store.snapshot().is_empty());
}
