use totp_generator::config::secrets::ConfigEntry;
use totp_generator::error::Error;
use totp_generator::output::web::server::{
    accept_contains_json, bad_request_response, get_code, list_entries, not_found_response,
    plain_text_response, public_entries, CodeReply, MediaType, STATUS_BAD_REQUEST,
    STATUS_NOT_FOUND, STATUS_OK,
};
use totp_generator::totp::Totp;

const T0: u64 = 1748742637;

fn entry(name: &str, handle: &str) -> ConfigEntry {
    let mut e = ConfigEntry::new(name.to_string(), "JBSWY3DPEHPK3PXP".to_string());
    e.handle = handle.to_string();
    e
}

fn media(kind: &str, subtype: &str) -> MediaType {
    MediaType { kind: kind.to_string(), subtype: subtype.to_string() }
}

fn loaded() -> Result<(bool, Vec<ConfigEntry>), Error> {
    Ok((false, vec![entry("mail", "m"), entry("git", "g")]))
}

#[test]
fn accept_header_with_json() {
    assert!(accept_contains_json(&vec![media("application", "json")]));
    assert!(accept_contains_json(&vec![media("text", "html"), media("application", "json")]));
    assert!(!accept_contains_json(&vec![]));
    assert!(!accept_contains_json(&vec![media("text", "json"), media("application", "xml")]));
    assert!(!accept_contains_json(&vec![media("*", "*")]));
    assert!(!accept_contains_json(&vec![media("application", "jsonp")]));
}

#[test]
fn plain_text_answer() {
    let totp = Totp::new("JBSWY3DPEHPK3PXP", 30, Some(6), T0).unwrap();
    let reply = plain_text_response(&totp);
    assert_eq!(reply.status, 200);
    assert_eq!(reply.status, STATUS_OK);
    assert_eq!(reply.content_type, "text/plain");
    assert_eq!(reply.body, "879599\n");
    let none = not_found_response();
    assert_eq!(none.status, 404);
    assert_eq!(none.status, STATUS_NOT_FOUND);
    assert_eq!(none.body, "No matching code found.");
}

#[test]
fn code_as_text_by_default() {
    match get_code(loaded(), "g", None, T0) {
        CodeReply::Text(reply) => {
            assert_eq!(reply.status, 200);
            assert_eq!(reply.body, "879599\n");
        }
        CodeReply::Json(_) => panic!("no JSON was asked for"),
    }
    let accept = vec![media("text", "plain")];
    assert!(matches!(get_code(loaded(), "0", Some(&accept), T0), CodeReply::Text(r) if r.status == 200));
}

#[test]
fn code_as_json_on_request() {
    let accept = vec![media("text", "html"), media("application", "json")];
    match get_code(loaded(), "1", Some(&accept), T0) {
        CodeReply::Json(totp) => {
            assert_eq!(totp.token, "879599");
            assert_eq!(totp.counter, 58291421);
            assert_eq!(totp.valid_until, 1748742660);
        }
        CodeReply::Text(_) => panic!("JSON was asked for"),
    }
}

#[test]
fn unknown_code_is_not_found() {
    let accept = vec![media("application", "json")];
    for selector in ["nonexistent", "2", ""] {
        match get_code(loaded(), selector, Some(&accept), T0) {
            CodeReply::Text(reply) => {
                assert_eq!(reply.status, 404);
                assert_eq!(reply.body, "No matching code found.");
            }
            CodeReply::Json(_) => panic!("nothing matches {:?}", selector),
        }
    }
}

#[test]
fn malformed_file_is_a_bad_request() {
    let accept = vec![media("application", "json")];
    for accepted in [None, Some(&accept)] {
        match get_code(Err(Error::ConfigParse("expected value".to_string())), "0", accepted, T0) {
            CodeReply::Text(reply) => {
                assert_eq!(reply.status, 400);
                assert_eq!(reply.status, STATUS_BAD_REQUEST);
                assert_eq!(reply.content_type, "text/plain");
                assert_eq!(reply.body, "Failed to load secrets");
            }
            CodeReply::Json(_) => panic!("a malformed file gives no code"),
        }
    }
    let reply = bad_request_response();
    assert_eq!(reply.status, 400);
    assert_eq!(reply.body, "Failed to load secrets");
}

#[test]
fn unusable_entry_is_a_bad_request() {
    let mut zero = entry("zero", "z");
    zero.timestep = 0;
    let mut wide = entry("wide", "w");
    wide.digits = 10;
    let mut none = entry("none", "n");
    none.digits = 0;
    for selector in ["z", "w", "n", "1"] {
        let list = vec![zero.clone(), wide.clone(), none.clone(), entry("mail", "m")];
        let reply = get_code(Ok((true, list)), selector, None, T0);
        assert!(matches!(reply, CodeReply::Text(r) if r.status == 400 && !r.body.contains("879599")));
    }
    let list = vec![zero.clone(), entry("mail", "m")];
    assert!(matches!(get_code(Ok((true, list)), "m", None, T0), CodeReply::Text(r) if r.status == 200));
}

#[test]
fn unreadable_file_and_undecodable_secret_are_not_found() {
    let failed = get_code(Err(Error::ConfigIo("gone".to_string())), "0", None, T0);
    assert!(matches!(failed, CodeReply::Text(r) if r.status == 404 && r.body == "No matching code found."));
    let failed = get_code(Err(Error::EntryNotFound), "0", None, T0);
    assert!(matches!(failed, CodeReply::Text(r) if r.status == 404));
    let mut bad = entry("bad", "b");
    bad.secret = "***".to_string();
    let reply = get_code(Ok((true, vec![bad])), "b", None, T0);
    assert!(matches!(reply, CodeReply::Text(r) if r.status == 404));
}

#[test]
fn list_leaves_the_secrets_out() {
    let all = loaded();
    let shown = list_entries(&all).unwrap();
    assert_eq!(shown.len(), 2);
    assert_eq!(shown[0].name, "mail");
    assert_eq!(shown[0].code, "m");
    assert_eq!(shown[0].timestep, 30);
    assert_eq!(shown[0].digits, 6);
    assert_eq!(shown[1].name, "git");
    assert!(!format!("{:?}", shown).contains("JBSWY3DPEHPK3PXP"));
    let entries = vec![entry("a", "")];
    assert_eq!(public_entries(&entries).len(), 1);
    assert!(public_entries(&Vec::new()).is_empty());
}

#[test]
fn list_after_a_failed_load_is_a_bad_request() {
    let failed: Result<(bool, Vec<ConfigEntry>), Error> = Err(Error::ConfigParse("bad".to_string()));
    let reply = list_entries(&failed).unwrap_err();
    assert_eq!(reply.status, 400);
    assert_eq!(reply.status, STATUS_BAD_REQUEST);
    assert_eq!(reply.body, "Failed to load secrets");
}
