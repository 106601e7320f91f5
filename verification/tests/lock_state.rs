use totp_generator::config::configuration::NumberStyle;
use totp_generator::output::cui::input::keyboard::KeyCode;
use totp_generator::state::State;

fn with_password(now: u64) -> State {
    let mut state = State::default(Some("s3cret".to_string()), 300, NumberStyle::Standard, now);
    state.lock();
    state
}

fn type_text(state: &mut State, text: &str, now: u64) {
    for c in text.chars() {
        state.key_while_locked(KeyCode::Char(c), true, now);
    }
}

#[test]
fn starts_unlocked() {
    let state = State::default(None, 300, NumberStyle::Pipe, 1000);
    assert!(!state.is_locked());
    assert_eq!(state.unlocked_since, Some(1000));
    assert_eq!(state.lock_after, Some(300));
    assert_eq!(state.buffer, "");
    assert_eq!(state.lock_password, None);
    assert_eq!(state.number_style, NumberStyle::Pipe);
}

#[test]
fn zero_lock_time_never_locks() {
    let mut state = State::default(None, 0, NumberStyle::Standard, 1000);
    assert_eq!(state.lock_after, None);
    assert!(!state.is_due(u64::MAX));
    assert!(!state.tick(u64::MAX));
    state.lock_after = Some(0);
    assert!(!state.tick(u64::MAX));
    assert!(!state.is_locked());
}

#[test]
fn locks_once_the_lock_time_has_passed() {
    let mut state = State::default(Some("pw".to_string()), 300, NumberStyle::Standard, 1000);
    assert!(!state.tick(1000));
    assert!(!state.tick(1299));
    assert_eq!(state.unlocked_since, Some(1000));
    assert!(state.is_due(1300));
    assert!(state.tick(1300));
    assert!(state.is_locked());
    assert_eq!(state.unlocked_since, None);
    assert!(state.tick(1301));
}

#[test]
fn a_clock_that_goes_back_does_not_lock() {
    let mut state = State::default(None, 300, NumberStyle::Standard, 1000);
    assert!(!state.tick(0));
    assert!(!state.is_locked());
}

#[test]
fn locking_forgets_what_was_typed() {
    let mut state = State::default(Some("pw".to_string()), 300, NumberStyle::Standard, 1000);
    state.buffer = "left over".to_string();
    state.lock();
    assert!(state.is_locked());
    assert_eq!(state.buffer, "");
    state.buffer = "again".to_string();
    state.unlock(7);
    state.tick(1000);
    assert_eq!(state.buffer, "");
}

#[test]
fn correct_password_then_enter_unlocks() {
    let mut state = with_password(0);
    type_text(&mut state, "s3cret", 50);
    assert!(state.is_locked());
    assert_eq!(state.buffer, "s3cret");
    state.key_while_locked(KeyCode::Enter, true, 51);
    assert!(!state.is_locked());
    assert_eq!(state.unlocked_since, Some(51));
    assert_eq!(state.buffer, "");
}

#[test]
fn wrong_password_clears_the_buffer_and_stays_locked() {
    let mut state = with_password(0);
    type_text(&mut state, "s3cre", 50);
    state.key_while_locked(KeyCode::Enter, true, 51);
    assert!(state.is_locked());
    assert_eq!(state.buffer, "");
    type_text(&mut state, "s3cret!", 52);
    state.key_while_locked(KeyCode::Enter, false, 53);
    assert!(state.is_locked());
    assert_eq!(state.buffer, "");
    state.key_while_locked(KeyCode::Enter, true, 54);
    assert!(state.is_locked());
}

#[test]
fn backspace_takes_the_last_character_back() {
    let mut state = with_password(0);
    state.key_while_locked(KeyCode::Backspace, true, 1);
    assert_eq!(state.buffer, "");
    type_text(&mut state, "s3cx", 2);
    state.key_while_locked(KeyCode::Backspace, true, 3);
    assert_eq!(state.buffer, "s3c");
    type_text(&mut state, "ret", 4);
    state.key_while_locked(KeyCode::Enter, true, 5);
    assert!(!state.is_locked());
    let mut wide = with_password(0);
    type_text(&mut wide, "aé", 1);
    wide.key_while_locked(KeyCode::Backspace, true, 2);
    assert_eq!(wide.buffer, "a");
}

#[test]
fn modified_characters_and_other_keys_are_ignored() {
    let mut state = with_password(0);
    state.key_while_locked(KeyCode::Char('a'), false, 1);
    state.key_while_locked(KeyCode::Other, true, 1);
    assert_eq!(state.buffer, "");
    assert!(state.is_locked());
    state.key_while_locked(KeyCode::Char('A'), true, 1);
    assert_eq!(state.buffer, "A");
}

#[test]
fn without_a_password_any_key_unlocks() {
    for code in [KeyCode::Enter, KeyCode::Backspace, KeyCode::Char('x'), KeyCode::Other] {
        for plain in [true, false] {
            let mut state = State::default(None, 300, NumberStyle::Standard, 0);
            state.lock();
            state.key_while_locked(code, plain, 77);
            assert!(!state.is_locked());
            assert_eq!(state.unlocked_since, Some(77));
        }
    }
}

#[test]
fn empty_password_unlocks_with_enter_alone() {
    let mut state = State::default(Some(String::new()), 300, NumberStyle::Standard, 0);
    state.lock();
    state.key_while_locked(KeyCode::Char('x'), true, 1);
    assert!(state.is_locked());
    state.key_while_locked(KeyCode::Backspace, true, 1);
    state.key_while_locked(KeyCode::Enter, true, 2);
    assert!(!state.is_locked());
}

#[test]
fn keys_at_an_open_display_leave_the_lock_state_alone() {
    let mut state = State::default(Some("pw".to_string()), 300, NumberStyle::Standard, 10);
    for code in [KeyCode::Enter, KeyCode::Backspace, KeyCode::Char('x'), KeyCode::Other] {
        state.key_while_locked(code, true, 20);
        assert_eq!(state.unlocked_since, Some(10));
        assert_eq!(state.buffer, "");
    }
}
