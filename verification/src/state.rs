//! The state of the interactive display: whether it is locked, since when it
//! is open, and what has been typed at the lock screen.

use crate::config::configuration::NumberStyle;
use crate::output::cui::input::keyboard::KeyCode;
use crate::text::{pop_char, push_char};
use vstd::prelude::*;

verus! {

/// The lock state as plain values. Times are in seconds since the Unix epoch.
pub struct LockView {
    pub password: Option<Seq<char>>,
    pub unlocked_since: Option<u64>,
    pub lock_after: Option<u64>,
    pub buffer: Seq<char>,
}

impl LockView {
    /// Whether the display is locked.
    pub open spec fn locked(self) -> bool {
        self.unlocked_since is None
    }

    /// Whether an open display is due to lock at `now`: a lock time above
    /// zero is set and at least that many seconds have passed since the
    /// display was opened.
    pub open spec fn due(self, now: u64) -> bool {
        &&& self.unlocked_since matches Some(since)
        &&& self.lock_after matches Some(after)
        &&& after > 0
        &&& now - since >= after
    }

    /// The state of a display that starts at `now`: open, nothing typed.
    pub open spec fn fresh(password: Option<Seq<char>>, lock_after_seconds: u16, now: u64) -> LockView {
        LockView {
            password,
            unlocked_since: Some(now),
            lock_after: if lock_after_seconds > 0 {
                Some(lock_after_seconds as u64)
            } else {
                None
            },
            buffer: Seq::empty(),
        }
    }

    /// Locked, with nothing typed.
    pub open spec fn lock(self) -> LockView {
        LockView { unlocked_since: None, buffer: Seq::empty(), ..self }
    }

    /// Open as of `now`.
    pub open spec fn unlock(self, now: u64) -> LockView {
        LockView { unlocked_since: Some(now), ..self }
    }

    /// The check made before every drawing: locked where that is due.
    pub open spec fn tick(self, now: u64) -> LockView {
        if self.due(now) {
            self.lock()
        } else {
            self
        }
    }

    /// The state after a key press that goes to the lock screen. An open
    /// display has no lock screen, and nothing changes. At a locked display
    /// without a password any key opens it. With a password, Enter compares
    /// what was typed with the password, opens the display where they are
    /// equal, and forgets what was typed either way; Backspace takes the last
    /// character back; a character typed without a modifier, or with shift
    /// alone, is added; any other key changes nothing.
    pub open spec fn key(self, code: KeyCode, plain: bool, now: u64) -> LockView {
        if !self.locked() {
            self
        } else {
            self.locked_key(code, plain, now)
        }
    }

    /// The state after a key press at a locked display.
    pub open spec fn locked_key(self, code: KeyCode, plain: bool, now: u64) -> LockView {
        match self.password {
            None => self.unlock(now),
            Some(password) => match code {
                KeyCode::Enter => LockView {
                    unlocked_since: if self.buffer == password {
                        Some(now)
                    } else {
                        None
                    },
                    buffer: Seq::empty(),
                    ..self
                },
                KeyCode::Backspace => LockView {
                    buffer: if self.buffer.len() > 0 {
                        self.buffer.drop_last()
                    } else {
                        self.buffer
                    },
                    ..self
                },
                KeyCode::Char(c) => if plain {
                    LockView { buffer: self.buffer.push(c), ..self }
                } else {
                    self
                },
                KeyCode::Other => self,
            },
        }
    }

    /// The state after the characters of `text` are typed one by one at the
    /// lock screen, without modifiers.
    pub open spec fn typed(self, text: Seq<char>, now: u64) -> LockView
        decreases text.len(),
    {
        if text.len() == 0 {
            self
        } else {
            self.typed(text.drop_last(), now).key(KeyCode::Char(text.last()), true, now)
        }
    }
}

/// A display starts open.
pub proof fn lemma_starts_unlocked(password: Option<Seq<char>>, lock_after_seconds: u16, now: u64)
    ensures
        !LockView::fresh(password, lock_after_seconds, now).locked(),
{
}

/// An open display with a lock time locks at the first check made once that
/// time has passed, with nothing typed, and not before.
pub proof fn lemma_locks_after_timeout(state: LockView, since: u64, after: u64, now: u64)
    requires
        state.unlocked_since == Some(since),
        state.lock_after == Some(after),
        after > 0,
    ensures
        now - since >= after ==> state.tick(now).locked() && state.tick(now).buffer.len() == 0,
        now - since < after ==> state.tick(now) == state,
{
}

/// Without a lock time, or with one of zero, a display never locks by itself.
pub proof fn lemma_never_locks_without_timeout(state: LockView, now: u64)
    requires
        state.lock_after is None || state.lock_after == Some(0u64),
    ensures
        state.tick(now) == state,
{
}

/// Typing at a locked display with a password adds to what was typed and
/// leaves the display locked.
pub proof fn lemma_typing_collects(state: LockView, text: Seq<char>, now: u64)
    requires
        state.locked(),
        state.password is Some,
    ensures
        state.typed(text, now) == (LockView { buffer: state.buffer + text, ..state }),
    decreases text.len(),
{
    if text.len() == 0 {
        assert(state.buffer + text =~= state.buffer);
    } else {
        lemma_typing_collects(state, text.drop_last(), now);
        assert((state.buffer + text.drop_last()).push(text.last()) =~= state.buffer + text);
    }
}

/// Typing the password at a locked display and pressing Enter opens it as of
/// that moment, with nothing typed left over.
pub proof fn lemma_password_unlocks(state: LockView, now: u64)
    requires
        state.locked(),
        state.password is Some,
        state.buffer.len() == 0,
    ensures
        state.typed(state.password->Some_0, now).key(KeyCode::Enter, true, now) == (LockView {
            unlocked_since: Some(now),
            ..state
        }),
{
    let password = state.password->Some_0;
    lemma_typing_collects(state, password, now);
    assert(state.buffer + password =~= password);
    assert(state.buffer =~= Seq::<char>::empty());
}

/// Typing anything but the password and pressing Enter leaves the display
/// locked and forgets what was typed.
pub proof fn lemma_wrong_password_stays_locked(state: LockView, text: Seq<char>, now: u64)
    requires
        state.locked(),
        state.password is Some,
        state.buffer.len() == 0,
        text != state.password->Some_0,
    ensures
        state.typed(text, now).key(KeyCode::Enter, true, now).locked(),
        state.typed(text, now).key(KeyCode::Enter, true, now).buffer.len() == 0,
{
    lemma_typing_collects(state, text, now);
    assert(state.buffer + text =~= text);
}

/// Without a password every key opens a locked display.
pub proof fn lemma_any_key_unlocks_without_password(
    state: LockView,
    code: KeyCode,
    plain: bool,
    now: u64,
)
    requires
        state.locked(),
        state.password is None,
    ensures
        !state.key(code, plain, now).locked(),
        state.key(code, plain, now).unlocked_since == Some(now),
{
}

/// The lock state and the settings of the interactive display. Times are in
/// seconds since the Unix epoch.
#[derive(Debug)]
pub struct State {
    /// The password that unlocks; without one any key unlocks.
    pub lock_password: Option<String>,
    /// Since when the display is open; `None` while it is locked.
    pub unlocked_since: Option<u64>,
    /// The seconds after which the display locks by itself; `None` or zero
    /// never locks.
    pub lock_after: Option<u64>,
    /// What has been typed at the lock screen.
    pub buffer: String,
    /// How digits are drawn.
    pub number_style: NumberStyle,
}

impl View for State {
    type V = LockView;

    open spec fn view(&self) -> LockView {
        LockView {
            password: match self.lock_password {
                Some(password) => Some(password@),
                None => None,
            },
            unlocked_since: self.unlocked_since,
            lock_after: self.lock_after,
            buffer: self.buffer@,
        }
    }
}

impl State {
    /// The state of a display that starts at `now`: open, with nothing typed.
    /// A lock time of zero seconds means that it never locks by itself.
    pub fn default(
        lock_password: Option<String>,
        lock_after_seconds: u16,
        number_style: NumberStyle,
        now: u64,
    ) -> (state: State)
        ensures
            state.lock_password == lock_password,
            state@ == LockView::fresh(state@.password, lock_after_seconds, now),
            state.number_style == number_style,
    {
        State {
            lock_password,
            unlocked_since: Some(now),
            lock_after: if lock_after_seconds > 0 {
                Some(lock_after_seconds as u64)
            } else {
                None
            },
            buffer: String::new(),
            number_style,
        }
    }

    /// Whether the display is locked.
    pub fn is_locked(&self) -> (answer: bool)
        ensures
            answer == self@.locked(),
    {
        self.unlocked_since.is_none()
    }

    /// Opens the display as of `now`.
    pub fn unlock(&mut self, now: u64)
        ensures
            final(self)@ == old(self)@.unlock(now),
            final(self).number_style == old(self).number_style,
    {
        self.unlocked_since = Some(now);
    }

    /// Locks the display and forgets what was typed.
    pub fn lock(&mut self)
        ensures
            final(self)@ == old(self)@.lock(),
            final(self).number_style == old(self).number_style,
    {
        self.unlocked_since = None;
        self.buffer = String::new();
    }

    /// Whether an open display is due to lock at `now`.
    pub fn is_due(&self, now: u64) -> (answer: bool)
        ensures
            answer == self@.due(now),
    {
        match (self.unlocked_since, self.lock_after) {
            (Some(since), Some(after)) => after > 0 && now >= since && now - since >= after,
            _ => false,
        }
    }

    /// The check made before every drawing: locks the display where that is
    /// due. Returns whether it is locked afterwards.
    pub fn tick(&mut self, now: u64) -> (locked: bool)
        ensures
            final(self)@ == old(self)@.tick(now),
            locked == final(self)@.locked(),
            final(self).number_style == old(self).number_style,
    {
        if self.is_due(now) {
            self.lock();
        }
        self.is_locked()
    }

    /// Handles a key press that goes to the lock screen; at an open display
    /// it changes nothing.
    pub fn key_while_locked(&mut self, code: KeyCode, plain: bool, now: u64)
        ensures
            final(self)@ == old(self)@.key(code, plain, now),
            final(self).number_style == old(self).number_style,
    {
        if !self.is_locked() {
            return;
        }
        let matched = match &self.lock_password {
            None => {
                self.unlocked_since = Some(now);
                return;
            },
            Some(password) => self.buffer == *password,
        };
        match code {
            KeyCode::Enter => {
                self.buffer = String::new();
                if matched {
                    self.unlocked_since = Some(now);
                } else {
                    self.unlocked_since = None;
                }
            },
            KeyCode::Backspace => {
                pop_char(&mut self.buffer);
            },
            KeyCode::Char(c) => {
                if plain {
                    push_char(&mut self.buffer, c);
                }
            },
            KeyCode::Other => {},
        }
    }
}

} // verus!
