//! The interactive display as a whole: its cells, its lock state, the entries
//! it shows and its status line.

use crate::config::configuration::NumberStyle;
use crate::config::secrets::{
    entries_valid, first_invalid, invalid_detail, lemma_first_invalid, validate_entries,
    ConfigEntry, ConfigEntryView,
};
use crate::error::Error;
use crate::output::cui::components::messages::{last_of, Messages, MAX_MESSAGES};
use crate::output::cui::components::totp_box::{
    face_of, lemma_current_cell_is_cell_of_entry, CellFace, TotpBox, TotpBoxView,
};
use crate::output::cui::input::keyboard::{
    char_index, char_to_index, keyevent_to_char, KeyCode, KeyEvent, KeyboardAction,
};
use crate::state::{LockView, State};
use crate::text::{join_text, padded_decimal, padded_decimal_text, repeated};
use crate::totp::LAST_MOMENT;
use vstd::prelude::*;
use vstd::string::{StrSliceExecFns, StringExecFns};

verus! {

/// The cell that stood at position `i`, if there was one.
pub open spec fn cell_before(cells: Seq<TotpBox>, i: int) -> Option<TotpBoxView> {
    if 0 <= i < cells.len() {
        Some(cells[i]@)
    } else {
        None
    }
}

/// Whether the cell that stood at a position goes on showing `entry`: there
/// was a cell, and its name, handle, secret, time step and digit count are
/// the entry's.
pub open spec fn keeps_cell(before: Option<TotpBoxView>, entry: ConfigEntryView) -> bool {
    before matches Some(cell) && cell.shows(entry)
}

/// Whether synchronising changes what stands at a position: the cell there
/// is made anew, or it is kept and brought up to date.
pub open spec fn cell_differs(before: Option<TotpBoxView>, entry: ConfigEntryView, now: u64) -> bool {
    !keeps_cell(before, entry) || before->Some_0.out_of_date(now)
}

/// Whether synchronising changes what stands at some position below `upto`.
pub open spec fn some_cell_differs(
    cells: Seq<TotpBox>,
    entries: Seq<ConfigEntry>,
    now: u64,
    upto: int,
) -> bool {
    exists|i: int|
        0 <= i < upto && #[trigger] cell_differs(cell_before(cells, i), entries[i]@, now)
}

/// Whether every cell is well formed.
pub open spec fn cells_wf(cells: Seq<TotpBox>) -> bool {
    forall|i: int| 0 <= i < cells.len() ==> (#[trigger] cells[i])@.wf()
}

/// Makes the cells show the entries, one cell for each entry in order, each
/// with the code of its entry at `now`. A cell that already shows the entry at
/// its position is kept and brought up to date; every other cell is made
/// anew. Returns whether anything changed.
pub fn sync_cells(cells: &mut Vec<TotpBox>, entries: &Vec<ConfigEntry>, now: u64) -> (changed: bool)
    requires
        cells_wf(old(cells)@),
        entries_valid(entries@),
        now <= LAST_MOMENT,
    ensures
        final(cells)@.len() == entries@.len(),
        cells_wf(final(cells)@),
        forall|i: int|
            0 <= i < entries@.len() ==> (#[trigger] final(cells)@[i])@ == TotpBoxView::of_entry(
                entries@[i]@,
                now,
            ),
        forall|i: int| 0 <= i < entries@.len() ==> !(#[trigger] final(cells)@[i])@.out_of_date(now),
        changed == (old(cells)@.len() != entries@.len() || some_cell_differs(
            old(cells)@,
            entries@,
            now,
            entries@.len() as int,
        )),
{
    let ghost before = cells@;
    let n = entries.len();
    let mut changed = false;
    if n != cells.len() {
        cells.truncate(n);
        changed = true;
    }
    let kept = cells.len();
    let mut i: usize = 0;
    while i < n
        invariant
            i <= n,
            n == entries@.len(),
            kept <= n,
            kept <= before.len(),
            kept == before.len() || kept == n,
            cells_wf(before),
            entries_valid(entries@),
            now <= LAST_MOMENT,
            cells@.len() == if i <= kept {
                kept as int
            } else {
                i as int
            },
            forall|j: int|
                0 <= j < i ==> (#[trigger] cells@[j])@ == TotpBoxView::of_entry(entries@[j]@, now),
            forall|j: int| 0 <= j < i ==> (#[trigger] cells@[j])@.wf(),
            forall|j: int| 0 <= j < i ==> !(#[trigger] cells@[j])@.out_of_date(now),
            forall|j: int| i <= j < kept ==> cells@[j] == before[j],
            changed == (before.len() != n || some_cell_differs(before, entries@, now, i as int)),
        decreases n - i,
    {
        let ghost was = cell_before(before, i as int);
        let ghost entry = entries@[i as int]@;
        assert(entries@[i as int]@.valid());
        if i < cells.len() {
            assert(cells@[i as int] == before[i as int]);
            assert(before[i as int]@.wf());
            if !cells[i].shows(&entries[i]) {
                let fresh = TotpBox::from_entry(&entries[i], now);
                cells.set(i, fresh);
                changed = true;
                assert(cell_differs(was, entry, now));
            } else if cells[i].needs_refresh(now) {
                cells[i].refresh(now);
                changed = true;
                assert(cell_differs(was, entry, now));
                proof {
                    lemma_current_cell_is_cell_of_entry(cells@[i as int]@, entry, now);
                }
            } else {
                assert(!cell_differs(was, entry, now));
                proof {
                    lemma_current_cell_is_cell_of_entry(cells@[i as int]@, entry, now);
                }
            }
        } else {
            let fresh = TotpBox::from_entry(&entries[i], now);
            cells.push(fresh);
            changed = true;
            assert(cell_differs(was, entry, now));
        }
        proof {
            if cell_differs(was, entry, now) {
                assert(some_cell_differs(before, entries@, now, i + 1));
            } else {
                if some_cell_differs(before, entries@, now, i + 1) {
                    let w = choose|w: int|
                        0 <= w < i + 1 && #[trigger] cell_differs(
                            cell_before(before, w),
                            entries@[w]@,
                            now,
                        );
                    assert(w < i);
                    assert(some_cell_differs(before, entries@, now, i as int));
                }
                if some_cell_differs(before, entries@, now, i as int) {
                    let w = choose|w: int|
                        0 <= w < i && #[trigger] cell_differs(
                            cell_before(before, w),
                            entries@[w]@,
                            now,
                        );
                    assert(some_cell_differs(before, entries@, now, i + 1));
                }
            }
        }
        i = i + 1;
    }
    changed
}

/// A time of day, as shown in front of a message.
#[derive(Clone, Copy, Debug)]
pub struct TimeOfDay {
    pub hour: u8,
    pub minute: u8,
    pub second: u8,
}

/// A message with the time of day in front: `[hh:mm:ss] message`.
pub open spec fn stamped(clock: TimeOfDay, message: Seq<char>) -> Seq<char> {
    "["@ + padded_decimal_text(clock.hour as nat, 2) + ":"@ + padded_decimal_text(
        clock.minute as nat,
        2,
    ) + ":"@ + padded_decimal_text(clock.second as nat, 2) + "] "@ + message
}

/// Puts the time of day in front of a message.
pub fn stamp_message(clock: TimeOfDay, message: &str) -> (out: String)
    ensures
        out@ == stamped(clock, message@),
{
    let mut out = "[".to_owned();
    out.append(padded_decimal(clock.hour as u64, 2).as_str());
    out.append(":");
    out.append(padded_decimal(clock.minute as u64, 2).as_str());
    out.append(":");
    out.append(padded_decimal(clock.second as u64, 2).as_str());
    out.append("] ");
    out.append(message);
    out
}

/// The rows and columns of the grid that shows `count` entries.
pub open spec fn grid(count: nat) -> (u8, u8) {
    if count <= 4 {
        (2u8, 2u8)
    } else if count <= 6 {
        (2u8, 3u8)
    } else if count <= 9 {
        (3u8, 3u8)
    } else if count <= 12 {
        (3u8, 4u8)
    } else if count <= 16 {
        (4u8, 4u8)
    } else if count <= 20 {
        (4u8, 5u8)
    } else {
        (4u8, 6u8)
    }
}

/// The grid has a cell for every entry, up to 24 entries, and never more
/// than 24 cells.
pub proof fn lemma_grid_holds_entries(count: nat)
    ensures
        count <= 24 ==> grid(count).0 * grid(count).1 >= count,
        4 <= grid(count).0 * grid(count).1 <= 24,
{
    if count <= 4 {
        assert(grid(count) == (2u8, 2u8));
    } else if count <= 6 {
        assert(grid(count) == (2u8, 3u8));
    } else if count <= 9 {
        assert(grid(count) == (3u8, 3u8));
    } else if count <= 12 {
        assert(grid(count) == (3u8, 4u8));
    } else if count <= 16 {
        assert(grid(count) == (4u8, 4u8));
    } else if count <= 20 {
        assert(grid(count) == (4u8, 5u8));
    } else {
        assert(grid(count) == (4u8, 6u8));
    }
}

/// Why what a load gave cannot be shown, in words: the load failed, or the
/// file has changed and one of its entries is not usable.
pub open spec fn load_failure(loaded: Result<(bool, Vec<ConfigEntry>), Error>) -> Option<Seq<char>> {
    match loaded {
        Err(e) => Some(e.message_text()),
        Ok((changed, fresh)) => if changed {
            match first_invalid(fresh@) {
                Some(position) => Some("Failed to parse secrets: "@ + invalid_detail(position)),
                None => None,
            }
        } else {
            None
        },
    }
}

/// The status line after a load: a failure is reported, a change of the file
/// is announced, and nothing is said otherwise.
pub open spec fn history_after_load(
    history: Seq<Seq<char>>,
    loaded: Result<(bool, Vec<ConfigEntry>), Error>,
    clock: TimeOfDay,
) -> Seq<Seq<char>> {
    match load_failure(loaded) {
        Some(reason) => last_of(
            history.push(stamped(clock, "Error loading secrets file "@ + reason)),
            MAX_MESSAGES as nat,
        ),
        None => if loaded matches Ok((true, _)) {
            last_of(
                history.push(stamped(clock, "Secrets file has changed, reloading"@)),
                MAX_MESSAGES as nat,
            )
        } else {
            history
        },
    }
}

/// The entries shown after a load: the new ones after a change of the file,
/// and the same as before otherwise. A failure changes nothing: the last good
/// list goes on being shown.
pub open spec fn entries_after_load(
    entries: Seq<ConfigEntry>,
    loaded: Result<(bool, Vec<ConfigEntry>), Error>,
) -> Seq<ConfigEntry> {
    match load_failure(loaded) {
        Some(_) => entries,
        None => match loaded {
            Ok((true, fresh)) => fresh@,
            _ => entries,
        },
    }
}

/// What is drawn.
#[derive(Debug)]
pub enum Screen {
    /// The lock screen: a prompt, and one placeholder for each character that
    /// has been typed.
    Locked { prompt: String, masked: String },
    /// The codes: the status line and a grid of cells, row by row.
    Normal { message: String, rows: u8, columns: u8, cells: Vec<CellFace> },
}

/// What the display does next after a key press.
#[derive(Debug)]
pub enum KeyOutcome {
    /// The key press has been handled.
    Done(KeyboardAction),
    /// This code is to be put on the clipboard; `clipboard_action` says what
    /// to report afterwards.
    Copy(String),
}

/// What is reported after a code was offered to the clipboard.
pub fn clipboard_action(result: Result<(), String>) -> (action: KeyboardAction)
    ensures
        match result {
            Ok(()) => action matches KeyboardAction::Message(text) && text@
                == "Copied to clipboard"@,
            Err(e) => action matches KeyboardAction::ErrorMessage(text) && text@
                == "Failed to copy to clipboard "@ + e@,
        },
{
    match result {
        Ok(()) => KeyboardAction::Message("Copied to clipboard".to_owned()),
        Err(e) => KeyboardAction::ErrorMessage(join_text("Failed to copy to clipboard ", e.as_str())),
    }
}

/// The interactive display.
#[derive(Debug)]
pub struct App {
    pub totps: Vec<TotpBox>,
    pub state: State,
    secrets: Vec<ConfigEntry>,
    messages: Messages,
}

impl App {
    /// The cells.
    pub closed spec fn cells(&self) -> Seq<TotpBox> {
        self.totps@
    }

    /// The lock state.
    pub closed spec fn lock_state(&self) -> LockView {
        self.state@
    }

    /// How digits are drawn.
    pub closed spec fn style(&self) -> NumberStyle {
        self.state.number_style
    }

    /// The entries that are shown.
    pub closed spec fn entries(&self) -> Seq<ConfigEntry> {
        self.secrets@
    }

    /// The status line's messages, oldest first.
    pub closed spec fn history(&self) -> Seq<Seq<char>> {
        self.messages.texts()
    }

    /// Every cell is well formed and every entry usable.
    pub open spec fn wf(&self) -> bool {
        cells_wf(self.cells()) && entries_valid(self.entries())
    }

    /// A display without entries or messages.
    pub fn new(state: State) -> (app: App)
        ensures
            app.cells() == Seq::<TotpBox>::empty(),
            app.entries() == Seq::<ConfigEntry>::empty(),
            app.history() == Seq::<Seq<char>>::empty(),
            app.lock_state() == state@,
            app.style() == state.number_style,
            app.wf(),
    {
        App { totps: Vec::new(), state, secrets: Vec::new(), messages: Messages::new() }
    }

    /// Adds a message to the status line, with the time of day in front.
    pub fn add_message(&mut self, message: String, clock: TimeOfDay)
        ensures
            final(self).history() == last_of(
                old(self).history().push(stamped(clock, message@)),
                MAX_MESSAGES as nat,
            ),
            final(self).cells() == old(self).cells(),
            final(self).entries() == old(self).entries(),
            final(self).lock_state() == old(self).lock_state(),
            final(self).style() == old(self).style(),
    {
        self.messages.push(stamp_message(clock, message.as_str()));
    }

    /// The latest message of the status line; empty where there is none.
    pub fn status(&self) -> (text: String)
        ensures
            text@ == if self.history().len() == 0 {
                Seq::<char>::empty()
            } else {
                self.history().last()
            },
    {
        self.messages.last()
    }

    /// Whether the display is locked.
    pub fn is_locked(&self) -> (answer: bool)
        ensures
            answer == self.lock_state().locked(),
    {
        self.state.is_locked()
    }

    /// Opens the display as of `now`.
    pub fn unlock(&mut self, now: u64)
        ensures
            final(self).lock_state() == old(self).lock_state().unlock(now),
            final(self).cells() == old(self).cells(),
            final(self).entries() == old(self).entries(),
            final(self).history() == old(self).history(),
            final(self).style() == old(self).style(),
    {
        self.state.unlock(now);
    }

    /// Locks the display and forgets what was typed.
    pub fn lock(&mut self)
        ensures
            final(self).lock_state() == old(self).lock_state().lock(),
            final(self).cells() == old(self).cells(),
            final(self).entries() == old(self).entries(),
            final(self).history() == old(self).history(),
            final(self).style() == old(self).style(),
    {
        self.state.lock();
    }

    /// The rows and columns of the grid for the entries that are shown.
    pub fn get_rows_and_columns(&self) -> (size: (u8, u8))
        ensures
            size == grid(self.entries().len()),
    {
        let n = self.secrets.len();
        if n <= 4 {
            (2, 2)
        } else if n <= 6 {
            (2, 3)
        } else if n <= 9 {
            (3, 3)
        } else if n <= 12 {
            (3, 4)
        } else if n <= 16 {
            (4, 4)
        } else if n <= 20 {
            (4, 5)
        } else {
            (4, 6)
        }
    }

    /// Takes in what a load of the store gave, then makes the cells show the
    /// entries and brings them up to date at `now`. After a failed load, or
    /// a changed file with an entry that is not usable, the failure is
    /// reported and the last good entries go on being shown; after a change
    /// of the file the new entries are shown and the change is announced.
    /// Returns whether the file has changed or any cell was added, removed,
    /// made anew or brought up to date.
    pub fn update_totps(
        &mut self,
        loaded: Result<(bool, Vec<ConfigEntry>), Error>,
        now: u64,
        clock: TimeOfDay,
    ) -> (changed: bool)
        requires
            old(self).wf(),
            now <= LAST_MOMENT,
        ensures
            final(self).wf(),
            final(self).entries() == entries_after_load(old(self).entries(), loaded),
            final(self).history() == history_after_load(old(self).history(), loaded, clock),
            final(self).lock_state() == old(self).lock_state(),
            final(self).style() == old(self).style(),
            final(self).cells().len() == final(self).entries().len(),
            forall|i: int|
                0 <= i < final(self).entries().len() ==> (#[trigger] final(self).cells()[i])@
                    == TotpBoxView::of_entry(final(self).entries()[i]@, now),
            forall|i: int|
                0 <= i < final(self).entries().len() ==> !(#[trigger] final(
                    self
                ).cells()[i])@.out_of_date(now),
            changed == ((loaded matches Ok((true, _))) || old(self).cells().len() != final(
                self
            ).entries().len() || some_cell_differs(
                old(self).cells(),
                final(self).entries(),
                now,
                final(self).entries().len() as int,
            )),
    {
        let mut has_changed = false;
        let settled = match loaded {
            Err(err) => Err(err),
            Ok((changed, entries)) => {
                has_changed = changed;
                if changed {
                    proof {
                        lemma_first_invalid(entries@);
                    }
                    match validate_entries(entries) {
                        Ok(usable) => Ok(Some(usable)),
                        Err(err) => Err(err),
                    }
                } else {
                    Ok(None)
                }
            },
        };
        match settled {
            Err(err) => {
                let text = join_text("Error loading secrets file ", err.message().as_str());
                self.add_message(text, clock);
            },
            Ok(Some(entries)) => {
                self.secrets = entries;
                self.add_message("Secrets file has changed, reloading".to_owned(), clock);
            },
            Ok(None) => {},
        }
        let cells_changed = sync_cells(&mut self.totps, &self.secrets, now);
        has_changed || cells_changed
    }

    /// Decides what is drawn at `now`. The display first locks where that is
    /// due. A locked display shows the lock screen and nothing of the codes:
    /// without a password the invitation to press a key, with one the prompt
    /// and one `*` for each character typed. An open display shows the
    /// latest message and, row by row, one cell for every place of the grid.
    pub fn render(&mut self, now: u64) -> (screen: Screen)
        ensures
            final(self).lock_state() == old(self).lock_state().tick(now),
            final(self).cells() == old(self).cells(),
            final(self).entries() == old(self).entries(),
            final(self).history() == old(self).history(),
            final(self).style() == old(self).style(),
            match screen {
                Screen::Locked { prompt, masked } => {
                    &&& final(self).lock_state().locked()
                    &&& prompt@ == lock_prompt(final(self).lock_state())
                    &&& masked@ == lock_mask(final(self).lock_state())
                },
                Screen::Normal { message, rows, columns, cells } => {
                    &&& !final(self).lock_state().locked()
                    &&& message@ == if old(self).history().len() == 0 {
                        Seq::<char>::empty()
                    } else {
                        old(self).history().last()
                    }
                    &&& (rows, columns) == grid(old(self).entries().len())
                    &&& cells@.len() == rows * columns
                    &&& forall|i: int|
                        0 <= i < cells@.len() ==> (#[trigger] cells@[i])@ == face_of(
                            cell_before(old(self).cells(), i),
                            i as u8,
                            old(self).style(),
                        )
                },
            },
    {
        if self.state.tick(now) {
            let prompt = if self.state.lock_password.is_none() {
                "Press any key to unlock".to_owned()
            } else {
                "Enter password: ".to_owned()
            };
            let masked = if self.state.lock_password.is_none() {
                String::new()
            } else {
                repeated('*', self.state.buffer.as_str().unicode_len())
            };
            Screen::Locked { prompt, masked }
        } else {
            let (rows, columns) = self.get_rows_and_columns();
            let places: u8 = rows * columns;
            let mut cells: Vec<CellFace> = Vec::new();
            let mut i: u8 = 0;
            while i < places
                invariant
                    i <= places <= 24,
                    cells@.len() == i,
                    forall|j: int|
                        0 <= j < i ==> (#[trigger] cells@[j])@ == face_of(
                            cell_before(self.totps@, j),
                            j as u8,
                            self.state.number_style,
                        ),
                decreases places - i,
            {
                let face = if (i as usize) < self.totps.len() {
                    TotpBox::render(Some(&self.totps[i as usize]), i, self.state.number_style)
                } else {
                    TotpBox::render(None, i, self.state.number_style)
                };
                cells.push(face);
                i = i + 1;
            }
            Screen::Normal { message: self.messages.last(), rows, columns, cells }
        }
    }

    /// Handles a key press at `now`. At the lock screen the key goes to the
    /// lock state and nothing else happens. At the open display `q` leaves,
    /// `l` locks, and a key that selects a cell offers that cell's code to
    /// the clipboard; any other key is reported as not understood.
    pub fn handle_key(&mut self, key: KeyEvent, now: u64) -> (outcome: KeyOutcome)
        ensures
            final(self).cells() == old(self).cells(),
            final(self).entries() == old(self).entries(),
            final(self).history() == old(self).history(),
            final(self).style() == old(self).style(),
            final(self).lock_state() == lock_after_key(old(self).lock_state(), key.code, key.plain, now),
            match key_effect(old(self).lock_state(), old(self).cells(), key.code) {
                KeyEffect::Nothing => outcome matches KeyOutcome::Done(KeyboardAction::NoOp),
                KeyEffect::Quit => outcome matches KeyOutcome::Done(KeyboardAction::Exit(text))
                    && text@ == "Pressed <q>, Quitting"@,
                KeyEffect::Lock => outcome matches KeyOutcome::Done(KeyboardAction::Message(text))
                    && text@ == "Manually locked"@,
                KeyEffect::Copy(token) => outcome matches KeyOutcome::Copy(text) && text@ == token,
                KeyEffect::NoCode => outcome matches KeyOutcome::Done(
                    KeyboardAction::ErrorMessage(text),
                ) && text@ == "This entry has no code: its secret is not valid"@,
                KeyEffect::Unknown => outcome matches KeyOutcome::Done(
                    KeyboardAction::ErrorMessage(text),
                ) && text@ == "Character "@ + key.label@
                    + " could not be mapped to existing TOTP"@,
            },
    {
        if self.state.is_locked() {
            self.state.key_while_locked(key.code, key.plain, now);
            return KeyOutcome::Done(KeyboardAction::NoOp);
        }
        match keyevent_to_char(&key) {
            Some(c) => {
                if c == 'q' {
                    return KeyOutcome::Done(
                        KeyboardAction::Exit("Pressed <q>, Quitting".to_owned()),
                    );
                }
                if c == 'l' {
                    self.state.lock();
                    return KeyOutcome::Done(KeyboardAction::Message("Manually locked".to_owned()));
                }
                match char_to_index(c) {
                    Some(i) => {
                        if i < self.totps.len() {
                            if self.totps[i].has_code() {
                                return KeyOutcome::Copy(self.totps[i].get_token());
                            }
                            return KeyOutcome::Done(
                                KeyboardAction::ErrorMessage(
                                    "This entry has no code: its secret is not valid".to_owned(),
                                ),
                            );
                        }
                    },
                    None => {},
                }
            },
            None => {},
        }
        let mut text = join_text("Character ", key.label.as_str());
        text.append(" could not be mapped to existing TOTP");
        KeyOutcome::Done(KeyboardAction::ErrorMessage(text))
    }

    /// Carries out what a key press led to: a message goes to the status
    /// line, an error with `[E]` in front. Returns the reason to leave the
    /// display where the action is to leave it.
    pub fn apply_action(&mut self, action: KeyboardAction, clock: TimeOfDay) -> (leave: Option<
        String,
    >)
        ensures
            final(self).cells() == old(self).cells(),
            final(self).entries() == old(self).entries(),
            final(self).lock_state() == old(self).lock_state(),
            final(self).style() == old(self).style(),
            match action {
                KeyboardAction::Exit(reason) => leave == Some(reason) && final(self).history()
                    == old(self).history(),
                KeyboardAction::Message(text) => leave is None && final(self).history() == last_of(
                    old(self).history().push(stamped(clock, text@)),
                    MAX_MESSAGES as nat,
                ),
                KeyboardAction::ErrorMessage(text) => leave is None && final(self).history()
                    == last_of(
                    old(self).history().push(stamped(clock, "[E] "@ + text@)),
                    MAX_MESSAGES as nat,
                ),
                KeyboardAction::NoOp => leave is None && final(self).history() == old(
                    self
                ).history(),
            },
    {
        match action {
            KeyboardAction::Exit(reason) => Some(reason),
            KeyboardAction::Message(text) => {
                self.add_message(text, clock);
                None
            },
            KeyboardAction::ErrorMessage(text) => {
                self.add_message(join_text("[E] ", text.as_str()), clock);
                None
            },
            KeyboardAction::NoOp => None,
        }
    }
}

/// The prompt of the lock screen.
pub open spec fn lock_prompt(state: LockView) -> Seq<char> {
    if state.password is None {
        "Press any key to unlock"@
    } else {
        "Enter password: "@
    }
}

/// What the lock screen shows of the typed characters: one `*` for each,
/// where a password is asked for.
pub open spec fn lock_mask(state: LockView) -> Seq<char> {
    if state.password is None {
        Seq::empty()
    } else {
        Seq::new(state.buffer.len(), |i: int| '*')
    }
}

/// The lock state after a key press: at the lock screen the key goes to the
/// lock state; at the open display `l` locks and no other key matters, `q`
/// coming first.
pub open spec fn lock_after_key(state: LockView, code: KeyCode, plain: bool, now: u64) -> LockView {
    if state.locked() {
        state.key(code, plain, now)
    } else if code == KeyCode::Char('l') {
        state.lock()
    } else {
        state
    }
}

/// What a key press leads to besides the lock state.
pub enum KeyEffect {
    Nothing,
    Quit,
    Lock,
    Copy(Seq<char>),
    NoCode,
    Unknown,
}

/// What a key press leads to: nothing at the lock screen; at the open
/// display `q` quits, `l` locks, the key of a cell copies its code.
pub open spec fn key_effect(state: LockView, cells: Seq<TotpBox>, code: KeyCode) -> KeyEffect {
    if state.locked() {
        KeyEffect::Nothing
    } else {
        match code {
            KeyCode::Char(c) => if c == 'q' {
                KeyEffect::Quit
            } else if c == 'l' {
                KeyEffect::Lock
            } else {
                match char_index(c) {
                    Some(i) => if i < cells.len() {
                        match cells[i]@.totp {
                            Some(shown) => KeyEffect::Copy(shown.token),
                            None => KeyEffect::NoCode,
                        }
                    } else {
                        KeyEffect::Unknown
                    },
                    None => KeyEffect::Unknown,
                }
            },
            _ => KeyEffect::Unknown,
        }
    }
}

} // verus!
