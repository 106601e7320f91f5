//! One cell of the interactive display: an entry with its current code and
//! the seconds for which the code is still valid.

use crate::config::configuration::NumberStyle;
use crate::config::secrets::ConfigEntry;
use crate::output::cui::input::keyboard::{index_char, index_to_char};
use crate::output::cui::numbers::lite::{lite_line, render_lite_number_lines};
use crate::output::cui::numbers::pipe::{big_number_font, pipe_line};
use crate::output::cui::numbers::utf8::{utf8_font, utf8_line};
use crate::text::{decimal, decimal_text, join_text, push_char};
use crate::totp::{
    base32_decoded, entry_totp, generated, stale, token_of_key, Totp, TotpView, LAST_MOMENT,
};
use vstd::prelude::*;
use vstd::string::{StrSliceExecFns, StringExecFns};

verus! {

/// What a cell holds.
pub struct TotpBoxView {
    /// The current code; none where the secret does not decode.
    pub totp: Option<TotpView>,
    pub name: Seq<char>,
    pub code: Seq<char>,
    pub secret: Seq<char>,
    pub digits: u8,
    pub timestep: u16,
    pub valid_duration_seconds: u16,
}

impl TotpBoxView {
    /// The seconds from `now` to the end of the code's validity, cut to 16
    /// bits; zero where there is no code.
    pub open spec fn seconds_left(self, now: u64) -> int {
        match self.totp {
            Some(code) => (code.valid_until - now) % 0x1_0000,
            None => 0,
        }
    }

    /// Whether the cell is out of date at `now`: the time window has moved
    /// on, or the seconds shown are no longer the seconds left.
    pub open spec fn out_of_date(self, now: u64) -> bool {
        match self.totp {
            Some(code) => stale(code.counter, self.timestep as u64, now)
                || self.valid_duration_seconds != self.seconds_left(now),
            None => false,
        }
    }

    /// The cell's parameters are usable, and its code, if any, is a code of
    /// its secret for a whole time window.
    pub open spec fn wf(self) -> bool {
        &&& self.timestep > 0
        &&& 1 <= self.digits <= 9
        &&& self.totp is Some <==> base32_decoded(self.secret) is Some
        &&& self.totp is None ==> self.valid_duration_seconds == 0
        &&& self.totp matches Some(code) ==> {
            &&& code.valid_until == (code.counter + 1) * self.timestep
            &&& code.token == token_of_key(
                base32_decoded(self.secret)->Some_0,
                code.counter,
                self.digits as nat,
            )
        }
    }

    /// Whether the cell shows `entry`: its name, handle, secret, time step and
    /// digit count are the entry's.
    pub open spec fn shows(self, entry: crate::config::secrets::ConfigEntryView) -> bool {
        &&& self.name == entry.name
        &&& self.code == entry.handle
        &&& self.secret == entry.secret
        &&& self.timestep == entry.timestep
        &&& self.digits == entry.digits
    }

    /// The cell of `entry` as it is made at `now`.
    pub open spec fn of_entry(entry: crate::config::secrets::ConfigEntryView, now: u64) -> TotpBoxView {
        let totp = generated(entry.secret, entry.timestep as u64, entry.digits, now);
        let fresh = TotpBoxView {
            totp,
            name: entry.name,
            code: entry.handle,
            secret: entry.secret,
            digits: entry.digits,
            timestep: entry.timestep,
            valid_duration_seconds: 0,
        };
        TotpBoxView { valid_duration_seconds: fresh.seconds_left(now) as u16, ..fresh }
    }

    /// The cell brought up to date at `now`: a new code where the time window
    /// has moved on, and the seconds left.
    pub open spec fn refreshed(self, now: u64) -> TotpBoxView {
        match self.totp {
            None => self,
            Some(code) => {
                let totp = if stale(code.counter, self.timestep as u64, now) {
                    generated(self.secret, self.timestep as u64, self.digits, now)
                } else {
                    self.totp
                };
                let current = TotpBoxView { totp, ..self };
                TotpBoxView { valid_duration_seconds: current.seconds_left(now) as u16, ..current }
            },
        }
    }
}

/// A well-formed cell that shows an entry and is up to date at `now` is the
/// cell of that entry as it is made at `now`: it holds the entry's fields,
/// the code that the entry's secret generates at `now`, and the seconds left.
pub proof fn lemma_current_cell_is_cell_of_entry(
    cell: TotpBoxView,
    entry: crate::config::secrets::ConfigEntryView,
    now: u64,
)
    requires
        cell.wf(),
        cell.shows(entry),
        !cell.out_of_date(now),
    ensures
        cell == TotpBoxView::of_entry(entry, now),
{
    let made = generated(entry.secret, entry.timestep as u64, entry.digits, now);
    match cell.totp {
        None => {
            assert(made is None);
        },
        Some(code) => {
            assert(code.counter == crate::totp::counter_at(now, entry.timestep as u64));
            assert(crate::totp::window_end(now, entry.timestep as u64) == code.valid_until);
            assert(made == Some(code));
        },
    }
}

/// A cell of the display.
#[derive(Debug)]
pub struct TotpBox {
    totp: Option<Totp>,
    pub name: String,
    pub code: String,
    secret: String,
    pub digits: u8,
    pub timestep: u16,
    pub valid_duration_seconds: u16,
}

impl View for TotpBox {
    type V = TotpBoxView;

    closed spec fn view(&self) -> TotpBoxView {
        TotpBoxView {
            totp: match self.totp {
                Some(code) => Some(code@),
                None => None,
            },
            name: self.name@,
            code: self.code@,
            secret: self.secret@,
            digits: self.digits,
            timestep: self.timestep,
            valid_duration_seconds: self.valid_duration_seconds,
        }
    }
}

impl TotpBox {
    /// The cell of `entry` with its code at `now`. Where the entry's secret
    /// does not decode the cell has no code.
    pub fn from_entry(entry: &ConfigEntry, now: u64) -> (cell: TotpBox)
        requires
            entry@.valid(),
            now <= LAST_MOMENT,
        ensures
            cell@ == TotpBoxView::of_entry(entry@, now),
            cell@.wf(),
            !cell@.out_of_date(now),
    {
        proof {
            crate::totp::lemma_timely_is_generable(entry.timestep, entry.digits, now);
            if generated(entry.secret@, entry.timestep as u64, entry.digits, now) is Some {
                crate::totp::lemma_generated_window(
                    entry.secret@,
                    entry.timestep as u64,
                    entry.digits,
                    now,
                );
            }
        }
        let (totp, seconds) = match entry_totp(entry, now) {
            Ok(code) => {
                let seconds = code.valid_duration(now);
                (Some(code), seconds)
            },
            Err(_) => (None, 0),
        };
        TotpBox {
            name: entry.name.clone(),
            code: entry.handle.clone(),
            digits: entry.digits,
            secret: entry.secret.clone(),
            timestep: entry.timestep,
            valid_duration_seconds: seconds,
            totp,
        }
    }

    /// Whether the cell shows `entry`: its name, handle, secret, time step and
    /// digit count are the entry's.
    pub fn shows(&self, entry: &ConfigEntry) -> (answer: bool)
        ensures
            answer == self@.shows(entry@),
    {
        self.name == entry.name && self.code == entry.handle && self.secret == entry.secret
            && self.timestep == entry.timestep && self.digits == entry.digits
    }

    /// Whether the cell has a code.
    pub fn has_code(&self) -> (answer: bool)
        ensures
            answer == self@.totp is Some,
    {
        self.totp.is_some()
    }

    /// The seconds from `now` to the end of the code's validity; zero where
    /// there is no code.
    pub fn valid_duration(&self, now: u64) -> (seconds: u16)
        requires
            self@.totp matches Some(code) ==> now <= code.valid_until,
        ensures
            seconds == self@.seconds_left(now),
    {
        match &self.totp {
            Some(code) => code.valid_duration(now),
            None => 0,
        }
    }

    /// The current code; the empty text where there is none.
    pub fn get_token(&self) -> (token: String)
        ensures
            token@ == match self@.totp {
                Some(code) => code.token,
                None => Seq::<char>::empty(),
            },
    {
        match &self.totp {
            Some(code) => code.token.clone(),
            None => String::new(),
        }
    }

    /// Whether the cell is out of date at `now`.
    pub fn needs_refresh(&self, now: u64) -> (answer: bool)
        requires
            self@.wf(),
        ensures
            answer == self@.out_of_date(now),
    {
        match &self.totp {
            Some(code) => {
                if code.needs_refresh(self.timestep as u64, now) {
                    true
                } else {
                    proof {
                        crate::totp::lemma_counter_window(
                            now,
                            self.timestep as u64,
                            code.counter as int,
                        );
                    }
                    self.valid_duration_seconds != code.valid_duration(now)
                }
            },
            None => false,
        }
    }

    /// Brings the cell up to date at `now`: where the time window has moved
    /// on the code is generated anew, and the seconds shown become the
    /// seconds left. A cell without a code stays as it is.
    pub fn refresh(&mut self, now: u64)
        requires
            old(self)@.wf(),
            now <= LAST_MOMENT,
        ensures
            final(self)@ == old(self)@.refreshed(now),
            final(self)@.wf(),
            !final(self)@.out_of_date(now),
    {
        proof {
            crate::totp::lemma_timely_is_generable(self.timestep, self.digits, now);
            if generated(self.secret@, self.timestep as u64, self.digits, now) is Some {
                crate::totp::lemma_generated_window(
                    self.secret@,
                    self.timestep as u64,
                    self.digits,
                    now,
                );
            }
        }
        match self.totp.take() {
            Some(mut code) => {
                if code.needs_refresh(self.timestep as u64, now) {
                    let _ = code.refresh(
                        self.secret.as_str(),
                        self.timestep as u64,
                        Some(self.digits),
                        now,
                    );
                } else {
                    proof {
                        crate::totp::lemma_counter_window(
                            now,
                            self.timestep as u64,
                            code.counter as int,
                        );
                    }
                }
                self.valid_duration_seconds = code.valid_duration(now);
                self.totp = Some(code);
            },
            None => {},
        }
    }
}

/// What a cell of the display shows.
#[derive(Debug)]
pub struct CellFace {
    /// The key that selects the cell, between blanks; empty for a cell
    /// without an entry.
    pub index_label: String,
    /// The entry's handle, between blanks; empty where there is none.
    pub handle_label: String,
    /// The entry's name.
    pub name: String,
    /// The lines of the code in the chosen style, or `N/A`.
    pub content: Vec<String>,
    /// The seconds for which the code is still valid.
    pub seconds_left: u16,
    /// The length of the time window, to which the seconds left are in
    /// proportion.
    pub timestep: u16,
    /// The seconds left as a label, such as `23s`; empty for a cell without
    /// an entry.
    pub gauge_label: String,
}

/// What a shown cell holds.
pub struct CellFaceView {
    pub index_label: Seq<char>,
    pub handle_label: Seq<char>,
    pub name: Seq<char>,
    pub content: Seq<Seq<char>>,
    pub seconds_left: u16,
    pub timestep: u16,
    pub gauge_label: Seq<char>,
}

impl View for CellFace {
    type V = CellFaceView;

    open spec fn view(&self) -> CellFaceView {
        CellFaceView {
            index_label: self.index_label@,
            handle_label: self.handle_label@,
            name: self.name@,
            content: self.content@.map_values(|line: String| line@),
            seconds_left: self.seconds_left,
            timestep: self.timestep,
            gauge_label: self.gauge_label@,
        }
    }
}

/// The lines that show `token` in a style.
pub open spec fn styled_lines(token: Seq<char>, style: NumberStyle) -> Seq<Seq<char>> {
    match style {
        NumberStyle::Standard => seq![token],
        NumberStyle::Utf8 => Seq::new(5, |row: int| utf8_line(token, row)),
        NumberStyle::Pipe => Seq::new(3, |row: int| pipe_line(token, row)),
        NumberStyle::Lite => Seq::new(6, |row: int| lite_line(token, row)),
    }
}

/// A text between two blanks.
pub open spec fn spaced(text: Seq<char>) -> Seq<char> {
    " "@ + text + " "@
}

/// What the cell at position `index` shows: of a cell without an entry only
/// `N/A`; of an entry its selecting key, handle and name, its code in the
/// chosen style, or `N/A` where it has none, and the seconds left.
pub open spec fn face_of(cell: Option<TotpBoxView>, index: u8, style: NumberStyle) -> CellFaceView {
    match cell {
        None => CellFaceView {
            index_label: Seq::empty(),
            handle_label: Seq::empty(),
            name: Seq::empty(),
            content: seq!["N/A"@],
            seconds_left: 0,
            timestep: 0,
            gauge_label: Seq::empty(),
        },
        Some(shown) => CellFaceView {
            index_label: match index_char(index as int) {
                Some(key) => spaced(seq![key]),
                None => Seq::empty(),
            },
            handle_label: if shown.code.len() == 0 {
                Seq::empty()
            } else {
                spaced(shown.code)
            },
            name: shown.name,
            content: match shown.totp {
                Some(code) => styled_lines(code.token, style),
                None => seq!["N/A"@],
            },
            seconds_left: shown.valid_duration_seconds,
            timestep: shown.timestep,
            gauge_label: decimal_text(shown.valid_duration_seconds as nat) + "s"@,
        },
    }
}

/// The lines that show `token` in a style.
pub fn style_token(token: &str, style: NumberStyle) -> (lines: Vec<String>)
    ensures
        lines@.map_values(|line: String| line@) == styled_lines(token@, style),
{
    let lines = match style {
        NumberStyle::Standard => {
            let mut lines: Vec<String> = Vec::new();
            lines.push(token.to_owned());
            lines
        },
        NumberStyle::Utf8 => utf8_font(token),
        NumberStyle::Pipe => big_number_font(token),
        NumberStyle::Lite => render_lite_number_lines(token),
    };
    assert(lines@.map_values(|line: String| line@) =~= styled_lines(token@, style));
    lines
}

impl TotpBox {
    /// What the cell at position `index` shows in the given style; `None`
    /// stands for a cell of the grid that has no entry.
    pub fn render(totp_box: Option<&TotpBox>, index: u8, number_style: NumberStyle) -> (face:
        CellFace)
        ensures
            face@ == face_of(
                match totp_box {
                    Some(cell) => Some(cell@),
                    None => None,
                },
                index,
                number_style,
            ),
    {
        match totp_box {
            None => {
                let mut content: Vec<String> = Vec::new();
                content.push("N/A".to_owned());
                let face = CellFace {
                    index_label: String::new(),
                    handle_label: String::new(),
                    name: String::new(),
                    content,
                    seconds_left: 0,
                    timestep: 0,
                    gauge_label: String::new(),
                };
                assert(face@.content =~= seq!["N/A"@]);
                face
            },
            Some(cell) => {
                let index_label = match index_to_char(index) {
                    Some(key) => {
                        let mut label = " ".to_owned();
                        push_char(&mut label, key);
                        label.append(" ");
                        assert(label@ =~= spaced(seq![key]));
                        label
                    },
                    None => String::new(),
                };
                let handle_label = if cell.code.as_str().unicode_len() == 0 {
                    String::new()
                } else {
                    let mut label = join_text(" ", cell.code.as_str());
                    label.append(" ");
                    label
                };
                let content = match &cell.totp {
                    Some(code) => style_token(code.token.as_str(), number_style),
                    None => {
                        let mut content: Vec<String> = Vec::new();
                        content.push("N/A".to_owned());
                        assert(content@.map_values(|line: String| line@) =~= seq!["N/A"@]);
                        content
                    },
                };
                let mut gauge_label = decimal(cell.valid_duration_seconds as u64);
                gauge_label.append("s");
                CellFace {
                    index_label,
                    handle_label,
                    name: cell.name.clone(),
                    content,
                    seconds_left: cell.valid_duration_seconds,
                    timestep: cell.timestep,
                    gauge_label,
                }
            },
        }
    }
}

} // verus!
