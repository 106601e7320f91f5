//! The one-time password engine: from a Base32 secret, a time step, a digit
//! count and a point in time to the code of that time window.

use crate::config::secrets::ConfigEntry;
use crate::error::Error;
use crate::text::{padded_decimal, padded_decimal_text};
use base32::Alphabet;
use hmac::{Hmac, Mac};
use sha1::Sha1;
use vstd::prelude::*;
use vstd::string::StringExecFns;

verus! {

/// The digit count used where an entry names none.
pub const DEFAULT_DIGITS: u8 = 6;

/// The bytes that the Base32 decoder of the `base32` crate gives for `text`
/// under the RFC 4648 alphabet, or `None` where it rejects the text.
pub uninterp spec fn base32_decoded(text: Seq<char>) -> Option<Seq<u8>>;

/// The HMAC-SHA1 tag of `message` under `key`, as the `hmac` and `sha1`
/// crates compute it.
pub uninterp spec fn hmac_sha1_digest(key: Seq<u8>, message: Seq<u8>) -> Seq<u8>;

/// Decodes a Base32 secret into key bytes.
///
/// Trusted: calls `base32::decode` with the RFC 4648 alphabet. The contract
/// only gives the outcome its name: the decoder is a function of the text
/// alone, and returns `None` for text it does not accept.
#[verifier::external_body]
fn decode_secret(secret: &str) -> (key: Option<Vec<u8>>)
    ensures
        match key {
            Some(bytes) => base32_decoded(secret@) == Some(bytes@),
            None => base32_decoded(secret@) is None,
        },
{
    base32::decode(Alphabet::RFC4648 { padding: false }, secret)
}

/// Computes the HMAC-SHA1 tag of `message` under `key`.
///
/// Trusted: calls `Hmac::<Sha1>::new_from_slice`, `update` and `finalize` of
/// the `hmac` crate. Key setup accepts a key of every length, so the call
/// always yields a tag; SHA-1 fixes its length at 20 bytes.
#[verifier::external_body]
fn hmac_sha1(key: &[u8], message: &[u8]) -> (tag: Vec<u8>)
    ensures
        tag@ == hmac_sha1_digest(key@, message@),
        tag@.len() == 20,
{
    let mut mac = Hmac::<Sha1>::new_from_slice(key).unwrap();
    mac.update(message);
    mac.finalize().into_bytes().to_vec()
}

/// The index of the time window that holds `now`.
pub open spec fn counter_at(now: u64, time_step: u64) -> int {
    now as int / time_step as int
}

/// The first second after the time window that holds `now`.
pub open spec fn window_end(now: u64, time_step: u64) -> int {
    (counter_at(now, time_step) + 1) * time_step
}

/// The counter as the eight bytes that are authenticated, most significant
/// byte first.
pub open spec fn counter_message(counter: u64) -> Seq<u8> {
    seq![
        ((counter as int / 0x100_0000_0000_0000) % 256) as u8,
        ((counter as int / 0x1_0000_0000_0000) % 256) as u8,
        ((counter as int / 0x100_0000_0000) % 256) as u8,
        ((counter as int / 0x1_0000_0000) % 256) as u8,
        ((counter as int / 0x100_0000) % 256) as u8,
        ((counter as int / 0x1_0000) % 256) as u8,
        ((counter as int / 0x100) % 256) as u8,
        (counter as int % 256) as u8,
    ]
}

/// Dynamic truncation: the low four bits of the last byte choose where four
/// bytes are read; they form a big-endian number whose top bit is dropped.
pub open spec fn truncated(tag: Seq<u8>) -> int
    recommends
        tag.len() == 20,
{
    let offset = tag[19] as int % 16;
    (tag[offset] as int % 128) * 0x100_0000 + tag[offset + 1] as int * 0x1_0000 + tag[offset
        + 2] as int * 0x100 + tag[offset + 3] as int
}

/// Ten to the power `e`.
pub open spec fn pow10(e: nat) -> nat
    decreases e,
{
    if e == 0 {
        1
    } else {
        10 * pow10((e - 1) as nat)
    }
}

/// The code that a tag stands for: its truncation modulo `10^digits`, in
/// exactly `digits` decimal digits.
pub open spec fn token_of_tag(tag: Seq<u8>, digits: nat) -> Seq<char> {
    padded_decimal_text((truncated(tag) % pow10(digits) as int) as nat, digits)
}

/// The code of window `counter` under the key bytes `key`.
pub open spec fn token_of_key(key: Seq<u8>, counter: u64, digits: nat) -> Seq<char> {
    token_of_tag(hmac_sha1_digest(key, counter_message(counter)), digits)
}

/// What a one-time password holds.
pub struct TotpView {
    pub valid_until: u64,
    pub token: Seq<char>,
    pub counter: u64,
}

/// The one-time password of `secret` at `now`, or `None` where the secret
/// does not decode. This is the whole result of generating a code: it depends
/// on these four values and on nothing else.
pub open spec fn generated(secret: Seq<char>, time_step: u64, digits: u8, now: u64) -> Option<
    TotpView,
> {
    match base32_decoded(secret) {
        None => None,
        Some(key) => Some(
            TotpView {
                valid_until: window_end(now, time_step) as u64,
                token: token_of_key(key, counter_at(now, time_step) as u64, digits as nat),
                counter: counter_at(now, time_step) as u64,
            },
        ),
    }
}

/// The inputs for which a code can be generated: a positive time step, one to
/// nine digits, and a time window whose end is still a `u64`.
pub open spec fn generable(time_step: u64, digits: u8, now: u64) -> bool {
    &&& time_step > 0
    &&& 1 <= digits <= 9
    &&& window_end(now, time_step) <= u64::MAX
}

/// The time window that holds `now` starts at or before `now` and ends after
/// it, and its end is one time step after its start.
pub proof fn lemma_window_holds_now(now: u64, time_step: u64)
    requires
        time_step > 0,
    ensures
        0 <= counter_at(now, time_step) <= now,
        counter_at(now, time_step) * time_step <= now < window_end(now, time_step),
        window_end(now, time_step) == counter_at(now, time_step) * time_step + time_step,
        window_end(now, time_step) <= now + time_step,
{
    let c = counter_at(now, time_step);
    assert(0 <= c <= now && c * time_step <= now < (c + 1) * time_step && (c + 1) * time_step
        == c * time_step + time_step) by (nonlinear_arith)
        requires
            time_step > 0,
            c == now as int / time_step as int,
    ;
}

/// The counter never goes back as time advances.
pub proof fn lemma_counter_monotonic(earlier: u64, later: u64, time_step: u64)
    requires
        time_step > 0,
        earlier <= later,
    ensures
        counter_at(earlier, time_step) <= counter_at(later, time_step),
{
    assert(earlier as int / time_step as int <= later as int / time_step as int)
        by (nonlinear_arith)
        requires
            time_step > 0,
            earlier <= later,
    ;
}

/// A moment lies in window `counter` exactly when it is neither before the
/// window's start nor at or after its end.
pub proof fn lemma_counter_window(now: u64, time_step: u64, counter: int)
    requires
        time_step > 0,
    ensures
        counter_at(now, time_step) == counter <==> counter * time_step <= now < (counter + 1)
            * time_step,
{
    let c = counter_at(now, time_step);
    lemma_window_holds_now(now, time_step);
    if counter * time_step <= now < (counter + 1) * time_step {
        assert(c == counter) by (nonlinear_arith)
            requires
                time_step > 0,
                counter * time_step <= now < (counter + 1) * time_step,
                c * time_step <= now < (c + 1) * time_step,
        ;
    }
}

/// Every power of ten up to the ninth fits a `u32`.
pub proof fn lemma_pow10_bound(e: nat)
    requires
        e <= 9,
    ensures
        1 <= pow10(e) <= 1_000_000_000,
{
    reveal_with_fuel(pow10, 10);
}

/// The index of the time window that holds `timestamp`.
pub fn get_counter(timestamp: u64, time_step: u64) -> (counter: u64)
    requires
        time_step > 0,
    ensures
        counter == counter_at(timestamp, time_step),
{
    timestamp / time_step
}

/// The eight bytes of a counter, most significant first.
pub fn counter_bytes(counter: u64) -> (bytes: Vec<u8>)
    ensures
        bytes@ == counter_message(counter),
{
    let mut bytes: Vec<u8> = Vec::new();
    bytes.push((counter >> 56) as u8);
    bytes.push(((counter >> 48) & 0xff) as u8);
    bytes.push(((counter >> 40) & 0xff) as u8);
    bytes.push(((counter >> 32) & 0xff) as u8);
    bytes.push(((counter >> 24) & 0xff) as u8);
    bytes.push(((counter >> 16) & 0xff) as u8);
    bytes.push(((counter >> 8) & 0xff) as u8);
    bytes.push((counter & 0xff) as u8);
    proof {
        assert(counter >> 56 == (counter / 0x100_0000_0000_0000) % 256) by (bit_vector);
        assert((counter >> 48) & 0xff == (counter / 0x1_0000_0000_0000) % 256) by (bit_vector);
        assert((counter >> 40) & 0xff == (counter / 0x100_0000_0000) % 256) by (bit_vector);
        assert((counter >> 32) & 0xff == (counter / 0x1_0000_0000) % 256) by (bit_vector);
        assert((counter >> 24) & 0xff == (counter / 0x100_0000) % 256) by (bit_vector);
        assert((counter >> 16) & 0xff == (counter / 0x1_0000) % 256) by (bit_vector);
        assert((counter >> 8) & 0xff == (counter / 0x100) % 256) by (bit_vector);
        assert(counter & 0xff == counter % 256) by (bit_vector);
        assert(bytes@ =~= counter_message(counter));
    }
    bytes
}

/// Dynamic truncation of a 20-byte tag to a 31-bit number.
pub fn truncate_tag(tag: &[u8]) -> (value: u32)
    requires
        tag@.len() == 20,
    ensures
        value == truncated(tag@),
        value < 0x8000_0000,
{
    let last: u8 = tag[19];
    let offset: usize = (last & 0x0f) as usize;
    assert(last & 0x0f == last % 16 && last & 0x0f < 16) by (bit_vector);
    let b0: u32 = tag[offset] as u32;
    let b1: u32 = tag[offset + 1] as u32;
    let b2: u32 = tag[offset + 2] as u32;
    let b3: u32 = tag[offset + 3] as u32;
    let value: u32 = ((b0 & 0x7f) << 24) | (b1 << 16) | (b2 << 8) | b3;
    assert(value == (b0 % 128) * 0x100_0000 + b1 * 0x1_0000 + b2 * 0x100 + b3 && value
        < 0x8000_0000) by (bit_vector)
        requires
            value == ((b0 & 0x7f) << 24) | (b1 << 16) | (b2 << 8) | b3,
            b0 < 256,
            b1 < 256,
            b2 < 256,
            b3 < 256,
    ;
    value
}

/// Ten to the power `digits`, for up to nine digits.
pub fn power_of_ten(digits: u8) -> (modulus: u32)
    requires
        digits <= 9,
    ensures
        modulus == pow10(digits as nat),
        modulus >= 1,
{
    let mut modulus: u32 = 1;
    let mut i: u8 = 0;
    while i < digits
        invariant
            i <= digits <= 9,
            modulus == pow10(i as nat),
        decreases digits - i,
    {
        proof {
            lemma_pow10_bound((i + 1) as nat);
        }
        modulus = modulus * 10;
        i = i + 1;
    }
    proof {
        lemma_pow10_bound(digits as nat);
    }
    modulus
}

/// The code that a 20-byte tag stands for, in exactly `digits` digits.
pub fn token_from_tag(tag: &[u8], digits: u8) -> (token: String)
    requires
        tag@.len() == 20,
        1 <= digits <= 9,
    ensures
        token@ == token_of_tag(tag@, digits as nat),
        token@.len() == digits,
{
    let value = truncate_tag(tag);
    let modulus = power_of_ten(digits);
    padded_decimal((value % modulus) as u64, digits as usize)
}

/// The code of window `counter` under the key bytes `key`, in exactly
/// `digits` digits.
pub fn token_for_counter(key: &[u8], counter: u64, digits: u8) -> (token: String)
    requires
        1 <= digits <= 9,
    ensures
        token@ == token_of_key(key@, counter, digits as nat),
        token@.len() == digits,
{
    let message = counter_bytes(counter);
    let tag = hmac_sha1(key, message.as_slice());
    token_from_tag(tag.as_slice(), digits)
}

/// Generates the code of the time window that holds `timestamp`, and returns
/// it with the window's end and its counter. Without a digit count the code
/// has six digits. Fails with `InvalidSecret` exactly when the secret does not
/// decode.
pub fn generate_totp(secret: &str, time_step: u64, digits: Option<u8>, timestamp: u64) -> (result:
    Result<(String, u64, u64), Error>)
    requires
        generable(
            time_step,
            match digits {
                Some(d) => d,
                None => DEFAULT_DIGITS,
            },
            timestamp,
        ),
    ensures
        generates(secret@, time_step, digits, timestamp, result),
        result matches Ok((token, valid_until, counter)) ==> {
            &&& token@.len() == match digits {
                Some(d) => d,
                None => DEFAULT_DIGITS,
            }
            &&& counter * time_step <= timestamp < valid_until
            &&& valid_until == (counter + 1) * time_step
        },
{
    let digits: u8 = match digits {
        Some(d) => d,
        None => DEFAULT_DIGITS,
    };
    match decode_secret(secret) {
        None => Err(Error::InvalidSecret),
        Some(key) => {
            proof {
                lemma_window_holds_now(timestamp, time_step);
            }
            let counter = get_counter(timestamp, time_step);
            let valid_until = (counter + 1) * time_step;
            let token = token_for_counter(key.as_slice(), counter, digits);
            Ok((token, valid_until, counter))
        },
    }
}

/// Whether a code of window `counter` is out of date at `now`: the window
/// that holds `now` is another one.
pub open spec fn stale(counter: u64, time_step: u64, now: u64) -> bool {
    counter_at(now, time_step) != counter
}

/// What a result of generating holds, as plain values: the code with its end
/// of validity and its counter, or nothing where generating failed.
pub open spec fn outcome_view(result: Result<(String, u64, u64), Error>) -> Option<TotpView> {
    match result {
        Ok((token, valid_until, counter)) => Some(
            TotpView { valid_until, token: token@, counter },
        ),
        Err(_) => None,
    }
}

/// Whether `result` is what generating gives for a secret, a time step, a
/// digit count and a time: the code that these four values determine, and
/// `InvalidSecret` exactly where the secret does not decode.
pub open spec fn generates(
    secret: Seq<char>,
    time_step: u64,
    digits: Option<u8>,
    timestamp: u64,
    result: Result<(String, u64, u64), Error>,
) -> bool {
    let digits = match digits {
        Some(d) => d,
        None => DEFAULT_DIGITS,
    };
    match result {
        Ok(_) => generated(secret, time_step, digits, timestamp) == outcome_view(result),
        Err(e) => e is InvalidSecret && base32_decoded(secret) is None,
    }
}

/// Generating is a function of the secret, the time step, the digit count and
/// the time alone: any two results of generating for the same four values
/// hold the same code, end of validity and counter, or are the same failure.
/// No clock, no state and no chance enters.
pub proof fn lemma_generate_pure(
    secret: Seq<char>,
    time_step: u64,
    digits: Option<u8>,
    timestamp: u64,
    first: Result<(String, u64, u64), Error>,
    second: Result<(String, u64, u64), Error>,
)
    requires
        generates(secret, time_step, digits, timestamp, first),
        generates(secret, time_step, digits, timestamp, second),
    ensures
        outcome_view(first) == outcome_view(second),
        first is Err <==> second is Err,
        first is Err ==> first == second,
{
}

/// A generated code names the window that holds its time: the window starts
/// at or before that time, ends after it, and is one time step long.
pub proof fn lemma_generated_window(secret: Seq<char>, time_step: u64, digits: u8, now: u64)
    requires
        generable(time_step, digits, now),
        generated(secret, time_step, digits, now) is Some,
    ensures
        ({
            let code = generated(secret, time_step, digits, now)->Some_0;
            &&& code.counter * time_step <= now < code.valid_until
            &&& code.valid_until == (code.counter + 1) * time_step
            &&& code.token.len() == digits
        }),
{
    lemma_window_holds_now(now, time_step);
    crate::text::lemma_padded_decimal_len(
        (truncated(
            hmac_sha1_digest(
                base32_decoded(secret)->Some_0,
                counter_message(counter_at(now, time_step) as u64),
            ),
        ) % pow10(digits as nat) as int) as nat,
        digits as nat,
    );
}

/// A code stays fresh at every moment of its own window and is out of date
/// from the window's end on, and before the window's start.
pub proof fn lemma_stale_outside_window(counter: u64, time_step: u64, now: u64)
    requires
        time_step > 0,
    ensures
        counter * time_step <= now < (counter + 1) * time_step ==> !stale(counter, time_step, now),
        now >= (counter + 1) * time_step ==> stale(counter, time_step, now),
        now < counter * time_step ==> stale(counter, time_step, now),
{
    lemma_counter_window(now, time_step, counter as int);
}

/// A one-time password: the code, the first second at which it is no longer
/// valid, and the counter of its time window.
#[derive(Debug)]
pub struct Totp {
    pub valid_until: u64,
    pub token: String,
    pub counter: u64,
}

impl View for Totp {
    type V = TotpView;

    open spec fn view(&self) -> TotpView {
        TotpView { valid_until: self.valid_until, token: self.token@, counter: self.counter }
    }
}

impl Totp {
    /// The code of `secret` for the time window that holds `now`. Fails with
    /// `InvalidSecret` exactly when the secret does not decode.
    pub fn new(secret: &str, time_step: u64, digits: Option<u8>, now: u64) -> (result: Result<
        Totp,
        Error,
    >)
        requires
            generable(
                time_step,
                match digits {
                    Some(d) => d,
                    None => DEFAULT_DIGITS,
                },
                now,
            ),
        ensures
            match result {
                Ok(code) => generated(
                    secret@,
                    time_step,
                    match digits {
                        Some(d) => d,
                        None => DEFAULT_DIGITS,
                    },
                    now,
                ) == Some(code@),
                Err(e) => e is InvalidSecret && base32_decoded(secret@) is None,
            },
    {
        match generate_totp(secret, time_step, digits, now) {
            Ok((token, valid_until, counter)) => Ok(Totp { valid_until, token, counter }),
            Err(e) => Err(e),
        }
    }

    /// The seconds from `now` to the end of validity, cut to 16 bits.
    pub fn valid_duration(&self, now: u64) -> (seconds: u16)
        requires
            now <= self.valid_until,
        ensures
            seconds == (self.valid_until - now) % 0x1_0000,
    {
        let left: u64 = self.valid_until - now;
        assert((left & 0xffff) == left % 0x1_0000) by (bit_vector);
        (left & 0xffff) as u16
    }

    /// Whether the time window has moved on since this code was generated.
    /// The answer compares counters, not `now` with the end of validity, so
    /// it is the same just before and just after a boundary is computed.
    pub fn needs_refresh(&self, time_step: u64, now: u64) -> (answer: bool)
        requires
            time_step > 0,
        ensures
            answer == stale(self.counter, time_step, now),
    {
        get_counter(now, time_step) != self.counter
    }

    /// Replaces this code by the one for the window that holds `now`. Where
    /// the secret does not decode the code stays as it was.
    pub fn refresh(&mut self, secret: &str, time_step: u64, digits: Option<u8>, now: u64) -> (result:
        Result<(), Error>)
        requires
            generable(
                time_step,
                match digits {
                    Some(d) => d,
                    None => DEFAULT_DIGITS,
                },
                now,
            ),
        ensures
            match result {
                Ok(()) => generated(
                    secret@,
                    time_step,
                    match digits {
                        Some(d) => d,
                        None => DEFAULT_DIGITS,
                    },
                    now,
                ) == Some(final(self)@),
                Err(e) => e is InvalidSecret && base32_decoded(secret@) is None && *final(self)
                    == *old(self),
            },
    {
        match generate_totp(secret, time_step, digits, now) {
            Ok((token, valid_until, counter)) => {
                self.token = token;
                self.valid_until = valid_until;
                self.counter = counter;
                Ok(())
            },
            Err(e) => Err(e),
        }
    }

    /// The code and its end of validity as `<code> @ <seconds>`.
    pub fn to_text(&self) -> (out: String)
        ensures
            out@ == self.token@ + " @ "@ + crate::text::decimal_text(self.valid_until as nat),
    {
        let mut out = crate::text::join_text(self.token.as_str(), " @ ");
        let end = crate::text::decimal(self.valid_until);
        out.append(end.as_str());
        out
    }
}

/// The latest moment for which every entry has a time window that ends within
/// a `u64`: a time step is at most 65535 seconds.
pub const LAST_MOMENT: u64 = 0xffff_ffff_ffff_0000;

/// A moment up to `LAST_MOMENT` can be served for every valid time step.
pub proof fn lemma_timely_is_generable(time_step: u16, digits: u8, now: u64)
    requires
        time_step > 0,
        1 <= digits <= 9,
        now <= LAST_MOMENT,
    ensures
        generable(time_step as u64, digits, now),
{
    lemma_window_holds_now(now, time_step as u64);
}

/// The code of an entry at `now`. Fails with `InvalidSecret` exactly when the
/// entry's secret does not decode.
pub fn entry_totp(entry: &ConfigEntry, now: u64) -> (result: Result<Totp, Error>)
    requires
        entry@.valid(),
        now <= LAST_MOMENT,
    ensures
        match result {
            Ok(code) => generated(entry.secret@, entry.timestep as u64, entry.digits, now) == Some(
                code@,
            ),
            Err(e) => e is InvalidSecret && base32_decoded(entry.secret@) is None,
        },
{
    proof {
        lemma_timely_is_generable(entry.timestep, entry.digits, now);
    }
    Totp::new(entry.secret.as_str(), entry.timestep as u64, Some(entry.digits), now)
}

} // verus!
