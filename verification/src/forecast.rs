//! When the session window would be used up at the present pace, and how the characters put it.

use crate::language::LanguageId;
use crate::phrases::chinese;
use crate::phrases::dutch;
use crate::phrases::english;
use crate::phrases::french;
use crate::phrases::german;
use crate::phrases::japanese;
use crate::phrases::korean;
use crate::phrases::spanish;
use crate::phrases::Species;
use vstd::arithmetic::div_mod::lemma_add_mod_noop;
use vstd::arithmetic::div_mod::lemma_mod_multiples_vanish;
use vstd::prelude::*;

verus! {

/// The session window's length in seconds.
pub const WINDOW_5H_SECS: u64 = 18_000;

/// The shortest time into a window from which a pace is estimated, in seconds.
pub const MIN_ELAPSED_SECS: u64 = 60;

/// A local wall clock reading.
#[derive(Clone, Copy, Debug, PartialEq, Eq, Structural)]
pub struct LocalTime {
    pub hour: u16,
    pub minute: u16,
    pub second: u16,
}

/// How long until the session window would be full, and until it resets.
#[derive(Clone, Copy, Debug, PartialEq, Eq, Structural)]
pub struct Projection {
    pub secs_to_full: u64,
    pub secs_to_reset: u64,
}

/// The decimal digit of a number below ten.
pub open spec fn digit(d: int) -> char {
    ('0' as int + d) as char
}

/// A number below a hundred, written with two digits.
pub open spec fn two_digits(n: int) -> Seq<char> {
    seq![digit(n / 10), digit(n % 10)]
}

/// The second of the day `secs` seconds after a clock reading.
pub open spec fn second_of_day_after(t: LocalTime, secs: int) -> int {
    (t.hour * 3600 + t.minute * 60 + t.second + secs) % 86_400
}

/// A second of the day as hours and minutes.
pub open spec fn hhmm(second: int) -> Seq<char> {
    two_digits(second / 3600) + seq![':'] + two_digits(second % 3600 / 60)
}

/// What stands before and after the time in a forecast.
#[verifier::opaque]
pub open spec fn frame_of(lang: LanguageId, species: Species) -> (&'static str, &'static str) {
    let k: int = match species {
        Species::Cat => 0,
        Species::Dog => 1,
        Species::Girl => 2,
    };
    match lang {
        LanguageId::English => english::FORECAST@[k],
        LanguageId::Dutch => dutch::FORECAST@[k],
        LanguageId::Spanish => spanish::FORECAST@[k],
        LanguageId::French => french::FORECAST@[k],
        LanguageId::German => german::FORECAST@[k],
        LanguageId::Japanese => japanese::FORECAST@[k],
        LanguageId::Korean => korean::FORECAST@[k],
        LanguageId::TraditionalChinese => chinese::FORECAST@[k],
    }
}

/// A forecast that names the time `at`.
pub open spec fn forecast_text(lang: LanguageId, species: Species, at: Seq<char>) -> Seq<char> {
    frame_of(lang, species).0@ + at + frame_of(lang, species).1@
}

/// How far into the session window the present moment is, given the seconds until it resets; none
/// while it is too early to tell a pace.
pub fn elapsed_in_window(to_reset: u64) -> (elapsed: Option<u64>)
    ensures
        elapsed == if to_reset + MIN_ELAPSED_SECS <= WINDOW_5H_SECS {
            Some((WINDOW_5H_SECS - to_reset) as u64)
        } else {
            None
        },
{
    if to_reset <= WINDOW_5H_SECS - MIN_ELAPSED_SECS {
        Some(WINDOW_5H_SECS - to_reset)
    } else {
        None
    }
}

fn digit_str(d: u64) -> (s: &'static str)
    requires
        d < 10,
    ensures
        s@ == seq![digit(d as int)],
{
    proof {
        reveal_strlit("0");
        reveal_strlit("1");
        reveal_strlit("2");
        reveal_strlit("3");
        reveal_strlit("4");
        reveal_strlit("5");
        reveal_strlit("6");
        reveal_strlit("7");
        reveal_strlit("8");
        reveal_strlit("9");
    }
    let s: &'static str = match d {
        0 => "0",
        1 => "1",
        2 => "2",
        3 => "3",
        4 => "4",
        5 => "5",
        6 => "6",
        7 => "7",
        8 => "8",
        _ => "9",
    };
    assert(s@ =~= seq![digit(d as int)]);
    s
}

fn two_digit_string(n: u64) -> (text: String)
    requires
        n < 100,
    ensures
        text@ == two_digits(n as int),
{
    let text: String = digit_str(n / 10).to_string().concat(digit_str(n % 10));
    assert(text@ =~= two_digits(n as int));
    text
}

/// The time of day `secs` seconds after `now`, as `HH:MM`; it wraps at midnight.
pub fn local_hhmm_after(now: LocalTime, secs: u64) -> (text: String)
    ensures
        text@ == hhmm(second_of_day_after(now, secs as int)),
{
    let sod: u64 = now.hour as u64 * 3600 + now.minute as u64 * 60 + now.second as u64;
    let proj: u64 = (sod % 86_400 + secs % 86_400) % 86_400;
    proof {
        lemma_add_mod_noop(sod as int, secs as int, 86_400);
    }
    let hours: String = two_digit_string(proj / 3600);
    let minutes: String = two_digit_string(proj % 3600 / 60);
    proof {
        reveal_strlit(":");
    }
    assert(":"@ =~= seq![':']);
    hours.concat(":").concat(minutes.as_str())
}

fn forecast_frame(lang: LanguageId, species: Species) -> (r: (&'static str, &'static str))
    ensures
        r == frame_of(lang, species),
{
    proof {
        reveal(frame_of);
    }
    let k: usize = match species {
        Species::Cat => 0,
        Species::Dog => 1,
        Species::Girl => 2,
    };
    match lang {
        LanguageId::English => english::FORECAST[k],
        LanguageId::Dutch => dutch::FORECAST[k],
        LanguageId::Spanish => spanish::FORECAST[k],
        LanguageId::French => french::FORECAST[k],
        LanguageId::German => german::FORECAST[k],
        LanguageId::Japanese => japanese::FORECAST[k],
        LanguageId::Korean => korean::FORECAST[k],
        LanguageId::TraditionalChinese => chinese::FORECAST[k],
    }
}

/// The forecast of the cat or the dog.
pub fn prediction_message(lang: LanguageId, is_cat: bool, at: &str) -> (text: String)
    ensures
        text@ == forecast_text(lang, if is_cat { Species::Cat } else { Species::Dog }, at@),
{
    let species: Species = if is_cat {
        Species::Cat
    } else {
        Species::Dog
    };
    let f: (&'static str, &'static str) = forecast_frame(lang, species);
    f.0.to_string().concat(at).concat(f.1)
}

/// The forecast of the girl.
pub fn girl_prediction(lang: LanguageId, at: &str) -> (text: String)
    ensures
        text@ == forecast_text(lang, Species::Girl, at@),
{
    let f: (&'static str, &'static str) = forecast_frame(lang, Species::Girl);
    f.0.to_string().concat(at).concat(f.1)
}

/// A time of day always reads as five characters with a colon in the middle, and names an hour of
/// the day and a minute of the hour.
pub proof fn law_times_are_well_formed(now: LocalTime, secs: int)
    requires
        secs >= 0,
    ensures
        ({
            let s = second_of_day_after(now, secs);
            &&& 0 <= s / 3600 < 24
            &&& 0 <= s % 3600 / 60 < 60
            &&& hhmm(s).len() == 5
            &&& hhmm(s)[2] == ':'
        }),
{
}

/// A whole number of days changes nothing in the time that a forecast names.
pub proof fn law_times_wrap_at_midnight(now: LocalTime, secs: int, days: int)
    requires
        secs >= 0,
        days >= 0,
    ensures
        hhmm(second_of_day_after(now, secs + days * 86_400)) == hhmm(second_of_day_after(now, secs)),
{
    let sod = now.hour * 3600 + now.minute * 60 + now.second;
    lemma_mod_multiples_vanish(days, sod + secs, 86_400);
}

/// The value of a decimal digit.
pub open spec fn digit_value(c: char) -> int {
    c as int - '0' as int
}

/// A time of day is told in decimal digits: two for the hour and two for the minute, which is the
/// minute that the second lies in.
#[verifier::spinoff_prover]
pub proof fn law_times_tell_hour_and_minute(second: int)
    requires
        0 <= second < 86_400,
    ensures
        ({
            let t = hhmm(second);
            let hour = 10 * digit_value(t[0]) + digit_value(t[1]);
            let minute = 10 * digit_value(t[3]) + digit_value(t[4]);
            &&& t.len() == 5
            &&& '0' <= t[0] <= '9' && '0' <= t[1] <= '9' && t[2] == ':'
            &&& '0' <= t[3] <= '9' && '0' <= t[4] <= '9'
            &&& minute < 60
            &&& hour * 3600 + minute * 60 <= second < hour * 3600 + minute * 60 + 60
        }),
{
}

/// Within the day the clock just runs on: `secs` seconds later it is that many seconds later.
pub proof fn law_clocks_run_on(t: LocalTime, secs: int)
    requires
        0 <= secs,
        t.hour * 3600 + t.minute * 60 + t.second + secs < 86_400,
    ensures
        second_of_day_after(t, secs) == t.hour * 3600 + t.minute * 60 + t.second + secs,
{
}

/// A forecast names its time, between the words that its character has for it.
pub proof fn law_forecasts_name_their_time(lang: LanguageId, species: Species, at: Seq<char>)
    ensures
        ({
            let text = forecast_text(lang, species, at);
            let before = frame_of(lang, species).0@.len() as int;
            text.len() >= before + at.len() && text.subrange(before, before + at.len()) == at
        }),
{
    let text = forecast_text(lang, species, at);
    let before = frame_of(lang, species).0@.len() as int;
    assert(text.subrange(before, before + at.len()) =~= at);
}

} // verus!
