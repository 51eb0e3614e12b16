//! Timer commands: reading the time, and the messages and events they produce.

use vstd::prelude::*;

use crate::action::{BotAction, IrcChannel};
use crate::command::UserPrefix;
use crate::number::{decimal_spec, digits_value, i64_text, int_text, is_digit, parse_i64, unsigned_part};
use crate::text::{concat, has_prefix, is_ws, slice, starts_with, token_end};
use vstd::string::StrSliceExecFns;

verus! {

/// A reminder to send `message` to `target` after `seconds` seconds.
#[derive(Debug)]
pub struct TimerEvent {
    pub target: IrcChannel,
    pub message: String,
    pub seconds: i64,
}

/// What the time given to the timer command means.
#[derive(Debug, PartialEq, Eq, Structural)]
pub enum TimeParse {
    /// Not a time: the command stays silent.
    NotTime,
    /// Written as a clock time, but no such time of day exists.
    BadClock,
    /// The next time the clock shows `hour:minute`.
    Clock { hour: u32, minute: u32 },
    /// After this many seconds.
    Span { seconds: i64 },
}

/// The first position at or after `p` that does not hold a decimal digit.
pub open spec fn digit_end(t: Seq<char>, p: int) -> int
    decreases t.len() - p,
{
    if p < 0 || p >= t.len() || !is_digit(t[p]) {
        p
    } else {
        digit_end(t, p + 1)
    }
}

/// `H:MM`, `HH:MM`, `H.MM` or `HH.MM`: hour and minute.
pub open spec fn clock_spec(t: Seq<char>) -> Option<(int, int)> {
    let sep = |c: char| c == ':' || c == '.';
    if t.len() == 4 && is_digit(t[0]) && sep(t[1]) && is_digit(t[2]) && is_digit(t[3]) {
        Some((digits_value(t.subrange(0, 1)), digits_value(t.subrange(2, 4))))
    } else if t.len() == 5 && is_digit(t[0]) && is_digit(t[1]) && sep(t[2]) && is_digit(t[3])
        && is_digit(t[4]) {
        Some((digits_value(t.subrange(0, 2)), digits_value(t.subrange(3, 5))))
    } else {
        None
    }
}

/// After the hour part of `[Nh][N(m|min)][Ns]`: the hours and where the rest begins.
pub open spec fn hour_part(t: Seq<char>) -> (int, int) {
    let d = digit_end(t, 0);
    if d > 0 && d < t.len() && t[d] == 'h' {
        (digits_value(t.subrange(0, d)), d + 1)
    } else {
        (0, 0)
    }
}

/// The minute part of `[Nh][N(m|min)][Ns]` from `p`: the minutes and where the rest begins.
pub open spec fn minute_part(t: Seq<char>, p: int) -> (int, int) {
    let d = digit_end(t, p);
    if d > p && starts_with(t.subrange(d, t.len() as int), "min"@) {
        (digits_value(t.subrange(p, d)), d + 3)
    } else if d > p && d < t.len() && t[d] == 'm' {
        (digits_value(t.subrange(p, d)), d + 1)
    } else {
        (0, p)
    }
}

/// The second part of `[Nh][N(m|min)][Ns]` from `p`: the seconds and where the rest begins.
pub open spec fn second_part(t: Seq<char>, p: int) -> (int, int) {
    let d = digit_end(t, p);
    if d > p && d < t.len() && t[d] == 's' {
        (digits_value(t.subrange(p, d)), d + 1)
    } else {
        (0, p)
    }
}

/// The seconds that `[Nh][N(m|min)][Ns]` spells, every part optional.
pub open spec fn hms_spec(t: Seq<char>) -> Option<int> {
    let (h, after_h) = hour_part(t);
    let (m, after_m) = minute_part(t, after_h);
    let (s, after_s) = second_part(t, after_m);
    if after_s == t.len() {
        Some(h * 3600 + m * 60 + s)
    } else {
        None
    }
}

/// The minutes that a plain number spells.
pub open spec fn minutes_spec(t: Seq<char>) -> Option<int> {
    if t.len() > 0 && digit_end(t, 0) == t.len() {
        Some(digits_value(t))
    } else {
        None
    }
}

/// What the time part `t` means: a clock time first, then hours, minutes and
/// seconds, then plain minutes; a span too long for an `i64` is no time.
pub open spec fn time_parse_spec(t: Seq<char>) -> TimeParse {
    match clock_spec(t) {
        Some((h, m)) => if h < 24 && m < 60 {
            TimeParse::Clock { hour: h as u32, minute: m as u32 }
        } else {
            TimeParse::BadClock
        },
        None => match hms_spec(t) {
            Some(v) => if v <= i64::MAX {
                TimeParse::Span { seconds: v as i64 }
            } else {
                TimeParse::NotTime
            },
            None => match minutes_spec(t) {
                Some(v) => if v * 60 <= i64::MAX {
                    TimeParse::Span { seconds: (v * 60) as i64 }
                } else {
                    TimeParse::NotTime
                },
                None => TimeParse::NotTime,
            },
        },
    }
}

/// Where the run of digits that starts at `p` ends.
fn digit_end_exec(t: &str, len: usize, p: usize) -> (r: usize)
    requires
        len == t@.len(),
        p <= len,
    ensures
        r == digit_end(t@, p as int),
        p <= r <= len,
{
    let mut k = p;
    while k < len && is_digit_exec(t.get_char(k))
        invariant
            len == t@.len(),
            p <= k <= len,
            digit_end(t@, p as int) == digit_end(t@, k as int),
        decreases len - k,
    {
        k = k + 1;
    }
    k
}

proof fn all_digits_decimal(s: Seq<char>)
    requires
        s.len() > 0,
        forall|i: int| 0 <= i < s.len() ==> is_digit(#[trigger] s[i]),
    ensures
        digits_value(s) >= 0,
        decimal_spec(s) is Some <==> digits_value(s) <= i64::MAX,
        decimal_spec(s) is Some ==> decimal_spec(s).unwrap() == digits_value(s),
    decreases s.len(),
{
    let q = s.drop_last();
    if q.len() > 0 {
        assert forall|i: int| 0 <= i < q.len() implies is_digit(#[trigger] q[i]) by {
            assert(q[i] == s[i]);
        }
        all_digits_decimal(q);
    } else {
        assert(digits_value(q) == 0);
    }
    assert(is_digit(s[s.len() - 1]));
    assert(digits_value(s) == digits_value(q) * 10 + (s.last() as int - '0' as int));
    assert(is_digit(s[0]));
    assert(unsigned_part(s) == s);
    assert(crate::number::all_digits(s));
}

proof fn digit_run(t: Seq<char>, p: int, d: int)
    requires
        0 <= p,
        d == digit_end(t, p),
        d <= t.len(),
    ensures
        p <= d,
        forall|i: int| 0 <= i < d - p ==> is_digit(#[trigger] t.subrange(p, d)[i]),
    decreases t.len() - p,
{
    if p < t.len() && is_digit(t[p]) {
        digit_run(t, p + 1, d);
        assert forall|i: int| 0 <= i < d - p implies is_digit(#[trigger] t.subrange(p, d)[i]) by {
            if i > 0 {
                assert(t.subrange(p, d)[i] == t.subrange(p + 1, d)[i - 1]);
            }
        }
    }
}

/// The value of the digits of `t` from `p` to `d`, if it fits in an `i64`.
fn digits_at(t: &str, p: usize, d: usize) -> (r: Option<i64>)
    requires
        p < d <= t@.len(),
        d == digit_end(t@, p as int),
    ensures
        digits_value(t@.subrange(p as int, d as int)) >= 0,
        r is Some <==> digits_value(t@.subrange(p as int, d as int)) <= i64::MAX,
        r is Some ==> r.unwrap() as int == digits_value(t@.subrange(p as int, d as int)),
{
    proof {
        digit_run(t@, p as int, d as int);
        all_digits_decimal(t@.subrange(p as int, d as int));
    }
    let s = slice(t, p, d);
    parse_i64(s.as_str())
}

/// Reads the time part of the timer command.
pub fn parse_time(t: &str) -> (r: TimeParse)
    ensures
        r == time_parse_spec(t@),
        match r {
            TimeParse::Clock { hour, minute } => hour < 24 && minute < 60,
            TimeParse::Span { seconds } => seconds >= 0,
            _ => true,
        },
{
    let len = t.unicode_len();
    if let Some((h, m)) = parse_clock(t, len) {
        assert(clock_spec(t@) is Some);
        assert(h as int == clock_spec(t@).unwrap().0);
        assert(m as int == clock_spec(t@).unwrap().1);
        if h < 24 && m < 60 {
            return TimeParse::Clock { hour: h, minute: m };
        }
        return TimeParse::BadClock;
    }
    match parse_hms(t, len) {
        Some(Some(v)) => return TimeParse::Span { seconds: v },
        Some(None) => return TimeParse::NotTime,
        None => {},
    }
    let d = digit_end_exec(t, len, 0);
    if len > 0 && d == len {
        match digits_at(t, 0, len) {
            Some(v) => {
                assert(t@.subrange(0, len as int) =~= t@);
                if v <= i64::MAX / 60 {
                    return TimeParse::Span { seconds: v * 60 };
                }
                TimeParse::NotTime
            },
            None => {
                assert(t@.subrange(0, len as int) =~= t@);
                TimeParse::NotTime
            },
        }
    } else {
        TimeParse::NotTime
    }
}

fn is_sep(c: char) -> (r: bool)
    ensures
        r == (c == ':' || c == '.'),
{
    c == ':' || c == '.'
}

fn is_digit_exec(c: char) -> (r: bool)
    ensures
        r == is_digit(c),
{
    '0' <= c && c <= '9'
}

fn digit_value(c: char) -> (r: u32)
    requires
        is_digit(c),
    ensures
        r as int == c as int - '0' as int,
{
    (c as u32) - ('0' as u32)
}

/// The hour and minute of a clock time, when `t` is written as one.
fn parse_clock(t: &str, len: usize) -> (r: Option<(u32, u32)>)
    requires
        len == t@.len(),
    ensures
        match clock_spec(t@) {
            Some((h, m)) => r == Some((h as u32, m as u32)) && 0 <= h < 100 && 0 <= m < 100,
            None => r is None,
        },
{
    let ghost s = t@;
    if len == 4 {
        let (a, b, c, d) = (t.get_char(0), t.get_char(1), t.get_char(2), t.get_char(3));
        if is_digit_exec(a) && is_sep(b) && is_digit_exec(c) && is_digit_exec(d) {
            let h = digit_value(a);
            let m = digit_value(c) * 10 + digit_value(d);
            proof {
                reveal_with_fuel(digits_value, 3);
                assert(s.subrange(0, 1).drop_last() =~= Seq::<char>::empty());
                assert(s.subrange(2, 4).drop_last().drop_last() =~= Seq::<char>::empty());
                assert(s.subrange(2, 4).drop_last() =~= s.subrange(2, 3));
                assert(s.subrange(0, 1).last() == a);
                assert(s.subrange(2, 4).last() == d);
                assert(s.subrange(2, 3).last() == c);
                assert(digits_value(s.subrange(0, 1)) == h as int);
                assert(digits_value(s.subrange(2, 4)) == m as int);
            }
            return Some((h, m));
        }
    } else if len == 5 {
        let (a, b, c, d, e) = (
            t.get_char(0),
            t.get_char(1),
            t.get_char(2),
            t.get_char(3),
            t.get_char(4),
        );
        if is_digit_exec(a) && is_digit_exec(b) && is_sep(c) && is_digit_exec(d) && is_digit_exec(
            e,
        ) {
            let h = digit_value(a) * 10 + digit_value(b);
            let m = digit_value(d) * 10 + digit_value(e);
            proof {
                reveal_with_fuel(digits_value, 3);
                assert(s.subrange(0, 2).drop_last().drop_last() =~= Seq::<char>::empty());
                assert(s.subrange(0, 2).drop_last() =~= s.subrange(0, 1));
                assert(s.subrange(3, 5).drop_last().drop_last() =~= Seq::<char>::empty());
                assert(s.subrange(3, 5).drop_last() =~= s.subrange(3, 4));
                assert(s.subrange(0, 2).last() == b);
                assert(s.subrange(0, 1).last() == a);
                assert(s.subrange(3, 5).last() == e);
                assert(s.subrange(3, 4).last() == d);
                assert(digits_value(s.subrange(0, 2)) == h as int);
                assert(digits_value(s.subrange(3, 5)) == m as int);
            }
            return Some((h, m));
        }
    }
    None
}

/// `None` when `t` is not of the form `[Nh][N(m|min)][Ns]`; otherwise the
/// seconds it spells, or `Some(None)` when they do not fit in an `i64`.
fn parse_hms(t: &str, len: usize) -> (r: Option<Option<i64>>)
    requires
        len == t@.len(),
    ensures
        match hms_spec(t@) {
            Some(v) => if v <= i64::MAX {
                r == Some(Some(v as i64)) && v >= 0
            } else {
                r == Some(None::<i64>)
            },
            None => r is None,
        },
{
    let ghost s = t@;
    // hours
    let d0 = digit_end_exec(t, len, 0);
    let mut h: Option<i64> = Some(0);
    let mut after_h: usize = 0;
    if d0 > 0 && d0 < len && t.get_char(d0) == 'h' {
        h = digits_at(t, 0, d0);
        after_h = d0 + 1;
    }
    assert(hour_part(s).1 == after_h as int);
    assert(h is Some ==> h.unwrap() as int == hour_part(s).0);
    assert(h is None ==> hour_part(s).0 > i64::MAX);
    assert(hour_part(s).0 >= 0);
    // minutes
    let d1 = digit_end_exec(t, len, after_h);
    let mut m: Option<i64> = Some(0);
    let mut after_m: usize = after_h;
    let rest = slice(t, d1, len);
    if d1 > after_h && has_prefix(rest.as_str(), "min") {
        proof {
            reveal_strlit("min");
        }
        m = digits_at(t, after_h, d1);
        after_m = d1 + 3;
    } else if d1 > after_h && d1 < len && t.get_char(d1) == 'm' {
        m = digits_at(t, after_h, d1);
        after_m = d1 + 1;
    }
    assert(minute_part(s, after_h as int).1 == after_m as int);
    assert(m is Some ==> m.unwrap() as int == minute_part(s, after_h as int).0);
    assert(m is None ==> minute_part(s, after_h as int).0 > i64::MAX);
    assert(minute_part(s, after_h as int).0 >= 0);
    // seconds
    let d2 = digit_end_exec(t, len, after_m);
    let mut sec: Option<i64> = Some(0);
    let mut after_s: usize = after_m;
    if d2 > after_m && d2 < len && t.get_char(d2) == 's' {
        sec = digits_at(t, after_m, d2);
        after_s = d2 + 1;
    }
    assert(second_part(s, after_m as int).1 == after_s as int);
    assert(sec is Some ==> sec.unwrap() as int == second_part(s, after_m as int).0);
    assert(sec is None ==> second_part(s, after_m as int).0 > i64::MAX);
    assert(second_part(s, after_m as int).0 >= 0);
    if after_s != len {
        return None;
    }
    match (h, m, sec) {
        (Some(hv), Some(mv), Some(sv)) => {
            let total: i128 = (hv as i128) * 3600 + (mv as i128) * 60 + (sv as i128);
            if total <= i64::MAX as i128 {
                Some(Some(total as i64))
            } else {
                Some(None)
            }
        },
        _ => Some(None),
    }
}

/// The time part of the timer command's parameters: up to the first white space.
pub open spec fn time_part(p: Seq<char>) -> Seq<char> {
    p.subrange(0, token_end(p, 0))
}

/// The message part: what follows the first white space character.
pub open spec fn message_part(p: Seq<char>) -> Seq<char> {
    let i = token_end(p, 0);
    if i < p.len() {
        p.subrange(i + 1, p.len() as int)
    } else {
        Seq::empty()
    }
}

/// The reminder that is sent when the timer runs out.
pub open spec fn reminder_text(prefix: Option<UserPrefix>, msg: Seq<char>) -> Seq<char> {
    match prefix {
        Some(u) => u.nick@ + ": "@ + msg,
        None => "Timer: "@ + msg,
    }
}

/// `v` followed by `unit`, or nothing when `v` is 0.
pub open spec fn unit_text(v: int, unit: Seq<char>) -> Seq<char> {
    if v > 0 {
        int_text(v) + unit
    } else {
        Seq::empty()
    }
}

/// The confirmation of a timer of `secs` seconds, in hours, minutes and seconds.
pub open spec fn confirmation_text(secs: int) -> Seq<char> {
    "Huudan sitten "@ + unit_text(secs / 3600, "h"@) + unit_text((secs / 60) % 60, "m"@)
        + unit_text(secs % 60, "s"@) + " päästä asiasta."@
}

pub open spec fn nanos_per_second() -> int {
    1_000_000_000
}

/// Nanoseconds from the time of day `now_s` seconds and `now_ns` nanoseconds
/// to the next `hour:minute`; a clock time already past today is taken tomorrow.
pub open spec fn clock_delay(hour: int, minute: int, now_s: int, now_ns: int) -> int {
    let d = (hour * 3600 + minute * 60) * nanos_per_second() - (now_s * nanos_per_second() + now_ns);
    if d < 0 {
        d + 86400 * nanos_per_second()
    } else {
        d
    }
}

/// What the timer command answers.
#[derive(Debug)]
pub enum TimerReply {
    /// No time was given: nothing is said.
    Silent,
    /// The time could not be used: this is said instead.
    Refused(BotAction),
    /// Confirm, and send the reminder when its time comes.
    Scheduled { confirmation: BotAction, event: TimerEvent },
}

/// `a` is a message to `target` with the text `text`.
pub open spec fn says(a: BotAction, target: IrcChannel, text: Seq<char>) -> bool {
    a.target == target && a.action_type is Message && a.action_type.text() == text
}

pub open spec fn scheduled_spec(
    source: IrcChannel,
    params: Seq<char>,
    prefix: Option<UserPrefix>,
    secs: int,
    r: TimerReply,
) -> bool {
    match r {
        TimerReply::Scheduled { confirmation, event } => {
            &&& says(confirmation, source, confirmation_text(secs))
            &&& event.target == source
            &&& event.message@ == reminder_text(prefix, message_part(params))
            &&& event.seconds == secs
        },
        _ => false,
    }
}

/// The answer of the timer command to `params`, from `prefix` on `source`,
/// when the local time of day is `now_s` seconds and `now_ns` nanoseconds.
pub open spec fn timer_spec(
    source: IrcChannel,
    params: Seq<char>,
    prefix: Option<UserPrefix>,
    now_s: int,
    now_ns: int,
    r: TimerReply,
) -> bool {
    let t = time_part(params);
    match time_parse_spec(t) {
        TimeParse::NotTime => r is Silent,
        TimeParse::BadClock => match r {
            TimerReply::Refused(a) => says(a, source, "Unable to parse time from "@ + t),
            _ => false,
        },
        TimeParse::Clock { hour, minute } => {
            let d = clock_delay(hour as int, minute as int, now_s, now_ns);
            if d < 0 {
                match r {
                    TimerReply::Refused(a) => says(a, source, "Time parser failed: negative duration."@),
                    _ => false,
                }
            } else {
                scheduled_spec(source, params, prefix, d / nanos_per_second(), r)
            }
        },
        TimeParse::Span { seconds } => scheduled_spec(source, params, prefix, seconds as int, r),
    }
}

fn unit_exec(v: i64, unit: &str) -> (r: String)
    ensures
        r@ == unit_text(v as int, unit@),
{
    if v > 0 {
        let n = i64_text(v);
        concat(n.as_str(), unit)
    } else {
        String::new()
    }
}

/// The confirmation of a timer of `secs` seconds.
pub fn confirmation(secs: i64) -> (r: String)
    requires
        secs >= 0,
    ensures
        r@ == confirmation_text(secs as int),
{
    let h = unit_exec(secs / 3600, "h");
    let m = unit_exec((secs / 60) % 60, "m");
    let s = unit_exec(secs % 60, "s");
    let a = concat("Huudan sitten ", h.as_str());
    let b = concat(a.as_str(), m.as_str());
    let c = concat(b.as_str(), s.as_str());
    concat(c.as_str(), " päästä asiasta.")
}

/// The reminder text for `prefix`.
pub fn reminder(prefix: &Option<UserPrefix>, msg: &str) -> (r: String)
    ensures
        r@ == reminder_text(*prefix, msg@),
{
    match prefix {
        Some(u) => {
            let a = concat(u.nick.as_str(), ": ");
            concat(a.as_str(), msg)
        },
        None => concat("Timer: ", msg),
    }
}

fn schedule(source: IrcChannel, params: &str, len: usize, i: usize, prefix: &Option<UserPrefix>, secs: i64) -> (r: TimerReply)
    requires
        len == params@.len(),
        i == token_end(params@, 0),
        i <= len,
        secs >= 0,
    ensures
        scheduled_spec(source, params@, *prefix, secs as int, r),
{
    let msg = if i < len {
        slice(params, i + 1, len)
    } else {
        String::new()
    };
    let text = confirmation(secs);
    let event = TimerEvent { target: source.duplicate(), message: reminder(prefix, msg.as_str()), seconds: secs };
    TimerReply::Scheduled { confirmation: BotAction::message(source, text), event }
}

/// The answer of the timer command, given the local time of day.
pub fn plan_timer(source: IrcChannel, params: &str, prefix: &Option<UserPrefix>, now_s: u32, now_ns: u32) -> (r: TimerReply)
    requires
        now_s < 86400,
        now_ns < 2_000_000_000,
    ensures
        timer_spec(source, params@, *prefix, now_s as int, now_ns as int, r),
{
    let len = params.unicode_len();
    let mut i: usize = 0;
    while i < len && !is_ws(params.get_char(i))
        invariant
            len == params@.len(),
            i <= len,
            token_end(params@, 0) == token_end(params@, i as int),
        decreases len - i,
    {
        i = i + 1;
    }
    let t = slice(params, 0, i);
    match parse_time(t.as_str()) {
        TimeParse::NotTime => TimerReply::Silent,
        TimeParse::BadClock => {
            let text = concat("Unable to parse time from ", t.as_str());
            TimerReply::Refused(BotAction::message(source, text))
        },
        TimeParse::Clock { hour, minute } => {
            let nps: i64 = 1_000_000_000;
            let target: i64 = (hour as i64 * 3600 + minute as i64 * 60) * nps;
            let now: i64 = now_s as i64 * nps + now_ns as i64;
            let mut d: i64 = target - now;
            if d < 0 {
                d = d + 86400 * nps;
            }
            if d < 0 {
                let text = "Time parser failed: negative duration.".to_owned();
                return TimerReply::Refused(BotAction::message(source, text));
            }
            schedule(source, params, len, i, prefix, d / nps)
        },
        TimeParse::Span { seconds } => schedule(source, params, len, i, prefix, seconds),
    }
}

/// Relies on chrono's `Local::now`, read through `DateTime::time` and
/// `Timelike`: the local time of day, as whole non-leap seconds since
/// midnight and the nanoseconds within the second (a leap second reaches
/// up to 1_999_999_999).
#[verifier::external_body]
fn local_time_of_day() -> (r: (u32, u32))
    ensures
        r.0 < 86400,
        r.1 < 2_000_000_000,
{
    let t = chrono::Local::now().time();
    (chrono::Timelike::num_seconds_from_midnight(&t), chrono::Timelike::nanosecond(&t))
}

/// The timer command: `<time> <message>`, where the time is a clock time
/// (`HH:MM`), a span (`1h30m`, `45s`, `2min`) or plain minutes.
pub fn command_timer(source: IrcChannel, params: &str, prefix: &Option<UserPrefix>) -> (r: TimerReply)
    ensures
        exists|now_s: int, now_ns: int|
            0 <= now_s < 86400 && 0 <= now_ns < 2_000_000_000 && timer_spec(
                source,
                params@,
                *prefix,
                now_s,
                now_ns,
                r,
            ),
{
    let (now_s, now_ns) = local_time_of_day();
    let r = plan_timer(source, params, prefix, now_s, now_ns);
    assert(timer_spec(source, params@, *prefix, now_s as int, now_ns as int, r));
    r
}

/// The reminder of a pizza timer.
pub open spec fn pizza_text(prefix: Option<UserPrefix>, size: Seq<char>) -> Seq<char> {
    match prefix {
        Some(u) => "Apua "@ + u.nick@ + "! "@ + size + " pizza palaa!"@,
        None => "Apua! "@ + size + " pizza palaa!"@,
    }
}

/// A pizza timer of `minutes` minutes for a pizza of the given size word.
fn pizza_timer(source: IrcChannel, prefix: &Option<UserPrefix>, minutes: i64, size: &str) -> (r: (BotAction, TimerEvent))
    requires
        0 < minutes < 100,
    ensures
        says(r.0, source, "Huudan sitten "@ + int_text(minutes as int) + " minuutin päästä pizzasta."@),
        r.1.target == source,
        r.1.message@ == pizza_text(*prefix, size@),
        r.1.seconds == minutes * 60,
{
    let m = i64_text(minutes);
    let a = concat("Huudan sitten ", m.as_str());
    let text = concat(a.as_str(), " minuutin päästä pizzasta.");
    let msg = match prefix {
        Some(u) => {
            let b = concat("Apua ", u.nick.as_str());
            let c = concat(b.as_str(), "! ");
            let d = concat(c.as_str(), size);
            concat(d.as_str(), " pizza palaa!")
        },
        None => {
            let b = concat("Apua! ", size);
            concat(b.as_str(), " pizza palaa!")
        },
    };
    let event = TimerEvent { target: source.duplicate(), message: msg, seconds: minutes * 60 };
    (BotAction::message(source, text), event)
}

/// The small pizza: a reminder in twelve minutes.
pub fn command_pizza(source: IrcChannel, prefix: &Option<UserPrefix>) -> (r: (BotAction, TimerEvent))
    ensures
        says(r.0, source, "Huudan sitten "@ + int_text(12) + " minuutin päästä pizzasta."@),
        r.1.target == source,
        r.1.message@ == pizza_text(*prefix, "Pikku"@),
        r.1.seconds == 720,
{
    pizza_timer(source, prefix, 12, "Pikku")
}

/// The big pizza: a reminder in fifteen minutes.
pub fn command_bigone(source: IrcChannel, prefix: &Option<UserPrefix>) -> (r: (BotAction, TimerEvent))
    ensures
        says(r.0, source, "Huudan sitten "@ + int_text(15) + " minuutin päästä pizzasta."@),
        r.1.target == source,
        r.1.message@ == pizza_text(*prefix, "Iso"@),
        r.1.seconds == 900,
{
    pizza_timer(source, prefix, 15, "Iso")
}

} // verus!
