//! The dice command.

use vstd::prelude::*;

use crate::action::{ActionType, BotAction, IrcChannel};
use crate::chance::roll;
use crate::number::{decimal_spec, i64_text, int_text, parse_i64};
use crate::text::{split_ws, words};

verus! {

/// The bounds that the parameters of the dice command give: two integers,
/// the first below the second, and nothing else.
pub open spec fn bounds_spec(params: Seq<char>) -> Option<(int, int)> {
    let w = words(params);
    if w.len() == 2 && decimal_spec(w[0]) is Some && decimal_spec(w[1]) is Some
        && decimal_spec(w[0]).unwrap() < decimal_spec(w[1]).unwrap() {
        Some((decimal_spec(w[0]).unwrap(), decimal_spec(w[1]).unwrap()))
    } else {
        None
    }
}

/// Reads `<min> <max>` from the parameters of the dice command.
pub fn split_params(params: &str) -> (r: Result<(i64, i64), ()>)
    ensures
        match bounds_spec(params@) {
            Some((lo, hi)) => r == Ok::<(i64, i64), ()>((lo as i64, hi as i64)),
            None => r is Err,
        },
{
    let w = split_ws(params);
    proof {
        assert(w@.len() == words(params@).len());
        if w@.len() == 2 {
            assert(w@[0]@ == words(params@)[0]);
            assert(w@[1]@ == words(params@)[1]);
        }
    }
    if w.len() != 2 {
        return Err(());
    }
    let min = match parse_i64(w[0].as_str()) {
        Some(v) => v,
        None => return Err(()),
    };
    let max = match parse_i64(w[1].as_str()) {
        Some(v) => v,
        None => return Err(()),
    };
    if min < max {
        Ok((min, max))
    } else {
        Err(())
    }
}

/// The text that the dice command answers to a request without valid bounds.
pub open spec fn usage_text() -> Seq<char> {
    "Usage: .roll <min> <max>"@
}

/// The dice command: a number from the given bounds, or the usage line.
pub fn command_roll(source: IrcChannel, params: &str) -> (r: BotAction)
    ensures
        r.target == source,
        r.action_type is Message,
        match bounds_spec(params@) {
            Some((lo, hi)) => exists|v: int| lo <= v <= hi && r.action_type.text() == int_text(v),
            None => r.action_type.text() == usage_text(),
        },
{
    let text = match split_params(params) {
        Ok((min, max)) => {
            let v = roll(min, max);
            i64_text(v)
        },
        Err(()) => "Usage: .roll <min> <max>".to_owned(),
    };
    BotAction { target: source, action_type: ActionType::Message(text) }
}

} // verus!
