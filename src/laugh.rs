//! The answer to a laughing user.

use vstd::prelude::*;

use crate::action::{ActionType, BotAction, IrcChannel};
use crate::chance::roll;
use crate::number::{i64_text, int_text};
use crate::text::concat;

verus! {

/// What the bot answers: the main action, and one said before it.
#[derive(Debug)]
pub struct H33h3Result {
    pub main_action: ActionType,
    pub extra_action: Option<ActionType>,
}

/// The upper bound of the number drawn for the magic ball's answer `choice`
/// (0 when its answer draws no number).
pub open spec fn ball_bound(choice: int) -> int {
    if choice == 1 || choice == 14 {
        4
    } else if choice == 3 || choice == 20 {
        5
    } else if choice == 4 || choice == 12 {
        2
    } else if choice == 5 || choice == 11 || choice == 15 {
        1
    } else if choice == 6 || choice == 13 {
        3
    } else {
        0
    }
}

/// The magic ball's answer `choice` (1 to 20), with `n` the number drawn for
/// it: whether it is an emote, and its text.
pub open spec fn ball_spec(choice: int, n: int) -> (bool, Seq<char>) {
    if ball_bound(choice) > 0 {
        (false, int_text(n))
    } else if choice == 2 {
        (false, ".____________."@)
    } else if choice == 7 {
        (true, "am cry"@)
    } else if choice == 8 {
        (false, "fail"@)
    } else if choice == 17 {
        (false, "::|"@)
    } else if choice == 18 {
        (false, "h3-- not."@)
    } else {
        (false, "0"@)
    }
}

pub fn ball_bound_exec(choice: i64) -> (r: i64)
    ensures
        r == ball_bound(choice as int),
{
    if choice == 1 || choice == 14 {
        4
    } else if choice == 3 || choice == 20 {
        5
    } else if choice == 4 || choice == 12 {
        2
    } else if choice == 5 || choice == 11 || choice == 15 {
        1
    } else if choice == 6 || choice == 13 {
        3
    } else {
        0
    }
}

/// The magic ball's answer `choice`, with `n` the number drawn for it.
pub fn nbotti_kasipallo(choice: i64, n: i64) -> (r: ActionType)
    requires
        1 <= choice <= 20,
    ensures
        r.is_emote() == ball_spec(choice as int, n as int).0,
        r.text() == ball_spec(choice as int, n as int).1,
{
    if ball_bound_exec(choice) > 0 {
        ActionType::Message(i64_text(n))
    } else if choice == 2 {
        ActionType::Message(".____________.".to_owned())
    } else if choice == 7 {
        ActionType::Action("am cry".to_owned())
    } else if choice == 8 {
        ActionType::Message("fail".to_owned())
    } else if choice == 17 {
        ActionType::Message("::|".to_owned())
    } else if choice == 18 {
        ActionType::Message("h3-- not.".to_owned())
    } else {
        ActionType::Message("0".to_owned())
    }
}

/// `a` is a plain message with the text `t`.
pub open spec fn says_plain(a: Option<ActionType>, t: Seq<char>) -> bool {
    a is Some && !a.unwrap().is_emote() && a.unwrap().text() == t
}

/// The answer to `nick` for the draw `first` (0 to 100), the magic ball's
/// answer `choice` and its number `n`.
pub open spec fn laugh_spec(nick: Seq<char>, first: int, choice: int, n: int, r: H33h3Result) -> bool {
    let ball = ball_spec(choice, n);
    let is_ball = r.main_action.is_emote() == ball.0 && r.main_action.text() == ball.1;
    let plain = |t: Seq<char>| !r.main_action.is_emote() && r.main_action.text() == t;
    if first == 23 || first == 55 {
        plain("GOOD DAY "@ + nick + ", YOU LOSE AT THE INTTER NETS"@) && r.extra_action is None
    } else if first == 28 {
        plain("hngggg"@) && r.extra_action is None
    } else if first == 29 {
        plain("h33h3"@) && r.extra_action is None
    } else if first == 30 {
        is_ball && says_plain(r.extra_action, "<W> har har har"@)
    } else if first == 31 {
        is_ball && says_plain(r.extra_action, "<W> HAR VITUN HAR"@)
    } else {
        is_ball && r.extra_action is None
    }
}

/// The answer to `nick` for the given draws.
pub fn nbotti_h33h3(nick: &str, first: i64, choice: i64, n: i64) -> (r: H33h3Result)
    requires
        1 <= choice <= 20,
    ensures
        laugh_spec(nick@, first as int, choice as int, n as int, r),
{
    if first == 23 || first == 55 {
        let a = concat("GOOD DAY ", nick);
        let t = concat(a.as_str(), ", YOU LOSE AT THE INTTER NETS");
        H33h3Result { main_action: ActionType::Message(t), extra_action: None }
    } else if first == 28 {
        H33h3Result { main_action: ActionType::Message("hngggg".to_owned()), extra_action: None }
    } else if first == 29 {
        H33h3Result { main_action: ActionType::Message("h33h3".to_owned()), extra_action: None }
    } else if first == 30 {
        H33h3Result {
            main_action: nbotti_kasipallo(choice, n),
            extra_action: Some(ActionType::Message("<W> har har har".to_owned())),
        }
    } else if first == 31 {
        H33h3Result {
            main_action: nbotti_kasipallo(choice, n),
            extra_action: Some(ActionType::Message("<W> HAR VITUN HAR".to_owned())),
        }
    } else {
        H33h3Result { main_action: nbotti_kasipallo(choice, n), extra_action: None }
    }
}

/// Answers the laugh of `nick` on `source`: the actions to send, in order.
pub fn handle_h33h3(source: IrcChannel, nick: &str) -> (r: Vec<BotAction>)
    ensures
        exists|first: int, choice: int, n: int, res: H33h3Result|
            0 <= first <= 100 && 1 <= choice <= 20 && 0 <= n <= ball_bound(choice) && laugh_spec(
                nick@,
                first,
                choice,
                n,
                res,
            ) && r@ == (match res.extra_action {
                Some(e) => seq![
                    BotAction { target: source, action_type: e },
                    BotAction { target: source, action_type: res.main_action },
                ],
                None => seq![BotAction { target: source, action_type: res.main_action }],
            }),
{
    let first = roll(0, 100);
    let choice = roll(1, 20);
    let n = roll(0, ball_bound_exec(choice));
    let res = nbotti_h33h3(nick, first, choice, n);
    let ghost snapshot = res;
    let mut out: Vec<BotAction> = Vec::new();
    match res.extra_action {
        Some(e) => {
            out.push(BotAction { target: source.duplicate(), action_type: e });
        },
        None => {},
    }
    out.push(BotAction { target: source, action_type: res.main_action });
    assert(laugh_spec(nick@, first as int, choice as int, n as int, snapshot));
    assert(out@ =~= match snapshot.extra_action {
        Some(e) => seq![
            BotAction { target: source, action_type: e },
            BotAction { target: source, action_type: snapshot.main_action },
        ],
        None => seq![BotAction { target: source, action_type: snapshot.main_action }],
    });
    out
}

} // verus!
