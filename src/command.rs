//! What the message handler does with a channel message: which commands it
//! runs, what it answers by itself, and how it asks about admins.

use vstd::prelude::*;

use crate::action::{ActionType, BotAction, IrcChannel};
use crate::router::{Registry, RouterEvent};
use crate::text::{
    concat, contains, contains_seq, has_prefix, is_ws, lower_of, lowercase, occurs_at, same_text,
    slice, starts_with, token_end, trim, trimmed,
};

verus! {

/// The sender of a message when it is a user: nick, user name and host.
#[derive(Debug, Clone)]
pub struct UserPrefix {
    pub nick: String,
    pub user: String,
    pub host: String,
}

/// The identity mask `nick!user@host` of a user.
pub open spec fn mask_of(p: UserPrefix) -> Seq<char> {
    p.nick@ + seq!['!'] + p.user@ + seq!['@'] + p.host@
}

/// The identity mask `nick!user@host` of `p`.
pub fn identity_mask(p: &UserPrefix) -> (r: String)
    ensures
        r@ == mask_of(*p),
{
    let a = concat(p.nick.as_str(), "!");
    let b = concat(a.as_str(), p.user.as_str());
    let c = concat(b.as_str(), "@");
    let r = concat(c.as_str(), p.host.as_str());
    proof {
        reveal_strlit("!");
        reveal_strlit("@");
        assert(r@ =~= mask_of(*p));
    }
    r
}

/// The admin query that a command asks before it runs on behalf of
/// `prefix` on `network`; none for a sender that is not a user, who is then
/// never an admin.
pub open spec fn admin_query_spec(prefix: Option<UserPrefix>, network: Seq<char>, r: Option<RouterEvent>) -> bool {
    match prefix {
        None => r is None,
        Some(p) => match r {
            Some(RouterEvent::AdminQuery { network: n, mask: m }) => n@ == network && m@ == mask_of(p),
            _ => false,
        },
    }
}

/// The admin query for `prefix` on `network`, if there is one to ask.
pub fn admin_query_for(prefix: &Option<UserPrefix>, network: &str) -> (r: Option<RouterEvent>)
    ensures
        admin_query_spec(*prefix, network@, r),
{
    match prefix {
        None => None,
        Some(p) => Some(RouterEvent::AdminQuery { network: network.to_owned(), mask: identity_mask(p) }),
    }
}

/// The verdict drawn from the reply to an admin query: a reply slot that
/// was dropped unanswered counts as "not an admin".
pub fn admin_verdict(reply: Option<bool>) -> (r: bool)
    ensures
        r == (reply == Some(true)),
{
    match reply {
        Some(b) => b,
        None => false,
    }
}

/// The answer that a command gets when it asks whether `prefix` is an admin
/// of `network`, given the registry that answers.
pub open spec fn admin_answer(reg: Registry, prefix: Option<UserPrefix>, network: Seq<char>) -> bool {
    match prefix {
        None => false,
        Some(p) => reg.admin_spec(network, mask_of(p)),
    }
}

/// A sender without a user identity is never an admin, whatever the
/// registry holds: no query is asked, and the verdict without a reply is no.
pub proof fn admin_fail_closed(reg: Registry, network: Seq<char>, r: Option<RouterEvent>)
    requires
        admin_query_spec(None, network, r),
    ensures
        r is None,
        !admin_answer(reg, None, network),
{
}

/// The command name and its parameters: the first word after the leading
/// command character, and the rest without surrounding white space.
pub open spec fn command_parts(m: Seq<char>) -> (Seq<char>, Seq<char>) {
    let rest = m.subrange(1, m.len() as int);
    let i = token_end(rest, 0);
    (rest.subrange(0, i), trimmed(rest.subrange(i, rest.len() as int)))
}

/// Splits `.name params` into `name` and `params`.
pub fn split_command(message: &str) -> (r: (String, String))
    requires
        message@.len() >= 1,
    ensures
        (r.0@, r.1@) == command_parts(message@),
{
    let len = message.unicode_len();
    let rest = slice(message, 1, len);
    let rlen = len - 1;
    let mut i: usize = 0;
    while i < rlen && !is_ws(rest.as_str().get_char(i))
        invariant
            rlen == rest@.len(),
            i <= rlen,
            token_end(rest@, 0) == token_end(rest@, i as int),
        decreases rlen - i,
    {
        i = i + 1;
    }
    let name = slice(rest.as_str(), 0, i);
    let tail = slice(rest.as_str(), i, rlen);
    (name, trim(tail.as_str()))
}

/// The commands that the bot knows.
#[derive(Debug, PartialEq, Eq, Structural)]
pub enum Command {
    Echo,
    Timer,
    Pizza,
    Bigone,
    Rss,
    Fmi,
    OpenWeatherMap,
    WeatherSet,
    Roll,
    Episode,
    WolframAlpha,
    Wikipedia,
    WikipediaFi,
    Epic,
    Teamspeak,
    Lightning,
    Gdq,
    Electricity,
    Unknown,
}

/// The command that a command name selects.
pub open spec fn command_spec(n: Seq<char>) -> Command {
    if n == "echo"@ {
        Command::Echo
    } else if n == "timer"@ {
        Command::Timer
    } else if n == "pizza"@ {
        Command::Pizza
    } else if n == "bigone"@ {
        Command::Bigone
    } else if n == "rss"@ {
        Command::Rss
    } else if n == "sää"@ || n == "saa"@ || n == "fmi"@ {
        Command::Fmi
    } else if n == "weather"@ || n == "owm"@ {
        Command::OpenWeatherMap
    } else if n == "weatherset"@ {
        Command::WeatherSet
    } else if n == "roll"@ {
        Command::Roll
    } else if n == "ep"@ {
        Command::Episode
    } else if n == "wa"@ {
        Command::WolframAlpha
    } else if n == "wikipedia"@ {
        Command::Wikipedia
    } else if n == "wikipediafi"@ {
        Command::WikipediaFi
    } else if n == "epic"@ {
        Command::Epic
    } else if n == "ts"@ {
        Command::Teamspeak
    } else if n == "ukkostutka"@ || n == "blitzortung"@ {
        Command::Lightning
    } else if n == "agdq"@ || n == "sgdq"@ || n == "gdq"@ {
        Command::Gdq
    } else if n == "sähkö"@ || n == "sahko"@ {
        Command::Electricity
    } else {
        Command::Unknown
    }
}

/// The command that `name` selects.
pub fn command_of(name: &str) -> (r: Command)
    ensures
        r == command_spec(name@),
{
    if same_text(name, "echo") {
        Command::Echo
    } else if same_text(name, "timer") {
        Command::Timer
    } else if same_text(name, "pizza") {
        Command::Pizza
    } else if same_text(name, "bigone") {
        Command::Bigone
    } else if same_text(name, "rss") {
        Command::Rss
    } else if same_text(name, "sää") || same_text(name, "saa") || same_text(name, "fmi") {
        Command::Fmi
    } else if same_text(name, "weather") || same_text(name, "owm") {
        Command::OpenWeatherMap
    } else if same_text(name, "weatherset") {
        Command::WeatherSet
    } else if same_text(name, "roll") {
        Command::Roll
    } else if same_text(name, "ep") {
        Command::Episode
    } else if same_text(name, "wa") {
        Command::WolframAlpha
    } else if same_text(name, "wikipedia") {
        Command::Wikipedia
    } else if same_text(name, "wikipediafi") {
        Command::WikipediaFi
    } else if same_text(name, "epic") {
        Command::Epic
    } else if same_text(name, "ts") {
        Command::Teamspeak
    } else if same_text(name, "ukkostutka") || same_text(name, "blitzortung") {
        Command::Lightning
    } else if same_text(name, "agdq") || same_text(name, "sgdq") || same_text(name, "gdq") {
        Command::Gdq
    } else if same_text(name, "sähkö") || same_text(name, "sahko") {
        Command::Electricity
    } else {
        Command::Unknown
    }
}

/// The text of the echo command's reply.
pub open spec fn echo_spec(params: Seq<char>, prefix: Option<UserPrefix>) -> Seq<char> {
    match prefix {
        Some(p) => mask_of(p) + ": "@ + params,
        None => "Echo: "@ + params,
    }
}

/// The text of the echo command's reply: the sender's mask and the
/// parameters, or `Echo: ` and the parameters for a sender that is not a user.
pub fn echo_reply(params: &str, prefix: &Option<UserPrefix>) -> (r: String)
    ensures
        r@ == echo_spec(params@, *prefix),
{
    match prefix {
        Some(p) => {
            let m = identity_mask(p);
            let a = concat(m.as_str(), ": ");
            concat(a.as_str(), params)
        },
        None => concat("Echo: ", params),
    }
}

/// The echo command: one message back to the channel it came from.
pub fn command_echo(source: IrcChannel, params: &str, prefix: &Option<UserPrefix>) -> (r: BotAction)
    ensures
        r.target == source,
        r.action_type is Message,
        r.action_type.text() == echo_spec(params@, *prefix),
{
    BotAction { target: source, action_type: ActionType::Message(echo_reply(params, prefix)) }
}

/// A web address starts at position `i`: `http://` or `https://` followed
/// by at least one character that is not a space.
pub open spec fn url_at(s: Seq<char>, i: int) -> bool {
    ||| occurs_at(s, "http://"@, i) && i + 7 < s.len() && s[i + 7] != ' '
    ||| occurs_at(s, "https://"@, i) && i + 8 < s.len() && s[i + 8] != ' '
}

pub open spec fn has_url(s: Seq<char>) -> bool {
    exists|i: int| url_at(s, i)
}

/// Whether `s` holds a web address.
pub fn contains_url(s: &str) -> (r: bool)
    ensures
        r == has_url(s@),
{
    let len = s.unicode_len();
    let mut i: usize = 0;
    proof {
        reveal_strlit("http://");
        reveal_strlit("https://");
    }
    while i < len
        invariant
            len == s@.len(),
            i <= len,
            "http://"@.len() == 7,
            "https://"@.len() == 8,
            forall|m: int| 0 <= m < i ==> !url_at(s@, m),
        decreases len - i,
    {
        let tail = slice(s, i, len);
        let plain = has_prefix(tail.as_str(), "http://");
        let secure = has_prefix(tail.as_str(), "https://");
        proof {
            if i + 7 <= len {
                assert(tail@.subrange(0, 7) =~= s@.subrange(i as int, i + 7));
            }
            if i + 8 <= len {
                assert(tail@.subrange(0, 8) =~= s@.subrange(i as int, i + 8));
            }
        }
        if plain && i + 7 < len && s.get_char(i + 7) != ' ' {
            assert(url_at(s@, i as int));
            return true;
        }
        if secure && i + 8 < len && s.get_char(i + 8) != ' ' {
            assert(url_at(s@, i as int));
            return true;
        }
        i = i + 1;
    }
    proof {
        assert forall|m: int| !url_at(s@, m) by {
            if 0 <= m < i {
            }
        }
    }
    false
}

/// What the handler does with one channel message.
#[derive(Debug)]
pub struct MessagePlan {
    /// Look up and post the titles of the web addresses in it.
    pub url_titles: bool,
    /// Run this command (name, parameters).
    pub command: Option<(String, String)>,
    /// Answer the laugh of the user with this nick.
    pub laugh: Option<String>,
    /// Send this action at once.
    pub reply: Option<BotAction>,
}

/// `r` is the plan for message `msg`, whose lowercase form is `lower`, sent
/// by `prefix` to `source`.
pub open spec fn plan_spec(
    source: IrcChannel,
    msg: Seq<char>,
    lower: Seq<char>,
    prefix: Option<UserPrefix>,
    r: MessagePlan,
) -> bool {
    &&& r.url_titles == has_url(msg)
    &&& (r.command is Some <==> starts_with(lower, "."@) && msg.len() >= 1)
    &&& (r.command is Some ==> (r.command.unwrap().0@, r.command.unwrap().1@) == command_parts(msg))
    &&& (r.laugh is Some <==> lower == "h33h3"@ && prefix is Some)
    &&& (r.laugh is Some ==> r.laugh.unwrap()@ == prefix.unwrap().nick@)
    &&& (r.reply is Some <==> contains_seq(lower, "matt damon"@))
    &&& (r.reply is Some ==> r.reply.unwrap().target == source && r.reply.unwrap().action_type
        is Message && r.reply.unwrap().action_type.text() == "MATT DAMON"@)
}

/// The plan for message `msg` sent by `prefix` to `source`, given its
/// lowercase form `lower`.
pub fn plan_message(source: &IrcChannel, msg: &str, lower: &str, prefix: &Option<UserPrefix>) -> (r: MessagePlan)
    ensures
        plan_spec(*source, msg@, lower@, *prefix, r),
{
    let url_titles = contains_url(msg);
    let command = if has_prefix(lower, ".") && msg.unicode_len() >= 1 {
        Some(split_command(msg))
    } else {
        None
    };
    let laugh = match prefix {
        Some(p) => if same_text(lower, "h33h3") {
            Some(p.nick.clone())
        } else {
            None
        },
        None => None,
    };
    let reply = if contains(lower, "matt damon") {
        Some(BotAction::message(source.duplicate(), "MATT DAMON".to_owned()))
    } else {
        None
    };
    MessagePlan { url_titles, command, laugh, reply }
}

/// The plan for message `msg` sent by `prefix` to `source`.
pub fn message_plan(source: &IrcChannel, msg: &str, prefix: &Option<UserPrefix>) -> (r: MessagePlan)
    ensures
        plan_spec(*source, msg@, lower_of(msg@), *prefix, r),
{
    let lower = lowercase(msg);
    plan_message(source, msg, lower.as_str(), prefix)
}

} // verus!
