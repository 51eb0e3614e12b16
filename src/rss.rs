//! Parameters of the feed command.

use vstd::prelude::*;

use crate::action::{BotAction, IrcChannel};
use crate::number::{decimal_spec, i64_text, int_text, parse_i64};
use crate::text::{concat, has_prefix, same_text, slice, split_ws, starts_with, words};

verus! {

/// What the feed command was asked to do.
#[derive(Debug)]
pub enum RssCommand {
    /// Follow the feed at this address.
    Add(String),
    /// Stop following the feed with this id.
    Remove(i64),
    /// List the feeds of the channel.
    List,
}

/// A feed followed on a channel.
#[derive(Debug)]
pub struct FeedInfo {
    pub id: i64,
    pub title: String,
    pub url: String,
    pub target: IrcChannel,
}

/// The scheme of `s` when `url::Url::parse` accepts it.
pub uninterp spec fn scheme_of(s: Seq<char>) -> Option<Seq<char>>;

/// Relies on `url::Url::parse` and `Url::scheme`: whether `s` is an absolute
/// URL, and its scheme when it is.
#[verifier::external_body]
fn url_scheme(s: &str) -> (r: Option<String>)
    ensures
        r is Some <==> scheme_of(s@) is Some,
        r is Some ==> r.unwrap()@ == scheme_of(s@).unwrap(),
{
    match url::Url::parse(s) {
        Ok(u) => Some(u.scheme().to_owned()),
        Err(_) => None,
    }
}

/// A feed address is accepted when it parses and its scheme begins with `http`.
pub open spec fn feed_url_ok(scheme: Option<Seq<char>>) -> bool {
    scheme is Some && starts_with(scheme.unwrap(), "http"@)
}

/// Whether a feed address with scheme `scheme` (none when the address does
/// not parse) is accepted.
pub fn accepts_feed_scheme(scheme: &Option<String>) -> (r: bool)
    ensures
        r == feed_url_ok(
            match scheme {
                Some(x) => Some(x@),
                None => None,
            },
        ),
{
    match scheme {
        Some(sc) => has_prefix(sc.as_str(), "http"),
        None => false,
    }
}

/// The command that `s` asks for, given the scheme that the address of an
/// `add` request parses to.
pub open spec fn rss_spec(s: Seq<char>, r: Option<RssCommand>) -> bool {
    if starts_with(s, "add "@) {
        let w = words(s.subrange(4, s.len() as int));
        if w.len() == 1 && feed_url_ok(scheme_of(w[0])) {
            r matches Some(RssCommand::Add(u)) && u@ == w[0]
        } else {
            r is None
        }
    } else if starts_with(s, "remove "@) {
        match decimal_spec(s.subrange(7, s.len() as int)) {
            Some(v) => r matches Some(RssCommand::Remove(id)) && id as int == v,
            None => r is None,
        }
    } else if s == "list"@ {
        r matches Some(RssCommand::List)
    } else {
        r is None
    }
}

/// Reads `add <url>`, `remove <id>` or `list`.
pub fn rsscommand_from_params(s: &str) -> (r: Option<RssCommand>)
    ensures
        rss_spec(s@, r),
{
    proof {
        reveal_strlit("add ");
        reveal_strlit("remove ");
    }
    let len = s.unicode_len();
    if has_prefix(s, "add ") {
        let params = slice(s, 4, len);
        let w = split_ws(params.as_str());
        proof {
            assert(w@.len() == words(params@).len());
        }
        if w.len() != 1 {
            return None;
        }
        proof {
            assert(w@[0]@ == words(params@)[0]);
        }
        if accepts_feed_scheme(&url_scheme(w[0].as_str())) {
            return Some(RssCommand::Add(w[0].clone()));
        }
        None
    } else if has_prefix(s, "remove ") {
        let params = slice(s, 7, len);
        match parse_i64(params.as_str()) {
            Some(id) => Some(RssCommand::Remove(id)),
            None => None,
        }
    } else if same_text(s, "list") {
        Some(RssCommand::List)
    } else {
        None
    }
}

/// The listing line of a feed: `id: title | url`.
pub open spec fn feed_line(f: FeedInfo) -> Seq<char> {
    int_text(f.id as int) + ": "@ + f.title@ + " | "@ + f.url@
}

/// One message per feed, in order, each with the feed's listing line.
pub fn list_feeds(source: &IrcChannel, feeds: &Vec<FeedInfo>) -> (r: Vec<BotAction>)
    ensures
        r@.len() == feeds@.len(),
        forall|i: int|
            0 <= i < feeds@.len() ==> (#[trigger] r@[i]).target == *source && r@[i].action_type
                is Message && r@[i].action_type.text() == feed_line(feeds@[i]),
{
    let mut out: Vec<BotAction> = Vec::new();
    let mut i: usize = 0;
    while i < feeds.len()
        invariant
            i <= feeds@.len(),
            out@.len() == i,
            forall|k: int|
                0 <= k < i ==> (#[trigger] out@[k]).target == *source && out@[k].action_type
                    is Message && out@[k].action_type.text() == feed_line(feeds@[k]),
        decreases feeds@.len() - i,
    {
        let f = &feeds[i];
        let id = i64_text(f.id);
        let a = concat(id.as_str(), ": ");
        let b = concat(a.as_str(), f.title.as_str());
        let c = concat(b.as_str(), " | ");
        let line = concat(c.as_str(), f.url.as_str());
        out.push(BotAction::message(source.duplicate(), line));
        i = i + 1;
    }
    out
}

/// The announcement of a new entry of a feed: `[feed] title <link>`.
pub fn entry_message(feed_title: &str, title: &str, link: &str) -> (r: String)
    ensures
        r@ == "["@ + feed_title@ + "] "@ + title@ + " <"@ + link@ + ">"@,
{
    let a = concat("[", feed_title);
    let b = concat(a.as_str(), "] ");
    let c = concat(b.as_str(), title);
    let d = concat(c.as_str(), " <");
    let e = concat(d.as_str(), link);
    concat(e.as_str(), ">")
}

/// How adding a feed went: fetching its address, reading it as a feed,
/// storing it.
#[derive(Debug)]
pub enum AddFeedOutcome {
    /// The address could not be fetched.
    FetchFailed(String),
    /// What came back is not a feed.
    ParseFailed,
    /// The feed with this title was stored.
    Stored(String),
    /// The feed with this title could not be stored.
    StoreFailed(String),
}

/// The answer to an `add` request, by how it went.
pub open spec fn add_feed_spec(o: AddFeedOutcome) -> Seq<char> {
    match o {
        AddFeedOutcome::FetchFailed(url) => "Error adding feed: Unable to get URL "@ + url@,
        AddFeedOutcome::ParseFailed => "Error adding feed: Unable to parse feed."@,
        AddFeedOutcome::Stored(title) => "Successfully added feed "@ + title@,
        AddFeedOutcome::StoreFailed(title) => "Error adding feed "@ + title@ + ": Database error"@,
    }
}

/// The answer to an `add` request.
pub fn add_feed_reply(o: &AddFeedOutcome) -> (r: String)
    ensures
        r@ == add_feed_spec(*o),
{
    match o {
        AddFeedOutcome::FetchFailed(url) => concat("Error adding feed: Unable to get URL ", url.as_str()),
        AddFeedOutcome::ParseFailed => "Error adding feed: Unable to parse feed.".to_owned(),
        AddFeedOutcome::Stored(title) => concat("Successfully added feed ", title.as_str()),
        AddFeedOutcome::StoreFailed(title) => {
            let a = concat("Error adding feed ", title.as_str());
            concat(a.as_str(), ": Database error")
        },
    }
}

/// How removing feed `id` from a channel went.
#[derive(Debug, PartialEq, Eq, Structural)]
pub enum RemoveFeedOutcome {
    Removed,
    /// The channel follows no feed with that id.
    NotInChannel,
    DatabaseError,
}

/// The answer to a `remove` request for feed `id`.
pub open spec fn remove_feed_spec(id: i64, o: RemoveFeedOutcome) -> Seq<char> {
    match o {
        RemoveFeedOutcome::Removed => "Removed feed id "@ + int_text(id as int),
        RemoveFeedOutcome::NotInChannel => "Feed "@ + int_text(id as int) + " does not exists in this channel"@,
        RemoveFeedOutcome::DatabaseError => "Database error"@,
    }
}

/// The answer to a `remove` request for feed `id`.
pub fn remove_feed_reply(id: i64, o: RemoveFeedOutcome) -> (r: String)
    ensures
        r@ == remove_feed_spec(id, o),
{
    match o {
        RemoveFeedOutcome::Removed => {
            let t = i64_text(id);
            concat("Removed feed id ", t.as_str())
        },
        RemoveFeedOutcome::NotInChannel => {
            let t = i64_text(id);
            let a = concat("Feed ", t.as_str());
            concat(a.as_str(), " does not exists in this channel")
        },
        RemoveFeedOutcome::DatabaseError => "Database error".to_owned(),
    }
}

/// An entry of a fetched feed: its title, its first link, and whether it
/// was announced already.
#[derive(Debug)]
pub struct FeedEntry {
    pub title: Option<String>,
    pub link: Option<String>,
    pub posted: bool,
}

/// The announcement text of entry `e` of the feed titled `feed_title`.
pub open spec fn announce_text(feed_title: Seq<char>, e: FeedEntry) -> Seq<char> {
    let title = match e.title {
        Some(t) => t@,
        None => Seq::empty(),
    };
    "["@ + feed_title + "] "@ + title + " <"@ + e.link.unwrap()@ + ">"@
}

/// The texts announcing the first `n` entries that have a link and were not
/// announced yet, in order.
pub open spec fn announce_spec(feed_title: Seq<char>, entries: Seq<FeedEntry>, n: int) -> Seq<Seq<char>>
    decreases n,
{
    if n <= 0 {
        Seq::empty()
    } else {
        let rest = announce_spec(feed_title, entries, n - 1);
        let e = entries[n - 1];
        if e.link is Some && !e.posted {
            rest.push(announce_text(feed_title, e))
        } else {
            rest
        }
    }
}

/// The messages that announce the new entries of `feed` on its channel.
pub fn announcements(feed: &FeedInfo, entries: &Vec<FeedEntry>) -> (r: Vec<BotAction>)
    ensures
        forall|i: int| 0 <= i < r@.len() ==> (#[trigger] r@[i]).target == feed.target && r@[i].action_type is Message,
        r@.map_values(|a: BotAction| a.action_type.text()) == announce_spec(feed.title@, entries@, entries@.len() as int),
{
    let mut out: Vec<BotAction> = Vec::new();
    let mut i: usize = 0;
    while i < entries.len()
        invariant
            i <= entries@.len(),
            forall|k: int| 0 <= k < out@.len() ==> (#[trigger] out@[k]).target == feed.target && out@[k].action_type is Message,
            out@.map_values(|a: BotAction| a.action_type.text()) == announce_spec(feed.title@, entries@, i as int),
        decreases entries@.len() - i,
    {
        let e = &entries[i];
        if !e.posted {
            if let Some(link) = &e.link {
                let title = match &e.title {
                    Some(t) => t.clone(),
                    None => String::new(),
                };
                let text = entry_message(feed.title.as_str(), title.as_str(), link.as_str());
                let ghost before = out@.map_values(|a: BotAction| a.action_type.text());
                out.push(BotAction::message(feed.target.duplicate(), text));
                assert(out@.map_values(|a: BotAction| a.action_type.text()) =~= before.push(
                    announce_text(feed.title@, entries@[i as int]),
                ));
            }
        }
        i = i + 1;
    }
    out
}

} // verus!
