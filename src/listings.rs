//! Short listings: free games, the marathon's runs, voice-chat users.

use vstd::prelude::*;

use crate::number::{i64_text, int_text};
use crate::text::{concat, join, join_spec, same_text, slice};
use vstd::string::StrSliceExecFns;

verus! {

/// The free-games announcement for the game titles `games`.
pub open spec fn epic_spec(games: Seq<Seq<char>>) -> Seq<char> {
    if games.len() == 0 {
        "Ei ilmaisia pelejä Epicissä."@
    } else {
        "Epicissä nyt ilmaiseksi: "@ + join_spec(games, ", "@)
    }
}

/// The free-games announcement.
pub fn epic_message(games: &Vec<String>) -> (r: String)
    ensures
        r@ == epic_spec(games@.map_values(|g: String| g@)),
{
    if games.len() == 0 {
        "Ei ilmaisia pelejä Epicissä.".to_owned()
    } else {
        let list = join(games, ", ");
        concat("Epicissä nyt ilmaiseksi: ", list.as_str())
    }
}

/// The marathon's current and next run.
pub fn gdq_message(now: &str, next: &str) -> (r: String)
    ensures
        r@ == "Now playing: "@ + now@ + " | Up next: "@ + next@,
{
    let a = concat("Now playing: ", now);
    let b = concat(a.as_str(), " | Up next: ");
    concat(b.as_str(), next)
}

/// Who is on the voice-chat server.
pub open spec fn voice_spec(nicks: Seq<Seq<char>>) -> Seq<char> {
    if nicks.len() == 0 {
        "TS:ssä ei ole ketään"@
    } else if nicks.len() == 1 {
        "TS:ssä on 1 käyttäjä: "@ + nicks[0]
    } else {
        "TS:ssä on "@ + int_text(nicks.len() as int) + " käyttäjää: "@ + join_spec(nicks, ", "@)
    }
}

/// Who is on the voice-chat server.
pub fn voice_message(nicks: &Vec<String>) -> (r: String)
    requires
        nicks@.len() <= i64::MAX,
    ensures
        r@ == voice_spec(nicks@.map_values(|n: String| n@)),
{
    if nicks.len() == 0 {
        "TS:ssä ei ole ketään".to_owned()
    } else if nicks.len() == 1 {
        concat("TS:ssä on 1 käyttäjä: ", nicks[0].as_str())
    } else {
        let count = i64_text(nicks.len() as i64);
        let a = concat("TS:ssä on ", count.as_str());
        let b = concat(a.as_str(), " käyttäjää: ");
        let list = join(nicks, ", ");
        concat(b.as_str(), list.as_str())
    }
}

/// A game of the store's promotions, as far as the free-games list reads it:
/// the offer's start and end as Unix seconds, absent when missing or unreadable.
#[derive(Debug)]
pub struct GameOffer {
    pub title: Option<String>,
    pub discount_price: Option<u64>,
    pub start: Option<i64>,
    pub end: Option<i64>,
}

/// A game is free now when it has a title other than the placeholder
/// `Mystery Game`, costs nothing, and its offer runs at `now`.
pub open spec fn free_now(g: GameOffer, now: i64) -> bool {
    &&& g.title is Some
    &&& g.title.unwrap()@ != "Mystery Game"@
    &&& g.discount_price == Some(0u64)
    &&& g.start is Some && g.end is Some
    &&& g.start.unwrap() <= now <= g.end.unwrap()
}

/// The titles of the games that are free at `now`, in the order given.
pub open spec fn free_titles(games: Seq<GameOffer>, now: i64) -> Seq<Seq<char>>
    decreases games.len(),
{
    if games.len() == 0 {
        Seq::empty()
    } else {
        let rest = free_titles(games.drop_last(), now);
        if free_now(games.last(), now) {
            rest.push(games.last().title.unwrap()@)
        } else {
            rest
        }
    }
}

/// The titles of the games that are free at `now` (Unix seconds).
pub fn free_games(games: &Vec<GameOffer>, now: i64) -> (r: Vec<String>)
    ensures
        r@.map_values(|t: String| t@) == free_titles(games@, now),
{
    let mut out: Vec<String> = Vec::new();
    let mut i: usize = 0;
    while i < games.len()
        invariant
            i <= games@.len(),
            out@.map_values(|t: String| t@) == free_titles(games@.subrange(0, i as int), now),
        decreases games@.len() - i,
    {
        let g = &games[i];
        let ghost before = out@.map_values(|t: String| t@);
        proof {
            assert(games@.subrange(0, i + 1).drop_last() =~= games@.subrange(0, i as int));
            assert(games@.subrange(0, i + 1).last() == games@[i as int]);
        }
        let ok = match (&g.title, g.discount_price, g.start, g.end) {
            (Some(t), Some(p), Some(a), Some(b)) => !same_text(t.as_str(), "Mystery Game") && p == 0
                && a <= now && now <= b,
            _ => false,
        };
        if ok {
            match &g.title {
                Some(t) => {
                    out.push(t.clone());
                    assert(out@.map_values(|t: String| t@) =~= before.push(t@));
                },
                None => {},
            }
        }
        i = i + 1;
    }
    assert(games@.subrange(0, games@.len() as int) =~= games@);
    out
}

/// A client connected to the voice-chat server: its type (0 for a person,
/// other values for query connections) and its nickname.
#[derive(Debug)]
pub struct VoiceClient {
    pub client_type: i64,
    pub nickname: String,
}

/// The first characters of a nickname, up to at least two bytes of UTF-8:
/// two characters when the first is ASCII, otherwise one.
pub open spec fn short_nick(n: Seq<char>) -> Seq<char> {
    if n.len() == 0 {
        Seq::empty()
    } else if (n[0] as u32) < 0x80 && n.len() >= 2 {
        n.subrange(0, 2)
    } else {
        n.subrange(0, 1)
    }
}

/// The shortened nicknames of the people among the first `k` clients, in order.
pub open spec fn people_spec(clients: Seq<VoiceClient>, k: int) -> Seq<Seq<char>>
    decreases k,
{
    if k <= 0 {
        Seq::empty()
    } else {
        let rest = people_spec(clients, k - 1);
        if clients[k - 1].client_type == 0 {
            rest.push(short_nick(clients[k - 1].nickname@))
        } else {
            rest
        }
    }
}

/// The shortened nicknames of the people connected to the voice-chat server.
pub fn people(clients: &Vec<VoiceClient>) -> (r: Vec<String>)
    ensures
        r@.map_values(|n: String| n@) == people_spec(clients@, clients@.len() as int),
{
    let mut out: Vec<String> = Vec::new();
    let mut i: usize = 0;
    while i < clients.len()
        invariant
            i <= clients@.len(),
            out@.map_values(|n: String| n@) == people_spec(clients@, i as int),
        decreases clients@.len() - i,
    {
        let c = &clients[i];
        if c.client_type == 0 {
            let n = c.nickname.as_str();
            let len = n.unicode_len();
            let short = if len == 0 {
                String::new()
            } else if (n.get_char(0) as u32) < 0x80 && len >= 2 {
                slice(n, 0, 2)
            } else {
                slice(n, 0, 1)
            };
            let ghost before = out@.map_values(|n: String| n@);
            out.push(short);
            proof {
                if len == 0 {
                    assert(short@ =~= short_nick(c.nickname@));
                }
            }
            assert(out@.map_values(|n: String| n@) =~= before.push(short_nick(c.nickname@)));
        }
        i = i + 1;
    }
    out
}

/// A row of the marathon's schedule: when the run starts (Unix seconds;
/// absent when unreadable) and the game.
#[derive(Debug)]
pub struct Run {
    pub start: Option<i64>,
    pub game: String,
}

/// The position of the first run from `i` on that starts at or after `now`
/// (the length if none).
pub open spec fn first_upcoming(runs: Seq<Run>, now: i64, i: int) -> int
    decreases runs.len() - i,
{
    if i < 0 || i >= runs.len() {
        runs.len() as int
    } else if runs[i].start is Some && runs[i].start.unwrap() >= now {
        i
    } else {
        first_upcoming(runs, now, i + 1)
    }
}

/// The game of the last run before position `k` that has started by `now`
/// (empty if none).
pub open spec fn last_started(runs: Seq<Run>, now: i64, k: int) -> Seq<char>
    decreases k,
{
    if k <= 0 {
        Seq::empty()
    } else if runs[k - 1].start is Some && runs[k - 1].start.unwrap() < now {
        runs[k - 1].game@
    } else {
        last_started(runs, now, k - 1)
    }
}

/// The game being played at `now` and the next one, as the schedule gives
/// them (empty when not found).
pub fn current_and_next(runs: &Vec<Run>, now: i64) -> (r: (String, String))
    ensures
        r.0@ == last_started(runs@, now, first_upcoming(runs@, now, 0)),
        r.1@ == (if first_upcoming(runs@, now, 0) < runs@.len() {
            runs@[first_upcoming(runs@, now, 0)].game@
        } else {
            Seq::<char>::empty()
        }),
{
    let mut current = String::new();
    let mut i: usize = 0;
    while i < runs.len()
        invariant
            i <= runs@.len(),
            first_upcoming(runs@, now, 0) == first_upcoming(runs@, now, i as int),
            current@ == last_started(runs@, now, i as int),
        decreases runs@.len() - i,
    {
        let r = &runs[i];
        match r.start {
            Some(t) => {
                if t < now {
                    current = r.game.clone();
                } else {
                    return (current, r.game.clone());
                }
            },
            None => {},
        }
        i = i + 1;
    }
    (current, String::new())
}

} // verus!
