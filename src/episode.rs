//! The message about a TV show's previous and next episode.

use vstd::prelude::*;

use crate::number::{i64_text, int_text};
use crate::text::concat;

verus! {

/// The date an episode airs, and how many days from today that is
/// (negative for a day in the past).
#[derive(Debug)]
pub struct AirDate {
    pub year: i64,
    pub month: u32,
    pub day: u32,
    pub days_from_today: i64,
}

#[derive(Debug)]
pub struct EpData {
    pub name: Option<String>,
    pub airdate: Option<AirDate>,
    pub season: Option<i64>,
    pub number: Option<i64>,
}

#[derive(Debug)]
pub enum ShowStatus {
    Running,
    Ended,
    InDevelopment,
    Tbd,
}

#[derive(Debug)]
pub struct ShowData {
    pub showname: String,
    pub status: Option<ShowStatus>,
    pub previousep: Option<EpData>,
    pub nextep: Option<EpData>,
}

/// At least two digits, with a leading zero below ten.
pub open spec fn pad2(n: int) -> Seq<char> {
    if 0 <= n < 10 {
        "0"@ + int_text(n)
    } else {
        int_text(n)
    }
}

/// `YYYY-MM-DD`.
pub open spec fn date_text(d: AirDate) -> Seq<char> {
    int_text(d.year as int) + "-"@ + pad2(d.month as int) + "-"@ + pad2(d.day as int)
}

/// How long ago an episode aired, `ago` days back.
pub open spec fn since_text(ago: int) -> Seq<char> {
    if ago == 0 {
        ", today"@
    } else if ago == 1 {
        ", yesterday"@
    } else if 2 <= ago <= 364 {
        ", "@ + int_text(ago) + " days ago"@
    } else if 365 <= ago <= 729 {
        ", 1 year ago"@
    } else if ago >= 730 {
        ", "@ + int_text(ago / 365) + " years ago"@
    } else {
        Seq::empty()
    }
}

/// How long until an episode airs, `ahead` days on.
pub open spec fn until_text(ahead: int) -> Seq<char> {
    if ahead == 0 {
        ", today"@
    } else if ahead == 1 {
        ", tomorrow"@
    } else if ahead >= 2 {
        ", "@ + int_text(ahead) + " days from now"@
    } else {
        Seq::empty()
    }
}

/// `SxN`: season and episode number.
pub open spec fn sxe(season: i64, number: i64) -> Seq<char> {
    int_text(season as int) + "x"@ + int_text(number as int)
}

/// The message about the next episode of a running show.
pub open spec fn next_spec(d: ShowData) -> Seq<char> {
    let show = d.showname@;
    match d.nextep {
        Some(n) => match n.airdate {
            Some(a) => {
                let when = date_text(a) + until_text(a.days_from_today as int);
                if n.season is Some && n.number is Some && n.name is Some {
                    "Next episode of "@ + show + " "@ + sxe(n.season.unwrap(), n.number.unwrap())
                        + " '"@ + n.name.unwrap()@ + "' airs on "@ + when
                } else if n.name is Some {
                    "Next episode of "@ + show + " '"@ + n.name.unwrap()@ + "' airs on "@ + when
                } else {
                    "Next episode of "@ + show + " airs on "@ + date_text(a)
                }
            },
            None => "Next episode of "@ + show + " not found"@,
        },
        None => match d.previousep {
            Some(p) => if p.number is Some && p.season is Some && p.airdate is Some && p.name is Some {
                let a = p.airdate.unwrap();
                "No airdate found for next episode of "@ + show + ". Last episode "@ + sxe(
                    p.season.unwrap(),
                    p.number.unwrap(),
                ) + " '"@ + p.name.unwrap()@ + "' aired on "@ + date_text(a) + since_text(
                    -(a.days_from_today as int),
                )
            } else {
                "No episode of "@ + show + " found"@
            },
            None => "No airdate found for next episode of "@ + show,
        },
    }
}

/// The message about a show, by its status.
pub open spec fn show_spec(d: ShowData) -> Seq<char> {
    let show = d.showname@;
    match d.status {
        Some(ShowStatus::Running) => next_spec(d),
        Some(ShowStatus::Tbd) => next_spec(d),
        Some(ShowStatus::Ended) => match d.previousep {
            Some(p) => match p.airdate {
                Some(a) => {
                    let when = date_text(a) + since_text(-(a.days_from_today as int));
                    if p.name is Some && p.number is Some && p.season is Some {
                        "Last episode of "@ + show + " "@ + sxe(p.season.unwrap(), p.number.unwrap())
                            + " '"@ + p.name.unwrap()@ + "' aired on "@ + when
                    } else {
                        show + " ended on "@ + when
                    }
                },
                None => show + " has ended"@,
            },
            None => show + " has ended"@,
        },
        Some(ShowStatus::InDevelopment) => match d.nextep {
            Some(n) => match n.airdate {
                Some(a) => show + " will premiere on "@ + date_text(a) + until_text(
                    a.days_from_today as int,
                ),
                None => show + " is in development"@,
            },
            None => show + " is in development"@,
        },
        None => "Unknown status"@,
    }
}

fn pad2_exec(n: u32) -> (r: String)
    ensures
        r@ == pad2(n as int),
{
    let t = i64_text(n as i64);
    if n < 10 {
        concat("0", t.as_str())
    } else {
        t
    }
}

fn date_exec(d: &AirDate) -> (r: String)
    ensures
        r@ == date_text(*d),
{
    let y = i64_text(d.year);
    let m = pad2_exec(d.month);
    let dd = pad2_exec(d.day);
    let a = concat(y.as_str(), "-");
    let b = concat(a.as_str(), m.as_str());
    let c = concat(b.as_str(), "-");
    concat(c.as_str(), dd.as_str())
}

fn since_exec(ago: i64) -> (r: String)
    ensures
        r@ == since_text(ago as int),
{
    if ago == 0 {
        ", today".to_owned()
    } else if ago == 1 {
        ", yesterday".to_owned()
    } else if 2 <= ago && ago <= 364 {
        let t = i64_text(ago);
        let a = concat(", ", t.as_str());
        concat(a.as_str(), " days ago")
    } else if 365 <= ago && ago <= 729 {
        ", 1 year ago".to_owned()
    } else if ago >= 730 {
        let t = i64_text(ago / 365);
        let a = concat(", ", t.as_str());
        concat(a.as_str(), " years ago")
    } else {
        String::new()
    }
}

fn until_exec(ahead: i64) -> (r: String)
    ensures
        r@ == until_text(ahead as int),
{
    if ahead == 0 {
        ", today".to_owned()
    } else if ahead == 1 {
        ", tomorrow".to_owned()
    } else if ahead >= 2 {
        let t = i64_text(ahead);
        let a = concat(", ", t.as_str());
        concat(a.as_str(), " days from now")
    } else {
        String::new()
    }
}

/// How long ago, from days from today: `-days`, where that fits.
fn ago_of(days: i64) -> (r: i64)
    ensures
        days > i64::MIN ==> r as int == -(days as int),
        days == i64::MIN ==> since_text(r as int) == since_text(-(days as int)),
{
    if days == i64::MIN {
        i64::MAX
    } else {
        -days
    }
}

fn sxe_exec(season: i64, number: i64) -> (r: String)
    ensures
        r@ == sxe(season, number),
{
    let s = i64_text(season);
    let n = i64_text(number);
    let a = concat(s.as_str(), "x");
    concat(a.as_str(), n.as_str())
}

/// Joins the pieces of a message, in order.
fn cat(parts: &Vec<&str>) -> (r: String)
    ensures
        r@ == parts@.fold_left(Seq::<char>::empty(), |acc: Seq<char>, p: &str| acc + p@),
{
    let mut out = String::new();
    let mut i: usize = 0;
    while i < parts.len()
        invariant
            i <= parts@.len(),
            out@ == parts@.subrange(0, i as int).fold_left(
                Seq::<char>::empty(),
                |acc: Seq<char>, p: &str| acc + p@,
            ),
        decreases parts@.len() - i,
    {
        let ghost before = parts@.subrange(0, i as int);
        out.append(parts[i]);
        proof {
            assert(parts@.subrange(0, i + 1).drop_last() =~= before);
        }
        i = i + 1;
    }
    assert(parts@.subrange(0, parts@.len() as int) =~= parts@);
    out
}

/// The message about the next episode of a running show.
fn next_ep_msg(d: &ShowData) -> (r: String)
    ensures
        r@ == next_spec(*d),
{
    let show = d.showname.as_str();
    match &d.nextep {
        Some(n) => match &n.airdate {
            Some(a) => {
                let date = date_exec(a);
                let until = until_exec(a.days_from_today);
                match (&n.season, &n.number, &n.name) {
                    (Some(s), Some(num), Some(name)) => {
                        let e = sxe_exec(*s, *num);
                        let r = cat(
                            &vec![
                                "Next episode of ",
                                show,
                                " ",
                                e.as_str(),
                                " '",
                                name.as_str(),
                                "' airs on ",
                                date.as_str(),
                                until.as_str(),
                            ],
                        );
                        reveal_with_fuel(Seq::fold_left, 10);
                        r
                    },
                    (_, _, Some(name)) => {
                        let r = cat(
                            &vec![
                                "Next episode of ",
                                show,
                                " '",
                                name.as_str(),
                                "' airs on ",
                                date.as_str(),
                                until.as_str(),
                            ],
                        );
                        reveal_with_fuel(Seq::fold_left, 8);
                        r
                    },
                    _ => {
                        let r = cat(&vec!["Next episode of ", show, " airs on ", date.as_str()]);
                        reveal_with_fuel(Seq::fold_left, 5);
                        r
                    },
                }
            },
            None => {
                let r = cat(&vec!["Next episode of ", show, " not found"]);
                reveal_with_fuel(Seq::fold_left, 4);
                r
            },
        },
        None => match &d.previousep {
            Some(p) => match (&p.number, &p.season, &p.airdate, &p.name) {
                (Some(num), Some(s), Some(a), Some(name)) => {
                    let e = sxe_exec(*s, *num);
                    let date = date_exec(a);
                    let since = since_exec(ago_of(a.days_from_today));
                    let r = cat(
                        &vec![
                            "No airdate found for next episode of ",
                            show,
                            ". Last episode ",
                            e.as_str(),
                            " '",
                            name.as_str(),
                            "' aired on ",
                            date.as_str(),
                            since.as_str(),
                        ],
                    );
                    reveal_with_fuel(Seq::fold_left, 10);
                    r
                },
                _ => {
                    let r = cat(&vec!["No episode of ", show, " found"]);
                    reveal_with_fuel(Seq::fold_left, 4);
                    r
                },
            },
            None => concat("No airdate found for next episode of ", show),
        },
    }
}

/// The message about a show: its next episode while it runs, its last one
/// once it has ended, its premiere while it is in development.
pub fn generate_msg(d: &ShowData) -> (r: String)
    ensures
        r@ == show_spec(*d),
{
    let show = d.showname.as_str();
    match &d.status {
        Some(ShowStatus::Running) => next_ep_msg(d),
        Some(ShowStatus::Tbd) => next_ep_msg(d),
        Some(ShowStatus::Ended) => match &d.previousep {
            Some(p) => match &p.airdate {
                Some(a) => {
                    let date = date_exec(a);
                    let since = since_exec(ago_of(a.days_from_today));
                    match (&p.name, &p.number, &p.season) {
                        (Some(name), Some(num), Some(s)) => {
                            let e = sxe_exec(*s, *num);
                            let r = cat(
                                &vec![
                                    "Last episode of ",
                                    show,
                                    " ",
                                    e.as_str(),
                                    " '",
                                    name.as_str(),
                                    "' aired on ",
                                    date.as_str(),
                                    since.as_str(),
                                ],
                            );
                            reveal_with_fuel(Seq::fold_left, 10);
                            r
                        },
                        _ => {
                            let r = cat(&vec![show, " ended on ", date.as_str(), since.as_str()]);
                            reveal_with_fuel(Seq::fold_left, 5);
                            r
                        },
                    }
                },
                None => concat(show, " has ended"),
            },
            None => concat(show, " has ended"),
        },
        Some(ShowStatus::InDevelopment) => match &d.nextep {
            Some(n) => match &n.airdate {
                Some(a) => {
                    let date = date_exec(a);
                    let until = until_exec(a.days_from_today);
                    let r = cat(&vec![show, " will premiere on ", date.as_str(), until.as_str()]);
                    reveal_with_fuel(Seq::fold_left, 5);
                    r
                },
                None => concat(show, " is in development"),
            },
            None => concat(show, " is in development"),
        },
        None => "Unknown status".to_owned(),
    }
}

/// An entry of a show's episode list: when it airs (Unix seconds; absent
/// when missing or unreadable) and what is known of it.
#[derive(Debug)]
pub struct Episode {
    pub airstamp: Option<i64>,
    pub data: EpData,
}

/// The first position at or after `i` of an episode that airs after `now`
/// (the length if none).
pub open spec fn first_after(eps: Seq<Episode>, now: i64, i: int) -> int
    decreases eps.len() - i,
{
    if i < 0 || i >= eps.len() {
        eps.len() as int
    } else if eps[i].airstamp is Some && eps[i].airstamp.unwrap() > now {
        i
    } else {
        first_after(eps, now, i + 1)
    }
}

/// The next episode: the first in the list that airs after `now`, when its
/// name, season and number are known.
pub open spec fn next_ep_spec(eps: Seq<Episode>, now: i64) -> Option<int> {
    let k = first_after(eps, now, 0);
    if k < eps.len() && eps[k].data.name is Some && eps[k].data.season is Some
        && eps[k].data.number is Some {
        Some(k)
    } else {
        None
    }
}

/// The position of the next episode in the list, if it is fully known.
pub fn next_ep_from_eplist(eps: &Vec<Episode>, now: i64) -> (r: Option<usize>)
    ensures
        match next_ep_spec(eps@, now) {
            Some(k) => r == Some(k as usize),
            None => r is None,
        },
{
    let mut i: usize = 0;
    while i < eps.len()
        invariant
            i <= eps@.len(),
            first_after(eps@, now, 0) == first_after(eps@, now, i as int),
        decreases eps@.len() - i,
    {
        let e = &eps[i];
        let after = match e.airstamp {
            Some(t) => t > now,
            None => false,
        };
        if after {
            if e.data.name.is_some() && e.data.season.is_some() && e.data.number.is_some() {
                return Some(i);
            }
            return None;
        }
        i = i + 1;
    }
    None
}

/// The position of the last episode in the list, if there is one.
pub fn last_ep_from_eplist(eps: &Vec<Episode>) -> (r: Option<usize>)
    ensures
        eps@.len() == 0 <==> r is None,
        r is Some ==> r.unwrap() + 1 == eps@.len(),
{
    if eps.len() == 0 {
        None
    } else {
        Some(eps.len() - 1)
    }
}

} // verus!
