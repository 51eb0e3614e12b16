//! Web addresses in messages, and the titles of the pages behind them.

use vstd::prelude::*;

use crate::command::url_at;
use crate::number::{natural_spec, parse_u64};
use crate::text::{
    concat, has_prefix, has_prefix_at, occurs_at, replace_all, replace_text, same_text, slice,
    starts_with, trim, trimmed,
};
use vstd::string::StrSliceExecFns;

verus! {

/// The length of the scheme of the address that starts at `i`.
pub open spec fn scheme_len(s: Seq<char>, i: int) -> int {
    if occurs_at(s, "https://"@, i) && i + 8 < s.len() && s[i + 8] != ' ' {
        8
    } else {
        7
    }
}

/// The first position at or after `j` that holds a space (the length if none).
pub open spec fn space_end(s: Seq<char>, j: int) -> int
    decreases s.len() - j,
{
    if j < 0 || j >= s.len() || s[j] == ' ' {
        j
    } else {
        space_end(s, j + 1)
    }
}

/// The first position at or after `p` where a web address starts (the
/// length if none).
pub open spec fn next_url(s: Seq<char>, p: int) -> int
    decreases s.len() - p,
{
    if p < 0 || p >= s.len() {
        s.len() as int
    } else if url_at(s, p) {
        p
    } else {
        next_url(s, p + 1)
    }
}

/// The web addresses in `s` from position `p` on, left to right: each runs
/// from `http://` or `https://` to the next space or the end.
pub open spec fn urls_from(s: Seq<char>, p: int) -> Seq<Seq<char>>
    decreases s.len() - p,
{
    let i = next_url(s, p);
    let e = space_end(s, i + scheme_len(s, i));
    if i >= s.len() || e <= p || e > s.len() {
        Seq::empty()
    } else {
        seq![s.subrange(i, e)] + urls_from(s, e)
    }
}

fn url_at_exec(s: &str, len: usize, i: usize) -> (r: (bool, usize))
    requires
        len == s@.len(),
        i < len,
    ensures
        r.0 == url_at(s@, i as int),
        r.0 ==> r.1 == scheme_len(s@, i as int) && i + r.1 < len,
{
    proof {
        reveal_strlit("http://");
        reveal_strlit("https://");
    }
    let secure = has_prefix_at(s, len, "https://", 8, i) && i + 8 < len && s.get_char(i + 8) != ' ';
    if secure {
        return (true, 8);
    }
    let plain = has_prefix_at(s, len, "http://", 7, i) && i + 7 < len && s.get_char(i + 7) != ' ';
    (plain, 7)
}

/// Where the next web address at or after `p` starts, and the length of its scheme.
fn next_url_exec(s: &str, len: usize, p: usize) -> (r: (usize, usize))
    requires
        len == s@.len(),
        p <= len,
    ensures
        r.0 == next_url(s@, p as int),
        p <= r.0 <= len,
        r.0 < len ==> r.1 == scheme_len(s@, r.0 as int) && r.0 + r.1 < len,
{
    let mut i = p;
    while i < len
        invariant
            len == s@.len(),
            p <= i <= len,
            next_url(s@, p as int) == next_url(s@, i as int),
        decreases len - i,
    {
        let (hit, n) = url_at_exec(s, len, i);
        if hit {
            return (i, n);
        }
        i = i + 1;
    }
    (len, 0)
}

/// The web addresses in `s`, left to right.
pub fn find_urls(s: &str) -> (r: Vec<String>)
    ensures
        r@.map_values(|u: String| u@) == urls_from(s@, 0),
{
    let len = s.unicode_len();
    let mut out: Vec<String> = Vec::new();
    let mut p: usize = 0;
    loop
        invariant
            len == s@.len(),
            p <= len,
            out@.map_values(|u: String| u@) + urls_from(s@, p as int) == urls_from(s@, 0),
        decreases len - p,
    {
        let (i, sl) = next_url_exec(s, len, p);
        if i >= len {
            assert(urls_from(s@, p as int) == Seq::<Seq<char>>::empty());
            assert(out@.map_values(|u: String| u@) + Seq::<Seq<char>>::empty() =~= out@.map_values(
                |u: String| u@,
            ));
            return out;
        }
        let mut e = i + sl;
        while e < len && s.get_char(e) != ' '
            invariant
                len == s@.len(),
                i + sl <= e <= len,
                space_end(s@, (i + sl) as int) == space_end(s@, e as int),
            decreases len - e,
        {
            e = e + 1;
        }
        let u = slice(s, i, e);
        let ghost before = out@.map_values(|u: String| u@);
        out.push(u);
        assert(out@.map_values(|u: String| u@) =~= before.push(s@.subrange(i as int, e as int)));
        assert(before + urls_from(s@, p as int) =~= before.push(s@.subrange(i as int, e as int))
            + urls_from(s@, e as int));
        p = e;
    }
}

/// Whether a page is worth fetching for its title, from its content type
/// and content length headers: it must be HTML, and at most 2048 kB.
pub open spec fn fetch_spec(content_type: Option<Seq<char>>, content_length: Option<Seq<char>>) -> bool {
    &&& (content_type is Some ==> starts_with(content_type.unwrap(), "text/html"@))
    &&& (content_length is Some ==> natural_spec(content_length.unwrap()) is Some
        && natural_spec(content_length.unwrap()).unwrap() / 1024 <= 2048)
}

/// Whether a page is worth fetching for its title.
pub fn should_fetch(content_type: Option<&str>, content_length: Option<&str>) -> (r: bool)
    ensures
        r == fetch_spec(
            match content_type {
                Some(t) => Some(t@),
                None => None,
            },
            match content_length {
                Some(l) => Some(l@),
                None => None,
            },
        ),
{
    if let Some(t) = content_type {
        if !has_prefix(t, "text/html") {
            return false;
        }
    }
    if let Some(l) = content_length {
        match parse_u64(l) {
            Some(n) => {
                if n / 1024 > 2048 {
                    return false;
                }
            },
            None => return false,
        }
    }
    true
}

/// A `meta` element of a page: its `property` and `content` attributes.
#[derive(Debug)]
pub struct MetaTag {
    pub property: Option<String>,
    pub content: Option<String>,
}

/// The title a page announces in `og:title` meta elements: the last one
/// that has content, looking at the elements before position `n`.
pub open spec fn og_title(metas: Seq<MetaTag>, n: int) -> Option<String>
    decreases n,
{
    if n <= 0 {
        None
    } else {
        let m = metas[n - 1];
        if m.property is Some && m.property.unwrap()@ == "og:title"@ && m.content is Some {
            m.content
        } else {
            og_title(metas, n - 1)
        }
    }
}

/// The announced title text: line breaks and tabs become spaces, and the
/// surrounding white space goes.
pub open spec fn title_spec(t: Seq<char>) -> Seq<char> {
    "Title: "@ + trimmed(replace_all(replace_all(replace_all(t, "\n"@, " "@), "\r"@, " "@), "\t"@, " "@))
}

/// The position of the last `og:title` meta element with content.
fn og_index(metas: &Vec<MetaTag>) -> (r: Option<usize>)
    ensures
        match r {
            Some(k) => k < metas@.len() && og_title(metas@, metas@.len() as int) == metas@[k as int].content
                && metas@[k as int].content is Some,
            None => og_title(metas@, metas@.len() as int) is None,
        },
{
    let mut n = metas.len();
    while n > 0
        invariant
            n <= metas@.len(),
            og_title(metas@, metas@.len() as int) == og_title(metas@, n as int),
        decreases n,
    {
        let m = &metas[n - 1];
        if let (Some(p), Some(_)) = (&m.property, &m.content) {
            if same_text(p.as_str(), "og:title") {
                return Some(n - 1);
            }
        }
        n = n - 1;
    }
    None
}

/// The title line for a page: from its `og:title` meta element when it has
/// one, otherwise from its first `title` element.
pub fn page_title(metas: &Vec<MetaTag>, first_title: Option<String>) -> (r: Option<String>)
    ensures
        match og_title(metas@, metas@.len() as int) {
            Some(t) => r is Some && r.unwrap()@ == title_spec(t@),
            None => match first_title {
                Some(t) => r is Some && r.unwrap()@ == title_spec(t@),
                None => r is None,
            },
        },
{
    let chosen: Option<String> = match og_index(metas) {
        Some(k) => match &metas[k].content {
            Some(c) => Some(c.clone()),
            None => None,
        },
        None => first_title,
    };
    proof {
        reveal_strlit("\n");
        reveal_strlit("\r");
        reveal_strlit("\t");
    }
    match chosen {
        Some(t) => {
            let a = replace_text(t.as_str(), "\n", " ");
            let b = replace_text(a.as_str(), "\r", " ");
            let c = replace_text(b.as_str(), "\t", " ");
            let d = trim(c.as_str());
            Some(concat("Title: ", d.as_str()))
        },
        None => None,
    }
}

/// The first position at or after `j` that holds `/` (the length if none).
pub open spec fn slash_end(s: Seq<char>, j: int) -> int
    decreases s.len() - j,
{
    if j < 0 || j >= s.len() || s[j] == '/' {
        j
    } else {
        slash_end(s, j + 1)
    }
}

/// Where the host of an address starting at `i` begins, after `https://`
/// or `http://` (-1 when neither starts there).
pub open spec fn host_start(s: Seq<char>, i: int) -> int {
    if occurs_at(s, "https://"@, i) {
        i + 8
    } else if occurs_at(s, "http://"@, i) {
        i + 7
    } else {
        -1
    }
}

/// A Wikipedia article address follows from `j`: a two-character language,
/// `.wikipedia`, any one character, `org/wiki/`, and a title without `/`.
pub open spec fn wiki_body(s: Seq<char>, j: int) -> bool {
    &&& 0 <= j && j + 22 < s.len()
    &&& s[j] != '\n' && s[j + 1] != '\n'
    &&& s[j + 2] == '.'
    &&& occurs_at(s, "wikipedia"@, j + 3)
    &&& s[j + 12] != '\n'
    &&& occurs_at(s, "org/wiki/"@, j + 13)
    &&& s[j + 22] != '/'
}

pub open spec fn wiki_at(s: Seq<char>, i: int) -> bool {
    host_start(s, i) >= 0 && wiki_body(s, host_start(s, i))
}

/// The first position at or after `p` where a Wikipedia article address
/// starts (the length if none).
pub open spec fn next_wiki(s: Seq<char>, p: int) -> int
    decreases s.len() - p,
{
    if p < 0 || p >= s.len() {
        s.len() as int
    } else if wiki_at(s, p) {
        p
    } else {
        next_wiki(s, p + 1)
    }
}

/// The language and the title of the first Wikipedia article address in `s`.
pub open spec fn wiki_spec(s: Seq<char>) -> Option<(Seq<char>, Seq<char>)> {
    let i = next_wiki(s, 0);
    if i < s.len() {
        let j = host_start(s, i);
        Some((s.subrange(j, j + 2), s.subrange(j + 22, slash_end(s, j + 22))))
    } else {
        None
    }
}

fn wiki_at_exec(s: &str, len: usize, i: usize) -> (r: Option<usize>)
    requires
        len == s@.len(),
        i < len,
    ensures
        r is Some <==> wiki_at(s@, i as int),
        r is Some ==> r.unwrap() as int == host_start(s@, i as int) && r.unwrap() + 22 < len,
{
    proof {
        reveal_strlit("http://");
        reveal_strlit("https://");
        reveal_strlit("wikipedia");
        reveal_strlit("org/wiki/");
    }
    let j = if has_prefix_at(s, len, "https://", 8, i) {
        i + 8
    } else if has_prefix_at(s, len, "http://", 7, i) {
        i + 7
    } else {
        return None;
    };
    if j >= len || len - j <= 22 {
        return None;
    }
    let ok = s.get_char(j) != '\n' && s.get_char(j + 1) != '\n' && s.get_char(j + 2) == '.'
        && has_prefix_at(s, len, "wikipedia", 9, j + 3) && s.get_char(j + 12) != '\n'
        && has_prefix_at(s, len, "org/wiki/", 9, j + 13) && s.get_char(j + 22) != '/';
    if ok {
        Some(j)
    } else {
        None
    }
}

/// The language and the title of the first Wikipedia article address in `url`.
pub fn wikipedia_ref(url: &str) -> (r: Option<(String, String)>)
    ensures
        match wiki_spec(url@) {
            Some((lang, title)) => r is Some && r.unwrap().0@ == lang && r.unwrap().1@ == title,
            None => r is None,
        },
{
    let len = url.unicode_len();
    let mut i: usize = 0;
    while i < len
        invariant
            len == url@.len(),
            i <= len,
            next_wiki(url@, 0) == next_wiki(url@, i as int),
        decreases len - i,
    {
        if let Some(j) = wiki_at_exec(url, len, i) {
            let mut e = j + 22;
            while e < len && url.get_char(e) != '/'
                invariant
                    len == url@.len(),
                    j + 22 <= e <= len,
                    slash_end(url@, j + 22) == slash_end(url@, e as int),
                decreases len - e,
            {
                e = e + 1;
            }
            return Some((slice(url, j, j + 2), slice(url, j + 22, e)));
        }
        i = i + 1;
    }
    None
}

} // verus!
