//! Character-level text helpers, stated over `Seq<char>`.

use vstd::prelude::*;
use vstd::string::{StrSliceExecFns, StringExecFns};

verus! {

/// White space as `char::is_whitespace` has it: the characters with the
/// Unicode White_Space property.
pub open spec fn whitespace(c: char) -> bool {
    ||| '\t' <= c <= '\r'
    ||| c == ' '
    ||| c == '\u{85}'
    ||| c == '\u{a0}'
    ||| c == '\u{1680}'
    ||| '\u{2000}' <= c <= '\u{200a}'
    ||| c == '\u{2028}'
    ||| c == '\u{2029}'
    ||| c == '\u{202f}'
    ||| c == '\u{205f}'
    ||| c == '\u{3000}'
}

/// What `str::to_lowercase` makes of a string.
pub uninterp spec fn lower_of(s: Seq<char>) -> Seq<char>;

/// Whether `c` is white space.
pub fn is_ws(c: char) -> (r: bool)
    ensures
        r == whitespace(c),
{
    ('\t' <= c && c <= '\r') || c == ' ' || c == '\u{85}' || c == '\u{a0}' || c == '\u{1680}'
        || ('\u{2000}' <= c && c <= '\u{200a}') || c == '\u{2028}' || c == '\u{2029}'
        || c == '\u{202f}' || c == '\u{205f}' || c == '\u{3000}'
}

/// Relies on `str::to_lowercase`: the lowercase form of `s`, which depends
/// on the characters of `s` alone.
#[verifier::external_body]
pub(crate) fn lowercase(s: &str) -> (r: String)
    ensures
        r@ == lower_of(s@),
        s@.len() == 0 ==> r@.len() == 0,
{
    s.to_lowercase()
}

/// Relies on `String::push`: appends one character.
#[verifier::external_body]
pub(crate) fn push_char(s: &mut String, c: char)
    ensures
        final(s)@ == old(s)@.push(c),
{
    s.push(c)
}

/// The first position at or after `i` that does not hold white space
/// (the length if there is none).
pub open spec fn skip_ws(s: Seq<char>, i: int) -> int
    decreases s.len() - i,
{
    if i >= s.len() {
        s.len() as int
    } else if whitespace(s[i]) {
        skip_ws(s, i + 1)
    } else {
        i
    }
}

/// The first position at or after `i` that holds white space (the length if
/// there is none).
pub open spec fn token_end(s: Seq<char>, i: int) -> int
    decreases s.len() - i,
{
    if i >= s.len() {
        s.len() as int
    } else if whitespace(s[i]) {
        i
    } else {
        token_end(s, i + 1)
    }
}

/// The position just after the last character before `j` that is not
/// white space (0 if there is none).
pub open spec fn trail_end(s: Seq<char>, j: int) -> int
    decreases j,
{
    if j <= 0 {
        0
    } else if whitespace(s[j - 1]) {
        trail_end(s, j - 1)
    } else {
        j
    }
}

/// `s` without its leading and trailing white space.
pub open spec fn trimmed(s: Seq<char>) -> Seq<char> {
    let a = skip_ws(s, 0);
    let b = trail_end(s, s.len() as int);
    if a < b {
        s.subrange(a, b)
    } else {
        Seq::empty()
    }
}

/// The white-space separated words of `s` from position `i` on.
pub open spec fn words_from(s: Seq<char>, i: int) -> Seq<Seq<char>>
    decreases s.len() - i,
{
    let a = skip_ws(s, i);
    let b = token_end(s, a);
    if a >= s.len() || b <= i || b > s.len() {
        Seq::empty()
    } else {
        seq![s.subrange(a, b)] + words_from(s, b)
    }
}

/// The white-space separated words of `s`.
pub open spec fn words(s: Seq<char>) -> Seq<Seq<char>> {
    words_from(s, 0)
}

/// `s` begins with `p`.
pub open spec fn starts_with(s: Seq<char>, p: Seq<char>) -> bool {
    p.len() <= s.len() && s.subrange(0, p.len() as int) == p
}

/// `p` occurs in `s` at position `i`.
pub open spec fn occurs_at(s: Seq<char>, p: Seq<char>, i: int) -> bool {
    0 <= i && i + p.len() <= s.len() && s.subrange(i, i + p.len()) == p
}

/// `p` occurs somewhere in `s`.
pub open spec fn contains_seq(s: Seq<char>, p: Seq<char>) -> bool {
    exists|i: int| occurs_at(s, p, i)
}

/// The characters of `s` from `a` to `b`.
pub fn slice(s: &str, a: usize, b: usize) -> (r: String)
    requires
        a <= b <= s@.len(),
    ensures
        r@ == s@.subrange(a as int, b as int),
{
    s.substring_char(a, b).to_owned()
}

/// The position from which `skip_ws(s, i)` and `token_end` are computed.
fn skip_ws_exec(s: &str, len: usize, i: usize) -> (r: usize)
    requires
        len == s@.len(),
        i <= len,
    ensures
        r == skip_ws(s@, i as int),
        i <= r <= len,
        r < len ==> !whitespace(s@[r as int]),
{
    let mut k = i;
    while k < len && is_ws(s.get_char(k))
        invariant
            len == s@.len(),
            i <= k <= len,
            skip_ws(s@, i as int) == skip_ws(s@, k as int),
        decreases len - k,
    {
        k = k + 1;
    }
    k
}

fn token_end_exec(s: &str, len: usize, i: usize) -> (r: usize)
    requires
        len == s@.len(),
        i <= len,
    ensures
        r == token_end(s@, i as int),
        i <= r <= len,
        i < len && !whitespace(s@[i as int]) ==> r > i,
{
    let mut k = i;
    while k < len && !is_ws(s.get_char(k))
        invariant
            len == s@.len(),
            i <= k <= len,
            token_end(s@, i as int) == token_end(s@, k as int),
        decreases len - k,
    {
        k = k + 1;
    }
    k
}

/// `s` without leading and trailing white space.
pub fn trim(s: &str) -> (r: String)
    ensures
        r@ == trimmed(s@),
{
    let len = s.unicode_len();
    let a = skip_ws_exec(s, len, 0);
    let mut b = len;
    while b > 0 && is_ws(s.get_char(b - 1))
        invariant
            len == s@.len(),
            b <= len,
            trail_end(s@, len as int) == trail_end(s@, b as int),
        decreases b,
    {
        b = b - 1;
    }
    if a < b {
        slice(s, a, b)
    } else {
        String::new()
    }
}

/// The white-space separated words of `s`, in order.
pub fn split_ws(s: &str) -> (r: Vec<String>)
    ensures
        r@.map_values(|w: String| w@) == words(s@),
{
    let len = s.unicode_len();
    let mut out: Vec<String> = Vec::new();
    let mut p: usize = 0;
    loop
        invariant
            len == s@.len(),
            p <= len,
            out@.map_values(|w: String| w@) + words_from(s@, p as int) == words(s@),
        decreases len - p,
    {
        let a = skip_ws_exec(s, len, p);
        if a >= len {
            assert(words_from(s@, p as int) == Seq::<Seq<char>>::empty());
            assert(out@.map_values(|w: String| w@) + Seq::<Seq<char>>::empty() =~= out@.map_values(
                |w: String| w@,
            ));
            return out;
        }
        let b = token_end_exec(s, len, a);
        let w = slice(s, a, b);
        let ghost before = out@.map_values(|w: String| w@);
        out.push(w);
        assert(out@.map_values(|w: String| w@) =~= before.push(s@.subrange(a as int, b as int)));
        assert(words_from(s@, p as int) == seq![s@.subrange(a as int, b as int)] + words_from(
            s@,
            b as int,
        ));
        assert(before + words_from(s@, p as int) =~= before.push(s@.subrange(a as int, b as int))
            + words_from(s@, b as int));
        p = b;
    }
}

/// Whether `s` begins with `p`.
pub fn has_prefix(s: &str, p: &str) -> (r: bool)
    ensures
        r == starts_with(s@, p@),
{
    has_prefix_at(s, s.unicode_len(), p, p.unicode_len(), 0)
}

/// Whether `p` occurs in `s` at position `i`.
pub fn has_prefix_at(s: &str, slen: usize, p: &str, plen: usize, i: usize) -> (r: bool)
    requires
        slen == s@.len(),
        plen == p@.len(),
        i <= slen,
    ensures
        r == occurs_at(s@, p@, i as int),
        i == 0 ==> (r == starts_with(s@, p@)),
{
    if plen > slen - i {
        return false;
    }
    let mut k: usize = 0;
    while k < plen
        invariant
            slen == s@.len(),
            plen == p@.len(),
            i + plen <= slen,
            k <= plen,
            forall|m: int| 0 <= m < k ==> s@[i + m] == p@[m],
        decreases plen - k,
    {
        if s.get_char(i + k) != p.get_char(k) {
            assert(s@.subrange(i as int, i + plen)[k as int] != p@[k as int]);
            return false;
        }
        k = k + 1;
    }
    assert(s@.subrange(i as int, i + plen) =~= p@);
    true
}

/// Whether `p` occurs anywhere in `s`.
pub fn contains(s: &str, p: &str) -> (r: bool)
    ensures
        r == contains_seq(s@, p@),
{
    let slen = s.unicode_len();
    let plen = p.unicode_len();
    let mut i: usize = 0;
    loop
        invariant
            slen == s@.len(),
            plen == p@.len(),
            i <= slen,
            forall|m: int| 0 <= m < i ==> !occurs_at(s@, p@, m),
        decreases slen - i,
    {
        if has_prefix_at(s, slen, p, plen, i) {
            return true;
        }
        if i == slen {
            assert forall|m: int| !occurs_at(s@, p@, m) by {
                if 0 <= m < i {
                }
            }
            return false;
        }
        i = i + 1;
    }
}

/// Whether `a` and `b` hold the same characters.
pub fn same_text(a: &str, b: &str) -> (r: bool)
    ensures
        r == (a@ == b@),
{
    let alen = a.unicode_len();
    let blen = b.unicode_len();
    if alen != blen {
        return false;
    }
    let r = has_prefix_at(a, alen, b, blen, 0);
    proof {
        assert(a@.subrange(0, blen as int) =~= a@);
    }
    r
}

/// `a` followed by `b`.
pub fn concat(a: &str, b: &str) -> (r: String)
    ensures
        r@ == a@ + b@,
{
    let mut r = a.to_owned();
    r.append(b);
    r
}

/// `s` with every occurrence of `pat`, taken from left to right without
/// overlap, replaced by `rep`.
pub open spec fn replace_all(s: Seq<char>, pat: Seq<char>, rep: Seq<char>) -> Seq<char>
    decreases s.len(),
{
    if pat.len() == 0 || s.len() < pat.len() {
        s
    } else if s.subrange(0, pat.len() as int) == pat {
        rep + replace_all(s.subrange(pat.len() as int, s.len() as int), pat, rep)
    } else {
        seq![s[0]] + replace_all(s.subrange(1, s.len() as int), pat, rep)
    }
}

/// `s` with every occurrence of `pat` replaced by `rep`.
pub fn replace_text(s: &str, pat: &str, rep: &str) -> (r: String)
    requires
        pat@.len() > 0,
    ensures
        r@ == replace_all(s@, pat@, rep@),
{
    let slen = s.unicode_len();
    let plen = pat.unicode_len();
    let mut out = String::new();
    let mut i: usize = 0;
    proof {
        assert(s@.subrange(0, slen as int) =~= s@);
        assert(out@ + replace_all(s@, pat@, rep@) =~= replace_all(s@, pat@, rep@));
    }
    while i < slen
        invariant
            slen == s@.len(),
            plen == pat@.len(),
            plen > 0,
            i <= slen,
            out@ + replace_all(s@.subrange(i as int, slen as int), pat@, rep@) == replace_all(
                s@,
                pat@,
                rep@,
            ),
        decreases slen - i,
    {
        let ghost rest = s@.subrange(i as int, slen as int);
        if has_prefix_at(s, slen, pat, plen, i) {
            let ghost before = out@;
            out.append(rep);
            proof {
                assert(rest.subrange(0, plen as int) =~= s@.subrange(i as int, i + plen));
                assert(rest.subrange(plen as int, rest.len() as int) =~= s@.subrange(
                    i + plen,
                    slen as int,
                ));
                assert(before + (rep@ + replace_all(
                    s@.subrange(i + plen, slen as int),
                    pat@,
                    rep@,
                )) =~= out@ + replace_all(s@.subrange(i + plen, slen as int), pat@, rep@));
            }
            i = i + plen;
        } else {
            let ghost before = out@;
            push_char(&mut out, s.get_char(i));
            proof {
                if rest.len() >= plen {
                    assert(rest.subrange(0, plen as int) =~= s@.subrange(i as int, i + plen));
                }
                assert(rest.subrange(1, rest.len() as int) =~= s@.subrange(i + 1, slen as int));
                if rest.len() < plen {
                    assert(rest.subrange(1, rest.len() as int).len() < plen);
                    assert(replace_all(rest, pat@, rep@) == rest);
                    assert(replace_all(rest.subrange(1, rest.len() as int), pat@, rep@)
                        == rest.subrange(1, rest.len() as int));
                    assert(rest =~= seq![rest[0]] + rest.subrange(1, rest.len() as int));
                }
                assert(before + (seq![s@[i as int]] + replace_all(
                    s@.subrange(i + 1, slen as int),
                    pat@,
                    rep@,
                )) =~= out@ + replace_all(s@.subrange(i + 1, slen as int), pat@, rep@));
            }
            i = i + 1;
        }
    }
    proof {
        assert(s@.subrange(slen as int, slen as int) =~= Seq::<char>::empty());
        assert(out@ + Seq::<char>::empty() =~= out@);
    }
    out
}

/// The pieces of `ws` with `sep` between each two of them.
pub open spec fn join_spec(ws: Seq<Seq<char>>, sep: Seq<char>) -> Seq<char>
    decreases ws.len(),
{
    if ws.len() == 0 {
        Seq::empty()
    } else if ws.len() == 1 {
        ws[0]
    } else {
        join_spec(ws.drop_last(), sep) + sep + ws.last()
    }
}

/// The strings of `ws` with `sep` between each two of them.
pub fn join(ws: &Vec<String>, sep: &str) -> (r: String)
    ensures
        r@ == join_spec(ws@.map_values(|w: String| w@), sep@),
{
    let ghost v = ws@.map_values(|w: String| w@);
    let mut out = String::new();
    let mut i: usize = 0;
    while i < ws.len()
        invariant
            i <= ws@.len(),
            v == ws@.map_values(|w: String| w@),
            out@ == join_spec(v.subrange(0, i as int), sep@),
        decreases ws@.len() - i,
    {
        if i > 0 {
            out.append(sep);
        }
        out.append(ws[i].as_str());
        proof {
            let p = v.subrange(0, i + 1);
            assert(p.drop_last() =~= v.subrange(0, i as int));
            if i == 0 {
                assert(join_spec(v.subrange(0, 0), sep@) == Seq::<char>::empty());
                assert(out@ =~= p[0]);
            }
        }
        i = i + 1;
    }
    assert(v.subrange(0, ws@.len() as int) =~= v);
    out
}

/// `s` without the suffix `p`, when it ends with it.
pub open spec fn strip_suffix_spec(s: Seq<char>, p: Seq<char>) -> Seq<char> {
    if p.len() <= s.len() && s.subrange(s.len() - p.len(), s.len() as int) == p {
        s.subrange(0, s.len() - p.len())
    } else {
        s
    }
}

/// `s` without the suffix `p`, when it ends with it.
pub fn strip_suffix(s: &str, p: &str) -> (r: String)
    ensures
        r@ == strip_suffix_spec(s@, p@),
{
    let slen = s.unicode_len();
    let plen = p.unicode_len();
    if plen <= slen && has_prefix_at(s, slen, p, plen, slen - plen) {
        slice(s, 0, slen - plen)
    } else {
        s.to_owned()
    }
}

/// `prefix`, the value and `suffix` when there is a value; nothing otherwise.
pub open spec fn field_spec(v: Option<String>, prefix: Seq<char>, suffix: Seq<char>) -> Seq<char> {
    match v {
        Some(x) => prefix + x@ + suffix,
        None => Seq::empty(),
    }
}

/// Appends `prefix`, the value and `suffix` to `out` when there is a value.
pub fn push_field(out: &mut String, v: &Option<String>, prefix: &str, suffix: &str)
    ensures
        final(out)@ == old(out)@ + field_spec(*v, prefix@, suffix@),
{
    match v {
        Some(x) => {
            out.append(prefix);
            out.append(x.as_str());
            out.append(suffix);
        },
        None => {
            assert(old(out)@ + Seq::<char>::empty() =~= old(out)@);
        },
    }
}

} // verus!
