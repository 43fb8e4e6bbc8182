//! Cookie header handling: merging `Set-Cookie` values into one `Cookie`
//! header, splitting a header into pairs, and listing the names it holds.

use vstd::prelude::*;
use crate::text::{
    before_first, before_first_str, chars_of, find_char, find_char_in, join, join_strings,
    split_on, split_str, strings_view, trim, trimmed,
};

verus! {

/// The `name=value` part of a raw cookie: what precedes the first `;`,
/// trimmed.
pub open spec fn cookie_pair(raw: Seq<char>) -> Seq<char> {
    trimmed(before_first(raw, ';'))
}

/// The name and value a raw cookie sets, if its pair has an `=` and a
/// non-empty name (trimmed); the value is everything after the first `=`.
pub open spec fn cookie_entry(raw: Seq<char>) -> Option<(Seq<char>, Seq<char>)> {
    let p = cookie_pair(raw);
    let k = find_char(p, '=');
    if k < 0 {
        None
    } else if trimmed(p.subrange(0, k)).len() == 0 {
        None
    } else {
        Some((trimmed(p.subrange(0, k)), p.subrange(k + 1, p.len() as int)))
    }
}

/// No name occurs twice in a table of cookies.
pub open spec fn names_unique(es: Seq<(Seq<char>, Seq<char>)>) -> bool {
    forall|i: int, j: int| 0 <= i < es.len() && 0 <= j < es.len() && i != j ==> es[i].0 != es[j].0
}

/// Sets `name` to `value`: in place when the name is present, else at the end.
pub open spec fn upsert(
    es: Seq<(Seq<char>, Seq<char>)>,
    name: Seq<char>,
    value: Seq<char>,
) -> Seq<(Seq<char>, Seq<char>)> {
    if exists|i: int| 0 <= i < es.len() && es[i].0 == name {
        let i = choose|i: int| 0 <= i < es.len() && es[i].0 == name;
        es.update(i, (name, value))
    } else {
        es.push((name, value))
    }
}

/// The cookies that a list of raw cookies sets: each name once, in the
/// order of its first appearance, with the value it was set to last.
pub open spec fn latest_cookies(raws: Seq<Seq<char>>) -> Seq<(Seq<char>, Seq<char>)>
    decreases raws.len(),
{
    if raws.len() == 0 {
        Seq::empty()
    } else {
        let pre = latest_cookies(raws.drop_last());
        match cookie_entry(raws.last()) {
            Some(e) => upsert(pre, e.0, e.1),
            None => pre,
        }
    }
}

pub open spec fn pair_text(e: (Seq<char>, Seq<char>)) -> Seq<char> {
    e.0 + "="@ + e.1
}

/// The `Cookie` header for a list of raw cookies.
pub open spec fn cookie_header_text(raws: Seq<Seq<char>>) -> Seq<char> {
    join(latest_cookies(raws).map_values(|e: (Seq<char>, Seq<char>)| pair_text(e)), "; "@)
}

pub open spec fn entries_view(v: Seq<(String, String)>) -> Seq<(Seq<char>, Seq<char>)> {
    v.map_values(|e: (String, String)| (e.0@, e.1@))
}

fn parse_cookie_entry(raw: &str) -> (r: Option<(String, String)>)
    ensures
        match r {
            Some(e) => cookie_entry(raw@) == Some((e.0@, e.1@)),
            None => cookie_entry(raw@) is None,
        },
{
    let pair = trim(before_first_str(raw, ';').as_str());
    let pc = chars_of(pair.as_str());
    let plen = pc.len();
    match find_char_in(&pc, '=') {
        None => None,
        Some(k) => {
            let name = trim(pair.as_str().substring_char(0, k));
            if name.as_str().unicode_len() == 0 {
                None
            } else {
                let value = String::from_str(pair.as_str().substring_char(k + 1, plen));
                Some((name, value))
            }
        },
    }
}

fn upsert_entry(entries: &mut Vec<(String, String)>, name: String, value: String)
    requires
        names_unique(entries_view(old(entries)@)),
    ensures
        entries_view(final(entries)@) == upsert(entries_view(old(entries)@), name@, value@),
        names_unique(entries_view(final(entries)@)),
{
    let ghost es = entries_view(entries@);
    let mut i: usize = 0;
    while i < entries.len()
        invariant
            es == entries_view(entries@),
            es == entries_view(old(entries)@),
            names_unique(es),
            i <= es.len(),
            forall|j: int| 0 <= j < i ==> es[j].0 != name@,
        decreases es.len() - i,
    {
        if entries[i].0 == name {
            assert(es[i as int].0 == name@);
            let ghost c = choose|j: int| 0 <= j < es.len() && es[j].0 == name@;
            assert(c == i);
            entries[i] = (name, value);
            assert(entries_view(entries@) =~= upsert(es, name@, value@));
            return;
        }
        i = i + 1;
    }
    let ghost nv = name@;
    let ghost vv = value@;
    entries.push((name, value));
    assert(entries_view(entries@) =~= es.push((nv, vv)));
}

/// Merges raw `Set-Cookie` values into one `Cookie` header: each name once
/// (in the order it first appears) with its last value, as `name=value`
/// pairs joined by `"; "`. Raw values without a named pair are skipped.
pub fn build_cookie_header(raw_cookies: &[String]) -> (r: String)
    ensures
        r@ == cookie_header_text(strings_view(raw_cookies@)),
{
    let ghost raws = strings_view(raw_cookies@);
    let mut entries: Vec<(String, String)> = Vec::new();
    let mut i: usize = 0;
    while i < raw_cookies.len()
        invariant
            raws == strings_view(raw_cookies@),
            i <= raws.len(),
            entries_view(entries@) == latest_cookies(raws.subrange(0, i as int)),
            names_unique(entries_view(entries@)),
        decreases raws.len() - i,
    {
        let ghost pre = raws.subrange(0, i as int);
        let ghost next = raws.subrange(0, i + 1);
        assert(next.drop_last() =~= pre);
        assert(next.last() == raw_cookies@[i as int]@);
        match parse_cookie_entry(raw_cookies[i].as_str()) {
            Some(e) => {
                let (name, value) = e;
                upsert_entry(&mut entries, name, value);
            },
            None => {},
        }
        i = i + 1;
    }
    assert(raws.subrange(0, raws.len() as int) =~= raws);
    let mut parts: Vec<String> = Vec::new();
    let mut k: usize = 0;
    let ghost es = entries_view(entries@);
    while k < entries.len()
        invariant
            es == entries_view(entries@),
            k <= es.len(),
            strings_view(parts@) == es.subrange(0, k as int).map_values(
                |e: (Seq<char>, Seq<char>)| pair_text(e),
            ),
        decreases es.len() - k,
    {
        let mut p = entries[k].0.clone();
        p.append("=");
        p.append(entries[k].1.as_str());
        let ghost prev = parts@;
        let ghost pv = p@;
        parts.push(p);
        assert(strings_view(parts@) =~= strings_view(prev).push(pv));
        k = k + 1;
        assert(strings_view(parts@) =~= es.subrange(0, k as int).map_values(
            |e: (Seq<char>, Seq<char>)| pair_text(e),
        ));
    }
    assert(es.subrange(0, es.len() as int) =~= es);
    join_strings(&parts, "; ")
}

/// The trimmed, non-empty pieces among `ps`.
pub open spec fn nonempty_trimmed(ps: Seq<Seq<char>>) -> Seq<Seq<char>>
    decreases ps.len(),
{
    if ps.len() == 0 {
        Seq::empty()
    } else {
        let pre = nonempty_trimmed(ps.drop_last());
        if trimmed(ps.last()).len() > 0 { pre.push(trimmed(ps.last())) } else { pre }
    }
}

/// Splits a `Cookie` header into its trimmed, non-empty pairs.
pub fn split_cookie_header(header: &str) -> (r: Vec<String>)
    ensures
        strings_view(r@) == nonempty_trimmed(split_on(header@, ';')),
{
    let pieces = split_str(header, ';');
    let ghost ps = strings_view(pieces@);
    let mut out: Vec<String> = Vec::new();
    let mut i: usize = 0;
    while i < pieces.len()
        invariant
            ps == strings_view(pieces@),
            i <= ps.len(),
            strings_view(out@) == nonempty_trimmed(ps.subrange(0, i as int)),
        decreases ps.len() - i,
    {
        let ghost pre = ps.subrange(0, i as int);
        let ghost next = ps.subrange(0, i + 1);
        assert(next.drop_last() =~= pre);
        let t = trim(pieces[i].as_str());
        if t.as_str().unicode_len() > 0 {
            let ghost prev = out@;
            let ghost tv = t@;
            out.push(t);
            assert(strings_view(out@) =~= strings_view(prev).push(tv));
        }
        i = i + 1;
    }
    assert(ps.subrange(0, ps.len() as int) =~= ps);
    out
}

/// The non-empty names among the pairs `ps`: each trimmed pair up to its
/// first `=`.
pub open spec fn pair_names(ps: Seq<Seq<char>>) -> Seq<Seq<char>>
    decreases ps.len(),
{
    if ps.len() == 0 {
        Seq::empty()
    } else {
        let pre = pair_names(ps.drop_last());
        let k = before_first(trimmed(ps.last()), '=');
        if k.len() > 0 { pre.push(k) } else { pre }
    }
}

/// The names in a `Cookie` header, joined by `", "`.
pub fn extract_cookie_keys(cookie_str: &str) -> (r: String)
    ensures
        r@ == join(pair_names(split_on(cookie_str@, ';')), ", "@),
{
    let pieces = split_str(cookie_str, ';');
    let ghost ps = strings_view(pieces@);
    let mut names: Vec<String> = Vec::new();
    let mut i: usize = 0;
    while i < pieces.len()
        invariant
            ps == strings_view(pieces@),
            i <= ps.len(),
            strings_view(names@) == pair_names(ps.subrange(0, i as int)),
        decreases ps.len() - i,
    {
        let ghost pre = ps.subrange(0, i as int);
        let ghost next = ps.subrange(0, i + 1);
        assert(next.drop_last() =~= pre);
        let t = trim(pieces[i].as_str());
        let k = before_first_str(t.as_str(), '=');
        if k.as_str().unicode_len() > 0 {
            let ghost prev = names@;
            let ghost kv = k@;
            names.push(k);
            assert(strings_view(names@) =~= strings_view(prev).push(kv));
        }
        i = i + 1;
    }
    assert(ps.subrange(0, ps.len() as int) =~= ps);
    join_strings(&names, ", ")
}

} // verus!
