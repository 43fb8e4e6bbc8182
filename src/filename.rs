//! Choosing a destination file name that does not collide with a file that
//! already exists: `name.ext`, then `name (1).ext`, `name (2).ext`, ...

use vstd::prelude::*;
use crate::text::{chars_of, decimal, decimal_string, digit_char};

verus! {

/// Index of the last `.` in `s`, or -1 when there is none.
pub open spec fn last_dot(s: Seq<char>) -> int
    decreases s.len(),
{
    if s.len() == 0 {
        -1
    } else if s.last() == '.' {
        s.len() - 1
    } else {
        last_dot(s.drop_last())
    }
}

/// The part of a file name before its extension. A name whose only dot
/// leads it (`.profile`), or that has none, is all stem.
pub open spec fn stem_of(s: Seq<char>) -> Seq<char> {
    if last_dot(s) <= 0 { s } else { s.subrange(0, last_dot(s)) }
}

/// The extension of a file name, without its dot; empty when there is none.
pub open spec fn ext_of(s: Seq<char>) -> Seq<char> {
    if last_dot(s) <= 0 { Seq::empty() } else { s.subrange(last_dot(s) + 1, s.len() as int) }
}

/// The `n`-th name tried for `name`: the name itself, then
/// `stem (n).ext`, or `stem (n)` when the extension is empty.
pub open spec fn candidate(name: Seq<char>, n: nat) -> Seq<char> {
    if n == 0 {
        name
    } else if ext_of(name).len() == 0 {
        stem_of(name) + " ("@ + decimal(n) + ")"@
    } else {
        stem_of(name) + " ("@ + decimal(n) + ")."@ + ext_of(name)
    }
}

/// The views of a list of names.
pub open spec fn names_view(v: Seq<String>) -> Seq<Seq<char>> {
    v.map_values(|s: String| s@)
}

proof fn lemma_last_dot_bounds(s: Seq<char>)
    ensures
        -1 <= last_dot(s) < s.len(),
        last_dot(s) >= 0 ==> s[last_dot(s)] == '.',
    decreases s.len(),
{
    if s.len() > 0 && s.last() != '.' {
        lemma_last_dot_bounds(s.drop_last());
    }
}

proof fn lemma_decimal_len(n: nat)
    ensures
        decimal(n).len() >= 1,
    decreases n,
{
    if n >= 10 {
        lemma_decimal_len(n / 10);
    }
}

proof fn lemma_decimal_injective(a: nat, b: nat)
    requires
        decimal(a) == decimal(b),
    ensures
        a == b,
    decreases a,
{
    if a >= 10 {
        lemma_decimal_len(a / 10);
        assert(decimal(a).len() == decimal(a / 10).len() + 1);
    }
    if b >= 10 {
        lemma_decimal_len(b / 10);
        assert(decimal(b).len() == decimal(b / 10).len() + 1);
    }
    if a >= 10 && b >= 10 {
        assert(decimal(a).drop_last() =~= decimal(a / 10));
        assert(decimal(b).drop_last() =~= decimal(b / 10));
        lemma_decimal_injective(a / 10, b / 10);
        assert(digit_char(a % 10) == decimal(a).last());
    } else if a < 10 && b < 10 {
        assert(digit_char(a) == decimal(a)[0]);
    } else {
        assert(decimal(a).len() != decimal(b).len());
    }
}

proof fn lemma_name_parts(name: Seq<char>)
    ensures
        name.len() == stem_of(name).len() + if last_dot(name) <= 0 { 0int } else { 1 + ext_of(name).len() as int },
{
    lemma_last_dot_bounds(name);
}

/// Different attempts give different names.
proof fn lemma_candidates_distinct(name: Seq<char>, i: nat, j: nat)
    requires
        i != j,
    ensures
        candidate(name, i) != candidate(name, j),
{
    reveal_strlit(" (");
    reveal_strlit(")");
    reveal_strlit(").");
    lemma_name_parts(name);
    lemma_decimal_len(i);
    lemma_decimal_len(j);
    let stem = stem_of(name);
    let suffix = if ext_of(name).len() == 0 { ")"@ } else { ")."@ + ext_of(name) };
    assert(i > 0 ==> candidate(name, i) =~= stem + " ("@ + decimal(i) + suffix);
    assert(j > 0 ==> candidate(name, j) =~= stem + " ("@ + decimal(j) + suffix);
    if i > 0 && j > 0 && candidate(name, i) == candidate(name, j) {
        let a: int = stem.len() as int + 2;
        let ci = candidate(name, i);
        assert(decimal(i).len() == decimal(j).len());
        assert(ci.subrange(a, a + decimal(i).len() as int) =~= decimal(i));
        assert(ci.subrange(a, a + decimal(j).len() as int) =~= decimal(j));
        lemma_decimal_injective(i, j);
    }
}

fn last_dot_index(c: &Vec<char>) -> (r: usize)
    ensures
        last_dot(c@) <= 0 ==> r == 0,
        last_dot(c@) > 0 ==> r == last_dot(c@),
{
    let mut i: usize = c.len();
    assert(c@.subrange(0, i as int) =~= c@);
    while i > 0
        invariant
            i <= c@.len(),
            last_dot(c@) == last_dot(c@.subrange(0, i as int)),
        decreases i,
    {
        assert(c@.subrange(0, i as int).drop_last() =~= c@.subrange(0, i - 1));
        if c[i - 1] == '.' {
            return i - 1;
        }
        i = i - 1;
    }
    0
}

/// The name tried at attempt `n` (0 is the name itself).
pub fn candidate_name(name: &str, n: u64) -> (r: String)
    ensures
        r@ == candidate(name@, n as nat),
{
    if n == 0 {
        return String::from_str(name);
    }
    let c = chars_of(name);
    let d = last_dot_index(&c);
    proof { lemma_last_dot_bounds(name@); }
    let len = c.len();
    let mut r = String::from_str(if d == 0 { name } else { name.substring_char(0, d) });
    r.append(" (");
    r.append(decimal_string(n).as_str());
    if d == 0 || d + 1 == len {
        r.append(")");
    } else {
        r.append(").");
        r.append(name.substring_char(d + 1, len));
    }
    r
}

fn is_taken(taken: &Vec<String>, name: &String) -> (r: bool)
    ensures
        r == names_view(taken@).contains(name@),
{
    let mut k: usize = 0;
    while k < taken.len()
        invariant
            k <= taken@.len(),
            forall|j: int| 0 <= j < k ==> taken@[j]@ != name@,
        decreases taken@.len() - k,
    {
        if taken[k] == *name {
            assert(names_view(taken@)[k as int] == name@);
            return true;
        }
        k = k + 1;
    }
    assert forall|j: int| 0 <= j < names_view(taken@).len() implies names_view(taken@)[j] != name@ by {
        assert(names_view(taken@)[j] == taken@[j]@);
    }
    false
}

/// The first name, among `filename`, `stem (1).ext`, `stem (2).ext`, ...,
/// that is not among the names already `taken` in the target directory.
pub fn resolve_save_path(filename: &str, taken: &Vec<String>) -> (r: String)
    ensures
        exists|n: nat| {
            &&& r@ == #[trigger] candidate(filename@, n)
            &&& forall|m: nat| m < n ==> names_view(taken@).contains(#[trigger] candidate(filename@, m))
        },
        !names_view(taken@).contains(r@),
{
    let ghost names = names_view(taken@);
    let tl = taken.len();
    let mut n: usize = 0;
    loop
        invariant
            names == names_view(taken@),
            names.len() == tl,
            n <= names.len(),
            forall|m: nat| m < n ==> names.contains(#[trigger] candidate(filename@, m)),
        decreases names.len() - n,
    {
        let c = candidate_name(filename, n as u64);
        if !is_taken(taken, &c) {
            return c;
        }
        proof {
            let hits = Seq::new((n + 1) as nat, |m: int| candidate(filename@, m as nat));
            assert forall|a: int, b: int| 0 <= a < hits.len() && 0 <= b < hits.len() && a != b
                implies hits[a] != hits[b] by {
                lemma_candidates_distinct(filename@, a as nat, b as nat);
            }
            assert(hits.no_duplicates());
            hits.unique_seq_to_set();
            assert forall|x: Seq<char>| hits.to_set().contains(x) implies names.to_set().contains(x) by {
                let m = choose|m: int| 0 <= m < hits.len() && hits[m] == x;
                if m < n {
                    assert(names.contains(candidate(filename@, m as nat)));
                }
            }
            names.lemma_cardinality_of_set();
            vstd::set_lib::lemma_len_subset(hits.to_set(), names.to_set());
        }
        n = n + 1;
    }
}

} // verus!
