//! Header sets: ordered (name, value) pairs whose names compare without
//! regard to ASCII case, as HTTP header names do.
use vstd::prelude::*;

verus! {

/// The view of a header set, or of a list of query parameters.
pub open spec fn pairs_view(v: Seq<(String, String)>) -> Seq<(Seq<char>, Seq<char>)> {
    v.map_values(|e: (String, String)| (e.0@, e.1@))
}

/// A character with ASCII upper case folded to lower case.
pub open spec fn fold_char(c: char) -> int {
    if 65 <= (c as u32) && (c as u32) <= 90 {
        (c as int) + 32
    } else {
        c as int
    }
}

/// Two header names are the same name.
pub open spec fn same_name(a: Seq<char>, b: Seq<char>) -> bool {
    &&& a.len() == b.len()
    &&& forall|i: int| 0 <= i < a.len() ==> fold_char(#[trigger] a[i]) == fold_char(b[i])
}

/// The value of the first entry named `name`.
pub open spec fn find_header(hs: Seq<(Seq<char>, Seq<char>)>, name: Seq<char>) -> Option<Seq<char>>
    decreases hs.len(),
{
    if hs.len() == 0 {
        None
    } else if same_name(hs[0].0, name) {
        Some(hs[0].1)
    } else {
        find_header(hs.drop_first(), name)
    }
}

/// The entries of `hs` that are not named `name`, in their order.
pub open spec fn without_header(hs: Seq<(Seq<char>, Seq<char>)>, name: Seq<char>) -> Seq<(Seq<char>, Seq<char>)> {
    hs.filter(other_than(name))
}

/// Holds of the entries not named `name`.
pub open spec fn other_than(name: Seq<char>) -> spec_fn((Seq<char>, Seq<char>)) -> bool {
    |e: (Seq<char>, Seq<char>)| !same_name(e.0, name)
}

/// `hs` with every entry named `name` replaced by one entry `(name, value)` at the end.
pub open spec fn with_header(hs: Seq<(Seq<char>, Seq<char>)>, name: Seq<char>, value: Seq<char>) -> Seq<(Seq<char>, Seq<char>)> {
    without_header(hs, name).push((name, value))
}

proof fn lemma_find_after_others(s: Seq<(Seq<char>, Seq<char>)>, name: Seq<char>, value: Seq<char>)
    requires
        forall|i: int| 0 <= i < s.len() ==> !same_name(#[trigger] s[i].0, name),
    ensures
        find_header(s.push((name, value)), name) == Some(value),
    decreases s.len(),
{
    assert(same_name(name, name));
    if s.len() > 0 {
        let rest = s.drop_first();
        assert(s.push((name, value)).drop_first() =~= rest.push((name, value)));
        assert forall|i: int| 0 <= i < rest.len() implies !same_name(#[trigger] rest[i].0, name) by {
            assert(rest[i] == s[i + 1]);
        }
        lemma_find_after_others(rest, name, value);
        assert(!same_name(s[0].0, name));
    }
}

/// Looking up a header just set gives the value it was set to.
pub proof fn lemma_find_after_set(hs: Seq<(Seq<char>, Seq<char>)>, name: Seq<char>, value: Seq<char>)
    ensures
        find_header(with_header(hs, name, value), name) == Some(value),
{
    let kept = without_header(hs, name);
    assert forall|i: int| 0 <= i < kept.len() implies !same_name(#[trigger] kept[i].0, name) by {
        hs.lemma_filter_pred(other_than(name), i);
        assert(other_than(name)(kept[i]));
    }
    lemma_find_after_others(kept, name, value);
}

fn fold(c: char) -> (r: u32)
    ensures
        r as int == fold_char(c),
{
    let v = c as u32;
    if 65 <= v && v <= 90 {
        v + 32
    } else {
        v
    }
}

/// Whether `a` and `b` name the same header.
pub fn names_match(a: &str, b: &str) -> (r: bool)
    ensures
        r == same_name(a@, b@),
{
    let n = a.unicode_len();
    if n != b.unicode_len() {
        return false;
    }
    let mut i: usize = 0;
    while i < n
        invariant
            n == a@.len() == b@.len(),
            i <= n,
            forall|j: int| 0 <= j < i ==> fold_char(#[trigger] a@[j]) == fold_char(b@[j]),
        decreases n - i,
    {
        if fold(a.get_char(i)) != fold(b.get_char(i)) {
            return false;
        }
        i = i + 1;
    }
    true
}

/// The value of the first header named `name`, if any.
pub fn get_header<'a>(headers: &'a Vec<(String, String)>, name: &str) -> (r: Option<&'a str>)
    ensures
        r matches Some(v) ==> find_header(pairs_view(headers@), name@) == Some(v@),
        r is None ==> find_header(pairs_view(headers@), name@) is None,
{
    let ghost hs = pairs_view(headers@);
    let mut i: usize = 0;
    assert(hs.subrange(0, hs.len() as int) =~= hs);
    while i < headers.len()
        invariant
            i <= headers.len(),
            hs == pairs_view(headers@),
            find_header(hs, name@) == find_header(hs.subrange(i as int, hs.len() as int), name@),
        decreases headers.len() - i,
    {
        let ghost rest = hs.subrange(i as int, hs.len() as int);
        assert(rest.drop_first() =~= hs.subrange(i + 1, hs.len() as int));
        if names_match(headers[i].0.as_str(), name) {
            return Some(headers[i].1.as_str());
        }
        i = i + 1;
    }
    None
}

/// `headers` with every entry named `name` replaced by `(name, value)` at the end.
pub fn set_header(headers: &Vec<(String, String)>, name: &str, value: String) -> (r: Vec<(String, String)>)
    ensures
        pairs_view(r@) == with_header(pairs_view(headers@), name@, value@),
{
    let ghost hs = pairs_view(headers@);
    let ghost keep = other_than(name@);
    let mut out: Vec<(String, String)> = Vec::new();
    let mut i: usize = 0;
    while i < headers.len()
        invariant
            i <= headers.len(),
            hs == pairs_view(headers@),
            keep == other_than(name@),
            pairs_view(out@) == hs.subrange(0, i as int).filter(keep),
        decreases headers.len() - i,
    {
        let matched = names_match(headers[i].0.as_str(), name);
        proof {
            reveal(Seq::filter);
            let pre = hs.subrange(0, i + 1);
            assert(pre.drop_last() =~= hs.subrange(0, i as int));
            assert(pre.last() == hs[i as int]);
            assert(hs[i as int] == (headers@[i as int].0@, headers@[i as int].1@));
        }
        if !matched {
            let k = headers[i].0.clone();
            let v = headers[i].1.clone();
            out.push((k, v));
            assert(pairs_view(out@) =~= hs.subrange(0, i as int).filter(keep).push(hs[i as int]));
        }
        i = i + 1;
    }
    assert(hs.subrange(0, hs.len() as int) =~= hs);
    out.push((String::from_str(name), value));
    assert(pairs_view(out@) =~= with_header(hs, name@, value@));
    out
}

} // verus!
