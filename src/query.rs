//! Settings read from a page address's query string (`?theme=...&backend=...`).
use vstd::prelude::*;
use crate::text::{chars_of, copy_range, equals, has_prefix, split_by, split_on, starts_with, string_of};

verus! {

/// The drawing back end of the browser front end.
#[derive(Clone, Copy, Debug, PartialEq, Eq, Structural)]
pub enum WebBackend {
    Dom,
    Canvas,
    WebGl2,
}

/// The value of the first `key=value` pair, in the text after the first `?`
/// and before any second one, whose text begins with `key` (given with its
/// `=`).
pub open spec fn query_value(href: Seq<char>, key: Seq<char>) -> Option<Seq<char>> {
    let parts = split_on(href, '?');
    if parts.len() > 1 {
        pair_value(split_on(parts[1], '&'), key)
    } else {
        None
    }
}

pub open spec fn pair_value(pairs: Seq<Seq<char>>, key: Seq<char>) -> Option<Seq<char>>
    decreases pairs.len(),
{
    if pairs.len() == 0 {
        None
    } else if has_prefix(pairs[0], key) {
        Some(pairs[0].subrange(key.len() as int, pairs[0].len() as int))
    } else {
        pair_value(pairs.drop_first(), key)
    }
}

fn find_value(href: &str, key: &str) -> (r: Option<Vec<char>>)
    ensures
        match query_value(href@, key@) {
            Some(v) => r matches Some(x) && x@ == v,
            None => r is None,
        },
{
    let h = chars_of(href);
    let parts = split_by(h.as_slice(), '?');
    let ghost pv = parts@.map_values(|v: Vec<char>| v@);
    if parts.len() <= 1 {
        return None;
    }
    assert(pv[1] == parts@[1]@);
    let pairs = split_by(parts[1].as_slice(), '&');
    let ghost all = pairs@.map_values(|v: Vec<char>| v@);
    let mut i: usize = 0;
    assert(all.subrange(0, all.len() as int) =~= all);
    assert(query_value(href@, key@) == pair_value(all, key@));
    while i < pairs.len()
        invariant
            i <= pairs@.len(),
            query_value(href@, key@) == pair_value(all, key@),
            all == pairs@.map_values(|v: Vec<char>| v@),
            pair_value(all, key@) == pair_value(all.subrange(i as int, all.len() as int), key@),
        decreases pairs@.len() - i,
    {
        let ghost rest = all.subrange(i as int, all.len() as int);
        assert(rest[0] == pairs@[i as int]@);
        if starts_with(pairs[i].as_slice(), key) {
            let n = key.unicode_len();
            return Some(copy_range(pairs[i].as_slice(), n, pairs[i].len()));
        }
        assert(rest.drop_first() =~= all.subrange(i + 1, all.len() as int));
        i = i + 1;
    }
    None
}

/// The theme that the address asks for with `theme=`.
pub fn theme_from_query(href: &str) -> (r: Option<String>)
    ensures
        match query_value(href@, "theme="@) {
            Some(v) => r matches Some(x) && x@ == v,
            None => r is None,
        },
{
    match find_value(href, "theme=") {
        Some(v) => Some(string_of(v.as_slice())),
        None => None,
    }
}

/// The back end that the address asks for with `backend=`: `canvas`,
/// `webgl2`, else the DOM one.
pub fn backend_from_query(href: &str) -> (r: WebBackend)
    ensures
        r == match query_value(href@, "backend="@) {
            Some(v) => if v == "canvas"@ {
                WebBackend::Canvas
            } else if v == "webgl2"@ {
                WebBackend::WebGl2
            } else {
                WebBackend::Dom
            },
            None => WebBackend::Dom,
        },
{
    match find_value(href, "backend=") {
        Some(v) => if equals(v.as_slice(), "canvas") {
            WebBackend::Canvas
        } else if equals(v.as_slice(), "webgl2") {
            WebBackend::WebGl2
        } else {
            WebBackend::Dom
        },
        None => WebBackend::Dom,
    }
}

} // verus!
