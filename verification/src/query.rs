//! Query-string lookup. Web hosts read start-up configuration (such as the
//! log filter) from the page URL; this finds the value of one key inside a
//! query string of the form `?key=value&key=value`.

use vstd::prelude::*;

verus! {

/// Index of the first occurrence of `c` in `s`, or `s.len()` if there is
/// none.
pub open spec fn first_index_of(s: Seq<char>, c: char) -> int
    decreases s.len(),
{
    if s.len() == 0 {
        0
    } else if s[0] == c {
        0
    } else {
        1 + first_index_of(s.drop_first(), c)
    }
}

/// `first_index_of` points at the first occurrence: it stays within the
/// sequence, hits `c` unless there is none, and nothing before it is `c`.
pub proof fn lemma_first_index_of(s: Seq<char>, c: char)
    ensures
        0 <= first_index_of(s, c) <= s.len(),
        first_index_of(s, c) < s.len() ==> s[first_index_of(s, c)] == c,
        forall|i: int| 0 <= i < first_index_of(s, c) ==> s[i] != c,
    decreases s.len(),
{
    if s.len() != 0 && s[0] != c {
        lemma_first_index_of(s.drop_first(), c);
        assert forall|i: int| 0 <= i < first_index_of(s, c) implies s[i] != c by {
            if i > 0 {
                assert(s.drop_first()[i - 1] == s[i]);
            }
        }
    }
}

/// Any position with no `c` before it and `c` at it (or the end) is exactly
/// `first_index_of`.
pub proof fn lemma_first_index_of_converse(s: Seq<char>, c: char, k: int)
    requires
        0 <= k <= s.len(),
        forall|i: int| 0 <= i < k ==> s[i] != c,
        k < s.len() ==> s[k] == c,
    ensures
        first_index_of(s, c) == k,
    decreases s.len(),
{
    if s.len() != 0 && s[0] != c {
        assert forall|i: int| 0 <= i < k - 1 implies s.drop_first()[i] != c by {
            assert(s.drop_first()[i] == s[i + 1]);
        }
        assert(k - 1 < s.drop_first().len() ==> s.drop_first()[k - 1] == c);
        lemma_first_index_of_converse(s.drop_first(), c, k - 1);
    }
}

/// The value for `key` among the `&`-separated pairs of `s`: each pair
/// contributes the text before its first `=` as the key and the text
/// between its first and second `=` as the value; a pair without `=`
/// aborts the whole lookup.
pub open spec fn lookup_pairs(s: Seq<char>, key: Seq<char>) -> Option<Seq<char>>
    decreases s.len(),
    via lookup_pairs_decreases
{
    let e = first_index_of(s, '&');
    let pair = s.subrange(0, e);
    let eq = first_index_of(pair, '=');
    if eq == pair.len() {
        None
    } else {
        let k = pair.subrange(0, eq);
        let rest = pair.subrange(eq + 1, pair.len() as int);
        if k == key {
            Some(rest.subrange(0, first_index_of(rest, '=')))
        } else if e == s.len() {
            None
        } else {
            lookup_pairs(s.subrange(e + 1, s.len() as int), key)
        }
    }
}

#[via_fn]
proof fn lookup_pairs_decreases(s: Seq<char>, key: Seq<char>) {
    lemma_first_index_of(s, '&');
}

/// What `parse_url_query_string` returns: `None` unless the query starts
/// with `?` and one of its pairs carries the key.
pub open spec fn spec_parse_url_query_string(query: Seq<char>, key: Seq<char>) -> Option<Seq<char>> {
    if query.len() == 0 || query[0] != '?' {
        None
    } else {
        lookup_pairs(query.subrange(1, query.len() as int), key)
    }
}

/// Index of the first occurrence of `c` in `s` at or after `from` and
/// before `to`, or `to` if there is none.
fn find_in(s: &str, from: usize, to: usize, c: char) -> (r: usize)
    requires
        from <= to <= s@.len(),
    ensures
        from <= r <= to,
        r - from == first_index_of(s@.subrange(from as int, to as int), c),
{
    let ghost sub = s@.subrange(from as int, to as int);
    let mut i: usize = from;
    while i < to
        invariant
            from <= i <= to <= s@.len(),
            sub == s@.subrange(from as int, to as int),
            forall|j: int| from <= j < i ==> s@[j] != c,
        decreases to - i,
    {
        if s.get_char(i) == c {
            proof {
                assert forall|j: int| 0 <= j < i - from implies sub[j] != c by {
                    assert(sub[j] == s@[from + j]);
                }
                assert(sub[i - from] == c);
                lemma_first_index_of_converse(sub, c, i - from);
            }
            return i;
        }
        i = i + 1;
    }
    proof {
        assert forall|j: int| 0 <= j < to - from implies sub[j] != c by {
            assert(sub[j] == s@[from + j]);
        }
        lemma_first_index_of_converse(sub, c, (to - from) as int);
    }
    to
}

/// Whether two strings hold the same characters.
fn str_eq_chars(a: &str, b: &str) -> (r: bool)
    ensures
        r == (a@ == b@),
{
    let na = a.unicode_len();
    let nb = b.unicode_len();
    if na != nb {
        return false;
    }
    let mut i: usize = 0;
    while i < na
        invariant
            i <= na,
            na == a@.len(),
            na == b@.len(),
            forall|j: int| 0 <= j < i ==> a@[j] == b@[j],
        decreases na - i,
    {
        if a.get_char(i) != b.get_char(i) {
            return false;
        }
        i = i + 1;
    }
    proof {
        assert(a@ =~= b@);
    }
    true
}

/// Looks `search_key` up in a URL query string of the form
/// `?key=value&key=value`, returning the first matching value. A query
/// without the leading `?`, or one containing a pair with no `=`, yields
/// `None`.
pub fn parse_url_query_string<'a>(query: &'a str, search_key: &str) -> (r: Option<&'a str>)
    ensures
        match r {
            Some(v) => spec_parse_url_query_string(query@, search_key@) == Some(v@),
            None => spec_parse_url_query_string(query@, search_key@) is None,
        },
{
    let n = query.unicode_len();
    if n == 0 {
        return None;
    }
    if query.get_char(0) != '?' {
        return None;
    }
    let qs = query.substring_char(1, n);
    let m = n - 1;
    let mut pos: usize = 0;
    proof {
        assert(qs@.subrange(0, m as int) =~= qs@);
    }
    loop
        invariant
            pos <= m,
            m == qs@.len(),
            n == query@.len(),
            n >= 1,
            query@[0] == '?',
            qs@ == query@.subrange(1, query@.len() as int),
            lookup_pairs(qs@.subrange(pos as int, m as int), search_key@)
                == spec_parse_url_query_string(query@, search_key@),
        decreases m - pos,
    {
        let ghost suffix = qs@.subrange(pos as int, m as int);
        let e = find_in(qs, pos, m, '&');
        let eq1 = find_in(qs, pos, e, '=');
        proof {
            assert(suffix.subrange(0, e - pos) =~= qs@.subrange(pos as int, e as int));
        }
        let ghost pair = suffix.subrange(0, e - pos);
        if eq1 == e {
            proof {
                assert(first_index_of(pair, '=') == pair.len());
            }
            return None;
        }
        let key_str = qs.substring_char(pos, eq1);
        proof {
            assert(pair.subrange(0, eq1 - pos) =~= qs@.subrange(pos as int, eq1 as int));
        }
        if str_eq_chars(key_str, search_key) {
            let v_end = find_in(qs, eq1 + 1, e, '=');
            let v = qs.substring_char(eq1 + 1, v_end);
            proof {
                let rest = pair.subrange(eq1 - pos + 1, pair.len() as int);
                assert(rest =~= qs@.subrange(eq1 + 1, e as int));
                assert(rest.subrange(0, v_end - (eq1 + 1)) =~= qs@.subrange(
                    eq1 + 1,
                    v_end as int,
                ));
            }
            return Some(v);
        }
        if e == m {
            return None;
        }
        proof {
            assert(suffix.subrange(e - pos + 1, suffix.len() as int) =~= qs@.subrange(
                e + 1,
                m as int,
            ));
        }
        pos = e + 1;
    }
}

} // verus!
