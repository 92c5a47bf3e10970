use vstd::prelude::*;
use crate::extract::{
    address_end, digit_run_end, extract_spec, is_digit, is_space, lemma_extract_first_match,
    match_at, none_before, port_end, port_start, port_word_at, space_run_end, AddressPortModel,
    last_octet, next_octet, lemma_extract_no_match,
};

verus! {

pub open spec fn all_digits(m: Seq<char>, i: int, j: int) -> bool {
    forall|k: int| i <= k < j ==> is_digit(#[trigger] m[k])
}

pub open spec fn all_spaces(m: Seq<char>, i: int, j: int) -> bool {
    forall|k: int| i <= k < j ==> is_space(#[trigger] m[k])
}

/// One to three digits occupy `[i, j)`.
pub open spec fn digit_group(m: Seq<char>, i: int, j: int) -> bool {
    0 <= i < j <= i + 3 && j <= m.len() && all_digits(m, i, j)
}

/// The text `D.D.D.D port N` occupies `[s, p)`: digit groups `[s, e1)`, `[e1 + 1, e2)`,
/// `[e2 + 1, e3)` and `[e3 + 1, e4)` with a dot after each of the first three,
/// whitespace `[e4, w1)`, the word `port` at `w1`, whitespace `[w1 + 4, w2)` and the
/// digits `[w2, p)`.
pub open spec fn pattern_spans(
    m: Seq<char>,
    s: int,
    e1: int,
    e2: int,
    e3: int,
    e4: int,
    w1: int,
    w2: int,
    p: int,
) -> bool {
    &&& digit_group(m, s, e1) && e1 < m.len() && m[e1] == '.'
    &&& digit_group(m, e1 + 1, e2) && e2 < m.len() && m[e2] == '.'
    &&& digit_group(m, e2 + 1, e3) && e3 < m.len() && m[e3] == '.'
    &&& digit_group(m, e3 + 1, e4)
    &&& e4 < w1 && all_spaces(m, e4, w1)
    &&& port_word_at(m, w1)
    &&& w1 + 4 < w2 && all_spaces(m, w1 + 4, w2)
    &&& w2 < p <= m.len() && all_digits(m, w2, p)
}

/// Some text of the shape `D.D.D.D port N` starts at `s`.
pub open spec fn pattern_at(m: Seq<char>, s: int) -> bool {
    exists|e1: int, e2: int, e3: int, e4: int, w1: int, w2: int, p: int|
        #[trigger] pattern_spans(m, s, e1, e2, e3, e4, w1, w2, p)
}

proof fn lemma_digit_run(m: Seq<char>, i: int)
    requires
        0 <= i <= m.len(),
    ensures
        i <= digit_run_end(m, i) <= m.len(),
        all_digits(m, i, digit_run_end(m, i)),
        digit_run_end(m, i) == m.len() || !is_digit(m[digit_run_end(m, i)]),
    decreases m.len() - i,
{
    if i < m.len() && is_digit(m[i]) {
        lemma_digit_run(m, i + 1);
    }
}

proof fn lemma_space_run(m: Seq<char>, i: int)
    requires
        0 <= i <= m.len(),
    ensures
        i <= space_run_end(m, i) <= m.len(),
        all_spaces(m, i, space_run_end(m, i)),
        space_run_end(m, i) == m.len() || !is_space(m[space_run_end(m, i)]),
    decreases m.len() - i,
{
    if i < m.len() && is_space(m[i]) {
        lemma_space_run(m, i + 1);
    }
}

proof fn lemma_digit_run_covers(m: Seq<char>, i: int, j: int)
    requires
        0 <= i <= j <= m.len(),
        all_digits(m, i, j),
    ensures
        digit_run_end(m, i) >= j,
        j < m.len() && !is_digit(m[j]) ==> digit_run_end(m, i) == j,
    decreases j - i,
{
    if i < j {
        lemma_digit_run_covers(m, i + 1, j);
    }
    lemma_digit_run(m, i);
}

proof fn lemma_space_run_covers(m: Seq<char>, i: int, j: int)
    requires
        0 <= i <= j <= m.len(),
        all_spaces(m, i, j),
    ensures
        space_run_end(m, i) >= j,
        j < m.len() && !is_space(m[j]) ==> space_run_end(m, i) == j,
    decreases j - i,
{
    if i < j {
        lemma_space_run_covers(m, i + 1, j);
    }
    lemma_space_run(m, i);
}

/// Spans of the pattern determine where the matcher's address and port lie.
proof fn lemma_spans_match(
    m: Seq<char>,
    s: int,
    e1: int,
    e2: int,
    e3: int,
    e4: int,
    w1: int,
    w2: int,
    p: int,
)
    requires
        pattern_spans(m, s, e1, e2, e3, e4, w1, w2, p),
    ensures
        match_at(m, s),
        address_end(m, s) == e4,
        port_start(m, s) == w2,
        port_end(m, s) >= p,
        p == m.len() || !is_digit(m[p]) ==> port_end(m, s) == p,
{
    lemma_digit_run_covers(m, s, e1);
    lemma_digit_run_covers(m, e1 + 1, e2);
    lemma_digit_run_covers(m, e2 + 1, e3);
    lemma_digit_run_covers(m, e3 + 1, e4);
    assert(next_octet(m, s) == e1 + 1);
    assert(last_octet(m, s) == e3 + 1);
    assert(is_space(m[e4]));
    assert(address_end(m, s) == e4);
    lemma_space_run_covers(m, e4, w1);
    assert(space_run_end(m, e4) == w1);
    lemma_space_run_covers(m, w1 + 4, w2);
    assert(is_digit(m[w2]));
    assert(space_run_end(m, w1 + 4) == w2);
    lemma_digit_run_covers(m, w2, p);
    if p < m.len() && !is_digit(m[p]) {
        assert(port_end(m, s) == p);
    } else if p == m.len() {
        lemma_digit_run(m, w2);
    }
}

/// The matcher's position test is exactly the shape of the pattern.
pub proof fn lemma_pattern_iff_match(m: Seq<char>, s: int)
    ensures
        pattern_at(m, s) <==> match_at(m, s),
{
    if pattern_at(m, s) {
        let (e1, e2, e3, e4, w1, w2, p) = choose|
            e1: int,
            e2: int,
            e3: int,
            e4: int,
            w1: int,
            w2: int,
            p: int,
        | #[trigger] pattern_spans(m, s, e1, e2, e3, e4, w1, w2, p);
        lemma_spans_match(m, s, e1, e2, e3, e4, w1, w2, p);
    }
    if match_at(m, s) {
        let e1 = digit_run_end(m, s);
        let e2 = digit_run_end(m, e1 + 1);
        let e3 = digit_run_end(m, e2 + 1);
        let e4 = address_end(m, s);
        let w1 = space_run_end(m, e4);
        let w2 = port_start(m, s);
        let p = port_end(m, s);
        lemma_digit_run(m, s);
        lemma_digit_run(m, e1 + 1);
        lemma_digit_run(m, e2 + 1);
        lemma_digit_run(m, e3 + 1);
        lemma_space_run(m, e4);
        lemma_space_run(m, w1 + 4);
        lemma_digit_run(m, w2);
        assert(pattern_spans(m, s, e1, e2, e3, e4, w1, w2, p));
    }
}

/// Extraction succeeds exactly on the messages that hold text of the shape
/// `D.D.D.D port N` (each `D` one to three digits, each space any non-empty run of
/// whitespace, `N` one or more digits) somewhere, and fails on all others.
pub proof fn lemma_extract_iff_pattern(m: Seq<char>)
    ensures
        extract_spec(m) is Some <==> exists|s: int| pattern_at(m, s),
{
    if exists|s: int| pattern_at(m, s) {
        let s = choose|s: int| pattern_at(m, s);
        lemma_pattern_iff_match(m, s);
        assert(match_at(m, s));
        lemma_first_from_any(m, s);
    } else {
        assert forall|s: int| !#[trigger] match_at(m, s) by {
            lemma_pattern_iff_match(m, s);
        }
        lemma_extract_no_match(m);
    }
}

proof fn lemma_first_from_any(m: Seq<char>, s: int)
    requires
        match_at(m, s),
    ensures
        extract_spec(m) is Some,
    decreases s,
{
    if none_before(m, s) {
        lemma_extract_first_match(m, s);
    } else {
        let t = choose|t: int| 0 <= t < s && #[trigger] match_at(m, t);
        lemma_first_from_any(m, t);
    }
}

/// Where the first text of that shape spans `[s, p)`, with `p` the end of the port's
/// digits, extraction gives exactly its address `[s, e4)` and its port `[w2, p)`.
pub proof fn lemma_extract_gives_pattern(
    m: Seq<char>,
    s: int,
    e1: int,
    e2: int,
    e3: int,
    e4: int,
    w1: int,
    w2: int,
    p: int,
)
    requires
        pattern_spans(m, s, e1, e2, e3, e4, w1, w2, p),
        p == m.len() || !is_digit(m[p]),
        forall|t: int| 0 <= t < s ==> !#[trigger] pattern_at(m, t),
    ensures
        extract_spec(m) == Some(
            AddressPortModel { address: m.subrange(s, e4), port: m.subrange(w2, p) },
        ),
{
    lemma_spans_match(m, s, e1, e2, e3, e4, w1, w2, p);
    assert forall|t: int| 0 <= t < s implies !#[trigger] match_at(m, t) by {
        lemma_pattern_iff_match(m, t);
    }
    lemma_extract_first_match(m, s);
}

} // verus!
