use vstd::prelude::*;
use vstd::string::StrSliceExecFns;
use vstd::string::StringExecFns;

verus! {

/// An ASCII decimal digit.
pub open spec fn is_digit(c: char) -> bool {
    '0' <= c && c <= '9'
}

/// A character with the Unicode `White_Space` property.
pub open spec fn is_space(c: char) -> bool {
    ||| ('\u{9}' <= c && c <= '\u{d}')
    ||| c == ' '
    ||| c == '\u{85}'
    ||| c == '\u{a0}'
    ||| c == '\u{1680}'
    ||| ('\u{2000}' <= c && c <= '\u{200a}')
    ||| c == '\u{2028}'
    ||| c == '\u{2029}'
    ||| c == '\u{202f}'
    ||| c == '\u{205f}'
    ||| c == '\u{3000}'
}

/// The index just past the run of digits that starts at `i`.
pub open spec fn digit_run_end(m: Seq<char>, i: int) -> int
    decreases m.len() - i,
{
    if 0 <= i < m.len() && is_digit(m[i]) {
        digit_run_end(m, i + 1)
    } else {
        i
    }
}

/// The index just past the run of whitespace that starts at `i`.
pub open spec fn space_run_end(m: Seq<char>, i: int) -> int
    decreases m.len() - i,
{
    if 0 <= i < m.len() && is_space(m[i]) {
        space_run_end(m, i + 1)
    } else {
        i
    }
}

/// A group of one to three digits starts at `i` and is not followed by a further digit.
pub open spec fn octet_at(m: Seq<char>, i: int) -> bool {
    i < digit_run_end(m, i) <= i + 3
}

/// A group of one to three digits starts at `i` and is followed by a dot.
pub open spec fn dotted_octet_at(m: Seq<char>, i: int) -> bool {
    octet_at(m, i) && digit_run_end(m, i) < m.len() && m[digit_run_end(m, i)] == '.'
}

/// Where the group after the dot that ends the group at `i` starts.
pub open spec fn next_octet(m: Seq<char>, i: int) -> int {
    digit_run_end(m, i) + 1
}

/// Where the fourth digit group of an address starting at `s` starts.
pub open spec fn last_octet(m: Seq<char>, s: int) -> int {
    next_octet(m, next_octet(m, next_octet(m, s)))
}

/// The index just past an address that starts at `s`.
pub open spec fn address_end(m: Seq<char>, s: int) -> int {
    digit_run_end(m, last_octet(m, s))
}

/// The word `port` at `i`.
pub open spec fn port_word_at(m: Seq<char>, i: int) -> bool {
    0 <= i && i + 4 <= m.len() && m[i] == 'p' && m[i + 1] == 'o' && m[i + 2] == 'r' && m[i + 3]
        == 't'
}

/// Whitespace, the word `port` and whitespace again, starting at `i`.
pub open spec fn port_keyword_at(m: Seq<char>, i: int) -> bool {
    let w = space_run_end(m, i);
    &&& i < w
    &&& port_word_at(m, w)
    &&& w + 4 < space_run_end(m, w + 4)
}

/// Where the port number of a match starting at `s` starts.
pub open spec fn port_start(m: Seq<char>, s: int) -> int {
    space_run_end(m, space_run_end(m, address_end(m, s)) + 4)
}

/// The index just past the port number of a match starting at `s`.
pub open spec fn port_end(m: Seq<char>, s: int) -> int {
    digit_run_end(m, port_start(m, s))
}

/// The pattern `D.D.D.D port N` is found at `s`: each `D` a group of one to three
/// digits, the spaces around `port` any non-empty runs of whitespace, `N` one or more
/// digits. The groups are taken whole, the last one and the port as far as digits go.
pub open spec fn match_at(m: Seq<char>, s: int) -> bool {
    &&& 0 <= s
    &&& dotted_octet_at(m, s)
    &&& dotted_octet_at(m, next_octet(m, s))
    &&& dotted_octet_at(m, next_octet(m, next_octet(m, s)))
    &&& octet_at(m, last_octet(m, s))
    &&& port_keyword_at(m, address_end(m, s))
    &&& port_start(m, s) < port_end(m, s)
}

/// No match starts before `s`.
pub open spec fn none_before(m: Seq<char>, s: int) -> bool {
    forall|t: int| 0 <= t < s ==> !#[trigger] match_at(m, t)
}

pub open spec fn has_match(m: Seq<char>) -> bool {
    exists|s: int| #[trigger] match_at(m, s)
}

/// The leftmost position at which the pattern is found.
pub open spec fn first_match(m: Seq<char>) -> int {
    choose|s: int| match_at(m, s) && none_before(m, s)
}

/// An address and a port, as found in a message.
#[derive(Clone, Debug, PartialEq, Eq)]
pub struct AddressPort {
    pub address: String,
    pub port: String,
}

pub struct AddressPortModel {
    pub address: Seq<char>,
    pub port: Seq<char>,
}

impl View for AddressPort {
    type V = AddressPortModel;

    open spec fn view(&self) -> AddressPortModel {
        AddressPortModel { address: self.address@, port: self.port@ }
    }
}

/// The message holds no address followed by a port.
#[derive(Clone, Copy, Debug, PartialEq, Eq, Structural)]
pub struct NoMatch;

/// What extraction gives for a message: the address and the port of the leftmost match.
#[verifier::opaque]
pub open spec fn extract_spec(m: Seq<char>) -> Option<AddressPortModel> {
    if has_match(m) {
        let s = first_match(m);
        Some(
            AddressPortModel {
                address: m.subrange(s, address_end(m, s)),
                port: m.subrange(port_start(m, s), port_end(m, s)),
            },
        )
    } else {
        None
    }
}

pub open spec fn extract_model(r: Result<AddressPort, NoMatch>) -> Option<AddressPortModel> {
    match r {
        Ok(ap) => Some(ap@),
        Err(_) => None,
    }
}

fn digit_char(c: char) -> (r: bool)
    ensures
        r == is_digit(c),
{
    '0' <= c && c <= '9'
}

fn space_char(c: char) -> (r: bool)
    ensures
        r == is_space(c),
{
    ('\u{9}' <= c && c <= '\u{d}') || c == ' ' || c == '\u{85}' || c == '\u{a0}' || c == '\u{1680}'
        || ('\u{2000}' <= c && c <= '\u{200a}') || c == '\u{2028}' || c == '\u{2029}' || c
        == '\u{202f}' || c == '\u{205f}' || c == '\u{3000}'
}

fn digit_end(m: &Vec<char>, i: usize) -> (r: usize)
    requires
        i <= m@.len(),
    ensures
        r as int == digit_run_end(m@, i as int),
        i <= r <= m@.len(),
{
    let mut j: usize = i;
    while j < m.len() && digit_char(m[j])
        invariant
            i <= j <= m@.len(),
            digit_run_end(m@, i as int) == digit_run_end(m@, j as int),
        decreases m@.len() - j,
    {
        j = j + 1;
    }
    j
}

fn space_end(m: &Vec<char>, i: usize) -> (r: usize)
    requires
        i <= m@.len(),
    ensures
        r as int == space_run_end(m@, i as int),
        i <= r <= m@.len(),
{
    let mut j: usize = i;
    while j < m.len() && space_char(m[j])
        invariant
            i <= j <= m@.len(),
            space_run_end(m@, i as int) == space_run_end(m@, j as int),
        decreases m@.len() - j,
    {
        j = j + 1;
    }
    j
}

/// Checks for a group of one to three digits at `i`, followed by a dot when `dotted`.
/// Returns the index just past the digits.
fn octet(m: &Vec<char>, i: usize, dotted: bool) -> (r: Option<usize>)
    requires
        i <= m@.len(),
    ensures
        r is Some <==> (if dotted {
            dotted_octet_at(m@, i as int)
        } else {
            octet_at(m@, i as int)
        }),
        r matches Some(e) ==> e as int == digit_run_end(m@, i as int),
        r matches Some(e) ==> i < e <= m@.len() && (dotted ==> e < m@.len()),
{
    let e = digit_end(m, i);
    if e == i || e - i > 3 {
        None
    } else if dotted && !(e < m.len() && m[e] == '.') {
        None
    } else {
        Some(e)
    }
}

/// Decides whether the pattern is found at `s`; if so, returns where the address ends
/// and where the port number starts and ends.
fn match_here(m: &Vec<char>, s: usize) -> (r: Option<(usize, usize, usize)>)
    requires
        s <= m@.len(),
    ensures
        r is Some <==> match_at(m@, s as int),
        r matches Some(t) ==> {
            &&& t.0 as int == address_end(m@, s as int)
            &&& t.1 as int == port_start(m@, s as int)
            &&& t.2 as int == port_end(m@, s as int)
            &&& s <= t.0 <= t.1 <= t.2 <= m@.len()
        },
{
    let n = m.len();
    let e1 = match octet(m, s, true) {
        Some(e) => e,
        None => {
            return None;
        },
    };
    let e2 = match octet(m, e1 + 1, true) {
        Some(e) => e,
        None => {
            return None;
        },
    };
    let e3 = match octet(m, e2 + 1, true) {
        Some(e) => e,
        None => {
            return None;
        },
    };
    let e4 = match octet(m, e3 + 1, false) {
        Some(e) => e,
        None => {
            return None;
        },
    };
    let w1 = space_end(m, e4);
    if w1 == e4 {
        return None;
    }
    if !(n - w1 >= 4 && m[w1] == 'p' && m[w1 + 1] == 'o' && m[w1 + 2] == 'r' && m[w1 + 3]
        == 't') {
        return None;
    }
    let w2 = space_end(m, w1 + 4);
    if w2 == w1 + 4 {
        return None;
    }
    let p = digit_end(m, w2);
    if p > w2 {
        Some((e4, w2, p))
    } else {
        None
    }
}

/// The characters of `s`, in order.
fn chars_of(s: &str) -> (r: Vec<char>)
    ensures
        r@ == s@,
{
    let n = s.unicode_len();
    let mut v: Vec<char> = Vec::new();
    let mut i: usize = 0;
    while i < n
        invariant
            n == s@.len(),
            i <= n,
            v@ == s@.subrange(0, i as int),
        decreases n - i,
    {
        v.push(s.get_char(i));
        i = i + 1;
    }
    assert(v@ =~= s@);
    v
}

/// Finds the first address followed by whitespace, the word `port`, whitespace and
/// a port number, anywhere in `message`.
pub fn extract(message: &str) -> (r: Result<AddressPort, NoMatch>)
    ensures
        extract_model(r) == extract_spec(message@),
{
    let m = chars_of(message);
    let n = m.len();
    let mut s: usize = 0;
    while s < n
        invariant
            m@ == message@,
            n == m@.len(),
            s <= n,
            none_before(m@, s as int),
        decreases n - s,
    {
        if let Some((a_end, p0, p1)) = match_here(&m, s) {
            proof {
                lemma_extract_first_match(m@, s as int);
            }
            let address = String::from_str(message.substring_char(s, a_end));
            let port = String::from_str(message.substring_char(p0, p1));
            return Ok(AddressPort { address, port });
        }
        s = s + 1;
    }
    proof {
        assert forall|t: int| !match_at(m@, t) by {
            if 0 <= t < n {
                assert(!match_at(m@, t));
            }
            if t >= n {
                assert(!dotted_octet_at(m@, t));
            }
        }
        lemma_extract_no_match(m@);
    }
    Err(NoMatch)
}

/// Where the pattern is found at `s` and at no earlier position, extraction succeeds
/// and gives exactly the address and the port found at `s`.
pub proof fn lemma_extract_first_match(m: Seq<char>, s: int)
    requires
        match_at(m, s),
        none_before(m, s),
    ensures
        extract_spec(m) == Some(
            AddressPortModel {
                address: m.subrange(s, address_end(m, s)),
                port: m.subrange(port_start(m, s), port_end(m, s)),
            },
        ),
{
    reveal(extract_spec);
    assert(has_match(m));
    let c = first_match(m);
    assert(match_at(m, c) && none_before(m, c));
    if c < s {
        assert(!match_at(m, c));
    }
    if s < c {
        assert(!match_at(m, s));
    }
}

/// Where the pattern is found nowhere in the message, extraction fails.
pub proof fn lemma_extract_no_match(m: Seq<char>)
    requires
        forall|s: int| !#[trigger] match_at(m, s),
    ensures
        extract_spec(m) is None,
{
    reveal(extract_spec);
}

} // verus!
