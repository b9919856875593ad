//! Finding the newest `codex.rate_limits` event inside a Codex log line.
//!
//! A log body holds free text around a JSON object that starts with
//! `{"type":"codex.rate_limits"`. The object is cut out by counting braces,
//! skipping over string literals and the characters escaped inside them.
use vstd::prelude::*;

verus! {

/// The text that opens a rate-limit event object.
pub open spec fn rate_limit_marker() -> Seq<char> {
    seq![
        '{', '"', 't', 'y', 'p', 'e', '"', ':', '"', 'c', 'o', 'd', 'e', 'x', '.', 'r', 'a', 't',
        'e', '_', 'l', 'i', 'm', 'i', 't', 's', '"',
    ]
}

/// `pat` occurs in `s` starting at index `i`.
pub open spec fn occurs_at(s: Seq<char>, pat: Seq<char>, i: int) -> bool {
    &&& 0 <= i
    &&& i + pat.len() <= s.len()
    &&& s.subrange(i, i + pat.len()) =~= pat
}

/// `i` is the first index at which `pat` occurs in `s`.
pub open spec fn is_first_occurrence(s: Seq<char>, pat: Seq<char>, i: int) -> bool {
    occurs_at(s, pat, i) && forall|j: int| 0 <= j < i ==> !occurs_at(s, pat, j)
}

/// Where the brace scanner stands after reading some characters.
pub struct ScanState {
    pub depth: int,
    pub in_string: bool,
    pub escaping: bool,
}

pub open spec fn scan_start() -> ScanState {
    ScanState { depth: 0, in_string: false, escaping: false }
}

/// One character of the scan: inside a string only quotes and backslash
/// escapes matter; outside, a quote opens a string and braces change the depth.
pub open spec fn scan_step(st: ScanState, c: char) -> ScanState {
    if st.in_string {
        if st.escaping {
            ScanState { escaping: false, ..st }
        } else if c == '\\' {
            ScanState { escaping: true, ..st }
        } else if c == '"' {
            ScanState { in_string: false, ..st }
        } else {
            st
        }
    } else if c == '"' {
        ScanState { in_string: true, ..st }
    } else if c == '{' {
        ScanState { depth: st.depth + 1, ..st }
    } else if c == '}' {
        ScanState { depth: st.depth - 1, ..st }
    } else {
        st
    }
}

/// The scanner's state after the first `n` characters of `s`.
pub open spec fn scan_state(s: Seq<char>, n: nat) -> ScanState
    decreases n,
{
    if n == 0 {
        scan_start()
    } else {
        scan_step(scan_state(s, (n - 1) as nat), s[n - 1])
    }
}

/// The character at `k` is the brace that brings the depth back to zero.
pub open spec fn closes_at(s: Seq<char>, k: int) -> bool {
    &&& 0 <= k < s.len()
    &&& !scan_state(s, k as nat).in_string
    &&& s[k] == '}'
    &&& scan_state(s, k as nat).depth == 1
}

/// `k` is the first closing position in `s`.
pub open spec fn is_first_close(s: Seq<char>, k: int) -> bool {
    closes_at(s, k) && forall|j: int| 0 <= j < k ==> !closes_at(s, j)
}

/// The object that `s` starts with: `s` up to and including its first closing
/// brace, or nothing where the braces never close.
pub open spec fn balanced_prefix(s: Seq<char>) -> Option<Seq<char>> {
    if exists|k: int| closes_at(s, k) {
        let k = choose|k: int| is_first_close(s, k);
        Some(s.take(k + 1))
    } else {
        None
    }
}

/// The rate-limit object of a log body: the balanced object that starts at the
/// first occurrence of the marker, if the marker occurs and the object closes.
pub open spec fn rate_limit_object(body: Seq<char>) -> Option<Seq<char>> {
    if exists|i: int| occurs_at(body, rate_limit_marker(), i) {
        let i = choose|i: int| is_first_occurrence(body, rate_limit_marker(), i);
        balanced_prefix(body.skip(i))
    } else {
        None
    }
}

/// The depth counter of the scan never needs to go past `i32::MAX` before the
/// object closes (the scan counts in an `i32`).
pub open spec fn scan_fits_i32(s: Seq<char>) -> bool {
    forall|k: int|
        0 <= k < s.len() && (forall|j: int| 0 <= j < k ==> !closes_at(s, j)) ==> #[trigger] scan_state(
            s,
            k as nat,
        ).depth < i32::MAX
}

/// The scan of `body` from the first marker fits in `i32`, or there is no marker.
pub open spec fn rate_limit_scan_fits(body: Seq<char>) -> bool {
    forall|i: int| is_first_occurrence(body, rate_limit_marker(), i) ==> scan_fits_i32(body.skip(i))
}

/// The scan's depth never exceeds the number of characters read.
proof fn lemma_depth_bounded(s: Seq<char>, n: nat)
    ensures
        scan_state(s, n).depth <= n,
    decreases n,
{
    if n > 0 {
        lemma_depth_bounded(s, (n - 1) as nat);
    }
}

/// A body no longer than `i32::MAX` characters never makes the depth counter
/// overflow.
pub proof fn lemma_short_bodies_fit(body: Seq<char>)
    requires
        body.len() <= i32::MAX,
    ensures
        rate_limit_scan_fits(body),
{
    assert forall|i: int| is_first_occurrence(body, rate_limit_marker(), i) implies scan_fits_i32(
        body.skip(i),
    ) by {
        let t = body.skip(i);
        assert forall|k: int|
            0 <= k < t.len() && (forall|j: int| 0 <= j < k ==> !closes_at(t, j)) implies #[trigger] scan_state(
            t,
            k as nat,
        ).depth < i32::MAX by {
            lemma_depth_bounded(t, k as nat);
        }
    }
}

/// The object cut out starts with the marker and ends with a closing brace.
pub proof fn law_object_starts_with_marker(body: Seq<char>)
    ensures
        rate_limit_object(body) matches Some(o) ==> {
            &&& o.len() > rate_limit_marker().len()
            &&& o.take(rate_limit_marker().len() as int) == rate_limit_marker()
            &&& o.last() == '}'
        },
{
    if exists|i: int| occurs_at(body, rate_limit_marker(), i) {
        let i0 = choose|i: int| occurs_at(body, rate_limit_marker(), i);
        lemma_least_occurrence(body, rate_limit_marker(), i0);
        let i = choose|i: int| is_first_occurrence(body, rate_limit_marker(), i);
        let t = body.skip(i);
        let m = rate_limit_marker();
        if exists|k: int| closes_at(t, k) {
            let k = choose|k: int| is_first_close(t, k);
            let k0 = choose|k: int| closes_at(t, k);
            lemma_least_close(t, k0);
            assert(is_first_close(t, k));
            assert forall|j: int| 0 <= j < m.len() implies t[j] == m[j] by {
                assert(t[j] == body.subrange(i, i + m.len())[j]);
            }
            if k < m.len() {
                assert(t[k] == m[k]);
            }
            let o = t.take(k + 1);
            assert(o.take(m.len() as int) =~= m);
        }
    }
}

/// Where the marker occurs, a first occurrence exists.
proof fn lemma_least_occurrence(s: Seq<char>, pat: Seq<char>, i: int)
    requires
        occurs_at(s, pat, i),
    ensures
        exists|j: int| is_first_occurrence(s, pat, j),
    decreases i,
{
    if exists|j: int| 0 <= j < i && occurs_at(s, pat, j) {
        let j = choose|j: int| 0 <= j < i && occurs_at(s, pat, j);
        lemma_least_occurrence(s, pat, j);
    } else {
        assert(is_first_occurrence(s, pat, i));
    }
}

/// Where the braces close, a first closing position exists.
proof fn lemma_least_close(s: Seq<char>, k: int)
    requires
        closes_at(s, k),
    ensures
        exists|j: int| is_first_close(s, j),
    decreases k,
{
    if exists|j: int| 0 <= j < k && closes_at(s, j) {
        let j = choose|j: int| 0 <= j < k && closes_at(s, j);
        lemma_least_close(s, j);
    } else {
        assert(is_first_close(s, k));
    }
}

/// There is at most one first occurrence.
proof fn lemma_first_occurrence_unique(s: Seq<char>, pat: Seq<char>, i: int, j: int)
    requires
        is_first_occurrence(s, pat, i),
        is_first_occurrence(s, pat, j),
    ensures
        i == j,
{
}

/// There is at most one first closing position.
proof fn lemma_first_close_unique(s: Seq<char>, i: int, j: int)
    requires
        is_first_close(s, i),
        is_first_close(s, j),
    ensures
        i == j,
{
}

/// The characters of the marker, in order.
fn marker_chars() -> (m: Vec<char>)
    ensures
        m@ == rate_limit_marker(),
{
    let m = vec![
        '{', '"', 't', 'y', 'p', 'e', '"', ':', '"', 'c', 'o', 'd', 'e', 'x', '.', 'r', 'a', 't',
        'e', '_', 'l', 'i', 'm', 'i', 't', 's', '"',
    ];
    assert(m@ =~= rate_limit_marker());
    m
}

/// The usage endpoint answered with a success status (below 300).
pub fn accepts_usage_status(status: u16) -> (r: bool)
    ensures
        r == (status < 300),
{
    status < 300
}

/// The `Authorization` header value that carries the access token.
pub fn authorization_value(token: &str) -> (r: String)
    ensures
        r@ == "Bearer "@ + token@,
{
    let mut v = String::from_str("Bearer ");
    v.append(token);
    v
}

/// The limit window to show: the first of the two that reports a used
/// percentage.
pub fn first_reported<T>(primary: Option<T>, secondary: Option<T>) -> (r: Option<T>)
    ensures
        r == match primary {
            Some(p) => Some(p),
            None => secondary,
        },
{
    match primary {
        Some(p) => Some(p),
        None => secondary,
    }
}

/// The characters of a string, in order.
pub fn chars_of(s: &str) -> (r: Vec<char>)
    ensures
        r@ == s@,
{
    let mut out: Vec<char> = Vec::new();
    for c in it: s.chars()
        invariant
            out@ == it.seq().take(it.index() as int),
    {
        out.push(c);
    }
    out
}

/// `pat` occurs in `s` at `i`, tested character by character.
fn matches_at(s: &Vec<char>, pat: &Vec<char>, i: usize) -> (r: bool)
    requires
        i + pat@.len() <= s@.len(),
    ensures
        r == occurs_at(s@, pat@, i as int),
{
    let mut k: usize = 0;
    while k < pat.len()
        invariant
            i + pat.len() <= s.len(),
            0 <= k <= pat@.len(),
            forall|j: int| 0 <= j < k ==> s@[i + j] == pat@[j],
        decreases pat@.len() - k,
    {
        if s[i + k] != pat[k] {
            assert(s@.subrange(i as int, i + pat@.len())[k as int] != pat@[k as int]);
            return false;
        }
        k = k + 1;
    }
    assert(s@.subrange(i as int, i + pat@.len()) =~= pat@);
    true
}

/// The first index at which `pat` occurs in `s`.
fn find_first(s: &Vec<char>, pat: &Vec<char>) -> (r: Option<usize>)
    requires
        pat@.len() > 0,
    ensures
        match r {
            Some(i) => is_first_occurrence(s@, pat@, i as int),
            None => forall|i: int| !occurs_at(s@, pat@, i),
        },
{
    if pat.len() > s.len() {
        return None;
    }
    let last = s.len() - pat.len();
    let mut i: usize = 0;
    while i <= last
        invariant
            last + pat@.len() == s@.len(),
            pat@.len() > 0,
            last < s.len(),
            0 <= i <= last + 1,
            forall|j: int| 0 <= j < i ==> !occurs_at(s@, pat@, j),
        decreases last + 1 - i,
    {
        if matches_at(s, pat, i) {
            return Some(i);
        }
        i = i + 1;
    }
    None
}

/// Cuts the first `codex.rate_limits` event object out of a log body: from
/// the first `{"type":"codex.rate_limits"` to the brace that balances its
/// opening brace, not counting braces inside string literals.
pub fn extract_rate_limit_json(body: &str) -> (r: Option<String>)
    requires
        rate_limit_scan_fits(body@),
    ensures
        match r {
            Some(s) => rate_limit_object(body@) == Some(s@),
            None => rate_limit_object(body@) is None,
        },
{
    let chars = chars_of(body);
    let marker = marker_chars();
    let found = find_first(&chars, &marker);
    let start = match found {
        Some(i) => i,
        None => {
            return None;
        },
    };
    let ghost t = chars@.skip(start as int);
    proof {
        assert forall|i: int| is_first_occurrence(chars@, rate_limit_marker(), i) implies i
            == start by {
            lemma_first_occurrence_unique(chars@, rate_limit_marker(), i, start as int);
        }
        assert(scan_fits_i32(t));
        assert(t[0] == '{') by {
            assert(chars@.subrange(start as int, start + rate_limit_marker().len())[0] == '{');
        }
    }
    let mut depth: i32 = 0;
    let mut in_string = false;
    let mut escaping = false;
    let mut k: usize = start;
    while k < chars.len()
        invariant
            start <= k <= chars@.len(),
            chars@ == body@,
            is_first_occurrence(chars@, rate_limit_marker(), start as int),
            t == chars@.skip(start as int),
            t.len() > 0,
            t[0] == '{',
            scan_fits_i32(t),
            depth as int == scan_state(t, (k - start) as nat).depth,
            in_string == scan_state(t, (k - start) as nat).in_string,
            escaping == scan_state(t, (k - start) as nat).escaping,
            k > start ==> depth >= 1,
            forall|j: int| 0 <= j < k - start ==> !closes_at(t, j),
        decreases chars@.len() - k,
    {
        let ghost n = (k - start) as nat;
        let ch = chars[k];
        assert(ch == t[n as int]);
        assert(scan_state(t, n + 1) == scan_step(scan_state(t, n), t[n as int]));
        if in_string {
            if escaping {
                escaping = false;
            } else if ch == '\\' {
                escaping = true;
            } else if ch == '"' {
                in_string = false;
            }
            assert(!closes_at(t, n as int));
        } else {
            if ch == '"' {
                in_string = true;
                assert(!closes_at(t, n as int));
            } else if ch == '{' {
                assert(scan_state(t, n).depth < i32::MAX);
                depth = depth + 1;
                assert(!closes_at(t, n as int));
            } else if ch == '}' {
                if k == start {
                    assert(false);
                }
                depth = depth - 1;
                if depth == 0 {
                    assert(closes_at(t, n as int));
                    assert(is_first_close(t, n as int));
                    proof {
                        assert forall|c: int| is_first_close(t, c) implies c == n by {
                            lemma_first_close_unique(t, c, n as int);
                        }
                    }
                    let piece = body.substring_char(start, k + 1);
                    assert(piece@ =~= t.take(n + 1int));
                    proof {
                        assert(is_first_occurrence(body@, rate_limit_marker(), start as int));
                        let i0 = choose|i: int| is_first_occurrence(body@, rate_limit_marker(), i);
                        assert(i0 == start);
                        let c0 = choose|c: int| is_first_close(t, c);
                        assert(c0 == n);
                        assert(balanced_prefix(t) == Some(t.take(n + 1int)));
                    }
                    return Some(String::from_str(piece));
                }
                assert(!closes_at(t, n as int));
            } else {
                assert(!closes_at(t, n as int));
            }
        }
        k = k + 1;
    }
    assert(forall|j: int| 0 <= j < t.len() ==> !closes_at(t, j));
    None
}

} // verus!
