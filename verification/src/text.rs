use vstd::prelude::*;
use vstd::string::*;

verus! {

broadcast use vstd::string::group_string_axioms;

/// Unicode `White_Space`: the characters that `char::is_whitespace` accepts.
pub open spec fn is_ws(c: char) -> bool {
    let u = c as u32;
    ||| 0x9 <= u <= 0xd
    ||| u == 0x20
    ||| u == 0x85
    ||| u == 0xa0
    ||| u == 0x1680
    ||| 0x2000 <= u <= 0x200a
    ||| u == 0x2028
    ||| u == 0x2029
    ||| u == 0x202f
    ||| u == 0x205f
    ||| u == 0x3000
}

/// Tests one character against Unicode `White_Space`.
pub fn is_whitespace(c: char) -> (b: bool)
    ensures
        b == is_ws(c),
{
    let u = c as u32;
    (0x9 <= u && u <= 0xd) || u == 0x20 || u == 0x85 || u == 0xa0 || u == 0x1680 || (0x2000
        <= u && u <= 0x200a) || u == 0x2028 || u == 0x2029 || u == 0x202f || u == 0x205f || u
        == 0x3000
}

/// The characters of a string, in order.
pub fn chars_of(s: &str) -> (v: Vec<char>)
    ensures
        v@ == s@,
{
    let mut v: Vec<char> = Vec::new();
    for c in it: s.chars()
        invariant
            v@ == it.seq().take(it.index()),
    {
        v.push(c);
    }
    v
}


/// Builds a `String` holding exactly the given characters.
///
/// Trusted: calls `FromIterator<char> for String` (`collect`), which appends
/// each character in order; the contract claims the result's characters
/// are `v` in order.
#[verifier::external_body]
pub(crate) fn string_from_chars(v: &[char]) -> (s: String)
    ensures
        s@ == v@,
{
    v.iter().collect()
}

/// Number of leading Unicode whitespace characters.
pub open spec fn lead_ws(s: Seq<char>) -> nat
    decreases s.len(),
{
    if s.len() == 0 || !is_ws(s[0]) {
        0
    } else {
        1 + lead_ws(s.drop_first())
    }
}

/// Number of trailing Unicode whitespace characters.
pub open spec fn trail_ws(s: Seq<char>) -> nat
    decreases s.len(),
{
    if s.len() == 0 || !is_ws(s.last()) {
        0
    } else {
        1 + trail_ws(s.drop_last())
    }
}

/// `s` with leading and trailing Unicode whitespace removed (what `str::trim` gives).
pub open spec fn trim(s: Seq<char>) -> Seq<char> {
    if lead_ws(s) >= s.len() {
        Seq::empty()
    } else {
        s.subrange(lead_ws(s) as int, s.len() - trail_ws(s))
    }
}

/// A sequence with no leading or trailing whitespace.
pub open spec fn is_trimmed(s: Seq<char>) -> bool {
    s.len() > 0 ==> !is_ws(s[0]) && !is_ws(s.last())
}

pub proof fn lemma_lead_ws(s: Seq<char>, i: int)
    requires
        0 <= i <= s.len(),
        forall|k: int| 0 <= k < i ==> is_ws(#[trigger] s[k]),
        i == s.len() || !is_ws(s[i]),
    ensures
        lead_ws(s) == i,
    decreases i,
{
    if i > 0 {
        assert(is_ws(s[0]));
        let t = s.drop_first();
        assert forall|k: int| 0 <= k < i - 1 implies is_ws(#[trigger] t[k]) by {
            assert(t[k] == s[k + 1]);
        }
        if i < s.len() {
            assert(t[i - 1] == s[i]);
        }
        lemma_lead_ws(t, i - 1);
    }
}

pub proof fn lemma_trail_ws(s: Seq<char>, i: int)
    requires
        0 <= i <= s.len(),
        forall|k: int| s.len() - i <= k < s.len() ==> is_ws(#[trigger] s[k]),
        i == s.len() || !is_ws(s[s.len() - 1 - i]),
    ensures
        trail_ws(s) == i,
    decreases i,
{
    if i > 0 {
        assert(is_ws(s[s.len() - 1]));
        let t = s.drop_last();
        assert forall|k: int| t.len() - (i - 1) <= k < t.len() implies is_ws(#[trigger] t[k]) by {
            assert(t[k] == s[k]);
        }
        if i < s.len() {
            assert(t[t.len() - 1 - (i - 1)] == s[s.len() - 1 - i]);
        }
        lemma_trail_ws(t, i - 1);
    }
}

/// Bounds of the trimmed part of `v`.
pub fn trim_bounds(v: &[char]) -> (r: (usize, usize))
    ensures
        r.0 <= r.1 <= v@.len(),
        trim(v@) == v@.subrange(r.0 as int, r.1 as int),
        forall|k: int| 0 <= k < r.0 ==> is_ws(#[trigger] v@[k]),
        forall|k: int| r.1 <= k < v@.len() ==> is_ws(#[trigger] v@[k]),
        r.0 < r.1 ==> !is_ws(v@[r.0 as int]) && !is_ws(v@[r.1 - 1]),
{
    let n = v.len();
    let mut a: usize = 0;
    while a < n && is_whitespace(v[a])
        invariant
            a <= n,
            n == v@.len(),
            forall|k: int| 0 <= k < a ==> is_ws(#[trigger] v@[k]),
        decreases n - a,
    {
        a = a + 1;
    }
    proof {
        lemma_lead_ws(v@, a as int);
    }
    if a == n {
        assert(trim(v@) == v@.subrange(a as int, a as int));
        return (a, a);
    }
    let mut b: usize = n;
    while b > a && is_whitespace(v[b - 1])
        invariant
            a < n,
            a <= b <= n,
            n == v@.len(),
            !is_ws(v@[a as int]),
            forall|k: int| b <= k < n ==> is_ws(#[trigger] v@[k]),
        decreases b,
    {
        b = b - 1;
    }
    proof {
        lemma_trail_ws(v@, (n - b) as int);
    }
    (a, b)
}

/// `str::trim`: the string without leading and trailing Unicode whitespace.
pub fn trim_string(s: &str) -> (r: String)
    ensures
        r@ == trim(s@),
{
    let v = chars_of(s);
    let (a, b) = trim_bounds(v.as_slice());
    String::from_str(s.substring_char(a, b))
}

pub proof fn lemma_trim_is_trimmed(s: Seq<char>)
    ensures
        is_trimmed(trim(s)),
        trim(s).len() <= s.len(),
{
    let a = lead_ws(s);
    if a < s.len() {
        lemma_lead_bounds(s);
        lemma_trail_bounds(s);
        let t = trim(s);
        assert(t[0] == s[a as int]);
        assert(t.last() == s[s.len() - trail_ws(s) - 1]);
    }
}

pub proof fn lemma_lead_bounds(s: Seq<char>)
    ensures
        lead_ws(s) <= s.len(),
        forall|k: int| 0 <= k < lead_ws(s) ==> is_ws(#[trigger] s[k]),
        lead_ws(s) < s.len() ==> !is_ws(s[lead_ws(s) as int]),
    decreases s.len(),
{
    if s.len() > 0 && is_ws(s[0]) {
        let t = s.drop_first();
        lemma_lead_bounds(t);
        assert forall|k: int| 0 <= k < lead_ws(s) implies is_ws(#[trigger] s[k]) by {
            if k > 0 {
                assert(s[k] == t[k - 1]);
            }
        }
        if lead_ws(s) < s.len() {
            assert(s[lead_ws(s) as int] == t[lead_ws(t) as int]);
        }
    }
}

pub proof fn lemma_trail_bounds(s: Seq<char>)
    ensures
        trail_ws(s) <= s.len(),
        forall|k: int| s.len() - trail_ws(s) <= k < s.len() ==> is_ws(#[trigger] s[k]),
        trail_ws(s) < s.len() ==> !is_ws(s[s.len() - 1 - trail_ws(s)]),
    decreases s.len(),
{
    if s.len() > 0 && is_ws(s.last()) {
        let t = s.drop_last();
        lemma_trail_bounds(t);
        assert forall|k: int| s.len() - trail_ws(s) <= k < s.len() implies is_ws(#[trigger] s[k]) by {
            if k < s.len() - 1 {
                assert(s[k] == t[k]);
            }
        }
        if trail_ws(s) < s.len() {
            assert(s[s.len() - 1 - trail_ws(s)] == t[t.len() - 1 - trail_ws(t)]);
        }
    }
}


/// Index of the first occurrence of the two-character pattern `a b` in `s`
/// at or after `from`.
pub open spec fn find_pair(s: Seq<char>, a: char, b: char, from: int) -> Option<int>
    decreases s.len() - from,
{
    if from < 0 || from + 1 >= s.len() {
        None
    } else if s[from] == a && s[from + 1] == b {
        Some(from)
    } else {
        find_pair(s, a, b, from + 1)
    }
}

pub proof fn lemma_find_pair(s: Seq<char>, a: char, b: char, from: int)
    requires
        0 <= from,
    ensures
        find_pair(s, a, b, from) matches Some(i) ==> {
            &&& from <= i
            &&& i + 1 < s.len()
            &&& s[i] == a
            &&& s[i + 1] == b
            &&& forall|k: int| from <= k < i ==> !(s[k] == a && #[trigger] s[k + 1] == b)
        },
        find_pair(s, a, b, from) is None ==> forall|k: int|
            from <= k && k + 1 < s.len() ==> !(s[k] == a && #[trigger] s[k + 1] == b),
    decreases s.len() - from,
{
    if from + 1 < s.len() && !(s[from] == a && s[from + 1] == b) {
        lemma_find_pair(s, a, b, from + 1);
    }
}

/// First occurrence of `a b` in `v` at or after `from` (`str::find` of a
/// two-character pattern).
pub fn find_pair_from(v: &[char], a: char, b: char, from: usize) -> (r: Option<usize>)
    ensures
        match r {
            Some(i) => find_pair(v@, a, b, from as int) == Some(i as int),
            None => find_pair(v@, a, b, from as int) is None,
        },
{
    let n = v.len();
    let mut k = from;
    while k < n && k + 1 < n
        invariant
            from <= k,
            n == v@.len(),
            find_pair(v@, a, b, from as int) == find_pair(v@, a, b, k as int),
        decreases n - k,
    {
        if v[k] == a && v[k + 1] == b {
            return Some(k);
        }
        k = k + 1;
    }
    None
}

/// `v` without the characters at positions `start .. end`.
pub fn remove_range(v: &[char], start: usize, end: usize) -> (r: Vec<char>)
    requires
        start <= end <= v@.len(),
    ensures
        r@ == v@.subrange(0, start as int) + v@.subrange(end as int, v@.len() as int),
{
    let mut r: Vec<char> = Vec::new();
    let mut k: usize = 0;
    while k < start
        invariant
            k <= start <= end <= v@.len(),
            r@ == v@.subrange(0, k as int),
        decreases start - k,
    {
        r.push(v[k]);
        k = k + 1;
    }
    let n = v.len();
    let mut k: usize = end;
    while k < n
        invariant
            start <= end <= k <= n,
            n == v@.len(),
            r@ == v@.subrange(0, start as int) + v@.subrange(end as int, k as int),
        decreases n - k,
    {
        r.push(v[k]);
        k = k + 1;
    }
    r
}


/// The characters of `v` at positions `start .. end`.
pub fn sub_chars(v: &[char], start: usize, end: usize) -> (r: Vec<char>)
    requires
        start <= end <= v@.len(),
    ensures
        r@ == v@.subrange(start as int, end as int),
{
    let mut r: Vec<char> = Vec::new();
    let mut k: usize = start;
    while k < end
        invariant
            start <= k <= end <= v@.len(),
            r@ == v@.subrange(start as int, k as int),
        decreases end - k,
    {
        r.push(v[k]);
        k = k + 1;
    }
    r
}

/// The trimmed characters of `v` as a `String`.
pub fn trimmed_string(v: &[char]) -> (r: String)
    ensures
        r@ == trim(v@),
{
    let (a, b) = trim_bounds(v);
    let t = sub_chars(v, a, b);
    string_from_chars(t.as_slice())
}


/// Index of the first `c` in `s` at or after `from`.
pub open spec fn find_char(s: Seq<char>, c: char, from: int) -> Option<int>
    decreases s.len() - from,
{
    if from < 0 || from >= s.len() {
        None
    } else if s[from] == c {
        Some(from)
    } else {
        find_char(s, c, from + 1)
    }
}

pub proof fn lemma_find_char(s: Seq<char>, c: char, from: int)
    requires
        0 <= from,
    ensures
        find_char(s, c, from) matches Some(i) ==> from <= i < s.len() && s[i] == c,
    decreases s.len() - from,
{
    if from < s.len() && s[from] != c {
        lemma_find_char(s, c, from + 1);
    }
}

/// First index of `c` in `v`.
pub fn find_char_in(v: &[char], c: char) -> (r: Option<usize>)
    ensures
        match r {
            Some(i) => find_char(v@, c, 0) == Some(i as int),
            None => find_char(v@, c, 0) is None,
        },
{
    let n = v.len();
    let mut k: usize = 0;
    while k < n
        invariant
            k <= n,
            n == v@.len(),
            find_char(v@, c, 0) == find_char(v@, c, k as int),
        decreases n - k,
    {
        if v[k] == c {
            return Some(k);
        }
        k = k + 1;
    }
    None
}

/// The first line of `s` as `str::lines` yields it: the text before the
/// first `\n`, without a `\r` right before that `\n`; empty text has no line.
pub open spec fn first_line(s: Seq<char>) -> Option<Seq<char>> {
    if s.len() == 0 {
        None
    } else {
        match find_char(s, '\n', 0) {
            None => Some(s),
            Some(i) => if i > 0 && s[i - 1] == '\r' {
                Some(s.subrange(0, i - 1))
            } else {
                Some(s.subrange(0, i))
            },
        }
    }
}

/// `s.lines().next().unwrap_or("").trim()`.
pub fn first_line_trimmed(s: &str) -> (r: String)
    ensures
        r@ == trim(
            match first_line(s@) {
                Some(l) => l,
                None => Seq::<char>::empty(),
            },
        ),
{
    let v = chars_of(s);
    if v.len() == 0 {
        return String::new();
    }
    let line = match find_char_in(v.as_slice(), '\n') {
        None => v,
        Some(i) => {
            proof {
                lemma_find_char(v@, '\n', 0);
            }
            if i > 0 && v[i - 1] == '\r' {
                sub_chars(v.as_slice(), 0, i - 1)
            } else {
                sub_chars(v.as_slice(), 0, i)
            }
        },
    };
    trimmed_string(line.as_slice())
}

/// Whether `s` contains `c`.
pub fn contains_char(s: &str, c: char) -> (r: bool)
    ensures
        r == s@.contains(c),
{
    let v = chars_of(s);
    let n = v.len();
    let mut k: usize = 0;
    while k < n
        invariant
            k <= n,
            n == v@.len(),
            v@ == s@,
            forall|j: int| 0 <= j < k ==> v@[j] != c,
        decreases n - k,
    {
        if v[k] == c {
            assert(s@[k as int] == c);
            return true;
        }
        k = k + 1;
    }
    false
}


pub open spec fn starts_with(s: Seq<char>, p: Seq<char>) -> bool {
    p.len() <= s.len() && s.subrange(0, p.len() as int) == p
}

pub open spec fn ends_with(s: Seq<char>, p: Seq<char>) -> bool {
    p.len() <= s.len() && s.subrange(s.len() - p.len(), s.len() as int) == p
}

/// Whether `v` begins with `p`.
pub fn chars_start_with(v: &[char], p: &str) -> (r: bool)
    ensures
        r == starts_with(v@, p@),
{
    let pv = chars_of(p);
    if pv.len() > v.len() {
        return false;
    }
    let mut k: usize = 0;
    while k < pv.len()
        invariant
            k <= pv@.len() <= v@.len(),
            pv@ == p@,
            forall|j: int| 0 <= j < k ==> v@[j] == pv@[j],
        decreases pv@.len() - k,
    {
        if v[k] != pv[k] {
            assert(v@.subrange(0, pv@.len() as int)[k as int] != p@[k as int]);
            return false;
        }
        k = k + 1;
    }
    assert(v@.subrange(0, pv@.len() as int) =~= p@);
    true
}

/// Whether `v` ends with `p`.
pub fn chars_end_with(v: &[char], p: &str) -> (r: bool)
    ensures
        r == ends_with(v@, p@),
{
    let pv = chars_of(p);
    if pv.len() > v.len() {
        return false;
    }
    let n = v.len();
    let off = n - pv.len();
    let mut k: usize = 0;
    while k < pv.len()
        invariant
            k <= pv@.len() <= v@.len(),
            off == v@.len() - pv@.len(),
            off + pv@.len() == v@.len(),
            n == v@.len(),
            pv@ == p@,
            forall|j: int| 0 <= j < k ==> v@[off + j] == pv@[j],
        decreases pv@.len() - k,
    {
        if v[off + k] != pv[k] {
            assert(v@.subrange(off as int, v@.len() as int)[k as int] != p@[k as int]);
            return false;
        }
        k = k + 1;
    }
    assert(v@.subrange(off as int, v@.len() as int) =~= p@);
    true
}

} // verus!
