//! Character-level helpers the job filter is built on: extracting the
//! characters of a string, case folding, substring search, and stripping
//! a trailing build-number suffix such as `" #42"` from a job name.
use vstd::prelude::*;

verus! {

broadcast use vstd::string::group_string_axioms;

/// ASCII whitespace, the characters a build-number suffix may be padded
/// with. The class is deliberately ASCII: job names use plain spacing,
/// and a non-ASCII space never starts a `" #42"` suffix here.
pub open spec fn is_space_char(c: char) -> bool {
    c == ' ' || c == '\t' || c == '\n' || c == '\r' || c == '\x0b' || c == '\x0c'
}

/// ASCII decimal digit — the only digits a build-number suffix or a
/// command-line numeral is made of.
pub open spec fn is_digit_char(c: char) -> bool {
    48 <= c as u32 && c as u32 <= 57
}

/// Case folding for the filter's case-insensitive checks: ASCII upper-case
/// letters map to their lower-case code point, everything else — including
/// any non-ASCII letter — to itself. The markers being folded against are
/// plain ASCII, so this deliberately narrow folding is all they need.
pub open spec fn fold_char(c: char) -> u32 {
    if 65 <= c as u32 && c as u32 <= 90 {
        (c as u32 + 32) as u32
    } else {
        c as u32
    }
}

pub fn space(c: char) -> (r: bool)
    ensures
        r == is_space_char(c),
{
    c == ' ' || c == '\t' || c == '\n' || c == '\r' || c == '\x0b' || c == '\x0c'
}

pub fn digit(c: char) -> (r: bool)
    ensures
        r == is_digit_char(c),
{
    let u = c as u32;
    48 <= u && u <= 57
}

pub fn fold(c: char) -> (r: u32)
    ensures
        r == fold_char(c),
{
    let u = c as u32;
    if 65 <= u && u <= 90 {
        u + 32
    } else {
        u
    }
}

/// The characters of `s`, as a vector that verified code can index.
pub fn chars_of(s: &str) -> (v: Vec<char>)
    ensures
        v@ == s@,
{
    let mut v: Vec<char> = Vec::new();
    for c in it: s.chars()
        invariant
            v@ == it.seq().take(it.index() as int),
    {
        v.push(c);
    }
    proof {
        assert(v@ =~= s@);
    }
    v
}

/// The needle `n` occurs in `h` at position `i`, compared case-insensitively.
pub open spec fn match_ci_at(h: Seq<char>, n: Seq<char>, i: int) -> bool {
    &&& 0 <= i
    &&& i + n.len() <= h.len()
    &&& forall|j: int| 0 <= j < n.len() ==> fold_char(h[i + j]) == fold_char(n[j])
}

/// The needle `n` occurs somewhere in `h`, compared case-insensitively.
pub open spec fn contains_ci(h: Seq<char>, n: Seq<char>) -> bool {
    exists|i: int| match_ci_at(h, n, i)
}

/// The needle `n` occurs in `h` at position `i`, compared exactly.
pub open spec fn match_at(h: Seq<char>, n: Seq<char>, i: int) -> bool {
    &&& 0 <= i
    &&& i + n.len() <= h.len()
    &&& forall|j: int| 0 <= j < n.len() ==> h[i + j] == n[j]
}

/// The needle `n` occurs somewhere in `h`, compared exactly.
pub open spec fn contains_exact(h: Seq<char>, n: Seq<char>) -> bool {
    exists|i: int| match_at(h, n, i)
}

fn matches_ci_at(h: &Vec<char>, n: &Vec<char>, i: usize) -> (r: bool)
    requires
        i + n.len() <= h.len(),
    ensures
        r == match_ci_at(h@, n@, i as int),
{
    let mut j: usize = 0;
    while j < n.len()
        invariant
            j <= n.len(),
            i + n.len() <= h.len(),
            forall|t: int| 0 <= t < j ==> fold_char(h@[i + t]) == fold_char(n@[t]),
        decreases n.len() - j,
    {
        if fold(h[i + j]) != fold(n[j]) {
            assert(fold_char(h@[i + j as int]) != fold_char(n@[j as int]));
            return false;
        }
        j += 1;
    }
    true
}

/// Case-insensitive substring search.
pub fn contains_chars_ci(h: &Vec<char>, n: &Vec<char>) -> (r: bool)
    ensures
        r == contains_ci(h@, n@),
{
    if n.len() > h.len() {
        assert(forall|i: int| !match_ci_at(h@, n@, i));
        return false;
    }
    let mut i: usize = 0;
    while i <= h.len() - n.len()
        invariant
            n.len() <= h.len(),
            i <= h.len() - n.len() + 1,
            forall|k: int| 0 <= k < i ==> !match_ci_at(h@, n@, k),
        decreases h.len() - n.len() + 1 - i,
    {
        if matches_ci_at(h, n, i) {
            return true;
        }
        i += 1;
    }
    assert(forall|k: int| !match_ci_at(h@, n@, k));
    false
}

fn matches_at(h: &Vec<char>, n: &Vec<char>, i: usize) -> (r: bool)
    requires
        i + n.len() <= h.len(),
    ensures
        r == match_at(h@, n@, i as int),
{
    let mut j: usize = 0;
    while j < n.len()
        invariant
            j <= n.len(),
            i + n.len() <= h.len(),
            forall|t: int| 0 <= t < j ==> h@[i + t] == n@[t],
        decreases n.len() - j,
    {
        if h[i + j] != n[j] {
            assert(h@[i + j as int] != n@[j as int]);
            return false;
        }
        j += 1;
    }
    true
}

/// Exact substring search.
pub fn contains_chars(h: &Vec<char>, n: &Vec<char>) -> (r: bool)
    ensures
        r == contains_exact(h@, n@),
{
    if n.len() > h.len() {
        assert(forall|i: int| !match_at(h@, n@, i));
        return false;
    }
    let mut i: usize = 0;
    while i <= h.len() - n.len()
        invariant
            n.len() <= h.len(),
            i <= h.len() - n.len() + 1,
            forall|k: int| 0 <= k < i ==> !match_at(h@, n@, k),
        decreases h.len() - n.len() + 1 - i,
    {
        if matches_at(h, n, i) {
            return true;
        }
        i += 1;
    }
    assert(forall|k: int| !match_at(h@, n@, k));
    false
}

/// Equality of two character vectors.
pub fn chars_eq(a: &Vec<char>, b: &Vec<char>) -> (r: bool)
    ensures
        r == (a@ == b@),
{
    if a.len() != b.len() {
        return false;
    }
    let mut i: usize = 0;
    while i < a.len()
        invariant
            a.len() == b.len(),
            i <= a.len(),
            forall|k: int| 0 <= k < i ==> a@[k] == b@[k],
        decreases a.len() - i,
    {
        if a[i] != b[i] {
            assert(a@[i as int] != b@[i as int]);
            return false;
        }
        i += 1;
    }
    proof {
        assert(a@ =~= b@);
    }
    true
}

/// Start of the run of digits that ends just before position `i`:
/// the least `d` with every character of `s[d..i)` a digit.
pub open spec fn digits_start(s: Seq<char>, i: int) -> int
    decreases i,
{
    if 0 < i && i <= s.len() && is_digit_char(s[i - 1]) {
        digits_start(s, i - 1)
    } else {
        i
    }
}

/// Start of the run of whitespace that ends just before position `i`.
pub open spec fn spaces_start(s: Seq<char>, i: int) -> int
    decreases i,
{
    if 0 < i && i <= s.len() && is_space_char(s[i - 1]) {
        spaces_start(s, i - 1)
    } else {
        i
    }
}

/// A job name stripped of a trailing build-number suffix: whitespace,
/// then `#`, then digits, at the very end of the name (at least one
/// whitespace character and at least one digit). A name without such a
/// suffix is returned unchanged.
pub open spec fn strip_spec(s: Seq<char>) -> Seq<char> {
    let d = digits_start(s, s.len() as int);
    if d < s.len() && 0 < d && s[d - 1] == '#' {
        let w = spaces_start(s, d - 1);
        if w < d - 1 {
            s.take(w)
        } else {
            s
        }
    } else {
        s
    }
}

/// Code points that can take part in a build-number suffix: ASCII
/// whitespace, `#`, and the decimal digits.
pub open spec fn is_suffix_code(u: u32) -> bool {
    u == 32 || u == 9 || u == 10 || u == 13 || u == 11 || u == 12 || u == 35 || (48 <= u && u
        <= 57)
}

/// Every character of the run found by `digits_start` is a digit.
pub proof fn lemma_digits_run(s: Seq<char>, i: int)
    requires
        0 <= i <= s.len(),
    ensures
        0 <= digits_start(s, i) <= i,
        forall|p: int| digits_start(s, i) <= p < i ==> is_digit_char(s[p]),
    decreases i,
{
    if 0 < i && is_digit_char(s[i - 1]) {
        lemma_digits_run(s, i - 1);
    }
}

/// Every character of the run found by `spaces_start` is whitespace.
pub proof fn lemma_spaces_run(s: Seq<char>, i: int)
    requires
        0 <= i <= s.len(),
    ensures
        0 <= spaces_start(s, i) <= i,
        forall|p: int| spaces_start(s, i) <= p < i ==> is_space_char(s[p]),
    decreases i,
{
    if 0 < i && is_space_char(s[i - 1]) {
        lemma_spaces_run(s, i - 1);
    }
}

/// A case-insensitive occurrence of a needle free of whitespace, `#` and
/// digit characters lies wholly before any trailing build-number suffix,
/// so it survives the stripping of that suffix.
pub proof fn lemma_contains_survives_strip(name: Seq<char>, m: Seq<char>)
    requires
        contains_ci(name, m),
        forall|j: int| 0 <= j < m.len() ==> !is_suffix_code(#[trigger] fold_char(m[j])),
    ensures
        contains_ci(strip_spec(name), m),
{
    let len = name.len() as int;
    let d = digits_start(name, len);
    lemma_digits_run(name, len);
    if d < len && 0 < d && name[d - 1] == '#' {
        let w = spaces_start(name, d - 1);
        lemma_spaces_run(name, d - 1);
        if w < d - 1 {
            let bare = strip_spec(name);
            assert(bare == name.take(w));
            assert(forall|p: int| w <= p < len ==> is_suffix_code(#[trigger] fold_char(name[p])))
                by {
                assert(fold_char('#') == 35);
                assert(forall|p: int|
                    w <= p < d - 1 ==> is_space_char(#[trigger] name[p]) && is_suffix_code(
                        fold_char(name[p])));
                assert(forall|p: int|
                    d <= p < len ==> is_digit_char(#[trigger] name[p]) && is_suffix_code(
                        fold_char(name[p])));
            }
            if m.len() == 0 {
                assert(match_ci_at(bare, m, 0));
            } else {
                let i = choose|i: int| match_ci_at(name, m, i);
                assert(match_ci_at(name, m, i));
                if i + m.len() > w {
                    let p = if i >= w {
                        i
                    } else {
                        w
                    };
                    assert(0 <= p - i < m.len());
                    assert(fold_char(name[i + (p - i)]) == fold_char(m[p - i]));
                    assert(is_suffix_code(fold_char(name[p])));
                    assert(false);
                }
                assert(match_ci_at(bare, m, i)) by {
                    assert(forall|j: int|
                        0 <= j < m.len() ==> bare[i + j] == name[i + j] && fold_char(
                            #[trigger] bare[i + j]) == fold_char(m[j]));
                }
            }
        }
    }
}

fn prefix_of(v: &Vec<char>, k: usize) -> (r: Vec<char>)
    requires
        k <= v.len(),
    ensures
        r@ == v@.take(k as int),
{
    let mut r: Vec<char> = Vec::new();
    let mut i: usize = 0;
    while i < k
        invariant
            i <= k,
            k <= v.len(),
            r@ == v@.take(i as int),
        decreases k - i,
    {
        r.push(v[i]);
        proof {
            assert(r@ =~= v@.take(i + 1));
        }
        i += 1;
    }
    r
}

/// Strips a trailing `" #<number>"` build-number suffix from a job name,
/// exactly as `strip_spec` describes.
pub fn strip_build_suffix(name: &Vec<char>) -> (r: Vec<char>)
    ensures
        r@ == strip_spec(name@),
{
    let n = name.len();
    let mut d: usize = n;
    while d > 0 && digit(name[d - 1])
        invariant
            d <= n,
            n == name.len(),
            digits_start(name@, n as int) == digits_start(name@, d as int),
        decreases d,
    {
        d -= 1;
    }
    assert(digits_start(name@, d as int) == d as int);
    if d < n && d > 0 && name[d - 1] == '#' {
        let mut w: usize = d - 1;
        while w > 0 && space(name[w - 1])
            invariant
                w <= d - 1,
                d <= n,
                n == name.len(),
                spaces_start(name@, d - 1) == spaces_start(name@, w as int),
            decreases w,
        {
            w -= 1;
        }
        assert(spaces_start(name@, w as int) == w as int);
        if w < d - 1 {
            prefix_of(name, w)
        } else {
            let r = prefix_of(name, name.len());
            proof {
                assert(name@.take(name@.len() as int) =~= name@);
            }
            r
        }
    } else {
        let r = prefix_of(name, name.len());
        proof {
            assert(name@.take(name@.len() as int) =~= name@);
        }
        r
    }
}

} // verus!
