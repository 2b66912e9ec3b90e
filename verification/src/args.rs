//! The command-line surface: which of the preconfigured base URLs to
//! monitor, the poll interval, and whether failing jobs are rebuilt.
//! The flags are read from the argument list alone; anything absent or
//! unreadable falls back to its default, as the flag grammar says.
use vstd::prelude::*;
use crate::text::{is_digit_char, chars_of, digit};

verus! {

/// The value of the digit string `s`, read in decimal.
pub open spec fn digits_val(s: Seq<char>) -> int
    decreases s.len(),
{
    if s.len() == 0 {
        0
    } else {
        digits_val(s.drop_last()) * 10 + (s.last() as u32 - 48)
    }
}

/// `s` is a non-empty string of decimal digits.
pub open spec fn all_digits(s: Seq<char>) -> bool {
    s.len() > 0 && forall|i: int| 0 <= i < s.len() ==> is_digit_char(#[trigger] s[i])
}

/// The digits of a numeral, after one optional leading `+` sign.
pub open spec fn numeral_body(s: Seq<char>) -> Seq<char> {
    if s.len() > 0 && s[0] == '+' {
        s.subrange(1, s.len() as int)
    } else {
        s
    }
}

/// What reading `s` as an unsigned decimal number yields: its value when
/// `s` is a numeral whose value fits, nothing otherwise.
pub open spec fn spec_parse_u64(s: Seq<char>) -> Option<u64> {
    let b = numeral_body(s);
    if all_digits(b) && digits_val(b) <= u64::MAX {
        Some(digits_val(b) as u64)
    } else {
        None
    }
}

/// A digit string's value is not negative.
proof fn lemma_digits_val_nonneg(s: Seq<char>)
    requires
        forall|i: int| 0 <= i < s.len() ==> is_digit_char(#[trigger] s[i]),
    ensures
        digits_val(s) >= 0,
    decreases s.len(),
{
    if s.len() > 0 {
        lemma_digits_val_nonneg(s.drop_last());
    }
}

/// Appending digits never lowers the value a digit string denotes.
proof fn lemma_digits_val_prefix(s: Seq<char>, k: int)
    requires
        0 <= k <= s.len(),
        forall|i: int| 0 <= i < s.len() ==> is_digit_char(#[trigger] s[i]),
    ensures
        digits_val(s) >= digits_val(s.take(k)),
    decreases s.len() - k,
{
    if k < s.len() {
        lemma_digits_val_prefix(s.drop_last(), k);
        assert(s.drop_last().take(k) =~= s.take(k));
        lemma_digits_val_nonneg(s.drop_last());
    } else {
        assert(s.take(k) =~= s);
    }
}

/// Reads an unsigned decimal numeral, exactly as `spec_parse_u64` says.
pub fn parse_u64(s: &Vec<char>) -> (r: Option<u64>)
    ensures
        r == spec_parse_u64(s@),
{
    let start: usize = if s.len() > 0 && s[0] == '+' {
        1
    } else {
        0
    };
    let ghost body = numeral_body(s@);
    proof {
        assert(body =~= s@.subrange(start as int, s@.len() as int));
    }
    if s.len() == start {
        return None;
    }
    let mut acc: u64 = 0;
    let mut i: usize = start;
    while i < s.len()
        invariant
            start <= i <= s.len(),
            body == numeral_body(s@),
            body == s@.subrange(start as int, s@.len() as int),
            forall|k: int| start <= k < i ==> is_digit_char(#[trigger] s@[k]),
            acc == digits_val(s@.subrange(start as int, i as int)),
        decreases s.len() - i,
    {
        let c = s[i];
        if !digit(c) {
            assert(!all_digits(body)) by {
                assert(body[i - start] == s@[i as int]);
            }
            return None;
        }
        let u = c as u32;
        let d = (u - 48) as u64;
        let ghost sofar = s@.subrange(start as int, i as int);
        let ghost upto = s@.subrange(start as int, i + 1);
        proof {
            assert(upto.drop_last() =~= sofar);
            assert(digits_val(upto) == digits_val(sofar) * 10 + d);
        }
        let next = match acc.checked_mul(10) {
            Some(t) => t.checked_add(d),
            None => None,
        };
        match next {
            Some(v) => {
                acc = v;
            },
            None => {
                proof {
                    assert(digits_val(upto) > u64::MAX);
                    if all_digits(body) {
                        lemma_digits_val_prefix(body, i + 1 - start);
                        assert(body.take(i + 1 - start) =~= upto);
                        assert(digits_val(body) > u64::MAX);
                    }
                }
                return None;
            },
        }
        i += 1;
    }
    proof {
        assert(s@.subrange(start as int, i as int) =~= body);
        assert(all_digits(body));
    }
    Some(acc)
}

/// The position of the first occurrence of `flag` in `args` that still
/// has a value after it, scanning from position `i` on.
pub open spec fn spec_find_flag(args: Seq<String>, flag: Seq<char>, i: int) -> Option<int>
    decreases args.len() - i,
{
    if i < 0 || i + 1 >= args.len() {
        None
    } else if args[i]@ == flag {
        Some(i)
    } else {
        spec_find_flag(args, flag, i + 1)
    }
}

/// Finds the first occurrence of `flag` that a value follows.
pub fn find_flag(args: &Vec<String>, flag: &str) -> (r: Option<usize>)
    ensures
        match r {
            Some(i) => spec_find_flag(args@, flag@, 0) == Some(i as int) && i + 1 < args@.len(),
            None => spec_find_flag(args@, flag@, 0) is None,
        },
{
    if args.len() == 0 {
        return None;
    }
    let mut i: usize = 0;
    while i < args.len() - 1
        invariant
            args.len() >= 1,
            0 <= i <= args.len() - 1,
            spec_find_flag(args@, flag@, 0) == spec_find_flag(args@, flag@, i as int),
        decreases args.len() - i,
    {
        let f = flag.to_owned();
        if args[i].eq(&f) {
            return Some(i);
        }
        i += 1;
    }
    None
}

/// Whether `flag` occurs anywhere in `args`.
pub fn has_flag(args: &Vec<String>, flag: &str) -> (r: bool)
    ensures
        r == exists|k: int| 0 <= k < args@.len() && (#[trigger] args@[k])@ == flag@,
{
    let mut i: usize = 0;
    while i < args.len()
        invariant
            0 <= i <= args.len(),
            forall|k: int| 0 <= k < i ==> (#[trigger] args@[k])@ != flag@,
        decreases args.len() - i,
    {
        let f = flag.to_owned();
        if args[i].eq(&f) {
            return true;
        }
        i += 1;
    }
    false
}

/// What the run is told on its command line: which preconfigured base
/// URL to use, the poll interval in seconds, and whether to rebuild
/// failing jobs.
pub struct ParsedArgs {
    pub url_index: usize,
    pub interval_secs: u64,
    pub retry: bool,
}

/// The value following the given flag, read as a number.
pub open spec fn spec_flag_number(args: Seq<String>, flag: Seq<char>) -> Option<u64> {
    match spec_find_flag(args, flag, 0) {
        Some(i) => spec_parse_u64(args[i + 1]@),
        None => None,
    }
}

/// Reads the argument list: `--url <index>` picks one of `url_count`
/// preconfigured base URLs (too large an index means the last one, an
/// absent or unreadable one the first); `--interval <seconds>` overrides
/// the default of 300; `--retry` enables rebuilding.
pub fn parse_arguments(args: &Vec<String>, url_count: usize) -> (p: ParsedArgs)
    requires
        url_count > 0,
    ensures
        p.url_index == match spec_flag_number(args@, "--url"@) {
            Some(v) => if v < url_count as u64 {
                v as usize
            } else {
                (url_count - 1) as usize
            },
            None => 0usize,
        },
        p.interval_secs == match spec_flag_number(args@, "--interval"@) {
            Some(v) => v,
            None => 300u64,
        },
        p.retry == exists|k: int| 0 <= k < args@.len() && (#[trigger] args@[k])@ == "--retry"@,
{
    let url_index: usize = match find_flag(args, "--url") {
        Some(i) => {
            let n = args.len();
            assert(i + 1 < n);
            match parse_u64(&chars_of(args[i + 1].as_str())) {
                Some(v) => {
                    if v < url_count as u64 {
                        v as usize
                    } else {
                        url_count - 1
                    }
                },
                None => 0,
            }
        },
        None => 0,
    };
    let interval_secs: u64 = match find_flag(args, "--interval") {
        Some(i) => {
            let n = args.len();
            assert(i + 1 < n);
            match parse_u64(&chars_of(args[i + 1].as_str())) {
                Some(v) => v,
                None => 300,
            }
        },
        None => 300,
    };
    let retry = has_flag(args, "--retry");
    ParsedArgs { url_index, interval_secs, retry }
}

} // verus!
