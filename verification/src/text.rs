use vstd::prelude::*;
use vstd::string::StrSliceExecFns;
use vstd::string::StringExecFns;
use vstd::string::StringSliceAdditionalSpecFns;

verus! {

/// `c` is one of the ASCII digits `0` to `9`.
pub open spec fn is_decimal_digit(c: char) -> bool {
    '0' <= c && c <= '9'
}

/// Every character of `s` is an ASCII digit.
pub open spec fn all_decimal_digits(s: Seq<char>) -> bool {
    forall|i: int| 0 <= i < s.len() ==> #[trigger] is_decimal_digit(s[i])
}

/// The number that the decimal digits `s` denote.
pub open spec fn decimal_value(s: Seq<char>) -> int
    decreases s.len(),
{
    if s.len() == 0 {
        0
    } else {
        decimal_value(s.drop_last()) * 10 + (s.last() as int - '0' as int)
    }
}

/// The digits that an unsigned parse reads: one leading `+` is skipped.
pub open spec fn unsigned_digits(s: Seq<char>) -> Seq<char> {
    if s.len() > 0 && s[0] == '+' {
        s.drop_first()
    } else {
        s
    }
}

/// The result of parsing `s` as an unsigned integer whose largest value is
/// `max`: an optional `+`, then one or more ASCII digits, denoting at most `max`.
pub open spec fn parse_unsigned(s: Seq<char>, max: int) -> Option<int> {
    let d = unsigned_digits(s);
    if d.len() > 0 && all_decimal_digits(d) && decimal_value(d) <= max {
        Some(decimal_value(d))
    } else {
        None
    }
}

/// `s` with every trailing `/` removed.
pub open spec fn trim_trailing_slashes(s: Seq<char>) -> Seq<char>
    decreases s.len(),
{
    if s.len() > 0 && s.last() == '/' {
        trim_trailing_slashes(s.drop_last())
    } else {
        s
    }
}

/// The value of a string of digits is never negative.
pub proof fn lemma_decimal_value_nonneg(s: Seq<char>)
    requires
        all_decimal_digits(s),
    ensures
        decimal_value(s) >= 0,
    decreases s.len(),
{
    if s.len() > 0 {
        assert(is_decimal_digit(s[s.len() - 1]));
        assert(all_decimal_digits(s.drop_last())) by {
            assert forall|i: int| 0 <= i < s.drop_last().len() implies #[trigger] is_decimal_digit(
                s.drop_last()[i],
            ) by {
                assert(is_decimal_digit(s[i]));
            }
        }
        lemma_decimal_value_nonneg(s.drop_last());
    }
}

/// A prefix of a string of digits never denotes more than the whole string.
pub proof fn lemma_decimal_prefix_le(s: Seq<char>, k: int)
    requires
        all_decimal_digits(s),
        0 <= k <= s.len(),
    ensures
        decimal_value(s.subrange(0, k)) <= decimal_value(s),
    decreases s.len(),
{
    if k < s.len() {
        let t = s.drop_last();
        assert(all_decimal_digits(t)) by {
            assert forall|i: int| 0 <= i < t.len() implies #[trigger] is_decimal_digit(t[i]) by {
                assert(is_decimal_digit(s[i]));
            }
        }
        lemma_decimal_prefix_le(t, k);
        assert(t.subrange(0, k) =~= s.subrange(0, k));
        lemma_decimal_value_nonneg(t);
        assert(is_decimal_digit(s[s.len() - 1]));
    } else {
        assert(s.subrange(0, k) =~= s);
    }
}

/// Parses `s` as an unsigned decimal integer that fits in a `u64`, as
/// `<u64 as FromStr>::from_str` does.
pub fn parse_u64(s: &str) -> (r: Option<u64>)
    ensures
        match r {
            Some(v) => parse_unsigned(s@, u64::MAX as int) == Some(v as int),
            None => parse_unsigned(s@, u64::MAX as int) is None,
        },
{
    let n = s.unicode_len();
    let mut start: usize = 0;
    if n > 0 && s.get_char(0) == '+' {
        start = 1;
    }
    let ghost d = unsigned_digits(s@);
    assert(d =~= s@.subrange(start as int, n as int));
    if start >= n {
        return None;
    }
    let mut acc: u64 = 0;
    let mut i = start;
    while i < n
        invariant
            start <= i <= n,
            n == s@.len(),
            start < n,
            d == s@.subrange(start as int, n as int),
            d == unsigned_digits(s@),
            all_decimal_digits(s@.subrange(start as int, i as int)),
            acc as int == decimal_value(s@.subrange(start as int, i as int)),
        decreases n - i,
    {
        let c = s.get_char(i);
        let ghost prev = s@.subrange(start as int, i as int);
        let ghost next = s@.subrange(start as int, i + 1);
        assert(next.drop_last() =~= prev);
        assert(next.last() == c);
        if !('0' <= c && c <= '9') {
            assert(d[i - start] == s@[i as int]);
            assert(!is_decimal_digit(d[i - start]));
            return None;
        }
        assert(all_decimal_digits(next)) by {
            assert forall|j: int| 0 <= j < next.len() implies #[trigger] is_decimal_digit(next[j]) by {
                if j < prev.len() {
                    assert(next[j] == prev[j]);
                }
            }
        }
        let digit = ((c as u32) - ('0' as u32)) as u64;
        match acc.checked_mul(10) {
            None => {
                proof {
                    lemma_overflow_rejects(d, (i + 1 - start) as int);
                    assert(d.subrange(0, (i + 1 - start) as int) =~= next);
                    lemma_decimal_value_nonneg(prev);
                }
                return None;
            },
            Some(m) => match m.checked_add(digit) {
                None => {
                    proof {
                        lemma_overflow_rejects(d, (i + 1 - start) as int);
                        assert(d.subrange(0, (i + 1 - start) as int) =~= next);
                    }
                    return None;
                },
                Some(v) => {
                    acc = v;
                },
            },
        }
        i = i + 1;
    }
    assert(s@.subrange(start as int, n as int) =~= d);
    Some(acc)
}

/// Once a prefix of the digits exceeds `u64::MAX`, the whole string does too,
/// or it is not all digits.
proof fn lemma_overflow_rejects(d: Seq<char>, k: int)
    requires
        0 < k <= d.len(),
        all_decimal_digits(d.subrange(0, k)),
    ensures
        decimal_value(d.subrange(0, k)) > u64::MAX ==> parse_unsigned_digits_fail(d),
{
    if decimal_value(d.subrange(0, k)) > u64::MAX && all_decimal_digits(d) {
        lemma_decimal_prefix_le(d, k);
    }
}

/// `d` is not a string of digits whose value fits in a `u64`.
pub open spec fn parse_unsigned_digits_fail(d: Seq<char>) -> bool {
    !(all_decimal_digits(d) && decimal_value(d) <= u64::MAX)
}

/// Parses `s` as an unsigned decimal integer that fits in a `u32`, as
/// `<u32 as FromStr>::from_str` does.
pub fn parse_u32(s: &str) -> (r: Option<u32>)
    ensures
        match r {
            Some(v) => parse_unsigned(s@, u32::MAX as int) == Some(v as int),
            None => parse_unsigned(s@, u32::MAX as int) is None,
        },
{
    match parse_u64(s) {
        Some(v) => {
            if v <= 0xffff_ffffu64 {
                Some(v as u32)
            } else {
                None
            }
        },
        None => None,
    }
}

/// `s` without its trailing `/` characters, as `str::trim_end_matches('/')` gives it.
pub fn trim_end_slashes(s: &str) -> (r: String)
    ensures
        r@ == trim_trailing_slashes(s@),
{
    let n = s.unicode_len();
    let mut k = n;
    assert(s@.subrange(0, n as int) =~= s@);
    while k > 0 && s.get_char(k - 1) == '/'
        invariant
            k <= n,
            n == s@.len(),
            trim_trailing_slashes(s@) == trim_trailing_slashes(s@.subrange(0, k as int)),
        decreases k,
    {
        let ghost t = s@.subrange(0, k as int);
        assert(t.drop_last() =~= s@.subrange(0, k - 1));
        k = k - 1;
    }
    let ghost t = s@.subrange(0, k as int);
    assert(!(t.len() > 0 && t.last() == '/'));
    let r = s.substring_char(0, k);
    r.to_owned()
}

/// Whether `a` and `b` hold the same text; their UTF-8 bytes are compared,
/// and nothing is allocated.
pub fn str_eq(a: &str, b: &str) -> (r: bool)
    ensures
        r == (a@ == b@),
{
    let x = a.as_bytes();
    let y = b.as_bytes();
    proof {
        vstd::utf8::encode_utf8_decode_utf8(a@);
        vstd::utf8::encode_utf8_decode_utf8(b@);
    }
    if x.len() != y.len() {
        return false;
    }
    let n = x.len();
    let mut i: usize = 0;
    while i < n
        invariant
            i <= n,
            n == x@.len(),
            n == y@.len(),
            x@ == a.spec_bytes(),
            y@ == b.spec_bytes(),
            forall|j: int| 0 <= j < i ==> x@[j] == y@[j],
        decreases n - i,
    {
        if x[i] != y[i] {
            return false;
        }
        i = i + 1;
    }
    assert(x@ =~= y@);
    true
}

/// `c` is an ASCII uppercase letter.
pub open spec fn is_ascii_upper(c: char) -> bool {
    'A' <= c && c <= 'Z'
}

/// `x` and `y` are the same character once ASCII uppercase letters are
/// turned into lowercase ones.
pub open spec fn same_ignoring_ascii_case(x: char, y: char) -> bool {
    ||| x == y
    ||| (is_ascii_upper(x) && x as int + 32 == y as int)
    ||| (is_ascii_upper(y) && y as int + 32 == x as int)
}

/// `a` and `b` are the same text once ASCII uppercase letters are turned
/// into lowercase ones.
pub open spec fn eq_ignoring_ascii_case(a: Seq<char>, b: Seq<char>) -> bool {
    &&& a.len() == b.len()
    &&& forall|i: int| 0 <= i < a.len() ==> same_ignoring_ascii_case(#[trigger] a[i], b[i])
}

/// Whether `a` and `b` are the same text up to ASCII case.
pub fn str_eq_ignore_ascii_case(a: &str, b: &str) -> (r: bool)
    ensures
        r == eq_ignoring_ascii_case(a@, b@),
{
    let n = a.unicode_len();
    if n != b.unicode_len() {
        return false;
    }
    let mut i: usize = 0;
    while i < n
        invariant
            i <= n,
            n == a@.len(),
            n == b@.len(),
            forall|j: int| 0 <= j < i ==> same_ignoring_ascii_case(#[trigger] a@[j], b@[j]),
        decreases n - i,
    {
        let x = a.get_char(i);
        let y = b.get_char(i);
        let same = x == y || ('A' <= x && x <= 'Z' && (x as u32) + 32 == (y as u32)) || ('A' <= y
            && y <= 'Z' && (y as u32) + 32 == (x as u32));
        if !same {
            assert(!same_ignoring_ascii_case(a@[i as int], b@[i as int]));
            return false;
        }
        i = i + 1;
    }
    true
}

/// `a` followed by `b`.
pub fn concat_str(a: &str, b: &str) -> (r: String)
    ensures
        r@ == a@ + b@,
{
    let owned: String = a.to_owned();
    owned.concat(b)
}

/// Law: the configured address never ends with `/`; it is the given one
/// with only trailing `/` characters removed, and removing them again
/// changes nothing.
pub proof fn law_trim_trailing_slashes(s: Seq<char>)
    ensures
        trim_trailing_slashes(s).len() <= s.len(),
        trim_trailing_slashes(s).len() == 0 || trim_trailing_slashes(s).last() != '/',
        trim_trailing_slashes(s) == s.subrange(0, trim_trailing_slashes(s).len() as int),
        forall|i: int| trim_trailing_slashes(s).len() <= i < s.len() ==> s[i] == '/',
        trim_trailing_slashes(trim_trailing_slashes(s)) == trim_trailing_slashes(s),
    decreases s.len(),
{
    if s.len() > 0 && s.last() == '/' {
        law_trim_trailing_slashes(s.drop_last());
        let t = trim_trailing_slashes(s.drop_last());
        assert(s.drop_last().subrange(0, t.len() as int) =~= s.subrange(0, t.len() as int));
        assert forall|i: int| t.len() <= i < s.len() implies s[i] == '/' by {
            if i < s.len() - 1 {
                assert(s.drop_last()[i] == s[i]);
            }
        }
    } else {
        assert(s.subrange(0, s.len() as int) =~= s);
    }
}

} // verus!
