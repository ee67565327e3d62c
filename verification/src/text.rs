//! Verified text utilities: whitespace trimming, digit counting, decimal
//! parsing and substring search over `&str`, each specified against a
//! mathematical function on the string's sequence of characters.

use vstd::prelude::*;
use vstd::string::StrSliceExecFns;
use vstd::string::StringExecFns;

verus! {

/// The Unicode whitespace characters, the set that `str::trim` removes.
pub open spec fn is_space_char(c: char) -> bool {
    let u = c as u32;
    (9 <= u && u <= 13) || u == 32 || u == 0x85 || u == 0xA0 || u == 0x1680 || (0x2000 <= u
        && u <= 0x200A) || u == 0x2028 || u == 0x2029 || u == 0x202F || u == 0x205F || u == 0x3000
}

fn is_space(c: char) -> (r: bool)
    ensures
        r == is_space_char(c),
{
    let u = c as u32;
    (9 <= u && u <= 13) || u == 32 || u == 0x85 || u == 0xA0 || u == 0x1680 || (0x2000 <= u
        && u <= 0x200A) || u == 0x2028 || u == 0x2029 || u == 0x202F || u == 0x205F || u == 0x3000
}

/// The sequence with its leading whitespace removed.
pub open spec fn trim_start_spec(s: Seq<char>) -> Seq<char>
    decreases s.len(),
{
    if s.len() == 0 {
        s
    } else if is_space_char(s[0]) {
        trim_start_spec(s.subrange(1, s.len() as int))
    } else {
        s
    }
}

/// The sequence with its trailing whitespace removed.
pub open spec fn trim_end_spec(s: Seq<char>) -> Seq<char>
    decreases s.len(),
{
    if s.len() == 0 {
        s
    } else if is_space_char(s.last()) {
        trim_end_spec(s.drop_last())
    } else {
        s
    }
}

/// The sequence with both leading and trailing whitespace removed,
/// the behaviour of `str::trim`.
pub open spec fn trim_spec(s: Seq<char>) -> Seq<char> {
    trim_end_spec(trim_start_spec(s))
}

proof fn lemma_trim_start_at(s: Seq<char>, i: int)
    requires
        0 <= i <= s.len(),
        forall|k: int| 0 <= k < i ==> is_space_char(#[trigger] s[k]),
        i == s.len() || !is_space_char(s[i]),
    ensures
        trim_start_spec(s) == s.subrange(i, s.len() as int),
    decreases i,
{
    if i == 0 {
        assert(s.subrange(0, s.len() as int) =~= s);
    } else {
        let rest = s.subrange(1, s.len() as int);
        lemma_trim_start_at(rest, i - 1);
        assert(rest.subrange(i - 1, rest.len() as int) =~= s.subrange(i, s.len() as int));
    }
}

proof fn lemma_trim_end_at(s: Seq<char>, j: int)
    requires
        0 <= j <= s.len(),
        forall|k: int| j <= k < s.len() ==> is_space_char(#[trigger] s[k]),
        j == 0 || !is_space_char(s[j - 1]),
    ensures
        trim_end_spec(s) == s.subrange(0, j),
    decreases s.len(),
{
    if j == s.len() {
        if s.len() == 0 {
            assert(s.subrange(0, 0) =~= s);
        } else {
            assert(s.subrange(0, j) =~= s);
        }
    } else {
        assert(is_space_char(s.last()));
        lemma_trim_end_at(s.drop_last(), j);
        assert(s.drop_last().subrange(0, j) =~= s.subrange(0, j));
    }
}

/// Returns the input with leading and trailing whitespace removed,
/// as `str::trim` does.
pub fn trim_str(s: &str) -> (r: String)
    ensures
        r@ == trim_spec(s@),
{
    let n: usize = s.unicode_len();
    let mut i: usize = 0;
    while i < n && is_space(s.get_char(i))
        invariant
            n == s@.len(),
            0 <= i <= n,
            forall|k: int| 0 <= k < i ==> is_space_char(#[trigger] s@[k]),
        decreases n - i,
    {
        i = i + 1;
    }
    let mut j: usize = n;
    while j > i && is_space(s.get_char(j - 1))
        invariant
            n == s@.len(),
            0 <= i <= j <= n,
            forall|k: int| j <= k < n ==> is_space_char(#[trigger] s@[k]),
        decreases j,
    {
        j = j - 1;
    }
    proof {
        lemma_trim_start_at(s@, i as int);
        let t = s@.subrange(i as int, n as int);
        lemma_trim_end_at(t, j - i);
        assert(t.subrange(0, j - i) =~= s@.subrange(i as int, j as int));
    }
    String::from_str(s.substring_char(i, j))
}

/// An ASCII decimal digit.
pub open spec fn is_digit_char(c: char) -> bool {
    48 <= c as u32 && c as u32 <= 57
}

/// How many of the first `n` characters of `s` are ASCII digits.
pub open spec fn digit_count_to(s: Seq<char>, n: int) -> int
    decreases n,
{
    if n <= 0 {
        0
    } else {
        digit_count_to(s, n - 1) + if is_digit_char(s[n - 1]) {
            1int
        } else {
            0int
        }
    }
}

/// How many characters of `s` are ASCII digits.
pub open spec fn digit_count(s: Seq<char>) -> int {
    digit_count_to(s, s.len() as int)
}

/// Counts the ASCII digits in `s`, ignoring every other character.
pub fn count_digits(s: &str) -> (r: usize)
    ensures
        r == digit_count(s@),
{
    let n: usize = s.unicode_len();
    let mut count: usize = 0;
    let mut i: usize = 0;
    while i < n
        invariant
            n == s@.len(),
            0 <= i <= n,
            count == digit_count_to(s@, i as int),
            count <= i,
        decreases n - i,
    {
        let u = s.get_char(i) as u32;
        if 48 <= u && u <= 57 {
            count = count + 1;
        }
        i = i + 1;
    }
    count
}

/// The value of the decimal numeral formed by the first `n` characters of `s`.
pub open spec fn digits_val_to(s: Seq<char>, n: int) -> int
    decreases n,
{
    if n <= 0 {
        0
    } else {
        digits_val_to(s, n - 1) * 10 + (s[n - 1] as u32 - 48)
    }
}

/// Every character of `s` is an ASCII digit.
pub open spec fn all_digits(s: Seq<char>) -> bool {
    forall|k: int| 0 <= k < s.len() ==> is_digit_char(#[trigger] s[k])
}

/// What `str::parse::<u32>` returns: an optional leading `+`, then one or
/// more ASCII digits whose value fits in a `u32`; anything else fails.
pub open spec fn parse_u32_spec(s: Seq<char>) -> Option<u32> {
    let body = if s.len() > 0 && s[0] == '+' {
        s.subrange(1, s.len() as int)
    } else {
        s
    };
    if body.len() > 0 && all_digits(body) && digits_val_to(body, body.len() as int) <= u32::MAX {
        Some(digits_val_to(body, body.len() as int) as u32)
    } else {
        None
    }
}

proof fn lemma_digits_val_nonneg(s: Seq<char>, n: int)
    requires
        0 <= n <= s.len(),
        forall|k: int| 0 <= k < n ==> is_digit_char(#[trigger] s[k]),
    ensures
        digits_val_to(s, n) >= 0,
    decreases n,
{
    if n > 0 {
        lemma_digits_val_nonneg(s, n - 1);
    }
}

proof fn lemma_digits_val_monotonic(s: Seq<char>, m: int, n: int)
    requires
        0 <= m <= n <= s.len(),
        forall|k: int| 0 <= k < n ==> is_digit_char(#[trigger] s[k]),
        digits_val_to(s, m) >= 0,
    ensures
        digits_val_to(s, n) >= digits_val_to(s, m),
    decreases n - m,
{
    if m < n {
        lemma_digits_val_nonneg(s, n - 1);
        lemma_digits_val_monotonic(s, m, n - 1);
    }
}

/// Parses a decimal `u32` as `str::parse::<u32>` does: an optional leading
/// `+`, then digits; `None` on an empty numeral, a stray character or
/// overflow.
pub fn parse_u32(s: &str) -> (r: Option<u32>)
    ensures
        r == parse_u32_spec(s@),
{
    let n: usize = s.unicode_len();
    let start: usize = if n > 0 && s.get_char(0) == '+' {
        1
    } else {
        0
    };
    let ghost body = if s@.len() > 0 && s@[0] == '+' {
        s@.subrange(1, s@.len() as int)
    } else {
        s@
    };
    assert(body.len() == n - start);
    assert(forall|k: int| 0 <= k < body.len() ==> body[k] == s@[k + start]);
    if start == n {
        return None;
    }
    let mut acc: u64 = 0;
    let mut i: usize = start;
    while i < n
        invariant
            n == s@.len(),
            start <= i <= n,
            start < n,
            body == (if s@.len() > 0 && s@[0] == '+' {
                s@.subrange(1, s@.len() as int)
            } else {
                s@
            }),
            start == (if s@.len() > 0 && s@[0] == '+' {
                1int
            } else {
                0int
            }),
            body.len() == n - start,
            forall|k: int| 0 <= k < body.len() ==> body[k] == s@[k + start],
            acc == digits_val_to(body, i - start),
            acc <= u32::MAX,
            forall|k: int| 0 <= k < i - start ==> is_digit_char(#[trigger] body[k]),
        decreases n - i,
    {
        let u = s.get_char(i) as u32;
        if !(48 <= u && u <= 57) {
            proof {
                assert(body[i - start] == s@[i - start + start]);
                assert(!is_digit_char(body[i - start]));
                assert(!all_digits(body));
            }
            return None;
        }
        proof {
            assert(body[i - start] == s@[i - start + start]);
            assert(is_digit_char(body[i - start]));
        }
        acc = acc * 10 + (u - 48) as u64;
        i = i + 1;
        if acc > u32::MAX as u64 {
            proof {
                if all_digits(body) {
                    lemma_digits_val_monotonic(body, i - start, body.len() as int);
                    assert(digits_val_to(body, body.len() as int) > u32::MAX);
                }
                assert(parse_u32_spec(s@) is None);
            }
            return None;
        }
    }
    assert(all_digits(body));
    Some(acc as u32)
}

/// A numeral only parses when there is at least one character.
pub proof fn lemma_parse_some_nonempty(s: Seq<char>)
    ensures
        parse_u32_spec(s) is Some ==> s.len() > 0,
{
}

proof fn lemma_trim_start_no_leading(s: Seq<char>)
    ensures
        trim_start_spec(s).len() > 0 ==> !is_space_char(trim_start_spec(s)[0]),
    decreases s.len(),
{
    if s.len() > 0 && is_space_char(s[0]) {
        lemma_trim_start_no_leading(s.subrange(1, s.len() as int));
    }
}

proof fn lemma_trim_end_no_trailing(s: Seq<char>)
    ensures
        trim_end_spec(s).len() > 0 ==> !is_space_char(trim_end_spec(s).last()),
    decreases s.len(),
{
    if s.len() > 0 && is_space_char(s.last()) {
        lemma_trim_end_no_trailing(s.drop_last());
    }
}

proof fn lemma_trim_end_is_prefix(s: Seq<char>)
    ensures
        trim_end_spec(s).len() <= s.len(),
        forall|k: int| 0 <= k < trim_end_spec(s).len() ==> trim_end_spec(s)[k] == s[k],
    decreases s.len(),
{
    if s.len() > 0 && is_space_char(s.last()) {
        lemma_trim_end_is_prefix(s.drop_last());
        assert forall|k: int| 0 <= k < trim_end_spec(s).len() implies trim_end_spec(s)[k]
            == s[k] by {
            assert(trim_end_spec(s) == trim_end_spec(s.drop_last()));
            assert(trim_end_spec(s)[k] == s.drop_last()[k]);
            assert(s.drop_last()[k] == s[k]);
        }
    }
}

/// Trimming is idempotent: a trimmed string trims to itself.
pub proof fn lemma_trim_idempotent(s: Seq<char>)
    ensures
        trim_spec(trim_spec(s)) == trim_spec(s),
{
    let t1 = trim_start_spec(s);
    let t = trim_end_spec(t1);
    if t.len() == 0 {
        assert(trim_spec(t) == t);
    } else {
        lemma_trim_end_is_prefix(t1);
        lemma_trim_start_no_leading(s);
        lemma_trim_end_no_trailing(t1);
        assert(t[0] == t1[0]);
        assert(!is_space_char(t[0]));
        assert(trim_start_spec(t) == t);
        assert(trim_end_spec(t) == t);
    }
}

/// The `needle` occurs in `hay` starting at character position `i`.
pub open spec fn match_at(hay: Seq<char>, needle: Seq<char>, i: int) -> bool {
    &&& 0 <= i
    &&& i + needle.len() <= hay.len()
    &&& forall|k: int| 0 <= k < needle.len() ==> hay[i + k] == #[trigger] needle[k]
}

/// The `needle` occurs somewhere in `hay` as a contiguous run of characters.
pub open spec fn contains_substring(hay: Seq<char>, needle: Seq<char>) -> bool {
    exists|i: int| match_at(hay, needle, i)
}

fn matches_at(hay: &str, needle: &str, i: usize, h: usize, m: usize) -> (r: bool)
    requires
        h == hay@.len(),
        m == needle@.len(),
        i + m <= h,
    ensures
        r == match_at(hay@, needle@, i as int),
{
    let mut k: usize = 0;
    while k < m
        invariant
            h == hay@.len(),
            m == needle@.len(),
            i + m <= h,
            0 <= k <= m,
            forall|l: int| 0 <= l < k ==> hay@[i + l] == #[trigger] needle@[l],
        decreases m - k,
    {
        if hay.get_char(i + k) != needle.get_char(k) {
            return false;
        }
        k = k + 1;
    }
    true
}

/// Whether `hay` contains `needle` as a substring, counted in characters;
/// an empty `needle` is found in every string.
pub fn str_contains(hay: &str, needle: &str) -> (r: bool)
    ensures
        r == contains_substring(hay@, needle@),
{
    let h: usize = hay.unicode_len();
    let m: usize = needle.unicode_len();
    if m > h {
        assert(forall|i: int| !match_at(hay@, needle@, i));
        return false;
    }
    let mut i: usize = 0;
    while i <= h - m
        invariant
            h == hay@.len(),
            m == needle@.len(),
            m <= h,
            0 <= i <= h - m + 1,
            forall|j: int| 0 <= j < i ==> !match_at(hay@, needle@, j),
        decreases h - m + 1 - i,
    {
        if matches_at(hay, needle, i, h, m) {
            assert(contains_substring(hay@, needle@));
            return true;
        }
        i = i + 1;
    }
    assert(forall|j: int| match_at(hay@, needle@, j) ==> 0 <= j <= h - m);
    false
}

} // verus!
