//! Small verified helpers shared by the string-handling modules: turning a
//! `&str` into its characters, building a `String` back up, and parsing
//! unsigned integers.

use vstd::prelude::*;
use vstd::string::StrSliceExecFns;

verus! {

/// Collects the characters of `s` into a vector whose view equals `s@`.
pub fn chars_of(s: &str) -> (v: Vec<char>)
    ensures
        v@ == s@,
{
    let n = s.unicode_len();
    let mut v: Vec<char> = Vec::new();
    let mut i: usize = 0;
    while i < n
        invariant
            i <= n,
            n == s@.len(),
            v@ == s@.take(i as int),
        decreases n - i,
    {
        let c = s.get_char(i);
        v.push(c);
        i = i + 1;
        proof {
            assert(v@ =~= s@.take(i as int));
        }
    }
    proof {
        assert(v@ =~= s@);
    }
    v
}

/// Relies on `String::push`: appends exactly the one character to the end.
#[verifier::external_body]
pub fn push_char(s: &mut String, c: char)
    ensures
        final(s)@ == old(s)@.push(c),
{
    s.push(c)
}

/// Builds a `String` holding exactly the characters of `v`.
pub fn string_of_chars(v: &Vec<char>) -> (s: String)
    ensures
        s@ == v@,
{
    let mut s = String::new();
    let mut i: usize = 0;
    while i < v.len()
        invariant
            i <= v.len(),
            s@ == v@.take(i as int),
        decreases v.len() - i,
    {
        push_char(&mut s, v[i]);
        i = i + 1;
        proof {
            assert(s@ =~= v@.take(i as int));
        }
    }
    proof {
        assert(s@ =~= v@);
    }
    s
}

/// The Unicode white-space characters, the set `char::is_whitespace` tests.
pub open spec fn spec_is_space(c: char) -> bool {
    ||| c == ' '
    ||| c == '\t'
    ||| c == '\n'
    ||| c == '\u{b}'
    ||| c == '\u{c}'
    ||| c == '\r'
    ||| c == '\u{85}'
    ||| c == '\u{a0}'
    ||| c == '\u{1680}'
    ||| ('\u{2000}' <= c && c <= '\u{200a}')
    ||| c == '\u{2028}'
    ||| c == '\u{2029}'
    ||| c == '\u{202f}'
    ||| c == '\u{205f}'
    ||| c == '\u{3000}'
}

/// `s` without its leading white space.
pub open spec fn spec_trim_start(s: Seq<char>) -> Seq<char>
    decreases s.len(),
{
    if s.len() == 0 {
        s
    } else if spec_is_space(s[0]) {
        spec_trim_start(s.drop_first())
    } else {
        s
    }
}

/// `s` without its trailing white space.
pub open spec fn spec_trim_end(s: Seq<char>) -> Seq<char>
    decreases s.len(),
{
    if s.len() == 0 {
        s
    } else if spec_is_space(s[s.len() - 1]) {
        spec_trim_end(s.drop_last())
    } else {
        s
    }
}

/// `s` without leading and trailing white space.
pub open spec fn spec_trim(s: Seq<char>) -> Seq<char> {
    spec_trim_end(spec_trim_start(s))
}

/// Whether `c` is one of the white-space characters.
pub fn is_space_char(c: char) -> (r: bool)
    ensures
        r == spec_is_space(c),
{
    c == ' ' || c == '\t' || c == '\n' || c == '\u{b}' || c == '\u{c}' || c == '\r' || c == '\u{85}'
        || c == '\u{a0}' || c == '\u{1680}' || ('\u{2000}' <= c && c <= '\u{200a}') || c
        == '\u{2028}' || c == '\u{2029}' || c == '\u{202f}' || c == '\u{205f}' || c == '\u{3000}'
}

/// Removes leading and trailing white space from a character vector.
pub fn trim_chars(cs: &Vec<char>) -> (r: Vec<char>)
    ensures
        r@ == spec_trim(cs@),
{
    let n = cs.len();
    proof {
        assert(cs@.skip(0) =~= cs@);
    }
    let mut i: usize = 0;
    while i < n && is_space_char(cs[i])
        invariant
            i <= n,
            n == cs@.len(),
            spec_trim_start(cs@) == spec_trim_start(cs@.skip(i as int)),
        decreases n - i,
    {
        proof {
            assert(cs@.skip(i as int).drop_first() =~= cs@.skip(i + 1));
        }
        i = i + 1;
    }
    proof {
        assert(spec_trim_start(cs@) =~= cs@.skip(i as int));
    }
    let mut j: usize = n;
    while j > i && is_space_char(cs[j - 1])
        invariant
            i <= j <= n,
            n == cs@.len(),
            spec_trim_start(cs@) == spec_trim_start(cs@.skip(i as int)),
            spec_trim_start(cs@) =~= cs@.skip(i as int),
            spec_trim_end(cs@.skip(i as int)) == spec_trim_end(
                cs@.subrange(i as int, j as int),
            ),
        decreases j,
    {
        proof {
            assert(cs@.subrange(i as int, j as int).drop_last() =~= cs@.subrange(
                i as int,
                j - 1,
            ));
            assert(cs@.subrange(i as int, j as int).len() == j - i);
            assert(cs@.subrange(i as int, j as int)[j - i - 1] == cs@[j - 1]);
        }
        j = j - 1;
    }
    proof {
        if j > i {
            assert(cs@.subrange(i as int, j as int)[j - i - 1] == cs@[j - 1]);
        }
        assert(spec_trim_end(cs@.subrange(i as int, j as int)) =~= cs@.subrange(
            i as int,
            j as int,
        ));
    }
    let mut r: Vec<char> = Vec::new();
    let mut k: usize = i;
    while k < j
        invariant
            i <= k <= j <= n,
            n == cs@.len(),
            r@ == cs@.subrange(i as int, k as int),
        decreases j - k,
    {
        r.push(cs[k]);
        k = k + 1;
        proof {
            assert(r@ =~= cs@.subrange(i as int, k as int));
        }
    }
    proof {
        assert(r@ =~= spec_trim(cs@));
    }
    r
}

/// Whether the characters of `a` are exactly those of the literal `s`.
pub fn chars_eq_str(a: &Vec<char>, s: &str) -> (r: bool)
    ensures
        r == (a@ == s@),
{
    let b = chars_of(s);
    if a.len() != b.len() {
        return false;
    }
    let mut k: usize = 0;
    while k < a.len()
        invariant
            k <= a@.len(),
            a@.len() == b@.len(),
            b@ == s@,
            forall|q: int| 0 <= q < k ==> a@[q] == b@[q],
        decreases a@.len() - k,
    {
        if a[k] != b[k] {
            return false;
        }
        k = k + 1;
    }
    proof {
        assert(a@ =~= s@);
    }
    true
}

/// The characters of `needle` appear contiguously in `hay` at position `k`.
pub open spec fn spec_match_at(hay: Seq<char>, needle: Seq<char>, k: int) -> bool {
    0 <= k && k + needle.len() <= hay.len() && hay.subrange(k, k + needle.len()) == needle
}

/// The characters of `needle` appear contiguously somewhere in `hay`.
pub open spec fn spec_contains_seq(hay: Seq<char>, needle: Seq<char>) -> bool {
    exists|k: int| #[trigger] spec_match_at(hay, needle, k)
}

/// Whether the characters of `needle` appear contiguously in `hay`.
pub fn seq_contains(hay: &Vec<char>, needle: &Vec<char>) -> (r: bool)
    ensures
        r == spec_contains_seq(hay@, needle@),
{
    let n = hay.len();
    let m = needle.len();
    if m > n {
        proof {
            assert(forall|k: int| !spec_match_at(hay@, needle@, k));
        }
        return false;
    }
    let mut k: usize = 0;
    while k <= n - m
        invariant
            0 <= k <= n - m + 1,
            m <= n,
            n == hay@.len(),
            m == needle@.len(),
            forall|q: int| 0 <= q < k ==> !spec_match_at(hay@, needle@, q),
        decreases n - m - k + 1,
    {
        let mut j: usize = 0;
        let mut matched = true;
        while j < m
            invariant
                0 <= j <= m,
                k + m <= n,
                n == hay@.len(),
                m == needle@.len(),
                matched == (forall|q: int| 0 <= q < j ==> hay@[k + q] == needle@[q]),
            decreases m - j,
        {
            if hay[k + j] != needle[j] {
                matched = false;
                j = m;
            } else {
                j = j + 1;
            }
        }
        if matched {
            proof {
                assert(hay@.subrange(k as int, k + needle@.len()) =~= needle@);
                assert(spec_match_at(hay@, needle@, k as int));
            }
            return true;
        }
        proof {
            if spec_match_at(hay@, needle@, k as int) {
                assert(forall|q: int|
                    0 <= q < m ==> hay@.subrange(k as int, k + m)[q] == #[trigger] needle@[q]);
                assert(forall|q: int| 0 <= q < m ==> hay@[k + q] == #[trigger] needle@[q]);
                assert(false);
            }
        }
        k = k + 1;
    }
    proof {
        assert(forall|q: int| 0 <= q < n - m + 1 ==> !spec_match_at(hay@, needle@, q));
        assert(forall|q: int| !spec_match_at(hay@, needle@, q));
    }
    false
}

/// Whether two strings hold the same characters.
pub fn str_eq(a: &str, b: &str) -> (r: bool)
    ensures
        r == (a@ == b@),
{
    let av = chars_of(a);
    chars_eq_str(&av, b)
}

/// A decimal digit.
pub open spec fn spec_is_digit(c: char) -> bool {
    '0' <= c && c <= '9'
}

/// Non-empty and made of digits alone.
pub open spec fn spec_all_digits(s: Seq<char>) -> bool {
    s.len() > 0 && forall|i: int| 0 <= i < s.len() ==> spec_is_digit(#[trigger] s[i])
}

/// The number a digit string denotes.
pub open spec fn spec_digits_val(s: Seq<char>) -> int
    decreases s.len(),
{
    if s.len() == 0 {
        0
    } else {
        spec_digits_val(s.drop_last()) * 10 + (s[s.len() - 1] as int - 48)
    }
}

/// What parsing an unsigned 64-bit decimal means: defined exactly for
/// digit-only strings whose value fits.
pub open spec fn spec_parse_u64(s: Seq<char>) -> Option<u64> {
    if spec_all_digits(s) && spec_digits_val(s) <= u64::MAX {
        Some(spec_digits_val(s) as u64)
    } else {
        None
    }
}

/// The same for a `usize` value.
pub open spec fn spec_parse_usize(s: Seq<char>) -> Option<usize> {
    if spec_all_digits(s) && spec_digits_val(s) <= usize::MAX {
        Some(spec_digits_val(s) as usize)
    } else {
        None
    }
}

/// A digit string's value is never negative.
proof fn lemma_digits_val_nonneg(s: Seq<char>)
    requires
        forall|j: int| 0 <= j < s.len() ==> spec_is_digit(#[trigger] s[j]),
    ensures
        spec_digits_val(s) >= 0,
    decreases s.len(),
{
    if s.len() > 0 {
        lemma_digits_val_nonneg(s.drop_last());
    }
}

/// A digit string's value only grows with its digits: any prefix denotes
/// at most the whole string's value.
proof fn lemma_digits_val_prefix(s: Seq<char>, i: int)
    requires
        forall|j: int| 0 <= j < s.len() ==> spec_is_digit(#[trigger] s[j]),
        0 <= i <= s.len(),
    ensures
        spec_digits_val(s.take(i)) <= spec_digits_val(s),
    decreases s.len() - i,
{
    if i == s.len() {
        assert(s.take(i) =~= s);
    } else {
        assert(s.take(i + 1).drop_last() =~= s.take(i));
        assert(s.take(i + 1)[i] == s[i]);
        assert(forall|j: int| 0 <= j < s.take(i).len() ==> spec_is_digit(#[trigger] s.take(i)[j]));
        lemma_digits_val_nonneg(s.take(i));
        assert(spec_digits_val(s.take(i + 1)) >= spec_digits_val(s.take(i)));
        lemma_digits_val_prefix(s, i + 1);
    }
}

/// Parses an unsigned 64-bit decimal: exactly `spec_parse_u64`.
pub fn parse_u64(s: &str) -> (r: Option<u64>)
    ensures
        r == spec_parse_u64(s@),
{
    let cs = chars_of(s);
    let n = cs.len();
    if n == 0 {
        return None;
    }
    let mut acc: u128 = 0;
    let mut i: usize = 0;
    while i < n
        invariant
            i <= n,
            n == cs@.len(),
            cs@ == s@,
            acc <= u64::MAX as u128,
            acc == spec_digits_val(cs@.take(i as int)),
            forall|j: int| 0 <= j < i ==> spec_is_digit(#[trigger] cs@[j]),
        decreases n - i,
    {
        let c = cs[i];
        if !('0' <= c && c <= '9') {
            return None;
        }
        let d = (c as u32 - 48) as u128;
        acc = acc * 10 + d;
        i = i + 1;
        proof {
            assert(cs@.take(i as int).drop_last() =~= cs@.take(i - 1));
            assert(cs@.take(i as int)[i - 1] == cs@[i - 1]);
        }
        if acc > u64::MAX as u128 {
            proof {
                if spec_all_digits(s@) {
                    lemma_digits_val_prefix(cs@, i as int);
                    assert(spec_digits_val(s@) > u64::MAX);
                }
            }
            return None;
        }
    }
    proof {
        assert(cs@.take(n as int) =~= cs@);
    }
    Some(acc as u64)
}

/// Parses an unsigned `usize` decimal: exactly `spec_parse_usize`.
pub fn parse_usize(s: &str) -> (r: Option<usize>)
    ensures
        r == spec_parse_usize(s@),
{
    proof {
        assert(usize::MAX as int <= u64::MAX as int);
    }
    match parse_u64(s) {
        Some(v) => {
            proof {
                assert(spec_all_digits(s@));
                lemma_digits_val_nonneg(s@);
            }
            if v <= usize::MAX as u64 {
                Some(v as usize)
            } else {
                None
            }
        },
        None => None,
    }
}

/// Whether the characters of `cs` end with those of `sfx`.
pub fn seq_ends_with(cs: &Vec<char>, sfx: &Vec<char>) -> (r: bool)
    ensures
        r == (cs@.len() >= sfx@.len() && cs@.skip(cs@.len() - sfx@.len()) == sfx@),
{
    let n = cs.len();
    let m = sfx.len();
    if n < m {
        return false;
    }
    let start = n - m;
    let mut k: usize = 0;
    while k < m
        invariant
            k <= m,
            m <= n,
            n == cs@.len(),
            m == sfx@.len(),
            start == n - m,
            forall|j: int| 0 <= j < k ==> cs@[start + j] == sfx@[j],
        decreases m - k,
    {
        if cs[start + k] != sfx[k] {
            proof {
                assert(cs@.skip(n - m)[k as int] == cs@[start + k]);
            }
            return false;
        }
        k = k + 1;
    }
    proof {
        assert(cs@.skip(cs@.len() - sfx@.len()) =~= sfx@);
    }
    true
}

} // verus!
