//! Domain name validation: format checks following the usual DNS rules
//! (label lengths, character set, dot placement) and heuristics that flag
//! suspicious-looking names. Every check is specified exactly over the
//! character sequence of the domain.

use vstd::prelude::*;
use vstd::string::StrSliceExecFns;

use crate::text::chars_of;

verus! {

/// An ASCII letter or digit, the characters a label may hold besides `-`.
pub open spec fn spec_alnum(c: char) -> bool {
    ('a' <= c && c <= 'z') || ('A' <= c && c <= 'Z') || ('0' <= c && c <= '9')
}

/// A character that may appear anywhere in a domain name.
pub open spec fn spec_domain_char(c: char) -> bool {
    spec_alnum(c) || c == '-' || c == '.'
}

/// The name holds at least one dot.
pub open spec fn spec_has_dot(s: Seq<char>) -> bool {
    exists|i: int| 0 <= i < s.len() && s[i] == '.'
}

/// No label is empty: the name neither starts nor ends with a dot, and no
/// two dots are adjacent.
pub open spec fn spec_no_empty_label(s: Seq<char>) -> bool {
    s.len() > 0 ==> {
        &&& s[0] != '.'
        &&& s[s.len() - 1] != '.'
        &&& forall|i: int| 0 <= i < s.len() - 1 ==> !(#[trigger] s[i] == '.' && s[i + 1] == '.')
    }
}

/// No label starts or ends with a hyphen.
pub open spec fn spec_no_edge_hyphen(s: Seq<char>) -> bool {
    s.len() > 0 ==> {
        &&& s[0] != '-'
        &&& s[s.len() - 1] != '-'
        &&& forall|i: int|
            0 <= i < s.len() - 1 ==> !(#[trigger] s[i] == '.' && s[i + 1] == '-') && !(s[i] == '-'
                && s[i + 1] == '.')
    }
}

/// The window of 64 characters starting at `i` holds a dot.
pub open spec fn spec_window_has_dot(s: Seq<char>, i: int) -> bool {
    exists|j: int| i <= j < i + 64 && #[trigger] s[j] == '.'
}

/// Every label is at most 63 characters long, stated as: every window of 64
/// consecutive characters holds a dot.
pub open spec fn spec_labels_le_63(s: Seq<char>) -> bool {
    forall|i: int| 0 <= i && i + 64 <= s.len() ==> #[trigger] spec_window_has_dot(s, i)
}

/// Length of the maximal dot-free suffix: the characters after the last dot,
/// or the whole name when it holds no dot.
pub open spec fn spec_tail_label_len(s: Seq<char>) -> nat
    decreases s.len(),
{
    if s.len() == 0 {
        0
    } else if s[s.len() - 1] == '.' {
        0
    } else {
        1 + spec_tail_label_len(s.drop_last())
    }
}

/// A well-formed domain name: bounded total length, at least one dot, only
/// domain characters, no empty label, no label edged by a hyphen, labels of
/// at most 63 characters, and a top-level label of at least 2 characters.
pub open spec fn spec_valid_domain_format(s: Seq<char>) -> bool {
    &&& 1 <= s.len() <= 253
    &&& spec_has_dot(s)
    &&& forall|i: int| 0 <= i < s.len() ==> spec_domain_char(s[i])
    &&& spec_no_empty_label(s)
    &&& spec_no_edge_hyphen(s)
    &&& spec_labels_le_63(s)
    &&& spec_tail_label_len(s) >= 2
}

/// Number of hyphens in the name.
pub open spec fn spec_hyphen_count(s: Seq<char>) -> nat
    decreases s.len(),
{
    if s.len() == 0 {
        0
    } else {
        spec_hyphen_count(s.drop_last()) + if s[s.len() - 1] == '-' {
            1nat
        } else {
            0nat
        }
    }
}

/// Four equal characters in a row somewhere in the name.
pub open spec fn spec_has_repeat_run(s: Seq<char>) -> bool {
    exists|i: int|
        0 <= i && i + 3 < s.len() && #[trigger] s[i] == s[i + 1] && s[i + 1] == s[i + 2] && s[i
            + 2] == s[i + 3]
}

/// The heuristic: more than four hyphens, a top-level label longer than ten
/// characters, or a run of four equal characters.
pub open spec fn spec_suspicious(s: Seq<char>) -> bool {
    spec_hyphen_count(s) > 4 || spec_tail_label_len(s) > 10 || spec_has_repeat_run(s)
}

fn is_alnum_char(c: char) -> (r: bool)
    ensures
        r == spec_alnum(c),
{
    ('a' <= c && c <= 'z') || ('A' <= c && c <= 'Z') || ('0' <= c && c <= '9')
}

fn check_has_dot(cs: &Vec<char>) -> (r: bool)
    ensures
        r == spec_has_dot(cs@),
{
    let mut i: usize = 0;
    while i < cs.len()
        invariant
            i <= cs.len(),
            forall|j: int| 0 <= j < i ==> cs@[j] != '.',
        decreases cs.len() - i,
    {
        if cs[i] == '.' {
            return true;
        }
        i = i + 1;
    }
    false
}

fn check_domain_chars(cs: &Vec<char>) -> (r: bool)
    ensures
        r == forall|i: int| 0 <= i < cs@.len() ==> spec_domain_char(cs@[i]),
{
    let mut i: usize = 0;
    while i < cs.len()
        invariant
            i <= cs.len(),
            forall|j: int| 0 <= j < i ==> spec_domain_char(cs@[j]),
        decreases cs.len() - i,
    {
        let c = cs[i];
        if !(is_alnum_char(c) || c == '-' || c == '.') {
            return false;
        }
        i = i + 1;
    }
    true
}

fn check_no_empty_label(cs: &Vec<char>) -> (r: bool)
    requires
        cs@.len() > 0,
    ensures
        r == spec_no_empty_label(cs@),
{
    if cs[0] == '.' || cs[cs.len() - 1] == '.' {
        return false;
    }
    let mut i: usize = 0;
    while i < cs.len() - 1
        invariant
            i <= cs.len(),
            cs@.len() > 0,
            cs@[0] != '.',
            cs@[cs@.len() - 1] != '.',
            forall|j: int| 0 <= j < i ==> !(#[trigger] cs@[j] == '.' && cs@[j + 1] == '.'),
        decreases cs.len() - i,
    {
        if cs[i] == '.' && cs[i + 1] == '.' {
            return false;
        }
        i = i + 1;
    }
    true
}

fn check_no_edge_hyphen(cs: &Vec<char>) -> (r: bool)
    requires
        cs@.len() > 0,
    ensures
        r == spec_no_edge_hyphen(cs@),
{
    if cs[0] == '-' || cs[cs.len() - 1] == '-' {
        return false;
    }
    let mut i: usize = 0;
    while i < cs.len() - 1
        invariant
            i <= cs.len(),
            cs@.len() > 0,
            cs@[0] != '-',
            cs@[cs@.len() - 1] != '-',
            forall|j: int|
                0 <= j < i ==> !(#[trigger] cs@[j] == '.' && cs@[j + 1] == '-') && !(cs@[j] == '-'
                    && cs@[j + 1] == '.'),
        decreases cs.len() - i,
    {
        if (cs[i] == '.' && cs[i + 1] == '-') || (cs[i] == '-' && cs[i + 1] == '.') {
            return false;
        }
        i = i + 1;
    }
    true
}

fn check_labels_le_63(cs: &Vec<char>) -> (r: bool)
    ensures
        r == spec_labels_le_63(cs@),
{
    let mut run: usize = 0;
    let mut i: usize = 0;
    while i < cs.len()
        invariant
            i <= cs.len(),
            run <= i,
            run < 64,
            forall|j: int| i - run <= j < i ==> cs@[j] != '.',
            run == i || cs@[i - run - 1] == '.',
            forall|w: int| 0 <= w && w + 64 <= i ==> #[trigger] spec_window_has_dot(cs@, w),
        decreases cs.len() - i,
    {
        if cs[i] == '.' {
            run = 0;
            proof {
                assert forall|w: int| 0 <= w && w + 64 <= i + 1 implies #[trigger] spec_window_has_dot(
                    cs@,
                    w,
                ) by {
                    if w + 64 == i + 1 {
                        assert(cs@[i as int] == '.');
                    }
                }
            }
        } else {
            run = run + 1;
            if run >= 64 {
                proof {
                    let w = i - 63;
                    assert(!spec_window_has_dot(cs@, w));
                    assert(!spec_labels_le_63(cs@));
                }
                return false;
            }
            proof {
                assert forall|w: int| 0 <= w && w + 64 <= i + 1 implies #[trigger] spec_window_has_dot(
                    cs@,
                    w,
                ) by {
                    if w + 64 == i + 1 {
                        let j = i + 1 - run - 1;
                        assert(w <= j < w + 64);
                        assert(cs@[j] == '.');
                    }
                }
            }
        }
        i = i + 1;
    }
    true
}

fn tail_label_len(cs: &Vec<char>) -> (r: usize)
    ensures
        r == spec_tail_label_len(cs@),
{
    let mut run: usize = 0;
    let mut i: usize = 0;
    while i < cs.len()
        invariant
            i <= cs.len(),
            run <= i,
            run == spec_tail_label_len(cs@.take(i as int)),
        decreases cs.len() - i,
    {
        if cs[i] == '.' {
            run = 0;
        } else {
            run = run + 1;
        }
        i = i + 1;
        proof {
            assert(cs@.take(i as int).drop_last() =~= cs@.take(i - 1));
            assert(cs@.take(i as int)[i - 1] == cs@[i - 1]);
        }
    }
    proof {
        assert(cs@.take(cs@.len() as int) =~= cs@);
    }
    run
}

fn hyphen_count(cs: &Vec<char>) -> (r: usize)
    ensures
        r == spec_hyphen_count(cs@),
{
    let mut count: usize = 0;
    let mut i: usize = 0;
    while i < cs.len()
        invariant
            i <= cs.len(),
            count <= i,
            count == spec_hyphen_count(cs@.take(i as int)),
        decreases cs.len() - i,
    {
        if cs[i] == '-' {
            count = count + 1;
        }
        i = i + 1;
        proof {
            assert(cs@.take(i as int).drop_last() =~= cs@.take(i - 1));
            assert(cs@.take(i as int)[i - 1] == cs@[i - 1]);
        }
    }
    proof {
        assert(cs@.take(cs@.len() as int) =~= cs@);
    }
    count
}

fn check_repeat_run(cs: &Vec<char>) -> (r: bool)
    ensures
        r == spec_has_repeat_run(cs@),
{
    if cs.len() < 4 {
        return false;
    }
    let mut i: usize = 0;
    while i < cs.len() - 3
        invariant
            i <= cs.len(),
            cs@.len() >= 4,
            forall|k: int|
                0 <= k < i ==> !(#[trigger] cs@[k] == cs@[k + 1] && cs@[k + 1] == cs@[k + 2] && cs@[
                    k + 2] == cs@[k + 3]),
        decreases cs.len() - i,
    {
        if cs[i] == cs[i + 1] && cs[i + 1] == cs[i + 2] && cs[i + 2] == cs[i + 3] {
            return true;
        }
        i = i + 1;
    }
    false
}

/// Stateless domain validator holding the format and heuristic checks.
pub struct DomainValidator;

impl DomainValidator {
    /// Creates a new validator.
    pub fn new() -> (v: DomainValidator) {
        DomainValidator
    }

    /// Checks the syntactic shape of `domain`: true exactly when it is a
    /// well-formed domain name.
    pub fn validate_domain_format(&self, domain: &str) -> (r: bool)
        ensures
            r == spec_valid_domain_format(domain@),
    {
        let n = domain.unicode_len();
        if n == 0 || n > 253 {
            return false;
        }
        let cs = chars_of(domain);
        if !check_has_dot(&cs) {
            return false;
        }
        if !check_domain_chars(&cs) {
            return false;
        }
        if !check_no_empty_label(&cs) {
            return false;
        }
        if !check_no_edge_hyphen(&cs) {
            return false;
        }
        if !check_labels_le_63(&cs) {
            return false;
        }
        if tail_label_len(&cs) < 2 {
            return false;
        }
        true
    }

    /// Flags names that look machine-generated: true exactly when one of the
    /// three heuristics fires.
    pub fn is_suspicious(&self, domain: &str) -> (r: bool)
        ensures
            r == spec_suspicious(domain@),
    {
        let cs = chars_of(domain);
        if hyphen_count(&cs) > 4 {
            return true;
        }
        if tail_label_len(&cs) > 10 {
            return true;
        }
        if check_repeat_run(&cs) {
            return true;
        }
        false
    }
}

/// The message `validate_domain` rejects a domain with: a format complaint
/// when the shape is wrong, otherwise the suspicion complaint.
pub open spec fn spec_validation_error(s: Seq<char>) -> Seq<char> {
    if !spec_valid_domain_format(s) {
        "Invalid domain format: "@ + s
    } else {
        "Suspicious domain detected: "@ + s
    }
}

/// Validates a domain for use by the scan: accepts exactly the well-formed,
/// unsuspicious names, and rejects the rest with a message naming the
/// domain and which of the two checks failed (format first).
pub fn validate_domain(domain: &str) -> (r: Result<(), String>)
    ensures
        (match r {
            Ok(()) => spec_valid_domain_format(domain@) && !spec_suspicious(domain@),
            Err(message) => {
                &&& !(spec_valid_domain_format(domain@) && !spec_suspicious(domain@))
                &&& message@ == spec_validation_error(domain@)
            },
        }),
{
    let validator = DomainValidator::new();
    if !validator.validate_domain_format(domain) {
        let mut message = String::new();
        message.append("Invalid domain format: ");
        message.append(domain);
        return Err(message);
    }
    if validator.is_suspicious(domain) {
        let mut message = String::new();
        message.append("Suspicious domain detected: ");
        message.append(domain);
        return Err(message);
    }
    Ok(())
}

} // verus!
