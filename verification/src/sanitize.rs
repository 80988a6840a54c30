//! Output sanitization: every result is cleaned before it is written, so
//! nothing a remote service echoed back can smuggle control characters,
//! HTML, or local file system paths into the output.
//!
//! Text fields are trimmed, stripped of control characters and
//! HTML-escaped; error messages additionally have path-like runs replaced
//! by a fixed marker.

use vstd::prelude::*;
use vstd::math::min;

use crate::engine::DomainResult;
use crate::text::{chars_of, spec_trim, string_of_chars, trim_chars};
use crate::validation::spec_alnum;

verus! {

/// A Unicode control character: the C0 range, delete, and the C1 range.
pub open spec fn spec_is_control(c: char) -> bool {
    c <= '\u{1f}' || c == '\u{7f}' || ('\u{80}' <= c && c <= '\u{9f}')
}

/// `s` with its control characters removed.
pub open spec fn spec_keep_printable(s: Seq<char>) -> Seq<char>
    decreases s.len(),
{
    if s.len() == 0 {
        Seq::empty()
    } else {
        spec_keep_printable(s.drop_last()) + (if spec_is_control(s[s.len() - 1]) {
            Seq::empty()
        } else {
            seq![s[s.len() - 1]]
        })
    }
}

/// What one character becomes under HTML text escaping: `&`, `<` and `>`
/// turn into their entities, everything else stays itself.
pub open spec fn spec_escape_char(c: char) -> Seq<char> {
    if c == '&' {
        "&amp;"@
    } else if c == '<' {
        "&lt;"@
    } else if c == '>' {
        "&gt;"@
    } else {
        seq![c]
    }
}

/// `s` with each character HTML-escaped.
pub open spec fn spec_html_escaped(s: Seq<char>) -> Seq<char>
    decreases s.len(),
{
    if s.len() == 0 {
        Seq::empty()
    } else {
        spec_html_escaped(s.drop_last()) + spec_escape_char(s[s.len() - 1])
    }
}

/// Relies on `html_escape::encode_text`: it escapes exactly `&` to
/// `&amp;`, `<` to `&lt;` and `>` to `&gt;`, leaving every other
/// character as it is.
#[verifier::external_body]
fn escape_html_text(s: &str) -> (r: String)
    ensures
        r@ == spec_html_escaped(s@),
{
    html_escape::encode_text(s).into_owned()
}

/// A character that may appear inside a redacted path segment.
pub open spec fn spec_is_path_char(c: char) -> bool {
    spec_alnum(c) || c == '_' || c == '-' || c == '.'
}

/// How many path characters `s` starts with.
pub open spec fn spec_pc_run(s: Seq<char>) -> nat
    decreases s.len(),
{
    if s.len() == 0 || !spec_is_path_char(s[0]) {
        0
    } else {
        1 + spec_pc_run(s.drop_first())
    }
}

/// The length of the longest prefix of `s` shaped like a file system
/// path: one or more groups of a slash followed by path characters.
/// Zero when `s` starts no such path.
pub open spec fn spec_path_len(s: Seq<char>) -> int
    decreases s.len(),
{
    if s.len() >= 2 && s[0] == '/' && spec_is_path_char(s[1]) {
        let seg = 1 + spec_pc_run(s.drop_first());
        let step = min(seg as int, s.len() as int);
        step + spec_path_len(s.skip(step))
    } else {
        0
    }
}

/// The marker that replaces a redacted path.
pub open spec fn spec_redaction_marker() -> Seq<char> {
    "[REDACTED_PATH]"@
}

/// `s` with every maximal path-shaped run replaced by the marker.
pub open spec fn spec_redacted(s: Seq<char>) -> Seq<char>
    decreases s.len(),
{
    if s.len() == 0 {
        Seq::empty()
    } else {
        let m = spec_path_len(s);
        if m > 0 {
            spec_redaction_marker() + spec_redacted(s.skip(min(m, s.len() as int)))
        } else {
            seq![s[0]] + spec_redacted(s.drop_first())
        }
    }
}

/// A sanitized text field: trimmed, control characters removed, then
/// HTML-escaped.
pub open spec fn spec_sanitize_text(s: Seq<char>) -> Seq<char> {
    spec_html_escaped(spec_keep_printable(spec_trim(s)))
}

/// A sanitized error message: control characters removed, HTML-escaped,
/// and path-shaped runs redacted.
pub open spec fn spec_sanitize_error(s: Seq<char>) -> Seq<char> {
    spec_redacted(spec_html_escaped(spec_keep_printable(s)))
}

fn is_control_char(c: char) -> (r: bool)
    ensures
        r == spec_is_control(c),
{
    c <= '\u{1f}' || c == '\u{7f}' || ('\u{80}' <= c && c <= '\u{9f}')
}

fn keep_printable(cs: &Vec<char>) -> (r: Vec<char>)
    ensures
        r@ == spec_keep_printable(cs@),
{
    let mut r: Vec<char> = Vec::new();
    let mut i: usize = 0;
    while i < cs.len()
        invariant
            i <= cs.len(),
            r@ == spec_keep_printable(cs@.take(i as int)),
        decreases cs.len() - i,
    {
        if !is_control_char(cs[i]) {
            r.push(cs[i]);
        }
        i = i + 1;
        proof {
            assert(cs@.take(i as int).drop_last() =~= cs@.take(i - 1));
            assert(cs@.take(i as int)[i - 1] == cs@[i - 1]);
            assert(r@ =~= spec_keep_printable(cs@.take(i as int)));
        }
    }
    proof {
        assert(cs@.take(cs@.len() as int) =~= cs@);
    }
    r
}

fn is_path_char(c: char) -> (r: bool)
    ensures
        r == spec_is_path_char(c),
{
    ('a' <= c && c <= 'z') || ('A' <= c && c <= 'Z') || ('0' <= c && c <= '9') || c == '_' || c
        == '-' || c == '.'
}

/// Counts the path characters from `start` on.
fn pc_run_at(cs: &Vec<char>, start: usize) -> (r: usize)
    requires
        start <= cs@.len(),
    ensures
        r == spec_pc_run(cs@.skip(start as int)),
        start + r <= cs@.len(),
{
    let mut j = start;
    while j < cs.len() && is_path_char(cs[j])
        invariant
            start <= j <= cs@.len(),
            spec_pc_run(cs@.skip(start as int)) == (j - start) + spec_pc_run(cs@.skip(j as int)),
        decreases cs@.len() - j,
    {
        proof {
            assert(cs@.skip(j as int).drop_first() =~= cs@.skip(j + 1));
        }
        j = j + 1;
    }
    j - start
}

/// Measures the path-shaped prefix starting at `i`.
fn path_len_at(cs: &Vec<char>, i: usize) -> (r: usize)
    requires
        i <= cs@.len(),
    ensures
        r == spec_path_len(cs@.skip(i as int)),
        i + r <= cs@.len(),
{
    let n = cs.len();
    let mut p = i;
    loop
        invariant
            i <= p <= n,
            n == cs@.len(),
            spec_path_len(cs@.skip(i as int)) == (p - i) + spec_path_len(cs@.skip(p as int)),
        decreases n - p,
    {
        if p < n && cs[p] == '/' && p + 1 < n && is_path_char(cs[p + 1]) {
            proof {
                assert(cs@.skip(p as int)[0] == cs@[p as int]);
                assert(cs@.skip(p as int)[1] == cs@[p + 1]);
                assert(cs@.skip(p as int).drop_first() =~= cs@.skip(p + 1));
            }
            let run = pc_run_at(cs, p + 1);
            let seg = 1 + run;
            proof {
                assert(cs@.skip(p as int).skip(seg as int) =~= cs@.skip(p + seg));
            }
            p = p + seg;
        } else {
            proof {
                if p < n {
                    assert(cs@.skip(p as int)[0] == cs@[p as int]);
                }
                if p + 1 < n {
                    assert(cs@.skip(p as int)[1] == cs@[p + 1]);
                }
                assert(spec_path_len(cs@.skip(p as int)) == 0);
            }
            return p - i;
        }
    }
}

/// Replaces every maximal path-shaped run with the redaction marker.
fn redact_paths(cs: &Vec<char>) -> (r: Vec<char>)
    ensures
        r@ == spec_redacted(cs@),
{
    let marker = chars_of("[REDACTED_PATH]");
    let n = cs.len();
    proof {
        assert(cs@.skip(0) =~= cs@);
    }
    let mut out: Vec<char> = Vec::new();
    let mut i: usize = 0;
    while i < n
        invariant
            i <= n,
            n == cs@.len(),
            marker@ == spec_redaction_marker(),
            spec_redacted(cs@) == out@ + spec_redacted(cs@.skip(i as int)),
        decreases n - i,
    {
        let m = path_len_at(cs, i);
        if m > 0 {
            let mut k: usize = 0;
            let ghost out_before = out@;
            while k < marker.len()
                invariant
                    k <= marker@.len(),
                    out@ == out_before + marker@.take(k as int),
                decreases marker@.len() - k,
            {
                out.push(marker[k]);
                k = k + 1;
                proof {
                    assert(out@ =~= out_before + marker@.take(k as int));
                }
            }
            proof {
                assert(out@ =~= out_before + marker@);
                assert(cs@.skip(i as int).skip(min(m as int, cs@.skip(i as int).len() as int))
                    =~= cs@.skip(i + m));
                assert(spec_redacted(cs@) =~= (out_before + marker@) + spec_redacted(
                    cs@.skip(i + m),
                ));
            }
            i = i + m;
        } else {
            proof {
                assert(cs@.skip(i as int)[0] == cs@[i as int]);
                assert(cs@.skip(i as int).drop_first() =~= cs@.skip(i + 1));
                assert(out@.push(cs@[i as int]) =~= out@ + seq![cs@[i as int]]);
            }
            out.push(cs[i]);
            i = i + 1;
            proof {
                assert(spec_redacted(cs@) =~= out@ + spec_redacted(cs@.skip(i as int)));
            }
        }
    }
    proof {
        assert(spec_redacted(cs@.skip(n as int)) =~= Seq::<char>::empty());
        assert(out@ =~= spec_redacted(cs@));
    }
    out
}

/// Sanitizes a domain-like field: trim, drop control characters, escape
/// HTML.
pub fn sanitize_domain(domain: &str) -> (r: String)
    ensures
        r@ == spec_sanitize_text(domain@),
{
    let cs = chars_of(domain);
    let trimmed = trim_chars(&cs);
    let printable = keep_printable(&trimmed);
    let rebuilt = string_of_chars(&printable);
    escape_html_text(rebuilt.as_str())
}

/// Sanitizes a free-text field the same way as a domain.
pub fn sanitize_string(value: &str) -> (r: String)
    ensures
        r@ == spec_sanitize_text(value@),
{
    sanitize_domain(value)
}

/// Sanitizes an error message: drop control characters, escape HTML, and
/// redact path-shaped runs.
pub fn sanitize_error(error: &str) -> (r: String)
    ensures
        r@ == spec_sanitize_error(error@),
{
    let cs = chars_of(error);
    let printable = keep_printable(&cs);
    let rebuilt = string_of_chars(&printable);
    let escaped = escape_html_text(rebuilt.as_str());
    let escaped_cs = chars_of(escaped.as_str());
    let redacted = redact_paths(&escaped_cs);
    string_of_chars(&redacted)
}

/// Sanitizes every field of a result before it is written anywhere:
/// domains and the tenant are trimmed, stripped of control characters and
/// HTML-escaped; the error message is additionally path-redacted; the
/// processing time is kept as it is.
pub fn sanitize_domain_result(result: &DomainResult) -> (r: DomainResult)
    ensures
        r@.domain == spec_sanitize_text(result@.domain),
        (match result@.tenant {
            Some(t) => r@.tenant == Some(spec_sanitize_text(t)),
            None => r@.tenant is None,
        }),
        r@.federated_domains.len() == result@.federated_domains.len(),
        forall|i: int|
            0 <= i < result@.federated_domains.len() ==> #[trigger] r@.federated_domains[i]
                == spec_sanitize_text(result@.federated_domains[i]),
        (match result@.mdi_instance {
            Some(m) => r@.mdi_instance == Some(spec_sanitize_text(m)),
            None => r@.mdi_instance is None,
        }),
        r@.processing_time_ms == result@.processing_time_ms,
        (match result@.error {
            Some(e) => r@.error == Some(spec_sanitize_error(e)),
            None => r@.error is None,
        }),
{
    let domain = sanitize_domain(result.domain.as_str());
    let tenant = match &result.tenant {
        Some(t) => Some(sanitize_string(t.as_str())),
        None => None,
    };
    let mut federated_domains: Vec<String> = Vec::new();
    let mut i: usize = 0;
    while i < result.federated_domains.len()
        invariant
            i <= result.federated_domains@.len(),
            federated_domains@.len() == i,
            forall|j: int|
                0 <= j < i ==> #[trigger] federated_domains.deep_view()[j] == spec_sanitize_text(
                    result.federated_domains.deep_view()[j],
                ),
        decreases result.federated_domains@.len() - i,
    {
        let cleaned = sanitize_domain(result.federated_domains[i].as_str());
        let ghost prev = federated_domains.deep_view();
        federated_domains.push(cleaned);
        proof {
            assert(result.federated_domains.deep_view()[i as int] == result.federated_domains@[
                i as int
            ]@);
            assert(federated_domains.deep_view() =~= prev.push(cleaned@));
        }
        i = i + 1;
    }
    let mdi_instance = match &result.mdi_instance {
        Some(m) => Some(sanitize_string(m.as_str())),
        None => None,
    };
    let error = match &result.error {
        Some(e) => Some(sanitize_error(e.as_str())),
        None => None,
    };
    DomainResult {
        domain,
        tenant,
        federated_domains,
        mdi_instance,
        processing_time_ms: result.processing_time_ms,
        error,
    }
}

} // verus!
