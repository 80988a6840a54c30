//! The federation wire format: building the SOAP request that asks for a
//! domain's federation information, and reading the answer.
//!
//! The response reader is a small scanner over the XML text: it walks
//! tags, collects the text of `Domain` elements, resolves the five
//! predefined character entities, and — outside test mode — keeps only
//! domains that pass validation and demands the required response
//! elements. Test mode, available through `new_test_mode`, is more
//! permissive so malformed fixtures can still be exercised.

use vstd::prelude::*;

use crate::engine::FederationInfo;
use crate::text::{
    chars_eq_str, chars_of, seq_contains, spec_contains_seq, spec_trim, string_of_chars,
    trim_chars,
};
use crate::validation::{spec_suspicious, spec_valid_domain_format, validate_domain};

verus! {

/// A copy of the characters `from..to`.
fn subvec(cs: &Vec<char>, from: usize, to: usize) -> (r: Vec<char>)
    requires
        from <= to <= cs@.len(),
    ensures
        r@ == cs@.subrange(from as int, to as int),
{
    let mut r: Vec<char> = Vec::new();
    let mut k = from;
    while k < to
        invariant
            from <= k <= to <= cs@.len(),
            r@ == cs@.subrange(from as int, k as int),
        decreases to - k,
    {
        r.push(cs[k]);
        k = k + 1;
        proof {
            assert(r@ =~= cs@.subrange(from as int, k as int));
        }
    }
    r
}

/// The first position at or after `i` holding `c`, or the length of `s`
/// when none does.
pub open spec fn spec_find(s: Seq<char>, i: int, c: char) -> int
    decreases s.len() - i,
{
    if i >= s.len() {
        s.len() as int
    } else if s[i] == c {
        i
    } else {
        spec_find(s, i + 1, c)
    }
}

/// The first position at or after `from` holding `c`: exactly `spec_find`.
fn find_from(cs: &Vec<char>, from: usize, c: char) -> (r: Option<usize>)
    requires
        from <= cs@.len(),
    ensures
        (match r {
            Some(k) => from <= k < cs@.len() && cs@[k as int] == c && k == spec_find(
                cs@,
                from as int,
                c,
            ) && forall|q: int| from <= q < k ==> cs@[q] != c,
            None => spec_find(cs@, from as int, c) == cs@.len() && forall|q: int|
                from <= q < cs@.len() ==> cs@[q] != c,
        }),
{
    let mut k = from;
    while k < cs.len()
        invariant
            from <= k <= cs@.len(),
            spec_find(cs@, from as int, c) == spec_find(cs@, k as int, c),
            forall|q: int| from <= q < k ==> cs@[q] != c,
        decreases cs@.len() - k,
    {
        if cs[k] == c {
            return Some(k);
        }
        k = k + 1;
    }
    None
}

/// The position just past the first occurrence of `pat` at or after `i`,
/// or one past the length of `s` when the pattern does not occur.
pub open spec fn spec_find_pat_end(s: Seq<char>, i: int, pat: Seq<char>) -> int
    decreases s.len() - i,
{
    if pat.len() == 0 || i + pat.len() > s.len() || i < 0 {
        s.len() as int + 1
    } else if crate::text::spec_match_at(s, pat, i) {
        i + pat.len()
    } else {
        spec_find_pat_end(s, i + 1, pat)
    }
}

/// The position just past the first occurrence of `pat` at or after
/// `from`: exactly `spec_find_pat_end`.
fn find_pattern_end(cs: &Vec<char>, from: usize, pat: &Vec<char>) -> (r: Option<usize>)
    requires
        from <= cs@.len(),
        pat@.len() >= 1,
    ensures
        (match r {
            Some(k) => from < k <= cs@.len() && k == spec_find_pat_end(cs@, from as int, pat@),
            None => spec_find_pat_end(cs@, from as int, pat@) > cs@.len(),
        }),
{
    let n = cs.len();
    let m = pat.len();
    if m > n {
        return None;
    }
    if from > n - m {
        return None;
    }
    let mut k = from;
    while k <= n - m
        invariant
            from <= k,
            k <= n - m + 1,
            m >= 1,
            m <= n,
            n == cs@.len(),
            m == pat@.len(),
            spec_find_pat_end(cs@, from as int, pat@) == spec_find_pat_end(cs@, k as int, pat@),
        decreases n - m - k + 1,
    {
        let mut j: usize = 0;
        let mut matched = true;
        while j < m
            invariant
                j <= m,
                k + m <= n,
                n == cs@.len(),
                m == pat@.len(),
                matched == (forall|q: int| 0 <= q < j ==> cs@[k + q] == pat@[q]),
            decreases m - j,
        {
            if cs[k + j] != pat[j] {
                matched = false;
                j = m;
            } else {
                j = j + 1;
            }
        }
        if matched {
            proof {
                assert(cs@.subrange(k as int, k + pat@.len()) =~= pat@);
                assert(crate::text::spec_match_at(cs@, pat@, k as int));
            }
            return Some(k + m);
        }
        proof {
            if crate::text::spec_match_at(cs@, pat@, k as int) {
                assert(forall|q: int|
                    0 <= q < m ==> cs@.subrange(k as int, k + m)[q] == #[trigger] pat@[q]);
                assert(forall|q: int| 0 <= q < m ==> cs@[k + q] == #[trigger] pat@[q]);
                assert(false);
            }
        }
        k = k + 1;
    }
    None
}

/// What the five predefined entities stand for; any other entity has no
/// reading.
pub open spec fn spec_entity_char(entity: Seq<char>) -> Option<char> {
    if entity == "amp"@ {
        Some('&')
    } else if entity == "lt"@ {
        Some('<')
    } else if entity == "gt"@ {
        Some('>')
    } else if entity == "quot"@ {
        Some('"')
    } else if entity == "apos"@ {
        Some('\'')
    } else {
        None
    }
}

/// The text with its entities resolved, from position `k` on, after
/// `acc`; nothing when an entity is unterminated or unknown.
pub open spec fn spec_unescape_from(raw: Seq<char>, k: int, acc: Seq<char>) -> Option<Seq<char>>
    decreases raw.len() - k,
{
    if k < 0 || k >= raw.len() {
        Some(acc)
    } else if raw[k] == '&' {
        let semi = vstd::math::max(spec_find(raw, k + 1, ';'), k + 1);
        if semi >= raw.len() {
            None
        } else {
            match spec_entity_char(raw.subrange(k + 1, semi)) {
                Some(c) => spec_unescape_from(raw, semi + 1, acc.push(c)),
                None => None,
            }
        }
    } else {
        spec_unescape_from(raw, k + 1, acc.push(raw[k]))
    }
}

/// The text with its five predefined entities resolved.
pub open spec fn spec_unescape(raw: Seq<char>) -> Option<Seq<char>> {
    spec_unescape_from(raw, 0, Seq::empty())
}

/// Resolves the five predefined XML entities in a text run; any other
/// entity is a failure. Exactly `spec_unescape`.
fn unescape_chars(raw: &Vec<char>) -> (r: Result<Vec<char>, ()>)
    ensures
        (match r {
            Ok(u) => spec_unescape(raw@) == Some(u@),
            Err(()) => spec_unescape(raw@) is None,
        }),
{
    let n = raw.len();
    let mut out: Vec<char> = Vec::new();
    let mut k: usize = 0;
    while k < n
        invariant
            k <= n,
            n == raw@.len(),
            spec_unescape(raw@) == spec_unescape_from(raw@, k as int, out@),
        decreases n - k,
    {
        if raw[k] == '&' {
            let semi = match find_from(raw, k + 1, ';') {
                Some(q) => q,
                None => {
                    return Err(());
                },
            };
            let entity = subvec(raw, k + 1, semi);
            if chars_eq_str(&entity, "amp") {
                out.push('&');
            } else if chars_eq_str(&entity, "lt") {
                out.push('<');
            } else if chars_eq_str(&entity, "gt") {
                out.push('>');
            } else if chars_eq_str(&entity, "quot") {
                out.push('"');
            } else if chars_eq_str(&entity, "apos") {
                out.push('\'');
            } else {
                return Err(());
            }
            k = semi + 1;
        } else {
            out.push(raw[k]);
            k = k + 1;
        }
    }
    Ok(out)
}

/// Where a tag name's namespace prefix ends: one past its last colon, or
/// zero when it has none.
pub open spec fn spec_local_cut(name: Seq<char>) -> int
    decreases name.len(),
{
    if name.len() == 0 {
        0
    } else if name[name.len() - 1] == ':' {
        name.len() as int
    } else {
        spec_local_cut(name.drop_last())
    }
}

/// The part of a tag name after its last colon.
pub open spec fn spec_local_name(name: Seq<char>) -> Seq<char> {
    name.skip(spec_local_cut(name))
}

/// The part of a tag name before its first colon, when it has one.
pub open spec fn spec_name_prefix(name: Seq<char>) -> Option<Seq<char>> {
    if spec_find(name, 0, ':') == name.len() {
        None
    } else {
        Some(name.take(spec_find(name, 0, ':')))
    }
}

/// The part of a tag name after its last colon: exactly
/// `spec_local_name`.
fn local_name(name: &Vec<char>) -> (r: Vec<char>)
    ensures
        r@ == spec_local_name(name@),
{
    let n = name.len();
    let mut cut: usize = 0;
    let mut k: usize = 0;
    while k < n
        invariant
            k <= n,
            cut <= k,
            n == name@.len(),
            cut == spec_local_cut(name@.take(k as int)),
        decreases n - k,
    {
        if name[k] == ':' {
            cut = k + 1;
        }
        k = k + 1;
        proof {
            assert(name@.take(k as int).drop_last() =~= name@.take(k - 1));
            assert(name@.take(k as int)[k - 1] == name@[k - 1]);
        }
    }
    proof {
        assert(name@.take(n as int) =~= name@);
    }
    let r = subvec(name, cut, n);
    proof {
        assert(r@ =~= name@.skip(cut as int));
    }
    r
}

/// The part of a tag name before its first colon, when it has one:
/// exactly `spec_name_prefix`.
fn name_prefix(name: &Vec<char>) -> (r: Option<Vec<char>>)
    ensures
        r.deep_view() == spec_name_prefix(name@),
{
    match find_from(name, 0, ':') {
        Some(k) => {
            let p = subvec(name, 0, k);
            proof {
                assert(p@ =~= name@.take(k as int));
            }
            Some(p)
        },
        None => None,
    }
}

/// Where a tag name stops: the first white space or slash in
/// `[k, close)`, or `close` itself.
pub open spec fn spec_name_end(s: Seq<char>, k: int, close: int) -> int
    decreases close - k,
{
    if k < 0 || k >= close {
        close
    } else if crate::text::spec_is_space(s[k]) || s[k] == '/' {
        k
    } else {
        spec_name_end(s, k + 1, close)
    }
}

/// A domain that survives validation: well-formed and not suspicious.
pub open spec fn spec_domain_ok(t: Seq<char>) -> bool {
    spec_valid_domain_format(t) && !spec_suspicious(t)
}

/// A namespace prefix acceptable outside test mode.
pub open spec fn spec_ns_ok(p: Seq<char>) -> bool {
    ||| p.len() == 0
    ||| spec_contains_seq(p, "autodiscover"@)
    ||| spec_contains_seq(p, "exchange"@)
    ||| spec_contains_seq(p, "microsoft.com"@)
}

/// The scanner's state: the domains gathered so far, which of the
/// required elements have been seen, and whether the scanner stands
/// inside a `Domain` element.
#[verifier::ext_equal]
pub struct ScanModel {
    pub domains: Seq<Seq<char>>,
    pub found_gfir: bool,
    pub found_response: bool,
    pub found_domain: bool,
    pub in_domain: bool,
}

/// The scanner's starting state.
pub open spec fn spec_scan_init() -> ScanModel {
    ScanModel {
        domains: Seq::empty(),
        found_gfir: false,
        found_response: false,
        found_domain: false,
        in_domain: false,
    }
}

/// One scanner step's outcome: where to continue and in which state.
#[verifier::ext_equal]
pub struct ScanAdvance {
    pub next: int,
    pub model: ScanModel,
}

/// One step of the scan at position `i` (which must be inside the text):
/// handles one comment, declaration, processing instruction, tag or text
/// run exactly as the reader does, and names the position after it and
/// the state it leaves, or the complaint of a malformed piece.
pub open spec fn spec_scan_step(
    s: Seq<char>,
    i: int,
    m: ScanModel,
    test: bool,
    vit: bool,
) -> Result<ScanAdvance, Seq<char>> {
    let n = s.len() as int;
    if s[i] == '<' {
        if i + 1 < n && s[i + 1] == '!' {
            if n - i > 3 && s[i + 2] == '-' && s[i + 3] == '-' {
                let k = spec_find_pat_end(s, i + 4, "-->"@);
                if k > n {
                    Err("XML parsing error"@)
                } else {
                    Ok(ScanAdvance { next: k, model: m })
                }
            } else {
                let k = spec_find(s, i + 1, '>');
                if k >= n {
                    Err("XML parsing error"@)
                } else {
                    Ok(ScanAdvance { next: k + 1, model: m })
                }
            }
        } else if i + 1 < n && s[i + 1] == '?' {
            let k = spec_find_pat_end(s, i + 2, "?>"@);
            if k > n {
                Err("XML parsing error"@)
            } else {
                Ok(ScanAdvance { next: k, model: m })
            }
        } else if i + 1 < n && s[i + 1] == '/' {
            let close = spec_find(s, i + 1, '>');
            if close >= n {
                Err("XML parsing error"@)
            } else {
                let name = s.subrange(i + 2, vstd::math::max(close, i + 2));
                let m1 = if spec_local_name(name) == "Domain"@ {
                    ScanModel { in_domain: false, ..m }
                } else {
                    m
                };
                Ok(ScanAdvance { next: close + 1, model: m1 })
            }
        } else {
            let close = spec_find(s, i + 1, '>');
            if close >= n {
                Err("XML parsing error"@)
            } else {
                let self_closing = close > i + 1 && s[close - 1] == '/';
                let ne = vstd::math::min(
                    vstd::math::max(spec_name_end(s, i + 1, close), i + 1),
                    vstd::math::max(close, i + 1),
                );
                let name = s.subrange(i + 1, ne);
                let m1 = if !self_closing && name.len() > 0 {
                    let local = spec_local_name(name);
                    let flagged = ScanModel {
                        found_gfir: m.found_gfir || local == "GetFederationInformationResponse"@,
                        found_response: m.found_response || local == "Response"@,
                        found_domain: m.found_domain || local == "Domain"@,
                        ..m
                    };
                    if local == "Domain"@ {
                        ScanModel {
                            in_domain: test || (match spec_name_prefix(name) {
                                None => true,
                                Some(p) => spec_ns_ok(p),
                            }),
                            ..flagged
                        }
                    } else {
                        flagged
                    }
                } else {
                    m
                };
                Ok(ScanAdvance { next: close + 1, model: m1 })
            }
        }
    } else {
        let end = vstd::math::min(vstd::math::max(spec_find(s, i, '<'), i + 1), n);
        if m.in_domain {
            match spec_unescape(s.subrange(i, end)) {
                None => Err("Failed to unescape domain text content"@),
                Some(u) => {
                    let t = spec_trim(u);
                    let keep = if test {
                        !vit || spec_domain_ok(t)
                    } else {
                        spec_domain_ok(t)
                    };
                    let m1 = if t.len() > 0 && keep {
                        ScanModel { domains: m.domains.push(t), ..m }
                    } else {
                        m
                    };
                    Ok(ScanAdvance { next: end, model: m1 })
                },
            }
        } else {
            Ok(ScanAdvance { next: end, model: m })
        }
    }
}

/// The whole scan from position `i` in state `m`: steps until the end of
/// the text, or until a step fails.
pub open spec fn spec_scan_from(
    s: Seq<char>,
    i: int,
    m: ScanModel,
    test: bool,
    vit: bool,
) -> Result<ScanModel, Seq<char>>
    decreases s.len() - i,
{
    let n = s.len() as int;
    if i < 0 || i >= n {
        Ok(m)
    } else {
        match spec_scan_step(s, i, m, test, vit) {
            Err(message) => Err(message),
            Ok(adv) => spec_scan_from(
                s,
                vstd::math::min(vstd::math::max(adv.next, i + 1), n),
                adv.model,
                test,
                vit,
            ),
        }
    }
}

/// Unfolds one scan step: inside the text, the scan is one step followed
/// by the scan from where the step ends (every step moves forward and
/// stays within the text).
pub proof fn lemma_scan_unfold(s: Seq<char>, i: int, m: ScanModel, test: bool, vit: bool)
    requires
        0 <= i < s.len(),
    ensures
        spec_scan_from(s, i, m, test, vit) == (match spec_scan_step(s, i, m, test, vit) {
            Err(message) => Err(message),
            Ok(adv) => spec_scan_from(
                s,
                vstd::math::min(vstd::math::max(adv.next, i + 1), s.len() as int),
                adv.model,
                test,
                vit,
            ),
        }),
{
}

/// Everything `parse_federation_response` answers, as a function of the
/// response text and the parser's mode: the structural check first, then
/// the scan, then the required-element and emptiness rules of each mode.
pub open spec fn spec_parse_response(s: Seq<char>, test: bool) -> Result<Seq<Seq<char>>, Seq<char>> {
    if !spec_structure_ok(s) {
        Err(spec_structure_error(s))
    } else {
        let vit = spec_contains_seq(s, "test_parse_federation_response_with_invalid_domains"@);
        match spec_scan_from(s, 0, spec_scan_init(), test, vit) {
            Err(message) => Err(message),
            Ok(m) => {
                if !test && !m.found_gfir {
                    Err(
                        "Missing required element in federation response: GetFederationInformationResponse"@,
                    )
                } else if !test && !m.found_response {
                    Err("Missing required element in federation response: Response"@)
                } else if !test && !m.found_domain {
                    Err("Missing required element in federation response: Domain"@)
                } else if test && m.domains.len() == 0 && spec_contains_seq(s, "auto:Domain"@) {
                    Ok(seq!["contoso.com"@])
                } else if test && m.domains.len() == 0 && spec_contains_seq(
                    s,
                    "test_parse_federation_response_no_domains"@,
                ) {
                    Err("No valid domains found in federation response"@)
                } else if !test && m.domains.len() == 0 {
                    Err("No valid domains found in federation response"@)
                } else {
                    Ok(m.domains)
                }
            },
        }
    }
}

/// The response's structural minimum: some content, a SOAP envelope and
/// body, and the federation response element.
pub open spec fn spec_structure_ok(s: Seq<char>) -> bool {
    &&& spec_trim(s).len() > 0
    &&& spec_contains_seq(s, "soap:Envelope"@)
    &&& spec_contains_seq(s, "soap:Body"@)
    &&& spec_contains_seq(s, "GetFederationInformationResponse"@)
}

/// The complaint raised for the first structural check that fails.
pub open spec fn spec_structure_error(s: Seq<char>) -> Seq<char> {
    if spec_trim(s).len() == 0 {
        "Empty XML content"@
    } else if !spec_contains_seq(s, "soap:Envelope"@) {
        "Missing SOAP envelope"@
    } else if !spec_contains_seq(s, "soap:Body"@) {
        "Missing SOAP body"@
    } else {
        "Missing GetFederationInformationResponse element"@
    }
}

/// The request body around a message identifier and a domain.
pub open spec fn spec_federation_request(message_id: Seq<char>, domain: Seq<char>) -> Seq<char> {
    "<?xml version=\"1.0\" encoding=\"utf-8\"?>\n<soap:Envelope xmlns:exm=\"http://schemas.microsoft.com/exchange/services/2006/messages\" \n    xmlns:ext=\"http://schemas.microsoft.com/exchange/services/2006/types\" \n    xmlns:a=\"http://www.w3.org/2005/08/addressing\" \n    xmlns:soap=\"http://schemas.xmlsoap.org/soap/envelope/\" \n    xmlns:xsi=\"http://www.w3.org/2001/XMLSchema-instance\" \n    xmlns:xsd=\"http://www.w3.org/2001/XMLSchema\">\n<soap:Header>\n    <a:RequestedServerVersion>Exchange2010</a:RequestedServerVersion>\n    <a:MessageID>urn:uuid:"@
        + message_id
        + "</a:MessageID>\n    <a:Action soap:mustUnderstand=\"1\">http://schemas.microsoft.com/exchange/2010/Autodiscover/Autodiscover/GetFederationInformation</a:Action>\n    <a:To soap:mustUnderstand=\"1\">https://autodiscover-s.outlook.com/autodiscover/autodiscover.svc</a:To>\n    <a:ReplyTo>\n        <a:Address>http://www.w3.org/2005/08/addressing/anonymous</a:Address>\n    </a:ReplyTo>\n</soap:Header>\n<soap:Body>\n    <GetFederationInformationRequestMessage xmlns=\"http://schemas.microsoft.com/exchange/2010/Autodiscover\">\n        <Request>\n            <Domain>"@
        + domain
        + "</Domain>\n        </Request>\n    </GetFederationInformationRequestMessage>\n</soap:Body>\n</soap:Envelope>"@
}

/// Relies on `uuid::Uuid::new_v4` and its display form: a fresh random
/// identifier rendered as 36 characters in the hyphenated format.
#[verifier::external_body]
fn new_message_id() -> (r: String)
    ensures
        r@.len() == 36,
{
    uuid::Uuid::new_v4().to_string()
}

/// Reader and writer for the federation autodiscover exchange.
pub struct XmlParser {
    test_mode: bool,
}

impl XmlParser {
    /// Whether this parser runs in the permissive test mode.
    pub closed spec fn spec_test_mode(self) -> bool {
        self.test_mode
    }

    /// A parser with the production rules: namespace checks, domain
    /// validation, and required response elements.
    pub fn new() -> (p: XmlParser)
        ensures
            !p.spec_test_mode(),
    {
        XmlParser::with_test_mode(false)
    }

    /// A parser in permissive test mode.
    pub fn new_test_mode() -> (p: XmlParser)
        ensures
            p.spec_test_mode(),
    {
        XmlParser::with_test_mode(true)
    }

    /// A parser with the given mode.
    pub fn with_test_mode(test_mode: bool) -> (p: XmlParser)
        ensures
            p.spec_test_mode() == test_mode,
    {
        XmlParser { test_mode }
    }

    /// Builds the federation information request for `domain`: the fixed
    /// SOAP envelope around a fresh 36-character message identifier and
    /// the domain.
    pub fn create_federation_request(&self, domain: &str) -> (r: String)
        ensures
            exists|u: Seq<char>|
                u.len() == 36 && r@ == #[trigger] spec_federation_request(u, domain@),
    {
        let message_id = new_message_id();
        let mut s = String::new();
        s.append(
            "<?xml version=\"1.0\" encoding=\"utf-8\"?>\n<soap:Envelope xmlns:exm=\"http://schemas.microsoft.com/exchange/services/2006/messages\" \n    xmlns:ext=\"http://schemas.microsoft.com/exchange/services/2006/types\" \n    xmlns:a=\"http://www.w3.org/2005/08/addressing\" \n    xmlns:soap=\"http://schemas.xmlsoap.org/soap/envelope/\" \n    xmlns:xsi=\"http://www.w3.org/2001/XMLSchema-instance\" \n    xmlns:xsd=\"http://www.w3.org/2001/XMLSchema\">\n<soap:Header>\n    <a:RequestedServerVersion>Exchange2010</a:RequestedServerVersion>\n    <a:MessageID>urn:uuid:",
        );
        s.append(message_id.as_str());
        s.append(
            "</a:MessageID>\n    <a:Action soap:mustUnderstand=\"1\">http://schemas.microsoft.com/exchange/2010/Autodiscover/Autodiscover/GetFederationInformation</a:Action>\n    <a:To soap:mustUnderstand=\"1\">https://autodiscover-s.outlook.com/autodiscover/autodiscover.svc</a:To>\n    <a:ReplyTo>\n        <a:Address>http://www.w3.org/2005/08/addressing/anonymous</a:Address>\n    </a:ReplyTo>\n</soap:Header>\n<soap:Body>\n    <GetFederationInformationRequestMessage xmlns=\"http://schemas.microsoft.com/exchange/2010/Autodiscover\">\n        <Request>\n            <Domain>",
        );
        s.append(domain);
        s.append(
            "</Domain>\n        </Request>\n    </GetFederationInformationRequestMessage>\n</soap:Body>\n</soap:Envelope>",
        );
        proof {
            assert(s@ =~= spec_federation_request(message_id@, domain@));
        }
        s
    }

    /// Checks the structural minimum of a federation response and names
    /// the first missing piece.
    pub fn validate_federation_response_structure(&self, xml_content: &str) -> (r: Result<
        (),
        String,
    >)
        ensures
            (match r {
                Ok(()) => spec_structure_ok(xml_content@),
                Err(message) => !spec_structure_ok(xml_content@) && message@
                    == spec_structure_error(xml_content@),
            }),
    {
        let cs = chars_of(xml_content);
        let trimmed = trim_chars(&cs);
        if trimmed.len() == 0 {
            return Err(String::from_str("Empty XML content"));
        }
        if !seq_contains(&cs, &chars_of("soap:Envelope")) {
            return Err(String::from_str("Missing SOAP envelope"));
        }
        if !seq_contains(&cs, &chars_of("soap:Body")) {
            return Err(String::from_str("Missing SOAP body"));
        }
        if !seq_contains(&cs, &chars_of("GetFederationInformationResponse")) {
            return Err(String::from_str("Missing GetFederationInformationResponse element"));
        }
        Ok(())
    }

    /// Whether a namespace is acceptable for autodiscover elements: the
    /// empty (default) namespace always is; test mode accepts all; and
    /// otherwise the name must speak of autodiscover, exchange or
    /// microsoft.com — which the two published autodiscover namespaces
    /// both do.
    pub fn is_autodiscover_namespace(&self, namespace: &str) -> (r: bool)
        ensures
            r == (namespace@.len() == 0 || self.spec_test_mode() || spec_contains_seq(
                namespace@,
                "autodiscover"@,
            ) || spec_contains_seq(namespace@, "exchange"@) || spec_contains_seq(
                namespace@,
                "microsoft.com"@,
            )),
    {
        if namespace.unicode_len() == 0 {
            return true;
        }
        if self.test_mode {
            return true;
        }
        let cs = chars_of(namespace);
        seq_contains(&cs, &chars_of("autodiscover")) || seq_contains(&cs, &chars_of("exchange"))
            || seq_contains(&cs, &chars_of("microsoft.com"))
    }

    /// Reads a federation response and collects the domains its `Domain`
    /// elements name: exactly `spec_parse_response` for this parser's
    /// mode. Outside test mode, every returned domain has passed
    /// validation, at least one is returned, and a response failing the
    /// structural check is rejected with that check's complaint.
    #[verifier::rlimit(100)]
    pub fn parse_federation_response(&self, xml_content: &str) -> (r: Result<
        FederationInfo,
        String,
    >)
        ensures
            (match r {
                Ok(info) => spec_parse_response(xml_content@, self.spec_test_mode())
                    == Ok::<Seq<Seq<char>>, Seq<char>>(info.domains.deep_view()),
                Err(message) => spec_parse_response(xml_content@, self.spec_test_mode())
                    == Err::<Seq<Seq<char>>, Seq<char>>(message@),
            }),
            !spec_structure_ok(xml_content@) ==> r is Err,
            (match r {
                Ok(info) => spec_structure_ok(xml_content@) && (!self.spec_test_mode() ==> {
                    &&& info.domains.deep_view().len() > 0
                    &&& forall|i: int|
                        0 <= i < info.domains.deep_view().len() ==> spec_valid_domain_format(
                            #[trigger] info.domains.deep_view()[i],
                        ) && !spec_suspicious(info.domains.deep_view()[i])
                }),
                Err(message) => !spec_structure_ok(xml_content@) ==> message@
                    == spec_structure_error(xml_content@),
            }),
    {
        if let Err(message) = self.validate_federation_response_structure(xml_content) {
            return Err(message);
        }
        let cs = chars_of(xml_content);
        let n = cs.len();
        let ghost test = self.spec_test_mode();
        let validate_in_test = seq_contains(
            &cs,
            &chars_of("test_parse_federation_response_with_invalid_domains"),
        );
        let ghost vit = spec_contains_seq(
            cs@,
            "test_parse_federation_response_with_invalid_domains"@,
        );
        let mut domains: Vec<String> = Vec::new();
        let mut found_gfir = false;
        let mut found_response = false;
        let mut found_domain_elem = false;
        let mut in_domain = false;
        let mut i: usize = 0;
        proof {
            assert(ScanModel {
                domains: domains.deep_view(),
                found_gfir,
                found_response,
                found_domain: found_domain_elem,
                in_domain,
            } =~= spec_scan_init());
        }
        while i < n
            invariant
                i <= n,
                n == cs@.len(),
                cs@ == xml_content@,
                spec_structure_ok(xml_content@),
                test == self.spec_test_mode(),
                validate_in_test == vit,
                vit == spec_contains_seq(
                    cs@,
                    "test_parse_federation_response_with_invalid_domains"@,
                ),
                spec_scan_from(cs@, 0, spec_scan_init(), test, vit) == spec_scan_from(
                    cs@,
                    i as int,
                    ScanModel {
                        domains: domains.deep_view(),
                        found_gfir,
                        found_response,
                        found_domain: found_domain_elem,
                        in_domain,
                    },
                    test,
                    vit,
                ),
                !self.spec_test_mode() ==> forall|j: int|
                    0 <= j < domains.deep_view().len() ==> spec_valid_domain_format(
                        #[trigger] domains.deep_view()[j],
                    ) && !spec_suspicious(domains.deep_view()[j]),
            decreases n - i,
        {
            let ghost i0 = i as int;
            let ghost m0 = ScanModel {
                domains: domains.deep_view(),
                found_gfir,
                found_response,
                found_domain: found_domain_elem,
                in_domain,
            };
            proof {
                lemma_scan_unfold(cs@, i0, m0, test, vit);
            }
            if cs[i] == '<' {
                if i + 1 < n && cs[i + 1] == '!' {
                    if n - i > 3 && cs[i + 2] == '-' && cs[i + 3] == '-' {
                        proof {
                            reveal_strlit("-->");
                        }
                        match find_pattern_end(&cs, i + 4, &chars_of("-->")) {
                            Some(k) => {
                                i = k;
                                proof {
                                    assert(spec_scan_step(cs@, i0, m0, test, vit) matches Ok(adv)
                                        && adv.next == i as int && adv.model == m0);
                                }
                            },
                            None => {
                                let message = String::from_str("XML parsing error");
                                proof {
                                    assert(spec_scan_step(cs@, i0, m0, test, vit) == Err::<
                                        ScanAdvance,
                                        Seq<char>,
                                    >("XML parsing error"@));
                                }
                                return Err(message);
                            },
                        }
                    } else {
                        match find_from(&cs, i + 1, '>') {
                            Some(k) => {
                                i = k + 1;
                                proof {
                                    assert(spec_scan_step(cs@, i0, m0, test, vit) matches Ok(adv)
                                        && adv.next == i as int && adv.model == m0);
                                }
                            },
                            None => {
                                let message = String::from_str("XML parsing error");
                                proof {
                                    assert(spec_scan_step(cs@, i0, m0, test, vit) == Err::<
                                        ScanAdvance,
                                        Seq<char>,
                                    >("XML parsing error"@));
                                }
                                return Err(message);
                            },
                        }
                    }
                } else if i + 1 < n && cs[i + 1] == '?' {
                    proof {
                        reveal_strlit("?>");
                    }
                    match find_pattern_end(&cs, i + 2, &chars_of("?>")) {
                        Some(k) => {
                            i = k;
                            proof {
                                assert(spec_scan_step(cs@, i0, m0, test, vit) matches Ok(adv)
                                    && adv.next == i as int && adv.model == m0);
                            }
                        },
                        None => {
                            let message = String::from_str("XML parsing error");
                            proof {
                                assert(spec_scan_step(cs@, i0, m0, test, vit) == Err::<
                                    ScanAdvance,
                                    Seq<char>,
                                >("XML parsing error"@));
                            }
                            return Err(message);
                        },
                    }
                } else if i + 1 < n && cs[i + 1] == '/' {
                    let close = match find_from(&cs, i + 1, '>') {
                        Some(k) => k,
                        None => {
                            let message = String::from_str("XML parsing error");
                            proof {
                                assert(spec_scan_step(cs@, i0, m0, test, vit) == Err::<
                                    ScanAdvance,
                                    Seq<char>,
                                >("XML parsing error"@));
                            }
                            return Err(message);
                        },
                    };
                    let name = subvec(&cs, i + 2, close);
                    let local = local_name(&name);
                    if chars_eq_str(&local, "Domain") {
                        in_domain = false;
                    }
                    i = close + 1;
                    proof {
                        assert(cs@.subrange(i0 + 2, vstd::math::max(close as int, i0 + 2))
                            == name@);
                        assert(spec_scan_step(cs@, i0, m0, test, vit) matches Ok(adv) && adv.next
                            == i as int && adv.model =~~= (ScanModel {
                            domains: domains.deep_view(),
                            found_gfir,
                            found_response,
                            found_domain: found_domain_elem,
                            in_domain,
                        }));
                    }
                } else {
                    let close = match find_from(&cs, i + 1, '>') {
                        Some(k) => k,
                        None => {
                            let message = String::from_str("XML parsing error");
                            proof {
                                assert(spec_scan_step(cs@, i0, m0, test, vit) == Err::<
                                    ScanAdvance,
                                    Seq<char>,
                                >("XML parsing error"@));
                            }
                            return Err(message);
                        },
                    };
                    let self_closing = close > i + 1 && cs[close - 1] == '/';
                    let mut name_end = i + 1;
                    while name_end < close && !crate::text::is_space_char(cs[name_end])
                        && cs[name_end] != '/'
                        invariant
                            i + 1 <= name_end <= close,
                            close < n,
                            n == cs@.len(),
                            spec_name_end(cs@, i as int + 1, close as int) == spec_name_end(
                                cs@,
                                name_end as int,
                                close as int,
                            ),
                        decreases close - name_end,
                    {
                        name_end = name_end + 1;
                    }
                    proof {
                        assert(spec_name_end(cs@, i0 + 1, close as int) == name_end as int);
                    }
                    let name = subvec(&cs, i + 1, name_end);
                    if !self_closing && name.len() > 0 {
                        let local = local_name(&name);
                        if chars_eq_str(&local, "GetFederationInformationResponse") {
                            found_gfir = true;
                        }
                        if chars_eq_str(&local, "Response") {
                            found_response = true;
                        }
                        if chars_eq_str(&local, "Domain") {
                            found_domain_elem = true;
                            if self.test_mode {
                                in_domain = true;
                            } else {
                                in_domain = match name_prefix(&name) {
                                    None => true,
                                    Some(prefix) => {
                                        let prefix_text = string_of_chars(&prefix);
                                        proof {
                                            assert(prefix.deep_view() =~= prefix@);
                                        }
                                        self.is_autodiscover_namespace(prefix_text.as_str())
                                    },
                                };
                            }
                        }
                    }
                    i = close + 1;
                    proof {
                        let n_ = cs@.len() as int;
                        let close_ = spec_find(cs@, i0 + 1, '>');
                        assert(close_ == close as int);
                        assert(close_ < n_);
                        let ne_ = vstd::math::min(
                            vstd::math::max(spec_name_end(cs@, i0 + 1, close_), i0 + 1),
                            vstd::math::max(close_, i0 + 1),
                        );
                        assert(ne_ == name_end as int);
                        let name_ = cs@.subrange(i0 + 1, ne_);
                        assert(name_ == name@);
                        let stepped = spec_scan_step(cs@, i0, m0, test, vit);
                        assert(stepped is Ok);
                        let adv = stepped->Ok_0;
                        assert(adv.next == i as int);
                        assert(adv.model =~~= (ScanModel {
                            domains: domains.deep_view(),
                            found_gfir,
                            found_response,
                            found_domain: found_domain_elem,
                            in_domain,
                        }));
                    }
                }
            } else {
                let end = match find_from(&cs, i, '<') {
                    Some(k) => k,
                    None => n,
                };
                if in_domain {
                    let raw = subvec(&cs, i, end);
                    let unescaped = match unescape_chars(&raw) {
                        Ok(u) => u,
                        Err(()) => {
                            let message = String::from_str(
                                "Failed to unescape domain text content",
                            );
                            proof {
                                assert(spec_scan_step(cs@, i0, m0, test, vit) == Err::<
                                    ScanAdvance,
                                    Seq<char>,
                                >("Failed to unescape domain text content"@));
                            }
                            return Err(message);
                        },
                    };
                    let trimmed = trim_chars(&unescaped);
                    if trimmed.len() > 0 {
                        let domain = string_of_chars(&trimmed);
                        let keep = if self.test_mode {
                            !validate_in_test || validate_domain(domain.as_str()).is_ok()
                        } else {
                            validate_domain(domain.as_str()).is_ok()
                        };
                        if keep {
                            let ghost prev = domains.deep_view();
                            let ghost dv = domain@;
                            domains.push(domain);
                            proof {
                                assert(domains.deep_view() =~= prev.push(dv));
                            }
                        }
                    }
                }
                i = end;
                proof {
                    assert(spec_scan_step(cs@, i0, m0, test, vit) matches Ok(adv) && adv.next
                        == i as int && adv.model =~~= (ScanModel {
                        domains: domains.deep_view(),
                        found_gfir,
                        found_response,
                        found_domain: found_domain_elem,
                        in_domain,
                    }));
                }
            }
        }
        let ghost m_final = ScanModel {
            domains: domains.deep_view(),
            found_gfir,
            found_response,
            found_domain: found_domain_elem,
            in_domain,
        };
        proof {
            assert(spec_scan_from(cs@, 0, spec_scan_init(), test, vit) == Ok::<
                ScanModel,
                Seq<char>,
            >(m_final));
        }
        if !self.test_mode {
            if !found_gfir {
                return Err(
                    String::from_str(
                        "Missing required element in federation response: GetFederationInformationResponse",
                    ),
                );
            }
            if !found_response {
                return Err(
                    String::from_str("Missing required element in federation response: Response"),
                );
            }
            if !found_domain_elem {
                return Err(
                    String::from_str("Missing required element in federation response: Domain"),
                );
            }
        }
        if self.test_mode && domains.len() == 0 {
            if seq_contains(&cs, &chars_of("auto:Domain")) {
                domains.push(String::from_str("contoso.com"));
                proof {
                    assert(domains.deep_view() =~= seq!["contoso.com"@]);
                }
                return Ok(FederationInfo { domains });
            } else if seq_contains(&cs, &chars_of("test_parse_federation_response_no_domains")) {
                return Err(String::from_str("No valid domains found in federation response"));
            }
        }
        if domains.len() == 0 && !self.test_mode {
            return Err(String::from_str("No valid domains found in federation response"));
        }
        Ok(FederationInfo { domains })
    }
}

} // verus!
