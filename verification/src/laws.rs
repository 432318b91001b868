//! Laws of the hostname production, stated over a description of hostnames
//! that does not mention how the parser proceeds.

use crate::class::{Class, DOT, HYPHEN, ONE, ZERO};
use crate::common::{
    spec_digits3, spec_fraction, spec_ipv4_address, spec_qvalue, spec_ttl,
    spec_domain_label, spec_dotted_label, spec_dotted_labels, spec_hostname, spec_last_dotted,
    spec_top_label,
};
use crate::error::{abort, Cursor, ErrorKind, Parsed};
use crate::headers::{
    spec_extension_header, spec_headers_first, spec_headers_second, spec_headers_third,
    spec_message_header, spec_named, spec_named2,
};
use crate::scan::{
    decimal, lemma_run_members, run_end, run_end_upto, spec_byte, spec_integer, spec_m_n, spec_while1,
};
use vstd::prelude::*;

verus! {

/// `h` is a well-formed hostname whose last label begins at `top`.
///
/// Its bytes are letters, digits, hyphens and dots. No label is empty, and
/// none begins or ends with a hyphen. The last label begins with a letter;
/// a single dot may follow it.
pub open spec fn well_formed_hostname(h: Seq<u8>, top: int) -> bool {
    &&& h.len() > 0
    &&& forall|k: int| 0 <= k < h.len() ==> Class::AlphanumericHyphen.has(#[trigger] h[k]) || h[k] == DOT
    &&& h[0] != DOT
    &&& h[0] != HYPHEN
    &&& h[h.len() - 1] != HYPHEN
    &&& forall|k: int| 0 <= k < h.len() - 1 && #[trigger] h[k] == DOT ==> h[k + 1] != DOT && h[k + 1] != HYPHEN
    &&& forall|k: int| 0 < k < h.len() && #[trigger] h[k] == DOT ==> h[k - 1] != HYPHEN
    &&& 0 <= top < h.len()
    &&& top == 0 || h[top - 1] == DOT
    &&& nom::character::is_alphabetic(h[top])
    &&& forall|k: int| top <= k < h.len() - 1 ==> #[trigger] h[k] != DOT
}

/// Where a run of class bytes ends: before the first byte that is not of
/// the class.
pub proof fn lemma_run_ends_at(s: Seq<u8>, i: int, e: int, class: Class)
    requires
        0 <= i <= e <= s.len(),
        forall|k: int| i <= k < e ==> class.has(#[trigger] s[k]),
        e == s.len() || !class.has(s[e]),
    ensures
        run_end(s, i, class) == e,
    decreases e - i,
{
    if i < e {
        lemma_run_ends_at(s, i + 1, e, class);
    }
}

/// From the start `i` of any label of a well-formed hostname, the dotted
/// labels reach the last label, and run over it where a dot ends the name.
proof fn lemma_dotted_labels(h: Seq<u8>, top: int, i: int, last: int)
    requires
        well_formed_hostname(h, top),
        0 <= i <= top,
        i == 0 || h[i - 1] == DOT,
    ensures
        h[h.len() - 1] == DOT ==> spec_dotted_labels(h, i) == Cursor::At(h.len() as int)
            && spec_last_dotted(h, i, last) == top,
        h[h.len() - 1] != DOT ==> spec_dotted_labels(h, i) == Cursor::At(top),
    decreases h.len() - i,
{
    reveal(spec_domain_label);
    reveal(spec_dotted_label);
    let len = h.len() as int;
    let d = run_end(h, i, Class::AlphanumericHyphen);
    lemma_run_members(h, i, Class::AlphanumericHyphen);
    assert(h[i] != DOT);
    assert(Class::AlphanumericHyphen.has(h[i]));
    assert(d > i);
    assert(d == len || h[d] == DOT);
    assert(spec_while1(h, i, Class::AlphanumericHyphen) == Cursor::At(d));
    if i == top {
        if h[len - 1] == DOT {
            assert(d == len - 1) by {
                if d < len - 1 {
                    assert(h[d] == DOT);
                }
                if d == len {
                    assert(Class::AlphanumericHyphen.has(h[len - 1]));
                }
            }
            assert(h[d - 1] != HYPHEN);
            assert(spec_domain_label(h, i) == Cursor::At(d));
            assert(spec_dotted_label(h, i) == Cursor::At(len));
            assert(spec_dotted_labels(h, len) == Cursor::At(len));
            assert(spec_last_dotted(h, len, i) == i);
        } else {
            assert(d == len) by {
                if d < len {
                    assert(h[d] == DOT);
                }
            }
            assert(!spec_dotted_label(h, i).ok());
        }
    } else {
        assert(h[top - 1] == DOT);
        assert(d <= top - 1) by {
            if d > top - 1 {
                assert(Class::AlphanumericHyphen.has(h[top - 1]));
            }
        }
        assert(h[d] == DOT);
        assert(h[d - 1] != HYPHEN);
        assert(spec_domain_label(h, i) == Cursor::At(d));
        assert(spec_dotted_label(h, i) == Cursor::At(d + 1));
        lemma_dotted_labels(h, top, d + 1, i);
    }
}

/// Every well-formed hostname is recognized in full: the production ends
/// exactly at the end of the name.
pub proof fn law_hostname_accepts_well_formed(h: Seq<u8>, top: int)
    requires
        well_formed_hostname(h, top),
    ensures
        spec_hostname(h, 0) == Cursor::At(h.len() as int),
{
    reveal(spec_hostname);
    reveal(spec_top_label);
    reveal(spec_domain_label);
    reveal(spec_dotted_label);
    let len = h.len() as int;
    lemma_dotted_labels(h, top, 0, 0);
    if h[len - 1] == DOT {
        assert(!spec_while1(h, len, Class::AlphanumericHyphen).ok());
        assert(spec_top_label(h, len).soft());
        let d = run_end(h, 0, Class::AlphanumericHyphen);
        lemma_run_members(h, 0, Class::AlphanumericHyphen);
        assert(Class::AlphanumericHyphen.has(h[0]));
        assert(d < len) by {
            if d == len {
                assert(Class::AlphanumericHyphen.has(h[len - 1]));
            }
        }
        assert(h[d] == DOT);
        assert(h[d - 1] != HYPHEN);
        assert(spec_dotted_label(h, 0) == Cursor::At(d + 1));
    } else {
        assert forall|k: int| top <= k < len implies Class::AlphanumericHyphen.has(
            #[trigger] h[k],
        ) by {
            assert(h[k] != DOT);
        }
        lemma_run_ends_at(h, top, len, Class::AlphanumericHyphen);
        assert(spec_top_label(h, top) == Cursor::At(len));
    }
}

/// A name whose first label begins or ends with a hyphen is rejected. The
/// first label is the run of letters, digits and hyphens that ends at `e`.
pub proof fn law_hostname_rejects_hyphen_at_label_edge(h: Seq<u8>, e: int)
    requires
        0 < e <= h.len(),
        forall|k: int| 0 <= k < e ==> Class::AlphanumericHyphen.has(#[trigger] h[k]),
        e == h.len() || !Class::AlphanumericHyphen.has(h[e]),
        h[0] == HYPHEN || h[e - 1] == HYPHEN,
    ensures
        !spec_hostname(h, 0).ok(),
{
    reveal(spec_hostname);
    reveal(spec_top_label);
    reveal(spec_domain_label);
    reveal(spec_dotted_label);
    lemma_run_ends_at(h, 0, e, Class::AlphanumericHyphen);
    assert(spec_while1(h, 0, Class::AlphanumericHyphen) == Cursor::At(e));
    assert(!spec_domain_label(h, 0).ok());
    assert(!spec_dotted_label(h, 0).ok());
    assert(spec_dotted_labels(h, 0) == Cursor::At(0));
    assert(!spec_top_label(h, 0).ok());
}


/// Where a run of bounded length ends: before the first byte that is not
/// of the class, or after `max` bytes.
pub proof fn lemma_run_upto_ends_at(s: Seq<u8>, i: int, e: int, class: Class, max: int)
    requires
        0 <= i <= e <= s.len(),
        e - i <= max,
        forall|k: int| i <= k < e ==> class.has(#[trigger] s[k]),
        e == s.len() || !class.has(s[e]) || e - i == max,
    ensures
        run_end_upto(s, i, class, max) == e,
    decreases e - i,
{
    if i < e {
        lemma_run_upto_ends_at(s, i + 1, e, class, max - 1);
    }
}

/// The bytes of `s` from `a` up to `b` are one to three digits, and no
/// longer group of at most three digits begins at `a`.
pub open spec fn digit_group(s: Seq<u8>, a: int, b: int) -> bool {
    &&& 0 <= a < b <= s.len()
    &&& b - a <= 3
    &&& forall|k: int| a <= k < b ==> Class::Digit.has(#[trigger] s[k])
    &&& b == s.len() || !Class::Digit.has(s[b]) || b - a == 3
}

/// An IPv4 address is a matter of form alone: four groups of one to three
/// digits with dots between them are an address, whatever numbers the
/// groups denote.
pub proof fn law_ipv4_is_lexical(s: Seq<u8>, i: int, a: int, b: int, c: int, e: int)
    requires
        digit_group(s, i, a),
        a < s.len() && s[a] == DOT,
        digit_group(s, a + 1, b),
        b < s.len() && s[b] == DOT,
        digit_group(s, b + 1, c),
        c < s.len() && s[c] == DOT,
        digit_group(s, c + 1, e),
    ensures
        spec_ipv4_address(s, i) == Cursor::At(e),
{
    reveal(spec_ipv4_address);
    lemma_run_upto_ends_at(s, i, a, Class::Digit, 3);
    lemma_run_upto_ends_at(s, a + 1, b, Class::Digit, 3);
    lemma_run_upto_ends_at(s, b + 1, c, Class::Digit, 3);
    lemma_run_upto_ends_at(s, c + 1, e, Class::Digit, 3);
    assert(spec_digits3(s, i) == Cursor::At(a));
    assert(spec_byte(s, a, DOT) == Cursor::At(a + 1));
    assert(spec_digits3(s, a + 1) == Cursor::At(b));
    assert(spec_byte(s, b, DOT) == Cursor::At(b + 1));
    assert(spec_digits3(s, b + 1) == Cursor::At(c));
    assert(spec_byte(s, c, DOT) == Cursor::At(c + 1));
    assert(spec_digits3(s, c + 1) == Cursor::At(e));
}

/// A time-to-live that is read lies between 0 and 255, and digits that
/// denote more than 255 are rejected unrecoverably as an invalid
/// time-to-live.
pub proof fn law_ttl_bounds(s: Seq<u8>, i: int)
    ensures
        spec_ttl(s, i).end.ok() ==> 0 <= spec_ttl(s, i).value <= 255,
        ({
            let a = spec_m_n(s, i, Class::Digit, 1, 3);
            a.ok() && 255 < decimal(s.subrange(i, a.pos())) <= i32::MAX ==> spec_ttl(s, i).end
                == abort(ErrorKind::InvalidTTLValue, i)
        }),
{
    reveal(spec_ttl);
}

/// An integer that is read is the number that its digits denote, and
/// digits that denote more than a 32-bit signed integer holds are rejected
/// unrecoverably: no value wraps or is cut short.
pub proof fn law_integer_never_wraps(s: Seq<u8>, i: int)
    ensures
        ({
            let e = run_end(s, i, Class::Digit);
            let n = decimal(s.subrange(i, e));
            &&& spec_integer(s, i).end.ok() ==> spec_integer(s, i).value == n && n <= i32::MAX
                && spec_integer(s, i).end == Cursor::At(e)
            &&& e > i && n > i32::MAX ==> spec_integer(s, i).end == abort(
                ErrorKind::InvalidIntegerError,
                i,
            )
        }),
{
}

/// A header's name that does not match is a recoverable rejection.
proof fn lemma_name_rejection_is_soft(s: Seq<u8>, i: int, name: &str, compact: &str)
    ensures
        !spec_named(s, i, name).ok() ==> spec_named(s, i, name).soft(),
        !spec_named2(s, i, name, compact).ok() ==> spec_named2(s, i, name, compact).soft(),
{
    reveal(spec_named);
    reveal(spec_named2);
    reveal(crate::tokens::spec_header_colon);
    reveal(crate::tokens::spec_separator_whitespace);
    reveal(crate::tokens::spec_linear_whitespace);
    reveal(crate::tokens::spec_newline);
}

/// The line at offset `i` begins with the name of a known header and the
/// colon after it.
pub open spec fn begins_with_known_name(s: Seq<u8>, i: int) -> bool {
    spec_named(s, i, "Accept").ok()
        || spec_named(s, i, "Accept-Encoding").ok()
        || spec_named(s, i, "Accept-Language").ok()
        || spec_named(s, i, "Alert-Info").ok()
        || spec_named(s, i, "Allow").ok()
        || spec_named(s, i, "Authentication-Info").ok()
        || spec_named(s, i, "Authorization").ok()
        || spec_named2(s, i, "Call-ID", "i").ok()
        || spec_named(s, i, "Call-Info").ok()
        || spec_named2(s, i, "Contact", "m").ok()
        || spec_named(s, i, "Content-Disposition").ok()
        || spec_named2(s, i, "Content-Encoding", "e").ok()
        || spec_named(s, i, "Content-Language").ok()
        || spec_named2(s, i, "Content-Length", "l").ok()
        || spec_named2(s, i, "Content-Type", "c").ok()
        || spec_named(s, i, "CSeq").ok()
        || spec_named(s, i, "Date").ok()
        || spec_named(s, i, "Error-Info").ok()
        || spec_named(s, i, "Expires").ok()
        || spec_named2(s, i, "From", "f").ok()
        || spec_named2(s, i, "Via", "v").ok()
        || spec_named(s, i, "In-Reply-To").ok()
        || spec_named(s, i, "Max-Forwards").ok()
        || spec_named(s, i, "MIME-Version").ok()
        || spec_named(s, i, "Min-Expires").ok()
        || spec_named(s, i, "Organization").ok()
        || spec_named(s, i, "Priority").ok()
        || spec_named(s, i, "Proxy-Authenticate").ok()
        || spec_named(s, i, "Proxy-Authorization").ok()
        || spec_named(s, i, "Proxy-Require").ok()
        || spec_named(s, i, "Record-Route").ok()
        || spec_named(s, i, "Reply-To").ok()
        || spec_named(s, i, "Require").ok()
        || spec_named(s, i, "Retry-After").ok()
        || spec_named(s, i, "Route").ok()
        || spec_named(s, i, "Server").ok()
        || spec_named2(s, i, "Subject", "s").ok()
        || spec_named2(s, i, "Supported", "k").ok()
        || spec_named(s, i, "Timestamp").ok()
        || spec_named2(s, i, "To", "t").ok()
        || spec_named(s, i, "Unsupported").ok()
        || spec_named(s, i, "User-Agent").ok()
        || spec_named(s, i, "Warning").ok()
        || spec_named(s, i, "WWW-Authenticate").ok()
}

proof fn lemma_unknown_first(s: Seq<u8>, i: int)
    requires
        !begins_with_known_name(s, i),
    ensures
        spec_headers_first(s, i).end.soft(),
{
    reveal(spec_headers_first);
    reveal(crate::headers::content::spec_accept);
    lemma_name_rejection_is_soft(s, i, "Accept", "Accept");
    reveal(crate::headers::content::spec_accept_encoding);
    lemma_name_rejection_is_soft(s, i, "Accept-Encoding", "Accept-Encoding");
    reveal(crate::headers::content::spec_accept_language);
    lemma_name_rejection_is_soft(s, i, "Accept-Language", "Accept-Language");
    reveal(crate::headers::alert::spec_alert_info);
    lemma_name_rejection_is_soft(s, i, "Alert-Info", "Alert-Info");
    reveal(crate::headers::spec_allow);
    lemma_name_rejection_is_soft(s, i, "Allow", "Allow");
    reveal(crate::headers::auth::spec_authentication_info);
    lemma_name_rejection_is_soft(s, i, "Authentication-Info", "Authentication-Info");
    reveal(crate::headers::auth::spec_authorization);
    lemma_name_rejection_is_soft(s, i, "Authorization", "Authorization");
    reveal(crate::headers::call::spec_call_id);
    lemma_name_rejection_is_soft(s, i, "Call-ID", "i");
    reveal(crate::headers::call::spec_call_info);
    lemma_name_rejection_is_soft(s, i, "Call-Info", "Call-Info");
    reveal(crate::headers::contact::spec_contact);
    lemma_name_rejection_is_soft(s, i, "Contact", "m");
    reveal(crate::headers::content::spec_content_disposition);
    lemma_name_rejection_is_soft(s, i, "Content-Disposition", "Content-Disposition");
    reveal(crate::headers::content::spec_content_encoding);
    lemma_name_rejection_is_soft(s, i, "Content-Encoding", "e");
    reveal(crate::headers::content::spec_content_language);
    lemma_name_rejection_is_soft(s, i, "Content-Language", "Content-Language");
    reveal(crate::headers::content::spec_content_length);
    lemma_name_rejection_is_soft(s, i, "Content-Length", "l");
    reveal(crate::headers::content::spec_content_type);
    lemma_name_rejection_is_soft(s, i, "Content-Type", "c");
    reveal(crate::headers::spec_cseq);
    lemma_name_rejection_is_soft(s, i, "CSeq", "CSeq");
    reveal(crate::headers::date::spec_date);
    lemma_name_rejection_is_soft(s, i, "Date", "Date");
    reveal(crate::headers::alert::spec_error_info);
    lemma_name_rejection_is_soft(s, i, "Error-Info", "Error-Info");
    reveal(crate::headers::spec_expires);
    lemma_name_rejection_is_soft(s, i, "Expires", "Expires");
    reveal(crate::headers::contact::spec_from);
    lemma_name_rejection_is_soft(s, i, "From", "f");
    reveal(crate::headers::via::spec_via);
    lemma_name_rejection_is_soft(s, i, "Via", "v");
    assert(crate::headers::content::spec_accept(s, i).end.soft());
    assert(crate::headers::content::spec_accept_encoding(s, i).end.soft());
    assert(crate::headers::content::spec_accept_language(s, i).end.soft());
    assert(crate::headers::alert::spec_alert_info(s, i).end.soft());
    assert(crate::headers::spec_allow(s, i).end.soft());
    assert(crate::headers::auth::spec_authentication_info(s, i).end.soft());
    assert(crate::headers::auth::spec_authorization(s, i).end.soft());
    assert(crate::headers::call::spec_call_id(s, i).end.soft());
    assert(crate::headers::call::spec_call_info(s, i).end.soft());
    assert(crate::headers::contact::spec_contact(s, i).end.soft());
    assert(crate::headers::content::spec_content_disposition(s, i).end.soft());
    assert(crate::headers::content::spec_content_encoding(s, i).end.soft());
    assert(crate::headers::content::spec_content_language(s, i).end.soft());
    assert(crate::headers::content::spec_content_length(s, i).end.soft());
    assert(crate::headers::content::spec_content_type(s, i).end.soft());
    assert(crate::headers::spec_cseq(s, i).end.soft());
    assert(crate::headers::date::spec_date(s, i).end.soft());
    assert(crate::headers::alert::spec_error_info(s, i).end.soft());
    assert(crate::headers::spec_expires(s, i).end.soft());
    assert(crate::headers::contact::spec_from(s, i).end.soft());
    assert(crate::headers::via::spec_via(s, i).end.soft());
}

proof fn lemma_unknown_second(s: Seq<u8>, i: int)
    requires
        !begins_with_known_name(s, i),
    ensures
        spec_headers_second(s, i).end.soft(),
{
    reveal(spec_headers_second);
    reveal(crate::headers::call::spec_in_reply_to);
    lemma_name_rejection_is_soft(s, i, "In-Reply-To", "In-Reply-To");
    reveal(crate::headers::spec_max_forwards);
    lemma_name_rejection_is_soft(s, i, "Max-Forwards", "Max-Forwards");
    reveal(crate::headers::spec_mime_version);
    lemma_name_rejection_is_soft(s, i, "MIME-Version", "MIME-Version");
    reveal(crate::headers::spec_min_expires);
    lemma_name_rejection_is_soft(s, i, "Min-Expires", "Min-Expires");
    reveal(crate::headers::spec_organization);
    lemma_name_rejection_is_soft(s, i, "Organization", "Organization");
    reveal(crate::headers::warning::spec_priority);
    lemma_name_rejection_is_soft(s, i, "Priority", "Priority");
    reveal(crate::headers::auth::spec_proxy_authenticate);
    lemma_name_rejection_is_soft(s, i, "Proxy-Authenticate", "Proxy-Authenticate");
    reveal(crate::headers::auth::spec_proxy_authorization);
    lemma_name_rejection_is_soft(s, i, "Proxy-Authorization", "Proxy-Authorization");
    reveal(crate::headers::auth::spec_proxy_require);
    lemma_name_rejection_is_soft(s, i, "Proxy-Require", "Proxy-Require");
    reveal(crate::headers::contact::spec_record_route);
    lemma_name_rejection_is_soft(s, i, "Record-Route", "Record-Route");
    reveal(crate::headers::contact::spec_reply_to);
    lemma_name_rejection_is_soft(s, i, "Reply-To", "Reply-To");
    reveal(crate::headers::spec_require);
    lemma_name_rejection_is_soft(s, i, "Require", "Require");
    reveal(crate::headers::spec_retry_after);
    lemma_name_rejection_is_soft(s, i, "Retry-After", "Retry-After");
    reveal(crate::headers::contact::spec_route);
    lemma_name_rejection_is_soft(s, i, "Route", "Route");
    reveal(crate::headers::spec_server);
    lemma_name_rejection_is_soft(s, i, "Server", "Server");
    reveal(crate::headers::spec_subject);
    lemma_name_rejection_is_soft(s, i, "Subject", "s");
    reveal(crate::headers::spec_supported);
    lemma_name_rejection_is_soft(s, i, "Supported", "k");
    reveal(crate::headers::spec_timestamp);
    lemma_name_rejection_is_soft(s, i, "Timestamp", "Timestamp");
    reveal(crate::headers::contact::spec_to);
    lemma_name_rejection_is_soft(s, i, "To", "t");
    reveal(crate::headers::spec_unsupported);
    lemma_name_rejection_is_soft(s, i, "Unsupported", "Unsupported");
    reveal(crate::headers::spec_user_agent);
    lemma_name_rejection_is_soft(s, i, "User-Agent", "User-Agent");
    assert(crate::headers::call::spec_in_reply_to(s, i).end.soft());
    assert(crate::headers::spec_max_forwards(s, i).end.soft());
    assert(crate::headers::spec_mime_version(s, i).end.soft());
    assert(crate::headers::spec_min_expires(s, i).end.soft());
    assert(crate::headers::spec_organization(s, i).end.soft());
    assert(crate::headers::warning::spec_priority(s, i).end.soft());
    assert(crate::headers::auth::spec_proxy_authenticate(s, i).end.soft());
    assert(crate::headers::auth::spec_proxy_authorization(s, i).end.soft());
    assert(crate::headers::auth::spec_proxy_require(s, i).end.soft());
    assert(crate::headers::contact::spec_record_route(s, i).end.soft());
    assert(crate::headers::contact::spec_reply_to(s, i).end.soft());
    assert(crate::headers::spec_require(s, i).end.soft());
    assert(crate::headers::spec_retry_after(s, i).end.soft());
    assert(crate::headers::contact::spec_route(s, i).end.soft());
    assert(crate::headers::spec_server(s, i).end.soft());
    assert(crate::headers::spec_subject(s, i).end.soft());
    assert(crate::headers::spec_supported(s, i).end.soft());
    assert(crate::headers::spec_timestamp(s, i).end.soft());
    assert(crate::headers::contact::spec_to(s, i).end.soft());
    assert(crate::headers::spec_unsupported(s, i).end.soft());
    assert(crate::headers::spec_user_agent(s, i).end.soft());
}

proof fn lemma_unknown_third(s: Seq<u8>, i: int)
    requires
        !begins_with_known_name(s, i),
    ensures
        spec_headers_third(s, i).end.soft(),
{
    reveal(spec_headers_third);
    reveal(crate::headers::warning::spec_warning);
    lemma_name_rejection_is_soft(s, i, "Warning", "Warning");
    reveal(crate::headers::auth::spec_www_authenticate);
    lemma_name_rejection_is_soft(s, i, "WWW-Authenticate", "WWW-Authenticate");
    assert(crate::headers::warning::spec_warning(s, i).end.soft());
    assert(crate::headers::auth::spec_www_authenticate(s, i).end.soft());
}

/// A line that begins with no known header's name is read as an extension
/// header and nothing else: an unknown name never rejects a line that is
/// an extension header followed by a line end.
pub proof fn law_unknown_header_is_extension(s: Seq<u8>, i: int)
    requires
        !begins_with_known_name(s, i),
    ensures
        spec_message_header(s, i) == (Parsed {
            value: spec_extension_header(s, i).value,
            end: spec_extension_header(s, i).end.and(
                crate::tokens::spec_newline(s, spec_extension_header(s, i).end.pos()),
            ),
        }),
{
    reveal(spec_message_header);
    lemma_unknown_first(s, i);
    lemma_unknown_second(s, i);
    lemma_unknown_third(s, i);
}


/// The headers of a message come in wire order, one for each header line:
/// where a header line stands at `i`, the list from `i` is that line's
/// header followed by the list from the next line. No two lines are merged
/// and none is left out.
pub proof fn law_headers_in_wire_order(s: Seq<u8>, i: int, next: int)
    requires
        spec_message_header(s, i).end == Cursor::At(next),
        i < next <= s.len(),
    ensures
        crate::headers::spec_message_headers(s, i).value == seq![spec_message_header(s, i).value]
            + crate::headers::spec_message_headers(s, next).value,
        crate::headers::spec_message_headers(s, i).end == crate::headers::spec_message_headers(
            s,
            next,
        ).end,
{
    reveal(crate::headers::spec_message_headers);
}

/// The end of the header lines is the first offset at which no header
/// line stands: a list that ends at `i` without a rejection holds nothing.
pub proof fn law_headers_end_at_first_mismatch(s: Seq<u8>, i: int)
    requires
        spec_message_header(s, i).end.soft(),
    ensures
        crate::headers::spec_message_headers(s, i).value == Seq::<
            crate::header::HeaderView,
        >::empty(),
        crate::headers::spec_message_headers(s, i).end == Cursor::At(i),
{
    reveal(crate::headers::spec_message_headers);
}

/// A preference weight lies between 0 and 1 by its form alone: it begins
/// with `0` or `1`, has at most three decimals, and after a `1` every
/// decimal is a zero.
pub proof fn law_qvalue_in_range(s: Seq<u8>, i: int)
    requires
        0 <= i,
        spec_qvalue(s, i).ok(),
    ensures
        i < spec_qvalue(s, i).pos() <= i + 5,
        s[i] == ZERO || s[i] == ONE,
        s[i] == ONE ==> forall|k: int| i + 2 <= k < spec_qvalue(s, i).pos() ==> #[trigger] s[k] == ZERO,
        spec_qvalue(s, i).pos() >= i + 2 ==> s[i + 1] == DOT,
        forall|k: int| i + 2 <= k < spec_qvalue(s, i).pos() ==> Class::Digit.has(#[trigger] s[k]),
{
    reveal(spec_qvalue);
    reveal(spec_fraction);
    if i + 2 <= s.len() {
        crate::scan::lemma_run_upto_members(s, i + 2, Class::Digit, 3);
        crate::scan::lemma_run_upto_members(s, i + 2, Class::ZeroDigit, 3);
    }
}


/// A line that begins with a known header's name is never read as an
/// extension header: the header line is that of the known headers alone,
/// and where the known header's value is rejected, so is the line, beyond
/// recovery.
pub proof fn law_known_header_is_no_extension(s: Seq<u8>, i: int)
    requires
        begins_with_known_name(s, i),
    ensures
        ({
            let h = spec_headers_first(s, i).or(spec_headers_second(s, i)).or(
                spec_headers_third(s, i),
            );
            &&& !h.end.soft()
            &&& spec_message_header(s, i) == (Parsed {
                value: h.value,
                end: h.end.and(crate::tokens::spec_newline(s, h.end.pos())),
            })
            &&& !h.end.ok() ==> spec_message_header(s, i).end == h.end
        }),
{
    reveal(spec_message_header);
    reveal(spec_headers_first);
    reveal(spec_headers_second);
    reveal(spec_headers_third);
}


/// The bytes of `h` from `i` up to `r` are labels, each with a dot after
/// it: letters, digits, hyphens and dots, with no empty label and no
/// hyphen at the edge of a label.
pub open spec fn dotted_labels_shape(h: Seq<u8>, i: int, r: int) -> bool {
    &&& 0 <= i <= r <= h.len()
    &&& forall|k: int| i <= k < r ==> Class::AlphanumericHyphen.has(#[trigger] h[k]) || h[k] == DOT
    &&& r > i ==> h[r - 1] == DOT && h[i] != DOT && h[i] != HYPHEN
    &&& forall|k: int| i <= k < r - 1 && #[trigger] h[k] == DOT ==> h[k + 1] != DOT && h[k + 1] != HYPHEN
    &&& forall|k: int| i < k < r && #[trigger] h[k] == DOT ==> h[k - 1] != HYPHEN
}

/// What the dotted labels from `i` match has the shape of dotted labels,
/// and the last of them begins where `spec_last_dotted` says.
proof fn lemma_dotted_labels_shape(h: Seq<u8>, i: int, last: int)
    requires
        0 <= i <= h.len(),
    ensures
        spec_dotted_labels(h, i).ok(),
        dotted_labels_shape(h, i, spec_dotted_labels(h, i).pos()),
        spec_dotted_labels(h, i).pos() == i ==> spec_last_dotted(h, i, last) == last
            && !(spec_dotted_label(h, i).ok() && spec_dotted_label(h, i).pos() > i),
        spec_dotted_labels(h, i).pos() > i ==> ({
            let l = spec_last_dotted(h, i, last);
            let r = spec_dotted_labels(h, i).pos();
            &&& i <= l < r - 1
            &&& l == i || h[l - 1] == DOT
            &&& forall|k: int| l <= k < r - 1 ==> #[trigger] h[k] != DOT
        }),
    decreases h.len() - i,
{
    reveal(spec_domain_label);
    reveal(spec_dotted_label);
    let d = run_end(h, i, Class::AlphanumericHyphen);
    lemma_run_members(h, i, Class::AlphanumericHyphen);
    match spec_dotted_label(h, i) {
        Cursor::At(j) => {
            if i < j <= h.len() {
                assert(spec_while1(h, i, Class::AlphanumericHyphen) == Cursor::At(d));
                assert(j == d + 1);
                assert(h[d] == DOT);
                assert(h[i] != HYPHEN && h[d - 1] != HYPHEN);
                lemma_dotted_labels_shape(h, j, i);
                let r = spec_dotted_labels(h, j).pos();
                assert(spec_dotted_labels(h, i) == spec_dotted_labels(h, j));
                assert(spec_last_dotted(h, i, last) == spec_last_dotted(h, j, i));
                assert forall|k: int| i <= k < r implies Class::AlphanumericHyphen.has(
                    #[trigger] h[k],
                ) || h[k] == DOT by {
                    if k < d {
                        assert(Class::AlphanumericHyphen.has(h[k]));
                    }
                }
                assert forall|k: int| i <= k < r - 1 && #[trigger] h[k] == DOT implies h[k + 1]
                    != DOT && h[k + 1] != HYPHEN by {
                    if k < d {
                        assert(Class::AlphanumericHyphen.has(h[k]));
                    }
                }
                assert forall|k: int| i < k < r && #[trigger] h[k] == DOT implies h[k - 1]
                    != HYPHEN by {
                    if k < d {
                        assert(Class::AlphanumericHyphen.has(h[k]));
                    }
                }
                if r == j {
                    assert forall|k: int| i <= k < r - 1 implies #[trigger] h[k] != DOT by {
                        assert(Class::AlphanumericHyphen.has(h[k]));
                    }
                }
            }
        },
        Cursor::Off(x) => {},
    }
}

/// A name that the hostname production accepts in full is well formed; the
/// offset that is returned is where its last label begins. With
/// [`law_hostname_accepts_well_formed`], the names that are accepted in
/// full are exactly the well-formed ones. In particular, a name with a
/// hyphen at the edge of any of its labels is never accepted in full.
pub proof fn law_hostname_accepts_only_well_formed(h: Seq<u8>) -> (top: int)
    requires
        spec_hostname(h, 0) == Cursor::At(h.len() as int),
    ensures
        well_formed_hostname(h, top),
{
    reveal(spec_hostname);
    reveal(spec_top_label);
    reveal(spec_dotted_label);
    reveal(spec_domain_label);
    let len = h.len() as int;
    lemma_dotted_labels_shape(h, 0, 0);
    let r = spec_dotted_labels(h, 0).pos();
    let plain = spec_dotted_labels(h, 0).and(spec_top_label(h, r));
    if plain.ok() {
        let d = run_end(h, r, Class::AlphanumericHyphen);
        lemma_run_members(h, r, Class::AlphanumericHyphen);
        assert(spec_while1(h, r, Class::AlphanumericHyphen) == Cursor::At(d));
        assert(d == len);
        assert(nom::character::is_alphabetic(h[r]));
        assert(h[len - 1] != HYPHEN);
        assert forall|k: int| 0 <= k < len implies Class::AlphanumericHyphen.has(#[trigger] h[k])
            || h[k] == DOT by {
            if k >= r {
                assert(Class::AlphanumericHyphen.has(h[k]));
            }
        }
        assert forall|k: int| 0 <= k < len - 1 && #[trigger] h[k] == DOT implies h[k + 1] != DOT
            && h[k + 1] != HYPHEN by {
            if k >= r {
                assert(Class::AlphanumericHyphen.has(h[k]));
            }
        }
        assert forall|k: int| 0 < k < len && #[trigger] h[k] == DOT implies h[k - 1]
            != HYPHEN by {
            if k >= r {
                assert(Class::AlphanumericHyphen.has(h[k]));
            }
        }
        assert forall|k: int| r <= k < len - 1 implies #[trigger] h[k] != DOT by {
            assert(Class::AlphanumericHyphen.has(h[k]));
        }
        r
    } else {
        let l = spec_last_dotted(h, 0, 0);
        assert(spec_dotted_label(h, 0).ok());
        assert(r == len);
        assert(r > 0);
        assert(nom::character::is_alphabetic(h[l]));
        l
    }
}

/// A name in which some label begins or ends with a hyphen is not accepted
/// in full, wherever in the name the label stands: a hyphen stands at the
/// start or the end of the name, or next to a dot.
pub proof fn law_hostname_rejects_hyphen_at_any_label_edge(h: Seq<u8>, k: int)
    requires
        0 <= k < h.len(),
        h[k] == HYPHEN,
        k == 0 || k == h.len() - 1 || h[k - 1] == DOT || h[k + 1] == DOT,
    ensures
        spec_hostname(h, 0) != Cursor::At(h.len() as int),
{
    if spec_hostname(h, 0) == Cursor::At(h.len() as int) {
        let top = law_hostname_accepts_only_well_formed(h);
        if 0 < k && h[k - 1] == DOT {
            assert(h[k - 1] == DOT ==> h[k - 1 + 1] != HYPHEN);
        }
        if k < h.len() - 1 && h[k + 1] == DOT {
            assert(h[k + 1] == DOT ==> h[k + 1 - 1] != HYPHEN);
        }
    }
}

} // verus!
