//! The Warning and Priority headers.

use crate::class::{Class, COMMA, SPACE};
use crate::common::{host_port, spec_host_port, spec_keyword, spec_span_text};
use crate::error::{yields, Parsed, Reject};
use crate::header::{
    Header, HeaderView, Priority, PriorityView, Warning, WarningAgent, WarningAgentView,
    WarningView,
};
use crate::headers::{named, spec_named};
use crate::list::{list1, spec_list1, Rule, Sep};
use crate::scan::{byte, is_soft, m_n, spec_byte, spec_m_n, spec_text, tag_no_case, text};
use crate::tokens::{quoted_string, spec_quoted_string, spec_token_str, token_str};
use vstd::prelude::*;

verus! {

/// A warning agent that is a host with an optional port.
#[verifier::opaque]
pub open spec fn spec_warning_agent_host_port(s: Seq<u8>, i: int) -> Parsed<WarningAgentView> {
    let h = spec_host_port(s, i);
    let t = spec_text(s, i, h.value.0 as int);
    Parsed { value: WarningAgentView::HostPort(t.value, h.value.1), end: h.end.and(t.end).and(h.end) }
}

fn warning_agent_host_port(input: &[u8], pos: usize) -> (r: Result<(WarningAgent, usize), Reject>)
    requires
        pos <= input@.len(),
    ensures
        yields(r, pos, input@.len(), spec_warning_agent_host_port(input@, pos as int)),
{
    proof {
        reveal(spec_warning_agent_host_port);
    }
    let ((h, p), e) = host_port(input, pos)?;
    let t = text(input, pos, h)?;
    Ok((WarningAgent::HostPort(t, p), e))
}

/// A warning agent: a host with an optional port, or a pseudonym.
#[verifier::opaque]
pub open spec fn spec_warning_agent(s: Seq<u8>, i: int) -> Parsed<WarningAgentView> {
    let t = spec_token_str(s, i);
    spec_warning_agent_host_port(s, i).or(
        Parsed { value: WarningAgentView::Pseudonym(t.value), end: t.end },
    )
}

/// Parses at `pos` what [`spec_warning_agent`] describes.
pub fn warning_agent(input: &[u8], pos: usize) -> (r: Result<(WarningAgent, usize), Reject>)
    requires
        pos <= input@.len(),
    ensures
        yields(r, pos, input@.len(), spec_warning_agent(input@, pos as int)),
{
    proof {
        reveal(spec_warning_agent);
    }
    let r = warning_agent_host_port(input, pos);
    if !is_soft(&r) {
        return r;
    }
    let (t, e) = token_str(input, pos)?;
    Ok((WarningAgent::Pseudonym(t), e))
}

/// One warning: a code of three digits, an agent and a quoted text, with
/// single spaces between them.
#[verifier::opaque]
pub open spec fn spec_warning_value(s: Seq<u8>, i: int) -> Parsed<WarningView> {
    let a = spec_m_n(s, i, Class::Digit, 3, 3);
    let b = a.and(spec_byte(s, a.pos(), SPACE));
    let g = spec_warning_agent(s, b.pos());
    let c = b.and(g.end);
    let d = c.and(spec_byte(s, c.pos(), SPACE));
    let e = d.and(spec_quoted_string(s, d.pos()));
    let code = spec_span_text(s, i, e.and(a));
    let words = spec_span_text(s, d.pos(), code.end.and(e));
    Parsed {
        value: WarningView { code: code.value, agent: g.value, text: words.value },
        end: words.end,
    }
}

/// Parses at `pos` what [`spec_warning_value`] describes.
pub fn warning_value(input: &[u8], pos: usize) -> (r: Result<(Warning, usize), Reject>)
    requires
        pos <= input@.len(),
    ensures
        yields(r, pos, input@.len(), spec_warning_value(input@, pos as int)),
{
    proof {
        reveal(spec_warning_value);
    }
    let a = m_n(input, pos, Class::Digit, 3, 3)?;
    let b = byte(input, a, SPACE)?;
    let (agent, c) = warning_agent(input, b)?;
    let d = byte(input, c, SPACE)?;
    let e = quoted_string(input, d)?;
    let code = text(input, pos, a)?;
    let words = text(input, d, e)?;
    Ok((Warning { code, agent, text: words }, e))
}

/// The production of one warning.
pub struct WarningRule;

impl Rule for WarningRule {
    type Out = Warning;

    open spec fn spec_parse(s: Seq<u8>, i: int) -> Parsed<WarningView> {
        spec_warning_value(s, i)
    }

    fn parse(input: &[u8], pos: usize) -> (r: Result<(Warning, usize), Reject>) {
        warning_value(input, pos)
    }
}

/// The Warning header: at least one warning.
#[verifier::opaque]
pub open spec fn spec_warning(s: Seq<u8>, i: int) -> Parsed<HeaderView> {
    let a = spec_named(s, i, "Warning");
    let l = spec_list1::<WarningRule>(s, a.pos(), Sep::Padded(COMMA));
    Parsed { value: HeaderView::Warning(l.value), end: a.and(l.end) }
}

/// Parses at `pos` what [`spec_warning`] describes.
pub fn warning(input: &[u8], pos: usize) -> (r: Result<(Header, usize), Reject>)
    requires
        pos <= input@.len(),
    ensures
        yields(r, pos, input@.len(), spec_warning(input@, pos as int)),
{
    proof {
        reveal(spec_warning);
    }
    let a = named(input, pos, "Warning")?;
    let (l, e) = list1::<WarningRule>(input, a, Sep::Padded(COMMA))?;
    Ok((Header::Warning(l), e))
}

/// A priority: a known name or a token. `urgent` is tried before
/// `non-urgent`, and a known name is taken from the front of a longer token.
#[verifier::opaque]
pub open spec fn spec_priority_value(s: Seq<u8>, i: int) -> Parsed<PriorityView> {
    let t = spec_token_str(s, i);
    spec_keyword(s, i, "emergency", PriorityView::Emergency).or(
        spec_keyword(s, i, "urgent", PriorityView::Urgent),
    ).or(spec_keyword(s, i, "normal", PriorityView::Normal)).or(
        spec_keyword(s, i, "non-urgent", PriorityView::NonUrgent),
    ).or(Parsed { value: PriorityView::Extension(t.value), end: t.end })
}

/// Parses at `pos` what [`spec_priority_value`] describes.
pub fn priority_value(input: &[u8], pos: usize) -> (r: Result<(Priority, usize), Reject>)
    requires
        pos <= input@.len(),
    ensures
        yields(r, pos, input@.len(), spec_priority_value(input@, pos as int)),
{
    proof {
        reveal(spec_priority_value);
    }
    if let Ok(e) = tag_no_case(input, pos, "emergency") {
        return Ok((Priority::Emergency, e));
    }
    if let Ok(e) = tag_no_case(input, pos, "urgent") {
        return Ok((Priority::Urgent, e));
    }
    if let Ok(e) = tag_no_case(input, pos, "normal") {
        return Ok((Priority::Normal, e));
    }
    if let Ok(e) = tag_no_case(input, pos, "non-urgent") {
        return Ok((Priority::NonUrgent, e));
    }
    let (t, e) = token_str(input, pos)?;
    Ok((Priority::Extension(t), e))
}

/// The Priority header.
#[verifier::opaque]
pub open spec fn spec_priority(s: Seq<u8>, i: int) -> Parsed<HeaderView> {
    let a = spec_named(s, i, "Priority");
    let p = spec_priority_value(s, a.pos());
    Parsed { value: HeaderView::Priority(p.value), end: a.and(p.end) }
}

/// Parses at `pos` what [`spec_priority`] describes.
pub fn priority(input: &[u8], pos: usize) -> (r: Result<(Header, usize), Reject>)
    requires
        pos <= input@.len(),
    ensures
        yields(r, pos, input@.len(), spec_priority(input@, pos as int)),
{
    proof {
        reveal(spec_priority);
    }
    let a = named(input, pos, "Priority")?;
    let (p, e) = priority_value(input, a)?;
    Ok((Header::Priority(p), e))
}

} // verus!
