//! Positions in source text and the problems reported at them.

use crate::text::{words, Text};
use vstd::prelude::*;

verus! {

/// A region of source text, in bytes.
#[derive(Clone, Copy, PartialEq, Eq, Structural, Debug)]
pub struct Span {
    pub start: usize,
    pub end: usize,
}

/// The empty region at the start of the source text.
pub open spec fn spec_origin() -> Span {
    Span { start: 0, end: 0 }
}

/// The empty region at the start of the source text.
#[verifier::when_used_as_spec(spec_origin)]
pub fn origin() -> (span: Span)
    ensures
        span == spec_origin(),
{
    Span { start: 0, end: 0 }
}

/// A problem found in a program.
pub struct Diagnostic<'a> {
    pub code: &'a str,
    pub message: Text<'a>,
    pub help: Option<Text<'a>>,
    pub span: Span,
}

impl<'a> Diagnostic<'a> {
    pub fn share(&self) -> (shared: Self)
        ensures
            shared == *self,
    {
        Diagnostic {
            code: self.code,
            message: self.message.share(),
            help: match &self.help {
                Some(help) => Some(help.share()),
                None => None,
            },
            span: self.span,
        }
    }
}

/// Whether problems are still there, in their order, in front of later ones.
#[verifier::opaque]
pub open spec fn kept<'a>(before: Seq<Diagnostic<'a>>, after: Seq<Diagnostic<'a>>) -> bool {
    before.is_prefix_of(after)
}

/// Problems are kept where nothing happens.
pub broadcast proof fn kept_as_they_are<'a>(before: Seq<Diagnostic<'a>>, after: Seq<Diagnostic<'a>>)
    requires
        before == after,
    ensures
        #[trigger] kept(before, after),
{
    reveal(kept);
}

/// Problems are kept where another one is reported.
pub broadcast proof fn kept_with_another<'a>(
    before: Seq<Diagnostic<'a>>,
    after: Seq<Diagnostic<'a>>,
    problem: Diagnostic<'a>,
)
    requires
        kept(before, after),
    ensures
        #[trigger] kept(before, after.push(problem)),
{
    reveal(kept);
}

/// Problems are kept where they are kept together with a later one.
pub broadcast proof fn kept_without_another<'a>(
    before: Seq<Diagnostic<'a>>,
    after: Seq<Diagnostic<'a>>,
    problem: Diagnostic<'a>,
)
    requires
        #[trigger] kept(before.push(problem), after),
    ensures
        kept(before, after),
{
    reveal(kept);
    let more = before.push(problem);
    assert forall|i: int| 0 <= i < before.len() implies before[i] == after[i] by {
        assert(more[i] == after[i]);
    }
}

/// Problems are kept where they are kept at every step.
pub broadcast proof fn kept_step_by_step<'a>(
    first: Seq<Diagnostic<'a>>,
    second: Seq<Diagnostic<'a>>,
    third: Seq<Diagnostic<'a>>,
)
    requires
        #[trigger] kept(first, second),
        #[trigger] kept(second, third),
    ensures
        kept(first, third),
{
    reveal(kept);
}

pub broadcast group group_kept {
    kept_as_they_are,
    kept_with_another,
    kept_without_another,
    kept_step_by_step,
}

/// A problem without advice.
pub open spec fn spec_error<'a>(code: &'a str, message: Text<'a>, span: Span) -> Diagnostic<'a> {
    Diagnostic { code, message, help: None, span }
}

/// A problem without advice.
#[verifier::when_used_as_spec(spec_error)]
pub fn error<'a>(code: &'a str, message: Text<'a>, span: Span) -> (problem: Diagnostic<'a>)
    ensures
        problem == spec_error(code, message, span),
{
    Diagnostic { code, message, help: None, span }
}

/// A problem with advice.
pub open spec fn spec_advised<'a>(
    code: &'a str,
    message: Text<'a>,
    help: Text<'a>,
    span: Span,
) -> Diagnostic<'a> {
    Diagnostic { code, message, help: Some(help), span }
}

/// A problem with advice.
#[verifier::when_used_as_spec(spec_advised)]
pub fn advised<'a>(code: &'a str, message: Text<'a>, help: Text<'a>, span: Span) -> (problem:
    Diagnostic<'a>)
    ensures
        problem == spec_advised(code, message, help, span),
{
    Diagnostic { code, message, help: Some(help), span }
}

/// A problem with a fixed sentence of advice.
pub open spec fn spec_helped<'a>(
    code: &'a str,
    message: Text<'a>,
    help: &'a str,
    span: Span,
) -> Diagnostic<'a> {
    advised(code, message, words(help), span)
}

/// A problem with a fixed sentence of advice.
#[verifier::when_used_as_spec(spec_helped)]
pub fn helped<'a>(code: &'a str, message: Text<'a>, help: &'a str, span: Span) -> (problem:
    Diagnostic<'a>)
    ensures
        problem == spec_helped(code, message, help, span),
{
    advised(code, message, words(help), span)
}

} // verus!
