//! The problems of a program in the order of the source text.

use crate::span::{Diagnostic, Span};
use crate::text::{bytes_precede, characters, precedes, same, show};
use vstd::prelude::*;
use vstd::utf8::*;

verus! {

/// A problem as it is shown.
pub struct Report<'a> {
    pub code: &'a str,
    pub message: String,
    pub help: Option<String>,
    pub span: Span,
}

/// Where a problem stands among others: by its place, its code and its message.
pub struct Rank {
    pub span: Span,
    pub code: Seq<char>,
    pub message: Seq<char>,
}

/// Whether characters come before others in alphabetical order.
pub open spec fn characters_precede(left: Seq<char>, right: Seq<char>) -> bool {
    bytes_precede(encode_utf8(left), encode_utf8(right), 0)
}

impl Rank {
    /// Whether a problem is shown before another.
    #[verifier::opaque]
    pub open spec fn precedes(self, other: Rank) -> bool {
        if self.span.start != other.span.start {
            self.span.start < other.span.start
        } else if self.span.end != other.span.end {
            self.span.end < other.span.end
        } else if self.code != other.code {
            characters_precede(self.code, other.code)
        } else {
            characters_precede(self.message, other.message)
        }
    }
}

/// Where a problem stands among others.
pub open spec fn rank(problem: Diagnostic) -> Rank {
    Rank { span: problem.span, code: problem.code@, message: characters(problem.message) }
}

impl<'a> Report<'a> {
    /// Where a problem stands among others.
    pub open spec fn rank(self) -> Rank {
        Rank { span: self.span, code: self.code@, message: self.message@ }
    }

    /// Whether this is how a problem is shown.
    pub open spec fn shows(self, problem: Diagnostic) -> bool {
        &&& self.rank() == rank(problem)
        &&& match (self.help, problem.help) {
            (Some(help), Some(advice)) => help@ == characters(advice),
            (None, None) => true,
            _ => false,
        }
    }
}

/// Whether a problem is the first of those that stand at the same place, with
/// the same code and message.
#[verifier::opaque]
pub open spec fn is_first(problems: Seq<Diagnostic>, at: int) -> bool {
    &&& 0 <= at < problems.len()
    &&& forall|earlier: int|
        0 <= earlier < at ==> rank(#[trigger] problems[earlier]) != rank(problems[at])
}

/// Whether reports stand in order, without repetition.
#[verifier::opaque]
pub open spec fn ordered(reports: Seq<Report>) -> bool {
    forall|i: int, j: int|
        0 <= i < j < reports.len() ==> (#[trigger] reports[i]).rank().precedes(
            (#[trigger] reports[j]).rank(),
        )
}

/// Whether each report shows the first of some problems that are alike.
#[verifier::opaque]
pub open spec fn sound(problems: Seq<Diagnostic>, reports: Seq<Report>) -> bool {
    forall|i: int|
        0 <= i < reports.len() ==> exists|at: int| #[trigger]
            is_first(problems, at) && (#[trigger] reports[i]).shows(problems[at])
}

/// Whether some report stands for a problem.
pub open spec fn covers(reports: Seq<Report>, problem: Diagnostic) -> bool {
    exists|i: int| 0 <= i < reports.len() && (#[trigger] reports[i]).rank() == rank(problem)
}

/// Whether some report stands for each problem.
#[verifier::opaque]
pub open spec fn covering(problems: Seq<Diagnostic>, reports: Seq<Report>) -> bool {
    forall|at: int| 0 <= at < problems.len() ==> covers(reports, #[trigger] problems[at])
}

/// Whether reports are those of some problems: in order and without
/// repetition, one for all problems that are alike, with the advice of the
/// first of them.
pub open spec fn lists(problems: Seq<Diagnostic>, reports: Seq<Report>) -> bool {
    &&& ordered(reports)
    &&& sound(problems, reports)
    &&& covering(problems, reports)
}

proof fn bytes_are_ordered(left: Seq<u8>, right: Seq<u8>, at: nat)
    requires
        at <= left.len(),
        at <= right.len(),
        left.take(at as int) == right.take(at as int),
    ensures
        bytes_precede(left, right, at) || bytes_precede(right, left, at) || left == right,
        !(bytes_precede(left, right, at) && bytes_precede(right, left, at)),
    decreases right.len() - at,
{
    if at >= right.len() || at >= left.len() {
        if left.len() == right.len() {
            assert(left =~= left.take(at as int));
            assert(right =~= right.take(at as int));
        }
    } else if left[at as int] == right[at as int] {
        assert(left.take((at + 1) as int) =~= left.take(at as int).push(left[at as int]));
        assert(right.take((at + 1) as int) =~= right.take(at as int).push(right[at as int]));
        bytes_are_ordered(left, right, at + 1);
    }
}

proof fn bytes_are_transitive(first: Seq<u8>, second: Seq<u8>, third: Seq<u8>, at: nat)
    requires
        bytes_precede(first, second, at),
        bytes_precede(second, third, at),
    ensures
        bytes_precede(first, third, at),
    decreases third.len() - at,
{
    if at < first.len() && at < second.len() && at < third.len() {
        if first[at as int] == second[at as int] && second[at as int] == third[at as int] {
            bytes_are_transitive(first, second, third, at + 1);
        }
    }
}

/// Of two different strings, one comes before the other and not the other way
/// round.
pub proof fn characters_are_ordered(left: Seq<char>, right: Seq<char>)
    ensures
        characters_precede(left, right) || characters_precede(right, left) || left == right,
        !(characters_precede(left, right) && characters_precede(right, left)),
{
    let first = encode_utf8(left);
    let second = encode_utf8(right);
    assert(first.take(0) =~= second.take(0));
    bytes_are_ordered(first, second, 0);
    encode_utf8_decode_utf8(left);
    encode_utf8_decode_utf8(right);
}

/// Of two problems that are not alike, one is shown before the other and not
/// the other way round.
pub proof fn ranks_are_ordered(left: Rank, right: Rank)
    ensures
        left.precedes(right) || right.precedes(left) || left == right,
        !(left.precedes(right) && right.precedes(left)),
{
    reveal(Rank::precedes);
    characters_are_ordered(left.code, right.code);
    characters_are_ordered(left.message, right.message);
}

/// What is shown before a problem is shown before all that follow it.
pub proof fn ranks_are_transitive(first: Rank, second: Rank, third: Rank)
    requires
        first.precedes(second),
        second.precedes(third),
    ensures
        first.precedes(third),
{
    reveal(Rank::precedes);
    if first.span == second.span && second.span == third.span {
        ranks_are_ordered(first, second);
        characters_are_ordered(first.code, second.code);
        characters_are_ordered(second.code, third.code);
        characters_are_ordered(first.code, third.code);
        if first.code != second.code && second.code != third.code {
            bytes_are_transitive(
                encode_utf8(first.code),
                encode_utf8(second.code),
                encode_utf8(third.code),
                0,
            );
        } else if first.code == second.code && second.code == third.code {
            bytes_are_transitive(
                encode_utf8(first.message),
                encode_utf8(second.message),
                encode_utf8(third.message),
                0,
            );
        }
    }
}

/// A problem as it is shown.
fn report_of<'a>(problem: &Diagnostic<'a>) -> (report: Report<'a>)
    ensures
        report.shows(*problem),
{
    Report {
        code: problem.code,
        message: show(&problem.message),
        help: match &problem.help {
            Some(help) => Some(show(help)),
            None => None,
        },
        span: problem.span,
    }
}

/// Whether a report is shown before another.
fn comes_before(left: &Report, right: &Report) -> (before: bool)
    ensures
        before == left.rank().precedes(right.rank()),
{
    reveal(Rank::precedes);
    if left.span.start != right.span.start {
        left.span.start < right.span.start
    } else if left.span.end != right.span.end {
        left.span.end < right.span.end
    } else if !same(left.code, right.code) {
        precedes(left.code, right.code)
    } else {
        precedes(left.message.as_str(), right.message.as_str())
    }
}

/// Whether two reports are alike.
fn is_alike(left: &Report, right: &Report) -> (alike: bool)
    ensures
        alike == (left.rank() == right.rank()),
{
    left.span.start == right.span.start && left.span.end == right.span.end && same(
        left.code,
        right.code,
    ) && same(left.message.as_str(), right.message.as_str())
}

/// The problem that a report shows.
proof fn shown_problem(problems: Seq<Diagnostic>, reports: Seq<Report>, i: int) -> (at: int)
    requires
        sound(problems, reports),
        0 <= i < reports.len(),
    ensures
        is_first(problems, at),
        0 <= at < problems.len(),
        reports[i].shows(problems[at]),
{
    reveal(sound);
    reveal(is_first);
    choose|at: int| #[trigger] is_first(problems, at) && reports[i].shows(problems[at])
}

/// The report that stands for a problem.
proof fn report_for(problems: Seq<Diagnostic>, reports: Seq<Report>, at: int) -> (i: int)
    requires
        covering(problems, reports),
        0 <= at < problems.len(),
    ensures
        0 <= i < reports.len(),
        reports[i].rank() == rank(problems[at]),
{
    reveal(covering);
    assert(covers(reports, problems[at]));
    choose|i: int| 0 <= i < reports.len() && (#[trigger] reports[i]).rank() == rank(problems[at])
}

proof fn first_stays_first(problems: Seq<Diagnostic>, problem: Diagnostic, at: int)
    requires
        is_first(problems, at),
    ensures
        is_first(problems.push(problem), at),
        problems.push(problem)[at] == problems[at],
{
    reveal(is_first);
    let more = problems.push(problem);
    assert forall|earlier: int| 0 <= earlier < at implies rank(#[trigger] more[earlier]) != rank(
        more[at],
    ) by {
        assert(more[earlier] == problems[earlier]);
    }
}

proof fn alike_is_covered(
    problems: Seq<Diagnostic>,
    reports: Seq<Report>,
    problem: Diagnostic,
    like: int,
)
    requires
        lists(problems, reports),
        0 <= like < reports.len(),
        reports[like].rank() == rank(problem),
    ensures
        lists(problems.push(problem), reports),
{
    let more = problems.push(problem);
    assert(sound(more, reports)) by {
        assert forall|i: int| 0 <= i < reports.len() implies exists|at: int| #[trigger]
            is_first(more, at) && (#[trigger] reports[i]).shows(more[at]) by {
            let at = shown_problem(problems, reports, i);
            first_stays_first(problems, problem, at);
            assert(is_first(more, at) && reports[i].shows(more[at]));
        }
        reveal(sound);
    }
    assert(covering(more, reports)) by {
        assert forall|at: int| 0 <= at < more.len() implies covers(
            reports,
            #[trigger] more[at],
        ) by {
            if at < problems.len() {
                let i = report_for(problems, reports, at);
                assert(reports[i].rank() == rank(more[at]));
            } else {
                assert(reports[like].rank() == rank(more[at]));
            }
        }
        reveal(covering);
    }
}

proof fn insertion_is_ordered(reports: Seq<Report>, report: Report, position: int)
    requires
        ordered(reports),
        0 <= position <= reports.len(),
        forall|i: int| 0 <= i < position ==> (#[trigger] reports[i]).rank().precedes(report.rank()),
        forall|i: int|
            position <= i < reports.len() ==> report.rank().precedes((#[trigger] reports[i]).rank()),
    ensures
        ordered(reports.insert(position, report)),
{
    reveal(ordered);
    let more = reports.insert(position, report);
    assert forall|i: int, j: int| 0 <= i < j < more.len() implies (
    #[trigger] more[i]).rank().precedes((#[trigger] more[j]).rank()) by {
        let left = if i < position { i } else { i - 1 };
        let right = if j < position { j } else { j - 1 };
        if i != position {
            assert(more[i] == reports[left]);
        }
        if j != position {
            assert(more[j] == reports[right]);
        }
    }
}

proof fn insertion_is_sound(
    problems: Seq<Diagnostic>,
    reports: Seq<Report>,
    problem: Diagnostic,
    report: Report,
    position: int,
)
    requires
        lists(problems, reports),
        report.shows(problem),
        0 <= position <= reports.len(),
        forall|i: int| 0 <= i < reports.len() ==> (#[trigger] reports[i]).rank() != report.rank(),
    ensures
        sound(problems.push(problem), reports.insert(position, report)),
{
    let more = problems.push(problem);
    let told = reports.insert(position, report);
    let last = problems.len() as int;
    assert(is_first(more, last)) by {
        assert forall|earlier: int| 0 <= earlier < last implies rank(#[trigger] more[earlier])
            != rank(more[last]) by {
            let i = report_for(problems, reports, earlier);
            assert(reports[i].rank() != report.rank());
        }
        reveal(is_first);
    }
    assert forall|i: int| 0 <= i < told.len() implies exists|at: int| #[trigger]
        is_first(more, at) && (#[trigger] told[i]).shows(more[at]) by {
        if i == position {
            assert(is_first(more, last) && told[i].shows(more[last]));
        } else {
            let from = if i < position { i } else { i - 1 };
            assert(told[i] == reports[from]);
            let at = shown_problem(problems, reports, from);
            first_stays_first(problems, problem, at);
            assert(is_first(more, at) && told[i].shows(more[at]));
        }
    }
    reveal(sound);
}

proof fn insertion_is_covering(
    problems: Seq<Diagnostic>,
    reports: Seq<Report>,
    problem: Diagnostic,
    report: Report,
    position: int,
)
    requires
        covering(problems, reports),
        report.shows(problem),
        0 <= position <= reports.len(),
    ensures
        covering(problems.push(problem), reports.insert(position, report)),
{
    let more = problems.push(problem);
    let told = reports.insert(position, report);
    assert forall|at: int| 0 <= at < more.len() implies covers(told, #[trigger] more[at]) by {
        if at < problems.len() {
            let i = report_for(problems, reports, at);
            let moved = if i < position { i } else { i + 1 };
            assert(told[moved] == reports[i]);
            assert(told[moved].rank() == rank(more[at]));
        } else {
            assert(told[position] == report);
            assert(told[position].rank() == rank(more[at]));
        }
    }
    reveal(covering);
}

/// Adds a report to others that stand in order, unless there is one like it.
fn insert_report<'a>(
    reports: &mut Vec<Report<'a>>,
    report: Report<'a>,
    Ghost(problems): Ghost<Seq<Diagnostic<'a>>>,
    Ghost(problem): Ghost<Diagnostic<'a>>,
)
    requires
        lists(problems, old(reports)@),
        report.shows(problem),
    ensures
        lists(problems.push(problem), final(reports)@),
{
    let ghost told = reports@;
    let mut index: usize = 0;
    while index < reports.len() && comes_before(&reports[index], &report)
        invariant
            index <= reports@.len(),
            reports@ == told,
            forall|i: int| 0 <= i < index ==> (#[trigger] told[i]).rank().precedes(report.rank()),
        decreases reports@.len() - index,
    {
        index = index + 1;
    }
    if index < reports.len() && is_alike(&reports[index], &report) {
        proof {
            alike_is_covered(problems, told, problem, index as int);
        }
        return;
    }
    proof {
        let position = index as int;
        if index < told.len() {
            ranks_are_ordered(told[position].rank(), report.rank());
        }
        assert forall|i: int| position <= i < told.len() implies report.rank().precedes(
            (#[trigger] told[i]).rank(),
        ) by {
            reveal(ordered);
            if i > position {
                ranks_are_transitive(report.rank(), told[position].rank(), told[i].rank());
            }
        }
        assert forall|i: int| 0 <= i < told.len() implies (#[trigger] told[i]).rank()
            != report.rank() by {
            ranks_are_ordered(report.rank(), told[i].rank());
            if i < position {
                assert(told[i].rank().precedes(report.rank()));
            } else {
                assert(report.rank().precedes(told[i].rank()));
            }
        }
        insertion_is_ordered(told, report, position);
        insertion_is_sound(problems, told, problem, report, position);
        insertion_is_covering(problems, told, problem, report, position);
    }
    reports.insert(index, report);
}

/// The problems in the order of the source text, without repetition.
pub fn in_order<'a>(problems: &Vec<Diagnostic<'a>>) -> (reports: Vec<Report<'a>>)
    ensures
        lists(problems@, reports@),
{
    let mut reports: Vec<Report<'a>> = Vec::new();
    let mut index: usize = 0;
    proof {
        reveal(ordered);
        reveal(sound);
        reveal(covering);
    }
    while index < problems.len()
        invariant
            index <= problems@.len(),
            lists(problems@.take(index as int), reports@),
        decreases problems@.len() - index,
    {
        let report = report_of(&problems[index]);
        insert_report(
            &mut reports,
            report,
            Ghost(problems@.take(index as int)),
            Ghost(problems@[index as int]),
        );
        assert(problems@.take(index + 1) =~= problems@.take(index as int).push(
            problems@[index as int],
        ));
        index = index + 1;
    }
    assert(problems@.take(index as int) =~= problems@);
    reports
}

/// Which reports are shown for some problems does not depend on chance: any two
/// lists of reports for the same problems say the same.
pub proof fn reports_are_determined(
    problems: Seq<Diagnostic>,
    left: Seq<Report>,
    right: Seq<Report>,
)
    requires
        lists(problems, left),
        lists(problems, right),
    ensures
        left.len() == right.len(),
        forall|i: int|
            0 <= i < left.len() ==> (#[trigger] left[i]).rank() == (#[trigger] right[i]).rank(),
{
    if left.len() <= right.len() {
        prefix_is_determined(problems, left, right, left.len());
        no_more_reports(problems, left, right);
    } else {
        prefix_is_determined(problems, right, left, right.len());
        no_more_reports(problems, right, left);
    }
}

/// Where a report of one list stands in another list of the same problems.
proof fn same_report(
    problems: Seq<Diagnostic>,
    left: Seq<Report>,
    right: Seq<Report>,
    i: int,
) -> (j: int)
    requires
        lists(problems, left),
        lists(problems, right),
        0 <= i < left.len(),
    ensures
        0 <= j < right.len(),
        right[j].rank() == left[i].rank(),
{
    let at = shown_problem(problems, left, i);
    report_for(problems, right, at)
}

/// A report stands before those that follow it, and is not like them.
proof fn later_reports_differ(reports: Seq<Report>, i: int, j: int)
    requires
        ordered(reports),
        0 <= i < j < reports.len(),
    ensures
        reports[i].rank().precedes(reports[j].rank()),
        reports[i].rank() != reports[j].rank(),
{
    reveal(ordered);
    ranks_are_ordered(reports[i].rank(), reports[j].rank());
}

proof fn prefix_is_determined(
    problems: Seq<Diagnostic>,
    left: Seq<Report>,
    right: Seq<Report>,
    count: nat,
)
    requires
        lists(problems, left),
        lists(problems, right),
        count <= left.len(),
        count <= right.len(),
    ensures
        forall|i: int|
            0 <= i < count ==> (#[trigger] left[i]).rank() == (#[trigger] right[i]).rank(),
    decreases count,
{
    if count > 0 {
        let last = count - 1;
        prefix_is_determined(problems, left, right, (count - 1) as nat);
        let j = same_report(problems, left, right, last);
        let k = same_report(problems, right, left, last);
        if j < last {
            later_reports_differ(left, j, last);
        }
        if k < last {
            later_reports_differ(right, k, last);
        }
        if j > last && k > last {
            later_reports_differ(right, last, j);
            later_reports_differ(left, last, k);
            ranks_are_ordered(left[last].rank(), right[last].rank());
        }
        assert(left[last].rank() == right[last].rank());
    }
}

proof fn no_more_reports(problems: Seq<Diagnostic>, left: Seq<Report>, right: Seq<Report>)
    requires
        lists(problems, left),
        lists(problems, right),
        left.len() <= right.len(),
        forall|i: int|
            0 <= i < left.len() ==> (#[trigger] left[i]).rank() == (#[trigger] right[i]).rank(),
    ensures
        left.len() == right.len(),
{
    if left.len() < right.len() {
        let extra = left.len() as int;
        let k = same_report(problems, right, left, extra);
        later_reports_differ(right, k, extra);
    }
}

} // verus!
