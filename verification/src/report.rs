//! The operator's report: every stored click on a line of its own, the lines
//! parted by a blank line, in the order in which the store returned them.

use crate::record::{StoredClick, StoredClickView};
use crate::response::{plain_text_view, store_failure_view, Response, ResponseView};
use crate::store::StoreError;
use vstd::prelude::*;

verus! {

/// What parts two lines of the report: the end of one line and an empty line.
pub const LINE_SEPARATOR: &'static str = "\n\n";

/// The line of one click.
pub open spec fn report_line_of(click: StoredClickView) -> Seq<char> {
    "Email: "@ + click.record.email + ", IP: "@ + click.record.ip_address + ", User Agent: "@
        + click.record.user_agent + ", Time: "@ + click.clicked_at
}

/// The report of `clicks`: empty for no clicks, else the line of each click
/// in turn, with [`LINE_SEPARATOR`] between one line and the next.
pub open spec fn report_of(clicks: Seq<StoredClickView>) -> Seq<char>
    decreases clicks.len(),
{
    if clicks.len() == 0 {
        Seq::empty()
    } else if clicks.len() == 1 {
        report_line_of(clicks[0])
    } else {
        report_of(clicks.drop_last()) + LINE_SEPARATOR@ + report_line_of(clicks.last())
    }
}

/// The views of the clicks in a vector, in order.
pub open spec fn clicks_of(clicks: Seq<StoredClick>) -> Seq<StoredClickView> {
    clicks.map_values(|click: StoredClick| click@)
}

/// The answer to a request for the report, given what the store returned.
pub open spec fn admin_stats_of(listed: Result<Seq<StoredClickView>, StoreError>) -> ResponseView {
    match listed {
        Ok(clicks) => plain_text_view(report_of(clicks)),
        Err(_) => store_failure_view(),
    }
}

/// What the store returned for the report, with each click by its view.
pub open spec fn listed_view(listed: Result<Vec<StoredClick>, StoreError>) -> Result<
    Seq<StoredClickView>,
    StoreError,
> {
    match listed {
        Ok(clicks) => Ok(clicks_of(clicks@)),
        Err(error) => Err(error),
    }
}

/// Renders the line of one click:
/// `Email: <email>, IP: <address>, User Agent: <agent>, Time: <time>`.
pub fn report_line(click: &StoredClick) -> (line: String)
    ensures
        line@ == report_line_of(click@),
{
    let mut line = String::from_str("Email: ");
    line.append(click.record.email.as_str());
    line.append(", IP: ");
    line.append(click.record.ip_address.as_str());
    line.append(", User Agent: ");
    line.append(click.record.user_agent.as_str());
    line.append(", Time: ");
    line.append(click.clicked_at.as_str());
    line
}

/// Renders the report of `clicks`, keeping their order.
pub fn render_report(clicks: &Vec<StoredClick>) -> (report: String)
    ensures
        report@ == report_of(clicks_of(clicks@)),
{
    let mut report = String::new();
    let mut i: usize = 0;
    while i < clicks.len()
        invariant
            i <= clicks.len(),
            report@ == report_of(clicks_of(clicks@).take(i as int)),
        decreases clicks.len() - i,
    {
        let ghost done = clicks_of(clicks@).take(i as int);
        let ghost next = clicks_of(clicks@).take(i as int + 1);
        assert(next.drop_last() =~= done);
        assert(next.last() == clicks@[i as int]@);
        if i > 0 {
            report.append(LINE_SEPARATOR);
        }
        let line = report_line(&clicks[i]);
        report.append(line.as_str());
        i += 1;
        assert(report@ =~= report_of(next));
    }
    assert(clicks_of(clicks@).take(i as int) =~= clicks_of(clicks@));
    report
}

/// Answers a request for the report, given what the store returned: the
/// report as plain text with status 200, or status 500 when the store failed.
/// Nothing of a failed listing is shown.
pub fn admin_stats(listed: Result<Vec<StoredClick>, StoreError>) -> (response: Response)
    ensures
        response@ == admin_stats_of(listed_view(listed)),
{
    match listed {
        Ok(clicks) => Response::plain_text(render_report(&clicks)),
        Err(_) => Response::store_failure(),
    }
}

/// The report has one line for each click and keeps their order: the report
/// of two lists of clicks, one after the other, is the report of the first,
/// the separator, and the report of the second.
pub proof fn lemma_report_of_concatenation(
    first: Seq<StoredClickView>,
    second: Seq<StoredClickView>,
)
    requires
        first.len() > 0,
        second.len() > 0,
    ensures
        report_of(first + second) == report_of(first) + LINE_SEPARATOR@ + report_of(second),
    decreases second.len(),
{
    let all = first + second;
    assert(all.drop_last() =~= first + second.drop_last());
    assert(all.last() == second.last());
    if second.len() == 1 {
        assert(first + second.drop_last() =~= first);
    } else {
        lemma_report_of_concatenation(first, second.drop_last());
        assert(report_of(all) =~= report_of(first) + LINE_SEPARATOR@ + report_of(second));
    }
}

/// Where the line of the click at `index` starts in the report of `clicks`:
/// at the beginning for the first click, else one separator after the report
/// of the clicks before it.
pub open spec fn line_start(clicks: Seq<StoredClickView>, index: int) -> int {
    if index == 0 {
        0
    } else {
        (report_of(clicks.take(index)).len() + LINE_SEPARATOR@.len()) as int
    }
}

/// Where the line of the click at `index` ends in the report of `clicks`.
pub open spec fn line_end(clicks: Seq<StoredClickView>, index: int) -> int {
    line_start(clicks, index) + report_line_of(clicks[index]).len()
}

/// The report shows every click it was given, in the order given: the line
/// of each click stands in the report from [`line_start`] to [`line_end`],
/// the line of the next click starts exactly one separator after that, and
/// the report ends with the line of the last click.
pub proof fn lemma_report_shows_every_click(clicks: Seq<StoredClickView>, index: int)
    requires
        0 <= index < clicks.len(),
    ensures
        0 <= line_start(clicks, index) <= line_end(clicks, index) <= report_of(clicks).len(),
        report_of(clicks).subrange(line_start(clicks, index), line_end(clicks, index))
            == report_line_of(clicks[index]),
        index + 1 < clicks.len() ==> line_start(clicks, index + 1) == line_end(clicks, index)
            + LINE_SEPARATOR@.len(),
        index + 1 == clicks.len() ==> line_end(clicks, index) == report_of(clicks).len(),
{
    let line = report_line_of(clicks[index]);
    let before = clicks.take(index);
    let upto = clicks.take(index + 1);
    let after = clicks.skip(index + 1);
    let start = line_start(clicks, index);
    let end = line_end(clicks, index);
    assert(upto =~= before + seq![clicks[index]]);
    assert(report_of(seq![clicks[index]]) == line);
    if index > 0 {
        lemma_report_of_concatenation(before, seq![clicks[index]]);
    } else {
        assert(upto =~= seq![clicks[index]]);
    }
    assert(report_of(upto).len() == end);
    assert(report_of(upto).subrange(start, end) =~= line);
    assert(clicks =~= upto + after);
    if index + 1 < clicks.len() {
        lemma_report_of_concatenation(upto, after);
        assert(report_of(clicks).subrange(start, end) =~= line);
    }
}

} // verus!
