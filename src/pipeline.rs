//! From the outcome of a fetch to the message that is sent.

use vstd::prelude::*;
use crate::classify::{Priority, bucket, sort_issues};
use crate::fetch::{FetchError, BAD_STATUS_PREFIX, status_text_of};
use crate::message::{SlackMessageBlocks, section_block};
use crate::models::{GetIssueError, Issue, SortedIssuesView, issues_view};
use crate::render::{create_payload_for_slack, rendered_message};

verus! {

/// The four buckets of an issue list, as views.
pub open spec fn sorted_view(issues: Seq<Issue>) -> SortedIssuesView {
    SortedIssuesView {
        high: issues_view(bucket(issues, Priority::High)),
        medium: issues_view(bucket(issues, Priority::Medium)),
        low: issues_view(bucket(issues, Priority::Low)),
        none: issues_view(bucket(issues, Priority::Unprioritized)),
    }
}

/// What the classifier hands the renderer for a fetch outcome.
pub open spec fn classified(fetched: Result<Vec<Issue>, FetchError>) -> Result<
    SortedIssuesView,
    Seq<char>,
> {
    match fetched {
        Ok(v) => Ok(sorted_view(v@)),
        Err(e) => Err(e.message_spec()),
    }
}

/// Classifies fetched issues and renders the message; a failed fetch renders
/// as its error text alone.
pub fn build_notification(fetched: Result<Vec<Issue>, FetchError>) -> (r: SlackMessageBlocks)
    requires
        fetched matches Err(e) ==> e.wf(),
    ensures
        r@ == rendered_message(classified(fetched)),
{
    let issues: Result<Vec<Issue>, GetIssueError> = match fetched {
        Ok(v) => Ok(v),
        Err(e) => Err(e.into_issue_error()),
    };
    let sorted = sort_issues(issues);
    create_payload_for_slack(sorted)
}

/// A response whose status is not 200 gives a message of a single section,
/// which holds the error text made from that status.
pub proof fn lemma_bad_status_single_block(code: u16)
    requires
        100 <= code <= 999,
        code != 200,
    ensures
        rendered_message(classified(Err(FetchError::BadStatus(code)))).blocks == seq![
            section_block(BAD_STATUS_PREFIX@ + status_text_of(code)),
        ],
{
}

} // verus!
