//! Rendering sorted issues, or a fetch error, as a chat message.

use vstd::prelude::*;
use crate::message::{MessageView, BlockView, SlackMessageBlocks, section_block, header_block, MESSAGE_TYPE};
use crate::models::{GetIssueError, Issue, IssueView, LabelView, SortedIssues, SortedIssuesView, issues_view, labels_view};

verus! {

pub const MENTION_TEXT: &'static str = "<!channel>\n";
pub const TITLE_TEXT: &'static str = "タスク一覧";
pub const HIGH_HEADER: &'static str = "*優先度: 高*";
pub const MEDIUM_HEADER: &'static str = "*優先度: 中*";
pub const LOW_HEADER: &'static str = "*優先度: 低*";
pub const NONE_HEADER: &'static str = "*優先度: なし*";

/// Each label name followed by one space, in order.
pub open spec fn label_segment(labels: Seq<LabelView>) -> Seq<char>
    decreases labels.len(),
{
    if labels.len() == 0 {
        Seq::empty()
    } else {
        label_segment(labels.drop_last()) + labels.last().name + " "@
    }
}

/// The label part of an issue's line; empty when the issue has no label list.
pub open spec fn labels_text(issue: IssueView) -> Seq<char> {
    match issue.labels {
        Some(labels) => label_segment(labels),
        None => Seq::empty(),
    }
}

/// `- <issue_url|title>(<repo_url|repo_name>): labels` and a line break.
pub open spec fn issue_line(issue: IssueView) -> Seq<char> {
    "- <"@ + issue.html_url + "|"@ + issue.title + ">(<"@ + issue.repository.html_url + "|"@
        + issue.repository.name + ">): "@ + labels_text(issue) + "\n"@
}

/// The lines of the issues, one after the other.
pub open spec fn issue_lines(issues: Seq<IssueView>) -> Seq<char>
    decreases issues.len(),
{
    if issues.len() == 0 {
        Seq::empty()
    } else {
        issue_lines(issues.drop_last()) + issue_line(issues.last())
    }
}

/// A bucket's text: its header on a line of its own, then its issues.
pub open spec fn text_with_header(header: Seq<char>, issues: Seq<IssueView>) -> Seq<char> {
    header + "\n"@ + issue_lines(issues)
}

/// The block of one bucket: none when the bucket is empty.
pub open spec fn bucket_blocks(header: Seq<char>, issues: Seq<IssueView>) -> Seq<BlockView> {
    if issues.len() == 0 {
        Seq::empty()
    } else {
        seq![section_block(text_with_header(header, issues))]
    }
}

/// The blocks of a successful fetch: mention, title, then one section per
/// non-empty bucket from High down to no priority.
pub open spec fn success_blocks(s: SortedIssuesView) -> Seq<BlockView> {
    seq![section_block(MENTION_TEXT@), header_block(TITLE_TEXT@)] + bucket_blocks(HIGH_HEADER@, s.high)
        + bucket_blocks(MEDIUM_HEADER@, s.medium) + bucket_blocks(LOW_HEADER@, s.low)
        + bucket_blocks(NONE_HEADER@, s.none)
}

/// The message for a classification outcome; an error gives a single section
/// holding its message.
pub open spec fn rendered_message(outcome: Result<SortedIssuesView, Seq<char>>) -> MessageView {
    MessageView {
        blocks_type: MESSAGE_TYPE@,
        blocks: match outcome {
            Ok(s) => success_blocks(s),
            Err(message) => seq![section_block(message)],
        },
    }
}

pub open spec fn outcome_view(r: Result<SortedIssues, GetIssueError>) -> Result<SortedIssuesView, Seq<char>> {
    match r {
        Ok(s) => Ok(s@),
        Err(e) => Err(e@),
    }
}

/// How many of the four buckets hold at least one issue.
pub open spec fn non_empty_buckets(s: SortedIssuesView) -> nat {
    (if s.high.len() > 0 { 1nat } else { 0nat }) + (if s.medium.len() > 0 { 1nat } else { 0nat })
        + (if s.low.len() > 0 { 1nat } else { 0nat }) + (if s.none.len() > 0 { 1nat } else { 0nat })
}

/// Rendering depends on the content alone: outcomes with equal views render
/// to equal messages, character for character.
pub proof fn lemma_rendering_is_deterministic(
    a: Result<SortedIssues, GetIssueError>,
    b: Result<SortedIssues, GetIssueError>,
)
    requires
        outcome_view(a) == outcome_view(b),
    ensures
        rendered_message(outcome_view(a)) == rendered_message(outcome_view(b)),
{
}

/// An empty bucket gets no section: a successful message has the mention,
/// the title and one block per non-empty bucket.
pub proof fn lemma_block_count(s: SortedIssuesView)
    ensures
        rendered_message(Ok(s)).blocks.len() == 2 + non_empty_buckets(s),
        rendered_message(Ok(s)).blocks[0] == section_block(MENTION_TEXT@),
        rendered_message(Ok(s)).blocks[1] == header_block(TITLE_TEXT@),
{
}

/// One line of the message for one issue.
pub fn generate_text_for_issue(issue: &Issue) -> (r: String)
    ensures
        r@ == issue_line(issue@),
{
    let mut label_names = String::new();
    match &issue.labels {
        Some(labels) => {
            let ghost lv = labels_view(labels@);
            let mut i: usize = 0;
            while i < labels.len()
                invariant
                    0 <= i <= labels@.len(),
                    lv == labels_view(labels@),
                    label_names@ == label_segment(lv.take(i as int)),
                decreases labels@.len() - i,
            {
                assert(lv.take(i as int + 1).drop_last() =~= lv.take(i as int));
                label_names.append(labels[i].name.as_str());
                label_names.append(" ");
                i = i + 1;
            }
            assert(lv.take(i as int) =~= lv);
        },
        None => {},
    }
    let mut text = String::from_str("- <");
    text.append(issue.html_url.as_str());
    text.append("|");
    text.append(issue.title.as_str());
    text.append(">(<");
    text.append(issue.repository.html_url.as_str());
    text.append("|");
    text.append(issue.repository.name.as_str());
    text.append(">): ");
    text.append(label_names.as_str());
    text.append("\n");
    text
}

/// A bucket's text: the header on its own line, then one line per issue.
pub fn generate_text_with_header(header: &str, issues: &Vec<Issue>) -> (r: String)
    ensures
        r@ == text_with_header(header@, issues_view(issues@)),
{
    let ghost iv = issues_view(issues@);
    let mut text = String::from_str(header);
    text.append("\n");
    let mut i: usize = 0;
    while i < issues.len()
        invariant
            0 <= i <= issues@.len(),
            iv == issues_view(issues@),
            text@ == header@ + "\n"@ + issue_lines(iv.take(i as int)),
        decreases issues@.len() - i,
    {
        assert(iv.take(i as int + 1).drop_last() =~= iv.take(i as int));
        let line = generate_text_for_issue(&issues[i]);
        text.append(line.as_str());
        i = i + 1;
    }
    assert(iv.take(i as int) =~= iv);
    text
}

fn add_bucket(message: &mut SlackMessageBlocks, header: &str, issues: &Vec<Issue>)
    ensures
        final(message)@ == (MessageView {
            blocks_type: old(message)@.blocks_type,
            blocks: old(message)@.blocks + bucket_blocks(header@, issues_view(issues@)),
        }),
{
    if issues.len() == 0 {
        assert(old(message)@.blocks + bucket_blocks(header@, issues_view(issues@)) =~= old(message)@.blocks);
    } else {
        let text = generate_text_with_header(header, issues);
        message.add_text_block(text);
        assert(old(message)@.blocks.push(section_block(text@)) =~= old(message)@.blocks
            + bucket_blocks(header@, issues_view(issues@)));
    }
}

/// The chat message for a classification outcome: on success the channel
/// mention, the title and one section per non-empty bucket; on error one
/// section holding the error's message.
pub fn create_payload_for_slack(issues: Result<SortedIssues, GetIssueError>) -> (r: SlackMessageBlocks)
    ensures
        r@ == rendered_message(outcome_view(issues)),
{
    let mut message_block = SlackMessageBlocks::default();
    match issues {
        Ok(sorted) => {
            message_block.add_text_block(String::from_str(MENTION_TEXT));
            message_block.add_header_block(String::from_str(TITLE_TEXT));
            add_bucket(&mut message_block, HIGH_HEADER, &sorted.priority_high_issues);
            add_bucket(&mut message_block, MEDIUM_HEADER, &sorted.priority_medium_issues);
            add_bucket(&mut message_block, LOW_HEADER, &sorted.priority_low_issues);
            add_bucket(&mut message_block, NONE_HEADER, &sorted.priority_none_issues);
            assert(message_block@.blocks =~= success_blocks(sorted@));
        },
        Err(e) => {
            message_block.add_text_block(e.message);
            assert(message_block@.blocks =~= seq![section_block(e@)]);
        },
    }
    message_block
}

} // verus!
