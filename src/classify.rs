//! Sorting issues into priority buckets by their labels.

use vstd::prelude::*;
use crate::models::{GetIssueError, Issue, IssueView, Label, LabelView, SortedIssues, labels_view};

verus! {

pub const HIGH_LABEL: &'static str = "Priority: High";
pub const MEDIUM_LABEL: &'static str = "Priority: Medium";
pub const LOW_LABEL: &'static str = "Priority: Low";

/// The bucket an issue belongs to.
#[derive(Debug, Clone, Copy, PartialEq, Eq, Structural)]
pub enum Priority {
    High,
    Medium,
    Low,
    Unprioritized,
}

/// Some label of the list has exactly this name.
pub open spec fn has_label(labels: Seq<LabelView>, name: Seq<char>) -> bool {
    exists|k: int| 0 <= k < labels.len() && #[trigger] labels[k].name == name
}

/// First match wins: High, then Medium, then Low; an issue without labels,
/// or without any of the three, has no priority.
pub open spec fn priority_of(issue: IssueView) -> Priority {
    match issue.labels {
        None => Priority::Unprioritized,
        Some(labels) => if has_label(labels, HIGH_LABEL@) {
            Priority::High
        } else if has_label(labels, MEDIUM_LABEL@) {
            Priority::Medium
        } else if has_label(labels, LOW_LABEL@) {
            Priority::Low
        } else {
            Priority::Unprioritized
        },
    }
}

/// The issues of `issues` whose priority is `p`, in input order.
pub open spec fn bucket(issues: Seq<Issue>, p: Priority) -> Seq<Issue> {
    issues.filter(|i: Issue| priority_of(i@) == p)
}

fn labels_contain(labels: &Vec<Label>, name: &String) -> (r: bool)
    ensures
        r == has_label(labels_view(labels@), name@),
{
    let ghost lv = labels_view(labels@);
    let mut i: usize = 0;
    while i < labels.len()
        invariant
            0 <= i <= labels@.len(),
            lv == labels_view(labels@),
            forall|k: int| 0 <= k < i ==> lv[k].name != name@,
        decreases labels@.len() - i,
    {
        if labels[i].name == *name {
            assert(lv[i as int].name == name@);
            return true;
        }
        i = i + 1;
    }
    false
}

/// The priority bucket of one issue.
pub fn issue_priority(issue: &Issue) -> (p: Priority)
    ensures
        p == priority_of(issue@),
{
    match &issue.labels {
        None => Priority::Unprioritized,
        Some(labels) => {
            if labels_contain(labels, &String::from_str(HIGH_LABEL)) {
                Priority::High
            } else if labels_contain(labels, &String::from_str(MEDIUM_LABEL)) {
                Priority::Medium
            } else if labels_contain(labels, &String::from_str(LOW_LABEL)) {
                Priority::Low
            } else {
                Priority::Unprioritized
            }
        },
    }
}

/// Appending an issue extends exactly the bucket of its priority.
pub proof fn lemma_bucket_push(issues: Seq<Issue>, x: Issue, p: Priority)
    ensures
        bucket(issues.push(x), p) == if priority_of(x@) == p {
            bucket(issues, p).push(x)
        } else {
            bucket(issues, p)
        },
{
    reveal(Seq::filter);
    assert(issues.push(x).drop_last() =~= issues);
}

/// No issues, no bucket holds anything.
pub proof fn lemma_bucket_empty(p: Priority)
    ensures
        bucket(Seq::empty(), p) == Seq::<Issue>::empty(),
{
    reveal(Seq::filter);
}

/// Classification is a partition: the four buckets together hold each input
/// issue exactly as often as the input does, so their lengths add up to the
/// input's; and an issue sits only in the bucket of its own priority.
pub proof fn lemma_sorting_is_partition(issues: Seq<Issue>)
    ensures
        bucket(issues, Priority::High).len() + bucket(issues, Priority::Medium).len()
            + bucket(issues, Priority::Low).len() + bucket(issues, Priority::Unprioritized).len()
            == issues.len(),
        bucket(issues, Priority::High).to_multiset().add(
            bucket(issues, Priority::Medium).to_multiset(),
        ).add(bucket(issues, Priority::Low).to_multiset()).add(
            bucket(issues, Priority::Unprioritized).to_multiset(),
        ) == issues.to_multiset(),
        forall|x: Issue| #[trigger]
            issues.contains(x) ==> bucket(issues, priority_of(x@)).contains(x),
        forall|x: Issue, p: Priority| #[trigger]
            bucket(issues, p).contains(x) ==> issues.contains(x) && priority_of(x@) == p,
    decreases issues.len(),
{
    broadcast use vstd::seq_lib::group_to_multiset_ensures;

    if issues.len() == 0 {
        lemma_bucket_empty(Priority::High);
        lemma_bucket_empty(Priority::Medium);
        lemma_bucket_empty(Priority::Low);
        lemma_bucket_empty(Priority::Unprioritized);
        assert(issues =~= Seq::<Issue>::empty());
        assert(bucket(issues, Priority::High).to_multiset().add(
            bucket(issues, Priority::Medium).to_multiset(),
        ).add(bucket(issues, Priority::Low).to_multiset()).add(
            bucket(issues, Priority::Unprioritized).to_multiset(),
        ) =~= issues.to_multiset());
    } else {
        let init = issues.drop_last();
        let x = issues.last();
        assert(init.push(x) =~= issues);
        lemma_sorting_is_partition(init);
        lemma_bucket_push(init, x, Priority::High);
        lemma_bucket_push(init, x, Priority::Medium);
        lemma_bucket_push(init, x, Priority::Low);
        lemma_bucket_push(init, x, Priority::Unprioritized);
        assert(bucket(issues, Priority::High).to_multiset().add(
            bucket(issues, Priority::Medium).to_multiset(),
        ).add(bucket(issues, Priority::Low).to_multiset()).add(
            bucket(issues, Priority::Unprioritized).to_multiset(),
        ) =~= issues.to_multiset());
        assert forall|y: Issue| #[trigger] issues.contains(y) implies bucket(
            issues,
            priority_of(y@),
        ).contains(y) by {
            if y != x {
                let k = choose|k: int| 0 <= k < issues.len() && issues[k] == y;
                assert(init[k] == y);
                assert(init.contains(y));
                let b = bucket(init, priority_of(y@));
                let j = choose|j: int| 0 <= j < b.len() && b[j] == y;
                assert(bucket(issues, priority_of(y@))[j] == y);
            } else {
                let b = bucket(issues, priority_of(y@));
                assert(b[b.len() - 1] == y);
            }
        }
        assert forall|y: Issue, p: Priority| #[trigger]
            bucket(issues, p).contains(y) implies issues.contains(y) && priority_of(y@) == p by {
            let b = bucket(issues, p);
            let j = choose|j: int| 0 <= j < b.len() && b[j] == y;
            if priority_of(x@) == p && j == b.len() - 1 {
                assert(issues[issues.len() - 1] == y);
            } else {
                assert(bucket(init, p)[j] == y);
                assert(bucket(init, p).contains(y));
                let k = choose|k: int| 0 <= k < init.len() && init[k] == y;
                assert(issues[k] == y);
            }
        }
    }
}

/// Precedence: an issue that carries the High label lands in the high bucket,
/// whatever else it carries (a Low label, a Medium label), and in no other.
pub proof fn lemma_high_label_wins(issues: Seq<Issue>, x: Issue)
    requires
        issues.contains(x),
        x@.labels matches Some(labels) && has_label(labels, HIGH_LABEL@),
    ensures
        bucket(issues, Priority::High).contains(x),
        !bucket(issues, Priority::Medium).contains(x),
        !bucket(issues, Priority::Low).contains(x),
        !bucket(issues, Priority::Unprioritized).contains(x),
{
    lemma_sorting_is_partition(issues);
}

/// An issue with no label list, or an empty one, lands in the bucket of
/// issues without priority, and in no other.
pub proof fn lemma_unlabeled_has_no_priority(issues: Seq<Issue>, x: Issue)
    requires
        issues.contains(x),
        x@.labels matches Some(labels) ==> labels.len() == 0,
    ensures
        bucket(issues, Priority::Unprioritized).contains(x),
        !bucket(issues, Priority::High).contains(x),
        !bucket(issues, Priority::Medium).contains(x),
        !bucket(issues, Priority::Low).contains(x),
{
    lemma_sorting_is_partition(issues);
}

/// The whole of an issue list, sorted into its four buckets.
pub open spec fn is_sorting_of(issues: Seq<Issue>, r: SortedIssues) -> bool {
    &&& r.priority_high_issues@ == bucket(issues, Priority::High)
    &&& r.priority_medium_issues@ == bucket(issues, Priority::Medium)
    &&& r.priority_low_issues@ == bucket(issues, Priority::Low)
    &&& r.priority_none_issues@ == bucket(issues, Priority::Unprioritized)
}

/// Sorts fetched issues into priority buckets; a fetch error passes through
/// with its message.
pub fn sort_issues(issues: Result<Vec<Issue>, GetIssueError>) -> (r: Result<
    SortedIssues,
    GetIssueError,
>)
    ensures
        match issues {
            Ok(v) => r matches Ok(s) && is_sorting_of(v@, s),
            Err(e) => r matches Err(e2) && e2@ == e@,
        },
{
    match issues {
        Err(e) => Err(GetIssueError { message: e.message }),
        Ok(v) => {
            let ghost all = v@;
            let mut sorted = SortedIssues::default();
            proof {
                assert(all.take(0) =~= Seq::<Issue>::empty());
                lemma_bucket_empty(Priority::High);
                lemma_bucket_empty(Priority::Medium);
                lemma_bucket_empty(Priority::Low);
                lemma_bucket_empty(Priority::Unprioritized);
                assert(sorted.priority_high_issues@ =~= bucket(all.take(0), Priority::High));
                assert(sorted.priority_medium_issues@ =~= bucket(all.take(0), Priority::Medium));
                assert(sorted.priority_low_issues@ =~= bucket(all.take(0), Priority::Low));
                assert(sorted.priority_none_issues@ =~= bucket(all.take(0), Priority::Unprioritized));
            }
            for issue in it: v.into_iter()
                invariant
                    it.seq() == all,
                    is_sorting_of(all.take(it.index() as int), sorted),
            {
                let ghost n = it.index() as int;
                let p = issue_priority(&issue);
                proof {
                    assert(all.take(n + 1) =~= all.take(n).push(all[n]));
                    assert(issue == all[n]);
                    lemma_bucket_push(all.take(n), issue, Priority::High);
                    lemma_bucket_push(all.take(n), issue, Priority::Medium);
                    lemma_bucket_push(all.take(n), issue, Priority::Low);
                    lemma_bucket_push(all.take(n), issue, Priority::Unprioritized);
                }
                match p {
                    Priority::High => sorted.priority_high_issues.push(issue),
                    Priority::Medium => sorted.priority_medium_issues.push(issue),
                    Priority::Low => sorted.priority_low_issues.push(issue),
                    Priority::Unprioritized => sorted.priority_none_issues.push(issue),
                }
            }
            assert(all.take(all.len() as int) =~= all);
            Ok(sorted)
        },
    }
}

} // verus!
