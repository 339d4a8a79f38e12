//! Issues as the tracker returns them, and their mathematical views.

use vstd::prelude::*;

verus! {

/// What a label is: its identifier and its name.
pub struct LabelView {
    pub id: i64,
    pub name: Seq<char>,
}

/// What a repository is.
pub struct RepositoryView {
    pub id: i64,
    pub name: Seq<char>,
    pub html_url: Seq<char>,
}

/// What an issue is. An absent label list stays absent here: it renders and
/// classifies as an empty one.
pub struct IssueView {
    pub id: i64,
    pub title: Seq<char>,
    pub html_url: Seq<char>,
    pub state: Seq<char>,
    pub body: Option<Seq<char>>,
    pub labels: Option<Seq<LabelView>>,
    pub repository: RepositoryView,
    pub label_string: Option<Seq<char>>,
}

/// The four priority buckets, each a sequence of issue views.
pub struct SortedIssuesView {
    pub high: Seq<IssueView>,
    pub medium: Seq<IssueView>,
    pub low: Seq<IssueView>,
    pub none: Seq<IssueView>,
}

/// A label on an issue; its name is matched exactly, case included.
#[derive(Debug, PartialEq, Eq)]
pub struct Label {
    pub id: i64,
    pub name: String,
}

/// The repository an issue belongs to.
#[derive(Debug, PartialEq, Eq)]
pub struct Repository {
    pub id: i64,
    pub name: String,
    pub html_url: String,
}

/// An open issue assigned to the user.
#[derive(Debug, PartialEq, Eq)]
pub struct Issue {
    pub id: i64,
    pub title: String,
    pub html_url: String,
    pub state: String,
    pub body: Option<String>,
    pub labels: Option<Vec<Label>>,
    pub repository: Repository,
    pub label_string: Option<String>,
}

/// Issues partitioned by priority label, each bucket in input order.
#[derive(Debug)]
pub struct SortedIssues {
    pub priority_high_issues: Vec<Issue>,
    pub priority_medium_issues: Vec<Issue>,
    pub priority_low_issues: Vec<Issue>,
    pub priority_none_issues: Vec<Issue>,
}

/// The failure of a fetch, carried as the text that the notification shows.
#[derive(Debug, Clone)]
pub struct GetIssueError {
    pub message: String,
}

impl View for Label {
    type V = LabelView;

    open spec fn view(&self) -> LabelView {
        LabelView { id: self.id, name: self.name@ }
    }
}

impl View for Repository {
    type V = RepositoryView;

    open spec fn view(&self) -> RepositoryView {
        RepositoryView { id: self.id, name: self.name@, html_url: self.html_url@ }
    }
}

pub open spec fn labels_view(labels: Seq<Label>) -> Seq<LabelView> {
    labels.map_values(|l: Label| l@)
}

pub open spec fn opt_string_view(s: Option<String>) -> Option<Seq<char>> {
    match s {
        Some(t) => Some(t@),
        None => None,
    }
}

impl View for Issue {
    type V = IssueView;

    open spec fn view(&self) -> IssueView {
        IssueView {
            id: self.id,
            title: self.title@,
            html_url: self.html_url@,
            state: self.state@,
            body: opt_string_view(self.body),
            labels: match self.labels {
                Some(v) => Some(labels_view(v@)),
                None => None,
            },
            repository: self.repository@,
            label_string: opt_string_view(self.label_string),
        }
    }
}

pub open spec fn issues_view(issues: Seq<Issue>) -> Seq<IssueView> {
    issues.map_values(|i: Issue| i@)
}

impl View for SortedIssues {
    type V = SortedIssuesView;

    open spec fn view(&self) -> SortedIssuesView {
        SortedIssuesView {
            high: issues_view(self.priority_high_issues@),
            medium: issues_view(self.priority_medium_issues@),
            low: issues_view(self.priority_low_issues@),
            none: issues_view(self.priority_none_issues@),
        }
    }
}

impl View for GetIssueError {
    type V = Seq<char>;

    open spec fn view(&self) -> Seq<char> {
        self.message@
    }
}

impl SortedIssues {
    /// Four empty buckets.
    pub fn default() -> (r: SortedIssues)
        ensures
            r.priority_high_issues@.len() == 0,
            r.priority_medium_issues@.len() == 0,
            r.priority_low_issues@.len() == 0,
            r.priority_none_issues@.len() == 0,
    {
        SortedIssues {
            priority_high_issues: Vec::new(),
            priority_medium_issues: Vec::new(),
            priority_low_issues: Vec::new(),
            priority_none_issues: Vec::new(),
        }
    }
}

} // verus!
