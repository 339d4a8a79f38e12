use github_notification::models::{GetIssueError, Issue, Label, Repository, SortedIssues};
use github_notification::render::{create_payload_for_slack, generate_text_for_issue};

fn issue(title: &str, labels: Option<Vec<&str>>) -> Issue {
    Issue {
        id: 0,
        title: title.to_string(),
        html_url: "issue_url".to_string(),
        state: "open".to_string(),
        body: None,
        labels: labels.map(|names| {
            names
                .into_iter()
                .map(|name| Label {
                    id: 0,
                    name: name.to_string(),
                })
                .collect()
        }),
        repository: Repository {
            id: 0,
            name: "name".to_string(),
            html_url: "repo_url".to_string(),
        },
        label_string: None,
    }
}

fn texts(message: &github_notification::message::SlackMessageBlocks) -> Vec<(String, String)> {
    message
        .blocks
        .iter()
        .map(|b| (b.block_type.clone(), b.text.as_ref().unwrap().text.clone()))
        .collect()
}

#[test]
fn high_issue_alone_renders_three_blocks() {
    let mut sorted = SortedIssues::default();
    sorted.priority_high_issues.push(issue("title", Some(vec!["label1"])));
    let message = create_payload_for_slack(Ok(sorted));
    assert_eq!(
        texts(&message),
        vec![
            ("section".to_string(), "<!channel>\n".to_string()),
            ("header".to_string(), "タスク一覧".to_string()),
            (
                "section".to_string(),
                "*優先度: 高*\n- <issue_url|title>(<repo_url|name>): label1 \n".to_string()
            ),
        ]
    );
}

#[test]
fn issue_without_labels_has_empty_label_segment() {
    assert_eq!(
        generate_text_for_issue(&issue("t", None)),
        "- <issue_url|t>(<repo_url|name>): \n"
    );
    assert_eq!(
        generate_text_for_issue(&issue("t", Some(vec![]))),
        "- <issue_url|t>(<repo_url|name>): \n"
    );
    assert_eq!(
        generate_text_for_issue(&issue("t", Some(vec!["a", "b c"]))),
        "- <issue_url|t>(<repo_url|name>): a b c \n"
    );
}

#[test]
fn empty_buckets_get_no_section() {
    let mut sorted = SortedIssues::default();
    sorted.priority_medium_issues.push(issue("m1", None));
    sorted.priority_medium_issues.push(issue("m2", None));
    sorted.priority_none_issues.push(issue("n", Some(vec!["x"])));
    let message = create_payload_for_slack(Ok(sorted));
    assert_eq!(message.blocks.len(), 2 + 2);
    let t = texts(&message);
    assert_eq!(
        t[2].1,
        "*優先度: 中*\n- <issue_url|m1>(<repo_url|name>): \n- <issue_url|m2>(<repo_url|name>): \n"
    );
    assert_eq!(t[3].1, "*優先度: なし*\n- <issue_url|n>(<repo_url|name>): x \n");
}

#[test]
fn all_buckets_empty_gives_mention_and_title() {
    let message = create_payload_for_slack(Ok(SortedIssues::default()));
    assert_eq!(message.blocks.len(), 2);
    assert_eq!(message.blocks_type, "home");
}

#[test]
fn rendering_twice_gives_identical_messages() {
    let build = || {
        let mut sorted = SortedIssues::default();
        sorted.priority_low_issues.push(issue("l", Some(vec!["Priority: Low"])));
        sorted.priority_high_issues.push(issue("h", None));
        sorted
    };
    let a = texts(&create_payload_for_slack(Ok(build())));
    let b = texts(&create_payload_for_slack(Ok(build())));
    assert_eq!(a, b);
    assert_eq!(a.len(), 4);
}

#[test]
fn error_renders_as_single_section() {
    let err = GetIssueError {
        message: "Fetch Issues Error: connection refused".to_string(),
    };
    let message = create_payload_for_slack(Err(err));
    assert_eq!(
        texts(&message),
        vec![(
            "section".to_string(),
            "Fetch Issues Error: connection refused".to_string()
        )]
    );
    assert_eq!(message.blocks[0].text.as_ref().unwrap().text_type, "mrkdwn");
}
