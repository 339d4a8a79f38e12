use github_notification::message::SlackMessageBlocks;
use github_notification::models::{Issue, Label, Repository, SortedIssues};
use github_notification::render::{
    create_payload_for_slack, generate_text_for_issue, generate_text_with_header,
};

#[test]
fn slack_test_add_header_block() {
    let mut slack_message_blocks = SlackMessageBlocks::default();
    assert_eq!(slack_message_blocks.blocks.len(), 0);

    slack_message_blocks.add_header_block("test".to_string());
    assert_eq!(slack_message_blocks.blocks.len(), 1);
    assert_eq!(slack_message_blocks.blocks[0].block_type, "header");
    assert_eq!(
        slack_message_blocks.blocks[0].text.as_ref().unwrap().text,
        "test"
    );
}

#[test]
fn slack_test_add_text_block() {
    let mut slack_message_blocks = SlackMessageBlocks::default();
    assert_eq!(slack_message_blocks.blocks.len(), 0);

    slack_message_blocks.add_text_block("test".to_string());
    assert_eq!(slack_message_blocks.blocks.len(), 1);
    assert_eq!(slack_message_blocks.blocks[0].block_type, "section");
    assert_eq!(
        slack_message_blocks.blocks[0].text.as_ref().unwrap().text,
        "test"
    );
}

#[test]
fn slack_test_generate_text_with_header() {
    let issues = vec![Issue {
        html_url: "issue_html_url".to_string(),
        title: "title".to_string(),
        labels: Some(vec![Label {
            name: "label1".to_string(),
            id: 0,
        }]),
        repository: Repository {
            html_url: "repo_html_url".to_string(),
            name: "name".to_string(),
            id: 0,
        },
        body: None,
        id: 0,
        label_string: None,
        state: "open".to_string(),
    }];
    let text = generate_text_with_header("header", &issues);
    assert_eq!(
        text,
        "header".to_string()
            + "\n"
            + "- <issue_html_url|title>(<repo_html_url|name>): label1 \n"
    );
}

#[test]
fn slack_test_generate_text_for_issue() {
    let issue = Issue {
        html_url: "issue_html_url".to_string(),
        title: "title".to_string(),
        labels: Some(vec![Label {
            name: "label1".to_string(),
            id: 0,
        }]),
        repository: Repository {
            html_url: "repo_html_url".to_string(),
            name: "name".to_string(),
            id: 0,
        },
        body: None,
        id: 0,
        label_string: None,
        state: "open".to_string(),
    };
    let text = generate_text_for_issue(&issue);
    assert_eq!(
        text,
        "- <issue_html_url|title>(<repo_html_url|name>): label1 \n"
    );
}

#[test]
fn slack_test_create_payload_for_slack() {
    let mut issues = SortedIssues::default();
    issues.priority_high_issues.push(Issue {
        html_url: "issue_html_url".to_string(),
        title: "title".to_string(),
        labels: Some(vec![Label {
            name: "label1".to_string(),
            id: 0,
        }]),
        repository: Repository {
            html_url: "repo_html_url".to_string(),
            name: "name".to_string(),
            id: 0,
        },
        body: None,
        id: 0,
        label_string: None,
        state: "open".to_string(),
    });
    let payload = create_payload_for_slack(Ok(issues));
    assert_eq!(payload.blocks.len(), 3);
    assert_eq!(payload.blocks[0].block_type, "section");
    assert_eq!(
        payload.blocks[0].text.as_ref().unwrap().text,
        "<!channel>\n"
    );
    assert_eq!(payload.blocks[1].block_type, "header");
    assert_eq!(payload.blocks[1].text.as_ref().unwrap().text, "タスク一覧");
    assert_eq!(payload.blocks[2].block_type, "section");
    assert_eq!(
        payload.blocks[2].text.as_ref().unwrap().text,
        "*優先度: 高*".to_string()
            + "\n"
            + "- <issue_html_url|title>(<repo_html_url|name>): label1 \n"
    );
}
