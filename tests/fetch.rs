use github_notification::delivery::{check_delivery, delivery_report, DeliveryError};
use github_notification::fetch::{check_status, issues_request, FetchError};
use github_notification::models::{Issue, Label, Repository};
use github_notification::pipeline::build_notification;

#[test]
fn issues_request_has_path_and_headers() {
    let request = issues_request("https://api.github.com", "token");
    assert_eq!(request.url, "https://api.github.com/issues?filter=assigned&state=open");
    assert_eq!(
        request.headers,
        vec![
            ("User-Agent".to_string(), "reqwest".to_string()),
            ("Accept".to_string(), "application/vnd.github+json".to_string()),
            ("Authorization".to_string(), "Bearer token".to_string()),
        ]
    );
}

#[test]
fn only_status_200_is_accepted() {
    assert_eq!(check_status(200), Ok(()));
    assert_eq!(check_status(404), Err(FetchError::BadStatus(404)));
    assert_eq!(check_status(201), Err(FetchError::BadStatus(201)));
}

#[test]
fn error_messages_name_their_cause() {
    assert_eq!(
        FetchError::BadStatus(404).message(),
        "status code is not 200: 404 Not Found"
    );
    assert_eq!(
        FetchError::BadStatus(599).message(),
        "status code is not 200: 599 <unknown status code>"
    );
    assert_eq!(
        FetchError::Transport("refused".to_string()).message(),
        "Fetch Issues Error: refused"
    );
    assert_eq!(
        FetchError::ParseFailure("eof".to_string()).into_issue_error().message,
        "Parse Issues Error: eof"
    );
}

#[test]
fn bad_status_renders_a_single_block() {
    let message = build_notification(Err(FetchError::BadStatus(500)));
    assert_eq!(message.blocks.len(), 1);
    assert_eq!(message.blocks[0].block_type, "section");
    assert_eq!(
        message.blocks[0].text.as_ref().unwrap().text,
        "status code is not 200: 500 Internal Server Error"
    );
}

#[test]
fn fetched_issues_are_classified_and_rendered() {
    let issue = Issue {
        id: 1,
        title: "title".to_string(),
        html_url: "issue_url".to_string(),
        state: "open".to_string(),
        body: None,
        labels: Some(vec![
            Label { id: 1, name: "label1".to_string() },
            Label { id: 2, name: "Priority: High".to_string() },
        ]),
        repository: Repository {
            id: 1,
            name: "name".to_string(),
            html_url: "repo_url".to_string(),
        },
        label_string: None,
    };
    let message = build_notification(Ok(vec![issue]));
    assert_eq!(message.blocks.len(), 3);
    assert_eq!(message.blocks[0].text.as_ref().unwrap().text, "<!channel>\n");
    assert_eq!(message.blocks[1].text.as_ref().unwrap().text, "タスク一覧");
    assert_eq!(
        message.blocks[2].text.as_ref().unwrap().text,
        "*優先度: 高*\n- <issue_url|title>(<repo_url|name>): label1 Priority: High \n"
    );
}

#[test]
fn delivery_outcomes_are_reported() {
    assert_eq!(check_delivery(200), Ok(()));
    assert_eq!(check_delivery(403), Err(DeliveryError::BadStatus(403)));
    assert_eq!(delivery_report(&Ok(())), "Notify by Slack OK");
    assert_eq!(
        delivery_report(&check_delivery(403)),
        "Notify by Slack Error: 403 Forbidden"
    );
    assert_eq!(
        delivery_report(&Err(DeliveryError::Transport("timed out".to_string()))),
        "Notify by Slack Error: timed out"
    );
}
