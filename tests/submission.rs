use linear_templater::error::IssueError;
use linear_templater::reply::{extract_id_from_response, progress_line, CreatedIssue};
use linear_templater::submit::{submit_with_replies, Reply, Submission};
use linear_templater::ticket::{parse_ticket, IssueVariables};

fn ok_body(id: &str) -> String {
    format!(
        "{{\"data\":{{\"issueCreate\":{{\"issue\":{{\"id\":\"{id}\",\"url\":\"https://t/{id}\"}}}}}}}}"
    )
}

/// Runs a submission against a stub that answers request `i` with
/// `replies[i]`; returns the requests sent and the first error.
fn drive(text: &str, replies: Vec<Reply>) -> (Vec<IssueVariables>, Option<IssueError>, Submission) {
    let ticket = parse_ticket(text).unwrap();
    let mut s = Submission::new(ticket);
    let mut sent = Vec::new();
    let mut replies = replies.into_iter();
    let mut error = None;
    while let Some(req) = s.next_request() {
        sent.push(req);
        let reply = match replies.next() {
            Some(r) => r,
            None => break,
        };
        if let Err(e) = s.record_reply(reply) {
            error = Some(e);
            break;
        }
    }
    (sent, error, s)
}

const EPIC: &str = "title = \"Epic A\"\nteam_id = \"T1\"\n[[children]]\ntitle = \"Sub 1\"\n[[children]]\ntitle = \"Sub 2\"\nassignee_id = \"U2\"\n";

#[test]
fn zero_children_one_request() {
    let (sent, error, s) = drive(
        "title = \"Solo\"\nteam_id = \"T1\"\n",
        vec![Reply::Received(ok_body("P1")), Reply::Received(ok_body("extra"))],
    );
    assert!(error.is_none());
    assert_eq!(sent.len(), 1);
    assert_eq!(sent[0].parent_id, None);
    assert_eq!(s.created().len(), 1);
    assert_eq!(s.created()[0].id, "P1");
    assert!(s.is_finished());
}

#[test]
fn n_children_n_plus_one_requests_in_order() {
    let text = "title = \"P\"\nteam_id = \"T\"\n[[children]]\ntitle = \"a\"\n[[children]]\ntitle = \"b\"\n[[children]]\ntitle = \"c\"\n";
    let replies = ["P9", "A", "B", "C"].iter().map(|i| Reply::Received(ok_body(i))).collect();
    let (sent, error, s) = drive(text, replies);
    assert!(error.is_none());
    let titles: Vec<&str> = sent.iter().map(|v| v.title.as_str()).collect();
    assert_eq!(titles, vec!["P", "a", "b", "c"]);
    for child in &sent[1..] {
        assert_eq!(child.parent_id.as_deref(), Some("P9"));
    }
    let ids: Vec<&str> = s.created().iter().map(|c| c.id.as_str()).collect();
    assert_eq!(ids, vec!["P9", "A", "B", "C"]);
}

#[test]
fn epic_round_trip() {
    let replies = ["P1", "C1", "C2"].iter().map(|i| Reply::Received(ok_body(i))).collect();
    let (sent, error, s) = drive(EPIC, replies);
    assert!(error.is_none());
    assert_eq!(sent.len(), 3);
    assert_eq!(sent[0].title, "Epic A");
    assert_eq!(sent[0].parent_id, None);
    assert_eq!(sent[1].parent_id.as_deref(), Some("P1"));
    assert_eq!(sent[2].parent_id.as_deref(), Some("P1"));
    assert_eq!(sent[1].assignee_id, sent[0].assignee_id);
    assert_eq!(sent[1].assignee_id, "");
    assert_eq!(sent[2].assignee_id, "U2");
    assert_eq!(sent[1].team_id, "T1");
    assert_eq!(sent[2].team_id, "T1");
    let ids: Vec<&str> = s.created().iter().map(|c| c.id.as_str()).collect();
    assert_eq!(ids, vec!["P1", "C1", "C2"]);
}

#[test]
fn request_failure_stops_children() {
    let replies = vec![
        Reply::Received(ok_body("P1")),
        Reply::Failed("Error: 500".to_string()),
        Reply::Received(ok_body("C2")),
    ];
    let (sent, error, s) = drive(EPIC, replies);
    assert_eq!(sent.len(), 2);
    match error {
        Some(IssueError::RequestFailed(m)) => assert_eq!(m, "Error: 500"),
        _ => panic!("expected RequestFailed"),
    }
    assert!(s.is_finished());
    assert!(s.next_request().is_none());
    assert_eq!(s.created().len(), 1);
}

#[test]
fn parent_failure_sends_nothing_more() {
    let (sent, error, s) = drive(EPIC, vec![Reply::Failed("no response".to_string())]);
    assert_eq!(sent.len(), 1);
    assert!(matches!(error, Some(IssueError::RequestFailed(_))));
    assert!(s.created().is_empty());
}

#[test]
fn unreadable_reply_keeps_created() {
    let replies = vec![
        Reply::Received(ok_body("P1")),
        Reply::Received("{\"data\":{\"issueCreate\":{}}}".to_string()),
        Reply::Received(ok_body("C2")),
    ];
    let (sent, error, s) = drive(EPIC, replies);
    assert_eq!(sent.len(), 2);
    assert!(matches!(error, Some(IssueError::ResponseParseError(_))));
    assert_eq!(s.created().len(), 1);
    assert_eq!(s.created()[0].id, "P1");
    assert!(s.is_finished());
}

#[test]
fn reply_after_finish_changes_nothing() {
    let (_, _, mut s) = drive("title = \"Solo\"\nteam_id = \"T1\"\n", vec![Reply::Received(ok_body("P1"))]);
    assert!(s.record_reply(Reply::Failed("late".to_string())).is_ok());
    assert_eq!(s.created().len(), 1);
}

#[test]
fn extracts_id_and_url() {
    let i = extract_id_from_response(&ok_body("abc")).unwrap();
    assert_eq!(i.id, "abc");
    assert_eq!(i.url, "https://t/abc");
}

#[test]
fn extract_ignores_other_fields() {
    let body = "{\"data\":{\"issueCreate\":{\"success\":true,\"issue\":{\"url\":\"u\",\"id\":\"x\",\"n\":3}}}}";
    let i = extract_id_from_response(body).unwrap();
    assert_eq!(i.id, "x");
    assert_eq!(i.url, "u");
}

#[test]
fn extract_rejects_wrong_shapes() {
    for body in [
        "not json",
        "{}",
        "{\"data\":null}",
        "{\"errors\":[{\"message\":\"bad\"}]}",
        "{\"data\":{\"issueCreate\":{\"issue\":{\"id\":5,\"url\":\"u\"}}}}",
        "{\"data\":{\"issueCreate\":{\"issue\":{\"id\":\"x\"}}}}",
    ] {
        let r = extract_id_from_response(body);
        assert!(matches!(r, Err(IssueError::ResponseParseError(_))), "{body}");
    }
}

#[test]
fn parse_error_message_has_diagnostic() {
    let e = extract_id_from_response("{").err().unwrap();
    assert!(e.message().starts_with("Could not parse response for issue: "));
    assert!(e.message().len() > "Could not parse response for issue: ".len());
}

#[test]
fn progress_lines() {
    let i = CreatedIssue { id: "ID".to_string(), url: "https://u".to_string() };
    assert_eq!(progress_line(&i, false), "- [ID] https://u");
    assert_eq!(progress_line(&i, true), "  - [ID] https://u");
}

#[test]
fn epic_against_stub_replies() {
    let ticket = parse_ticket(EPIC).unwrap();
    let replies = ["P1", "C1", "C2"].iter().map(|i| Reply::Received(ok_body(i))).collect();
    let (sent, s) = submit_with_replies(ticket, replies);
    assert_eq!(sent.len(), 3);
    assert_eq!(sent[1].parent_id.as_deref(), Some("P1"));
    assert_eq!(sent[2].parent_id.as_deref(), Some("P1"));
    assert_eq!(sent[1].assignee_id, "");
    assert_eq!(sent[2].assignee_id, "U2");
    assert!(s.is_finished());
    assert_eq!(s.created().len(), 3);
}

#[test]
fn stub_replies_stop_at_failure() {
    let ticket = parse_ticket(EPIC).unwrap();
    let replies = vec![
        Reply::Received(ok_body("P1")),
        Reply::Received("<html>".to_string()),
        Reply::Received(ok_body("C2")),
    ];
    let (sent, s) = submit_with_replies(ticket, replies);
    assert_eq!(sent.len(), 2);
    assert_eq!(s.created().len(), 1);
    assert!(s.next_request().is_none());
}
