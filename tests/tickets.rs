use linear_templater::error::IssueError;
use linear_templater::ticket::{parse_ticket, resolve_child, resolve_parent};

const FULL: &str = r#"
title = "Epic A"
team_id = "T1"
project_id = "PR1"
assignee_id = "U1"
description = "The whole epic"

[[children]]
title = "Sub 1"

[[children]]
title = "Sub 2"
team_id = "T2"
assignee_id = "U2"
description = "Second"
"#;

#[test]
fn parses_full_ticket() {
    let t = parse_ticket(FULL).unwrap();
    assert_eq!(t.title, "Epic A");
    assert_eq!(t.team_id, "T1");
    assert_eq!(t.project_id.as_deref(), Some("PR1"));
    assert_eq!(t.assignee_id.as_deref(), Some("U1"));
    assert_eq!(t.description.as_deref(), Some("The whole epic"));
    assert_eq!(t.children.len(), 2);
    assert_eq!(t.children[0].title, "Sub 1");
    assert_eq!(t.children[0].team_id, None);
    assert_eq!(t.children[1].title, "Sub 2");
    assert_eq!(t.children[1].team_id.as_deref(), Some("T2"));
}

#[test]
fn children_keep_document_order() {
    let text = "title = \"P\"\nteam_id = \"T\"\n[[children]]\ntitle = \"c\"\n[[children]]\ntitle = \"a\"\n[[children]]\ntitle = \"b\"\n";
    let t = parse_ticket(text).unwrap();
    let titles: Vec<&str> = t.children.iter().map(|c| c.title.as_str()).collect();
    assert_eq!(titles, vec!["c", "a", "b"]);
}

#[test]
fn missing_children_means_none() {
    let t = parse_ticket("title = \"Solo\"\nteam_id = \"T1\"\n").unwrap();
    assert!(t.children.is_empty());
}

#[test]
fn child_defaults_come_from_parent() {
    let t = parse_ticket(FULL).unwrap();
    let v = resolve_child(&t, 0, &"P1".to_string());
    assert_eq!(v.title, "Sub 1");
    assert_eq!(v.team_id, "T1");
    assert_eq!(v.assignee_id, "U1");
    assert_eq!(v.description, "");
    assert_eq!(v.parent_id.as_deref(), Some("P1"));
    assert_eq!(v.project_id, None);
}

#[test]
fn child_values_override_parent() {
    let t = parse_ticket(FULL).unwrap();
    let v = resolve_child(&t, 1, &"P1".to_string());
    assert_eq!(v.team_id, "T2");
    assert_eq!(v.assignee_id, "U2");
    assert_eq!(v.description, "Second");
}

#[test]
fn parent_omitted_fields_become_empty() {
    let t = parse_ticket("title = \"Solo\"\nteam_id = \"T1\"\n").unwrap();
    let v = resolve_parent(&t);
    assert_eq!(v.title, "Solo");
    assert_eq!(v.team_id, "T1");
    assert_eq!(v.assignee_id, "");
    assert_eq!(v.description, "");
    assert_eq!(v.project_id.as_deref(), Some(""));
    assert_eq!(v.parent_id, None);
}

#[test]
fn child_inherits_resolved_empty_assignee() {
    let t = parse_ticket("title = \"P\"\nteam_id = \"T\"\n[[children]]\ntitle = \"c\"\n").unwrap();
    let v = resolve_child(&t, 0, &"X".to_string());
    assert_eq!(v.assignee_id, "");
}

#[test]
fn missing_title_is_malformed() {
    let r = parse_ticket("team_id = \"T1\"\n");
    assert!(matches!(r, Err(IssueError::MalformedInput(_))));
}

#[test]
fn missing_team_is_malformed() {
    let r = parse_ticket("title = \"A\"\n");
    assert!(matches!(r, Err(IssueError::MalformedInput(_))));
}

#[test]
fn empty_title_is_malformed() {
    let r = parse_ticket("title = \"\"\nteam_id = \"T1\"\n");
    assert!(matches!(r, Err(IssueError::MalformedInput(_))));
}

#[test]
fn wrong_type_is_malformed() {
    let r = parse_ticket("title = \"A\"\nteam_id = 7\n");
    assert!(matches!(r, Err(IssueError::MalformedInput(_))));
    let r = parse_ticket("title = \"A\"\nteam_id = \"T\"\ndescription = true\n");
    assert!(matches!(r, Err(IssueError::MalformedInput(_))));
    let r = parse_ticket("title = \"A\"\nteam_id = \"T\"\nchildren = \"no\"\n");
    assert!(matches!(r, Err(IssueError::MalformedInput(_))));
}

#[test]
fn child_without_title_is_malformed() {
    let r = parse_ticket("title = \"A\"\nteam_id = \"T\"\n[[children]]\nteam_id = \"T2\"\n");
    assert!(matches!(r, Err(IssueError::MalformedInput(_))));
}

#[test]
fn syntax_error_is_malformed() {
    let r = parse_ticket("title = \"A\nteam_id = ");
    match r {
        Err(e) => {
            assert!(matches!(e, IssueError::MalformedInput(_)));
            assert!(!e.message().is_empty());
        }
        Ok(_) => panic!("accepted invalid TOML"),
    }
}
