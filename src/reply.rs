//! Reading the created issue out of a reply to an issue-creation request.

use vstd::prelude::*;
use crate::codec::{append, json_tree, parse_json_tree};
use crate::document::{Node, field, text_of, get_field, get_text};
use crate::error::IssueError;

verus! {

/// An issue that the service reports as created.
#[derive(Debug)]
pub struct CreatedIssue {
    pub id: String,
    pub url: String,
}

pub struct IssueView {
    pub id: Seq<char>,
    pub url: Seq<char>,
}

impl View for CreatedIssue {
    type V = IssueView;

    open spec fn view(&self) -> IssueView {
        IssueView { id: self.id@, url: self.url@ }
    }
}

/// The node at `data.issueCreate.issue` of a reply.
pub open spec fn issue_node(doc: Node) -> Option<Node> {
    match field(doc, "data"@) {
        Some(d) => match field(d, "issueCreate"@) {
            Some(c) => field(c, "issue"@),
            None => None,
        },
        None => None,
    }
}

/// The issue that a reply document reports: `data.issueCreate.issue` must
/// be a table holding the strings `id` and `url`.
pub open spec fn issue_in(doc: Node) -> Option<IssueView> {
    match issue_node(doc) {
        Some(i) => match (field(i, "id"@), field(i, "url"@)) {
            (Some(id), Some(url)) => match (text_of(id), text_of(url)) {
                (Some(id), Some(url)) => Some(IssueView { id, url }),
                _ => None,
            },
            _ => None,
        },
        None => None,
    }
}

/// The issue that the reply text `body` reports, if it is JSON of the
/// expected shape.
pub open spec fn response_issue(body: Seq<char>) -> Option<IssueView> {
    match json_tree(body) {
        Some(doc) => issue_in(doc),
        None => None,
    }
}

fn parse_failure(detail: &str) -> (r: IssueError)
    ensures
        r is ResponseParseError,
{
    let mut m = "Could not parse response for issue: ".to_owned();
    append(&mut m, detail);
    IssueError::ResponseParseError(m)
}

/// Takes the created issue out of a parsed reply.
pub fn issue_from_json(doc: &Node) -> (r: Result<CreatedIssue, IssueError>)
    ensures
        match r {
            Ok(i) => issue_in(*doc) == Some(i@),
            Err(e) => issue_in(*doc) is None && e is ResponseParseError,
        },
{
    let issue = match get_field(doc, "data") {
        Some(d) => match get_field(d, "issueCreate") {
            Some(c) => get_field(c, "issue"),
            None => None,
        },
        None => None,
    };
    let issue = match issue {
        Some(i) => i,
        None => {
            return Err(parse_failure("no `data.issueCreate.issue` in the reply"));
        },
    };
    let id = match get_field(issue, "id") {
        Some(v) => get_text(v),
        None => None,
    };
    let url = match get_field(issue, "url") {
        Some(v) => get_text(v),
        None => None,
    };
    match (id, url) {
        (Some(id), Some(url)) => Ok(CreatedIssue { id: id.clone(), url: url.clone() }),
        _ => Err(parse_failure("the issue lacks a string `id` or `url`")),
    }
}

/// Reads the created issue from the text of a reply. Anything but JSON of
/// the shape `{data: {issueCreate: {issue: {id, url}}}}` is a
/// `ResponseParseError`.
pub fn extract_id_from_response(response: &str) -> (r: Result<CreatedIssue, IssueError>)
    ensures
        match r {
            Ok(i) => response_issue(response@) == Some(i@),
            Err(e) => response_issue(response@) is None && e is ResponseParseError,
        },
{
    match parse_json_tree(response) {
        Ok(doc) => issue_from_json(&doc),
        Err(detail) => Err(parse_failure(detail.as_str())),
    }
}

/// The confirmation line for a created issue: `- [id] url` for the parent,
/// indented for a child.
pub open spec fn progress_text(i: IssueView, child: bool) -> Seq<char> {
    (if child { "  - ["@ } else { "- ["@ }) + i.id + "] "@ + i.url
}

/// The confirmation line for a created issue.
pub fn progress_line(issue: &CreatedIssue, child: bool) -> (r: String)
    ensures
        r@ == progress_text(issue@, child),
{
    let mut out = String::new();
    if child {
        append(&mut out, "  - [");
    } else {
        append(&mut out, "- [");
    }
    append(&mut out, issue.id.as_str());
    append(&mut out, "] ");
    append(&mut out, issue.url.as_str());
    assert(out@ =~= progress_text(issue@, child));
    out
}

} // verus!
