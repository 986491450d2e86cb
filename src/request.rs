//! The bodies and headers of the GraphQL requests sent to the tracker.

use vstd::prelude::*;
use crate::codec::{append, json_pretty, json_quoted, pretty_json, quote_json};
use crate::error::IssueError;
use crate::ticket::{IssueVariables, VarsView, opt_view};

verus! {

/// The endpoint that every request is posted to.
pub const URL: &'static str = "https://api.linear.app/graphql";

/// The mutation that creates one issue.
pub const ISSUE_CREATE_DOC: &'static str = "mutation (
                    $title: String!
                    $teamId: String!
                    $assigneeId: String
                    $description: String,
                    $parentId: String
                    $projectId: String
                ) {
                issueCreate(
                    input: {
                        title: $title
                        teamId: $teamId
                        assigneeId: $assigneeId
                        description: $description
                        parentId: $parentId
                        projectId: $projectId
                    }
                ) {
                    issue {
                        id
                        url
                    }
                }
                }
                ";

/// The query for the identifiers of the user and of the user's teams.
pub const IDENTIFIERS_QUERY: &'static str = "
        query {
            viewer {
                name
                id
                teamMemberships {
                    nodes {
                        team {
                            name
                            id
                        }
                    }
                }
            }
        }";

/// `"key":"value"`, both quoted as JSON strings.
pub open spec fn entry(key: Seq<char>, value: Seq<char>) -> Seq<char> {
    json_quoted(key) + ":"@ + json_quoted(value)
}

/// `,"key":"value"` when there is a value, nothing otherwise.
pub open spec fn optional_entry(key: Seq<char>, value: Option<Seq<char>>) -> Seq<char> {
    match value {
        Some(v) => ","@ + entry(key, v),
        None => Seq::empty(),
    }
}

/// The JSON object of a creation request's variables: title, team,
/// assignee and description always, the parent link and the project when
/// set.
pub open spec fn variables_text(v: VarsView) -> Seq<char> {
    "{"@ + entry("title"@, v.title) + ","@ + entry("teamId"@, v.team_id) + ","@
        + entry("assigneeId"@, v.assignee_id) + ","@ + entry("description"@, v.description)
        + optional_entry("parentId"@, v.parent_id) + optional_entry("projectId"@, v.project_id) + "}"@
}

/// A request body: the query document and the variables object.
pub open spec fn body_text(query: Seq<char>, variables: Seq<char>) -> Seq<char> {
    "{"@ + entry("query"@, query) + ","@ + json_quoted("variables"@) + ":"@ + variables + "}"@
}

fn push_entry(out: &mut String, key: &str, value: &str)
    ensures
        final(out)@ == old(out)@ + entry(key@, value@),
{
    let k = quote_json(key);
    append(out, k.as_str());
    append(out, ":");
    let v = quote_json(value);
    append(out, v.as_str());
    assert(final(out)@ =~= old(out)@ + entry(key@, value@));
}

fn push_optional_entry(out: &mut String, key: &str, value: &Option<String>)
    ensures
        final(out)@ == old(out)@ + optional_entry(key@, opt_view(*value)),
{
    match value {
        Some(v) => {
            append(out, ",");
            push_entry(out, key, v.as_str());
            assert(final(out)@ =~= old(out)@ + optional_entry(key@, opt_view(*value)));
        },
        None => {
            assert(old(out)@ + Seq::<char>::empty() =~= old(out)@);
        },
    }
}

fn frame_body(query: &str, variables: &str) -> (r: String)
    ensures
        r@ == body_text(query@, variables@),
{
    let mut out = String::new();
    append(&mut out, "{");
    push_entry(&mut out, "query", query);
    append(&mut out, ",");
    let k = quote_json("variables");
    append(&mut out, k.as_str());
    append(&mut out, ":");
    append(&mut out, variables);
    append(&mut out, "}");
    assert(out@ =~= body_text(query@, variables@));
    out
}

/// The JSON object of the variables `v`.
pub fn variables_json(v: &IssueVariables) -> (r: String)
    ensures
        r@ == variables_text(v@),
{
    let mut out = String::new();
    append(&mut out, "{");
    push_entry(&mut out, "title", v.title.as_str());
    append(&mut out, ",");
    push_entry(&mut out, "teamId", v.team_id.as_str());
    append(&mut out, ",");
    push_entry(&mut out, "assigneeId", v.assignee_id.as_str());
    append(&mut out, ",");
    push_entry(&mut out, "description", v.description.as_str());
    push_optional_entry(&mut out, "parentId", &v.parent_id);
    push_optional_entry(&mut out, "projectId", &v.project_id);
    append(&mut out, "}");
    assert(out@ =~= variables_text(v@));
    out
}

/// The body of the request that creates the issue described by `v`.
pub fn issue_request_body(v: &IssueVariables) -> (r: String)
    ensures
        r@ == body_text(ISSUE_CREATE_DOC@, variables_text(v@)),
{
    let vars = variables_json(v);
    frame_body(ISSUE_CREATE_DOC, vars.as_str())
}

/// The body of the request for the user's and teams' identifiers, which
/// has no variables.
pub fn identifiers_request_body() -> (r: String)
    ensures
        r@ == body_text(IDENTIFIERS_QUERY@, "{}"@),
{
    frame_body(IDENTIFIERS_QUERY, "{}")
}

/// The value of the `Authorization` header for `token`.
pub fn authorization_value(token: &str) -> (r: String)
    ensures
        r@ == "Bearer "@ + token@,
{
    let mut out = String::new();
    append(&mut out, "Bearer ");
    append(&mut out, token);
    assert(out@ =~= "Bearer "@ + token@);
    out
}

/// The identifiers reply re-rendered with indentation, for writing out; a
/// reply that is not JSON is a `ResponseParseError`.
pub fn identifiers_document(response: &str) -> (r: Result<String, IssueError>)
    ensures
        match r {
            Ok(p) => json_pretty(response@) == Some(p@),
            Err(e) => json_pretty(response@) is None && e is ResponseParseError,
        },
{
    match pretty_json(response) {
        Ok(p) => Ok(p),
        Err(detail) => {
            let mut m = "Could not parse the identifiers reply: ".to_owned();
            append(&mut m, detail.as_str());
            Err(IssueError::ResponseParseError(m))
        },
    }
}

} // verus!
