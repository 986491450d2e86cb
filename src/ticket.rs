//! Ticket documents: a parent issue with an ordered list of children, how
//! they are read from a document tree, and how omitted fields are resolved.

use vstd::prelude::*;
use crate::document::{Node, field, text_of, get_field, get_text};
use crate::codec::{append, parse_toml_tree, toml_tree};
use crate::error::IssueError;

verus! {

/// A child issue as written in a ticket document.
#[derive(Debug)]
pub struct ChildIssue {
    pub title: String,
    pub team_id: Option<String>,
    pub assignee_id: Option<String>,
    pub description: Option<String>,
}

/// A parent issue as written in a ticket document, with its children in
/// document order.
#[derive(Debug)]
pub struct ParentIssue {
    pub title: String,
    pub team_id: String,
    pub project_id: Option<String>,
    pub assignee_id: Option<String>,
    pub description: Option<String>,
    pub children: Vec<ChildIssue>,
}

pub struct ChildView {
    pub title: Seq<char>,
    pub team_id: Option<Seq<char>>,
    pub assignee_id: Option<Seq<char>>,
    pub description: Option<Seq<char>>,
}

pub struct TicketView {
    pub title: Seq<char>,
    pub team_id: Seq<char>,
    pub project_id: Option<Seq<char>>,
    pub assignee_id: Option<Seq<char>>,
    pub description: Option<Seq<char>>,
    pub children: Seq<ChildView>,
}

pub open spec fn opt_view(o: Option<String>) -> Option<Seq<char>> {
    match o {
        Some(s) => Some(s@),
        None => None,
    }
}

impl View for ChildIssue {
    type V = ChildView;

    open spec fn view(&self) -> ChildView {
        ChildView {
            title: self.title@,
            team_id: opt_view(self.team_id),
            assignee_id: opt_view(self.assignee_id),
            description: opt_view(self.description),
        }
    }
}

impl View for ParentIssue {
    type V = TicketView;

    open spec fn view(&self) -> TicketView {
        TicketView {
            title: self.title@,
            team_id: self.team_id@,
            project_id: opt_view(self.project_id),
            assignee_id: opt_view(self.assignee_id),
            description: opt_view(self.description),
            children: self.children@.map_values(|c: ChildIssue| c@),
        }
    }
}

/// The variables of one issue-creation request, every optional field of
/// the document already resolved.
#[derive(Debug)]
pub struct IssueVariables {
    pub title: String,
    pub team_id: String,
    pub assignee_id: String,
    pub description: String,
    pub parent_id: Option<String>,
    pub project_id: Option<String>,
}

pub struct VarsView {
    pub title: Seq<char>,
    pub team_id: Seq<char>,
    pub assignee_id: Seq<char>,
    pub description: Seq<char>,
    pub parent_id: Option<Seq<char>>,
    pub project_id: Option<Seq<char>>,
}

impl View for IssueVariables {
    type V = VarsView;

    open spec fn view(&self) -> VarsView {
        VarsView {
            title: self.title@,
            team_id: self.team_id@,
            assignee_id: self.assignee_id@,
            description: self.description@,
            parent_id: opt_view(self.parent_id),
            project_id: opt_view(self.project_id),
        }
    }
}

// ---------------------------------------------------------------------
// Reading a ticket from a document tree
// ---------------------------------------------------------------------

/// An optional string field: `Some(None)` when absent, `Some(Some(s))` when
/// it holds the string `s`, `None` when it holds anything else.
pub open spec fn optional_text(n: Node, key: Seq<char>) -> Option<Option<Seq<char>>> {
    match field(n, key) {
        None => Some(None),
        Some(v) => match text_of(v) {
            Some(s) => Some(Some(s)),
            None => None,
        },
    }
}

/// A required string field.
pub open spec fn required_text(n: Node, key: Seq<char>) -> Option<Seq<char>> {
    match field(n, key) {
        Some(v) => text_of(v),
        None => None,
    }
}

/// The child described by the table `n`, if it has that shape.
pub open spec fn child_of(n: Node) -> Option<ChildView> {
    if n is Table && required_text(n, "title"@) is Some && optional_text(n, "team_id"@) is Some
        && optional_text(n, "assignee_id"@) is Some && optional_text(n, "description"@) is Some {
        Some(
            ChildView {
                title: required_text(n, "title"@).unwrap(),
                team_id: optional_text(n, "team_id"@).unwrap(),
                assignee_id: optional_text(n, "assignee_id"@).unwrap(),
                description: optional_text(n, "description"@).unwrap(),
            },
        )
    } else {
        None
    }
}

/// The children listed under `children`: none when the key is absent; when
/// present it must be a list of which every item is a child.
pub open spec fn children_of(n: Node) -> Option<Seq<ChildView>> {
    match field(n, "children"@) {
        None => Some(Seq::empty()),
        Some(Node::List(items)) => if forall|i: int| 0 <= i < items@.len() ==> #[trigger] child_of(items@[i]) is Some {
            Some(Seq::new(items@.len(), |i: int| child_of(items@[i]).unwrap()))
        } else {
            None
        },
        Some(_) => None,
    }
}

/// The ticket that the document `doc` describes, or `None` when it does not
/// have the ticket shape: a table with a non-empty string `title`, a string
/// `team_id`, optional strings `project_id`, `assignee_id` and
/// `description`, and optional `children`.
pub open spec fn ticket_of(doc: Node) -> Option<TicketView> {
    match (required_text(doc, "title"@), required_text(doc, "team_id"@)) {
        (Some(title), Some(team_id)) => if title.len() > 0 && optional_text(doc, "project_id"@) is Some
            && optional_text(doc, "assignee_id"@) is Some && optional_text(doc, "description"@) is Some
            && children_of(doc) is Some {
            Some(
                TicketView {
                    title,
                    team_id,
                    project_id: optional_text(doc, "project_id"@).unwrap(),
                    assignee_id: optional_text(doc, "assignee_id"@).unwrap(),
                    description: optional_text(doc, "description"@).unwrap(),
                    children: children_of(doc).unwrap(),
                },
            )
        } else {
            None
        },
        _ => None,
    }
}

fn read_optional(n: &Node, key: &str) -> (r: Option<Option<String>>)
    ensures
        match r {
            Some(o) => optional_text(*n, key@) == Some(opt_view(o)),
            None => optional_text(*n, key@) is None,
        },
{
    match get_field(n, key) {
        None => Some(None),
        Some(v) => match get_text(v) {
            Some(s) => Some(Some(s.clone())),
            None => None,
        },
    }
}

fn read_required(n: &Node, key: &str) -> (r: Option<String>)
    ensures
        opt_view(r) == required_text(*n, key@),
{
    match get_field(n, key) {
        Some(v) => match get_text(v) {
            Some(s) => Some(s.clone()),
            None => None,
        },
        None => None,
    }
}

/// Reads one child from its table.
pub fn decode_child(n: &Node) -> (r: Option<ChildIssue>)
    ensures
        match r {
            Some(c) => child_of(*n) == Some(c@),
            None => child_of(*n) is None,
        },
{
    if !matches!(n, Node::Table(_)) {
        return None;
    }
    let title = read_required(n, "title");
    let team_id = read_optional(n, "team_id");
    let assignee_id = read_optional(n, "assignee_id");
    let description = read_optional(n, "description");
    match (title, team_id, assignee_id, description) {
        (Some(title), Some(team_id), Some(assignee_id), Some(description)) => {
            Some(ChildIssue { title, team_id, assignee_id, description })
        },
        _ => None,
    }
}

fn decode_children(doc: &Node) -> (r: Option<Vec<ChildIssue>>)
    ensures
        match r {
            Some(cs) => children_of(*doc) == Some(cs@.map_values(|c: ChildIssue| c@)),
            None => children_of(*doc) is None,
        },
{
    match get_field(doc, "children") {
        None => {
            let cs: Vec<ChildIssue> = Vec::new();
            assert(cs@.map_values(|c: ChildIssue| c@) =~= Seq::empty());
            Some(cs)
        },
        Some(Node::List(items)) => {
            let mut cs: Vec<ChildIssue> = Vec::new();
            let mut i: usize = 0;
            while i < items.len()
                invariant
                    0 <= i <= items@.len(),
                    field(*doc, "children"@) == Some(Node::List(*items)),
                    cs@.len() == i,
                    forall|j: int| 0 <= j < i ==> #[trigger] child_of(items@[j]) == Some(cs@[j]@),
                decreases items@.len() - i,
            {
                match decode_child(&items[i]) {
                    Some(c) => cs.push(c),
                    None => {
                        return None;
                    },
                }
                i = i + 1;
            }
            assert(cs@.map_values(|c: ChildIssue| c@) =~= Seq::new(
                items@.len(),
                |j: int| child_of(items@[j]).unwrap(),
            ));
            Some(cs)
        },
        Some(_) => None,
    }
}

/// Reads a ticket from a document tree; any departure from the ticket shape
/// is `MalformedInput`.
pub fn decode_ticket(doc: &Node) -> (r: Result<ParentIssue, IssueError>)
    ensures
        match r {
            Ok(t) => ticket_of(*doc) == Some(t@),
            Err(e) => ticket_of(*doc) is None && e is MalformedInput,
        },
{
    let title = match read_required(doc, "title") {
        Some(t) => t,
        None => {
            return Err(IssueError::MalformedInput("The ticket needs a string `title`".to_owned()));
        },
    };
    let team_id = match read_required(doc, "team_id") {
        Some(t) => t,
        None => {
            return Err(IssueError::MalformedInput("The ticket needs a string `team_id`".to_owned()));
        },
    };
    if title.as_str().unicode_len() == 0 {
        return Err(IssueError::MalformedInput("The ticket's `title` is empty".to_owned()));
    }
    let project_id = read_optional(doc, "project_id");
    let assignee_id = read_optional(doc, "assignee_id");
    let description = read_optional(doc, "description");
    let children = decode_children(doc);
    match (project_id, assignee_id, description, children) {
        (Some(project_id), Some(assignee_id), Some(description), Some(children)) => {
            Ok(ParentIssue { title, team_id, project_id, assignee_id, description, children })
        },
        _ => Err(IssueError::MalformedInput("The ticket has a field of the wrong type".to_owned())),
    }
}

// ---------------------------------------------------------------------
// Resolving omitted fields
// ---------------------------------------------------------------------

pub open spec fn or_else(o: Option<Seq<char>>, d: Seq<char>) -> Seq<char> {
    match o {
        Some(s) => s,
        None => d,
    }
}

pub open spec fn or_empty(o: Option<Seq<char>>) -> Seq<char> {
    or_else(o, Seq::empty())
}

/// The variables of the parent's request: omitted optional fields become
/// empty; no parent link; the project always sent.
pub open spec fn parent_vars(t: TicketView) -> VarsView {
    VarsView {
        title: t.title,
        team_id: t.team_id,
        assignee_id: or_empty(t.assignee_id),
        description: or_empty(t.description),
        parent_id: None,
        project_id: Some(or_empty(t.project_id)),
    }
}

/// The variables of the request for child `i`: team and assignee fall back
/// to the parent's resolved values, the description to empty, and the
/// parent link is `parent_id`.
pub open spec fn child_vars(t: TicketView, i: int, parent_id: Seq<char>) -> VarsView {
    VarsView {
        title: t.children[i].title,
        team_id: or_else(t.children[i].team_id, parent_vars(t).team_id),
        assignee_id: or_else(t.children[i].assignee_id, parent_vars(t).assignee_id),
        description: or_empty(t.children[i].description),
        parent_id: Some(parent_id),
        project_id: None,
    }
}

fn text_or(o: &Option<String>, d: &String) -> (r: String)
    ensures
        r@ == or_else(opt_view(*o), d@),
{
    match o {
        Some(s) => s.clone(),
        None => d.clone(),
    }
}

fn text_or_empty(o: &Option<String>) -> (r: String)
    ensures
        r@ == or_empty(opt_view(*o)),
{
    match o {
        Some(s) => s.clone(),
        None => String::new(),
    }
}

/// The variables of the parent's creation request.
pub fn resolve_parent(t: &ParentIssue) -> (r: IssueVariables)
    ensures
        r@ == parent_vars(t@),
{
    IssueVariables {
        title: t.title.clone(),
        team_id: t.team_id.clone(),
        assignee_id: text_or_empty(&t.assignee_id),
        description: text_or_empty(&t.description),
        parent_id: None,
        project_id: Some(text_or_empty(&t.project_id)),
    }
}

/// The variables of the creation request for child `i`, linked to the
/// created parent `parent_id`.
pub fn resolve_child(t: &ParentIssue, i: usize, parent_id: &String) -> (r: IssueVariables)
    requires
        i < t.children@.len(),
    ensures
        r@ == child_vars(t@, i as int, parent_id@),
{
    let parent = resolve_parent(t);
    let c = &t.children[i];
    assert(t@.children[i as int] == c@);
    IssueVariables {
        title: c.title.clone(),
        team_id: text_or(&c.team_id, &parent.team_id),
        assignee_id: text_or(&c.assignee_id, &parent.assignee_id),
        description: text_or_empty(&c.description),
        parent_id: Some(parent_id.clone()),
        project_id: None,
    }
}

/// Defaulting: a child without its own team or assignee receives the
/// parent's resolved value for it, a child with its own keeps it, and an
/// omitted description is sent as the empty string.
pub proof fn lemma_child_defaults(t: TicketView, i: int, parent_id: Seq<char>)
    requires
        0 <= i < t.children.len(),
    ensures
        t.children[i].team_id is None ==> child_vars(t, i, parent_id).team_id == t.team_id,
        t.children[i].team_id matches Some(own) ==> child_vars(t, i, parent_id).team_id == own,
        t.children[i].assignee_id is None ==> child_vars(t, i, parent_id).assignee_id
            == parent_vars(t).assignee_id,
        t.children[i].assignee_id matches Some(own) ==> child_vars(t, i, parent_id).assignee_id
            == own,
        t.children[i].description is None ==> child_vars(t, i, parent_id).description
            == Seq::<char>::empty(),
        t.description is None ==> parent_vars(t).description == Seq::<char>::empty(),
        child_vars(t, i, parent_id).parent_id == Some(parent_id),
{
}

/// The ticket that the TOML text `s` describes, if it is valid TOML of the
/// ticket shape.
pub open spec fn ticket_text(s: Seq<char>) -> Option<TicketView> {
    match toml_tree(s) {
        Some(doc) => ticket_of(doc),
        None => None,
    }
}

/// Reads a ticket from the text of a ticket file; text that is not TOML,
/// or not of the ticket shape, is `MalformedInput`.
pub fn parse_ticket(text: &str) -> (r: Result<ParentIssue, IssueError>)
    ensures
        match r {
            Ok(t) => ticket_text(text@) == Some(t@),
            Err(e) => ticket_text(text@) is None && e is MalformedInput,
        },
{
    match parse_toml_tree(text) {
        Ok(doc) => decode_ticket(&doc),
        Err(detail) => {
            let mut m = "Could not parse the ticket file: ".to_owned();
            append(&mut m, detail.as_str());
            Err(IssueError::MalformedInput(m))
        },
    }
}

/// A document without a string `title` or without a string `team_id` is no
/// ticket, so no request can be formed from it.
pub proof fn lemma_required_fields(doc: Node)
    requires
        field(doc, "title"@) is None || field(doc, "team_id"@) is None,
    ensures
        ticket_of(doc) is None,
{
}

} // verus!
