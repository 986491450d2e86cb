//! What the command line asks for, and which files hold tickets.

use vstd::prelude::*;

verus! {

/// The message when neither mode is asked for.
pub const NO_PARAMETERS: &'static str =
    "Linear Templater cannot be run without parameters. To see available parameters use --help";

/// The message when both modes are asked for.
pub const INVALID_PARAMETERS: &'static str = "Invalid parameters. For more information try --help";

/// The extension of ticket files.
pub const TICKET_EXTENSION: &'static str = ".toml";

/// The build manifest, which shares the extension but holds no ticket.
pub const MANIFEST_NAME: &'static str = "Cargo.toml";

/// One run's work.
#[derive(Debug)]
pub enum Mode {
    /// Fetch the identifiers and write them to this path.
    FetchIds(String),
    /// Create the issues of the ticket file, or of every ticket file under
    /// the directory, at this path.
    CreateTickets(String),
}

/// Chooses the mode from the two options: exactly one must be given.
pub fn dispatch(fetch_ids: Option<String>, create_tickets: Option<String>) -> (r: Result<Mode, String>)
    ensures
        match (fetch_ids, create_tickets) {
            (Some(p), None) => r matches Ok(Mode::FetchIds(q)) && q@ == p@,
            (None, Some(p)) => r matches Ok(Mode::CreateTickets(q)) && q@ == p@,
            (None, None) => r matches Err(e) && e@ == NO_PARAMETERS@,
            (Some(_), Some(_)) => r matches Err(e) && e@ == INVALID_PARAMETERS@,
        },
{
    match (fetch_ids, create_tickets) {
        (Some(p), None) => Ok(Mode::FetchIds(p)),
        (None, Some(p)) => Ok(Mode::CreateTickets(p)),
        (None, None) => Err(NO_PARAMETERS.to_owned()),
        (Some(_), Some(_)) => Err(INVALID_PARAMETERS.to_owned()),
    }
}

pub open spec fn ends_with(s: Seq<char>, suffix: Seq<char>) -> bool {
    suffix.len() <= s.len() && s.subrange(s.len() - suffix.len(), s.len() as int) == suffix
}

pub open spec fn occurs_at(s: Seq<char>, part: Seq<char>, i: int) -> bool {
    0 <= i && i + part.len() <= s.len() && s.subrange(i, i + part.len()) == part
}

pub open spec fn contains(s: Seq<char>, part: Seq<char>) -> bool {
    exists|i: int| #[trigger] occurs_at(s, part, i)
}

/// Whether `part` stands in `s` from position `at`.
fn matches_at(s: &str, part: &str, at: usize) -> (r: bool)
    requires
        at + part@.len() <= s@.len(),
    ensures
        r == occurs_at(s@, part@, at as int),
{
    let total = s.unicode_len();
    let n = part.unicode_len();
    let mut j: usize = 0;
    while j < n
        invariant
            n == part@.len(),
            total == s@.len(),
            at + n <= s@.len(),
            0 <= j <= n,
            forall|k: int| 0 <= k < j ==> s@[at + k] == part@[k],
        decreases n - j,
    {
        if s.get_char(at + j) != part.get_char(j) {
            assert(s@.subrange(at as int, at + n)[j as int] != part@[j as int]);
            return false;
        }
        j = j + 1;
    }
    assert(s@.subrange(at as int, at + n) =~= part@);
    true
}

fn has_suffix(s: &str, suffix: &str) -> (r: bool)
    ensures
        r == ends_with(s@, suffix@),
{
    let n = s.unicode_len();
    let m = suffix.unicode_len();
    if m > n {
        return false;
    }
    matches_at(s, suffix, n - m)
}

fn has_part(s: &str, part: &str) -> (r: bool)
    ensures
        r == contains(s@, part@),
{
    let n = s.unicode_len();
    let m = part.unicode_len();
    if m > n {
        assert forall|i: int| !occurs_at(s@, part@, i) by {}
        return false;
    }
    if m == 0 {
        assert(s@.subrange(0, 0) =~= part@);
        assert(occurs_at(s@, part@, 0));
        return true;
    }
    let mut i: usize = 0;
    while i <= n - m
        invariant
            n == s@.len(),
            m == part@.len(),
            1 <= m <= n,
            0 <= i <= n - m + 1,
            forall|k: int| 0 <= k < i ==> !occurs_at(s@, part@, k),
        decreases n - m + 1 - i,
    {
        if matches_at(s, part, i) {
            return true;
        }
        i = i + 1;
    }
    assert forall|k: int| !occurs_at(s@, part@, k) by {
        if 0 <= k && k < i {
        }
    }
    false
}

/// Whether a file of this name holds a ticket: it ends in the ticket
/// extension and is not the build manifest.
pub fn is_issue_toml(file_name: &str) -> (r: bool)
    ensures
        r == (ends_with(file_name@, TICKET_EXTENSION@) && !contains(file_name@, MANIFEST_NAME@)),
{
    has_suffix(file_name, TICKET_EXTENSION) && !has_part(file_name, MANIFEST_NAME)
}

} // verus!
