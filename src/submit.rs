//! The submission protocol for one ticket: the parent's request first, then
//! one request per child in document order, each child linked to the
//! parent's returned identifier; the first failure ends it. The requests
//! themselves are sent by the caller, which hands each reply back.

use vstd::prelude::*;
use crate::error::IssueError;
use crate::reply::{CreatedIssue, IssueView, extract_id_from_response, response_issue};
use crate::ticket::{
    IssueVariables, ParentIssue, TicketView, VarsView, child_vars, parent_vars, resolve_child,
    resolve_parent,
};

verus! {

/// What came back for one request.
#[derive(Debug)]
pub enum Reply {
    /// A response with a 2xx status, and its body.
    Received(String),
    /// No response, or one with another status; the server's text if any.
    Failed(String),
}

/// Why a submission stopped before its end.
#[derive(Debug)]
pub enum Stop {
    RequestFailed,
    ResponseParseError,
}

pub struct SubmissionView {
    pub ticket: TicketView,
    pub created: Seq<IssueView>,
    pub stopped: Option<Stop>,
}

/// The state of the submission of one ticket.
pub struct Submission {
    ticket: ParentIssue,
    created: Vec<CreatedIssue>,
    stopped: Option<Stop>,
}

impl View for Submission {
    type V = SubmissionView;

    closed spec fn view(&self) -> SubmissionView {
        SubmissionView {
            ticket: self.ticket@,
            created: self.created@.map_values(|c: CreatedIssue| c@),
            stopped: self.stopped,
        }
    }
}

/// Nothing created yet, nothing failed.
pub open spec fn start(t: TicketView) -> SubmissionView {
    SubmissionView { ticket: t, created: Seq::empty(), stopped: None }
}

/// The request to send next: the parent's, then each child's linked to the
/// first created issue; none once all are created or one has failed.
pub open spec fn pending(s: SubmissionView) -> Option<VarsView> {
    if s.stopped is Some {
        None
    } else if s.created.len() == 0 {
        Some(parent_vars(s.ticket))
    } else if s.created.len() <= s.ticket.children.len() {
        Some(child_vars(s.ticket, s.created.len() - 1, s.created[0].id))
    } else {
        None
    }
}

/// The issue that a reply reports as created, if it does.
pub open spec fn reply_issue(r: Reply) -> Option<IssueView> {
    match r {
        Reply::Received(body) => response_issue(body@),
        Reply::Failed(_) => None,
    }
}

/// Why a reply that reports no issue stops the submission.
pub open spec fn stop_of(r: Reply) -> Stop {
    match r {
        Reply::Received(_) => Stop::ResponseParseError,
        Reply::Failed(_) => Stop::RequestFailed,
    }
}

/// The state after the reply `r` to the pending request.
pub open spec fn step(s: SubmissionView, r: Reply) -> SubmissionView {
    if pending(s) is None {
        s
    } else {
        match reply_issue(r) {
            Some(i) => SubmissionView { created: s.created.push(i), ..s },
            None => SubmissionView { stopped: Some(stop_of(r)), ..s },
        }
    }
}

/// The requests sent, and the state reached, when each pending request in
/// turn gets the next of `replies`, until none is pending or no reply is
/// left.
pub open spec fn run(s: SubmissionView, replies: Seq<Reply>) -> (Seq<VarsView>, SubmissionView)
    decreases replies.len(),
{
    if replies.len() == 0 || pending(s) is None {
        (Seq::empty(), s)
    } else {
        let rest = run(step(s, replies[0]), replies.drop_first());
        (seq![pending(s).unwrap()] + rest.0, rest.1)
    }
}

impl Submission {
    /// A submission of `ticket` that has sent nothing yet.
    pub fn new(ticket: ParentIssue) -> (r: Submission)
        ensures
            r@ == start(ticket@),
    {
        let r = Submission { ticket, created: Vec::new(), stopped: None };
        assert(r@.created =~= Seq::<IssueView>::empty());
        r
    }

    /// The variables of the request to send next, if any.
    pub fn next_request(&self) -> (r: Option<IssueVariables>)
        ensures
            match r {
                Some(v) => pending(self@) == Some(v@),
                None => pending(self@) is None,
            },
    {
        if self.stopped.is_some() {
            None
        } else if self.created.len() == 0 {
            Some(resolve_parent(&self.ticket))
        } else if self.created.len() <= self.ticket.children.len() {
            let ghost cs = self.created@.map_values(|c: CreatedIssue| c@);
            assert(cs[0] == self.created@[0]@);
            Some(resolve_child(&self.ticket, self.created.len() - 1, &self.created[0].id))
        } else {
            None
        }
    }

    /// Whether no request is left to send.
    pub fn is_finished(&self) -> (r: bool)
        ensures
            r == (pending(self@) is None),
    {
        self.stopped.is_some() || self.created.len() > self.ticket.children.len()
    }

    /// The issues created so far, the parent first.
    pub fn created(&self) -> (r: &Vec<CreatedIssue>)
        ensures
            r@.map_values(|c: CreatedIssue| c@) == self@.created,
    {
        &self.created
    }

    /// Records the reply to the pending request. A reply that reports no
    /// issue stops the submission with the matching error; a reply when no
    /// request is pending changes nothing.
    pub fn record_reply(&mut self, reply: Reply) -> (r: Result<(), IssueError>)
        ensures
            final(self)@ == step(old(self)@, reply),
            r is Ok <==> (pending(old(self)@) is None || reply_issue(reply) is Some),
            r matches Err(e) ==> match reply {
                Reply::Failed(m) => e matches IssueError::RequestFailed(em) && em@ == m@,
                Reply::Received(_) => e is ResponseParseError,
            },
    {
        if self.is_finished() {
            return Ok(());
        }
        let ghost before = self@;
        match reply {
            Reply::Failed(m) => {
                self.stopped = Some(Stop::RequestFailed);
                Err(IssueError::RequestFailed(m))
            },
            Reply::Received(body) => match extract_id_from_response(body.as_str()) {
                Ok(issue) => {
                    self.created.push(issue);
                    assert(self@.created =~= before.created.push(issue@));
                    Ok(())
                },
                Err(e) => {
                    self.stopped = Some(Stop::ResponseParseError);
                    Err(e)
                },
            },
        }
    }
}

/// Submits `ticket` against replies known in advance, request `i` getting
/// `replies[i]`: the requests sent, in order, and the final state.
pub fn submit_with_replies(ticket: ParentIssue, replies: Vec<Reply>) -> (r: (Vec<IssueVariables>, Submission))
    ensures
        r.0@.map_values(|v: IssueVariables| v@) == run(start(ticket@), replies@).0,
        r.1@ == run(start(ticket@), replies@).1,
{
    let ghost all = replies@;
    let ghost t = ticket@;
    let mut sub = Submission::new(ticket);
    let mut rest = replies;
    let mut sent: Vec<IssueVariables> = Vec::new();
    assert(sent@.map_values(|v: IssueVariables| v@) =~= Seq::<VarsView>::empty());
    while rest.len() > 0
        invariant
            run(start(t), all).0 == sent@.map_values(|v: IssueVariables| v@) + run(sub@, rest@).0,
            run(start(t), all).1 == run(sub@, rest@).1,
        ensures
            rest@.len() == 0 || pending(sub@) is None,
            run(start(t), all).0 == sent@.map_values(|v: IssueVariables| v@) + run(sub@, rest@).0,
            run(start(t), all).1 == run(sub@, rest@).1,
        decreases rest@.len(),
    {
        let ghost before = sub@;
        let ghost pending_replies = rest@;
        match sub.next_request() {
            None => {
                break;
            },
            Some(req) => {
                let ghost sent_before = sent@.map_values(|v: IssueVariables| v@);
                sent.push(req);
                assert(sent@.map_values(|v: IssueVariables| v@) =~= sent_before.push(req@));
                let reply = rest.remove(0);
                assert(rest@ =~= pending_replies.drop_first());
                let _ = sub.record_reply(reply);
                assert(sent_before + run(before, pending_replies).0 =~= sent_before.push(req@)
                    + run(sub@, rest@).0);
            },
        }
    }
    assert(run(start(t), all).0 =~= sent@.map_values(|v: IssueVariables| v@));
    (sent, sub)
}

/// The state after `m` further issues, taken in order from `replies`.
pub open spec fn after_successes(s: SubmissionView, replies: Seq<Reply>, m: int) -> SubmissionView {
    SubmissionView {
        created: s.created + Seq::new(m as nat, |j: int| reply_issue(replies[j]).unwrap()),
        ..s
    }
}

/// Child requests numbered from `first`, all linked to `parent_id`.
pub open spec fn child_requests(t: TicketView, first: int, m: int, parent_id: Seq<char>) -> Seq<VarsView> {
    Seq::new(m as nat, |j: int| child_vars(t, first + j, parent_id))
}

/// Once the parent exists, `m` replies that each report an issue send the
/// next `m` child requests, all linked to the parent, and add those issues.
proof fn lemma_children_succeed(s: SubmissionView, replies: Seq<Reply>, m: int)
    requires
        s.stopped is None,
        1 <= s.created.len(),
        0 <= m,
        s.created.len() + m <= s.ticket.children.len() + 1,
        m <= replies.len(),
        forall|i: int| 0 <= i < m ==> #[trigger] reply_issue(replies[i]) is Some,
    ensures
        run(s, replies).0 == child_requests(s.ticket, s.created.len() - 1, m, s.created[0].id)
            + run(after_successes(s, replies, m), replies.skip(m)).0,
        run(s, replies).1 == run(after_successes(s, replies, m), replies.skip(m)).1,
    decreases m,
{
    let first = s.created.len() - 1;
    if m == 0 {
        assert(replies.skip(0) =~= replies);
        assert(after_successes(s, replies, 0).created =~= s.created);
        assert(child_requests(s.ticket, first, 0, s.created[0].id) =~= Seq::<VarsView>::empty());
    } else {
        assert(reply_issue(replies[0]) is Some);
        let next = step(s, replies[0]);
        let tail = replies.drop_first();
        assert(next.created == s.created.push(reply_issue(replies[0]).unwrap()));
        assert(next.created[0] == s.created[0]);
        assert forall|i: int| 0 <= i < m - 1 implies #[trigger] reply_issue(tail[i]) is Some by {
            assert(tail[i] == replies[i + 1]);
            assert(reply_issue(replies[i + 1]) is Some);
        }
        lemma_children_succeed(next, tail, m - 1);
        assert(tail.skip(m - 1) =~= replies.skip(m));
        assert(after_successes(next, tail, m - 1).created =~= after_successes(s, replies, m).created);
        assert(after_successes(next, tail, m - 1) == after_successes(s, replies, m));
        assert(child_requests(s.ticket, first, m, s.created[0].id) =~= seq![pending(s).unwrap()]
            + child_requests(s.ticket, first + 1, m - 1, s.created[0].id));
    }
}

/// A ticket whose every request gets a reply that reports an issue: exactly
/// one request per issue, the parent's first and then each child's in
/// document order, every child linked to the identifier returned for the
/// parent; every returned issue is kept and nothing is left to send.
pub proof fn lemma_all_replies_succeed(t: TicketView, replies: Seq<Reply>)
    requires
        t.children.len() + 1 <= replies.len(),
        forall|i: int| 0 <= i <= t.children.len() ==> #[trigger] reply_issue(replies[i]) is Some,
    ensures
        run(start(t), replies).0.len() == t.children.len() + 1,
        run(start(t), replies).0[0] == parent_vars(t),
        forall|i: int| 0 <= i < t.children.len() ==> #[trigger] run(start(t), replies).0[i + 1]
            == child_vars(t, i, reply_issue(replies[0]).unwrap().id),
        run(start(t), replies).1.created == Seq::new(
            t.children.len() + 1,
            |i: int| reply_issue(replies[i]).unwrap(),
        ),
        run(start(t), replies).1.stopped is None,
        pending(run(start(t), replies).1) is None,
{
    let n = t.children.len() as int;
    let s0 = start(t);
    let s1 = step(s0, replies[0]);
    let tail = replies.drop_first();
    assert(s1.created =~= seq![reply_issue(replies[0]).unwrap()]);
    assert forall|i: int| 0 <= i < n implies #[trigger] reply_issue(tail[i]) is Some by {
        assert(tail[i] == replies[i + 1]);
        assert(reply_issue(replies[i + 1]) is Some);
    }
    lemma_children_succeed(s1, tail, n);
    let end = after_successes(s1, tail, n);
    assert(end.created =~= Seq::new((n + 1) as nat, |i: int| reply_issue(replies[i]).unwrap()));
    assert(pending(end) is None);
    assert(run(end, tail.skip(n)) == (Seq::<VarsView>::empty(), end));
    assert(run(s0, replies).0 =~= seq![parent_vars(t)] + child_requests(t, 0, n, s1.created[0].id));
}

/// A ticket without children: one request, one returned identifier.
pub proof fn lemma_no_children(t: TicketView, replies: Seq<Reply>)
    requires
        t.children.len() == 0,
        1 <= replies.len(),
        reply_issue(replies[0]) is Some,
    ensures
        run(start(t), replies).0 == seq![parent_vars(t)],
        run(start(t), replies).1.created == seq![reply_issue(replies[0]).unwrap()],
        pending(run(start(t), replies).1) is None,
{
    lemma_all_replies_succeed(t, replies);
    assert(run(start(t), replies).0 =~= seq![parent_vars(t)]);
    assert(run(start(t), replies).1.created =~= seq![reply_issue(replies[0]).unwrap()]);
}

/// The first reply that reports no issue ends the submission: the requests
/// sent are those up to and including the one it answered, none after it;
/// the issues created before it stay; the submission stops for the
/// reason the reply gives.
pub proof fn lemma_failure_stops(t: TicketView, replies: Seq<Reply>, k: int)
    requires
        0 <= k <= t.children.len(),
        k < replies.len(),
        forall|i: int| 0 <= i < k ==> #[trigger] reply_issue(replies[i]) is Some,
        reply_issue(replies[k]) is None,
    ensures
        run(start(t), replies).0.len() == k + 1,
        run(start(t), replies).0[0] == parent_vars(t),
        forall|i: int| 0 <= i < k ==> #[trigger] run(start(t), replies).0[i + 1]
            == child_vars(t, i, reply_issue(replies[0]).unwrap().id),
        run(start(t), replies).1.created == Seq::new(k as nat, |i: int| reply_issue(replies[i]).unwrap()),
        run(start(t), replies).1.stopped == Some(stop_of(replies[k])),
        pending(run(start(t), replies).1) is None,
{
    let s0 = start(t);
    if k == 0 {
        let s1 = step(s0, replies[0]);
        assert(pending(s1) is None);
        assert(run(s1, replies.drop_first()) == (Seq::<VarsView>::empty(), s1));
        assert(s1.created =~= Seq::new(0, |i: int| reply_issue(replies[i]).unwrap()));
        assert(run(s0, replies).0 =~= seq![parent_vars(t)]);
    } else {
        let s1 = step(s0, replies[0]);
        let tail = replies.drop_first();
        assert(s1.created =~= seq![reply_issue(replies[0]).unwrap()]);
        assert forall|i: int| 0 <= i < k - 1 implies #[trigger] reply_issue(tail[i]) is Some by {
            assert(tail[i] == replies[i + 1]);
            assert(reply_issue(replies[i + 1]) is Some);
        }
        lemma_children_succeed(s1, tail, k - 1);
        let mid = after_successes(s1, tail, k - 1);
        let rest = tail.skip(k - 1);
        assert(rest[0] == replies[k]);
        assert(mid.created.len() == k);
        assert(mid.created[0] == s1.created[0]);
        let last = step(mid, rest[0]);
        assert(pending(last) is None);
        assert(run(last, rest.drop_first()) == (Seq::<VarsView>::empty(), last));
        assert(mid.created =~= Seq::new(k as nat, |i: int| reply_issue(replies[i]).unwrap()));
        assert(run(mid, rest).0 =~= seq![child_vars(t, k - 1, s1.created[0].id)]);
        assert(run(s0, replies).0 =~= seq![parent_vars(t)] + child_requests(t, 0, k - 1, s1.created[0].id)
            + seq![child_vars(t, k - 1, s1.created[0].id)]);
    }
}

/// A failed request (no response, or a status outside 2xx) aborts the
/// submission with `RequestFailed`, and no request follows it.
pub proof fn lemma_request_failure_aborts(t: TicketView, replies: Seq<Reply>, k: int)
    requires
        0 <= k <= t.children.len(),
        k < replies.len(),
        forall|i: int| 0 <= i < k ==> #[trigger] reply_issue(replies[i]) is Some,
        replies[k] is Failed,
    ensures
        run(start(t), replies).0.len() == k + 1,
        run(start(t), replies).1.stopped == Some(Stop::RequestFailed),
        pending(run(start(t), replies).1) is None,
{
    lemma_failure_stops(t, replies, k);
}

/// A 2xx reply without the expected `issue` structure stops the submission
/// with a response parse error; the issues created before it are kept, not
/// undone.
pub proof fn lemma_unreadable_reply_keeps_created(t: TicketView, replies: Seq<Reply>, k: int)
    requires
        0 <= k <= t.children.len(),
        k < replies.len(),
        forall|i: int| 0 <= i < k ==> #[trigger] reply_issue(replies[i]) is Some,
        replies[k] matches Reply::Received(body) && response_issue(body@) is None,
    ensures
        run(start(t), replies).0.len() == k + 1,
        run(start(t), replies).1.stopped == Some(Stop::ResponseParseError),
        run(start(t), replies).1.created == Seq::new(k as nat, |i: int| reply_issue(replies[i]).unwrap()),
        pending(run(start(t), replies).1) is None,
{
    lemma_failure_stops(t, replies, k);
}

} // verus!
