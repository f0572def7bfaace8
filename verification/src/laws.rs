//! What holds of the mapping and of every client, whatever the driver does.

use crate::client::{
    login_outcome, remembered, resume_spec, session_spec, start_spec, ClientView, PendingView,
    ResponseView, SessionStepView, StepView,
};
use crate::operation::{
    comment_fields, rule_spec, vote_reference, vote_segment, OperationView, Vote,
};
use vstd::prelude::*;

verus! {

/// Whether two clients agree on whatever an operation of `user` can depend
/// on: on whether the user has a session, and on its token.
pub open spec fn same_session(a: ClientView, b: ClientView, user: u32) -> bool {
    &&& a.sessions.contains_key(user) == b.sessions.contains_key(user)
    &&& a.sessions.contains_key(user) ==> a.sessions[user] == b.sessions[user]
}

/// The same operation on the same input gives the same step: the step
/// depends on the client only through its base endpoint, through whether it
/// has given up, and through the session of the operation's own user. What
/// the client holds for other users, and what it did before, plays no part.
pub proof fn law_same_operation_same_step(a: ClientView, b: ClientView, op: OperationView)
    requires
        a.base == b.base,
        a.failure == b.failure,
        forall|user: u32|
            rule_spec(op) matches Some(rule) && rule.user == Some(user) ==> same_session(
                a,
                b,
                user,
            ),
    ensures
        start_spec(a, op) == start_spec(b, op),
{
    if a.failure is None {
        if let Some(rule) = rule_spec(op) {
            if let Some(user) = rule.user {
                assert(same_session(a, b, user));
            }
        }
    }
}

/// Beginning an operation changes nothing that a later operation could see,
/// so beginning the same operation again gives the same step.
pub proof fn law_repeated_operation(c: ClientView, op: OperationView)
    ensures
        start_spec(c.settled(start_spec(c, op)), op) == start_spec(c, op),
{
}

/// The request of an operation is the same whether the user's session was
/// cached or has just been acquired: what is sent after a login is what the
/// client that now holds the session would send at once.
pub proof fn law_request_after_login(
    c: ClientView,
    op: OperationView,
    response: ResponseView,
)
    requires
        start_spec(c, op) matches StepView::Send { then, .. } && then is Login,
        resume_spec(c, start_spec(c, op)->then, response).1 is Send,
    ensures
        ({
            let (after, next) = resume_spec(c, start_spec(c, op)->then, response);
            next == start_spec(after, op)
        }),
{
    let rule = rule_spec(op)->0;
    let user = rule.user->0;
    let token = login_outcome(user, response)->Ok_0;
    assert(!c.sessions.contains_key(user));
    assert(remembered(c.sessions, user, token)[user] == token);
}

/// A user is logged in once per client. The first reference to a user finds
/// no token and asks for a login (or gives up where the login's address cannot
/// be formed). Once a good answer to that login has been admitted, the client
/// holds the token that the answer carried, and every later reference to the
/// user is served with that token and asks for nothing to be sent.
pub proof fn law_login_once(
    c: ClientView,
    user: u32,
    pending: PendingView,
    response: ResponseView,
)
    requires
        c.failure is None,
        !c.sessions.contains_key(user),
        pending matches PendingView::Login { user: u, .. } && u == user,
        login_outcome(user, response) is Ok,
    ensures
        !(session_spec(c, user) is Cached),
        ({
            let token = login_outcome(user, response)->Ok_0;
            let after = resume_spec(c, pending, response).0;
            &&& after == (ClientView { sessions: c.sessions.insert(user, token), ..c })
            &&& session_spec(after, user) == SessionStepView::Cached(token)
        }),
{
}

/// No operation of a user who has a session begins with a login.
pub proof fn law_cached_session_needs_no_login(c: ClientView, op: OperationView, user: u32)
    requires
        c.sessions.contains_key(user),
        rule_spec(op) matches Some(rule) && rule.user == Some(user),
    ensures
        !(session_spec(c, user) is Login),
        start_spec(c, op) matches StepView::Send { request, then } ==> {
            &&& then is Reply
            &&& request.cookie == Some(c.sessions[user])
        },
{
}

/// A request carries a session exactly where its operation has a user: what
/// is sent for an operation without a user carries none, a login carries
/// none, and the request of a user's operation is never sent without the
/// user's token.
pub proof fn law_session_attached_iff_user(c: ClientView, op: OperationView)
    requires
        start_spec(c, op) is Send,
    ensures
        ({
            let rule = rule_spec(op)->0;
            let request = start_spec(c, op)->request;
            match start_spec(c, op)->then {
                PendingView::Reply { expected } => {
                    &&& expected == rule.expected
                    &&& match rule.user {
                        Some(user) => c.sessions.contains_key(user) && request.cookie == Some(
                            c.sessions[user],
                        ),
                        None => request.cookie is None,
                    }
                },
                PendingView::Login { user, request: held, expected } => {
                    &&& expected == rule.expected
                    &&& rule.user == Some(user)
                    &&& !c.sessions.contains_key(user)
                    &&& request.cookie is None
                    &&& held.cookie is None
                    &&& forall|response: ResponseView|
                        (#[trigger] resume_spec(c, start_spec(c, op)->then, response)).1 matches StepView::Send {
                            request: next,
                            ..
                        } ==> next.cookie == Some(login_outcome(user, response)->Ok_0)
                },
            }
        }),
{
}

/// The sessions of a client only grow: whatever answer a client takes, every
/// token that it held before is still there, unchanged.
pub proof fn law_sessions_only_grow(
    c: ClientView,
    pending: PendingView,
    response: ResponseView,
    user: u32,
)
    requires
        c.sessions.contains_key(user),
    ensures
        ({
            let after = resume_spec(c, pending, response).0;
            &&& after.sessions.contains_key(user)
            &&& after.sessions[user] == c.sessions[user]
            &&& after.base == c.base
        }),
{
}

/// Beginning an operation leaves base and sessions as they were.
pub proof fn law_start_keeps_sessions(c: ClientView, op: OperationView)
    ensures
        c.settled(start_spec(c, op)).sessions == c.sessions,
        c.settled(start_spec(c, op)).base == c.base,
{
}

/// Giving up is final: a client that has given up answers every operation
/// and every answer with the same abort, and stays as it is.
pub proof fn law_abort_is_final(
    c: ClientView,
    op: OperationView,
    pending: PendingView,
    response: ResponseView,
)
    requires
        c.failure is Some,
    ensures
        start_spec(c, op) == StepView::Abort(c.failure->0),
        c.settled(start_spec(c, op)) == c,
        resume_spec(c, pending, response) == (c, StepView::Abort(c.failure->0)),
{
}

/// Clients share no sessions: a login admitted by client `a` gives `a` the
/// user's session, and a client `b` without one still has to log the user in
/// itself, whatever `a` holds.
pub proof fn law_sessions_are_per_client(
    a: ClientView,
    b: ClientView,
    user: u32,
    pending: PendingView,
    response: ResponseView,
)
    requires
        a.failure is None,
        b.failure is None,
        pending matches PendingView::Login { user: u, .. } && u == user,
        login_outcome(user, response) is Ok,
        !b.sessions.contains_key(user),
    ensures
        resume_spec(a, pending, response).0.sessions.contains_key(user),
        !(session_spec(b, user) is Cached),
        forall|op: OperationView|
            rule_spec(op) matches Some(rule) && rule.user == Some(user) ==> !(#[trigger] start_spec(
                b,
                op,
            ) matches StepView::Send { then, .. } && then is Reply),
{
}

/// A vote up goes to `upvote` and a vote down to `unvote`, on stories and on
/// comments; no vote goes to `downvote`.
pub proof fn law_vote_segments(user: u32, id: Seq<char>, vote: Vote)
    ensures
        vote == Vote::Up ==> vote_segment(vote) == "upvote"@,
        vote == Vote::Down ==> vote_segment(vote) == "unvote"@,
        vote_segment(vote) != "downvote"@,
        rule_spec(OperationView::StoryVote(user, id, vote))->0.route == seq![
            "stories"@ + "/"@ + id + "/"@ + vote_segment(vote),
        ],
        rule_spec(OperationView::CommentVote(user, id, vote))->0.route == seq![
            "comments"@ + "/"@ + id + "/"@ + vote_segment(vote),
        ],
{
    reveal_strlit("upvote");
    reveal_strlit("unvote");
    reveal_strlit("downvote");
    assert("upvote"@.len() == 6);
    assert("unvote"@.len() == 6);
    assert("downvote"@.len() == 8);
    assert(vote_reference("stories"@, id, vote) == "stories"@ + "/"@ + id + "/"@ + vote_segment(
        vote,
    ));
}

/// The name of the form field that holds a comment's parent.
pub open spec fn parent_field() -> Seq<char> {
    "parent_comment_short_id"@
}

/// A comment without a parent has no parent field in its form; a reply has
/// exactly one, and its value is the parent's identifier as given.
pub proof fn law_comment_parent_field(id: Seq<char>, story: Seq<char>, parent: Option<Seq<char>>)
    ensures
        parent is None ==> forall|i: int|
            0 <= i < comment_fields(id, story, parent).len() ==> (#[trigger] comment_fields(
                id,
                story,
                parent,
            )[i]).0 != parent_field(),
        parent matches Some(p) ==> {
            let fields = comment_fields(id, story, parent);
            &&& fields.len() == 5
            &&& fields[2] == (parent_field(), p)
            &&& forall|i: int|
                0 <= i < fields.len() && i != 2 ==> (#[trigger] fields[i]).0 != parent_field()
        },
{
    reveal_strlit("parent_comment_short_id");
    reveal_strlit("short_id");
    reveal_strlit("comment");
    reveal_strlit("story_id");
    reveal_strlit("utf8");
    assert("parent_comment_short_id"@.len() == 23);
    assert("short_id"@.len() == 8);
    assert("comment"@.len() == 7);
    assert("story_id"@.len() == 8);
    assert("utf8"@.len() == 4);
}

} // verus!
