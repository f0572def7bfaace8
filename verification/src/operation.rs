//! The operations that a driver may ask for, and the rule by which each one
//! becomes an HTTP request.

use crate::pairs::{views, NameValue, Pair};
use vstd::prelude::*;
use vstd::string::StringExecFns;

verus! {

/// The status that the target gives to a page or an accepted vote or comment.
pub const STATUS_OK: u16 = 200;

/// The status of a redirect, with which the target answers a login and a
/// submitted story.
pub const STATUS_FOUND: u16 = 302;

/// The direction of a vote.
#[derive(Debug, Clone, Copy, PartialEq, Eq, Structural)]
pub enum Vote {
    Up,
    Down,
}

/// The HTTP method of a request.
#[derive(Debug, Clone, Copy, PartialEq, Eq, Structural)]
pub enum Method {
    Get,
    Post,
}

/// One action of a simulated user. Stories and comments are named by the
/// short identifiers that the driver supplies.
#[derive(Debug, PartialEq, Eq)]
pub enum Operation {
    /// View the front page.
    Frontpage,
    /// View the list of recent stories.
    Recent,
    /// View one story.
    Story(String),
    /// Log a user in. Sessions are acquired on demand, so this does nothing.
    Login(u32),
    /// Log a user out. Does nothing.
    Logout(u32),
    /// A user votes on a story.
    StoryVote(u32, String, Vote),
    /// A user votes on a comment.
    CommentVote(u32, String, Vote),
    /// A user submits a story.
    Submit { id: String, user: u32, title: String },
    /// A user comments on a story, possibly in reply to another comment.
    Comment { id: String, user: u32, story: String, parent: Option<String> },
}

/// An operation with its texts as character sequences.
pub enum OperationView {
    Frontpage,
    Recent,
    Story(Seq<char>),
    Login(u32),
    Logout(u32),
    StoryVote(u32, Seq<char>, Vote),
    CommentVote(u32, Seq<char>, Vote),
    Submit { id: Seq<char>, user: u32, title: Seq<char> },
    Comment { id: Seq<char>, user: u32, story: Seq<char>, parent: Option<Seq<char>> },
}

impl View for Operation {
    type V = OperationView;

    open spec fn view(&self) -> OperationView {
        match *self {
            Operation::Frontpage => OperationView::Frontpage,
            Operation::Recent => OperationView::Recent,
            Operation::Story(id) => OperationView::Story(id@),
            Operation::Login(user) => OperationView::Login(user),
            Operation::Logout(user) => OperationView::Logout(user),
            Operation::StoryVote(user, id, vote) => OperationView::StoryVote(user, id@, vote),
            Operation::CommentVote(user, id, vote) => OperationView::CommentVote(user, id@, vote),
            Operation::Submit { id, user, title } => OperationView::Submit {
                id: id@,
                user,
                title: title@,
            },
            Operation::Comment { id, user, story, parent } => OperationView::Comment {
                id: id@,
                user,
                story: story@,
                parent: match parent {
                    Some(p) => Some(p@),
                    None => None,
                },
            },
        }
    }
}

/// How one operation is put on the wire.
#[derive(Debug, PartialEq, Eq)]
pub struct Rule {
    /// GET for a view, POST for whatever changes the target's state.
    pub method: Method,
    /// The references that lead from the base endpoint to the request's
    /// address, each resolved against the result of the one before it. Empty
    /// for the base endpoint itself.
    pub route: Vec<String>,
    /// The fields of the form body, where the request has a body.
    pub fields: Option<Vec<NameValue>>,
    /// The user in whose session the request is made, if any.
    pub user: Option<u32>,
    /// The one status that counts as success.
    pub expected: u16,
}

/// A rule with its texts as character sequences.
pub struct RuleView {
    pub method: Method,
    pub route: Seq<Seq<char>>,
    pub fields: Option<Seq<Pair>>,
    pub user: Option<u32>,
    pub expected: u16,
}

/// The character sequences of a list of strings.
pub open spec fn texts(items: Seq<String>) -> Seq<Seq<char>> {
    items.map_values(|s: String| s@)
}

impl View for Rule {
    type V = RuleView;

    open spec fn view(&self) -> RuleView {
        RuleView {
            method: self.method,
            route: texts(self.route@),
            fields: match self.fields {
                Some(f) => Some(views(f@)),
                None => None,
            },
            user: self.user,
            expected: self.expected,
        }
    }
}

/// The last path segment of a vote. The target has no endpoint for a vote
/// against: voting down withdraws the vote.
pub open spec fn vote_segment(vote: Vote) -> Seq<char> {
    match vote {
        Vote::Up => "upvote"@,
        Vote::Down => "unvote"@,
    }
}

/// The reference of a vote on the item `id` of `collection`.
pub open spec fn vote_reference(collection: Seq<char>, id: Seq<char>, vote: Vote) -> Seq<char> {
    collection + "/"@ + id + "/"@ + vote_segment(vote)
}

/// The form fields of a submitted story.
pub open spec fn submit_fields(id: Seq<char>, title: Seq<char>) -> Seq<Pair> {
    seq![
        ("commit"@, "Submit"@),
        ("story[short_id]"@, id),
        ("story[tags_a][]"@, "benchmark"@),
        ("story[title]"@, title),
        ("story[description]"@, "to infinity"@),
        ("utf8"@, "\u{2713}"@),
    ]
}

/// The form fields of a comment. The parent's field is there only for a reply.
pub open spec fn comment_fields(id: Seq<char>, story: Seq<char>, parent: Option<Seq<char>>) -> Seq<
    Pair,
> {
    let head = seq![("short_id"@, id), ("comment"@, "moar benchmarking"@)];
    let tail = seq![("story_id"@, story), ("utf8"@, "\u{2713}"@)];
    match parent {
        Some(p) => head + seq![("parent_comment_short_id"@, p)] + tail,
        None => head + tail,
    }
}

/// The rule of each operation; `None` for the two that are not sent at all.
pub open spec fn rule_spec(op: OperationView) -> Option<RuleView> {
    match op {
        OperationView::Frontpage => Some(
            RuleView {
                method: Method::Get,
                route: seq![],
                fields: None,
                user: None,
                expected: STATUS_OK,
            },
        ),
        OperationView::Recent => Some(
            RuleView {
                method: Method::Get,
                route: seq!["recent"@],
                fields: None,
                user: None,
                expected: STATUS_OK,
            },
        ),
        OperationView::Story(id) => Some(
            RuleView {
                method: Method::Get,
                route: seq!["s/"@, id],
                fields: None,
                user: None,
                expected: STATUS_OK,
            },
        ),
        OperationView::Login(_) => None,
        OperationView::Logout(_) => None,
        OperationView::StoryVote(user, id, vote) => Some(
            RuleView {
                method: Method::Post,
                route: seq![vote_reference("stories"@, id, vote)],
                fields: None,
                user: Some(user),
                expected: STATUS_OK,
            },
        ),
        OperationView::CommentVote(user, id, vote) => Some(
            RuleView {
                method: Method::Post,
                route: seq![vote_reference("comments"@, id, vote)],
                fields: None,
                user: Some(user),
                expected: STATUS_OK,
            },
        ),
        OperationView::Submit { id, user, title } => Some(
            RuleView {
                method: Method::Post,
                route: seq!["stories"@],
                fields: Some(submit_fields(id, title)),
                user: Some(user),
                expected: STATUS_FOUND,
            },
        ),
        OperationView::Comment { id, user, story, parent } => Some(
            RuleView {
                method: Method::Post,
                route: seq!["comments"@],
                fields: Some(comment_fields(id, story, parent)),
                user: Some(user),
                expected: STATUS_OK,
            },
        ),
    }
}

impl Vote {
    /// The last path segment of a vote in this direction: `upvote` for up,
    /// `unvote` for down.
    pub fn segment(self) -> (r: &'static str)
        ensures
            r@ == vote_segment(self),
    {
        match self {
            Vote::Up => "upvote",
            Vote::Down => "unvote",
        }
    }
}

/// The reference of a vote: `collection`, the item's identifier and the
/// direction's segment, separated by slashes.
pub fn vote_route(collection: &str, id: &str, vote: Vote) -> (r: Vec<String>)
    ensures
        texts(r@) == seq![vote_reference(collection@, id@, vote)],
{
    let mut reference = String::from_str(collection);
    reference.append("/");
    reference.append(id);
    reference.append("/");
    reference.append(vote.segment());
    let mut r: Vec<String> = Vec::new();
    r.push(reference);
    assert(texts(r@) =~= seq![vote_reference(collection@, id@, vote)]);
    r
}

/// A route of one reference.
pub fn single_route(reference: &str) -> (r: Vec<String>)
    ensures
        texts(r@) == seq![reference@],
{
    let mut r: Vec<String> = Vec::new();
    r.push(String::from_str(reference));
    assert(texts(r@) =~= seq![reference@]);
    r
}

/// The form fields with which a story is submitted.
pub fn submit_form(id: &str, title: &str) -> (r: Vec<NameValue>)
    ensures
        views(r@) == submit_fields(id@, title@),
{
    let mut r: Vec<NameValue> = Vec::new();
    r.push(NameValue::new("commit", "Submit"));
    r.push(NameValue::new("story[short_id]", id));
    r.push(NameValue::new("story[tags_a][]", "benchmark"));
    r.push(NameValue::new("story[title]", title));
    r.push(NameValue::new("story[description]", "to infinity"));
    r.push(NameValue::new("utf8", "\u{2713}"));
    assert(views(r@) =~= submit_fields(id@, title@));
    r
}

/// The form fields with which a comment is posted. The field
/// `parent_comment_short_id` is written only where `parent` is given.
pub fn comment_form(id: &str, story: &str, parent: &Option<String>) -> (r: Vec<NameValue>)
    ensures
        views(r@) == comment_fields(
            id@,
            story@,
            match *parent {
                Some(p) => Some(p@),
                None => None,
            },
        ),
{
    let mut r: Vec<NameValue> = Vec::new();
    r.push(NameValue::new("short_id", id));
    r.push(NameValue::new("comment", "moar benchmarking"));
    match parent {
        Some(p) => {
            r.push(NameValue::new("parent_comment_short_id", p.as_str()));
        },
        None => {},
    }
    r.push(NameValue::new("story_id", story));
    r.push(NameValue::new("utf8", "\u{2713}"));
    assert(views(r@) =~= comment_fields(
        id@,
        story@,
        match *parent {
            Some(p) => Some(p@),
            None => None,
        },
    ));
    r
}

impl Operation {
    /// The rule by which this operation is put on the wire, `None` for a
    /// login or a logout, which are not sent.
    pub fn rule(&self) -> (r: Option<Rule>)
        ensures
            match r {
                Some(rule) => rule_spec(self@) == Some(rule@),
                None => rule_spec(self@) is None,
            },
    {
        match self {
            Operation::Frontpage => {
                let route: Vec<String> = Vec::new();
                assert(texts(route@) =~= seq![]);
                Some(
                    Rule {
                        method: Method::Get,
                        route,
                        fields: None,
                        user: None,
                        expected: STATUS_OK,
                    },
                )
            },
            Operation::Recent => Some(
                Rule {
                    method: Method::Get,
                    route: single_route("recent"),
                    fields: None,
                    user: None,
                    expected: STATUS_OK,
                },
            ),
            Operation::Story(id) => {
                let mut route: Vec<String> = Vec::new();
                route.push(String::from_str("s/"));
                route.push(id.clone());
                assert(texts(route@) =~= seq!["s/"@, id@]);
                Some(
                    Rule {
                        method: Method::Get,
                        route,
                        fields: None,
                        user: None,
                        expected: STATUS_OK,
                    },
                )
            },
            Operation::Login(_) => None,
            Operation::Logout(_) => None,
            Operation::StoryVote(user, id, vote) => Some(
                Rule {
                    method: Method::Post,
                    route: vote_route("stories", id.as_str(), *vote),
                    fields: None,
                    user: Some(*user),
                    expected: STATUS_OK,
                },
            ),
            Operation::CommentVote(user, id, vote) => Some(
                Rule {
                    method: Method::Post,
                    route: vote_route("comments", id.as_str(), *vote),
                    fields: None,
                    user: Some(*user),
                    expected: STATUS_OK,
                },
            ),
            Operation::Submit { id, user, title } => Some(
                Rule {
                    method: Method::Post,
                    route: single_route("stories"),
                    fields: Some(submit_form(id.as_str(), title.as_str())),
                    user: Some(*user),
                    expected: STATUS_FOUND,
                },
            ),
            Operation::Comment { id, user, story, parent } => Some(
                Rule {
                    method: Method::Post,
                    route: single_route("comments"),
                    fields: Some(comment_form(id.as_str(), story.as_str(), parent)),
                    user: Some(*user),
                    expected: STATUS_OK,
                },
            ),
        }
    }
}

} // verus!
