use lobsters_web::client::{Pending, Step, WebClient, WebClientSpawner};
use lobsters_web::endpoint::Endpoint;
use lobsters_web::error::ClientError;
use lobsters_web::operation::{
    comment_form, submit_form, vote_route, Method, Operation, Rule, Vote, STATUS_FOUND, STATUS_OK,
};
use lobsters_web::pairs::NameValue;
use lobsters_web::request::{resolve, HttpRequest};
use lobsters_web::session::login_rule;

fn local_client() -> WebClient {
    WebClientSpawner::new("http://localhost:3000").unwrap().spawn()
}

fn pair(name: &str, value: &str) -> NameValue {
    NameValue::new(name, value)
}

fn rule_of(op: Operation) -> Rule {
    op.rule().expect("the operation has a rule")
}

#[test]
fn views_are_get_without_body_or_user() {
    for (op, route) in vec![
        (Operation::Frontpage, Vec::<String>::new()),
        (Operation::Recent, vec!["recent".to_string()]),
        (Operation::Story("abc123".to_string()), vec!["s/".to_string(), "abc123".to_string()]),
    ] {
        let rule = rule_of(op);
        assert_eq!(rule.method, Method::Get);
        assert_eq!(rule.route, route);
        assert_eq!(rule.fields, None);
        assert_eq!(rule.user, None);
        assert_eq!(rule.expected, STATUS_OK);
        assert_eq!(rule.expected, 200);
    }
}

#[test]
fn login_and_logout_have_no_rule() {
    assert_eq!(Operation::Login(3).rule(), None);
    assert_eq!(Operation::Logout(3).rule(), None);
}

#[test]
fn down_vote_maps_to_unvote() {
    assert_eq!(Vote::Down.segment(), "unvote");
    assert_eq!(Vote::Up.segment(), "upvote");
    let down = rule_of(Operation::StoryVote(7, "abc123".to_string(), Vote::Down));
    assert_eq!(down.route, vec!["stories/abc123/unvote".to_string()]);
    let up = rule_of(Operation::StoryVote(7, "abc123".to_string(), Vote::Up));
    assert_eq!(up.route, vec!["stories/abc123/upvote".to_string()]);
    let down = rule_of(Operation::CommentVote(7, "c00001".to_string(), Vote::Down));
    assert_eq!(down.route, vec!["comments/c00001/unvote".to_string()]);
    let up = rule_of(Operation::CommentVote(7, "c00001".to_string(), Vote::Up));
    assert_eq!(up.route, vec!["comments/c00001/upvote".to_string()]);
    assert!(!down.route[0].contains("downvote"));
}

#[test]
fn votes_are_posts_in_the_voters_session() {
    let rule = rule_of(Operation::CommentVote(12, "c00001".to_string(), Vote::Up));
    assert_eq!(rule.method, Method::Post);
    assert_eq!(rule.fields, None);
    assert_eq!(rule.user, Some(12));
    assert_eq!(rule.expected, 200);
    assert_eq!(vote_route("stories", "x", Vote::Down), vec!["stories/x/unvote".to_string()]);
}

#[test]
fn submission_expects_a_redirect() {
    let rule = rule_of(Operation::Submit {
        id: "abc123".to_string(),
        user: 9,
        title: "Hello World".to_string(),
    });
    assert_eq!(rule.method, Method::Post);
    assert_eq!(rule.route, vec!["stories".to_string()]);
    assert_eq!(rule.user, Some(9));
    assert_eq!(rule.expected, STATUS_FOUND);
    assert_eq!(rule.expected, 302);
    assert_eq!(
        rule.fields,
        Some(vec![
            pair("commit", "Submit"),
            pair("story[short_id]", "abc123"),
            pair("story[tags_a][]", "benchmark"),
            pair("story[title]", "Hello World"),
            pair("story[description]", "to infinity"),
            pair("utf8", "\u{2713}"),
        ])
    );
    assert_eq!(rule.fields, Some(submit_form("abc123", "Hello World")));
}

#[test]
fn comment_without_parent_omits_the_parent_field() {
    let rule = rule_of(Operation::Comment {
        id: "c00001".to_string(),
        user: 4,
        story: "abc123".to_string(),
        parent: None,
    });
    assert_eq!(rule.method, Method::Post);
    assert_eq!(rule.route, vec!["comments".to_string()]);
    assert_eq!(rule.user, Some(4));
    assert_eq!(rule.expected, 200);
    let fields = rule.fields.unwrap();
    assert_eq!(
        fields,
        vec![
            pair("short_id", "c00001"),
            pair("comment", "moar benchmarking"),
            pair("story_id", "abc123"),
            pair("utf8", "\u{2713}"),
        ]
    );
    assert!(fields.iter().all(|f| f.name != "parent_comment_short_id"));
    assert_eq!(fields, comment_form("c00001", "abc123", &None));
}

#[test]
fn comment_with_parent_carries_the_parent_field() {
    let rule = rule_of(Operation::Comment {
        id: "c00002".to_string(),
        user: 4,
        story: "abc123".to_string(),
        parent: Some("c00001".to_string()),
    });
    let fields = rule.fields.unwrap();
    assert_eq!(
        fields,
        vec![
            pair("short_id", "c00002"),
            pair("comment", "moar benchmarking"),
            pair("parent_comment_short_id", "c00001"),
            pair("story_id", "abc123"),
            pair("utf8", "\u{2713}"),
        ]
    );
    let parents: Vec<&NameValue> =
        fields.iter().filter(|f| f.name == "parent_comment_short_id").collect();
    assert_eq!(parents.len(), 1);
    assert_eq!(parents[0].value, "c00001");
}

#[test]
fn endpoint_parse_normalizes_and_rejects() {
    let e = Endpoint::parse("HTTP://LocalHost:3000").unwrap();
    assert_eq!(e.as_str(), "http://localhost:3000/");
    assert!(Endpoint::parse("not a url").is_none());
    assert!(Endpoint::parse("/relative/only").is_none());
    assert!(Endpoint::parse("").is_none());
}

#[test]
fn endpoint_join_follows_url_rules() {
    let base = Endpoint::parse("http://example.com/app/").unwrap();
    assert_eq!(base.join("recent").unwrap().as_str(), "http://example.com/app/recent");
    let bare = Endpoint::parse("http://example.com/app").unwrap();
    assert_eq!(bare.join("recent").unwrap().as_str(), "http://example.com/recent");
    assert_eq!(bare.join("").unwrap().as_str(), "http://example.com/app");
    let opaque = Endpoint::parse("mailto:someone@example.com").unwrap();
    assert!(opaque.join("recent").is_none());
}

#[test]
fn resolve_joins_each_reference_in_turn() {
    let base = Endpoint::parse("http://localhost:3000").unwrap();
    assert_eq!(resolve(&base, &vec![]).unwrap().as_str(), "http://localhost:3000/");
    let route = vec!["s/".to_string(), "abc123".to_string()];
    assert_eq!(resolve(&base, &route).unwrap().as_str(), "http://localhost:3000/s/abc123");
    let up = vec!["s/".to_string(), "../recent".to_string()];
    assert_eq!(resolve(&base, &up).unwrap().as_str(), "http://localhost:3000/recent");
    let opaque = Endpoint::parse("mailto:someone@example.com").unwrap();
    assert!(resolve(&opaque, &vec!["recent".to_string()]).is_none());
    assert_eq!(resolve(&opaque, &vec![]).unwrap().as_str(), "mailto:someone@example.com");
}

#[test]
fn frontpage_request_is_the_base_endpoint() {
    let base = Endpoint::parse("http://localhost:3000").unwrap();
    let request = HttpRequest::translate(&base, &rule_of(Operation::Frontpage)).unwrap();
    assert_eq!(
        request,
        HttpRequest {
            method: Method::Get,
            url: "http://localhost:3000/".to_string(),
            body: None,
            cookie: None,
        }
    );
    assert_eq!(request.content_type(), None);
}

#[test]
fn story_request_is_keyed_by_the_short_id() {
    let base = Endpoint::parse("http://localhost:3000").unwrap();
    let op = Operation::Story("abc123".to_string());
    let request = HttpRequest::translate(&base, &rule_of(op)).unwrap();
    assert_eq!(request.method, Method::Get);
    assert_eq!(request.url, "http://localhost:3000/s/abc123");
    assert_eq!(request.body, None);
}

#[test]
fn submit_request_has_the_encoded_form() {
    let base = Endpoint::parse("http://localhost:3000").unwrap();
    let op = Operation::Submit {
        id: "abc123".to_string(),
        user: 9,
        title: "Hello World & more".to_string(),
    };
    let request = HttpRequest::translate(&base, &rule_of(op)).unwrap();
    assert_eq!(request.method, Method::Post);
    assert_eq!(request.url, "http://localhost:3000/stories");
    assert_eq!(
        request.body.as_deref(),
        Some(
            "commit=Submit&story%5Bshort_id%5D=abc123&story%5Btags_a%5D%5B%5D=benchmark\
             &story%5Btitle%5D=Hello+World+%26+more&story%5Bdescription%5D=to+infinity\
             &utf8=%E2%9C%93"
        )
    );
    assert_eq!(request.content_type(), Some("application/x-www-form-urlencoded"));
    assert_eq!(request.cookie, None);
}

#[test]
fn comment_bodies_differ_only_in_the_parent_field() {
    let base = Endpoint::parse("http://localhost:3000").unwrap();
    let plain = Operation::Comment {
        id: "c00002".to_string(),
        user: 4,
        story: "abc123".to_string(),
        parent: None,
    };
    let reply = Operation::Comment {
        id: "c00002".to_string(),
        user: 4,
        story: "abc123".to_string(),
        parent: Some("c00001".to_string()),
    };
    let plain = HttpRequest::translate(&base, &rule_of(plain)).unwrap();
    let reply = HttpRequest::translate(&base, &rule_of(reply)).unwrap();
    assert_eq!(plain.url, "http://localhost:3000/comments");
    assert_eq!(
        plain.body.as_deref(),
        Some("short_id=c00002&comment=moar+benchmarking&story_id=abc123&utf8=%E2%9C%93")
    );
    assert!(!plain.body.as_deref().unwrap().contains("parent_comment_short_id"));
    assert_eq!(
        reply.body.as_deref(),
        Some(
            "short_id=c00002&comment=moar+benchmarking&parent_comment_short_id=c00001\
             &story_id=abc123&utf8=%E2%9C%93"
        )
    );
}

#[test]
fn login_request_carries_the_fixture_credentials() {
    let base = Endpoint::parse("http://localhost:3000").unwrap();
    let rule = login_rule(7, &base);
    assert_eq!(rule.method, Method::Post);
    assert_eq!(rule.route, vec!["login".to_string()]);
    assert_eq!(rule.user, None);
    assert_eq!(rule.expected, 302);
    assert_eq!(
        rule.fields,
        Some(vec![
            pair("utf8", "\u{2713}"),
            pair("email", "user7"),
            pair("password", "test"),
            pair("commit", "Login"),
            pair("referer", "http://localhost:3000/"),
        ])
    );
    let request = HttpRequest::translate(&base, &rule).unwrap();
    assert_eq!(request.url, "http://localhost:3000/login");
    assert_eq!(
        request.body.as_deref(),
        Some(
            "utf8=%E2%9C%93&email=user7&password=test&commit=Login\
             &referer=http%3A%2F%2Flocalhost%3A3000%2F"
        )
    );
    let big = login_rule(4294967295, &base);
    assert_eq!(big.fields.unwrap()[1], pair("email", "user4294967295"));
}

#[test]
fn translation_fails_where_no_address_can_be_formed() {
    let opaque = Endpoint::parse("mailto:someone@example.com").unwrap();
    let r = HttpRequest::translate(&opaque, &rule_of(Operation::Recent));
    assert_eq!(r, Err(ClientError::Configuration));
    assert_eq!(
        HttpRequest::assemble(Method::Get, None, None),
        Err(ClientError::Configuration)
    );
    let base = Endpoint::parse("http://localhost:3000").unwrap();
    let ok = HttpRequest::assemble(Method::Post, Some(base), Some("a=b".to_string())).unwrap();
    assert_eq!(ok.url, "http://localhost:3000/");
    assert_eq!(ok.method, Method::Post);
    assert_eq!(ok.body.as_deref(), Some("a=b"));
}

#[test]
fn same_operation_translates_to_the_same_request() {
    let make = || Operation::Submit {
        id: "abc123".to_string(),
        user: 9,
        title: "A title".to_string(),
    };
    let mut client = local_client();
    let first = client.handle(make());
    let second = client.handle(make());
    assert_eq!(first, second);
    let mut other = local_client();
    assert_eq!(other.handle(make()), first);
    match first {
        Step::Send { then: Pending::Login { request, expected, user }, .. } => {
            assert_eq!(user, 9);
            assert_eq!(expected, 302);
            assert_eq!(request.url, "http://localhost:3000/stories");
        }
        other => panic!("unexpected step {:?}", other),
    }
    let base = Endpoint::parse("http://localhost:3000").unwrap();
    let story = || rule_of(Operation::Story("abc123".to_string()));
    assert_eq!(HttpRequest::translate(&base, &story()), HttpRequest::translate(&base, &story()));
}
