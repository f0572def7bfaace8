//! Session tokens: the login that yields one, and the cookies it is made of.

use crate::endpoint::Endpoint;
use crate::error::ClientError;
use crate::operation::{single_route, Method, Rule, RuleView, STATUS_FOUND};
use crate::pairs::{
    append_pairs, clone_pairs, lemma_views_add, nested_views, views, NameValue, Pair,
};
use crate::text::{decimal_text, push_decimal};
use crate::trusted::{cookie_pairs, parse_cookie_line};
use vstd::prelude::*;
use vstd::string::StringExecFns;

verus! {

/// The credential of one simulated user: the cookies that the target set when
/// the user logged in, in the order in which they arrived.
#[derive(Debug, PartialEq, Eq)]
pub struct SessionToken {
    pub pairs: Vec<NameValue>,
}

impl View for SessionToken {
    type V = Seq<Pair>;

    open spec fn view(&self) -> Seq<Pair> {
        views(self.pairs@)
    }
}

impl Clone for SessionToken {
    fn clone(&self) -> (r: SessionToken)
        ensures
            r@ == self@,
    {
        SessionToken { pairs: clone_pairs(&self.pairs) }
    }
}

/// The login identifier of a simulated user: `user` followed by the number.
pub open spec fn login_name(user: u32) -> Seq<char> {
    "user"@ + decimal_text(user as nat)
}

/// The form fields of a login. Every simulated user has the same password.
pub open spec fn login_fields(user: u32, referer: Seq<char>) -> Seq<Pair> {
    seq![
        ("utf8"@, "\u{2713}"@),
        ("email"@, login_name(user)),
        ("password"@, "test"@),
        ("commit"@, "Login"@),
        ("referer"@, referer),
    ]
}

/// The rule of a login at the target whose base endpoint is `base`: a POST
/// of the credentials to `login`, answered with a redirect. The login itself
/// is made in nobody's session.
pub open spec fn login_rule_spec(user: u32, base: Seq<char>) -> RuleView {
    RuleView {
        method: Method::Post,
        route: seq!["login"@],
        fields: Some(login_fields(user, base)),
        user: None,
        expected: STATUS_FOUND,
    }
}

/// The rule by which `user` is logged in at the target at `base`.
pub fn login_rule(user: u32, base: &Endpoint) -> (r: Rule)
    ensures
        r@ == login_rule_spec(user, base@),
{
    let mut email = String::from_str("user");
    push_decimal(&mut email, user);
    let mut fields: Vec<NameValue> = Vec::new();
    fields.push(NameValue::new("utf8", "\u{2713}"));
    fields.push(NameValue::new("email", email.as_str()));
    fields.push(NameValue::new("password", "test"));
    fields.push(NameValue::new("commit", "Login"));
    fields.push(NameValue::new("referer", base.as_str()));
    assert(views(fields@) =~= login_fields(user, base@));
    Rule {
        method: Method::Post,
        route: single_route("login"),
        fields: Some(fields),
        user: None,
        expected: STATUS_FOUND,
    }
}

/// The cookies of all lines, in the lines' order; `None` as soon as one line
/// has none that can be read.
pub open spec fn merged(parsed: Seq<Option<Seq<Pair>>>) -> Option<Seq<Pair>>
    decreases parsed.len(),
{
    if parsed.len() == 0 {
        Some(Seq::empty())
    } else {
        match (parsed[0], merged(parsed.drop_first())) {
            (Some(first), Some(rest)) => Some(first + rest),
            _ => None,
        }
    }
}

/// What each `Set-Cookie` line holds, as the cookie parser reads it.
pub open spec fn parsed_lines(lines: Seq<Seq<char>>) -> Seq<Option<Seq<Pair>>> {
    lines.map_values(|line: Seq<char>| cookie_pairs(line))
}

/// The token that a login's answer carries. `set_cookie` holds the lines of
/// the answer's `Set-Cookie` header, `None` where it has no such header.
pub open spec fn token_spec(set_cookie: Option<Seq<Seq<char>>>) -> Option<Seq<Pair>> {
    match set_cookie {
        Some(lines) => merged(parsed_lines(lines)),
        None => None,
    }
}

/// The character sequences of the lines of a header that may be missing.
pub open spec fn lines_view(set_cookie: Option<Vec<String>>) -> Option<Seq<Seq<char>>> {
    match set_cookie {
        Some(lines) => Some(lines@.map_values(|s: String| s@)),
        None => None,
    }
}

spec fn prepend(head: Seq<Pair>, tail: Option<Seq<Pair>>) -> Option<Seq<Pair>> {
    match tail {
        Some(rest) => Some(head + rest),
        None => None,
    }
}

impl SessionToken {
    /// Joins the cookies read from each line of a header into one token.
    /// `None` exactly where some line gave none.
    pub fn merge(parsed: &Vec<Option<Vec<NameValue>>>) -> (r: Option<SessionToken>)
        ensures
            match r {
                Some(token) => merged(nested_views(parsed@)) == Some(token@),
                None => merged(nested_views(parsed@)) is None,
            },
    {
        let ghost all = nested_views(parsed@);
        let mut pairs: Vec<NameValue> = Vec::new();
        let mut i: usize = 0;
        assert(all.skip(0) =~= all);
        assert(prepend(views(pairs@), merged(all)) == merged(all)) by {
            if let Some(rest) = merged(all) {
                assert(views(pairs@) + rest =~= rest);
            }
        }
        while i < parsed.len()
            invariant
                i <= parsed.len(),
                all == nested_views(parsed@),
                merged(all) == prepend(views(pairs@), merged(all.skip(i as int))),
            decreases parsed.len() - i,
        {
            let ghost held = pairs@;
            let ghost before = views(pairs@);
            assert(all.skip(i as int).drop_first() =~= all.skip(i + 1));
            assert(all.skip(i as int)[0] == all[i as int]);
            match &parsed[i] {
                Some(found) => {
                    let copy = clone_pairs(found);
                    append_pairs(&mut pairs, copy);
                    proof {
                        lemma_views_add(held, copy@);
                        let first = views(found@);
                        assert(views(pairs@) == before + first) by {
                            assert(views(pairs@) =~= before + first);
                        }
                        if let Some(rest) = merged(all.skip(i + 1)) {
                            assert((before + first) + rest =~= before + (first + rest));
                        }
                    }
                },
                None => {
                    return None;
                },
            }
            i += 1;
        }
        assert(all.skip(i as int) =~= Seq::empty());
        assert(views(pairs@) + Seq::<Pair>::empty() =~= views(pairs@));
        Some(SessionToken { pairs })
    }

    /// Reads each `Set-Cookie` line with the cookie parser.
    pub fn read_lines(lines: &Vec<String>) -> (r: Vec<Option<Vec<NameValue>>>)
        ensures
            nested_views(r@) == parsed_lines(lines@.map_values(|s: String| s@)),
    {
        let mut r: Vec<Option<Vec<NameValue>>> = Vec::new();
        let mut i: usize = 0;
        while i < lines.len()
            invariant
                i <= lines.len(),
                r.len() == i,
                forall|j: int|
                    0 <= j < i ==> #[trigger] nested_views(r@)[j] == cookie_pairs(lines[j]@),
            decreases lines.len() - i,
        {
            let ghost before = r@;
            let found = match parse_cookie_line(lines[i].as_str()) {
                Ok(found) => Some(found),
                Err(_) => None,
            };
            r.push(found);
            assert forall|j: int| 0 <= j < i + 1 implies #[trigger] nested_views(r@)[j]
                == cookie_pairs(lines[j]@) by {
                if j < i {
                    assert(nested_views(before)[j] == cookie_pairs(lines[j]@));
                    assert(r@[j] == before[j]);
                }
            }
            i += 1;
        }
        assert(nested_views(r@) =~= parsed_lines(lines@.map_values(|s: String| s@)));
        r
    }

    /// The token that the answer to a login carries: the cookies of every
    /// `Set-Cookie` line. Fails where the header is missing or a line cannot
    /// be read.
    pub fn from_set_cookie(set_cookie: &Option<Vec<String>>) -> (r: Result<
        SessionToken,
        ClientError,
    >)
        ensures
            match r {
                Ok(token) => token_spec(lines_view(*set_cookie)) == Some(token@),
                Err(e) => e == ClientError::MalformedResponse && token_spec(
                    lines_view(*set_cookie),
                ) is None,
            },
    {
        match set_cookie {
            Some(lines) => {
                let parsed = SessionToken::read_lines(lines);
                match SessionToken::merge(&parsed) {
                    Some(token) => Ok(token),
                    None => Err(ClientError::MalformedResponse),
                }
            },
            None => Err(ClientError::MalformedResponse),
        }
    }
}

} // verus!
