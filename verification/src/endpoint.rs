//! The address of the target application and the addresses derived from it.

use crate::trusted::{join_url, joined_url, parse_url, parsed_url};
use vstd::prelude::*;

verus! {

/// Whether `text` is the serialization of a URL: what parsing some input, or
/// joining some reference onto some base, has produced.
pub open spec fn is_url_text(text: Seq<char>) -> bool {
    ||| exists|input: Seq<char>| parsed_url(input) == Some(text)
    ||| exists|base: Seq<char>, reference: Seq<char>| joined_url(base, reference) == Some(text)
}

/// An absolute URL, held as its serialization.
///
/// The only ways to make one are [`Endpoint::parse`] and [`Endpoint::join`],
/// so every value holds text that the URL parser has produced.
#[derive(Debug)]
pub struct Endpoint {
    text: String,
}

impl View for Endpoint {
    type V = Seq<char>;

    closed spec fn view(&self) -> Seq<char> {
        self.text@
    }
}

impl Endpoint {
    #[verifier::type_invariant]
    spec fn well_formed(self) -> bool {
        is_url_text(self.text@)
    }

    /// Parses an absolute URL. `None` exactly where the parser rejects `input`.
    pub fn parse(input: &str) -> (r: Option<Endpoint>)
        ensures
            match r {
                Some(e) => parsed_url(input@) == Some(e@),
                None => parsed_url(input@) is None,
            },
    {
        match parse_url(input) {
            Ok(text) => Some(Endpoint { text }),
            Err(_) => None,
        }
    }

    /// Resolves `reference` against this URL. `None` exactly where the parser
    /// cannot resolve it.
    pub fn join(&self, reference: &str) -> (r: Option<Endpoint>)
        ensures
            match r {
                Some(e) => joined_url(self@, reference@) == Some(e@),
                None => joined_url(self@, reference@) is None,
            },
    {
        match join_url(self.text.as_str(), reference) {
            Ok(text) => Some(Endpoint { text }),
            Err(_) => None,
        }
    }

    /// The serialization of this URL.
    pub fn as_str(&self) -> (r: &str)
        ensures
            r@ == self@,
            is_url_text(r@),
    {
        proof {
            use_type_invariant(self);
        }
        self.text.as_str()
    }
}

impl Clone for Endpoint {
    fn clone(&self) -> (r: Endpoint)
        ensures
            r@ == self@,
    {
        proof {
            use_type_invariant(self);
        }
        Endpoint { text: self.text.clone() }
    }
}

} // verus!
