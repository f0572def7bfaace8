//! Name/value pairs: the fields of a form body and the cookies of a session.

use vstd::prelude::*;
use vstd::string::StringExecFns;

verus! {

/// What a pair is in contracts: its name and its value as character sequences.
pub type Pair = (Seq<char>, Seq<char>);

/// One name with its value.
#[derive(Debug, PartialEq, Eq)]
pub struct NameValue {
    pub name: String,
    pub value: String,
}

impl View for NameValue {
    type V = Pair;

    open spec fn view(&self) -> Pair {
        (self.name@, self.value@)
    }
}

/// The pairs of a list, in its order.
pub open spec fn views(items: Seq<NameValue>) -> Seq<Pair> {
    items.map_values(|p: NameValue| p@)
}

/// The pairs of each list of a list of lists that may be missing.
pub open spec fn nested_views(items: Seq<Option<Vec<NameValue>>>) -> Seq<Option<Seq<Pair>>> {
    items.map_values(
        |o: Option<Vec<NameValue>>|
            match o {
                Some(v) => Some(views(v@)),
                None => None,
            },
    )
}

/// The pairs of a concatenation are the concatenation of the pairs.
pub proof fn lemma_views_add(left: Seq<NameValue>, right: Seq<NameValue>)
    ensures
        views(left + right) == views(left) + views(right),
{
    assert(views(left + right) =~= views(left) + views(right));
}

impl NameValue {
    /// A pair made of copies of `name` and `value`.
    pub fn new(name: &str, value: &str) -> (r: NameValue)
        ensures
            r@ == (name@, value@),
    {
        NameValue { name: String::from_str(name), value: String::from_str(value) }
    }
}

impl Clone for NameValue {
    fn clone(&self) -> (r: NameValue)
        ensures
            r@ == self@,
    {
        NameValue { name: self.name.clone(), value: self.value.clone() }
    }
}

/// A copy of a list of pairs.
pub fn clone_pairs(items: &Vec<NameValue>) -> (r: Vec<NameValue>)
    ensures
        views(r@) == views(items@),
{
    let mut r: Vec<NameValue> = Vec::new();
    let mut i: usize = 0;
    while i < items.len()
        invariant
            i <= items.len(),
            r.len() == i,
            forall|j: int| 0 <= j < i ==> r[j]@ == items[j]@,
        decreases items.len() - i,
    {
        r.push(items[i].clone());
        i += 1;
    }
    assert(views(r@) =~= views(items@));
    r
}

/// Moves the items of `more` to the end of `into`.
pub fn append_pairs(into: &mut Vec<NameValue>, more: Vec<NameValue>)
    ensures
        final(into)@ == old(into)@ + more@,
{
    let mut more = more;
    into.append(&mut more);
}

} // verus!
