//! Stored entities and the pure parts of their behaviour.

pub mod activity;
pub mod actor;
pub mod attachment;
pub mod object;
pub mod job;
pub mod config;
pub mod relation;
pub mod credential;
pub mod mention;
pub mod hashtag;
pub mod instance;
pub mod addressing;

use vstd::prelude::*;
use crate::text::{string_views};

verus! {

/// An addressing field as it arrives: empty, a link, an embedded object (with its
/// id when it has one), or an array of items (each with its id when it has one).
pub enum AudienceNode {
    Empty,
    Link(String),
    Object(Option<String>),
    Array(Vec<Option<String>>),
}

/// The ids that an addressing field names.
#[derive(Debug, Clone)]
pub struct Audience(pub Vec<String>);

/// The ids present among optional ids, in order.
pub open spec fn present_ids(items: Seq<Option<String>>) -> Seq<Seq<char>>
    decreases items.len(),
{
    if items.len() == 0 {
        Seq::empty()
    } else {
        let rest = present_ids(items.drop_last());
        match items.last() {
            Some(s) => rest.push(s@),
            None => rest,
        }
    }
}

/// The ids that an addressing field names.
pub open spec fn node_ids(node: AudienceNode) -> Seq<Seq<char>> {
    match node {
        AudienceNode::Empty => Seq::empty(),
        AudienceNode::Link(l) => seq![l@],
        AudienceNode::Object(id) => match id {
            Some(s) => seq![s@],
            None => Seq::empty(),
        },
        AudienceNode::Array(items) => present_ids(items@),
    }
}

impl From<AudienceNode> for Audience {
    fn from(value: AudienceNode) -> (r: Self)
        ensures
            string_views(r.0@) == node_ids(value),
    {
        let ghost v = value;
        let mut out: Vec<String> = Vec::new();
        match value {
            AudienceNode::Empty => {},
            AudienceNode::Link(l) => { out.push(l); },
            AudienceNode::Object(id) => {
                if let Some(s) = id {
                    out.push(s);
                }
            },
            AudienceNode::Array(items) => {
                let mut i: usize = 0;
                while i < items.len()
                    invariant
                        i <= items@.len(),
                        string_views(out@) == present_ids(items@.take(i as int)),
                    decreases items@.len() - i,
                {
                    assert(items@.take(i + 1).drop_last() =~= items@.take(i as int));
                    let ghost before = out@;
                    match &items[i] {
                        Some(s) => {
                            out.push(s.clone());
                            assert(string_views(out@) =~= string_views(before).push(items@[i as int]->0@));
                        },
                        None => {},
                    }
                    i = i + 1;
                }
                assert(items@.take(items@.len() as int) =~= items@);
            },
        }
        assert(v matches AudienceNode::Empty ==> string_views(out@) =~= Seq::<Seq<char>>::empty());
        assert(v matches AudienceNode::Link(l) ==> string_views(out@) =~= seq![l@]);
        assert(v matches AudienceNode::Object(Some(s)) ==> string_views(out@) =~= seq![s@]);
        assert(v matches AudienceNode::Object(None) ==> string_views(out@) =~= Seq::<Seq<char>>::empty());
        Audience(out)
    }
}

impl vstd::std_specs::convert::FromSpecImpl<AudienceNode> for Audience {
    open spec fn obeys_from_spec() -> bool {
        false
    }

    open spec fn from_spec(v: AudienceNode) -> Self {
        arbitrary()
    }
}

} // verus!
