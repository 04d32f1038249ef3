//! Stored activities.

use vstd::prelude::*;
use crate::ext::JsonVec;
use crate::types::ActivityType;
use crate::text::string_views;
use crate::normalize::ActivityDocument;

verus! {

/// A stored activity; `published` is in milliseconds since the Unix epoch.
#[derive(Debug, Clone)]
pub struct Model {
    pub internal: i64,
    pub id: String,
    pub activity_type: ActivityType,
    pub actor: String,
    pub object: Option<String>,
    pub target: Option<String>,
    pub to: JsonVec<String>,
    pub bto: JsonVec<String>,
    pub cc: JsonVec<String>,
    pub bcc: JsonVec<String>,
    pub published: i64,
}

/// Appends copies of the strings of `src` to `dst`.
pub fn append_strings(dst: &mut Vec<String>, src: &Vec<String>)
    ensures
        string_views(final(dst)@) == string_views(old(dst)@) + string_views(src@),
{
    let mut i: usize = 0;
    while i < src.len()
        invariant
            i <= src@.len(),
            string_views(dst@) == string_views(old(dst)@) + string_views(src@).take(i as int),
        decreases src@.len() - i,
    {
        let ghost before = dst@;
        dst.push(src[i].clone());
        assert(string_views(dst@) =~= string_views(before).push(src@[i as int]@));
        assert(string_views(src@).take(i + 1) =~= string_views(src@).take(i as int).push(src@[i as int]@));
        i = i + 1;
    }
    assert(string_views(src@).take(src@.len() as int) =~= string_views(src@));
}

/// Everyone an entity is addressed to: `to`, `bto`, `cc`, then `bcc`.
pub open spec fn all_addressed(to: Seq<Seq<char>>, bto: Seq<Seq<char>>, cc: Seq<Seq<char>>, bcc: Seq<Seq<char>>) -> Seq<Seq<char>> {
    to + bto + cc + bcc
}

impl Model {
    /// Everyone the activity is addressed to: `to`, `bto`, `cc`, then `bcc`.
    pub fn addressed(&self) -> (r: Vec<String>)
        ensures
            string_views(r@) == all_addressed(
                string_views(self.to.0@),
                string_views(self.bto.0@),
                string_views(self.cc.0@),
                string_views(self.bcc.0@),
            ),
    {
        let mut r: Vec<String> = Vec::new();
        assert(string_views(r@) =~= Seq::<Seq<char>>::empty());
        append_strings(&mut r, &self.to.0);
        append_strings(&mut r, &self.bto.0);
        append_strings(&mut r, &self.cc.0);
        append_strings(&mut r, &self.bcc.0);
        r
    }

    /// The primary recipients: `to`, then `bto`.
    pub fn mentioning(&self) -> (r: Vec<String>)
        ensures
            string_views(r@) == string_views(self.to.0@) + string_views(self.bto.0@),
    {
        let mut r: Vec<String> = Vec::new();
        assert(string_views(r@) =~= Seq::<Seq<char>>::empty());
        append_strings(&mut r, &self.to.0);
        append_strings(&mut r, &self.bto.0);
        r
    }
}

impl Model {
    /// The activity as it is published: `bto` and `bcc` are never published.
    pub fn into_published(self) -> (r: ActivityDocument)
        ensures
            r.id == Some(self.id) && r.activity_type == Some(self.activity_type),
            r.actor == Some(self.actor) && r.object == self.object && r.target == self.target,
            r.published == Some(self.published),
            r.to == self.to.0 && r.cc == self.cc.0,
            r.bto@.len() == 0 && r.bcc@.len() == 0,
    {
        ActivityDocument {
            id: Some(self.id),
            activity_type: Some(self.activity_type),
            actor: Some(self.actor),
            object: self.object,
            target: self.target,
            published: Some(self.published),
            to: self.to.0,
            bto: Vec::new(),
            cc: self.cc.0,
            bcc: Vec::new(),
        }
    }
}

} // verus!
