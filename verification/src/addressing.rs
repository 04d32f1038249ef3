//! Who an activity or object is addressed to, and who it is delivered to.

use vstd::prelude::*;
use crate::context::{Context, server_of};
use crate::types::PUBLIC;
use crate::text::{
    starts_with, ends_with, replace_all, string_views, chars_of, chars_eq, chars_eq_str,
    chars_ends_with, chars_replace_all, string_of,
};

verus! {

/// A recipient that gets a delivery: a non-empty id of another server that is
/// not among the `rejected` instances, and not "everyone".
pub open spec fn deliverable(domain: Seq<char>, rejected: Seq<Seq<char>>, to: Seq<char>) -> bool {
    &&& to.len() > 0
    &&& server_of(to) != domain
    &&& !rejected.contains(server_of(to))
    &&& to != PUBLIC@
}

/// The instances that get no deliveries, as configured.
pub open spec fn rejected_for_delivery(ctx: Context) -> Seq<Seq<char>> {
    string_views(ctx.config_view().reject.delivery@)
}

/// A recipient that gets an addressing entry: a non-empty id that is not a
/// followers collection and, unless the entity is local, is "everyone" or local.
pub open spec fn addressable(base: Seq<char>, local: bool, to: Seq<char>) -> bool {
    &&& to.len() > 0
    &&& !ends_with(to, "/followers"@)
    &&& (local || to == PUBLIC@ || starts_with(to, base))
}

/// The recipients of a list that get a delivery, in order.
pub open spec fn deliverable_targets(domain: Seq<char>, rejected: Seq<Seq<char>>, to: Seq<Seq<char>>) -> Seq<Seq<char>>
    decreases to.len(),
{
    if to.len() == 0 {
        Seq::empty()
    } else {
        let rest = deliverable_targets(domain, rejected, to.drop_last());
        if deliverable(domain, rejected, to.last()) { rest.push(to.last()) } else { rest }
    }
}

/// The recipients of a list that get an addressing entry, in order.
pub open spec fn addressable_targets(base: Seq<char>, local: bool, to: Seq<Seq<char>>) -> Seq<Seq<char>>
    decreases to.len(),
{
    if to.len() == 0 {
        Seq::empty()
    } else {
        let rest = addressable_targets(base, local, to.drop_last());
        if addressable(base, local, to.last()) { rest.push(to.last()) } else { rest }
    }
}

/// Whether a recipient gets a delivery.
pub fn is_deliverable(ctx: &Context, to: &str) -> (r: bool)
    ensures
        r == deliverable(ctx.domain_view(), rejected_for_delivery(*ctx), to@),
{
    let c = chars_of(to);
    if c.len() == 0 {
        return false;
    }
    let server = Context::server(to);
    let sc = chars_of(server.as_str());
    let dc = chars_of(ctx.domain());
    if chars_eq(sc.as_slice(), dc.as_slice()) {
        return false;
    }
    if list_contains(&ctx.cfg().reject.delivery, server.as_str()) {
        return false;
    }
    !chars_eq_str(c.as_slice(), PUBLIC)
}

/// Whether a recipient gets an addressing entry.
pub fn is_addressable(ctx: &Context, local: bool, to: &str) -> (r: bool)
    ensures
        r == addressable(ctx.base_view(), local, to@),
{
    let c = chars_of(to);
    if c.len() == 0 {
        return false;
    }
    let f = chars_of("/followers");
    if chars_ends_with(c.as_slice(), f.as_slice()) {
        return false;
    }
    local || chars_eq_str(c.as_slice(), PUBLIC) || ctx.is_local(to)
}

/// The recipients that get a delivery, in order.
pub fn delivery_targets(ctx: &Context, to: &Vec<String>) -> (r: Vec<String>)
    ensures
        string_views(r@) == deliverable_targets(ctx.domain_view(), rejected_for_delivery(*ctx), string_views(to@)),
{
    let ghost tv = string_views(to@);
    let mut r: Vec<String> = Vec::new();
    let mut i: usize = 0;
    while i < to.len()
        invariant
            tv == string_views(to@),
            i <= to@.len(),
            string_views(r@) == deliverable_targets(ctx.domain_view(), rejected_for_delivery(*ctx), tv.take(i as int)),
        decreases to@.len() - i,
    {
        assert(tv.take(i + 1).drop_last() =~= tv.take(i as int));
        let ghost before = r@;
        if is_deliverable(ctx, to[i].as_str()) {
            r.push(to[i].clone());
            assert(string_views(r@) =~= string_views(before).push(tv[i as int]));
        }
        i = i + 1;
    }
    assert(tv.take(to@.len() as int) =~= tv);
    r
}

/// The recipients that get an addressing entry, in order.
pub fn addressing_targets(ctx: &Context, local: bool, to: &Vec<String>) -> (r: Vec<String>)
    ensures
        string_views(r@) == addressable_targets(ctx.base_view(), local, string_views(to@)),
{
    let ghost tv = string_views(to@);
    let mut r: Vec<String> = Vec::new();
    let mut i: usize = 0;
    while i < to.len()
        invariant
            tv == string_views(to@),
            i <= to@.len(),
            string_views(r@) == addressable_targets(ctx.base_view(), local, tv.take(i as int)),
        decreases to@.len() - i,
    {
        assert(tv.take(i + 1).drop_last() =~= tv.take(i as int));
        let ghost before = r@;
        if is_addressable(ctx, local, to[i].as_str()) {
            r.push(to[i].clone());
            assert(string_views(r@) =~= string_views(before).push(tv[i as int]));
        }
        i = i + 1;
    }
    assert(tv.take(to@.len() as int) =~= tv);
    r
}

/// Law: every delivery target is deliverable (another server, not rejected, not
/// "everyone") and was among the recipients.
pub proof fn lemma_delivery_targets_sound(domain: Seq<char>, rejected: Seq<Seq<char>>, to: Seq<Seq<char>>, i: int)
    requires
        0 <= i < deliverable_targets(domain, rejected, to).len(),
    ensures
        deliverable(domain, rejected, deliverable_targets(domain, rejected, to)[i]),
        to.contains(deliverable_targets(domain, rejected, to)[i]),
    decreases to.len(),
{
    if to.len() > 0 {
        let rest = deliverable_targets(domain, rejected, to.drop_last());
        if i < rest.len() {
            lemma_delivery_targets_sound(domain, rejected, to.drop_last(), i);
            let k = choose|k: int| 0 <= k < to.drop_last().len() && to.drop_last()[k] == rest[i];
            assert(to[k] == rest[i]);
        } else {
            assert(to[to.len() - 1] == to.last());
        }
    }
}

/// Law: every deliverable recipient is a delivery target.
pub proof fn lemma_delivery_targets_complete(domain: Seq<char>, rejected: Seq<Seq<char>>, to: Seq<Seq<char>>, i: int)
    requires
        0 <= i < to.len(),
        deliverable(domain, rejected, to[i]),
    ensures
        deliverable_targets(domain, rejected, to).contains(to[i]),
    decreases to.len(),
{
    let rest = deliverable_targets(domain, rejected, to.drop_last());
    if i < to.len() - 1 {
        lemma_delivery_targets_complete(domain, rejected, to.drop_last(), i);
        assert(to.drop_last()[i] == to[i]);
        let k = choose|k: int| 0 <= k < rest.len() && rest[k] == to[i];
        assert(rest.push(to.last())[k] == to[i]);
    } else {
        assert(rest.push(to.last())[rest.len() as int] == to[i]);
    }
}

/// The owner of a followers collection id (`…/followers`), if it is one.
pub fn followers_owner(target: &str) -> (r: Option<String>)
    ensures
        ends_with(target@, "/followers"@) ==> (r matches Some(o) && o@ == replace_all(target@, "/followers"@, Seq::empty())),
        !ends_with(target@, "/followers"@) ==> r is None,
{
    let c = chars_of(target);
    let f = chars_of("/followers");
    if chars_ends_with(c.as_slice(), f.as_slice()) {
        let empty: Vec<char> = Vec::new();
        let o = chars_replace_all(c.as_slice(), f.as_slice(), empty.as_slice());
        assert(empty@ =~= Seq::<char>::empty());
        Some(string_of(o.as_slice()))
    } else {
        None
    }
}

/// A followers collection expanded: its members, or its owner when it has none
/// (so that the entity stays addressed to someone).
pub fn followers_or_owner(owner: String, followers: Vec<String>) -> (r: Vec<String>)
    ensures
        followers@.len() == 0 ==> string_views(r@) == seq![owner@],
        followers@.len() > 0 ==> r@ == followers@,
{
    if followers.len() == 0 {
        let mut r: Vec<String> = Vec::new();
        r.push(owner);
        assert(string_views(r@) =~= seq![owner@]);
        r
    } else {
        followers
    }
}

/// Recipients with followers collections replaced by their members: `followers[i]`
/// is `Some` exactly when recipient `i` is a known actor's followers collection.
pub open spec fn expanded(targets: Seq<Seq<char>>, followers: Seq<Option<Seq<Seq<char>>>>) -> Seq<Seq<char>>
    decreases targets.len(),
{
    if targets.len() == 0 || followers.len() == 0 {
        Seq::empty()
    } else {
        let rest = expanded(targets.drop_last(), followers.drop_last());
        match followers.last() {
            Some(members) => rest + members,
            None => rest.push(targets.last()),
        }
    }
}

/// The views of optional lists of strings.
pub open spec fn opt_lists_view(v: Seq<Option<Vec<String>>>) -> Seq<Option<Seq<Seq<char>>>> {
    v.map_values(|o: Option<Vec<String>>| match o {
        Some(l) => Some(string_views(l@)),
        None => None,
    })
}

/// The full list of recipients: the members of the audience group first, then
/// each recipient, with followers collections replaced by their members.
pub fn expand_addressing(audience_members: Vec<String>, targets: &Vec<String>, followers: &Vec<Option<Vec<String>>>) -> (r: Vec<String>)
    requires
        targets@.len() == followers@.len(),
    ensures
        string_views(r@) == string_views(audience_members@) + expanded(string_views(targets@), opt_lists_view(followers@)),
{
    let ghost tv = string_views(targets@);
    let ghost fv = opt_lists_view(followers@);
    let mut out = audience_members;
    let ghost start = string_views(out@);
    let mut i: usize = 0;
    while i < targets.len()
        invariant
            tv == string_views(targets@),
            fv == opt_lists_view(followers@),
            targets@.len() == followers@.len(),
            i <= targets@.len(),
            string_views(out@) == start + expanded(tv.take(i as int), fv.take(i as int)),
        decreases targets@.len() - i,
    {
        assert(tv.take(i + 1).drop_last() =~= tv.take(i as int));
        assert(fv.take(i + 1).drop_last() =~= fv.take(i as int));
        let ghost before = string_views(out@);
        match &followers[i] {
            Some(members) => {
                crate::model::activity::append_strings(&mut out, members);
                assert(start + expanded(tv.take(i + 1), fv.take(i + 1)) =~= before + string_views(members@));
            },
            None => {
                out.push(targets[i].clone());
                assert(string_views(out@) =~= before.push(tv[i as int]));
            },
        }
        i = i + 1;
    }
    assert(tv.take(targets@.len() as int) =~= tv);
    assert(fv.take(targets@.len() as int) =~= fv);
    out
}


/// Whether `id` is one of `list`.
pub fn list_contains(list: &Vec<String>, id: &str) -> (r: bool)
    ensures
        r == string_views(list@).contains(id@),
{
    let idc = chars_of(id);
    let mut i: usize = 0;
    while i < list.len()
        invariant
            i <= list@.len(),
            idc@ == id@,
            forall|j: int| 0 <= j < i ==> list@[j]@ != id@,
        decreases list@.len() - i,
    {
        let c = chars_of(list[i].as_str());
        if chars_eq(c.as_slice(), idc.as_slice()) {
            assert(string_views(list@)[i as int] == id@);
            return true;
        }
        i = i + 1;
    }
    assert(!string_views(list@).contains(id@)) by {
        if string_views(list@).contains(id@) {
            let k = choose|k: int| 0 <= k < string_views(list@).len() && string_views(list@)[k] == id@;
            assert(list@[k]@ == id@);
        }
    }
    false
}

proof fn lemma_push_no_dup(s: Seq<Seq<char>>, x: Seq<char>)
    requires
        s.no_duplicates(),
        !s.contains(x),
    ensures
        s.push(x).no_duplicates(),
{
    let t = s.push(x);
    assert forall|p: int, q: int| 0 <= p < t.len() && 0 <= q < t.len() && p != q implies t[p] != t[q] by {
        if p == s.len() {
            assert(t[q] == s[q]);
            if s[q] == x {
                assert(s.contains(x));
            }
        } else if q == s.len() {
            assert(t[p] == s[p]);
            if s[p] == x {
                assert(s.contains(x));
            }
        } else {
            assert(t[p] == s[p] && t[q] == s[q]);
        }
    }
}

/// The recipients of an activity and of its object, divided into those of both,
/// those of the activity only and those of the object only, each without repeats.
pub fn split_addressing(activity: &Vec<String>, object: &Vec<String>) -> (r: (Vec<String>, Vec<String>, Vec<String>))
    ensures
        string_views(r.0@).to_set() == string_views(activity@).to_set().intersect(string_views(object@).to_set()),
        string_views(r.1@).to_set() == string_views(activity@).to_set().difference(string_views(object@).to_set()),
        string_views(r.2@).to_set() == string_views(object@).to_set().difference(string_views(activity@).to_set()),
        string_views(r.0@).no_duplicates(),
        string_views(r.1@).no_duplicates(),
        string_views(r.2@).no_duplicates(),
{
    let ghost av = string_views(activity@);
    let ghost ov = string_views(object@);
    let mut common: Vec<String> = Vec::new();
    let mut only_a: Vec<String> = Vec::new();
    let mut only_o: Vec<String> = Vec::new();
    let mut i: usize = 0;
    while i < activity.len()
        invariant
            av == string_views(activity@),
            ov == string_views(object@),
            i <= activity@.len(),
            string_views(common@).to_set() == av.take(i as int).to_set().intersect(ov.to_set()),
            string_views(only_a@).to_set() == av.take(i as int).to_set().difference(ov.to_set()),
            string_views(common@).no_duplicates(),
            string_views(only_a@).no_duplicates(),
        decreases activity@.len() - i,
    {
        let x = activity[i].as_str();
        let ghost xv = av[i as int];
        assert(av.take(i + 1) =~= av.take(i as int).push(xv));
        assert(av.take(i + 1).to_set() =~= av.take(i as int).to_set().insert(xv)) by {
            av.take(i as int).lemma_push_to_set_commute(xv);
        }
        let in_o = list_contains(object, x);
        if in_o {
            if !list_contains(&common, x) {
                let ghost before = string_views(common@);
                common.push(activity[i].clone());
                assert(string_views(common@) =~= before.push(xv));
                proof { before.lemma_push_to_set_commute(xv); }
                proof { lemma_push_no_dup(before, xv); }
            }
            assert(string_views(common@).to_set() =~= av.take(i + 1).to_set().intersect(ov.to_set()));
            assert(string_views(only_a@).to_set() =~= av.take(i + 1).to_set().difference(ov.to_set()));
        } else {
            if !list_contains(&only_a, x) {
                let ghost before = string_views(only_a@);
                only_a.push(activity[i].clone());
                assert(string_views(only_a@) =~= before.push(xv));
                proof { before.lemma_push_to_set_commute(xv); }
                proof { lemma_push_no_dup(before, xv); }
            }
            assert(string_views(common@).to_set() =~= av.take(i + 1).to_set().intersect(ov.to_set()));
            assert(string_views(only_a@).to_set() =~= av.take(i + 1).to_set().difference(ov.to_set()));
        }
        i = i + 1;
    }
    assert(av.take(activity@.len() as int) =~= av);
    let mut j: usize = 0;
    while j < object.len()
        invariant
            av == string_views(activity@),
            ov == string_views(object@),
            j <= object@.len(),
            string_views(only_o@).to_set() == ov.take(j as int).to_set().difference(av.to_set()),
            string_views(only_o@).no_duplicates(),
        decreases object@.len() - j,
    {
        let y = object[j].as_str();
        let ghost yv = ov[j as int];
        assert(ov.take(j + 1) =~= ov.take(j as int).push(yv));
        assert(ov.take(j + 1).to_set() =~= ov.take(j as int).to_set().insert(yv)) by {
            ov.take(j as int).lemma_push_to_set_commute(yv);
        }
        if !list_contains(activity, y) && !list_contains(&only_o, y) {
            let ghost before = string_views(only_o@);
            only_o.push(object[j].clone());
            assert(string_views(only_o@) =~= before.push(yv));
            proof { before.lemma_push_to_set_commute(yv); }
            proof { lemma_push_no_dup(before, yv); }
        }
        assert(string_views(only_o@).to_set() =~= ov.take(j + 1).to_set().difference(av.to_set()));
        j = j + 1;
    }
    assert(ov.take(object@.len() as int) =~= ov);
    (common, only_a, only_o)
}

/// Law: the three parts of the recipients cover the activity's recipients (both
/// and activity-only), cover the object's (both and object-only), and do not overlap.
pub proof fn lemma_split_addressing_partition(a: Set<Seq<char>>, o: Set<Seq<char>>)
    ensures
        a.intersect(o).union(a.difference(o)) == a,
        a.intersect(o).union(o.difference(a)) == o,
        a.intersect(o).disjoint(a.difference(o)),
        a.intersect(o).disjoint(o.difference(a)),
        a.difference(o).disjoint(o.difference(a)),
{
    assert(a.intersect(o).union(a.difference(o)) =~= a);
    assert(a.intersect(o).union(o.difference(a)) =~= o);
}

} // verus!
