//! Paged collections: page sizes and the links between pages.

use vstd::prelude::*;
use crate::types::CollectionType;
use crate::text::{decimal, replace_all, chars_of, chars_replace_all, push_str, push_decimal, string_of};

verus! {

/// The page size asked for, 20 by default and 50 at most, and the offset, 0 by default.
pub fn page_window(batch: Option<u64>, offset: Option<u64>) -> (r: (u64, u64))
    ensures
        r.0 == (match batch { Some(b) => if b < 50 { b } else { 50 }, None => 20 }),
        r.1 == (match offset { Some(o) => o, None => 0 }),
{
    let limit = match batch {
        Some(b) => if b < 50 { b } else { 50 },
        None => 20,
    };
    let offset = match offset {
        Some(o) => o,
        None => 0,
    };
    (limit, offset)
}

/// The links of one page of a collection.
#[derive(Debug, Clone)]
pub struct PageLinks {
    /// the page's own id
    pub id: String,
    /// the collection the page belongs to
    pub part_of: String,
    /// the next page, when this one is full
    pub next: Option<String>,
}

/// The id of the page of collection page `id` at `offset`.
pub open spec fn page_id(id: Seq<char>, offset: nat) -> Seq<char> {
    id + "?offset="@ + decimal(offset)
}

/// The links of the page at `offset` of the collection page `id`, holding
/// `n_items` items of at most `limit`: it belongs to `id` without `/page`, and a
/// next page follows only when this one is full.
pub fn collection_page_links(id: &str, offset: u64, limit: u64, n_items: usize) -> (r: PageLinks)
    requires
        offset + limit <= u64::MAX,
    ensures
        r.id@ == page_id(id@, offset as nat),
        r.part_of@ == replace_all(id@, "/page"@, Seq::empty()),
        (n_items as int) < (limit as int) ==> r.next is None,
        (n_items as int) >= (limit as int) ==> (r.next matches Some(n) && n@ == page_id(id@, (offset + limit) as nat)),
{
    let mut own: Vec<char> = Vec::new();
    push_str(&mut own, id);
    push_str(&mut own, "?offset=");
    push_decimal(&mut own, offset);
    let c = chars_of(id);
    let p = chars_of("/page");
    let empty: Vec<char> = Vec::new();
    let part = chars_replace_all(c.as_slice(), p.as_slice(), empty.as_slice());
    assert(empty@ =~= Seq::<char>::empty());
    let next = if (n_items as u128) < (limit as u128) {
        None
    } else {
        let mut n: Vec<char> = Vec::new();
        push_str(&mut n, id);
        push_str(&mut n, "?offset=");
        push_decimal(&mut n, offset + limit);
        Some(string_of(n.as_slice()))
    };
    PageLinks { id: string_of(own.as_slice()), part_of: string_of(part.as_slice()), next }
}

/// The first page of the collection `id`.
pub fn collection_first_page(id: &str) -> (r: String)
    ensures
        r@ == id@ + "/page"@,
{
    let mut out: Vec<char> = Vec::new();
    push_str(&mut out, id);
    push_str(&mut out, "/page");
    string_of(out.as_slice())
}

/// One page of an ordered collection, as it is served: its id, its type, the
/// collection it belongs to, the next page when there is one, and its items in
/// order.
#[derive(Debug, Clone)]
pub struct CollectionPage<T> {
    pub id: String,
    pub collection_type: CollectionType,
    pub part_of: String,
    pub next: Option<String>,
    pub ordered_items: Vec<T>,
}

/// The page at `offset` of the collection page `id`, holding `items` of at most
/// `limit`: an `OrderedCollectionPage` with the items in order, its links as
/// `collection_page_links` gives them.
pub fn collection_page<T>(id: &str, offset: u64, limit: u64, items: Vec<T>) -> (r: CollectionPage<T>)
    requires
        offset + limit <= u64::MAX,
    ensures
        r.id@ == page_id(id@, offset as nat),
        r.collection_type == CollectionType::OrderedCollectionPage,
        r.part_of@ == replace_all(id@, "/page"@, Seq::empty()),
        (items@.len() as int) < (limit as int) ==> r.next is None,
        (items@.len() as int) >= (limit as int) ==> (r.next matches Some(n) && n@ == page_id(id@, (offset + limit) as nat)),
        r.ordered_items@ == items@,
{
    let links = collection_page_links(id, offset, limit, items.len());
    CollectionPage {
        id: links.id,
        collection_type: CollectionType::OrderedCollectionPage,
        part_of: links.part_of,
        next: links.next,
        ordered_items: items,
    }
}

/// An ordered collection, as it is served: its id, its type, its first page and
/// its size when known.
#[derive(Debug, Clone)]
pub struct Collection {
    pub id: String,
    pub collection_type: CollectionType,
    pub first: String,
    pub total_items: Option<u64>,
}

/// The ordered collection `id` with `total_items` items when known; its first
/// page is `{id}/page`.
pub fn collection(id: &str, total_items: Option<u64>) -> (r: Collection)
    ensures
        r.id@ == id@,
        r.collection_type == CollectionType::OrderedCollection,
        r.first@ == id@ + "/page"@,
        r.total_items == total_items,
{
    Collection {
        id: id.to_string(),
        collection_type: CollectionType::OrderedCollection,
        first: collection_first_page(id),
        total_items,
    }
}

} // verus!
