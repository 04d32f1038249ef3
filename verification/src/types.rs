//! ActivityStreams vocabulary: the types of activities, actors, documents,
//! collections and objects that the logic tells apart.

use vstd::prelude::*;

verus! {

#[derive(Debug, Clone, Copy, PartialEq, Eq, Structural)]
pub enum ActivityType {
    Activity,
    Add,
    Announce,
    Create,
    Delete,
    Dislike,
    EmojiReact,
    Flag,
    Follow,
    Join,
    Leave,
    Like,
    Listen,
    Move,
    Read,
    Remove,
    Undo,
    Update,
    View,
    IntransitiveActivity,
    Accept,
    Ignore,
    Offer,
    Reject,
}

#[derive(Debug, Clone, Copy, PartialEq, Eq, Structural)]
pub enum ActorType {
    Application,
    Group,
    Organization,
    Person,
    Service,
}

#[derive(Debug, Clone, Copy, PartialEq, Eq, Structural)]
pub enum DocumentType {
    Document,
    Audio,
    Image,
    Page,
    Video,
}

#[derive(Debug, Clone, Copy, PartialEq, Eq, Structural)]
pub enum CollectionType {
    Collection,
    CollectionPage,
    OrderedCollection,
    OrderedCollectionPage,
}

#[derive(Debug, Clone, Copy, PartialEq, Eq, Structural)]
pub enum ObjectType {
    Object,
    Article,
    Event,
    Note,
    Place,
    Profile,
    Relationship,
    Tombstone,
    Activity(ActivityType),
    Actor(ActorType),
    Collection(CollectionType),
    Document(DocumentType),
}

/// The id that ActivityStreams uses for "everyone".
pub const PUBLIC: &'static str = "https://www.w3.org/ns/activitystreams#Public";

} // verus!
