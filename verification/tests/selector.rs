use upub::selector::{
    RichActivity, RichObject, RichMention, RichHashtag, Rendered, LinkType, Table, Query,
    BatchFillableKey, mention_name, hashtag_name, with_attachments, with_hashtags, with_mentions, batch_ids, column_alias,
};
use upub::ext::JsonVec;
use upub::model::{activity, object, attachment, hashtag, mention};
use upub::types::{ActivityType, DocumentType, ObjectType};

fn obj(internal: i64) -> object::Model {
    object::Model {
        internal,
        id: format!("https://a.example/objects/{internal}"),
        object_type: ObjectType::Note,
        attributed_to: None,
        name: None,
        summary: None,
        content: None,
        image: None,
        quote: None,
        sensitive: false,
        in_reply_to: None,
        url: None,
        likes: 0,
        announces: 0,
        replies: 0,
        context: None,
        to: JsonVec(vec![]),
        bto: JsonVec(vec![]),
        cc: JsonVec(vec![]),
        bcc: JsonVec(vec![]),
        published: 0,
        updated: 0,
        audience: None,
    }
}

fn act() -> activity::Model {
    activity::Model {
        internal: 1,
        id: "https://a.example/activities/1".to_string(),
        activity_type: ActivityType::Announce,
        actor: "https://a.example/actors/a".to_string(),
        object: Some("https://a.example/objects/1".to_string()),
        target: None,
        to: JsonVec(vec![]),
        bto: JsonVec(vec![]),
        cc: JsonVec(vec![]),
        bcc: JsonVec(vec![]),
        published: 0,
    }
}

fn entry(activity: Option<activity::Model>, object: Option<object::Model>, liked: Option<i64>) -> RichActivity {
    RichActivity { activity, object, liked, attachments: None, hashtags: None, mentions: None }
}

fn att(object: i64, url: &str) -> attachment::Model {
    attachment::Model { internal: 0, url: url.to_string(), object, document_type: DocumentType::Image, name: None, media_type: "image/png".to_string(), published: 0 }
}

fn tag(object: i64, name: &str) -> hashtag::Model {
    hashtag::Model { internal: 0, object, name: name.to_string(), published: 0 }
}

fn men(object: i64, actor: i64) -> mention::Model {
    mention::Model { internal: 0, object, actor, published: 0 }
}

#[test]
fn display_names() {
    assert_eq!(mention_name("alice", "a.example"), "@alice@a.example");
    assert_eq!(hashtag_name("rust"), "#rust");
}

#[test]
fn rows_are_keyed_by_object() {
    assert_eq!(att(4, "u").key(), 4);
    assert_eq!(tag(5, "t").key(), 5);
    assert_eq!(men(6, 1).key(), 6);
}

#[test]
fn mention_and_hashtag_links() {
    let m = RichMention { mention: men(1, 2), id: "https://b.example/u/x".to_string(), fqn: "@x@b.example".to_string() }.ap();
    assert_eq!(m.link_type, LinkType::Mention);
    assert_eq!(m.href.as_deref(), Some("https://b.example/u/x"));
    assert_eq!(m.name.as_deref(), Some("@x@b.example"));
    let h = RichHashtag { hash: tag(1, "rust") }.ap();
    assert_eq!(h.link_type, LinkType::Hashtag);
    assert!(h.href.is_none());
    assert_eq!(h.name.as_deref(), Some("#rust"));
}

#[test]
fn rendering_entries() {
    assert!(matches!(entry(None, None, None).ap(), Rendered::Null));
    assert!(matches!(entry(Some(act()), None, None).ap(), Rendered::Activity(ref a) if a.id == "https://a.example/activities/1"));
    match entry(None, Some(obj(1)), Some(3)).ap() {
        Rendered::Object(o) => {
            assert_eq!(o.liked_by_me, Some(true));
            assert!(o.tags.is_none());
            assert!(o.attachments.is_none());
        },
        _ => panic!("expected an object"),
    }
    let mut e = entry(Some(act()), Some(obj(1)), None);
    e.accept_hashtags(vec![tag(1, "a"), tag(1, "b")]);
    e.accept_mentions(vec![men(1, 9), men(1, 8)], vec![Some(("https://b.example/u/x".to_string(), "x".to_string(), "b.example".to_string())), None]);
    match e.ap() {
        Rendered::ActivityWithObject(a, o) => {
            assert_eq!(a.internal, 1);
            assert_eq!(o.liked_by_me, None);
            let tags = o.tags.unwrap();
            assert_eq!(tags.len(), 3);
            assert_eq!(tags[0].name.as_deref(), Some("@x@b.example"));
            assert_eq!(tags[1].name.as_deref(), Some("#a"));
            assert_eq!(tags[2].name.as_deref(), Some("#b"));
        },
        _ => panic!("expected an activity with its object"),
    }
}

#[test]
fn rich_object_always_has_tags() {
    let o = RichObject { object: obj(2), liked: None, attachments: None, hashtags: None, mentions: None }.ap();
    assert_eq!(o.tags.unwrap().len(), 0);
}

#[test]
fn batches_fill_every_entry_of_an_object() {
    let entries = vec![entry(None, Some(obj(1)), None), entry(Some(act()), None, None), entry(None, Some(obj(1)), None), entry(None, Some(obj(2)), None)];
    assert_eq!(batch_ids(&entries), vec![1, 1, 2]);
    let batch = vec![att(1, "u1"), att(3, "u3"), att(1, "u2")];
    let filled = with_attachments(entries, &batch);
    assert_eq!(filled.len(), 4);
    let urls: Vec<String> = filled[0].attachments.as_ref().unwrap().iter().map(|a| a.url.clone()).collect();
    assert_eq!(urls, vec!["u1".to_string(), "u2".to_string()]);
    assert!(filled[1].attachments.is_none());
    assert_eq!(filled[2].attachments.as_ref().unwrap().len(), 2);
    assert!(filled[3].attachments.is_none());
    let filled = with_hashtags(filled, &vec![tag(2, "x")]);
    assert_eq!(filled[3].hashtags.as_ref().unwrap()[0].hash.name, "x");
    assert!(filled[0].hashtags.is_none());
    let actors = vec![Some(("id".to_string(), "u".to_string(), "d".to_string())), None];
    let filled = with_mentions(filled, &vec![men(2, 5), men(2, 6)], &actors);
    let ms = filled[3].mentions.as_ref().unwrap();
    assert_eq!(ms.len(), 1);
    assert_eq!(ms[0].fqn, "@u@d");
    assert!(filled[0].mentions.is_none());
}

#[test]
fn column_aliases() {
    assert_eq!(column_alias(Table::Activities, "id"), "activitiesid");
    assert_eq!(column_alias(Table::Likes, "actor"), "likesactor");
}

#[test]
fn timeline_queries() {
    let q = Query::activities(Some(4));
    assert_eq!(q.joins, vec![(Table::Activities, true), (Table::Objects, false)]);
    assert!(q.require_entry);
    assert_eq!(q.liked_by, Some(4));
    let q = Query::objects(None);
    assert_eq!(q.columns, vec![Table::Objects]);
    assert!(!q.require_entry);
    assert_eq!(q.liked_by, None);
}

#[test]
fn rich_object_accepts_batches() {
    let mut o = RichObject { object: obj(2), liked: Some(1), attachments: None, hashtags: None, mentions: None };
    o.accept_attachments(vec![att(2, "u")]);
    o.accept_hashtags(vec![tag(2, "t")]);
    o.accept_mentions(vec![men(2, 3)], vec![Some(("i".to_string(), "u".to_string(), "d".to_string()))]);
    let r = o.ap();
    assert_eq!(r.liked_by_me, Some(true));
    assert_eq!(r.attachments.unwrap().len(), 1);
    let tags = r.tags.unwrap();
    assert_eq!(tags[0].link_type, LinkType::Mention);
    assert_eq!(tags[1].name.as_deref(), Some("#t"));
}
