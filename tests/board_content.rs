use commune_events::board::{
    AnyBoardLikeEventContent, BoardEventType, BoardPostEventContent, BoardReplyEventContent,
    DecodeError, Relation, RelationKind, Vote, HTML_FORMAT,
};

#[test]
fn vote_encodes_to_lowercase_keys() {
    assert_eq!(Vote::Up.encode(), "up");
    assert_eq!(Vote::Down.encode(), "down");
}

#[test]
fn vote_round_trips_for_both_values() {
    for v in [Vote::Up, Vote::Down] {
        let key = v.encode();
        assert_eq!(Vote::decode(&key), Ok(v));
    }
}

#[test]
fn vote_decode_rejects_other_strings() {
    assert_eq!(Vote::decode("Up"), Err(DecodeError::UnknownVote));
    assert_eq!(Vote::decode(""), Err(DecodeError::UnknownVote));
    assert_eq!(Vote::decode("\"up\""), Err(DecodeError::UnknownVote));
}

#[test]
fn event_type_dispatch() {
    assert_eq!(BoardEventType::from_event_type("space.board.post"), Ok(BoardEventType::Post));
    assert_eq!(BoardEventType::from_event_type("space.board.reply"), Ok(BoardEventType::Reply));
    assert_eq!(
        BoardEventType::from_event_type("m.room.message"),
        Err(DecodeError::UnknownEventType)
    );
    assert_eq!(BoardEventType::Post.as_str(), "space.board.post");
    assert_eq!(BoardEventType::Reply.as_str(), "space.board.reply");
}

#[test]
fn any_content_reports_its_type() {
    let post = AnyBoardLikeEventContent::Post(BoardPostEventContent::plain("a".to_string()));
    let reply = AnyBoardLikeEventContent::Reply(BoardReplyEventContent::plain("b".to_string()));
    assert_eq!(post.event_type(), BoardEventType::Post);
    assert_eq!(reply.event_type(), BoardEventType::Reply);
}

#[test]
fn plain_post_has_no_companion() {
    let p = BoardPostEventContent::plain("hello world".to_string());
    assert_eq!(p.body, "hello world");
    assert!(p.title.is_none());
    assert!(p.formatted.is_none());
    assert!(p.relates_to.is_none());
    assert!(p.mentions.is_none());
}

#[test]
fn html_post_carries_html_companion() {
    let p = BoardPostEventContent::html("hi".to_string(), "<p>hi</p>".to_string());
    let f = p.formatted.unwrap();
    assert_eq!(f.format, HTML_FORMAT);
    assert_eq!(f.format, "org.matrix.custom.html");
    assert_eq!(f.body, "<p>hi</p>");
    assert_eq!(p.body, "hi");
}

#[test]
fn markdown_post_renders_formatting() {
    let p = BoardPostEventContent::markdown("Some **bold** text".to_string());
    assert_eq!(p.body, "Some **bold** text");
    let f = p.formatted.expect("markdown was detected");
    assert_eq!(f.format, HTML_FORMAT);
    assert!(f.body.contains("<strong>bold</strong>"));
}

#[test]
fn markdown_post_without_formatting_is_plain() {
    let p = BoardPostEventContent::markdown("just words".to_string());
    assert_eq!(p.body, "just words");
    assert!(p.formatted.is_none());
}

#[test]
fn markdown_reply_renders_formatting() {
    let r = BoardReplyEventContent::markdown("an *emphasis*".to_string());
    let f = r.formatted.expect("markdown was detected");
    assert!(f.body.contains("<em>emphasis</em>"));
    let plain = BoardReplyEventContent::markdown("nice!".to_string());
    assert!(plain.formatted.is_none());
}

#[test]
fn html_reply_carries_html_companion() {
    let r = BoardReplyEventContent::html("x".to_string(), "<b>x</b>".to_string());
    assert_eq!(r.formatted.unwrap().body, "<b>x</b>");
}

#[test]
fn set_title_keeps_the_rest() {
    let mut p = BoardPostEventContent::plain("body".to_string());
    p.set_title("hi".to_string());
    assert_eq!(p.title, Some("hi".to_string()));
    assert_eq!(p.body, "body");
}

#[test]
fn relation_kind_tag() {
    let implicit = Relation { target: "$evt1".to_string(), kind: None };
    let formal = Relation { target: "$evt1".to_string(), kind: Some(RelationKind::Thread) };
    assert_eq!(implicit.rel_type(), None);
    assert_eq!(formal.rel_type(), Some(RelationKind::Thread));
    assert_eq!(RelationKind::Annotation.as_str(), "m.annotation");
    assert_eq!(RelationKind::Replacement.as_str(), "m.replace");
}
