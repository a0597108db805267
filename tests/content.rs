use youtube_chat::generic_types::{
    AuthorBadge, BadgeType, CustomImage, IconType, Image, Message, MessageContent,
};
use youtube_chat::json::{decode_timestamp, parse_document, ErrorKind, Json};

fn parse(text: &str) -> Json {
    parse_document(text).unwrap()
}

const IMAGE: &str = r#"{"thumbnails": [{"url": "https://a/1.png", "width": 24, "height": 24}, {"url": "https://a/2.png", "width": 48, "height": 48}]}"#;

#[test]
fn text_run_is_plain_text() {
    let r = MessageContent::decode(&parse(r#"{"text": "hi"}"#)).unwrap();
    match r {
        MessageContent::Text(t) => assert_eq!(t, "hi"),
        other => panic!("unexpected {:?}", other),
    }
}

#[test]
fn watch_endpoint_becomes_watch_link() {
    let r = MessageContent::decode(&parse(
        r#"{"text": "hi", "navigationEndpoint": {"watchEndpoint": {"videoId": "abc123"}}}"#,
    ))
    .unwrap();
    match r {
        MessageContent::Link { text, url } => {
            assert_eq!(text, "hi");
            assert_eq!(url, "https://www.youtube.com/watch?v=abc123");
        }
        other => panic!("unexpected {:?}", other),
    }
}

#[test]
fn url_endpoint_is_resolved_against_origin() {
    let r = MessageContent::decode(&parse(
        r#"{"text": "hi", "navigationEndpoint": {"urlEndpoint": {"url": "/redirect?x=1"}}}"#,
    ))
    .unwrap();
    match r {
        MessageContent::Link { text, url } => {
            assert_eq!(text, "hi");
            assert_eq!(url, "https://www.youtube.com/redirect?x=1");
        }
        other => panic!("unexpected {:?}", other),
    }
}

#[test]
fn emoji_label_is_first_shortcut() {
    let text = format!(
        r#"{{"emoji": {{"shortcuts": ["s1", "s2"], "image": {}, "isCustomEmoji": false}}}}"#,
        IMAGE
    );
    let r = MessageContent::decode(&parse(&text)).unwrap();
    match r {
        MessageContent::Emoji(e) => {
            assert_eq!(e.label, "s1");
            assert!(!e.is_custom_emoji);
            assert_eq!(e.image.thumbnails.len(), 2);
            assert_eq!(e.image.get_first().url, "https://a/1.png");
        }
        other => panic!("unexpected {:?}", other),
    }
}

fn content_error(text: &str) -> (ErrorKind, String) {
    let e = MessageContent::decode(&parse(text)).unwrap_err();
    (e.kind, e.detail)
}

#[test]
fn text_and_emoji_together_rejected() {
    let text = format!(
        r#"{{"text": "hi", "emoji": {{"shortcuts": ["s1"], "image": {}, "isCustomEmoji": true}}}}"#,
        IMAGE
    );
    assert_eq!(
        content_error(&text),
        (ErrorKind::InvalidContent, "both `text` and `emoji` are present".to_string())
    );
}

#[test]
fn emoji_with_navigation_rejected() {
    let text = format!(
        r#"{{"emoji": {{"shortcuts": ["s1"], "image": {}, "isCustomEmoji": true}}, "navigationEndpoint": {{}}}}"#,
        IMAGE
    );
    assert_eq!(
        content_error(&text),
        (ErrorKind::InvalidContent, "both `emoji` and `navigationEndpoint` are present".to_string())
    );
}

#[test]
fn navigation_without_text_rejected() {
    assert_eq!(
        content_error(r#"{"navigationEndpoint": {"urlEndpoint": {"url": "/x"}}}"#),
        (ErrorKind::InvalidContent, "have `navigationEndpoint`, but no `text`".to_string())
    );
}

#[test]
fn both_endpoints_rejected() {
    assert_eq!(
        content_error(
            r#"{"text": "a", "navigationEndpoint": {"urlEndpoint": {"url": "/x"}, "watchEndpoint": {"videoId": "v"}}}"#
        ),
        (ErrorKind::InvalidContent, "have both `urlEndpoint` and `watchEndpoint`".to_string())
    );
}

#[test]
fn no_endpoint_rejected() {
    assert_eq!(
        content_error(r#"{"text": "a", "navigationEndpoint": {}}"#),
        (ErrorKind::InvalidContent, "no `urlEndpoint` nor `watchEndpoint`".to_string())
    );
}

#[test]
fn empty_run_rejected() {
    assert_eq!(
        content_error(r#"{"other": 1}"#),
        (ErrorKind::InvalidContent, "couldn't deserialize".to_string())
    );
}

#[test]
fn null_text_counts_as_absent() {
    assert_eq!(
        content_error(r#"{"text": null}"#),
        (ErrorKind::InvalidContent, "couldn't deserialize".to_string())
    );
}

#[test]
fn text_of_wrong_type_rejected() {
    assert_eq!(content_error(r#"{"text": 5}"#), (ErrorKind::WrongType, "string".to_string()));
}

#[test]
fn timestamp_string_is_coerced() {
    assert_eq!(decode_timestamp(&Json::Str("12345".to_string())).unwrap(), 12345);
    assert_eq!(decode_timestamp(&Json::Str("+7".to_string())).unwrap(), 7);
    assert_eq!(
        decode_timestamp(&Json::Str("18446744073709551615".to_string())).unwrap(),
        u64::MAX
    );
}

#[test]
fn timestamp_garbage_is_coercion_error() {
    let e = decode_timestamp(&Json::Str("abc".to_string())).unwrap_err();
    assert_eq!(e.kind, ErrorKind::Coercion);
    assert_eq!(e.detail, "abc");
    let e = decode_timestamp(&Json::Str("18446744073709551616".to_string())).unwrap_err();
    assert_eq!(e.kind, ErrorKind::Coercion);
    let e = decode_timestamp(&Json::Str("".to_string())).unwrap_err();
    assert_eq!(e.kind, ErrorKind::Coercion);
    let e = decode_timestamp(&Json::Number(Some(5))).unwrap_err();
    assert_eq!(e.kind, ErrorKind::WrongType);
}

#[test]
fn empty_thumbnails_rejected() {
    let e = Image::decode(&parse(r#"{"thumbnails": []}"#)).unwrap_err();
    assert_eq!(e.kind, ErrorKind::EmptySequence);
    assert_eq!(e.detail, "thumbnails");
    let e = CustomImage::decode(&parse(r#"{"thumbnails": []}"#)).unwrap_err();
    assert_eq!(e.kind, ErrorKind::EmptySequence);
    assert_eq!(e.detail, "thumbnails");
}

#[test]
fn image_first_thumbnail_is_canonical() {
    let image = Image::decode(&parse(IMAGE)).unwrap();
    let first = image.get_first();
    assert_eq!(first.url, "https://a/1.png");
    assert_eq!(first.width, 24);
    assert_eq!(first.height, 24);
}

#[test]
fn thumbnail_size_out_of_range() {
    let e = Image::decode(&parse(r#"{"thumbnails": [{"url": "u", "width": 70000, "height": 1}]}"#))
        .unwrap_err();
    assert_eq!(e.kind, ErrorKind::OutOfRange);
    assert_eq!(e.detail, "u16");
    let e = Image::decode(&parse(r#"{"thumbnails": [{"url": "u", "width": -1, "height": 1}]}"#))
        .unwrap_err();
    assert_eq!(e.kind, ErrorKind::OutOfRange);
    let e = Image::decode(&parse(r#"{"thumbnails": [{"url": "u", "height": 1}]}"#)).unwrap_err();
    assert_eq!(e.kind, ErrorKind::MissingField);
    assert_eq!(e.detail, "width");
}

#[test]
fn custom_image_first() {
    let image = CustomImage::decode(&parse(r#"{"thumbnails": [{"url": "a"}, {"url": "b"}]}"#)).unwrap();
    assert_eq!(image.get_first().url, "a");
}

#[test]
fn message_keeps_runs_in_order() {
    let m = Message::decode(&parse(r#"{"runs": [{"text": "a"}, {"text": "b"}]}"#)).unwrap();
    let runs = m.runs.into_vec();
    assert_eq!(runs.len(), 2);
    assert!(matches!(&runs[0], MessageContent::Text(t) if t == "a"));
    assert!(matches!(&runs[1], MessageContent::Text(t) if t == "b"));
    let e = Message::decode(&parse(r#"{"runs": []}"#)).unwrap_err();
    assert_eq!(e.kind, ErrorKind::EmptySequence);
    assert_eq!(e.detail, "runs");
}

#[test]
fn icon_badge_decodes() {
    let b = AuthorBadge::decode(&parse(
        r#"{"liveChatAuthorBadgeRenderer": {"icon": {"iconType": "MODERATOR"}, "tooltip": "Moderator"}}"#,
    ))
    .unwrap();
    assert_eq!(b.tooltip, "Moderator");
    assert!(matches!(b.badge_type, BadgeType::Icon(ref i) if i.icon_type == IconType::Moderator));
}

#[test]
fn custom_badge_decodes() {
    let b = AuthorBadge::decode(&parse(
        r#"{"liveChatAuthorBadgeRenderer": {"customThumbnail": {"thumbnails": [{"url": "m"}]}, "tooltip": "Member"}}"#,
    ))
    .unwrap();
    match b.badge_type {
        BadgeType::CustomThumbnail(c) => assert_eq!(c.get_first().url, "m"),
        other => panic!("unexpected {:?}", other),
    }
}

#[test]
fn unknown_icon_type_rejected() {
    let e = AuthorBadge::decode(&parse(
        r#"{"liveChatAuthorBadgeRenderer": {"icon": {"iconType": "STAR"}, "tooltip": "x"}}"#,
    ))
    .unwrap_err();
    assert_eq!(e.kind, ErrorKind::UnknownVariant);
    assert_eq!(e.detail, "STAR");
}

#[test]
fn badge_without_wrapper_is_missing_field() {
    let e = AuthorBadge::decode(&parse(r#"{"tooltip": "x"}"#)).unwrap_err();
    assert_eq!(e.kind, ErrorKind::MissingField);
    assert_eq!(e.detail, "liveChatAuthorBadgeRenderer");
}

#[test]
fn syntax_error_reported() {
    let e = parse_document("{not json").unwrap_err();
    assert_eq!(e.kind, ErrorKind::Syntax);
    assert!(!e.detail.is_empty());
}

#[test]
fn parsed_object_keeps_member_order() {
    match parse(r#"{"b": 1, "a": [true, null, "s", -2, 1.5]}"#) {
        Json::Object(members) => {
            assert_eq!(members.len(), 2);
            assert_eq!(members[0].0, "b");
            assert!(matches!(members[0].1, Json::Number(Some(1))));
            match &members[1].1 {
                Json::Array(items) => {
                    assert!(matches!(items[0], Json::Bool(true)));
                    assert!(matches!(items[1], Json::Null));
                    assert!(matches!(&items[2], Json::Str(s) if s == "s"));
                    assert!(matches!(items[3], Json::Number(None)));
                    assert!(matches!(items[4], Json::Number(None)));
                }
                other => panic!("unexpected {:?}", other),
            }
        }
        other => panic!("unexpected {:?}", other),
    }
}
