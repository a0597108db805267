use youtube_chat::actions::{Action, MessageItem, OptionalAction};
use youtube_chat::json::{parse_document, ErrorKind, Json};
use youtube_chat::params::AdSignalsInfo;
use youtube_chat::root::{Continuation, LiveChat};
use youtube_chat::{Youtube, YouTubeDeserializeError};

fn parse(text: &str) -> Json {
    parse_document(text).unwrap()
}

const IMAGE: &str = r#"{"thumbnails": [{"url": "https://a/1.png", "width": 24, "height": 24}]}"#;

fn author() -> String {
    format!(
        r#""authorPhoto": {}, "authorName": {{"simpleText": "Ann"}}, "authorExternalChannelId": "UC1""#,
        IMAGE
    )
}

fn text_item(id: &str) -> String {
    format!(
        r#"{{"liveChatTextMessageRenderer": {{"id": "{}", "timestampUsec": "12345", "message": {{"runs": [{{"text": "hello"}}]}}, {}}}}}"#,
        id,
        author()
    )
}

fn banner() -> String {
    format!(
        r#"{{"liveChatBannerRenderer": {{"contents": {{"liveChatTextMessageRenderer": {{"id": "b1", "timestampUsec": "9", "message": {{"runs": [{{"text": "pinned"}}]}}, {}}}}}}}}}"#,
        author()
    )
}

const DELETED: &str = r#"{"runs": [{"text": "[deleted]"}]}"#;

fn decode_action(text: &str) -> Result<OptionalAction, (ErrorKind, String)> {
    OptionalAction::decode(&parse(text)).map_err(|e| (e.kind, e.detail))
}

#[test]
fn add_chat_item_dispatched() {
    let r = decode_action(&format!(r#"{{"addChatItemAction": {{"item": {}}}}}"#, text_item("m1"))).unwrap();
    match r {
        OptionalAction::Action(Action::AddChatItemAction {
            item: MessageItem::LiveChatTextMessageRenderer { id, timestamp_usec, author_info, .. },
        }) => {
            assert_eq!(id, "m1");
            assert_eq!(timestamp_usec, 12345);
            assert_eq!(author_info.author_external_channel_id, "UC1");
            assert_eq!(author_info.author_name.unwrap().simple_text, "Ann");
            assert!(author_info.author_badges.is_none());
        }
        other => panic!("unexpected {:?}", other),
    }
}

#[test]
fn add_banner_dispatched() {
    let r = decode_action(&format!(
        r#"{{"addBannerToLiveChatCommand": {{"bannerRenderer": {}}}}}"#,
        banner()
    ))
    .unwrap();
    match r {
        OptionalAction::Action(Action::AddBannerToLiveChatCommand { banner }) => {
            assert_eq!(banner.id, "b1");
            assert_eq!(banner.timestamp_usec, 9);
        }
        other => panic!("unexpected {:?}", other),
    }
}

#[test]
fn mark_deleted_dispatched() {
    let r = decode_action(&format!(
        r#"{{"markChatItemAsDeletedAction": {{"deletedStateMessage": {}, "targetItemId": "t1"}}}}"#,
        DELETED
    ))
    .unwrap();
    assert!(matches!(r, OptionalAction::Action(Action::MarkChatItemAsDeletedAction { ref target_item_id, .. }) if target_item_id == "t1"));
}

#[test]
fn mark_author_deleted_dispatched() {
    let r = decode_action(&format!(
        r#"{{"markChatItemsByAuthorAsDeletedAction": {{"deletedStateMessage": {}, "externalChannelId": "UC9"}}}}"#,
        DELETED
    ))
    .unwrap();
    assert!(matches!(r, OptionalAction::Action(Action::MarkChatItemsByAuthorAsDeletedAction { ref external_channel_id, .. }) if external_channel_id == "UC9"));
}

#[test]
fn replace_item_dispatched() {
    let r = decode_action(&format!(
        r#"{{"replaceChatItemAction": {{"targetItemId": "t2", "replacementItem": {}}}}}"#,
        text_item("m2")
    ))
    .unwrap();
    match r {
        OptionalAction::Action(Action::ReplaceChatItemAction { target_item_id, replacement_item }) => {
            assert_eq!(target_item_id, "t2");
            assert!(matches!(replacement_item, MessageItem::LiveChatTextMessageRenderer { ref id, .. } if id == "m2"));
        }
        other => panic!("unexpected {:?}", other),
    }
}

#[test]
fn ticker_and_tooltip_are_no_action() {
    assert!(matches!(
        decode_action(r#"{"addLiveChatTickerItemAction": {"item": {}}}"#).unwrap(),
        OptionalAction::NoAction
    ));
    assert!(matches!(
        decode_action(r#"{"showLiveChatTooltipCommand": {}, "clickTrackingParams": "x"}"#).unwrap(),
        OptionalAction::NoAction
    ));
}

#[test]
fn envelope_without_known_key_unsupported() {
    let e = decode_action(r#"{"somethingElse": {}}"#).unwrap_err();
    assert_eq!(e.0, ErrorKind::UnsupportedAction);
    let e = decode_action(r#"{"addChatItemAction": null}"#).unwrap_err();
    assert_eq!(e.0, ErrorKind::UnsupportedAction);
}

#[test]
fn envelope_with_two_keys_ambiguous() {
    let e = decode_action(r#"{"addLiveChatTickerItemAction": {}, "showLiveChatTooltipCommand": {}}"#)
        .unwrap_err();
    assert_eq!(e.0, ErrorKind::AmbiguousAction);
    let e = decode_action(&format!(
        r#"{{"addChatItemAction": {{"item": {}}}, "replaceChatItemAction": 5}}"#,
        text_item("m")
    ))
    .unwrap_err();
    assert_eq!(e.0, ErrorKind::AmbiguousAction);
}

#[test]
fn unknown_item_kind_rejected() {
    let e = decode_action(r#"{"addChatItemAction": {"item": {"liveChatMysteryRenderer": {}}}}"#).unwrap_err();
    assert_eq!(e, (ErrorKind::UnknownVariant, "liveChatMysteryRenderer".to_string()));
}

#[test]
fn paid_message_decodes() {
    let item = format!(
        r#"{{"liveChatPaidMessageRenderer": {{"id": "p", "timestampUsec": "1", {}, "purchaseAmountText": {{"simpleText": "$5"}}, "headerBackgroundColor": 4294967295, "headerTextColor": 1, "bodyBackgroundColor": 2, "bodyTextColor": 3, "authorNameTextColor": 4, "timestampColor": 5}}}}"#,
        author()
    );
    match MessageItem::decode(&parse(&item)).unwrap() {
        MessageItem::LiveChatPaidMessageRenderer { message, purchase_amount_text, header_background_color, timestamp_color, .. } => {
            assert!(message.is_none());
            assert_eq!(purchase_amount_text.simple_text, "$5");
            assert_eq!(header_background_color, 4294967295);
            assert_eq!(timestamp_color, 5);
        }
        other => panic!("unexpected {:?}", other),
    }
}

#[test]
fn paid_sticker_decodes() {
    let item = format!(
        r#"{{"liveChatPaidStickerRenderer": {{"id": "s", "timestampUsec": "2", {}, "sticker": {}, "moneyChipBackgroundColor": 1, "moneyChipTextColor": 2, "purchaseAmountText": {{"simpleText": "$1"}}, "stickerDisplayWidth": 40, "stickerDisplayHeight": 41, "backgroundColor": 3, "authorNameTextColor": 4}}}}"#,
        author(),
        IMAGE
    );
    match MessageItem::decode(&parse(&item)).unwrap() {
        MessageItem::LiveChatPaidStickerRenderer { sticker_display_width, sticker_display_height, sticker, .. } => {
            assert_eq!(sticker_display_width, 40);
            assert_eq!(sticker_display_height, 41);
            assert_eq!(sticker.get_first().width, 24);
        }
        other => panic!("unexpected {:?}", other),
    }
}

#[test]
fn small_items_decode() {
    let m = MessageItem::decode(&parse(r#"{"liveChatPlaceholderItemRenderer": {"id": "x", "timestampUsec": "3"}}"#)).unwrap();
    assert!(matches!(m, MessageItem::LiveChatPlaceholderItemRenderer { timestamp_usec: 3, .. }));
    let m = MessageItem::decode(&parse(&format!(
        r#"{{"liveChatModeChangeMessageRenderer": {{"id": "x", "timestampUsec": "4", "text": {}, "subtext": {}}}}}"#,
        DELETED, DELETED
    )))
    .unwrap();
    assert!(matches!(m, MessageItem::LiveChatModeChangeMessageRenderer { timestamp_usec: 4, .. }));
    let m = MessageItem::decode(&parse(&format!(
        r#"{{"liveChatViewerEngagementMessageRenderer": {{"id": "x", "timestampUsec": "5", "message": {}}}}}"#,
        DELETED
    )))
    .unwrap();
    assert!(matches!(m, MessageItem::LiveChatViewerEngagementMessageRenderer { timestamp_usec: 5, .. }));
    let m = MessageItem::decode(&parse(&format!(
        r#"{{"liveChatMembershipItemRenderer": {{"id": "x", "timestampUsec": "6", {}, "headerSubtext": {}}}}}"#,
        author(),
        DELETED
    )))
    .unwrap();
    assert!(matches!(m, MessageItem::LiveChatMembershipItemRenderer { timestamp_usec: 6, .. }));
}

#[test]
fn bad_timestamp_in_item_rejected() {
    let e = MessageItem::decode(&parse(r#"{"liveChatPlaceholderItemRenderer": {"id": "x", "timestampUsec": "abc"}}"#)).unwrap_err();
    assert_eq!(e.kind, ErrorKind::Coercion);
    assert_eq!(e.detail, "abc");
}

fn live_chat(actions: &str) -> String {
    format!(
        r#"{{"continuations": [{{"timedContinuationData": {{"timeoutMs": 5000, "continuation": "tok"}}}}]{}}}"#,
        actions
    )
}

#[test]
fn inert_only_actions_are_absent() {
    let chat = LiveChat::decode(&parse(&live_chat(
        r#", "actions": [{"addLiveChatTickerItemAction": {}}, {"showLiveChatTooltipCommand": {}}]"#,
    )))
    .unwrap();
    assert!(chat.actions.is_none());
}

#[test]
fn concrete_actions_are_kept_in_order() {
    let actions = format!(
        r#", "actions": [{{"addChatItemAction": {{"item": {}}}}}, {{"showLiveChatTooltipCommand": {{}}}}, {{"addChatItemAction": {{"item": {}}}}}]"#,
        text_item("first"),
        text_item("second")
    );
    let chat = LiveChat::decode(&parse(&live_chat(&actions))).unwrap();
    let kept = chat.actions.unwrap().into_vec();
    assert_eq!(kept.len(), 2);
    assert!(matches!(&kept[0], Action::AddChatItemAction { item: MessageItem::LiveChatTextMessageRenderer { id, .. } } if id == "first"));
    assert!(matches!(&kept[1], Action::AddChatItemAction { item: MessageItem::LiveChatTextMessageRenderer { id, .. } } if id == "second"));
}

#[test]
fn empty_actions_array_rejected() {
    let e = LiveChat::decode(&parse(&live_chat(r#", "actions": []"#))).unwrap_err();
    assert_eq!(e.kind, ErrorKind::EmptySequence);
    assert_eq!(e.detail, "actions");
}

#[test]
fn empty_continuations_rejected() {
    let e = LiveChat::decode(&parse(r#"{"continuations": []}"#)).unwrap_err();
    assert_eq!(e.kind, ErrorKind::EmptySequence);
    assert_eq!(e.detail, "continuations");
}

#[test]
fn continuation_timeouts() {
    let c = Continuation::decode(&parse(r#"{"timedContinuationData": {"timeoutMs": 5000, "continuation": "a"}}"#)).unwrap();
    assert_eq!(c.get_timeout_and_continuation(), (5000, "a".to_string()));
    let c = Continuation::decode(&parse(r#"{"invalidationContinuationData": {"timeoutMs": 10, "continuation": "b"}}"#)).unwrap();
    assert_eq!(c.get_timeout_and_continuation(), (10, "b".to_string()));
    let c = Continuation::decode(&parse(r#"{"reloadContinuationData": {"continuation": "c"}}"#)).unwrap();
    assert_eq!(c.get_timeout_and_continuation(), (0, "c".to_string()));
}

#[test]
fn header_and_participants_decode() {
    let extra = format!(
        r#", "header": {{"liveChatHeaderRenderer": {{"viewSelector": {{"sortFilterSubMenuRenderer": {{"subMenuItems": [{{"title": "Top", "subtitle": "s", "selected": true, "continuation": {{"reloadContinuationData": {{"continuation": "r"}}}}}}]}}}}}}}}, "participantsList": {{"liveChatParticipantsListRenderer": {{"participants": [{{"liveChatParticipantRenderer": {{"authorName": {{"simpleText": "Bo"}}, "authorPhoto": {}, "authorBadges": [{{"liveChatAuthorBadgeRenderer": {{"icon": {{"iconType": "OWNER"}}, "tooltip": "Owner"}}}}]}}}}]}}}}"#,
        IMAGE
    );
    let chat = LiveChat::decode(&parse(&live_chat(&extra))).unwrap();
    let header = chat.header.unwrap();
    let first = header.view_selector.first();
    assert_eq!(first.title, "Top");
    assert!(first.selected);
    let participants = chat.participants_list.unwrap().participants.into_vec();
    assert_eq!(participants.len(), 1);
    assert_eq!(participants[0].author_name.simple_text, "Bo");
    assert_eq!(participants[0].author_badges.first().tooltip, "Owner");
}

#[test]
fn initial_document_decodes() {
    let text = format!(r#"{{"contents": {{"liveChatRenderer": {}}}}}"#, live_chat(""));
    let doc = Youtube::deserialize_initial(&text).unwrap();
    let chat = doc.contents.unwrap().live_chat_renderer;
    assert_eq!(chat.continuations.len(), 1);
    assert!(chat.actions.is_none());
}

#[test]
fn initial_document_without_contents() {
    let doc = Youtube::deserialize_initial(r#"{"responseContext": {}}"#).unwrap();
    assert!(doc.contents.is_none());
}

#[test]
fn update_document_decodes() {
    let text = format!(
        r#"{{"continuationContents": {{"liveChatContinuation": {}}}}}"#,
        live_chat(r#", "actions": [{"addLiveChatTickerItemAction": {}}]"#)
    );
    let doc = Youtube::deserialize(&text).unwrap();
    let chat = doc.continuation_contents.unwrap().live_chat_continuation;
    assert!(chat.actions.is_none());
    assert!(Youtube::deserialize("{}").unwrap().continuation_contents.is_none());
}

#[test]
fn failure_carries_text_and_cause() {
    let text = r#"{"continuationContents": {"liveChatContinuation": {"continuations": []}}}"#;
    match Youtube::deserialize(text) {
        Err(YouTubeDeserializeError::DeserializeJson { json, source }) => {
            assert_eq!(json, text);
            assert_eq!(source.kind, ErrorKind::EmptySequence);
        }
        Ok(d) => panic!("unexpected {:?}", d),
    }
    match Youtube::deserialize_initial("not json") {
        Err(YouTubeDeserializeError::DeserializeJson { json, source }) => {
            assert_eq!(json, "not json");
            assert_eq!(source.kind, ErrorKind::Syntax);
        }
        Ok(d) => panic!("unexpected {:?}", d),
    }
}

#[test]
fn decoding_twice_gives_equal_results() {
    let text = format!(
        r#"{{"contents": {{"liveChatRenderer": {}}}}}"#,
        live_chat(&format!(r#", "actions": [{{"addChatItemAction": {{"item": {}}}}}]"#, text_item("d")))
    );
    let a = Youtube::deserialize_initial(&text).unwrap();
    let b = Youtube::deserialize_initial(&text).unwrap();
    assert_eq!(format!("{:?}", a), format!("{:?}", b));
}

#[test]
fn ad_signal_params() {
    let mut info = AdSignalsInfo::new();
    info.add_param("k1".to_string(), "v1".to_string());
    info.add_param("k2".to_string(), "v2".to_string());
    assert_eq!(info.params.len(), 2);
    assert_eq!(info.params[1].key, "k2");
    assert_eq!(info.params[1].value, "v2");
    info.clear_params();
    assert!(info.params.is_empty());
}
