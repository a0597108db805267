//! Chat actions, the items they carry, and banners.
use vstd::prelude::*;
use crate::generic_types::{
    author_info_spec, image_fn, message_fn, simple_text_fn, AuthorInfo, AuthorInfoModel,
    ContentModel, Image, Message, SimpleText, ThumbnailModel,
};
use crate::json::{
    decode_member, decode_opt_member, decode_string, decode_timestamp, decode_u16, decode_u32,
    expect_object, fail, fault, member_spec, object_spec, opt_member_spec, opt_view, optional,
    optional_spec, outcome, required, required_spec, string_fn, timestamp_fn, u16_fn, u32_fn, unwrap, unwrap_spec,
    DecodeError, ErrorKind, Fault, Json,
};

verus! {

/// One chat item, tagged by the single member that holds it.
#[derive(Debug)]
pub enum MessageItem {
    /// A text message.
    LiveChatTextMessageRenderer {
        id: String,
        timestamp_usec: u64,
        message: Message,
        author_info: AuthorInfo,
    },
    /// A new or renewed membership.
    LiveChatMembershipItemRenderer {
        id: String,
        timestamp_usec: u64,
        author_info: AuthorInfo,
        header_subtext: Message,
    },
    /// A paid message, with its amount and colors.
    LiveChatPaidMessageRenderer {
        id: String,
        timestamp_usec: u64,
        message: Option<Message>,
        author_info: AuthorInfo,
        purchase_amount_text: SimpleText,
        header_background_color: u32,
        header_text_color: u32,
        body_background_color: u32,
        body_text_color: u32,
        author_name_text_color: u32,
        timestamp_color: u32,
    },
    /// A paid sticker, with its amount, size and colors.
    LiveChatPaidStickerRenderer {
        id: String,
        timestamp_usec: u64,
        author_info: AuthorInfo,
        sticker: Image,
        money_chip_background_color: u32,
        money_chip_text_color: u32,
        purchase_amount_text: SimpleText,
        sticker_display_width: u16,
        sticker_display_height: u16,
        background_color: u32,
        author_name_text_color: u32,
    },
    /// A message from the service to the viewers.
    LiveChatViewerEngagementMessageRenderer {
        id: String,
        timestamp_usec: u64,
        message: Message,
    },
    /// A placeholder with no content.
    LiveChatPlaceholderItemRenderer {
        id: String,
        timestamp_usec: u64,
    },
    /// A change of the chat mode.
    LiveChatModeChangeMessageRenderer {
        id: String,
        timestamp_usec: u64,
        text: Message,
        subtext: Message,
    },
}

pub enum MessageItemModel {
    LiveChatTextMessageRenderer {
        id: Seq<char>,
        timestamp_usec: u64,
        message: Seq<ContentModel>,
        author_info: AuthorInfoModel,
    },
    LiveChatMembershipItemRenderer {
        id: Seq<char>,
        timestamp_usec: u64,
        author_info: AuthorInfoModel,
        header_subtext: Seq<ContentModel>,
    },
    LiveChatPaidMessageRenderer {
        id: Seq<char>,
        timestamp_usec: u64,
        message: Option<Seq<ContentModel>>,
        author_info: AuthorInfoModel,
        purchase_amount_text: Seq<char>,
        header_background_color: u32,
        header_text_color: u32,
        body_background_color: u32,
        body_text_color: u32,
        author_name_text_color: u32,
        timestamp_color: u32,
    },
    LiveChatPaidStickerRenderer {
        id: Seq<char>,
        timestamp_usec: u64,
        author_info: AuthorInfoModel,
        sticker: Seq<ThumbnailModel>,
        money_chip_background_color: u32,
        money_chip_text_color: u32,
        purchase_amount_text: Seq<char>,
        sticker_display_width: u16,
        sticker_display_height: u16,
        background_color: u32,
        author_name_text_color: u32,
    },
    LiveChatViewerEngagementMessageRenderer {
        id: Seq<char>,
        timestamp_usec: u64,
        message: Seq<ContentModel>,
    },
    LiveChatPlaceholderItemRenderer {
        id: Seq<char>,
        timestamp_usec: u64,
    },
    LiveChatModeChangeMessageRenderer {
        id: Seq<char>,
        timestamp_usec: u64,
        text: Seq<ContentModel>,
        subtext: Seq<ContentModel>,
    },
}

impl View for MessageItem {
    type V = MessageItemModel;

    open spec fn view(&self) -> MessageItemModel {
        match self {
            MessageItem::LiveChatTextMessageRenderer {
                id,
                timestamp_usec,
                message,
                author_info,
            } => MessageItemModel::LiveChatTextMessageRenderer {
                id: id@,
                timestamp_usec: *timestamp_usec,
                message: message@,
                author_info: author_info@,
            },
            MessageItem::LiveChatMembershipItemRenderer {
                id,
                timestamp_usec,
                author_info,
                header_subtext,
            } => MessageItemModel::LiveChatMembershipItemRenderer {
                id: id@,
                timestamp_usec: *timestamp_usec,
                author_info: author_info@,
                header_subtext: header_subtext@,
            },
            MessageItem::LiveChatPaidMessageRenderer {
                id,
                timestamp_usec,
                message,
                author_info,
                purchase_amount_text,
                header_background_color,
                header_text_color,
                body_background_color,
                body_text_color,
                author_name_text_color,
                timestamp_color,
            } => MessageItemModel::LiveChatPaidMessageRenderer {
                id: id@,
                timestamp_usec: *timestamp_usec,
                message: opt_view(*message),
                author_info: author_info@,
                purchase_amount_text: purchase_amount_text@,
                header_background_color: *header_background_color,
                header_text_color: *header_text_color,
                body_background_color: *body_background_color,
                body_text_color: *body_text_color,
                author_name_text_color: *author_name_text_color,
                timestamp_color: *timestamp_color,
            },
            MessageItem::LiveChatPaidStickerRenderer {
                id,
                timestamp_usec,
                author_info,
                sticker,
                money_chip_background_color,
                money_chip_text_color,
                purchase_amount_text,
                sticker_display_width,
                sticker_display_height,
                background_color,
                author_name_text_color,
            } => MessageItemModel::LiveChatPaidStickerRenderer {
                id: id@,
                timestamp_usec: *timestamp_usec,
                author_info: author_info@,
                sticker: sticker@,
                money_chip_background_color: *money_chip_background_color,
                money_chip_text_color: *money_chip_text_color,
                purchase_amount_text: purchase_amount_text@,
                sticker_display_width: *sticker_display_width,
                sticker_display_height: *sticker_display_height,
                background_color: *background_color,
                author_name_text_color: *author_name_text_color,
            },
            MessageItem::LiveChatViewerEngagementMessageRenderer {
                id,
                timestamp_usec,
                message,
            } => MessageItemModel::LiveChatViewerEngagementMessageRenderer {
                id: id@,
                timestamp_usec: *timestamp_usec,
                message: message@,
            },
            MessageItem::LiveChatPlaceholderItemRenderer {
                id,
                timestamp_usec,
            } => MessageItemModel::LiveChatPlaceholderItemRenderer {
                id: id@,
                timestamp_usec: *timestamp_usec,
            },
            MessageItem::LiveChatModeChangeMessageRenderer {
                id,
                timestamp_usec,
                text,
                subtext,
            } => MessageItemModel::LiveChatModeChangeMessageRenderer {
                id: id@,
                timestamp_usec: *timestamp_usec,
                text: text@,
                subtext: subtext@,
            },
        }
    }
}

pub open spec fn text_message_spec(v: Json) -> Result<MessageItemModel, Fault> {
    let id = member_spec(v, "id"@, string_fn());
    let timestamp_usec = member_spec(v, "timestampUsec"@, timestamp_fn());
    let message = member_spec(v, "message"@, message_fn());
    let author_info = author_info_spec(v);
    if object_spec(v) is Err {
        Err(object_spec(v)->Err_0)
    } else if id is Err {
        Err(id->Err_0)
    } else if timestamp_usec is Err {
        Err(timestamp_usec->Err_0)
    } else if message is Err {
        Err(message->Err_0)
    } else if author_info is Err {
        Err(author_info->Err_0)
    } else {
        Ok(MessageItemModel::LiveChatTextMessageRenderer {
            id: id->Ok_0,
            timestamp_usec: timestamp_usec->Ok_0,
            message: message->Ok_0,
            author_info: author_info->Ok_0,
        })
    }
}

fn decode_text_message(v: &Json) -> (r: Result<MessageItem, DecodeError>)
    ensures
        outcome(r) == text_message_spec(*v),
{
    expect_object(v)?;
    let id = decode_member(v, "id", decode_string, Ghost(string_fn()))?;
    let timestamp_usec = decode_member(v, "timestampUsec", decode_timestamp, Ghost(timestamp_fn()))?;
    let message = decode_member(v, "message", Message::decode, Ghost(message_fn()))?;
    let author_info = AuthorInfo::decode(v)?;
    Ok(MessageItem::LiveChatTextMessageRenderer { id, timestamp_usec, message, author_info })
}

pub open spec fn membership_item_spec(v: Json) -> Result<MessageItemModel, Fault> {
    let id = member_spec(v, "id"@, string_fn());
    let timestamp_usec = member_spec(v, "timestampUsec"@, timestamp_fn());
    let author_info = author_info_spec(v);
    let header_subtext = member_spec(v, "headerSubtext"@, message_fn());
    if object_spec(v) is Err {
        Err(object_spec(v)->Err_0)
    } else if id is Err {
        Err(id->Err_0)
    } else if timestamp_usec is Err {
        Err(timestamp_usec->Err_0)
    } else if author_info is Err {
        Err(author_info->Err_0)
    } else if header_subtext is Err {
        Err(header_subtext->Err_0)
    } else {
        Ok(MessageItemModel::LiveChatMembershipItemRenderer {
            id: id->Ok_0,
            timestamp_usec: timestamp_usec->Ok_0,
            author_info: author_info->Ok_0,
            header_subtext: header_subtext->Ok_0,
        })
    }
}

fn decode_membership_item(v: &Json) -> (r: Result<MessageItem, DecodeError>)
    ensures
        outcome(r) == membership_item_spec(*v),
{
    expect_object(v)?;
    let id = decode_member(v, "id", decode_string, Ghost(string_fn()))?;
    let timestamp_usec = decode_member(v, "timestampUsec", decode_timestamp, Ghost(timestamp_fn()))?;
    let author_info = AuthorInfo::decode(v)?;
    let header_subtext = decode_member(v, "headerSubtext", Message::decode, Ghost(message_fn()))?;
    Ok(
        MessageItem::LiveChatMembershipItemRenderer {
            id,
            timestamp_usec,
            author_info,
            header_subtext,
        },
    )
}

pub open spec fn paid_message_spec(v: Json) -> Result<MessageItemModel, Fault> {
    let id = member_spec(v, "id"@, string_fn());
    let timestamp_usec = member_spec(v, "timestampUsec"@, timestamp_fn());
    let message = opt_member_spec(v, "message"@, message_fn());
    let author_info = author_info_spec(v);
    let purchase_amount_text = member_spec(v, "purchaseAmountText"@, simple_text_fn());
    let header_background_color = member_spec(v, "headerBackgroundColor"@, u32_fn());
    let header_text_color = member_spec(v, "headerTextColor"@, u32_fn());
    let body_background_color = member_spec(v, "bodyBackgroundColor"@, u32_fn());
    let body_text_color = member_spec(v, "bodyTextColor"@, u32_fn());
    let author_name_text_color = member_spec(v, "authorNameTextColor"@, u32_fn());
    let timestamp_color = member_spec(v, "timestampColor"@, u32_fn());
    if object_spec(v) is Err {
        Err(object_spec(v)->Err_0)
    } else if id is Err {
        Err(id->Err_0)
    } else if timestamp_usec is Err {
        Err(timestamp_usec->Err_0)
    } else if message is Err {
        Err(message->Err_0)
    } else if author_info is Err {
        Err(author_info->Err_0)
    } else if purchase_amount_text is Err {
        Err(purchase_amount_text->Err_0)
    } else if header_background_color is Err {
        Err(header_background_color->Err_0)
    } else if header_text_color is Err {
        Err(header_text_color->Err_0)
    } else if body_background_color is Err {
        Err(body_background_color->Err_0)
    } else if body_text_color is Err {
        Err(body_text_color->Err_0)
    } else if author_name_text_color is Err {
        Err(author_name_text_color->Err_0)
    } else if timestamp_color is Err {
        Err(timestamp_color->Err_0)
    } else {
        Ok(MessageItemModel::LiveChatPaidMessageRenderer {
            id: id->Ok_0,
            timestamp_usec: timestamp_usec->Ok_0,
            message: message->Ok_0,
            author_info: author_info->Ok_0,
            purchase_amount_text: purchase_amount_text->Ok_0,
            header_background_color: header_background_color->Ok_0,
            header_text_color: header_text_color->Ok_0,
            body_background_color: body_background_color->Ok_0,
            body_text_color: body_text_color->Ok_0,
            author_name_text_color: author_name_text_color->Ok_0,
            timestamp_color: timestamp_color->Ok_0,
        })
    }
}

fn decode_paid_message(v: &Json) -> (r: Result<MessageItem, DecodeError>)
    ensures
        outcome(r) == paid_message_spec(*v),
{
    expect_object(v)?;
    let id = decode_member(v, "id", decode_string, Ghost(string_fn()))?;
    let timestamp_usec = decode_member(v, "timestampUsec", decode_timestamp, Ghost(timestamp_fn()))?;
    let message = decode_opt_member(v, "message", Message::decode, Ghost(message_fn()))?;
    let author_info = AuthorInfo::decode(v)?;
    let purchase_amount_text = decode_member(v, "purchaseAmountText", SimpleText::decode, Ghost(simple_text_fn()))?;
    let header_background_color = decode_member(v, "headerBackgroundColor", decode_u32, Ghost(u32_fn()))?;
    let header_text_color = decode_member(v, "headerTextColor", decode_u32, Ghost(u32_fn()))?;
    let body_background_color = decode_member(v, "bodyBackgroundColor", decode_u32, Ghost(u32_fn()))?;
    let body_text_color = decode_member(v, "bodyTextColor", decode_u32, Ghost(u32_fn()))?;
    let author_name_text_color = decode_member(v, "authorNameTextColor", decode_u32, Ghost(u32_fn()))?;
    let timestamp_color = decode_member(v, "timestampColor", decode_u32, Ghost(u32_fn()))?;
    Ok(
        MessageItem::LiveChatPaidMessageRenderer {
            id,
            timestamp_usec,
            message,
            author_info,
            purchase_amount_text,
            header_background_color,
            header_text_color,
            body_background_color,
            body_text_color,
            author_name_text_color,
            timestamp_color,
        },
    )
}

pub open spec fn paid_sticker_spec(v: Json) -> Result<MessageItemModel, Fault> {
    let id = member_spec(v, "id"@, string_fn());
    let timestamp_usec = member_spec(v, "timestampUsec"@, timestamp_fn());
    let author_info = author_info_spec(v);
    let sticker = member_spec(v, "sticker"@, image_fn());
    let money_chip_background_color = member_spec(v, "moneyChipBackgroundColor"@, u32_fn());
    let money_chip_text_color = member_spec(v, "moneyChipTextColor"@, u32_fn());
    let purchase_amount_text = member_spec(v, "purchaseAmountText"@, simple_text_fn());
    let sticker_display_width = member_spec(v, "stickerDisplayWidth"@, u16_fn());
    let sticker_display_height = member_spec(v, "stickerDisplayHeight"@, u16_fn());
    let background_color = member_spec(v, "backgroundColor"@, u32_fn());
    let author_name_text_color = member_spec(v, "authorNameTextColor"@, u32_fn());
    if object_spec(v) is Err {
        Err(object_spec(v)->Err_0)
    } else if id is Err {
        Err(id->Err_0)
    } else if timestamp_usec is Err {
        Err(timestamp_usec->Err_0)
    } else if author_info is Err {
        Err(author_info->Err_0)
    } else if sticker is Err {
        Err(sticker->Err_0)
    } else if money_chip_background_color is Err {
        Err(money_chip_background_color->Err_0)
    } else if money_chip_text_color is Err {
        Err(money_chip_text_color->Err_0)
    } else if purchase_amount_text is Err {
        Err(purchase_amount_text->Err_0)
    } else if sticker_display_width is Err {
        Err(sticker_display_width->Err_0)
    } else if sticker_display_height is Err {
        Err(sticker_display_height->Err_0)
    } else if background_color is Err {
        Err(background_color->Err_0)
    } else if author_name_text_color is Err {
        Err(author_name_text_color->Err_0)
    } else {
        Ok(MessageItemModel::LiveChatPaidStickerRenderer {
            id: id->Ok_0,
            timestamp_usec: timestamp_usec->Ok_0,
            author_info: author_info->Ok_0,
            sticker: sticker->Ok_0,
            money_chip_background_color: money_chip_background_color->Ok_0,
            money_chip_text_color: money_chip_text_color->Ok_0,
            purchase_amount_text: purchase_amount_text->Ok_0,
            sticker_display_width: sticker_display_width->Ok_0,
            sticker_display_height: sticker_display_height->Ok_0,
            background_color: background_color->Ok_0,
            author_name_text_color: author_name_text_color->Ok_0,
        })
    }
}

fn decode_paid_sticker(v: &Json) -> (r: Result<MessageItem, DecodeError>)
    ensures
        outcome(r) == paid_sticker_spec(*v),
{
    expect_object(v)?;
    let id = decode_member(v, "id", decode_string, Ghost(string_fn()))?;
    let timestamp_usec = decode_member(v, "timestampUsec", decode_timestamp, Ghost(timestamp_fn()))?;
    let author_info = AuthorInfo::decode(v)?;
    let sticker = decode_member(v, "sticker", Image::decode, Ghost(image_fn()))?;
    let money_chip_background_color = decode_member(v, "moneyChipBackgroundColor", decode_u32, Ghost(u32_fn()))?;
    let money_chip_text_color = decode_member(v, "moneyChipTextColor", decode_u32, Ghost(u32_fn()))?;
    let purchase_amount_text = decode_member(v, "purchaseAmountText", SimpleText::decode, Ghost(simple_text_fn()))?;
    let sticker_display_width = decode_member(v, "stickerDisplayWidth", decode_u16, Ghost(u16_fn()))?;
    let sticker_display_height = decode_member(v, "stickerDisplayHeight", decode_u16, Ghost(u16_fn()))?;
    let background_color = decode_member(v, "backgroundColor", decode_u32, Ghost(u32_fn()))?;
    let author_name_text_color = decode_member(v, "authorNameTextColor", decode_u32, Ghost(u32_fn()))?;
    Ok(
        MessageItem::LiveChatPaidStickerRenderer {
            id,
            timestamp_usec,
            author_info,
            sticker,
            money_chip_background_color,
            money_chip_text_color,
            purchase_amount_text,
            sticker_display_width,
            sticker_display_height,
            background_color,
            author_name_text_color,
        },
    )
}

pub open spec fn engagement_message_spec(v: Json) -> Result<MessageItemModel, Fault> {
    let id = member_spec(v, "id"@, string_fn());
    let timestamp_usec = member_spec(v, "timestampUsec"@, timestamp_fn());
    let message = member_spec(v, "message"@, message_fn());
    if object_spec(v) is Err {
        Err(object_spec(v)->Err_0)
    } else if id is Err {
        Err(id->Err_0)
    } else if timestamp_usec is Err {
        Err(timestamp_usec->Err_0)
    } else if message is Err {
        Err(message->Err_0)
    } else {
        Ok(MessageItemModel::LiveChatViewerEngagementMessageRenderer {
            id: id->Ok_0,
            timestamp_usec: timestamp_usec->Ok_0,
            message: message->Ok_0,
        })
    }
}

fn decode_engagement_message(v: &Json) -> (r: Result<MessageItem, DecodeError>)
    ensures
        outcome(r) == engagement_message_spec(*v),
{
    expect_object(v)?;
    let id = decode_member(v, "id", decode_string, Ghost(string_fn()))?;
    let timestamp_usec = decode_member(v, "timestampUsec", decode_timestamp, Ghost(timestamp_fn()))?;
    let message = decode_member(v, "message", Message::decode, Ghost(message_fn()))?;
    Ok(MessageItem::LiveChatViewerEngagementMessageRenderer { id, timestamp_usec, message })
}

pub open spec fn placeholder_item_spec(v: Json) -> Result<MessageItemModel, Fault> {
    let id = member_spec(v, "id"@, string_fn());
    let timestamp_usec = member_spec(v, "timestampUsec"@, timestamp_fn());
    if object_spec(v) is Err {
        Err(object_spec(v)->Err_0)
    } else if id is Err {
        Err(id->Err_0)
    } else if timestamp_usec is Err {
        Err(timestamp_usec->Err_0)
    } else {
        Ok(MessageItemModel::LiveChatPlaceholderItemRenderer {
            id: id->Ok_0,
            timestamp_usec: timestamp_usec->Ok_0,
        })
    }
}

fn decode_placeholder_item(v: &Json) -> (r: Result<MessageItem, DecodeError>)
    ensures
        outcome(r) == placeholder_item_spec(*v),
{
    expect_object(v)?;
    let id = decode_member(v, "id", decode_string, Ghost(string_fn()))?;
    let timestamp_usec = decode_member(v, "timestampUsec", decode_timestamp, Ghost(timestamp_fn()))?;
    Ok(MessageItem::LiveChatPlaceholderItemRenderer { id, timestamp_usec })
}

pub open spec fn mode_change_message_spec(v: Json) -> Result<MessageItemModel, Fault> {
    let id = member_spec(v, "id"@, string_fn());
    let timestamp_usec = member_spec(v, "timestampUsec"@, timestamp_fn());
    let text = member_spec(v, "text"@, message_fn());
    let subtext = member_spec(v, "subtext"@, message_fn());
    if object_spec(v) is Err {
        Err(object_spec(v)->Err_0)
    } else if id is Err {
        Err(id->Err_0)
    } else if timestamp_usec is Err {
        Err(timestamp_usec->Err_0)
    } else if text is Err {
        Err(text->Err_0)
    } else if subtext is Err {
        Err(subtext->Err_0)
    } else {
        Ok(MessageItemModel::LiveChatModeChangeMessageRenderer {
            id: id->Ok_0,
            timestamp_usec: timestamp_usec->Ok_0,
            text: text->Ok_0,
            subtext: subtext->Ok_0,
        })
    }
}

fn decode_mode_change_message(v: &Json) -> (r: Result<MessageItem, DecodeError>)
    ensures
        outcome(r) == mode_change_message_spec(*v),
{
    expect_object(v)?;
    let id = decode_member(v, "id", decode_string, Ghost(string_fn()))?;
    let timestamp_usec = decode_member(v, "timestampUsec", decode_timestamp, Ghost(timestamp_fn()))?;
    let text = decode_member(v, "text", Message::decode, Ghost(message_fn()))?;
    let subtext = decode_member(v, "subtext", Message::decode, Ghost(message_fn()))?;
    Ok(MessageItem::LiveChatModeChangeMessageRenderer { id, timestamp_usec, text, subtext })
}

/// The item whose tag is `tag`, decoded from `body`.
pub open spec fn message_item_variant_spec(tag: Seq<char>, body: Json) -> Result<MessageItemModel, Fault> {
    if tag == "liveChatTextMessageRenderer"@ {
        text_message_spec(body)
    } else if tag == "liveChatMembershipItemRenderer"@ {
        membership_item_spec(body)
    } else if tag == "liveChatPaidMessageRenderer"@ {
        paid_message_spec(body)
    } else if tag == "liveChatPaidStickerRenderer"@ {
        paid_sticker_spec(body)
    } else if tag == "liveChatViewerEngagementMessageRenderer"@ {
        engagement_message_spec(body)
    } else if tag == "liveChatPlaceholderItemRenderer"@ {
        placeholder_item_spec(body)
    } else if tag == "liveChatModeChangeMessageRenderer"@ {
        mode_change_message_spec(body)
    } else {
        Err(fault(ErrorKind::UnknownVariant, tag))
    }
}

/// An object with exactly one member, whose key names the variant.
pub open spec fn message_item_spec(v: Json) -> Result<MessageItemModel, Fault> {
    match v {
        Json::Object(members) => if members@.len() == 1 {
            message_item_variant_spec(members@[0].0@, members@[0].1)
        } else {
            Err(fault(ErrorKind::WrongType, "single-member object"@))
        },
        _ => Err(fault(ErrorKind::WrongType, "object"@)),
    }
}

pub open spec fn message_item_fn() -> spec_fn(Json) -> Result<MessageItemModel, Fault> {
    |j: Json| message_item_spec(j)
}

impl MessageItem {
    pub fn decode(v: &Json) -> (r: Result<MessageItem, DecodeError>)
        ensures
            outcome(r) == message_item_spec(*v),
    {
        match v {
            Json::Object(members) => {
                if members.len() != 1 {
                    return Err(fail(ErrorKind::WrongType, "single-member object"));
                }
                let tag = &members[0].0;
                let body = &members[0].1;
                if *tag == "liveChatTextMessageRenderer".to_owned() {
                    decode_text_message(body)
                } else if *tag == "liveChatMembershipItemRenderer".to_owned() {
                    decode_membership_item(body)
                } else if *tag == "liveChatPaidMessageRenderer".to_owned() {
                    decode_paid_message(body)
                } else if *tag == "liveChatPaidStickerRenderer".to_owned() {
                    decode_paid_sticker(body)
                } else if *tag == "liveChatViewerEngagementMessageRenderer".to_owned() {
                    decode_engagement_message(body)
                } else if *tag == "liveChatPlaceholderItemRenderer".to_owned() {
                    decode_placeholder_item(body)
                } else if *tag == "liveChatModeChangeMessageRenderer".to_owned() {
                    decode_mode_change_message(body)
                } else {
                    Err(DecodeError { kind: ErrorKind::UnknownVariant, detail: tag.clone() })
                }
            },
            _ => Err(fail(ErrorKind::WrongType, "object")),
        }
    }
}

/// A banner pinned above the chat.
#[derive(Debug)]
pub struct BannerItem {
    pub id: String,
    pub timestamp_usec: u64,
    pub message: Message,
    pub author_info: AuthorInfo,
}

pub struct BannerItemModel {
    pub id: Seq<char>,
    pub timestamp_usec: u64,
    pub message: Seq<ContentModel>,
    pub author_info: AuthorInfoModel,
}

impl View for BannerItem {
    type V = BannerItemModel;

    open spec fn view(&self) -> BannerItemModel {
        BannerItemModel {
            id: self.id@,
            timestamp_usec: self.timestamp_usec,
            message: self.message@,
            author_info: self.author_info@,
        }
    }
}

/// The banner entity, with its author's members beside its own.
pub open spec fn banner_entity_spec(v: Json) -> Result<BannerItemModel, Fault> {
    let id = member_spec(v, "id"@, string_fn());
    let timestamp_usec = member_spec(v, "timestampUsec"@, timestamp_fn());
    let author_info = author_info_spec(v);
    let message = member_spec(v, "message"@, message_fn());
    if object_spec(v) is Err {
        Err(object_spec(v)->Err_0)
    } else if id is Err {
        Err(id->Err_0)
    } else if timestamp_usec is Err {
        Err(timestamp_usec->Err_0)
    } else if author_info is Err {
        Err(author_info->Err_0)
    } else if message is Err {
        Err(message->Err_0)
    } else {
        Ok(
            BannerItemModel {
                id: id->Ok_0,
                timestamp_usec: timestamp_usec->Ok_0,
                message: message->Ok_0,
                author_info: author_info->Ok_0,
            },
        )
    }
}

/// `{"liveChatBannerRenderer": {"contents": {"liveChatTextMessageRenderer": <entity>}}}`
pub open spec fn banner_spec(v: Json) -> Result<BannerItemModel, Fault> {
    match unwrap_spec(v, "liveChatBannerRenderer"@) {
        Err(e) => Err(e),
        Ok(renderer) => match unwrap_spec(renderer, "contents"@) {
            Err(e) => Err(e),
            Ok(contents) => match unwrap_spec(contents, "liveChatTextMessageRenderer"@) {
                Err(e) => Err(e),
                Ok(entity) => banner_entity_spec(entity),
            },
        },
    }
}

pub open spec fn banner_fn() -> spec_fn(Json) -> Result<BannerItemModel, Fault> {
    |j: Json| banner_spec(j)
}

impl BannerItem {
    pub fn decode(v: &Json) -> (r: Result<BannerItem, DecodeError>)
        ensures
            outcome(r) == banner_spec(*v),
    {
        let renderer = unwrap(v, "liveChatBannerRenderer")?;
        let contents = unwrap(renderer, "contents")?;
        let entity = unwrap(contents, "liveChatTextMessageRenderer")?;
        expect_object(entity)?;
        let id = decode_member(entity, "id", decode_string, Ghost(string_fn()))?;
        let timestamp_usec = decode_member(
            entity,
            "timestampUsec",
            decode_timestamp,
            Ghost(timestamp_fn()),
        )?;
        let author_info = AuthorInfo::decode(entity)?;
        let message = decode_member(entity, "message", Message::decode, Ghost(message_fn()))?;
        Ok(BannerItem { id, timestamp_usec, message, author_info })
    }
}

/// One change to the chat view.
#[derive(Debug)]
pub enum Action {
    AddBannerToLiveChatCommand { banner: BannerItem },
    AddChatItemAction { item: MessageItem },
    MarkChatItemAsDeletedAction { deleted_state_message: Message, target_item_id: String },
    MarkChatItemsByAuthorAsDeletedAction {
        deleted_state_message: Message,
        external_channel_id: String,
    },
    ReplaceChatItemAction { target_item_id: String, replacement_item: MessageItem },
}

pub enum ActionModel {
    AddBannerToLiveChatCommand { banner: BannerItemModel },
    AddChatItemAction { item: MessageItemModel },
    MarkChatItemAsDeletedAction {
        deleted_state_message: Seq<ContentModel>,
        target_item_id: Seq<char>,
    },
    MarkChatItemsByAuthorAsDeletedAction {
        deleted_state_message: Seq<ContentModel>,
        external_channel_id: Seq<char>,
    },
    ReplaceChatItemAction { target_item_id: Seq<char>, replacement_item: MessageItemModel },
}

impl View for Action {
    type V = ActionModel;

    open spec fn view(&self) -> ActionModel {
        match self {
            Action::AddBannerToLiveChatCommand { banner } => ActionModel::AddBannerToLiveChatCommand {
                banner: banner@,
            },
            Action::AddChatItemAction { item } => ActionModel::AddChatItemAction { item: item@ },
            Action::MarkChatItemAsDeletedAction { deleted_state_message, target_item_id } =>
                ActionModel::MarkChatItemAsDeletedAction {
                deleted_state_message: deleted_state_message@,
                target_item_id: target_item_id@,
            },
            Action::MarkChatItemsByAuthorAsDeletedAction {
                deleted_state_message,
                external_channel_id,
            } => ActionModel::MarkChatItemsByAuthorAsDeletedAction {
                deleted_state_message: deleted_state_message@,
                external_channel_id: external_channel_id@,
            },
            Action::ReplaceChatItemAction { target_item_id, replacement_item } =>
                ActionModel::ReplaceChatItemAction {
                target_item_id: target_item_id@,
                replacement_item: replacement_item@,
            },
        }
    }
}

/// An action envelope after dispatch: a concrete action, or nothing for
/// the recognized envelopes that carry no payload.
#[derive(Debug)]
pub enum OptionalAction {
    Action(Action),
    NoAction,
}

pub enum OptionalActionModel {
    Action(ActionModel),
    NoAction,
}

impl View for OptionalAction {
    type V = OptionalActionModel;

    open spec fn view(&self) -> OptionalActionModel {
        match self {
            OptionalAction::Action(a) => OptionalActionModel::Action(a@),
            OptionalAction::NoAction => OptionalActionModel::NoAction,
        }
    }
}

/// Whether the member `key` is present and not `null`.
pub open spec fn present(v: Json, key: Seq<char>) -> bool {
    optional_spec(v, key) is Some
}

pub open spec fn one_if(b: bool) -> nat {
    if b {
        1
    } else {
        0
    }
}

/// How many of the seven known action keys `v` carries.
pub open spec fn known_key_count(v: Json) -> nat {
    one_if(present(v, "addBannerToLiveChatCommand"@)) + one_if(
        present(v, "addLiveChatTickerItemAction"@),
    ) + one_if(present(v, "addChatItemAction"@)) + one_if(
        present(v, "markChatItemAsDeletedAction"@),
    ) + one_if(present(v, "markChatItemsByAuthorAsDeletedAction"@)) + one_if(
        present(v, "replaceChatItemAction"@),
    ) + one_if(present(v, "showLiveChatTooltipCommand"@))
}

pub open spec fn unsupported_action_detail() -> Seq<char> {
    "none of the known action keys is present"@
}

pub open spec fn ambiguous_action_detail() -> Seq<char> {
    "more than one action key is present"@
}

/// `{"deletedStateMessage": ..., "targetItemId": ...}`
pub open spec fn delete_item_spec(v: Json) -> Result<ActionModel, Fault> {
    let deleted_state_message = member_spec(v, "deletedStateMessage"@, message_fn());
    let target_item_id = member_spec(v, "targetItemId"@, string_fn());
    if object_spec(v) is Err {
        Err(object_spec(v)->Err_0)
    } else if deleted_state_message is Err {
        Err(deleted_state_message->Err_0)
    } else if target_item_id is Err {
        Err(target_item_id->Err_0)
    } else {
        Ok(
            ActionModel::MarkChatItemAsDeletedAction {
                deleted_state_message: deleted_state_message->Ok_0,
                target_item_id: target_item_id->Ok_0,
            },
        )
    }
}

/// `{"deletedStateMessage": ..., "externalChannelId": ...}`
pub open spec fn delete_author_items_spec(v: Json) -> Result<ActionModel, Fault> {
    let deleted_state_message = member_spec(v, "deletedStateMessage"@, message_fn());
    let external_channel_id = member_spec(v, "externalChannelId"@, string_fn());
    if object_spec(v) is Err {
        Err(object_spec(v)->Err_0)
    } else if deleted_state_message is Err {
        Err(deleted_state_message->Err_0)
    } else if external_channel_id is Err {
        Err(external_channel_id->Err_0)
    } else {
        Ok(
            ActionModel::MarkChatItemsByAuthorAsDeletedAction {
                deleted_state_message: deleted_state_message->Ok_0,
                external_channel_id: external_channel_id->Ok_0,
            },
        )
    }
}

/// `{"targetItemId": ..., "replacementItem": ...}`
pub open spec fn replace_item_spec(v: Json) -> Result<ActionModel, Fault> {
    let target_item_id = member_spec(v, "targetItemId"@, string_fn());
    let replacement_item = member_spec(v, "replacementItem"@, message_item_fn());
    if object_spec(v) is Err {
        Err(object_spec(v)->Err_0)
    } else if target_item_id is Err {
        Err(target_item_id->Err_0)
    } else if replacement_item is Err {
        Err(replacement_item->Err_0)
    } else {
        Ok(
            ActionModel::ReplaceChatItemAction {
                target_item_id: target_item_id->Ok_0,
                replacement_item: replacement_item->Ok_0,
            },
        )
    }
}

/// `{"bannerRenderer": <banner>}`
pub open spec fn add_banner_spec(v: Json) -> Result<ActionModel, Fault> {
    match object_spec(v) {
        Err(e) => Err(e),
        Ok(_) => match member_spec(v, "bannerRenderer"@, banner_fn()) {
            Err(e) => Err(e),
            Ok(b) => Ok(ActionModel::AddBannerToLiveChatCommand { banner: b }),
        },
    }
}

/// `{"item": <message item>}`
pub open spec fn add_chat_item_spec(v: Json) -> Result<ActionModel, Fault> {
    match object_spec(v) {
        Err(e) => Err(e),
        Ok(_) => match member_spec(v, "item"@, message_item_fn()) {
            Err(e) => Err(e),
            Ok(i) => Ok(ActionModel::AddChatItemAction { item: i }),
        },
    }
}

pub open spec fn concrete(a: Result<ActionModel, Fault>) -> Result<OptionalActionModel, Fault> {
    match a {
        Err(e) => Err(e),
        Ok(a) => Ok(OptionalActionModel::Action(a)),
    }
}

/// A ticker item or tooltip command: any object, and no action.
pub open spec fn inert_spec(v: Json) -> Result<OptionalActionModel, Fault> {
    match object_spec(v) {
        Err(e) => Err(e),
        Ok(_) => Ok(OptionalActionModel::NoAction),
    }
}

/// The payload of the member `key` of `v`.
pub open spec fn payload(v: Json, key: Seq<char>) -> Json {
    optional_spec(v, key)->Some_0
}

/// An action envelope: an object with at most one of the seven known keys.
/// None of them is an unsupported-action fault, two or more an
/// ambiguous-action fault; other members are ignored.
pub open spec fn optional_action_spec(v: Json) -> Result<OptionalActionModel, Fault> {
    if object_spec(v) is Err {
        Err(object_spec(v)->Err_0)
    } else if known_key_count(v) == 0 {
        Err(fault(ErrorKind::UnsupportedAction, unsupported_action_detail()))
    } else if known_key_count(v) > 1 {
        Err(fault(ErrorKind::AmbiguousAction, ambiguous_action_detail()))
    } else if present(v, "addBannerToLiveChatCommand"@) {
        concrete(add_banner_spec(payload(v, "addBannerToLiveChatCommand"@)))
    } else if present(v, "addLiveChatTickerItemAction"@) {
        inert_spec(payload(v, "addLiveChatTickerItemAction"@))
    } else if present(v, "addChatItemAction"@) {
        concrete(add_chat_item_spec(payload(v, "addChatItemAction"@)))
    } else if present(v, "markChatItemAsDeletedAction"@) {
        concrete(delete_item_spec(payload(v, "markChatItemAsDeletedAction"@)))
    } else if present(v, "markChatItemsByAuthorAsDeletedAction"@) {
        concrete(delete_author_items_spec(payload(v, "markChatItemsByAuthorAsDeletedAction"@)))
    } else if present(v, "replaceChatItemAction"@) {
        concrete(replace_item_spec(payload(v, "replaceChatItemAction"@)))
    } else {
        inert_spec(payload(v, "showLiveChatTooltipCommand"@))
    }
}

pub open spec fn optional_action_fn() -> spec_fn(Json) -> Result<OptionalActionModel, Fault> {
    |j: Json| optional_action_spec(j)
}

fn decode_add_banner(p: &Json) -> (r: Result<Action, DecodeError>)
    ensures
        outcome(r) == add_banner_spec(*p),
{
    expect_object(p)?;
    let banner = decode_member(p, "bannerRenderer", BannerItem::decode, Ghost(banner_fn()))?;
    Ok(Action::AddBannerToLiveChatCommand { banner })
}

fn decode_add_chat_item(p: &Json) -> (r: Result<Action, DecodeError>)
    ensures
        outcome(r) == add_chat_item_spec(*p),
{
    expect_object(p)?;
    let item = decode_member(p, "item", MessageItem::decode, Ghost(message_item_fn()))?;
    Ok(Action::AddChatItemAction { item })
}

fn decode_delete_item(p: &Json) -> (r: Result<Action, DecodeError>)
    ensures
        outcome(r) == delete_item_spec(*p),
{
    expect_object(p)?;
    let deleted_state_message = decode_member(
        p,
        "deletedStateMessage",
        Message::decode,
        Ghost(message_fn()),
    )?;
    let target_item_id = decode_member(p, "targetItemId", decode_string, Ghost(string_fn()))?;
    Ok(Action::MarkChatItemAsDeletedAction { deleted_state_message, target_item_id })
}

fn decode_delete_author_items(p: &Json) -> (r: Result<Action, DecodeError>)
    ensures
        outcome(r) == delete_author_items_spec(*p),
{
    expect_object(p)?;
    let deleted_state_message = decode_member(
        p,
        "deletedStateMessage",
        Message::decode,
        Ghost(message_fn()),
    )?;
    let external_channel_id = decode_member(
        p,
        "externalChannelId",
        decode_string,
        Ghost(string_fn()),
    )?;
    Ok(Action::MarkChatItemsByAuthorAsDeletedAction { deleted_state_message, external_channel_id })
}

fn decode_replace_item(p: &Json) -> (r: Result<Action, DecodeError>)
    ensures
        outcome(r) == replace_item_spec(*p),
{
    expect_object(p)?;
    let target_item_id = decode_member(p, "targetItemId", decode_string, Ghost(string_fn()))?;
    let replacement_item = decode_member(
        p,
        "replacementItem",
        MessageItem::decode,
        Ghost(message_item_fn()),
    )?;
    Ok(Action::ReplaceChatItemAction { target_item_id, replacement_item })
}

fn decode_inert(p: &Json) -> (r: Result<OptionalAction, DecodeError>)
    ensures
        outcome(r) == inert_spec(*p),
{
    expect_object(p)?;
    Ok(OptionalAction::NoAction)
}

fn wrap_action(a: Result<Action, DecodeError>) -> (r: Result<OptionalAction, DecodeError>)
    ensures
        outcome(r) == concrete(outcome(a)),
{
    match a {
        Ok(a) => Ok(OptionalAction::Action(a)),
        Err(e) => Err(e),
    }
}

fn count_if(b: bool) -> (r: usize)
    ensures
        r == one_if(b),
{
    if b {
        1
    } else {
        0
    }
}

impl OptionalAction {
    /// Decodes an action envelope: counts the known keys that are present,
    /// then decodes the payload of the single one.
    pub fn decode(v: &Json) -> (r: Result<OptionalAction, DecodeError>)
        ensures
            outcome(r) == optional_action_spec(*v),
    {
        expect_object(v)?;
        let banner = optional(v, "addBannerToLiveChatCommand");
        let ticker = optional(v, "addLiveChatTickerItemAction");
        let chat_item = optional(v, "addChatItemAction");
        let deleted = optional(v, "markChatItemAsDeletedAction");
        let by_author = optional(v, "markChatItemsByAuthorAsDeletedAction");
        let replace = optional(v, "replaceChatItemAction");
        let tooltip = optional(v, "showLiveChatTooltipCommand");
        let count: usize = count_if(banner.is_some()) + count_if(ticker.is_some()) + count_if(
            chat_item.is_some(),
        ) + count_if(deleted.is_some()) + count_if(by_author.is_some()) + count_if(
            replace.is_some(),
        ) + count_if(tooltip.is_some());
        if count == 0 {
            return Err(
                fail(ErrorKind::UnsupportedAction, "none of the known action keys is present"),
            );
        }
        if count > 1 {
            return Err(fail(ErrorKind::AmbiguousAction, "more than one action key is present"));
        }
        if let Some(p) = banner {
            return wrap_action(decode_add_banner(p));
        }
        if let Some(p) = ticker {
            return decode_inert(p);
        }
        if let Some(p) = chat_item {
            return wrap_action(decode_add_chat_item(p));
        }
        if let Some(p) = deleted {
            return wrap_action(decode_delete_item(p));
        }
        if let Some(p) = by_author {
            return wrap_action(decode_delete_author_items(p));
        }
        if let Some(p) = replace {
            return wrap_action(decode_replace_item(p));
        }
        match tooltip {
            Some(p) => decode_inert(p),
            None => Err(fail(ErrorKind::UnsupportedAction, "none of the known action keys is present")),
        }
    }
}

/// The icon of a chat mode.
#[derive(Debug)]
pub struct ChatModeIcon {
    pub icon_type: ChatModeIconType,
}

impl View for ChatModeIcon {
    type V = ChatModeIconType;

    open spec fn view(&self) -> ChatModeIconType {
        self.icon_type
    }
}

/// The chat modes that have an icon.
#[derive(Clone, Copy, Debug, PartialEq, Eq, Structural)]
pub enum ChatModeIconType {
    SlowMode,
    MembersOnlyMode,
}

/// `"SLOW_MODE"` or `"MEMBERS_ONLY_MODE"`.
pub open spec fn chat_mode_icon_type_spec(v: Json) -> Result<ChatModeIconType, Fault> {
    match v {
        Json::Str(s) => if s@ == "SLOW_MODE"@ {
            Ok(ChatModeIconType::SlowMode)
        } else if s@ == "MEMBERS_ONLY_MODE"@ {
            Ok(ChatModeIconType::MembersOnlyMode)
        } else {
            Err(fault(ErrorKind::UnknownVariant, s@))
        },
        _ => Err(fault(ErrorKind::WrongType, "string"@)),
    }
}

pub open spec fn chat_mode_icon_spec(v: Json) -> Result<ChatModeIconType, Fault> {
    match object_spec(v) {
        Err(e) => Err(e),
        Ok(_) => match required_spec(v, "iconType"@) {
            Err(e) => Err(e),
            Ok(t) => chat_mode_icon_type_spec(t),
        },
    }
}

impl ChatModeIconType {
    pub fn decode(v: &Json) -> (r: Result<ChatModeIconType, DecodeError>)
        ensures
            match r {
                Ok(t) => chat_mode_icon_type_spec(*v) == Ok::<ChatModeIconType, Fault>(t),
                Err(e) => chat_mode_icon_type_spec(*v) == Err::<ChatModeIconType, Fault>(e@),
            },
    {
        match v {
            Json::Str(s) => {
                if *s == "SLOW_MODE".to_owned() {
                    Ok(ChatModeIconType::SlowMode)
                } else if *s == "MEMBERS_ONLY_MODE".to_owned() {
                    Ok(ChatModeIconType::MembersOnlyMode)
                } else {
                    Err(DecodeError { kind: ErrorKind::UnknownVariant, detail: s.clone() })
                }
            },
            _ => Err(fail(ErrorKind::WrongType, "string")),
        }
    }
}

impl ChatModeIcon {
    pub fn decode(v: &Json) -> (r: Result<ChatModeIcon, DecodeError>)
        ensures
            outcome(r) == chat_mode_icon_spec(*v),
    {
        expect_object(v)?;
        let t = required(v, "iconType")?;
        let icon_type = ChatModeIconType::decode(t)?;
        Ok(ChatModeIcon { icon_type })
    }
}

/// An envelope that carries exactly one of the seven known keys decodes to
/// the action of that key, or to no action for a ticker item or a tooltip
/// command, whenever that key's payload decodes.
pub proof fn lemma_single_key_dispatch(v: Json)
    requires
        v is Object,
        known_key_count(v) == 1,
    ensures
        present(v, "addBannerToLiveChatCommand"@) && add_banner_spec(
            payload(v, "addBannerToLiveChatCommand"@),
        ) is Ok ==> optional_action_spec(v) == Ok::<OptionalActionModel, Fault>(
            OptionalActionModel::Action(
                add_banner_spec(payload(v, "addBannerToLiveChatCommand"@))->Ok_0,
            ),
        ),
        present(v, "addChatItemAction"@) && add_chat_item_spec(payload(v, "addChatItemAction"@))
            is Ok ==> optional_action_spec(v) == Ok::<OptionalActionModel, Fault>(
            OptionalActionModel::Action(add_chat_item_spec(payload(v, "addChatItemAction"@))->Ok_0),
        ),
        present(v, "markChatItemAsDeletedAction"@) && delete_item_spec(
            payload(v, "markChatItemAsDeletedAction"@),
        ) is Ok ==> optional_action_spec(v) == Ok::<OptionalActionModel, Fault>(
            OptionalActionModel::Action(
                delete_item_spec(payload(v, "markChatItemAsDeletedAction"@))->Ok_0,
            ),
        ),
        present(v, "markChatItemsByAuthorAsDeletedAction"@) && delete_author_items_spec(
            payload(v, "markChatItemsByAuthorAsDeletedAction"@),
        ) is Ok ==> optional_action_spec(v) == Ok::<OptionalActionModel, Fault>(
            OptionalActionModel::Action(
                delete_author_items_spec(payload(v, "markChatItemsByAuthorAsDeletedAction"@))->Ok_0,
            ),
        ),
        present(v, "replaceChatItemAction"@) && replace_item_spec(
            payload(v, "replaceChatItemAction"@),
        ) is Ok ==> optional_action_spec(v) == Ok::<OptionalActionModel, Fault>(
            OptionalActionModel::Action(
                replace_item_spec(payload(v, "replaceChatItemAction"@))->Ok_0,
            ),
        ),
        present(v, "addLiveChatTickerItemAction"@) && payload(v, "addLiveChatTickerItemAction"@)
            is Object ==> optional_action_spec(v) == Ok::<OptionalActionModel, Fault>(
            OptionalActionModel::NoAction,
        ),
        present(v, "showLiveChatTooltipCommand"@) && payload(v, "showLiveChatTooltipCommand"@)
            is Object ==> optional_action_spec(v) == Ok::<OptionalActionModel, Fault>(
            OptionalActionModel::NoAction,
        ),
{
}

/// An envelope that carries none of the seven known keys is an
/// unsupported action.
pub proof fn lemma_no_key_unsupported(v: Json)
    requires
        v is Object,
        known_key_count(v) == 0,
    ensures
        optional_action_spec(v) == Err::<OptionalActionModel, Fault>(
            fault(ErrorKind::UnsupportedAction, unsupported_action_detail()),
        ),
{
}

/// An envelope that carries two or more of the seven known keys is an
/// ambiguous action, whatever their payloads.
pub proof fn lemma_many_keys_ambiguous(v: Json)
    requires
        v is Object,
        known_key_count(v) >= 2,
    ensures
        optional_action_spec(v) == Err::<OptionalActionModel, Fault>(
            fault(ErrorKind::AmbiguousAction, ambiguous_action_detail()),
        ),
{
}

} // verus!
