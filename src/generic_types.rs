//! Images, texts, message runs, emoji, badges and author information.
use vstd::prelude::*;
use vstd::string::StringExecFns;
use crate::json::{
    bool_fn, decode_bool, decode_member, decode_non_empty, decode_opt_member,
    decode_opt_non_empty, decode_string, decode_u16, expect_object, fail, fault, member_spec,
    non_empty_spec, object_spec, opt_member_spec, opt_non_empty_spec, opt_view,
    outcome, required, required_spec, string_fn, u16_fn, unwrap, unwrap_spec, DecodeError,
    ErrorKind, Fault, Json,
};
use crate::non_empty::NonEmptyVec;

verus! {

/// A plain text: `{"simpleText": ...}`.
#[derive(Debug)]
pub struct SimpleText {
    pub simple_text: String,
}

impl View for SimpleText {
    type V = Seq<char>;

    open spec fn view(&self) -> Seq<char> {
        self.simple_text@
    }
}

pub open spec fn simple_text_spec(v: Json) -> Result<Seq<char>, Fault> {
    match object_spec(v) {
        Err(e) => Err(e),
        Ok(_) => member_spec(v, "simpleText"@, string_fn()),
    }
}

pub open spec fn simple_text_fn() -> spec_fn(Json) -> Result<Seq<char>, Fault> {
    |j: Json| simple_text_spec(j)
}

impl SimpleText {
    pub fn decode(v: &Json) -> (r: Result<SimpleText, DecodeError>)
        ensures
            outcome(r) == simple_text_spec(*v),
    {
        expect_object(v)?;
        let simple_text = decode_member(v, "simpleText", decode_string, Ghost(string_fn()))?;
        Ok(SimpleText { simple_text })
    }
}

/// One size of an image.
#[derive(Debug)]
pub struct Thumbnail {
    pub url: String,
    pub width: u16,
    pub height: u16,
}

pub struct ThumbnailModel {
    pub url: Seq<char>,
    pub width: u16,
    pub height: u16,
}

impl View for Thumbnail {
    type V = ThumbnailModel;

    open spec fn view(&self) -> ThumbnailModel {
        ThumbnailModel { url: self.url@, width: self.width, height: self.height }
    }
}

pub open spec fn thumbnail_spec(v: Json) -> Result<ThumbnailModel, Fault> {
    let url = member_spec(v, "url"@, string_fn());
    let width = member_spec(v, "width"@, u16_fn());
    let height = member_spec(v, "height"@, u16_fn());
    if object_spec(v) is Err {
        Err(object_spec(v)->Err_0)
    } else if url is Err {
        Err(url->Err_0)
    } else if width is Err {
        Err(width->Err_0)
    } else if height is Err {
        Err(height->Err_0)
    } else {
        Ok(ThumbnailModel { url: url->Ok_0, width: width->Ok_0, height: height->Ok_0 })
    }
}

pub open spec fn thumbnail_fn() -> spec_fn(Json) -> Result<ThumbnailModel, Fault> {
    |j: Json| thumbnail_spec(j)
}

impl Thumbnail {
    pub fn decode(v: &Json) -> (r: Result<Thumbnail, DecodeError>)
        ensures
            outcome(r) == thumbnail_spec(*v),
    {
        expect_object(v)?;
        let url = decode_member(v, "url", decode_string, Ghost(string_fn()))?;
        let width = decode_member(v, "width", decode_u16, Ghost(u16_fn()))?;
        let height = decode_member(v, "height", decode_u16, Ghost(u16_fn()))?;
        Ok(Thumbnail { url, width, height })
    }
}

/// One image of a custom badge, without dimensions.
#[derive(Debug)]
pub struct SimpleThumbnail {
    pub url: String,
}

impl View for SimpleThumbnail {
    type V = Seq<char>;

    open spec fn view(&self) -> Seq<char> {
        self.url@
    }
}

pub open spec fn simple_thumbnail_spec(v: Json) -> Result<Seq<char>, Fault> {
    match object_spec(v) {
        Err(e) => Err(e),
        Ok(_) => member_spec(v, "url"@, string_fn()),
    }
}

pub open spec fn simple_thumbnail_fn() -> spec_fn(Json) -> Result<Seq<char>, Fault> {
    |j: Json| simple_thumbnail_spec(j)
}

impl SimpleThumbnail {
    pub fn decode(v: &Json) -> (r: Result<SimpleThumbnail, DecodeError>)
        ensures
            outcome(r) == simple_thumbnail_spec(*v),
    {
        expect_object(v)?;
        let url = decode_member(v, "url", decode_string, Ghost(string_fn()))?;
        Ok(SimpleThumbnail { url })
    }
}

/// An image in one or more sizes, in source order.
#[derive(Debug)]
pub struct Image {
    pub thumbnails: NonEmptyVec<Thumbnail>,
}

impl View for Image {
    type V = Seq<ThumbnailModel>;

    open spec fn view(&self) -> Seq<ThumbnailModel> {
        self.thumbnails@
    }
}

pub open spec fn image_spec(v: Json) -> Result<Seq<ThumbnailModel>, Fault> {
    match object_spec(v) {
        Err(e) => Err(e),
        Ok(_) => non_empty_spec(v, "thumbnails"@, thumbnail_fn()),
    }
}

pub open spec fn image_fn() -> spec_fn(Json) -> Result<Seq<ThumbnailModel>, Fault> {
    |j: Json| image_spec(j)
}

impl Image {
    pub fn decode(v: &Json) -> (r: Result<Image, DecodeError>)
        ensures
            outcome(r) == image_spec(*v),
    {
        expect_object(v)?;
        let thumbnails = decode_non_empty(v, "thumbnails", Thumbnail::decode, Ghost(thumbnail_fn()))?;
        Ok(Image { thumbnails })
    }

    /// The canonical thumbnail: the first one, in source order.
    pub fn get_first(self) -> (r: Thumbnail)
        ensures
            r == self.thumbnails.items()[0],
    {
        let (first, _) = self.thumbnails.split_off_first();
        first
    }
}

/// A badge image in one or more sizes, in source order.
#[derive(Debug)]
pub struct CustomImage {
    pub thumbnails: NonEmptyVec<SimpleThumbnail>,
}

impl View for CustomImage {
    type V = Seq<Seq<char>>;

    open spec fn view(&self) -> Seq<Seq<char>> {
        self.thumbnails@
    }
}

pub open spec fn custom_image_spec(v: Json) -> Result<Seq<Seq<char>>, Fault> {
    match object_spec(v) {
        Err(e) => Err(e),
        Ok(_) => non_empty_spec(v, "thumbnails"@, simple_thumbnail_fn()),
    }
}

pub open spec fn custom_image_fn() -> spec_fn(Json) -> Result<Seq<Seq<char>>, Fault> {
    |j: Json| custom_image_spec(j)
}

impl CustomImage {
    pub fn decode(v: &Json) -> (r: Result<CustomImage, DecodeError>)
        ensures
            outcome(r) == custom_image_spec(*v),
    {
        expect_object(v)?;
        let thumbnails = decode_non_empty(
            v,
            "thumbnails",
            SimpleThumbnail::decode,
            Ghost(simple_thumbnail_fn()),
        )?;
        Ok(CustomImage { thumbnails })
    }

    /// The canonical thumbnail: the first one, in source order.
    pub fn get_first(self) -> (r: SimpleThumbnail)
        ensures
            r == self.thumbnails.items()[0],
    {
        let (first, _) = self.thumbnails.split_off_first();
        first
    }
}

/// A rendered message: its runs, in order.
#[derive(Debug)]
pub struct Message {
    pub runs: NonEmptyVec<MessageContent>,
}

impl View for Message {
    type V = Seq<ContentModel>;

    open spec fn view(&self) -> Seq<ContentModel> {
        self.runs@
    }
}

pub open spec fn message_spec(v: Json) -> Result<Seq<ContentModel>, Fault> {
    match object_spec(v) {
        Err(e) => Err(e),
        Ok(_) => non_empty_spec(v, "runs"@, content_fn()),
    }
}

pub open spec fn message_fn() -> spec_fn(Json) -> Result<Seq<ContentModel>, Fault> {
    |j: Json| message_spec(j)
}

impl Message {
    pub fn decode(v: &Json) -> (r: Result<Message, DecodeError>)
        ensures
            outcome(r) == message_spec(*v),
    {
        expect_object(v)?;
        let runs = decode_non_empty(v, "runs", MessageContent::decode, Ghost(content_fn()))?;
        Ok(Message { runs })
    }
}

/// One run of a message.
#[derive(Debug)]
pub enum MessageContent {
    Text(String),
    Emoji(Emoji),
    Link { text: String, url: String },
}

pub enum ContentModel {
    Text(Seq<char>),
    Emoji(EmojiModel),
    Link { text: Seq<char>, url: Seq<char> },
}

impl View for MessageContent {
    type V = ContentModel;

    open spec fn view(&self) -> ContentModel {
        match self {
            MessageContent::Text(t) => ContentModel::Text(t@),
            MessageContent::Emoji(e) => ContentModel::Emoji(e@),
            MessageContent::Link { text, url } => ContentModel::Link { text: text@, url: url@ },
        }
    }
}

/// The origin that relative link targets are resolved against.
pub open spec fn site_origin() -> Seq<char> {
    "https://www.youtube.com"@
}

/// The address of the watch page of a video.
pub open spec fn watch_url(video_id: Seq<char>) -> Seq<char> {
    "https://www.youtube.com/watch?v="@ + video_id
}

pub open spec fn invalid(detail: Seq<char>) -> Fault {
    fault(ErrorKind::InvalidContent, detail)
}

/// Classifies a run from its three optional members.
pub open spec fn content_rules(
    text: Option<Seq<char>>,
    nav: Option<NavigationModel>,
    emoji: Option<EmojiPayloadModel>,
) -> Result<ContentModel, Fault> {
    if text is Some && emoji is Some {
        Err(invalid("both `text` and `emoji` are present"@))
    } else if emoji is Some && nav is Some {
        Err(invalid("both `emoji` and `navigationEndpoint` are present"@))
    } else if text is None && nav is Some {
        Err(invalid("have `navigationEndpoint`, but no `text`"@))
    } else if text is Some {
        let t = text->Some_0;
        match nav {
            None => Ok(ContentModel::Text(t)),
            Some(n) => if n.url is Some && n.video_id is Some {
                Err(invalid("have both `urlEndpoint` and `watchEndpoint`"@))
            } else if n.url is Some {
                Ok(ContentModel::Link { text: t, url: site_origin() + n.url->Some_0 })
            } else if n.video_id is Some {
                Ok(ContentModel::Link { text: t, url: watch_url(n.video_id->Some_0) })
            } else {
                Err(invalid("no `urlEndpoint` nor `watchEndpoint`"@))
            },
        }
    } else if emoji is Some {
        let e = emoji->Some_0;
        Ok(
            ContentModel::Emoji(
                EmojiModel { image: e.image, is_custom_emoji: e.is_custom_emoji, label: e.shortcuts[0] },
            ),
        )
    } else {
        Err(invalid("couldn't deserialize"@))
    }
}

pub open spec fn content_spec(v: Json) -> Result<ContentModel, Fault> {
    let text = opt_member_spec(v, "text"@, string_fn());
    let nav = opt_member_spec(v, "navigationEndpoint"@, navigation_fn());
    let emoji = opt_member_spec(v, "emoji"@, emoji_payload_fn());
    if object_spec(v) is Err {
        Err(object_spec(v)->Err_0)
    } else if text is Err {
        Err(text->Err_0)
    } else if nav is Err {
        Err(nav->Err_0)
    } else if emoji is Err {
        Err(emoji->Err_0)
    } else {
        content_rules(text->Ok_0, nav->Ok_0, emoji->Ok_0)
    }
}

pub open spec fn content_fn() -> spec_fn(Json) -> Result<ContentModel, Fault> {
    |j: Json| content_spec(j)
}

impl MessageContent {
    /// Decodes one run: `text`, `navigationEndpoint` and `emoji` are read
    /// first, then classified by [`MessageContent::resolve`].
    pub fn decode(v: &Json) -> (r: Result<MessageContent, DecodeError>)
        ensures
            outcome(r) == content_spec(*v),
    {
        expect_object(v)?;
        let text = decode_opt_member(v, "text", decode_string, Ghost(string_fn()))?;
        let nav = decode_opt_member(
            v,
            "navigationEndpoint",
            NavigationEndpoint::decode,
            Ghost(navigation_fn()),
        )?;
        let emoji = decode_opt_member(v, "emoji", EmojiPayload::decode, Ghost(emoji_payload_fn()))?;
        MessageContent::resolve(text, nav, emoji)
    }

    /// Classifies a run as plain text, link or emoji from its decoded
    /// members, resolving link targets to absolute addresses.
    pub fn resolve(
        text: Option<String>,
        nav: Option<NavigationEndpoint>,
        emoji: Option<EmojiPayload>,
    ) -> (r: Result<MessageContent, DecodeError>)
        ensures
            outcome(r) == content_rules(opt_view(text), opt_view(nav), opt_view(emoji)),
    {
        if text.is_some() && emoji.is_some() {
            return Err(fail(ErrorKind::InvalidContent, "both `text` and `emoji` are present"));
        }
        if emoji.is_some() && nav.is_some() {
            return Err(
                fail(ErrorKind::InvalidContent, "both `emoji` and `navigationEndpoint` are present"),
            );
        }
        if text.is_none() && nav.is_some() {
            return Err(fail(ErrorKind::InvalidContent, "have `navigationEndpoint`, but no `text`"));
        }
        match text {
            Some(text) => match nav {
                None => Ok(MessageContent::Text(text)),
                Some(nav) => {
                    if nav.url.is_some() && nav.video_id.is_some() {
                        return Err(
                            fail(ErrorKind::InvalidContent, "have both `urlEndpoint` and `watchEndpoint`"),
                        );
                    }
                    match nav.url {
                        Some(path) => {
                            let url = "https://www.youtube.com".to_owned().concat(path.as_str());
                            Ok(MessageContent::Link { text, url })
                        },
                        None => match nav.video_id {
                            Some(id) => {
                                let url = "https://www.youtube.com/watch?v=".to_owned().concat(
                                    id.as_str(),
                                );
                                Ok(MessageContent::Link { text, url })
                            },
                            None => Err(
                                fail(ErrorKind::InvalidContent, "no `urlEndpoint` nor `watchEndpoint`"),
                            ),
                        },
                    }
                },
            },
            None => match emoji {
                Some(e) => {
                    let (label, _) = e.shortcuts.split_off_first();
                    Ok(
                        MessageContent::Emoji(
                            Emoji { image: e.image, is_custom_emoji: e.is_custom_emoji, label },
                        ),
                    )
                },
                None => Err(fail(ErrorKind::InvalidContent, "couldn't deserialize")),
            },
        }
    }
}

/// The target of a link run: a relative address, a video, or both.
#[derive(Debug)]
pub struct NavigationEndpoint {
    /// `urlEndpoint.url`
    pub url: Option<String>,
    /// `watchEndpoint.videoId`
    pub video_id: Option<String>,
}

pub struct NavigationModel {
    pub url: Option<Seq<char>>,
    pub video_id: Option<Seq<char>>,
}

impl View for NavigationEndpoint {
    type V = NavigationModel;

    open spec fn view(&self) -> NavigationModel {
        NavigationModel { url: opt_view(self.url), video_id: opt_view(self.video_id) }
    }
}

/// `{"url": ...}` under `urlEndpoint`.
pub open spec fn url_endpoint_spec(v: Json) -> Result<Seq<char>, Fault> {
    match object_spec(v) {
        Err(e) => Err(e),
        Ok(_) => member_spec(v, "url"@, string_fn()),
    }
}

pub open spec fn url_endpoint_fn() -> spec_fn(Json) -> Result<Seq<char>, Fault> {
    |j: Json| url_endpoint_spec(j)
}

/// `{"videoId": ...}` under `watchEndpoint`.
pub open spec fn watch_endpoint_spec(v: Json) -> Result<Seq<char>, Fault> {
    match object_spec(v) {
        Err(e) => Err(e),
        Ok(_) => member_spec(v, "videoId"@, string_fn()),
    }
}

pub open spec fn watch_endpoint_fn() -> spec_fn(Json) -> Result<Seq<char>, Fault> {
    |j: Json| watch_endpoint_spec(j)
}

pub open spec fn navigation_spec(v: Json) -> Result<NavigationModel, Fault> {
    let url = opt_member_spec(v, "urlEndpoint"@, url_endpoint_fn());
    let video_id = opt_member_spec(v, "watchEndpoint"@, watch_endpoint_fn());
    if object_spec(v) is Err {
        Err(object_spec(v)->Err_0)
    } else if url is Err {
        Err(url->Err_0)
    } else if video_id is Err {
        Err(video_id->Err_0)
    } else {
        Ok(NavigationModel { url: url->Ok_0, video_id: video_id->Ok_0 })
    }
}

pub open spec fn navigation_fn() -> spec_fn(Json) -> Result<NavigationModel, Fault> {
    |j: Json| navigation_spec(j)
}

fn decode_url_endpoint(v: &Json) -> (r: Result<String, DecodeError>)
    ensures
        outcome(r) == url_endpoint_spec(*v),
{
    expect_object(v)?;
    decode_member(v, "url", decode_string, Ghost(string_fn()))
}

fn decode_watch_endpoint(v: &Json) -> (r: Result<String, DecodeError>)
    ensures
        outcome(r) == watch_endpoint_spec(*v),
{
    expect_object(v)?;
    decode_member(v, "videoId", decode_string, Ghost(string_fn()))
}

impl NavigationEndpoint {
    pub fn decode(v: &Json) -> (r: Result<NavigationEndpoint, DecodeError>)
        ensures
            outcome(r) == navigation_spec(*v),
    {
        expect_object(v)?;
        let url = decode_opt_member(v, "urlEndpoint", decode_url_endpoint, Ghost(url_endpoint_fn()))?;
        let video_id = decode_opt_member(
            v,
            "watchEndpoint",
            decode_watch_endpoint,
            Ghost(watch_endpoint_fn()),
        )?;
        Ok(NavigationEndpoint { url, video_id })
    }
}

/// The `emoji` member of a run as it arrives: every shortcut, the image
/// and whether the emoji is a channel's own.
#[derive(Debug)]
pub struct EmojiPayload {
    pub shortcuts: NonEmptyVec<String>,
    pub image: Image,
    pub is_custom_emoji: bool,
}

pub struct EmojiPayloadModel {
    pub shortcuts: Seq<Seq<char>>,
    pub image: Seq<ThumbnailModel>,
    pub is_custom_emoji: bool,
}

impl View for EmojiPayload {
    type V = EmojiPayloadModel;

    open spec fn view(&self) -> EmojiPayloadModel {
        EmojiPayloadModel {
            shortcuts: self.shortcuts@,
            image: self.image@,
            is_custom_emoji: self.is_custom_emoji,
        }
    }
}

pub open spec fn emoji_payload_spec(v: Json) -> Result<EmojiPayloadModel, Fault> {
    let shortcuts = non_empty_spec(v, "shortcuts"@, string_fn());
    let image = member_spec(v, "image"@, image_fn());
    let is_custom = member_spec(v, "isCustomEmoji"@, bool_fn());
    if object_spec(v) is Err {
        Err(object_spec(v)->Err_0)
    } else if shortcuts is Err {
        Err(shortcuts->Err_0)
    } else if image is Err {
        Err(image->Err_0)
    } else if is_custom is Err {
        Err(is_custom->Err_0)
    } else {
        Ok(
            EmojiPayloadModel {
                shortcuts: shortcuts->Ok_0,
                image: image->Ok_0,
                is_custom_emoji: is_custom->Ok_0,
            },
        )
    }
}

pub open spec fn emoji_payload_fn() -> spec_fn(Json) -> Result<EmojiPayloadModel, Fault> {
    |j: Json| emoji_payload_spec(j)
}

impl EmojiPayload {
    pub fn decode(v: &Json) -> (r: Result<EmojiPayload, DecodeError>)
        ensures
            outcome(r) == emoji_payload_spec(*v),
    {
        expect_object(v)?;
        let shortcuts = decode_non_empty(v, "shortcuts", decode_string, Ghost(string_fn()))?;
        let image = decode_member(v, "image", Image::decode, Ghost(image_fn()))?;
        let is_custom_emoji = decode_member(v, "isCustomEmoji", decode_bool, Ghost(bool_fn()))?;
        Ok(EmojiPayload { shortcuts, image, is_custom_emoji })
    }
}

/// An emoji run: its image, whether it is a channel's own, and its label
/// (the first shortcut).
#[derive(Debug)]
pub struct Emoji {
    pub image: Image,
    pub is_custom_emoji: bool,
    pub label: String,
}

pub struct EmojiModel {
    pub image: Seq<ThumbnailModel>,
    pub is_custom_emoji: bool,
    pub label: Seq<char>,
}

impl View for Emoji {
    type V = EmojiModel;

    open spec fn view(&self) -> EmojiModel {
        EmojiModel { image: self.image@, is_custom_emoji: self.is_custom_emoji, label: self.label@ }
    }
}

/// A badge next to an author's name.
#[derive(Debug)]
pub struct AuthorBadge {
    pub badge_type: BadgeType,
    pub tooltip: String,
}

pub struct AuthorBadgeModel {
    pub badge_type: BadgeTypeModel,
    pub tooltip: Seq<char>,
}

impl View for AuthorBadge {
    type V = AuthorBadgeModel;

    open spec fn view(&self) -> AuthorBadgeModel {
        AuthorBadgeModel { badge_type: self.badge_type@, tooltip: self.tooltip@ }
    }
}

/// `{"liveChatAuthorBadgeRenderer": {<icon or customThumbnail>, "tooltip": ...}}`
pub open spec fn author_badge_spec(v: Json) -> Result<AuthorBadgeModel, Fault> {
    match unwrap_spec(v, "liveChatAuthorBadgeRenderer"@) {
        Err(e) => Err(e),
        Ok(inner) => {
            let badge_type = badge_type_spec(inner);
            let tooltip = member_spec(inner, "tooltip"@, string_fn());
            if badge_type is Err {
                Err(badge_type->Err_0)
            } else if tooltip is Err {
                Err(tooltip->Err_0)
            } else {
                Ok(AuthorBadgeModel { badge_type: badge_type->Ok_0, tooltip: tooltip->Ok_0 })
            }
        },
    }
}

pub open spec fn author_badge_fn() -> spec_fn(Json) -> Result<AuthorBadgeModel, Fault> {
    |j: Json| author_badge_spec(j)
}

impl AuthorBadge {
    pub fn decode(v: &Json) -> (r: Result<AuthorBadge, DecodeError>)
        ensures
            outcome(r) == author_badge_spec(*v),
    {
        let inner = unwrap(v, "liveChatAuthorBadgeRenderer")?;
        let badge_type = BadgeType::decode(inner)?;
        let tooltip = decode_member(inner, "tooltip", decode_string, Ghost(string_fn()))?;
        Ok(AuthorBadge { badge_type, tooltip })
    }
}

/// What a badge shows: a standard icon or a channel's own image.
#[derive(Debug)]
pub enum BadgeType {
    Icon(Icon),
    CustomThumbnail(CustomImage),
}

pub enum BadgeTypeModel {
    Icon(IconType),
    CustomThumbnail(Seq<Seq<char>>),
}

impl View for BadgeType {
    type V = BadgeTypeModel;

    open spec fn view(&self) -> BadgeTypeModel {
        match self {
            BadgeType::Icon(i) => BadgeTypeModel::Icon(i.icon_type),
            BadgeType::CustomThumbnail(c) => BadgeTypeModel::CustomThumbnail(c@),
        }
    }
}

/// The badge type, read from the badge object itself: an `icon` member
/// makes an icon badge, else a `customThumbnail` member makes an image badge.
pub open spec fn badge_type_spec(v: Json) -> Result<BadgeTypeModel, Fault> {
    match object_spec(v) {
        Err(e) => Err(e),
        Ok(_) => match required_spec(v, "icon"@) {
            Ok(i) => match icon_spec(i) {
                Ok(t) => Ok(BadgeTypeModel::Icon(t)),
                Err(e) => Err(e),
            },
            Err(_) => match required_spec(v, "customThumbnail"@) {
                Ok(c) => match custom_image_spec(c) {
                    Ok(m) => Ok(BadgeTypeModel::CustomThumbnail(m)),
                    Err(e) => Err(e),
                },
                Err(_) => Err(fault(ErrorKind::MissingField, "icon"@)),
            },
        },
    }
}

impl BadgeType {
    pub fn decode(v: &Json) -> (r: Result<BadgeType, DecodeError>)
        ensures
            outcome(r) == badge_type_spec(*v),
    {
        expect_object(v)?;
        match required(v, "icon") {
            Ok(i) => {
                let icon = Icon::decode(i)?;
                Ok(BadgeType::Icon(icon))
            },
            Err(_) => match required(v, "customThumbnail") {
                Ok(c) => {
                    let image = CustomImage::decode(c)?;
                    Ok(BadgeType::CustomThumbnail(image))
                },
                Err(_) => Err(fail(ErrorKind::MissingField, "icon")),
            },
        }
    }
}

/// A standard badge icon.
#[derive(Debug)]
pub struct Icon {
    pub icon_type: IconType,
}

impl View for Icon {
    type V = IconType;

    open spec fn view(&self) -> IconType {
        self.icon_type
    }
}

pub open spec fn icon_spec(v: Json) -> Result<IconType, Fault> {
    match object_spec(v) {
        Err(e) => Err(e),
        Ok(_) => member_spec(v, "iconType"@, icon_type_fn()),
    }
}

impl Icon {
    pub fn decode(v: &Json) -> (r: Result<Icon, DecodeError>)
        ensures
            outcome(r) == icon_spec(*v),
    {
        expect_object(v)?;
        let icon_type = decode_member(v, "iconType", IconType::decode, Ghost(icon_type_fn()))?;
        Ok(Icon { icon_type })
    }
}

/// The standard badge icons.
#[derive(Clone, Copy, Debug, PartialEq, Eq, Structural)]
pub enum IconType {
    Verified,
    Owner,
    Moderator,
}

impl View for IconType {
    type V = IconType;

    open spec fn view(&self) -> IconType {
        *self
    }
}

/// `"VERIFIED"`, `"OWNER"` or `"MODERATOR"`.
pub open spec fn icon_type_spec(v: Json) -> Result<IconType, Fault> {
    match v {
        Json::Str(s) => if s@ == "VERIFIED"@ {
            Ok(IconType::Verified)
        } else if s@ == "OWNER"@ {
            Ok(IconType::Owner)
        } else if s@ == "MODERATOR"@ {
            Ok(IconType::Moderator)
        } else {
            Err(fault(ErrorKind::UnknownVariant, s@))
        },
        _ => Err(fault(ErrorKind::WrongType, "string"@)),
    }
}

pub open spec fn icon_type_fn() -> spec_fn(Json) -> Result<IconType, Fault> {
    |j: Json| icon_type_spec(j)
}

impl IconType {
    pub fn decode(v: &Json) -> (r: Result<IconType, DecodeError>)
        ensures
            outcome(r) == icon_type_spec(*v),
    {
        match v {
            Json::Str(s) => {
                if *s == "VERIFIED".to_owned() {
                    Ok(IconType::Verified)
                } else if *s == "OWNER".to_owned() {
                    Ok(IconType::Owner)
                } else if *s == "MODERATOR".to_owned() {
                    Ok(IconType::Moderator)
                } else {
                    Err(DecodeError { kind: ErrorKind::UnknownVariant, detail: s.clone() })
                }
            },
            _ => Err(fail(ErrorKind::WrongType, "string")),
        }
    }
}

/// Who wrote an item: read from the members of the item itself.
#[derive(Debug)]
pub struct AuthorInfo {
    pub author_photo: Image,
    pub author_name: Option<SimpleText>,
    pub author_external_channel_id: String,
    pub author_badges: Option<NonEmptyVec<AuthorBadge>>,
}

pub struct AuthorInfoModel {
    pub author_photo: Seq<ThumbnailModel>,
    pub author_name: Option<Seq<char>>,
    pub author_external_channel_id: Seq<char>,
    pub author_badges: Option<Seq<AuthorBadgeModel>>,
}

impl View for AuthorInfo {
    type V = AuthorInfoModel;

    open spec fn view(&self) -> AuthorInfoModel {
        AuthorInfoModel {
            author_photo: self.author_photo@,
            author_name: opt_view(self.author_name),
            author_external_channel_id: self.author_external_channel_id@,
            author_badges: opt_view(self.author_badges),
        }
    }
}

pub open spec fn author_info_spec(v: Json) -> Result<AuthorInfoModel, Fault> {
    let photo = member_spec(v, "authorPhoto"@, image_fn());
    let name = opt_member_spec(v, "authorName"@, simple_text_fn());
    let channel = member_spec(v, "authorExternalChannelId"@, string_fn());
    let badges = opt_non_empty_spec(v, "authorBadges"@, author_badge_fn());
    if object_spec(v) is Err {
        Err(object_spec(v)->Err_0)
    } else if photo is Err {
        Err(photo->Err_0)
    } else if name is Err {
        Err(name->Err_0)
    } else if channel is Err {
        Err(channel->Err_0)
    } else if badges is Err {
        Err(badges->Err_0)
    } else {
        Ok(
            AuthorInfoModel {
                author_photo: photo->Ok_0,
                author_name: name->Ok_0,
                author_external_channel_id: channel->Ok_0,
                author_badges: badges->Ok_0,
            },
        )
    }
}

impl AuthorInfo {
    pub fn decode(v: &Json) -> (r: Result<AuthorInfo, DecodeError>)
        ensures
            outcome(r) == author_info_spec(*v),
    {
        expect_object(v)?;
        let author_photo = decode_member(v, "authorPhoto", Image::decode, Ghost(image_fn()))?;
        let author_name = decode_opt_member(v, "authorName", SimpleText::decode, Ghost(simple_text_fn()))?;
        let author_external_channel_id = decode_member(
            v,
            "authorExternalChannelId",
            decode_string,
            Ghost(string_fn()),
        )?;
        let author_badges = decode_opt_non_empty(
            v,
            "authorBadges",
            AuthorBadge::decode,
            Ghost(author_badge_fn()),
        )?;
        Ok(AuthorInfo { author_photo, author_name, author_external_channel_id, author_badges })
    }
}

/// The context menu of a chat item.
#[derive(Debug)]
pub struct ContextMenu {
    pub live_chat_item_context_menu_endpoint: ContextMenuEndpoint,
}

impl View for ContextMenu {
    type V = Seq<char>;

    open spec fn view(&self) -> Seq<char> {
        self.live_chat_item_context_menu_endpoint.params@
    }
}

pub open spec fn context_menu_spec(v: Json) -> Result<Seq<char>, Fault> {
    match object_spec(v) {
        Err(e) => Err(e),
        Ok(_) => member_spec(v, "liveChatItemContextMenuEndpoint"@, context_menu_endpoint_fn()),
    }
}

impl ContextMenu {
    pub fn decode(v: &Json) -> (r: Result<ContextMenu, DecodeError>)
        ensures
            outcome(r) == context_menu_spec(*v),
    {
        expect_object(v)?;
        let live_chat_item_context_menu_endpoint = decode_member(
            v,
            "liveChatItemContextMenuEndpoint",
            ContextMenuEndpoint::decode,
            Ghost(context_menu_endpoint_fn()),
        )?;
        Ok(ContextMenu { live_chat_item_context_menu_endpoint })
    }
}

/// The opaque parameters of a context menu request.
#[derive(Debug)]
pub struct ContextMenuEndpoint {
    pub params: String,
}

impl View for ContextMenuEndpoint {
    type V = Seq<char>;

    open spec fn view(&self) -> Seq<char> {
        self.params@
    }
}

pub open spec fn context_menu_endpoint_spec(v: Json) -> Result<Seq<char>, Fault> {
    match object_spec(v) {
        Err(e) => Err(e),
        Ok(_) => member_spec(v, "params"@, string_fn()),
    }
}

pub open spec fn context_menu_endpoint_fn() -> spec_fn(Json) -> Result<Seq<char>, Fault> {
    |j: Json| context_menu_endpoint_spec(j)
}

impl ContextMenuEndpoint {
    pub fn decode(v: &Json) -> (r: Result<ContextMenuEndpoint, DecodeError>)
        ensures
            outcome(r) == context_menu_endpoint_spec(*v),
    {
        expect_object(v)?;
        let params = decode_member(v, "params", decode_string, Ghost(string_fn()))?;
        Ok(ContextMenuEndpoint { params })
    }
}

/// An image or badge image whose `thumbnails` array is empty is a
/// non-empty-sequence fault naming `thumbnails`.
pub proof fn lemma_empty_thumbnails(v: Json, a: Json)
    requires
        v is Object,
        crate::json::member(v, "thumbnails"@) == Some(a),
        a matches Json::Array(items) && items@.len() == 0,
    ensures
        image_spec(v) == Err::<Seq<ThumbnailModel>, Fault>(
            fault(ErrorKind::EmptySequence, "thumbnails"@),
        ),
        custom_image_spec(v) == Err::<Seq<Seq<char>>, Fault>(
            fault(ErrorKind::EmptySequence, "thumbnails"@),
        ),
{
}

} // verus!
