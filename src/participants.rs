//! The list of chat participants.
use vstd::prelude::*;
use crate::generic_types::{
    author_badge_fn, image_fn, simple_text_fn, AuthorBadge, AuthorBadgeModel, Image, SimpleText,
    ThumbnailModel,
};
use crate::json::{
    decode_member, decode_non_empty, expect_object, member_spec, non_empty_spec, object_spec,
    outcome, unwrap, unwrap_spec,
    DecodeError, Fault, Json,
};
use crate::non_empty::NonEmptyVec;

verus! {

/// The participants of a chat, in order.
#[derive(Debug)]
pub struct ParticipantsList {
    pub participants: NonEmptyVec<Participant>,
}

impl View for ParticipantsList {
    type V = Seq<ParticipantModel>;

    open spec fn view(&self) -> Seq<ParticipantModel> {
        self.participants@
    }
}

/// `{"liveChatParticipantsListRenderer": {"participants": [...]}}`
pub open spec fn participants_list_spec(v: Json) -> Result<Seq<ParticipantModel>, Fault> {
    match unwrap_spec(v, "liveChatParticipantsListRenderer"@) {
        Err(e) => Err(e),
        Ok(inner) => match object_spec(inner) {
            Err(e) => Err(e),
            Ok(_) => non_empty_spec(inner, "participants"@, participant_fn()),
        },
    }
}

pub open spec fn participants_list_fn() -> spec_fn(Json) -> Result<Seq<ParticipantModel>, Fault> {
    |j: Json| participants_list_spec(j)
}

impl ParticipantsList {
    pub fn decode(v: &Json) -> (r: Result<ParticipantsList, DecodeError>)
        ensures
            outcome(r) == participants_list_spec(*v),
    {
        let inner = unwrap(v, "liveChatParticipantsListRenderer")?;
        expect_object(inner)?;
        let participants = decode_non_empty(
            inner,
            "participants",
            Participant::decode,
            Ghost(participant_fn()),
        )?;
        Ok(ParticipantsList { participants })
    }
}

/// One participant: name, photo and badges.
#[derive(Debug)]
pub struct Participant {
    pub author_name: SimpleText,
    pub author_photo: Image,
    pub author_badges: NonEmptyVec<AuthorBadge>,
}

pub struct ParticipantModel {
    pub author_name: Seq<char>,
    pub author_photo: Seq<ThumbnailModel>,
    pub author_badges: Seq<AuthorBadgeModel>,
}

impl View for Participant {
    type V = ParticipantModel;

    open spec fn view(&self) -> ParticipantModel {
        ParticipantModel {
            author_name: self.author_name@,
            author_photo: self.author_photo@,
            author_badges: self.author_badges@,
        }
    }
}

/// `{"liveChatParticipantRenderer": {"authorName", "authorPhoto", "authorBadges"}}`
pub open spec fn participant_spec(v: Json) -> Result<ParticipantModel, Fault> {
    match unwrap_spec(v, "liveChatParticipantRenderer"@) {
        Err(e) => Err(e),
        Ok(inner) => {
            let author_name = member_spec(inner, "authorName"@, simple_text_fn());
            let author_photo = member_spec(inner, "authorPhoto"@, image_fn());
            let author_badges = non_empty_spec(inner, "authorBadges"@, author_badge_fn());
            if object_spec(inner) is Err {
                Err(object_spec(inner)->Err_0)
            } else if author_name is Err {
                Err(author_name->Err_0)
            } else if author_photo is Err {
                Err(author_photo->Err_0)
            } else if author_badges is Err {
                Err(author_badges->Err_0)
            } else {
                Ok(
                    ParticipantModel {
                        author_name: author_name->Ok_0,
                        author_photo: author_photo->Ok_0,
                        author_badges: author_badges->Ok_0,
                    },
                )
            }
        },
    }
}

pub open spec fn participant_fn() -> spec_fn(Json) -> Result<ParticipantModel, Fault> {
    |j: Json| participant_spec(j)
}

impl Participant {
    pub fn decode(v: &Json) -> (r: Result<Participant, DecodeError>)
        ensures
            outcome(r) == participant_spec(*v),
    {
        let inner = unwrap(v, "liveChatParticipantRenderer")?;
        expect_object(inner)?;
        let author_name = decode_member(inner, "authorName", SimpleText::decode, Ghost(simple_text_fn()))?;
        let author_photo = decode_member(inner, "authorPhoto", Image::decode, Ghost(image_fn()))?;
        let author_badges = decode_non_empty(
            inner,
            "authorBadges",
            AuthorBadge::decode,
            Ghost(author_badge_fn()),
        )?;
        Ok(Participant { author_name, author_photo, author_badges })
    }
}

} // verus!
