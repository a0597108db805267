//! The chat aggregate, its continuations, and the two top-level documents.
use vstd::prelude::*;
use crate::actions::{
    optional_action_fn, Action, ActionModel, OptionalAction, OptionalActionModel,
};
use crate::header::{header_fn, Header, MenuItemsModel};
use crate::json::{
    decode_member, decode_non_empty, decode_opt_member, decode_opt_non_empty, decode_string,
    decode_u16, expect_object, fail, fault, member_spec, non_empty_spec, object_spec,
    opt_member_spec, opt_non_empty_spec, opt_view, outcome, string_fn, u16_fn, views,
    DecodeError, ErrorKind, Fault, Json,
};
use crate::non_empty::NonEmptyVec;
use crate::participants::{participants_list_fn, ParticipantModel, ParticipantsList};

verus! {

/// Where and when the next poll should resume.
#[derive(Debug)]
pub enum Continuation {
    TimedContinuationData { timeout_ms: u16, continuation: String },
    InvalidationContinuationData { timeout_ms: u16, continuation: String },
    ReloadContinuationData { continuation: String },
}

pub enum ContinuationModel {
    TimedContinuationData { timeout_ms: u16, continuation: Seq<char> },
    InvalidationContinuationData { timeout_ms: u16, continuation: Seq<char> },
    ReloadContinuationData { continuation: Seq<char> },
}

impl View for Continuation {
    type V = ContinuationModel;

    open spec fn view(&self) -> ContinuationModel {
        match self {
            Continuation::TimedContinuationData { timeout_ms, continuation } =>
                ContinuationModel::TimedContinuationData {
                timeout_ms: *timeout_ms,
                continuation: continuation@,
            },
            Continuation::InvalidationContinuationData { timeout_ms, continuation } =>
                ContinuationModel::InvalidationContinuationData {
                timeout_ms: *timeout_ms,
                continuation: continuation@,
            },
            Continuation::ReloadContinuationData { continuation } =>
                ContinuationModel::ReloadContinuationData { continuation: continuation@ },
        }
    }
}

/// `{"timeoutMs": ..., "continuation": ...}`
pub open spec fn timed_body_spec(v: Json) -> Result<(u16, Seq<char>), Fault> {
    let timeout_ms = member_spec(v, "timeoutMs"@, u16_fn());
    let continuation = member_spec(v, "continuation"@, string_fn());
    if object_spec(v) is Err {
        Err(object_spec(v)->Err_0)
    } else if timeout_ms is Err {
        Err(timeout_ms->Err_0)
    } else if continuation is Err {
        Err(continuation->Err_0)
    } else {
        Ok((timeout_ms->Ok_0, continuation->Ok_0))
    }
}

/// `{"continuation": ...}`
pub open spec fn reload_body_spec(v: Json) -> Result<Seq<char>, Fault> {
    match object_spec(v) {
        Err(e) => Err(e),
        Ok(_) => member_spec(v, "continuation"@, string_fn()),
    }
}

/// The continuation whose tag is `tag`, decoded from `body`.
pub open spec fn continuation_variant_spec(tag: Seq<char>, body: Json) -> Result<ContinuationModel, Fault> {
    if tag == "timedContinuationData"@ {
        match timed_body_spec(body) {
            Err(e) => Err(e),
            Ok(p) => Ok(ContinuationModel::TimedContinuationData { timeout_ms: p.0, continuation: p.1 }),
        }
    } else if tag == "invalidationContinuationData"@ {
        match timed_body_spec(body) {
            Err(e) => Err(e),
            Ok(p) => Ok(
                ContinuationModel::InvalidationContinuationData { timeout_ms: p.0, continuation: p.1 },
            ),
        }
    } else if tag == "reloadContinuationData"@ {
        match reload_body_spec(body) {
            Err(e) => Err(e),
            Ok(c) => Ok(ContinuationModel::ReloadContinuationData { continuation: c }),
        }
    } else {
        Err(fault(ErrorKind::UnknownVariant, tag))
    }
}

/// An object with exactly one member, whose key names the kind.
pub open spec fn continuation_spec(v: Json) -> Result<ContinuationModel, Fault> {
    match v {
        Json::Object(members) => if members@.len() == 1 {
            continuation_variant_spec(members@[0].0@, members@[0].1)
        } else {
            Err(fault(ErrorKind::WrongType, "single-member object"@))
        },
        _ => Err(fault(ErrorKind::WrongType, "object"@)),
    }
}

pub open spec fn continuation_fn() -> spec_fn(Json) -> Result<ContinuationModel, Fault> {
    |j: Json| continuation_spec(j)
}

/// The timeout and token of a continuation; a reload waits zero milliseconds.
pub open spec fn timeout_and_token(c: ContinuationModel) -> (u16, Seq<char>) {
    match c {
        ContinuationModel::TimedContinuationData { timeout_ms, continuation } => (timeout_ms, continuation),
        ContinuationModel::InvalidationContinuationData { timeout_ms, continuation } => (
            timeout_ms,
            continuation,
        ),
        ContinuationModel::ReloadContinuationData { continuation } => (0, continuation),
    }
}

fn decode_timed_body(v: &Json) -> (r: Result<(u16, String), DecodeError>)
    ensures
        match r {
            Ok(p) => timed_body_spec(*v) == Ok::<(u16, Seq<char>), Fault>((p.0, p.1@)),
            Err(e) => timed_body_spec(*v) == Err::<(u16, Seq<char>), Fault>(e@),
        },
{
    expect_object(v)?;
    let timeout_ms = decode_member(v, "timeoutMs", decode_u16, Ghost(u16_fn()))?;
    let continuation = decode_member(v, "continuation", decode_string, Ghost(string_fn()))?;
    Ok((timeout_ms, continuation))
}

impl Continuation {
    pub fn decode(v: &Json) -> (r: Result<Continuation, DecodeError>)
        ensures
            outcome(r) == continuation_spec(*v),
    {
        match v {
            Json::Object(members) => {
                if members.len() != 1 {
                    return Err(fail(ErrorKind::WrongType, "single-member object"));
                }
                let tag = &members[0].0;
                let body = &members[0].1;
                if *tag == "timedContinuationData".to_owned() {
                    let (timeout_ms, continuation) = decode_timed_body(body)?;
                    Ok(Continuation::TimedContinuationData { timeout_ms, continuation })
                } else if *tag == "invalidationContinuationData".to_owned() {
                    let (timeout_ms, continuation) = decode_timed_body(body)?;
                    Ok(Continuation::InvalidationContinuationData { timeout_ms, continuation })
                } else if *tag == "reloadContinuationData".to_owned() {
                    expect_object(body)?;
                    let continuation = decode_member(body, "continuation", decode_string, Ghost(string_fn()))?;
                    Ok(Continuation::ReloadContinuationData { continuation })
                } else {
                    Err(DecodeError { kind: ErrorKind::UnknownVariant, detail: tag.clone() })
                }
            },
            _ => Err(fail(ErrorKind::WrongType, "object")),
        }
    }

    /// The timeout in milliseconds and the token; a reload has a timeout of zero.
    pub fn get_timeout_and_continuation(self) -> (r: (u16, String))
        ensures
            (r.0, r.1@) == timeout_and_token(self@),
    {
        match self {
            Continuation::TimedContinuationData { timeout_ms, continuation } => (timeout_ms, continuation),
            Continuation::InvalidationContinuationData { timeout_ms, continuation } => (
                timeout_ms,
                continuation,
            ),
            Continuation::ReloadContinuationData { continuation } => (0, continuation),
        }
    }
}

/// A chat snapshot: continuations, actions, participants and header.
#[derive(Debug)]
pub struct LiveChat {
    pub continuations: NonEmptyVec<Continuation>,
    pub actions: Option<NonEmptyVec<Action>>,
    pub participants_list: Option<ParticipantsList>,
    pub header: Option<Header>,
}

pub struct LiveChatModel {
    pub continuations: Seq<ContinuationModel>,
    pub actions: Option<Seq<ActionModel>>,
    pub participants_list: Option<Seq<ParticipantModel>>,
    pub header: Option<Seq<MenuItemsModel>>,
}

impl View for LiveChat {
    type V = LiveChatModel;

    open spec fn view(&self) -> LiveChatModel {
        LiveChatModel {
            continuations: self.continuations@,
            actions: opt_view(self.actions),
            participants_list: opt_view(self.participants_list),
            header: opt_view(self.header),
        }
    }
}

/// The concrete actions among `xs`, in order.
pub open spec fn concrete_actions(xs: Seq<OptionalActionModel>) -> Seq<ActionModel>
    decreases xs.len(),
{
    if xs.len() == 0 {
        Seq::empty()
    } else {
        let rest = concrete_actions(xs.drop_last());
        match xs.last() {
            OptionalActionModel::Action(a) => rest.push(a),
            OptionalActionModel::NoAction => rest,
        }
    }
}

/// The actions of a chat: the concrete ones among the decoded envelopes,
/// or absent when there are none.
pub open spec fn kept_actions(raw: Option<Seq<OptionalActionModel>>) -> Option<Seq<ActionModel>> {
    match raw {
        None => None,
        Some(xs) => if concrete_actions(xs).len() == 0 {
            None
        } else {
            Some(concrete_actions(xs))
        },
    }
}

/// Drops the envelopes that carry no action; absent when none is left.
pub fn keep_actions(raw: Option<NonEmptyVec<OptionalAction>>) -> (r: Option<NonEmptyVec<Action>>)
    ensures
        opt_view(r) == kept_actions(opt_view(raw)),
{
    match raw {
        None => None,
        Some(raw) => {
            let ghost all = raw@;
            let mut rest = raw.into_vec();
            let ghost n = rest@.len();
            let mut out: Vec<Action> = Vec::new();
            assert(views(rest@) =~= all);
            assert(all.take(0) =~= Seq::<OptionalActionModel>::empty());
            assert(views(out@) =~= Seq::<ActionModel>::empty());
            while rest.len() > 0
                invariant
                    n == all.len(),
                    rest@.len() <= n,
                    views(rest@) == all.subrange(n - rest@.len(), n as int),
                    concrete_actions(all.take(n - rest@.len())) == views(out@),
                decreases rest@.len(),
            {
                let ghost i = n - rest@.len();
                let ghost before_rest = rest@;
                let x = rest.remove(0);
                assert(all.take(i + 1).drop_last() =~= all.take(i));
                assert(views(before_rest)[0] == all.subrange(i, n as int)[0]);
                assert(all.take(i + 1).last() == x@);
                match x {
                    OptionalAction::Action(a) => {
                        let ghost before = out@;
                        out.push(a);
                        assert(views(out@) =~= views(before).push(a@));
                    },
                    OptionalAction::NoAction => {},
                }
                assert forall|k: int| 0 <= k < rest@.len() implies views(rest@)[k] == all.subrange(
                    n - rest@.len(),
                    n as int,
                )[k] by {
                    assert(rest@[k] == before_rest[k + 1]);
                    assert(views(before_rest)[k + 1] == all.subrange(i, n as int)[k + 1]);
                }
                assert(views(rest@) =~= all.subrange(n - rest@.len(), n as int));
            }
            assert(all.take(n as int) =~= all);
            NonEmptyVec::try_from_vec(out)
        },
    }
}

/// `{"continuations": [...], "actions"?: [...], "participantsList"?: ..., "header"?: ...}`
pub open spec fn live_chat_spec(v: Json) -> Result<LiveChatModel, Fault> {
    let continuations = non_empty_spec(v, "continuations"@, continuation_fn());
    let actions = opt_non_empty_spec(v, "actions"@, optional_action_fn());
    let participants_list = opt_member_spec(v, "participantsList"@, participants_list_fn());
    let header = opt_member_spec(v, "header"@, header_fn());
    if object_spec(v) is Err {
        Err(object_spec(v)->Err_0)
    } else if continuations is Err {
        Err(continuations->Err_0)
    } else if actions is Err {
        Err(actions->Err_0)
    } else if participants_list is Err {
        Err(participants_list->Err_0)
    } else if header is Err {
        Err(header->Err_0)
    } else {
        Ok(
            LiveChatModel {
                continuations: continuations->Ok_0,
                actions: kept_actions(actions->Ok_0),
                participants_list: participants_list->Ok_0,
                header: header->Ok_0,
            },
        )
    }
}

pub open spec fn live_chat_fn() -> spec_fn(Json) -> Result<LiveChatModel, Fault> {
    |j: Json| live_chat_spec(j)
}

impl LiveChat {
    pub fn decode(v: &Json) -> (r: Result<LiveChat, DecodeError>)
        ensures
            outcome(r) == live_chat_spec(*v),
    {
        expect_object(v)?;
        let continuations = decode_non_empty(
            v,
            "continuations",
            Continuation::decode,
            Ghost(continuation_fn()),
        )?;
        let raw = decode_opt_non_empty(v, "actions", OptionalAction::decode, Ghost(optional_action_fn()))?;
        let participants_list = decode_opt_member(
            v,
            "participantsList",
            ParticipantsList::decode,
            Ghost(participants_list_fn()),
        )?;
        let header = decode_opt_member(v, "header", Header::decode, Ghost(header_fn()))?;
        let actions = keep_actions(raw);
        Ok(LiveChat { continuations, actions, participants_list, header })
    }
}

/// The first-page-load document.
#[derive(Debug)]
pub struct InitialChatJson {
    pub contents: Option<ChatContents>,
}

/// `{"liveChatRenderer": <chat>}`
#[derive(Debug)]
pub struct ChatContents {
    pub live_chat_renderer: LiveChat,
}

impl View for InitialChatJson {
    type V = Option<LiveChatModel>;

    open spec fn view(&self) -> Option<LiveChatModel> {
        match self.contents {
            Some(c) => Some(c@),
            None => None,
        }
    }
}

impl View for ChatContents {
    type V = LiveChatModel;

    open spec fn view(&self) -> LiveChatModel {
        self.live_chat_renderer@
    }
}

pub open spec fn chat_contents_spec(v: Json) -> Result<LiveChatModel, Fault> {
    match object_spec(v) {
        Err(e) => Err(e),
        Ok(_) => member_spec(v, "liveChatRenderer"@, live_chat_fn()),
    }
}

pub open spec fn chat_contents_fn() -> spec_fn(Json) -> Result<LiveChatModel, Fault> {
    |j: Json| chat_contents_spec(j)
}

/// `{"contents"?: {"liveChatRenderer": <chat>}}`
pub open spec fn initial_spec(v: Json) -> Result<Option<LiveChatModel>, Fault> {
    match object_spec(v) {
        Err(e) => Err(e),
        Ok(_) => opt_member_spec(v, "contents"@, chat_contents_fn()),
    }
}

impl ChatContents {
    pub fn decode(v: &Json) -> (r: Result<ChatContents, DecodeError>)
        ensures
            outcome(r) == chat_contents_spec(*v),
    {
        expect_object(v)?;
        let live_chat_renderer = decode_member(v, "liveChatRenderer", LiveChat::decode, Ghost(live_chat_fn()))?;
        Ok(ChatContents { live_chat_renderer })
    }
}

impl InitialChatJson {
    pub fn decode(v: &Json) -> (r: Result<InitialChatJson, DecodeError>)
        ensures
            outcome(r) == initial_spec(*v),
    {
        expect_object(v)?;
        let contents = decode_opt_member(v, "contents", ChatContents::decode, Ghost(chat_contents_fn()))?;
        Ok(InitialChatJson { contents })
    }
}

/// The continuation-poll document.
#[derive(Debug)]
pub struct ChatJson {
    pub continuation_contents: Option<ContinuationContents>,
}

/// `{"liveChatContinuation": <chat>}`
#[derive(Debug)]
pub struct ContinuationContents {
    pub live_chat_continuation: LiveChat,
}

impl View for ChatJson {
    type V = Option<LiveChatModel>;

    open spec fn view(&self) -> Option<LiveChatModel> {
        match self.continuation_contents {
            Some(c) => Some(c@),
            None => None,
        }
    }
}

impl View for ContinuationContents {
    type V = LiveChatModel;

    open spec fn view(&self) -> LiveChatModel {
        self.live_chat_continuation@
    }
}

pub open spec fn continuation_contents_spec(v: Json) -> Result<LiveChatModel, Fault> {
    match object_spec(v) {
        Err(e) => Err(e),
        Ok(_) => member_spec(v, "liveChatContinuation"@, live_chat_fn()),
    }
}

pub open spec fn continuation_contents_fn() -> spec_fn(Json) -> Result<LiveChatModel, Fault> {
    |j: Json| continuation_contents_spec(j)
}

/// `{"continuationContents"?: {"liveChatContinuation": <chat>}}`
pub open spec fn update_spec(v: Json) -> Result<Option<LiveChatModel>, Fault> {
    match object_spec(v) {
        Err(e) => Err(e),
        Ok(_) => opt_member_spec(v, "continuationContents"@, continuation_contents_fn()),
    }
}

impl ContinuationContents {
    pub fn decode(v: &Json) -> (r: Result<ContinuationContents, DecodeError>)
        ensures
            outcome(r) == continuation_contents_spec(*v),
    {
        expect_object(v)?;
        let live_chat_continuation = decode_member(
            v,
            "liveChatContinuation",
            LiveChat::decode,
            Ghost(live_chat_fn()),
        )?;
        Ok(ContinuationContents { live_chat_continuation })
    }
}

impl ChatJson {
    pub fn decode(v: &Json) -> (r: Result<ChatJson, DecodeError>)
        ensures
            outcome(r) == update_spec(*v),
    {
        expect_object(v)?;
        let continuation_contents = decode_opt_member(
            v,
            "continuationContents",
            ContinuationContents::decode,
            Ghost(continuation_contents_fn()),
        )?;
        Ok(ChatJson { continuation_contents })
    }
}

/// Envelopes that carry no action contribute nothing.
pub proof fn lemma_no_concrete_actions(xs: Seq<OptionalActionModel>)
    requires
        forall|i: int| 0 <= i < xs.len() ==> xs[i] is NoAction,
    ensures
        concrete_actions(xs).len() == 0,
    decreases xs.len(),
{
    if xs.len() > 0 {
        lemma_no_concrete_actions(xs.drop_last());
    }
}

/// A chat whose action envelopes all carry no action (ticker items and
/// tooltip commands) has its actions absent, not empty.
pub proof fn lemma_inert_actions_absent(v: Json, xs: Seq<OptionalActionModel>)
    requires
        live_chat_spec(v) is Ok,
        opt_non_empty_spec(v, "actions"@, optional_action_fn()) == Ok::<
            Option<Seq<OptionalActionModel>>,
            Fault,
        >(Some(xs)),
        forall|i: int| 0 <= i < xs.len() ==> xs[i] is NoAction,
    ensures
        live_chat_spec(v)->Ok_0.actions is None,
{
    lemma_no_concrete_actions(xs);
}

} // verus!
