//! The chat header and its view selector.
use vstd::prelude::*;
use crate::json::{
    bool_fn, decode_bool, decode_member, decode_non_empty, decode_string, expect_object,
    member_spec, non_empty_spec, object_spec, outcome, string_fn, unwrap, unwrap_spec,
    DecodeError, Fault, Json,
};
use crate::non_empty::NonEmptyVec;
use crate::root::{continuation_fn, Continuation, ContinuationModel};

verus! {

/// The chat header: the entries of its view selector, in order.
#[derive(Debug)]
pub struct Header {
    pub view_selector: NonEmptyVec<MenuItems>,
}

impl View for Header {
    type V = Seq<MenuItemsModel>;

    open spec fn view(&self) -> Seq<MenuItemsModel> {
        self.view_selector@
    }
}

/// `{"liveChatHeaderRenderer": {"viewSelector": {"sortFilterSubMenuRenderer":
/// {"subMenuItems": [...]}}}}`
pub open spec fn header_spec(v: Json) -> Result<Seq<MenuItemsModel>, Fault> {
    match unwrap_spec(v, "liveChatHeaderRenderer"@) {
        Err(e) => Err(e),
        Ok(renderer) => match unwrap_spec(renderer, "viewSelector"@) {
            Err(e) => Err(e),
            Ok(selector) => match unwrap_spec(selector, "sortFilterSubMenuRenderer"@) {
                Err(e) => Err(e),
                Ok(menu) => match object_spec(menu) {
                    Err(e) => Err(e),
                    Ok(_) => non_empty_spec(menu, "subMenuItems"@, menu_items_fn()),
                },
            },
        },
    }
}

pub open spec fn header_fn() -> spec_fn(Json) -> Result<Seq<MenuItemsModel>, Fault> {
    |j: Json| header_spec(j)
}

impl Header {
    pub fn decode(v: &Json) -> (r: Result<Header, DecodeError>)
        ensures
            outcome(r) == header_spec(*v),
    {
        let renderer = unwrap(v, "liveChatHeaderRenderer")?;
        let selector = unwrap(renderer, "viewSelector")?;
        let menu = unwrap(selector, "sortFilterSubMenuRenderer")?;
        expect_object(menu)?;
        let view_selector = decode_non_empty(menu, "subMenuItems", MenuItems::decode, Ghost(menu_items_fn()))?;
        Ok(Header { view_selector })
    }
}

/// One entry of the view selector.
#[derive(Debug)]
pub struct MenuItems {
    pub title: String,
    pub subtitle: String,
    pub selected: bool,
    pub continuation: Continuation,
}

pub struct MenuItemsModel {
    pub title: Seq<char>,
    pub subtitle: Seq<char>,
    pub selected: bool,
    pub continuation: ContinuationModel,
}

impl View for MenuItems {
    type V = MenuItemsModel;

    open spec fn view(&self) -> MenuItemsModel {
        MenuItemsModel {
            title: self.title@,
            subtitle: self.subtitle@,
            selected: self.selected,
            continuation: self.continuation@,
        }
    }
}

pub open spec fn menu_items_spec(v: Json) -> Result<MenuItemsModel, Fault> {
    let title = member_spec(v, "title"@, string_fn());
    let subtitle = member_spec(v, "subtitle"@, string_fn());
    let selected = member_spec(v, "selected"@, bool_fn());
    let continuation = member_spec(v, "continuation"@, continuation_fn());
    if object_spec(v) is Err {
        Err(object_spec(v)->Err_0)
    } else if title is Err {
        Err(title->Err_0)
    } else if subtitle is Err {
        Err(subtitle->Err_0)
    } else if selected is Err {
        Err(selected->Err_0)
    } else if continuation is Err {
        Err(continuation->Err_0)
    } else {
        Ok(
            MenuItemsModel {
                title: title->Ok_0,
                subtitle: subtitle->Ok_0,
                selected: selected->Ok_0,
                continuation: continuation->Ok_0,
            },
        )
    }
}

pub open spec fn menu_items_fn() -> spec_fn(Json) -> Result<MenuItemsModel, Fault> {
    |j: Json| menu_items_spec(j)
}

impl MenuItems {
    pub fn decode(v: &Json) -> (r: Result<MenuItems, DecodeError>)
        ensures
            outcome(r) == menu_items_spec(*v),
    {
        expect_object(v)?;
        let title = decode_member(v, "title", decode_string, Ghost(string_fn()))?;
        let subtitle = decode_member(v, "subtitle", decode_string, Ghost(string_fn()))?;
        let selected = decode_member(v, "selected", decode_bool, Ghost(bool_fn()))?;
        let continuation = decode_member(v, "continuation", Continuation::decode, Ghost(continuation_fn()))?;
        Ok(MenuItems { title, subtitle, selected, continuation })
    }
}

} // verus!
