//! The protocol's catalog pages: shelves of entries, each entry maybe a
//! track, with their conversions to and from the `api` types.

use crate::api;
use crate::messages::{
    copy_opt_text, law_track_info_round_trip, same_track_info, track_info_from_proto, track_info_read,
    track_info_sent, track_info_to_proto, TrackInfo,
};
use crate::proto::{
    catalog_item_kind_from_proto, catalog_item_kind_to_proto, law_catalog_item_kind_round_trip,
    spec_catalog_item_kind_from_proto, spec_catalog_item_kind_to_proto,
};
use vstd::prelude::*;

verus! {

/// Wire form of [`api::CatalogItem`]; `kind` is its wire number.
#[derive(Clone, Debug, PartialEq, Eq)]
pub struct CatalogItem {
    pub kind: i32,
    pub id: String,
    pub title: String,
    pub subtitle: Option<String>,
    pub artwork: Option<String>,
    pub track: Option<TrackInfo>,
}

/// Wire form of [`api::CatalogShelf`].
#[derive(Clone, Debug, PartialEq, Eq)]
pub struct CatalogShelf {
    pub title: String,
    pub strapline: Option<String>,
    pub items: Vec<CatalogItem>,
    pub more_ref: Option<String>,
    pub list: bool,
}

/// Wire form of [`api::CatalogPage`].
#[derive(Clone, Debug, PartialEq, Eq)]
pub struct CatalogPage {
    pub shelves: Vec<CatalogShelf>,
    pub continuation: Option<String>,
}

/// `wire` is the wire form of `value`.
pub open spec fn item_sent(value: api::CatalogItem, wire: CatalogItem) -> bool {
    &&& wire.kind == spec_catalog_item_kind_to_proto(value.kind).spec_number()
    &&& wire.id == value.id
    &&& wire.title == value.title
    &&& wire.subtitle == value.subtitle
    &&& wire.artwork == value.artwork
    &&& match value.track {
        Some(t) => wire.track matches Some(w) && track_info_sent(t, w),
        None => wire.track is None,
    }
}

/// `value` is what `wire` reads as.
pub open spec fn item_read(wire: CatalogItem, value: api::CatalogItem) -> bool {
    &&& value.kind == spec_catalog_item_kind_from_proto(wire.kind)
    &&& value.id == wire.id
    &&& value.title == wire.title
    &&& value.subtitle == wire.subtitle
    &&& value.artwork == wire.artwork
    &&& match wire.track {
        Some(w) => value.track matches Some(t) && track_info_read(w, t),
        None => value.track is None,
    }
}

pub open spec fn same_item(a: api::CatalogItem, b: api::CatalogItem) -> bool {
    &&& a.kind == b.kind
    &&& a.id == b.id
    &&& a.title == b.title
    &&& a.subtitle == b.subtitle
    &&& a.artwork == b.artwork
    &&& match (a.track, b.track) {
        (Some(x), Some(y)) => same_track_info(x, y),
        (None, None) => true,
        _ => false,
    }
}

pub open spec fn items_sent(value: Seq<api::CatalogItem>, wire: Seq<CatalogItem>) -> bool {
    wire.len() == value.len() && forall|i: int| 0 <= i < value.len() ==> item_sent(#[trigger] value[i], wire[i])
}

pub open spec fn items_read(wire: Seq<CatalogItem>, value: Seq<api::CatalogItem>) -> bool {
    value.len() == wire.len() && forall|i: int| 0 <= i < wire.len() ==> item_read(#[trigger] wire[i], value[i])
}

pub open spec fn shelf_sent(value: api::CatalogShelf, wire: CatalogShelf) -> bool {
    &&& wire.title == value.title
    &&& wire.strapline == value.strapline
    &&& items_sent(value.items@, wire.items@)
    &&& wire.more_ref == value.more_ref
    &&& wire.list == value.list
}

pub open spec fn shelf_read(wire: CatalogShelf, value: api::CatalogShelf) -> bool {
    &&& value.title == wire.title
    &&& value.strapline == wire.strapline
    &&& items_read(wire.items@, value.items@)
    &&& value.more_ref == wire.more_ref
    &&& value.list == wire.list
}

pub open spec fn same_shelf(a: api::CatalogShelf, b: api::CatalogShelf) -> bool {
    &&& a.title == b.title
    &&& a.strapline == b.strapline
    &&& a.items@.len() == b.items@.len()
    &&& forall|i: int| 0 <= i < a.items@.len() ==> same_item(#[trigger] a.items@[i], b.items@[i])
    &&& a.more_ref == b.more_ref
    &&& a.list == b.list
}

/// `wire` is the wire form of `value`, shelf by shelf.
pub open spec fn page_sent(value: api::CatalogPage, wire: CatalogPage) -> bool {
    &&& wire.shelves@.len() == value.shelves@.len()
    &&& forall|i: int| 0 <= i < value.shelves@.len() ==> shelf_sent(#[trigger] value.shelves@[i], wire.shelves@[i])
    &&& wire.continuation == value.continuation
}

/// `value` is what `wire` reads as, shelf by shelf.
pub open spec fn page_read(wire: CatalogPage, value: api::CatalogPage) -> bool {
    &&& value.shelves@.len() == wire.shelves@.len()
    &&& forall|i: int| 0 <= i < wire.shelves@.len() ==> shelf_read(#[trigger] wire.shelves@[i], value.shelves@[i])
    &&& value.continuation == wire.continuation
}

/// Two pages with the same shelves and continuation.
pub open spec fn same_page(a: api::CatalogPage, b: api::CatalogPage) -> bool {
    &&& a.shelves@.len() == b.shelves@.len()
    &&& forall|i: int| 0 <= i < a.shelves@.len() ==> same_shelf(#[trigger] a.shelves@[i], b.shelves@[i])
    &&& a.continuation == b.continuation
}

pub fn catalog_item_to_proto(value: &api::CatalogItem) -> (res: CatalogItem)
    ensures
        item_sent(*value, res),
{
    let track = match &value.track {
        Some(t) => Some(track_info_to_proto(t)),
        None => None,
    };
    CatalogItem {
        kind: catalog_item_kind_to_proto(value.kind).number(),
        id: value.id.clone(),
        title: value.title.clone(),
        subtitle: copy_opt_text(&value.subtitle),
        artwork: copy_opt_text(&value.artwork),
        track,
    }
}

pub fn catalog_item_from_proto(value: &CatalogItem) -> (res: api::CatalogItem)
    ensures
        item_read(*value, res),
{
    let track = match &value.track {
        Some(t) => Some(track_info_from_proto(t)),
        None => None,
    };
    api::CatalogItem {
        kind: catalog_item_kind_from_proto(value.kind),
        id: value.id.clone(),
        title: value.title.clone(),
        subtitle: copy_opt_text(&value.subtitle),
        artwork: copy_opt_text(&value.artwork),
        track,
    }
}

pub fn catalog_shelf_to_proto(shelf: &api::CatalogShelf) -> (res: CatalogShelf)
    ensures
        shelf_sent(*shelf, res),
{
    let mut items: Vec<CatalogItem> = Vec::new();
    let mut i: usize = 0;
    while i < shelf.items.len()
        invariant
            i <= shelf.items@.len(),
            items@.len() == i,
            forall|k: int| 0 <= k < i ==> item_sent(#[trigger] shelf.items@[k], items@[k]),
        decreases shelf.items@.len() - i,
    {
        items.push(catalog_item_to_proto(&shelf.items[i]));
        i = i + 1;
    }
    CatalogShelf {
        title: shelf.title.clone(),
        strapline: copy_opt_text(&shelf.strapline),
        items,
        more_ref: copy_opt_text(&shelf.more_ref),
        list: shelf.list,
    }
}

pub fn catalog_shelf_from_proto(shelf: &CatalogShelf) -> (res: api::CatalogShelf)
    ensures
        shelf_read(*shelf, res),
{
    let mut items: Vec<api::CatalogItem> = Vec::new();
    let mut i: usize = 0;
    while i < shelf.items.len()
        invariant
            i <= shelf.items@.len(),
            items@.len() == i,
            forall|k: int| 0 <= k < i ==> item_read(#[trigger] shelf.items@[k], items@[k]),
        decreases shelf.items@.len() - i,
    {
        items.push(catalog_item_from_proto(&shelf.items[i]));
        i = i + 1;
    }
    api::CatalogShelf {
        title: shelf.title.clone(),
        strapline: copy_opt_text(&shelf.strapline),
        items,
        more_ref: copy_opt_text(&shelf.more_ref),
        list: shelf.list,
    }
}

pub fn catalog_page_to_proto(value: &api::CatalogPage) -> (res: CatalogPage)
    ensures
        page_sent(*value, res),
{
    let mut shelves: Vec<CatalogShelf> = Vec::new();
    let mut i: usize = 0;
    while i < value.shelves.len()
        invariant
            i <= value.shelves@.len(),
            shelves@.len() == i,
            forall|k: int| 0 <= k < i ==> shelf_sent(#[trigger] value.shelves@[k], shelves@[k]),
        decreases value.shelves@.len() - i,
    {
        shelves.push(catalog_shelf_to_proto(&value.shelves[i]));
        i = i + 1;
    }
    CatalogPage { shelves, continuation: copy_opt_text(&value.continuation) }
}

pub fn catalog_page_from_proto(value: &CatalogPage) -> (res: api::CatalogPage)
    ensures
        page_read(*value, res),
{
    let mut shelves: Vec<api::CatalogShelf> = Vec::new();
    let mut i: usize = 0;
    while i < value.shelves.len()
        invariant
            i <= value.shelves@.len(),
            shelves@.len() == i,
            forall|k: int| 0 <= k < i ==> shelf_read(#[trigger] value.shelves@[k], shelves@[k]),
        decreases value.shelves@.len() - i,
    {
        shelves.push(catalog_shelf_from_proto(&value.shelves[i]));
        i = i + 1;
    }
    api::CatalogPage { shelves, continuation: copy_opt_text(&value.continuation) }
}

/// Every catalog entry survives api -> proto -> api unchanged.
pub proof fn law_catalog_item_round_trip(value: api::CatalogItem, wire: CatalogItem, back: api::CatalogItem)
    requires
        item_sent(value, wire),
        item_read(wire, back),
    ensures
        same_item(value, back),
{
    law_catalog_item_kind_round_trip(value.kind);
    if let Some(t) = value.track {
        law_track_info_round_trip(t, wire.track->Some_0, back.track->Some_0);
    }
}

/// Every catalog shelf survives api -> proto -> api unchanged.
pub proof fn law_catalog_shelf_round_trip(value: api::CatalogShelf, wire: CatalogShelf, back: api::CatalogShelf)
    requires
        shelf_sent(value, wire),
        shelf_read(wire, back),
    ensures
        same_shelf(value, back),
{
    assert forall|k: int| 0 <= k < value.items@.len() implies same_item(#[trigger] value.items@[k], back.items@[k]) by {
        assert(item_sent(value.items@[k], wire.items@[k]));
        assert(item_read(wire.items@[k], back.items@[k]));
        law_catalog_item_round_trip(value.items@[k], wire.items@[k], back.items@[k]);
    }
}

/// Every catalog page survives api -> proto -> api unchanged.
pub proof fn law_catalog_page_round_trip(value: api::CatalogPage, wire: CatalogPage, back: api::CatalogPage)
    requires
        page_sent(value, wire),
        page_read(wire, back),
    ensures
        same_page(value, back),
{
    assert forall|i: int| 0 <= i < value.shelves@.len() implies same_shelf(#[trigger] value.shelves@[i], back.shelves@[i]) by {
        let s = value.shelves@[i];
        let w = wire.shelves@[i];
        let b = back.shelves@[i];
        assert(shelf_sent(s, w));
        assert(shelf_read(w, b));
        assert forall|k: int| 0 <= k < s.items@.len() implies same_item(#[trigger] s.items@[k], b.items@[k]) by {
            assert(item_sent(s.items@[k], w.items@[k]));
            assert(item_read(w.items@[k], b.items@[k]));
            law_catalog_item_round_trip(s.items@[k], w.items@[k], b.items@[k]);
        }
    }
}

} // verus!
