use vstd::prelude::*;

use crate::json::Json;

verus! {

/// Pagination metadata of an offers page.
#[derive(Debug, Clone, Copy, PartialEq, Eq, Structural)]
pub struct Meta {
    pub page: i32,
    /// The next page, or `0` where there is none.
    pub next_page: i32,
    pub limit: i32,
}

/// Position metadata of a page of the changes feed.
#[derive(Debug, Clone, Copy, PartialEq, Eq, Structural)]
pub struct ChangesMeta {
    pub cur_change_id: i64,
    /// The next change cursor, or `0` where there are no further changes.
    pub next_change_id: i64,
    pub limit: i32,
}

/// One listing of a page of offers.
///
/// `data` is the source's own payload, whose fields differ from one
/// marketplace to another.
#[derive(Debug)]
pub struct OfferItem {
    pub id: i64,
    pub inner_id: String,
    pub change_type: String,
    pub created_at: String,
    pub data: Json,
}

/// One entry of the changes feed; it has the shape of an offer item.
pub type ChangeItem = OfferItem;

/// A page of offers.
#[derive(Debug)]
pub struct OffersResponse {
    pub result: Vec<OfferItem>,
    pub meta: Meta,
}

/// A page of the changes feed.
#[derive(Debug)]
pub struct ChangesResponse {
    pub result: Vec<ChangeItem>,
    pub meta: ChangesMeta,
}

/// The `i32` that member `key` of `j` holds.
pub open spec fn i32_member(j: Json, key: Seq<char>) -> Option<i32> {
    match j.field(key) {
        Some(v) => v.i32_value(),
        None => None,
    }
}

/// The `i64` that member `key` of `j` holds.
pub open spec fn i64_member(j: Json, key: Seq<char>) -> Option<i64> {
    match j.field(key) {
        Some(v) => v.i64_value(),
        None => None,
    }
}

/// The string that member `key` of `j` holds.
pub open spec fn str_member(j: Json, key: Seq<char>) -> Option<Seq<char>> {
    match j.field(key) {
        Some(v) => v.str_value(),
        None => None,
    }
}

/// The offers metadata that `j` describes.
pub open spec fn meta_of(j: Json) -> Option<Meta> {
    match (i32_member(j, "page"@), i32_member(j, "next_page"@), i32_member(j, "limit"@)) {
        (Some(page), Some(next_page), Some(limit)) => Some(Meta { page, next_page, limit }),
        _ => None,
    }
}

/// The changes metadata that `j` describes.
pub open spec fn changes_meta_of(j: Json) -> Option<ChangesMeta> {
    match (
        i64_member(j, "cur_change_id"@),
        i64_member(j, "next_change_id"@),
        i32_member(j, "limit"@),
    ) {
        (Some(cur_change_id), Some(next_change_id), Some(limit)) => Some(
            ChangesMeta { cur_change_id, next_change_id, limit },
        ),
        _ => None,
    }
}

/// `j` holds the members that an item needs, each of its type.
pub open spec fn item_decodes(j: Json) -> bool {
    &&& i64_member(j, "id"@) is Some
    &&& str_member(j, "inner_id"@) is Some
    &&& str_member(j, "change_type"@) is Some
    &&& str_member(j, "created_at"@) is Some
}

/// `item` is what `j` describes; a missing `data` member reads as `Null`.
pub open spec fn item_matches(item: OfferItem, j: Json) -> bool {
    &&& i64_member(j, "id"@) == Some(item.id)
    &&& str_member(j, "inner_id"@) == Some(item.inner_id@)
    &&& str_member(j, "change_type"@) == Some(item.change_type@)
    &&& str_member(j, "created_at"@) == Some(item.created_at@)
    &&& item.data == j.member_or_null("data"@)
}

/// `j` is an array whose every element describes an item.
pub open spec fn items_decode(j: Json) -> bool {
    match j {
        Json::Array(a) => forall|k: int| 0 <= k < a@.len() ==> item_decodes(#[trigger] a@[k]),
        _ => false,
    }
}

/// `items` are, in order, what the elements of the array `j` describe.
pub open spec fn items_match(items: Seq<OfferItem>, j: Json) -> bool {
    match j {
        Json::Array(a) => {
            &&& items.len() == a@.len()
            &&& forall|k: int| 0 <= k < a@.len() ==> item_matches(#[trigger] items[k], a@[k])
        },
        _ => false,
    }
}

/// `j` describes a page of offers.
pub open spec fn offers_decode(j: Json) -> bool {
    &&& items_decode(j.member_or_null("result"@))
    &&& j.field("meta"@) matches Some(m) && meta_of(m) is Some
}

/// `r` is the page of offers that `j` describes.
pub open spec fn offers_match(r: OffersResponse, j: Json) -> bool {
    &&& items_match(r.result@, j.member_or_null("result"@))
    &&& j.field("meta"@) matches Some(m) && meta_of(m) == Some(r.meta)
}

/// `j` describes a page of the changes feed.
pub open spec fn changes_decode(j: Json) -> bool {
    &&& items_decode(j.member_or_null("result"@))
    &&& j.field("meta"@) matches Some(m) && changes_meta_of(m) is Some
}

/// `r` is the page of the changes feed that `j` describes.
pub open spec fn changes_match(r: ChangesResponse, j: Json) -> bool {
    &&& items_match(r.result@, j.member_or_null("result"@))
    &&& j.field("meta"@) matches Some(m) && changes_meta_of(m) == Some(r.meta)
}

fn i32_field(j: &Json, key: &str) -> (r: Option<i32>)
    ensures
        r == i32_member(*j, key@),
{
    match j.get(key) {
        Some(v) => v.as_i32(),
        None => None,
    }
}

fn i64_field(j: &Json, key: &str) -> (r: Option<i64>)
    ensures
        r == i64_member(*j, key@),
{
    match j.get(key) {
        Some(v) => v.as_i64(),
        None => None,
    }
}

fn str_field(j: &Json, key: &str) -> (r: Option<String>)
    ensures
        match r {
            Some(s) => str_member(*j, key@) == Some(s@),
            None => str_member(*j, key@) is None,
        },
{
    match j.get(key) {
        Some(v) => match v.as_str() {
            Some(s) => Some(String::from_str(s)),
            None => None,
        },
        None => None,
    }
}

fn decode_meta(j: &Json) -> (r: Option<Meta>)
    ensures
        r == meta_of(*j),
{
    match (i32_field(j, "page"), i32_field(j, "next_page"), i32_field(j, "limit")) {
        (Some(page), Some(next_page), Some(limit)) => Some(Meta { page, next_page, limit }),
        _ => None,
    }
}

fn decode_changes_meta(j: &Json) -> (r: Option<ChangesMeta>)
    ensures
        r == changes_meta_of(*j),
{
    match (i64_field(j, "cur_change_id"), i64_field(j, "next_change_id"), i32_field(j, "limit")) {
        (Some(cur_change_id), Some(next_change_id), Some(limit)) => Some(
            ChangesMeta { cur_change_id, next_change_id, limit },
        ),
        _ => None,
    }
}

impl OfferItem {
    /// The item that `j` describes, where it describes one.
    pub fn from_json(j: Json) -> (r: Option<OfferItem>)
        ensures
            match r {
                Some(item) => item_decodes(j) && item_matches(item, j),
                None => !item_decodes(j),
            },
    {
        let id = i64_field(&j, "id");
        let inner_id = str_field(&j, "inner_id");
        let change_type = str_field(&j, "change_type");
        let created_at = str_field(&j, "created_at");
        match (id, inner_id, change_type, created_at) {
            (Some(id), Some(inner_id), Some(change_type), Some(created_at)) => {
                let data = j.take("data");
                Some(OfferItem { id, inner_id, change_type, created_at, data })
            },
            _ => None,
        }
    }
}

/// The items that the elements of the array `j` describe, in order.
fn decode_items(j: Json) -> (r: Option<Vec<OfferItem>>)
    ensures
        match r {
            Some(items) => items_decode(j) && items_match(items@, j),
            None => !items_decode(j),
        },
{
    match j {
        Json::Array(mut rest) => {
            let ghost all = rest@;
            let mut items: Vec<OfferItem> = Vec::new();
            while rest.len() > 0
                invariant
                    j matches Json::Array(a) && a@ == all,
                    items@.len() + rest@.len() == all.len(),
                    rest@ == all.subrange(items@.len() as int, all.len() as int),
                    forall|k: int| 0 <= k < items@.len() ==> item_decodes(#[trigger] all[k]),
                    forall|k: int|
                        0 <= k < items@.len() ==> item_matches(#[trigger] items@[k], all[k]),
                decreases rest.len(),
            {
                let ghost n = items@.len();
                let x = rest.remove(0);
                assert(x == all[n as int]);
                match OfferItem::from_json(x) {
                    Some(item) => {
                        items.push(item);
                        assert(rest@ =~= all.subrange(items@.len() as int, all.len() as int));
                    },
                    None => {
                        return None;
                    },
                }
            }
            Some(items)
        },
        _ => None,
    }
}

impl OffersResponse {
    /// The page of offers that `j` describes, where it describes one.
    pub fn from_json(j: Json) -> (r: Option<OffersResponse>)
        ensures
            match r {
                Some(page) => offers_decode(j) && offers_match(page, j),
                None => !offers_decode(j),
            },
    {
        let meta = match j.get("meta") {
            Some(m) => decode_meta(m),
            None => None,
        };
        match meta {
            Some(meta) => match decode_items(j.take("result")) {
                Some(result) => Some(OffersResponse { result, meta }),
                None => None,
            },
            None => None,
        }
    }
}

impl ChangesResponse {
    /// The page of the changes feed that `j` describes, where it describes one.
    pub fn from_json(j: Json) -> (r: Option<ChangesResponse>)
        ensures
            match r {
                Some(page) => changes_decode(j) && changes_match(page, j),
                None => !changes_decode(j),
            },
    {
        let meta = match j.get("meta") {
            Some(m) => decode_changes_meta(m),
            None => None,
        };
        match meta {
            Some(meta) => match decode_items(j.take("result")) {
                Some(result) => Some(ChangesResponse { result, meta }),
                None => None,
            },
            None => None,
        }
    }
}


/// The common fields of a listing's payload. Sources may send more fields,
/// or lack some of these: this is a projection that a payload may fail.
#[derive(Debug)]
pub struct OfferData {
    pub inner_id: String,
    pub url: String,
    pub mark: String,
    pub model: String,
    pub generation: String,
    pub configuration: String,
    pub complectation: String,
    pub year: String,
    pub color: String,
    pub price: String,
    pub km_age: String,
    pub engine_type: String,
    pub transmission_type: String,
    pub body_type: String,
    pub address: String,
    pub seller_type: String,
    pub is_dealer: bool,
    pub displacement: String,
    pub offer_created: String,
    pub images: Vec<String>,
}

/// The boolean that member `key` of `j` holds.
pub open spec fn bool_member(j: Json, key: Seq<char>) -> Option<bool> {
    match j.field(key) {
        Some(Json::Bool(b)) => Some(b),
        _ => None,
    }
}

/// The strings that the array in member `key` of `j` holds, where each of its
/// elements is a string.
pub open spec fn strings_member(j: Json, key: Seq<char>) -> Option<Seq<Seq<char>>> {
    match j.field(key) {
        Some(Json::Array(a)) => if forall|k: int| 0 <= k < a@.len() ==> (#[trigger] a@[k]).str_value() is Some {
            Some(Seq::new(a@.len(), |k: int| a@[k].str_value()->0))
        } else {
            None
        },
        _ => None,
    }
}

/// `j` holds every field of the projection, each of its type.
pub open spec fn offer_data_decodes(j: Json) -> bool {
    &&& str_member(j, "inner_id"@) is Some
    &&& str_member(j, "url"@) is Some
    &&& str_member(j, "mark"@) is Some
    &&& str_member(j, "model"@) is Some
    &&& str_member(j, "generation"@) is Some
    &&& str_member(j, "configuration"@) is Some
    &&& str_member(j, "complectation"@) is Some
    &&& str_member(j, "year"@) is Some
    &&& str_member(j, "color"@) is Some
    &&& str_member(j, "price"@) is Some
    &&& str_member(j, "km_age"@) is Some
    &&& str_member(j, "engine_type"@) is Some
    &&& str_member(j, "transmission_type"@) is Some
    &&& str_member(j, "body_type"@) is Some
    &&& str_member(j, "address"@) is Some
    &&& str_member(j, "seller_type"@) is Some
    &&& str_member(j, "displacement"@) is Some
    &&& str_member(j, "offer_created"@) is Some
    &&& bool_member(j, "is_dealer"@) is Some
    &&& strings_member(j, "images"@) is Some
}

/// `d` is the projection of `j`.
pub open spec fn offer_data_matches(d: OfferData, j: Json) -> bool {
    &&& str_member(j, "inner_id"@) == Some(d.inner_id@)
    &&& str_member(j, "url"@) == Some(d.url@)
    &&& str_member(j, "mark"@) == Some(d.mark@)
    &&& str_member(j, "model"@) == Some(d.model@)
    &&& str_member(j, "generation"@) == Some(d.generation@)
    &&& str_member(j, "configuration"@) == Some(d.configuration@)
    &&& str_member(j, "complectation"@) == Some(d.complectation@)
    &&& str_member(j, "year"@) == Some(d.year@)
    &&& str_member(j, "color"@) == Some(d.color@)
    &&& str_member(j, "price"@) == Some(d.price@)
    &&& str_member(j, "km_age"@) == Some(d.km_age@)
    &&& str_member(j, "engine_type"@) == Some(d.engine_type@)
    &&& str_member(j, "transmission_type"@) == Some(d.transmission_type@)
    &&& str_member(j, "body_type"@) == Some(d.body_type@)
    &&& str_member(j, "address"@) == Some(d.address@)
    &&& str_member(j, "seller_type"@) == Some(d.seller_type@)
    &&& str_member(j, "displacement"@) == Some(d.displacement@)
    &&& str_member(j, "offer_created"@) == Some(d.offer_created@)
    &&& bool_member(j, "is_dealer"@) == Some(d.is_dealer)
    &&& strings_member(j, "images"@) == Some(d.images@.map_values(|s: String| s@))
}

fn bool_field(j: &Json, key: &str) -> (r: Option<bool>)
    ensures
        r == bool_member(*j, key@),
{
    match j.get(key) {
        Some(Json::Bool(b)) => Some(*b),
        _ => None,
    }
}

fn strings_field(j: &Json, key: &str) -> (r: Option<Vec<String>>)
    ensures
        match r {
            Some(v) => strings_member(*j, key@) == Some(v@.map_values(|s: String| s@)),
            None => strings_member(*j, key@) is None,
        },
{
    match j.get(key) {
        Some(Json::Array(a)) => {
            let mut out: Vec<String> = Vec::new();
            let mut i: usize = 0;
            while i < a.len()
                invariant
                    j.field(key@) matches Some(Json::Array(b)) && b@ == a@,
                    i <= a@.len(),
                    out@.len() == i,
                    forall|k: int| 0 <= k < i ==> (#[trigger] a@[k]).str_value() == Some(out@[k]@),
                decreases a.len() - i,
            {
                match a[i].as_str() {
                    Some(t) => out.push(String::from_str(t)),
                    None => {
                        assert(a@[i as int].str_value() is None);
                        return None;
                    },
                }
                i = i + 1;
            }
            assert(Seq::new(a@.len(), |k: int| a@[k].str_value()->0) =~= out@.map_values(
                |s: String| s@,
            ));
            Some(out)
        },
        _ => None,
    }
}

impl OfferData {
    /// The common fields of the payload `j`, where it holds each of them.
    pub fn from_json(j: &Json) -> (r: Option<OfferData>)
        ensures
            match r {
                Some(d) => offer_data_decodes(*j) && offer_data_matches(d, *j),
                None => !offer_data_decodes(*j),
            },
    {
        let inner_id = str_field(j, "inner_id");
        let url = str_field(j, "url");
        let mark = str_field(j, "mark");
        let model = str_field(j, "model");
        let generation = str_field(j, "generation");
        let configuration = str_field(j, "configuration");
        let complectation = str_field(j, "complectation");
        let year = str_field(j, "year");
        let color = str_field(j, "color");
        let price = str_field(j, "price");
        let km_age = str_field(j, "km_age");
        let engine_type = str_field(j, "engine_type");
        let transmission_type = str_field(j, "transmission_type");
        let body_type = str_field(j, "body_type");
        let address = str_field(j, "address");
        let seller_type = str_field(j, "seller_type");
        let displacement = str_field(j, "displacement");
        let offer_created = str_field(j, "offer_created");
        let is_dealer = bool_field(j, "is_dealer");
        let images = strings_field(j, "images");
        if inner_id.is_none() || url.is_none() || mark.is_none() || model.is_none() || generation.is_none() || configuration.is_none() || complectation.is_none() || year.is_none() || color.is_none() || price.is_none() || km_age.is_none() || engine_type.is_none() || transmission_type.is_none() || body_type.is_none() || address.is_none() || seller_type.is_none() || displacement.is_none() || offer_created.is_none() || is_dealer.is_none() || images.is_none() {
            return None;
        }
        Some(OfferData {
            inner_id: inner_id.unwrap(),
            url: url.unwrap(),
            mark: mark.unwrap(),
            model: model.unwrap(),
            generation: generation.unwrap(),
            configuration: configuration.unwrap(),
            complectation: complectation.unwrap(),
            year: year.unwrap(),
            color: color.unwrap(),
            price: price.unwrap(),
            km_age: km_age.unwrap(),
            engine_type: engine_type.unwrap(),
            transmission_type: transmission_type.unwrap(),
            body_type: body_type.unwrap(),
            address: address.unwrap(),
            seller_type: seller_type.unwrap(),
            is_dealer: is_dealer.unwrap(),
            displacement: displacement.unwrap(),
            offer_created: offer_created.unwrap(),
            images: images.unwrap(),
        })
    }
}

} // verus!
