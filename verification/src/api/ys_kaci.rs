//! The current wish banners of Genshin Impact.
use vstd::prelude::*;
use crate::json::{Json, JsonValue, lemma_object_model, lemma_array_model};
use crate::api::hot_search::models;

verus! {

/// Where the banners are listed.
pub const GACHA_POOL_URL: &'static str = "https://api-takumi.mihoyo.com/common/blackboard/ys_obc/v1/gacha_pool?app_sn=ys_obc";

/// The banners of an answer (`data.list`).
pub open spec fn pool_items(res: Json) -> Option<Seq<Json>> {
    res.field("data"@).field("list"@).as_array()
}

/// Finds the banners of an answer; the endpoint cannot go on without them.
pub fn pool_items_of(res: &JsonValue) -> (r: Option<&Vec<JsonValue>>)
    ensures
        r is None <==> pool_items(res@) is None,
        r matches Some(a) ==> pool_items(res@) == Some(models(a@)),
{
    let found = match res.get("data") {
        Some(d) => match d.get("list") {
            Some(l) => l.as_array(),
            None => None,
        },
        None => None,
    };
    proof {
        if let Some(a) = found {
            assert(pool_items(res@)->0 =~= models(a@));
        }
    }
    found
}

/// One banner as the endpoint shows it.
pub open spec fn pool_json(item: Json) -> Json {
    Json::Object(seq![
        ("id"@, item.field("id"@)),
        ("title"@, item.field("title"@)),
        ("content"@, item.field("content_before_act"@)),
        ("icon"@, item.field("pool"@).item(0).field("icon"@)),
    ])
}

/// The answer of the banner endpoint: the banners, and the time span of the first.
pub open spec fn ys_kaci_json(res: Json, items: Seq<Json>) -> Json {
    Json::Object(seq![
        ("title"@, Json::Str("原神卡池"@)),
        ("list"@, Json::Array(items.map_values(|x: Json| pool_json(x)))),
        ("start_time"@, res.field("data"@).field("list"@).item(0).field("start_time"@)),
        ("end_time"@, res.field("data"@).field("list"@).item(0).field("end_time"@)),
    ])
}

fn item0_field(res: &JsonValue, key: &str) -> (r: JsonValue)
    ensures
        r@ == res@.field("data"@).field("list"@).item(0).field(key@),
{
    match res.get("data") {
        Some(d) => match d.get("list") {
            Some(l) => match l.at(0) {
                Some(first) => first.field_value(key),
                None => JsonValue::Null,
            },
            None => JsonValue::Null,
        },
        None => JsonValue::Null,
    }
}

fn pool_value(item: &JsonValue) -> (r: JsonValue)
    ensures
        r@ == pool_json(item@),
{
    let icon = match item.get("pool") {
        Some(p) => match p.at(0) {
            Some(first) => first.field_value("icon"),
            None => JsonValue::Null,
        },
        None => JsonValue::Null,
    };
    let mut entries: Vec<(String, JsonValue)> = Vec::new();
    entries.push(("id".to_owned(), item.field_value("id")));
    entries.push(("title".to_owned(), item.field_value("title")));
    entries.push(("content".to_owned(), item.field_value("content_before_act")));
    entries.push(("icon".to_owned(), icon));
    let r = JsonValue::Object(entries);
    proof {
        lemma_object_model(entries);
        assert(r@->Object_0 =~= pool_json(item@)->Object_0);
    }
    r
}

/// Builds the answer of the banner endpoint from the service's answer; `None` when
/// the answer holds no banner list (`data.list`), which the endpoint cannot go on without.
pub fn ys_kaci_data(res: &JsonValue) -> (r: Option<JsonValue>)
    ensures
        match pool_items(res@) {
            Some(items) => r matches Some(v) && v@ == ys_kaci_json(res@, items),
            None => r is None,
        },
{
    match pool_items_of(res) {
        Some(items) => Some(banners_answer(res, items)),
        None => None,
    }
}

/// The answer of the banner endpoint, from the service's answer and its banners.
fn banners_answer(res: &JsonValue, items: &Vec<JsonValue>) -> (r: JsonValue)
    ensures
        r@ == ys_kaci_json(res@, models(items@)),
{
    let mut list: Vec<JsonValue> = Vec::new();
    let n = items.len();
    for i in 0..n
        invariant
            n == items@.len(),
            list@.len() == i,
            forall|j: int| 0 <= j < i ==> #[trigger] list@[j]@ == pool_json(items@[j]@),
    {
        list.push(pool_value(&items[i]));
    }
    let lv = JsonValue::Array(list);
    proof {
        lemma_array_model(list);
        assert(lv@->Array_0 =~= models(items@).map_values(|x: Json| pool_json(x)));
    }
    let mut entries: Vec<(String, JsonValue)> = Vec::new();
    entries.push(("title".to_owned(), JsonValue::string("原神卡池")));
    entries.push(("list".to_owned(), lv));
    entries.push(("start_time".to_owned(), item0_field(res, "start_time")));
    entries.push(("end_time".to_owned(), item0_field(res, "end_time")));
    let r = JsonValue::Object(entries);
    proof {
        lemma_object_model(entries);
        assert(r@->Object_0 =~= ys_kaci_json(res@, models(items@))->Object_0);
    }
    r
}

/// Each banner of the banner answer carries the banner's id and title, its
/// `content_before_act` as its content, and the icon of its first pool.
pub proof fn law_pool_members(item: Json)
    ensures
        pool_json(item).field("id"@) == item.field("id"@),
        pool_json(item).field("title"@) == item.field("title"@),
        pool_json(item).field("content"@) == item.field("content_before_act"@),
        pool_json(item).field("icon"@) == item.field("pool"@).item(0).field("icon"@),
{
    reveal_strlit("id");
    reveal_strlit("title");
    reveal_strlit("content");
    reveal_strlit("icon");
    reveal_with_fuel(crate::json::lookup, 5);
    assert("id"@.len() == 2);
    assert("title"@.len() == 5);
    assert("content"@.len() == 7);
    assert("icon"@.len() == 4);
}

/// The banner answer lists one entry per banner, in order, and gives the start and end
/// time of the first banner of the service's list.
pub proof fn law_ys_kaci_members(res: Json, items: Seq<Json>)
    ensures
        ys_kaci_json(res, items).field("title"@) == Json::Str("原神卡池"@),
        ys_kaci_json(res, items).field("list"@) == Json::Array(Seq::new(items.len(), |i: int| pool_json(items[i]))),
        ys_kaci_json(res, items).field("start_time"@) == res.field("data"@).field("list"@).item(0).field("start_time"@),
        ys_kaci_json(res, items).field("end_time"@) == res.field("data"@).field("list"@).item(0).field("end_time"@),
{
    assert(items.map_values(|x: Json| pool_json(x)) =~= Seq::new(items.len(), |i: int| pool_json(items[i])));
    reveal_strlit("title");
    reveal_strlit("list");
    reveal_strlit("start_time");
    reveal_strlit("end_time");
    reveal_with_fuel(crate::json::lookup, 5);
    assert("title"@.len() == 5);
    assert("list"@.len() == 4);
    assert("start_time"@.len() == 10);
    assert("end_time"@.len() == 8);
}

} // verus!
