//! The quote of the day, which is under maintenance.
use vstd::prelude::*;
use crate::json::{Json, JsonValue, lemma_object_model};
use crate::response::{JsonResponse, message_for};

verus! {

/// The detail the quote endpoint answers with while it is under maintenance.
pub open spec fn yiyan_detail() -> Json {
    Json::Object(seq![("title"@, Json::Str("一言"@)), ("error"@, Json::Str("正在维护中..."@))])
}

/// The answer of the quote endpoint: a 400 answer saying that it is under maintenance.
pub fn yiyan() -> (r: JsonResponse)
    ensures
        r.code == 400,
        r.message@ == message_for(400),
        r.message@ == "Bad Request"@,
        r.data is None,
        r.detail matches Some(d) && d@ == yiyan_detail(),
{
    let mut entries: Vec<(String, JsonValue)> = Vec::new();
    entries.push(("title".to_owned(), JsonValue::string("一言")));
    entries.push(("error".to_owned(), JsonValue::string("正在维护中...")));
    let d = JsonValue::Object(entries);
    proof {
        lemma_object_model(entries);
        assert(d@->Object_0 =~= yiyan_detail()->Object_0);
    }
    JsonResponse::error(400, Some(d))
}

/// The saying endpoint's detail says that it is under maintenance.
pub proof fn law_yiyan_members()
    ensures
        yiyan_detail().field("title"@) == Json::Str("一言"@),
        yiyan_detail().field("error"@) == Json::Str("正在维护中..."@),
{
    reveal_strlit("title");
    reveal_strlit("error");
    reveal_with_fuel(crate::json::lookup, 3);
    assert("title"@.len() == 5);
    assert("error"@.len() == 5);
    assert("title"@[0] == 't' && "error"@[0] == 'e');
}

} // verus!
