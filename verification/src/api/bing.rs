//! The picture of the day of Bing.
use vstd::prelude::*;
use crate::json::{Json, JsonValue, lemma_object_model};
use crate::text::{chars_of, string_of, concat_str};

verus! {

/// Where the picture of the day is described.
pub const BING_ARCHIVE_URL: &'static str = "http://cn.bing.com/HPImageArchive.aspx?format=js&idx=0&n=1";

/// The path of the picture of the day (`images[0].url`).
pub open spec fn bing_image_path(res: Json) -> Option<Seq<char>> {
    res.field("images"@).item(0).field("url"@).as_str()
}

/// Finds the path of the picture of the day; the endpoint cannot go on without it.
pub fn bing_image_path_of(res: &JsonValue) -> (r: Option<&str>)
    ensures
        r is None <==> bing_image_path(res@) is None,
        r matches Some(p) ==> bing_image_path(res@) == Some(p@),
{
    match res.get("images") {
        Some(images) => match images.at(0) {
            Some(first) => match first.get("url") {
                Some(u) => u.as_str(),
                None => None,
            },
            None => None,
        },
        None => None,
    }
}

/// The answer of the Bing endpoint.
pub open spec fn bing_json(path: Seq<char>) -> Json {
    Json::Object(seq![
        ("title"@, Json::Str("必应美图"@)),
        ("url"@, Json::Str("http://cn.bing.com"@ + path)),
    ])
}

/// Builds the answer of the Bing endpoint: the picture's full address.
pub fn bing_data(path: &str) -> (r: JsonValue)
    ensures
        r@ == bing_json(path@),
{
    let url = concat_str(&chars_of("http://cn.bing.com"), path);
    let mut entries: Vec<(String, JsonValue)> = Vec::new();
    entries.push(("title".to_owned(), JsonValue::string("必应美图")));
    entries.push(("url".to_owned(), JsonValue::from_chars(&url)));
    let r = JsonValue::Object(entries);
    proof {
        lemma_object_model(entries);
        assert(r@->Object_0 =~= bing_json(path@)->Object_0);
    }
    r
}

/// The picture answer names the picture by its address on cn.bing.com: its url is
/// "http://cn.bing.com" followed by the path the archive gives.
pub proof fn law_bing_members(path: Seq<char>)
    ensures
        bing_json(path).field("title"@) == Json::Str("必应美图"@),
        bing_json(path).field("url"@) == Json::Str("http://cn.bing.com"@ + path),
{
    reveal_strlit("title");
    reveal_strlit("url");
    reveal_with_fuel(crate::json::lookup, 3);
    assert("title"@.len() == 5);
    assert("url"@.len() == 3);
}

} // verus!
