//! A random cosplay picture or video.
use vstd::prelude::*;
use crate::json::{Json, JsonValue, lemma_object_model};
use crate::response::{JsonResponse, message_for};
use crate::text::{chars_of, string_of, concat_str};

verus! {

/// The query of the cosplay endpoint: which of the two kinds is asked for.
pub struct QueryParams {
    pub cos_image: Option<bool>,
    pub cos_video: Option<bool>,
}

/// The two kinds of cosplay media.
#[derive(Clone, Copy, Debug, PartialEq, Eq, Structural)]
pub enum CosKind {
    Image,
    Video,
}

/// The kind a query asks for: pictures when only `cos_image` is true, videos when
/// only `cos_video` is true, and none when both or neither are.
pub open spec fn kind_asked(image: Option<bool>, video: Option<bool>) -> Option<CosKind> {
    match (image, video) {
        (Some(true), None) | (Some(true), Some(false)) => Some(CosKind::Image),
        (None, Some(true)) | (Some(false), Some(true)) => Some(CosKind::Video),
        _ => None,
    }
}

/// The kind the query asks for; `None` is answered with [`cos_bad_request`].
pub fn cos_kind(params: &QueryParams) -> (r: Option<CosKind>)
    ensures
        r == kind_asked(params.cos_image, params.cos_video),
{
    match (params.cos_image, params.cos_video) {
        (Some(true), None) | (Some(true), Some(false)) => Some(CosKind::Image),
        (None, Some(true)) | (Some(false), Some(true)) => Some(CosKind::Video),
        _ => None,
    }
}

/// The cache key under which the largest id of a kind is kept.
pub fn cos_cache_key(kind: CosKind) -> (r: &'static str)
    ensures
        kind == CosKind::Image ==> r@ == "cos_image"@,
        kind == CosKind::Video ==> r@ == "cos_video"@,
{
    match kind {
        CosKind::Image => "cos_image",
        CosKind::Video => "cos_video",
    }
}

/// Calls `rand::rng().random_range(1..=max)`: a number drawn at random, in the range.
#[verifier::external_body]
fn random_in_range(max: i32) -> (r: i32)
    requires
        1 <= max,
    ensures
        1 <= r <= max,
{
    rand::Rng::random_range(&mut rand::rng(), 1..=max)
}

/// An id drawn at random from 1 to the largest id; the endpoint cannot go on when
/// there is no id to draw (`None`).
pub fn pick_cos_id(max_id: i32) -> (r: Option<i32>)
    ensures
        r is None <==> max_id < 1,
        r matches Some(id) ==> 1 <= id <= max_id,
{
    if max_id < 1 {
        None
    } else {
        Some(random_in_range(max_id))
    }
}

/// The address shown for a stored item: pictures through the viewer page, videos as stored.
pub open spec fn cos_url_of(kind: CosKind, stored: Seq<char>) -> Seq<char> {
    match kind {
        CosKind::Image => "https://cdn.cdnjson.com/pic.html?url="@ + stored,
        CosKind::Video => stored,
    }
}

/// The address shown for a stored item.
pub fn cos_url(kind: CosKind, stored: &str) -> (r: String)
    ensures
        r@ == cos_url_of(kind, stored@),
{
    match kind {
        CosKind::Image => string_of(&concat_str(&chars_of("https://cdn.cdnjson.com/pic.html?url="), stored)),
        CosKind::Video => stored.to_owned(),
    }
}

/// The answer of the cosplay endpoint.
pub open spec fn cos_json(url: Seq<char>) -> Json {
    Json::Object(seq![("title"@, Json::Str("逆天cos"@)), ("url"@, Json::Str(url))])
}

/// Builds the answer of the cosplay endpoint.
pub fn cos_data(url: &str) -> (r: JsonValue)
    ensures
        r@ == cos_json(url@),
{
    let mut entries: Vec<(String, JsonValue)> = Vec::new();
    entries.push(("title".to_owned(), JsonValue::string("逆天cos")));
    entries.push(("url".to_owned(), JsonValue::string(url)));
    let r = JsonValue::Object(entries);
    proof {
        lemma_object_model(entries);
        assert(r@->Object_0 =~= cos_json(url@)->Object_0);
    }
    r
}

/// The answer to a query that asks for neither or both kinds: 400, "请检查参数是否正确!".
pub fn cos_bad_request() -> (r: JsonResponse)
    ensures
        r.code == 400,
        r.message@ == message_for(400),
        r.message@ == "Bad Request"@,
        r.data is None,
        r.detail matches Some(d) && d@ == Json::Str("请检查参数是否正确!"@),
{
    JsonResponse::error(400, Some(JsonValue::string("请检查参数是否正确!")))
}

/// The cosplay answer gives the address it is handed under "url".
pub proof fn law_cos_members(url: Seq<char>)
    ensures
        cos_json(url).field("title"@) == Json::Str("逆天cos"@),
        cos_json(url).field("url"@) == Json::Str(url),
{
    reveal_strlit("title");
    reveal_strlit("url");
    reveal_with_fuel(crate::json::lookup, 3);
    assert("title"@.len() == 5);
    assert("url"@.len() == 3);
}

/// Pictures are asked for exactly when `cos_image` is true and `cos_video` is not;
/// videos exactly when `cos_video` is true and `cos_image` is not; nothing otherwise.
/// A picture is shown through the viewer page, a video at its stored address.
pub proof fn law_cos_kind(image: Option<bool>, video: Option<bool>, stored: Seq<char>)
    ensures
        kind_asked(image, video) == Some(CosKind::Image) <==> (image == Some(true) && video != Some(true)),
        kind_asked(image, video) == Some(CosKind::Video) <==> (video == Some(true) && image != Some(true)),
        kind_asked(image, video) is None <==> (image == Some(true)) == (video == Some(true)),
        cos_url_of(CosKind::Image, stored) == "https://cdn.cdnjson.com/pic.html?url="@ + stored,
        cos_url_of(CosKind::Video, stored) == stored,
{
}

} // verus!
