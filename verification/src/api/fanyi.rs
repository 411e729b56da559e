//! Translation of a text.
use vstd::prelude::*;
use crate::json::{Json, JsonValue, lemma_object_model};
use crate::text::{chars_of, string_of, concat_str};

verus! {

/// The query of the translation endpoint.
pub struct QueryParams {
    pub text: String,
}

/// The address that translates `text`; the text is put in as given.
pub open spec fn fanyi_url_of(text: Seq<char>) -> Seq<char> {
    "https://wxapp.translator.qq.com/api/translate?sourceText="@ + text
        + "&source=auto&target=auto&platform=MQQAPP&candidateLangs=zh%7Cen&guid=wxapp_openid_1576171882_ptxba365xp"@
}

/// The address that translates the query's text.
pub fn fanyi_url(params: &QueryParams) -> (r: String)
    ensures
        r@ == fanyi_url_of(params.text@),
{
    let a = concat_str(&chars_of("https://wxapp.translator.qq.com/api/translate?sourceText="), params.text.as_str());
    let b = concat_str(
        &a,
        "&source=auto&target=auto&platform=MQQAPP&candidateLangs=zh%7Cen&guid=wxapp_openid_1576171882_ptxba365xp",
    );
    string_of(&b)
}

/// The answer of the translation endpoint: the service's source and target texts.
pub open spec fn fanyi_json(res: Json) -> Json {
    Json::Object(seq![
        ("title"@, Json::Str("简心翻译"@)),
        ("sourceText"@, res.field("sourceText"@)),
        ("targetText"@, res.field("targetText"@)),
    ])
}

/// Builds the answer of the translation endpoint.
pub fn fanyi_data(res: &JsonValue) -> (r: JsonValue)
    ensures
        r@ == fanyi_json(res@),
{
    let mut entries: Vec<(String, JsonValue)> = Vec::new();
    entries.push(("title".to_owned(), JsonValue::string("简心翻译")));
    entries.push(("sourceText".to_owned(), res.field_value("sourceText")));
    entries.push(("targetText".to_owned(), res.field_value("targetText")));
    let r = JsonValue::Object(entries);
    proof {
        lemma_object_model(entries);
        assert(r@->Object_0 =~= fanyi_json(res@)->Object_0);
    }
    r
}

/// The translation answer carries the service's source and target texts under the
/// same names (null where the service gives none).
pub proof fn law_fanyi_members(res: Json)
    ensures
        fanyi_json(res).field("title"@) == Json::Str("简心翻译"@),
        fanyi_json(res).field("sourceText"@) == res.field("sourceText"@),
        fanyi_json(res).field("targetText"@) == res.field("targetText"@),
{
    reveal_strlit("title");
    reveal_strlit("sourceText");
    reveal_strlit("targetText");
    reveal_with_fuel(crate::json::lookup, 4);
    assert("title"@.len() == 5);
    assert("sourceText"@.len() == 10);
    assert("targetText"@.len() == 10);
    assert("sourceText"@[0] == 's' && "targetText"@[0] == 't');
}

/// The text to translate is passed as `sourceText`, with automatic source and target
/// languages.
pub proof fn law_fanyi_url(t: Seq<char>)
    ensures
        fanyi_url_of(t) == "https://wxapp.translator.qq.com/api/translate?sourceText="@ + t
            + "&source=auto&target=auto&platform=MQQAPP&candidateLangs=zh%7Cen&guid=wxapp_openid_1576171882_ptxba365xp"@,
{
}

} // verus!
