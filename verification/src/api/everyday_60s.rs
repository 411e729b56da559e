//! The news of the day, read in sixty seconds.
use vstd::prelude::*;
use crate::json::{Json, JsonValue, lemma_object_model};
use crate::text::{chars_of, string_of, concat_str, replace_char_chars, append_chars};
use crate::text;

verus! {

/// The date in the form the news archives name their files with: `/` becomes `-`.
pub open spec fn archive_date(date: Seq<char>) -> Seq<char> {
    text::replace_char(date, '/', '-')
}

/// The archives the news of `date` is looked for in, in order.
pub open spec fn news_urls_of(date: Seq<char>) -> Seq<Seq<char>> {
    let d = archive_date(date);
    seq![
        "https://60s-static.viki.moe/60s/"@ + d + ".json"@,
        "https://cdn.jsdelivr.net/gh/vikiboss/60s-static-host/static/60s/"@ + d + ".json"@,
        "https://raw.githubusercontent.com/vikiboss/60s-static-host/main/static/60s/"@ + d + ".json"@,
    ]
}

fn archive_url(base: &str, d: &Vec<char>) -> (r: String)
    ensures
        r@ == base@ + d@ + ".json"@,
{
    let mut v = chars_of(base);
    append_chars(&mut v, d);
    let w = concat_str(&v, ".json");
    string_of(&w)
}

/// The addresses the news of a day (written `YYYY-MM-DD`) is looked for at, in the
/// order they are tried.
pub fn news_urls(date: &str) -> (r: Vec<String>)
    ensures
        r@.len() == 3,
        forall|i: int| 0 <= i < 3 ==> #[trigger] r@[i]@ == news_urls_of(date@)[i],
{
    let d = replace_char_chars(&chars_of(date), '/', '-');
    let mut r: Vec<String> = Vec::new();
    r.push(archive_url("https://60s-static.viki.moe/60s/", &d));
    r.push(archive_url("https://cdn.jsdelivr.net/gh/vikiboss/60s-static-host/static/60s/", &d));
    r.push(archive_url("https://raw.githubusercontent.com/vikiboss/60s-static-host/main/static/60s/", &d));
    r
}

/// The answer of the news endpoint, from the archive's file.
pub open spec fn news_json(data: Json) -> Json {
    Json::Object(seq![
        ("title"@, Json::Str("60s看世界"@)),
        ("list"@, data.field("news"@)),
        ("image"@, data.field("image"@)),
        ("tip"@, data.field("tip"@)),
        ("date"@, data.field("date"@)),
    ])
}

/// The news answer carries the archive file's members under the same names, the
/// news under "list": its list is the file's `news`, and its image, tip and date are
/// the file's (null where the file has none).
pub proof fn law_news_members(data: Json)
    ensures
        news_json(data).field("title"@) == Json::Str("60s看世界"@),
        news_json(data).field("list"@) == data.field("news"@),
        news_json(data).field("image"@) == data.field("image"@),
        news_json(data).field("tip"@) == data.field("tip"@),
        news_json(data).field("date"@) == data.field("date"@),
{
    reveal_strlit("title");
    reveal_strlit("list");
    reveal_strlit("image");
    reveal_strlit("tip");
    reveal_strlit("date");
    reveal_with_fuel(crate::json::lookup, 6);
    assert("title"@.len() == 5 && "title"@[0] == 't' && "title"@[1] == 'i');
    assert("list"@.len() == 4 && "list"@[0] == 'l');
    assert("image"@.len() == 5 && "image"@[0] == 'i');
    assert("tip"@.len() == 3);
    assert("date"@.len() == 4 && "date"@[0] == 'd');
}

/// Builds the answer of the news endpoint from the first archive file found.
pub fn news_data(data: &JsonValue) -> (r: JsonValue)
    ensures
        r@ == news_json(data@),
{
    let mut entries: Vec<(String, JsonValue)> = Vec::new();
    entries.push(("title".to_owned(), JsonValue::string("60s看世界")));
    entries.push(("list".to_owned(), data.field_value("news")));
    entries.push(("image".to_owned(), data.field_value("image")));
    entries.push(("tip".to_owned(), data.field_value("tip")));
    entries.push(("date".to_owned(), data.field_value("date")));
    let r = JsonValue::Object(entries);
    proof {
        lemma_object_model(entries);
        assert(r@->Object_0 =~= news_json(data@)->Object_0);
    }
    r
}

/// What the news endpoint does next.
pub enum NewsStep {
    /// Fetch the archive file at this address.
    Fetch(String),
    /// Answer with this.
    Answer(JsonValue),
    /// Every archive failed: answer "not found".
    NotFound,
}

/// The next step of the news endpoint for the day `date`, after `tried` archives
/// have been tried, the last one giving `fetched` (nothing yet, or a failure, is
/// `None`). The first file fetched is answered; otherwise the next archive, in the
/// order of [`news_urls_of`], is tried; when all three have failed, the answer is
/// "not found".
pub fn news_step(date: &str, tried: usize, fetched: Option<&JsonValue>) -> (r: NewsStep)
    ensures
        match fetched {
            Some(d) => r matches NewsStep::Answer(v) && v@ == news_json(d@),
            None => if tried < 3 {
                r matches NewsStep::Fetch(u) && u@ == news_urls_of(date@)[tried as int]
            } else {
                r is NotFound
            },
        },
{
    match fetched {
        Some(d) => NewsStep::Answer(news_data(d)),
        None => {
            let d = replace_char_chars(&chars_of(date), '/', '-');
            if tried == 0 {
                NewsStep::Fetch(archive_url("https://60s-static.viki.moe/60s/", &d))
            } else if tried == 1 {
                NewsStep::Fetch(archive_url("https://cdn.jsdelivr.net/gh/vikiboss/60s-static-host/static/60s/", &d))
            } else if tried == 2 {
                NewsStep::Fetch(
                    archive_url("https://raw.githubusercontent.com/vikiboss/60s-static-host/main/static/60s/", &d),
                )
            } else {
                NewsStep::NotFound
            }
        },
    }
}

/// The archives name a day's file by its date with every `/` turned into `-` and
/// nothing else changed, and are tried in the order viki.moe, jsDelivr, GitHub.
pub proof fn law_news_archives(date: Seq<char>)
    ensures
        archive_date(date).len() == date.len(),
        forall|i: int| 0 <= i < date.len() ==> #[trigger] archive_date(date)[i] == (if date[i] == '/' { '-' } else { date[i] }),
        news_urls_of(date) == seq![
            "https://60s-static.viki.moe/60s/"@ + archive_date(date) + ".json"@,
            "https://cdn.jsdelivr.net/gh/vikiboss/60s-static-host/static/60s/"@ + archive_date(date) + ".json"@,
            "https://raw.githubusercontent.com/vikiboss/60s-static-host/main/static/60s/"@ + archive_date(date) + ".json"@,
        ],
{
}

} // verus!
