//! What a website says of itself: title, icon, description and keywords.
use vstd::prelude::*;
use crate::json::{Json, JsonValue, lemma_object_model};
use crate::text::{chars_of, string_of, join_strings, trim_chars, find_chars, slice_chars, concat_str,
    append_chars, contains_chars, starts_with_chars, push_decimal_u128};
use crate::html::{select_text_nodes, select_attributes};
use crate::html;
use crate::text;

verus! {

/// The query of the website endpoint.
pub struct QueryParams {
    pub url: String,
}

/// `StatusCode::is_success`: whether a status is in the 200s.
pub open spec fn is_success(code: u16) -> bool {
    200 <= code <= 299
}

/// Whether a status is in the 200s.
pub fn is_success_status(code: u16) -> (r: bool)
    ensures
        r == is_success(code),
{
    200 <= code && code <= 299
}

/// The answer for a site whose status is not a success: only the status.
pub open spec fn unavailable_json(code: u16) -> Json {
    Json::Object(seq![("title"@, Json::Str("网站信息查询"@)), ("website_code"@, Json::UInt(code as u64))])
}

/// Builds the answer for a site whose status is not a success.
pub fn unavailable_data(code: u16) -> (r: JsonValue)
    ensures
        r@ == unavailable_json(code),
{
    let mut entries: Vec<(String, JsonValue)> = Vec::new();
    entries.push(("title".to_owned(), JsonValue::string("网站信息查询")));
    entries.push(("website_code".to_owned(), JsonValue::UInt(code as u64)));
    let r = JsonValue::Object(entries);
    proof {
        lemma_object_model(entries);
        assert(r@->Object_0 =~= unavailable_json(code)->Object_0);
    }
    r
}

/// The title of a page: the text nodes of its first `title`, joined by spaces and trimmed.
pub open spec fn page_title(elements: Seq<Seq<Seq<char>>>) -> Option<Seq<char>> {
    if elements.len() > 0 {
        Some(text::trim(text::join(elements[0], " "@)))
    } else {
        None
    }
}

/// The `href` of the first `link` whose `rel` mentions "icon" and that has an `href`.
pub open spec fn icon_href(links: Seq<Seq<Option<Seq<char>>>>) -> Option<Seq<char>>
    decreases links.len(),
{
    if links.len() == 0 {
        None
    } else if links[0][0] matches Some(rel) && text::contains(rel, "icon"@) && links[0][1] is Some {
        links[0][1]
    } else {
        icon_href(links.drop_first())
    }
}

/// The site part of an address: what precedes its first `/`, or all of it.
pub open spec fn before_slash(url: Seq<char>) -> Seq<char> {
    match text::find(url, "/"@) {
        Some(i) => url.take(i),
        None => url,
    }
}

/// The icon's address: as written when it starts with "http", else appended to the
/// site part of the address asked about.
pub open spec fn icon_url(href: Seq<char>, url: Seq<char>) -> Seq<char> {
    if text::starts_with(href, "http"@) {
        href
    } else {
        before_slash(url) + href
    }
}

/// The icon's address, for every address asked about: an `href` whose first four
/// characters are "http" is kept as written; any other `href` is put after the part
/// of the address before its first `/` (all of it when it has none).
pub proof fn law_icon_url(href: Seq<char>, url: Seq<char>)
    ensures
        href.len() >= 4 && href.take(4) == "http"@ ==> icon_url(href, url) == href,
        !(href.len() >= 4 && href.take(4) == "http"@) ==> exists|k: int| #![trigger url.take(k)]
            0 <= k <= url.len() && icon_url(href, url) == url.take(k) + href
                && (forall|j: int| 0 <= j < k ==> url[j] != '/')
                && (k == url.len() || url[k] == '/'),
{
    reveal_strlit("http");
    reveal_strlit("/");
    assert("http"@.len() == 4);
    assert("/"@.len() == 1 && "/"@[0] == '/');
    if !(href.len() >= 4 && href.take(4) == "http"@) {
        match text::find(url, "/"@) {
            Some(i) => {
                text::lemma_find_from_bounds(url, "/"@, 0);
                text::lemma_find_from_first(url, "/"@, 0);
                assert(text::occurs_at(url, "/"@, i));
                assert(url.subrange(i, i + 1)[0] == url[i]);
                assert forall|j: int| 0 <= j < i implies url[j] != '/' by {
                    if url[j] == '/' {
                        assert(url.subrange(j, j + 1) =~= "/"@);
                        assert(text::occurs_at(url, "/"@, j));
                    }
                }
                assert(icon_url(href, url) == url.take(i) + href);
                assert(url[i] == '/');
                assert(0 <= i <= url.len() && icon_url(href, url) == url.take(i) + href
                    && (forall|j: int| 0 <= j < i ==> url[j] != '/') && (i == url.len() || url[i] == '/'));
            },
            None => {
                text::lemma_find_from_first(url, "/"@, 0);
                assert forall|j: int| 0 <= j < url.len() implies url[j] != '/' by {
                    if url[j] == '/' {
                        assert(url.subrange(j, j + 1) =~= "/"@);
                        assert(text::occurs_at(url, "/"@, j));
                    }
                }
                assert(url.take(url.len() as int) =~= url);
                assert(icon_url(href, url) == url.take(url.len() as int) + href);
                let k = url.len() as int;
                assert(0 <= k <= url.len() && icon_url(href, url) == url.take(k) + href
                    && (forall|j: int| 0 <= j < k ==> url[j] != '/') && (k == url.len() || url[k] == '/'));
            },
        }
    }
}

/// The first element's value of the one attribute asked for.
pub open spec fn first_attribute(elements: Seq<Seq<Option<Seq<char>>>>) -> Option<Seq<char>> {
    if elements.len() > 0 {
        elements[0][0]
    } else {
        None
    }
}

/// A text, or null.
pub open spec fn opt_json(t: Option<Seq<char>>) -> Json {
    match t {
        Some(s) => Json::Str(s),
        None => Json::Null,
    }
}

/// The answer for a site that answered with a success.
pub open spec fn website_json(
    code: u16,
    title: Option<Seq<char>>,
    icon: Option<Seq<char>>,
    description: Option<Seq<char>>,
    keywords: Option<Seq<char>>,
    millis: u128,
) -> Json {
    Json::Object(seq![
        ("title"@, Json::Str("网站信息查询"@)),
        ("website_code"@, Json::UInt(code as u64)),
        ("website_title"@, opt_json(title)),
        ("website_icon"@, opt_json(icon)),
        ("website_description"@, opt_json(description)),
        ("website_keywords"@, opt_json(keywords)),
        ("process_time"@, Json::Str(text::decimal(millis as nat) + "ms"@)),
    ])
}

/// What the endpoint reads from a page, where each selector is accepted.
pub open spec fn website_reading(url: Seq<char>, code: u16, page: Seq<char>, millis: u128) -> Option<Json> {
    match (
        html::document_text_nodes(page, "title"@),
        html::document_attributes(page, "link[rel]"@, seq!["rel"@, "href"@]),
        html::document_attributes(page, "meta[name='description']"@, seq!["content"@]),
        html::document_attributes(page, "meta[name='keywords']"@, seq!["content"@]),
    ) {
        (Some(titles), Some(links), Some(descriptions), Some(keywords)) => Some(
            website_json(
                code,
                page_title(titles),
                match icon_href(links) {
                    Some(h) => Some(icon_url(h, url)),
                    None => None,
                },
                first_attribute(descriptions),
                first_attribute(keywords),
                millis,
            ),
        ),
        _ => None,
    }
}

fn opt_value(t: Option<Vec<char>>) -> (r: JsonValue)
    ensures
        r@ == opt_json(match t { Some(v) => Some(v@), None => None }),
{
    match t {
        Some(v) => JsonValue::from_chars(&v),
        None => JsonValue::Null,
    }
}

fn opt_chars(t: &Option<String>) -> (r: Option<Vec<char>>)
    ensures
        match t {
            Some(s) => r matches Some(v) && v@ == s@,
            None => r is None,
        },
{
    match t {
        Some(s) => Some(chars_of(s.as_str())),
        None => None,
    }
}

fn names(list: &Vec<&str>) -> (r: Vec<String>)
    ensures
        html::views(r@) == list@.map_values(|s: &str| s@),
{
    let mut out: Vec<String> = Vec::new();
    let n = list.len();
    for i in 0..n
        invariant
            n == list@.len(),
            out@.len() == i,
            forall|j: int| 0 <= j < i ==> #[trigger] out@[j]@ == list@[j]@,
    {
        out.push(list[i].to_owned());
    }
    assert(html::views(out@) =~= list@.map_values(|s: &str| s@));
    out
}

/// The `href` of the first `link` whose `rel` mentions "icon" and that has an `href`.
fn first_icon_href(links: &Vec<Vec<Option<String>>>) -> (r: Option<Vec<char>>)
    requires
        forall|i: int| 0 <= i < links@.len() ==> (#[trigger] links@[i])@.len() == 2,
    ensures
        match icon_href(html::attrs_view(links@)) {
            Some(h) => r matches Some(v) && v@ == h,
            None => r is None,
        },
{
    let ghost m = html::attrs_view(links@);
    let icon = chars_of("icon");
    let n = links.len();
    assert(m.skip(0) == m);
    for i in 0..n
        invariant
            n == links@.len(),
            m == html::attrs_view(links@),
            icon@ == "icon"@,
            forall|k: int| 0 <= k < links@.len() ==> (#[trigger] links@[k])@.len() == 2,
            icon_href(m) == icon_href(m.skip(i as int)),
    {
        assert(m.skip(i as int)[0] == m[i as int]);
        assert(m.skip(i as int).drop_first() == m.skip(i + 1));
        assert(links@[i as int]@.len() == 2);
        assert(m[i as int][0] == html::opt_view(links@[i as int]@[0]));
        assert(m[i as int][1] == html::opt_view(links@[i as int]@[1]));
        let entry = &links[i];
        match &entry[0] {
            Some(rel) => {
                if contains_chars(&chars_of(rel.as_str()), &icon) {
                    match &entry[1] {
                        Some(h) => return Some(chars_of(h.as_str())),
                        None => {},
                    }
                }
            },
            None => {},
        }
    }
    assert(m.skip(n as int).len() == 0);
    None
}

/// The icon's address, resolved against the address asked about.
fn resolve_icon(href: Vec<char>, url: &str) -> (r: Vec<char>)
    ensures
        r@ == icon_url(href@, url@),
{
    if starts_with_chars(&href, &chars_of("http")) {
        href
    } else {
        let u = chars_of(url);
        let slash = chars_of("/");
        let mut base = match find_chars(&u, &slash) {
            Some(k) => {
                proof { text::lemma_find_from_bounds(u@, slash@, 0); }
                let b = slice_chars(&u, 0, k);
                assert(b@ == u@.take(k as int));
                assert(text::find(url@, "/"@) == Some(k as int));
                b
            },
            None => {
                assert(text::find(url@, "/"@) is None);
                u
            },
        };
        assert(base@ == before_slash(url@));
        append_chars(&mut base, &href);
        base
    }
}

/// Reads a page that answered with a success: its title, icon, description and
/// keywords, with the status and the time the request took. `None` only where a
/// selector is refused.
pub fn website_data(url: &str, code: u16, page: &str, millis: u128) -> (r: Option<JsonValue>)
    ensures
        match website_reading(url@, code, page@, millis) {
            Some(j) => r matches Some(v) && v@ == j,
            None => r is None,
        },
{
    let titles = match select_text_nodes(page, "title") {
        Some(v) => v,
        None => return None,
    };
    let link_names = names(&vec!["rel", "href"]);
    let content_names = names(&vec!["content"]);
    proof {
        assert(html::views(link_names@) =~= seq!["rel"@, "href"@]);
        assert(html::views(content_names@) =~= seq!["content"@]);
    }
    let links = match select_attributes(page, "link[rel]", &link_names) {
        Some(v) => v,
        None => return None,
    };
    let descriptions = match select_attributes(page, "meta[name='description']", &content_names) {
        Some(v) => v,
        None => return None,
    };
    let keywords = match select_attributes(page, "meta[name='keywords']", &content_names) {
        Some(v) => v,
        None => return None,
    };
    let ghost ml = html::document_attributes(page@, "link[rel]"@, seq!["rel"@, "href"@])->0;
    let ghost md = html::document_attributes(page@, "meta[name='description']"@, seq!["content"@])->0;
    let ghost mk = html::document_attributes(page@, "meta[name='keywords']"@, seq!["content"@])->0;
    let title: Option<Vec<char>> = if titles.len() > 0 {
        let joined = join_strings(&titles[0], " ");
        proof {
            assert(html::views2(titles@)[0] == titles@[0]@.map_values(|s: String| s@));
        }
        Some(trim_chars(&joined))
    } else {
        None
    };
    let icon = match first_icon_href(&links) {
        Some(h) => Some(resolve_icon(h, url)),
        None => None,
    };
    let description: Option<Vec<char>> = if descriptions.len() > 0 {
        assert(md[0][0] == html::opt_view(descriptions@[0]@[0]));
        opt_chars(&descriptions[0][0])
    } else {
        None
    };
    let keyword: Option<Vec<char>> = if keywords.len() > 0 {
        assert(mk[0][0] == html::opt_view(keywords@[0]@[0]));
        opt_chars(&keywords[0][0])
    } else {
        None
    };
    let mut time: Vec<char> = Vec::new();
    push_decimal_u128(&mut time, millis);
    let time = concat_str(&time, "ms");
    let mut entries: Vec<(String, JsonValue)> = Vec::new();
    entries.push(("title".to_owned(), JsonValue::string("网站信息查询")));
    entries.push(("website_code".to_owned(), JsonValue::UInt(code as u64)));
    entries.push(("website_title".to_owned(), opt_value(title)));
    entries.push(("website_icon".to_owned(), opt_value(icon)));
    entries.push(("website_description".to_owned(), opt_value(description)));
    entries.push(("website_keywords".to_owned(), opt_value(keyword)));
    entries.push(("process_time".to_owned(), JsonValue::from_chars(&time)));
    let r = JsonValue::Object(entries);
    proof {
        lemma_object_model(entries);
        assert(r@->Object_0 =~= website_reading(url@, code, page@, millis)->0->Object_0);
    }
    Some(r)
}

/// A site that did not answer with a success is answered with its status only.
pub proof fn law_unavailable_members(code: u16)
    ensures
        unavailable_json(code).field("title"@) == Json::Str("网站信息查询"@),
        unavailable_json(code).field("website_code"@) == Json::UInt(code as u64),
{
    reveal_strlit("title");
    reveal_strlit("website_code");
    reveal_with_fuel(crate::json::lookup, 3);
    assert("title"@.len() == 5);
    assert("website_code"@.len() == 12);
}

/// The website answer gives the status, each text found (null where none was), and
/// the time taken as a number of milliseconds followed by "ms".
pub proof fn law_website_members(code: u16, title: Option<Seq<char>>, icon: Option<Seq<char>>, description: Option<Seq<char>>, keywords: Option<Seq<char>>, millis: u128)
    ensures
        website_json(code, title, icon, description, keywords, millis).field("title"@) == Json::Str("网站信息查询"@),
        website_json(code, title, icon, description, keywords, millis).field("website_code"@) == Json::UInt(code as u64),
        website_json(code, title, icon, description, keywords, millis).field("website_title"@) == match title { Some(t) => Json::Str(t), None => Json::Null },
        website_json(code, title, icon, description, keywords, millis).field("website_icon"@) == match icon { Some(t) => Json::Str(t), None => Json::Null },
        website_json(code, title, icon, description, keywords, millis).field("website_description"@) == match description { Some(t) => Json::Str(t), None => Json::Null },
        website_json(code, title, icon, description, keywords, millis).field("website_keywords"@) == match keywords { Some(t) => Json::Str(t), None => Json::Null },
        website_json(code, title, icon, description, keywords, millis).field("process_time"@) == Json::Str(text::decimal(millis as nat) + "ms"@),
{
    reveal_strlit("title");
    reveal_strlit("website_code");
    reveal_strlit("website_title");
    reveal_strlit("website_icon");
    reveal_strlit("website_description");
    reveal_strlit("website_keywords");
    reveal_strlit("process_time");
    reveal_with_fuel(crate::json::lookup, 8);
    assert("title"@.len() == 5);
    assert("website_code"@.len() == 12);
    assert("website_title"@.len() == 13);
    assert("website_icon"@.len() == 12);
    assert("website_description"@.len() == 19);
    assert("website_keywords"@.len() == 16);
    assert("process_time"@.len() == 12);
    assert("website_code"@[8] == 'c' && "website_icon"@[8] == 'i');
    assert("website_code"@[0] == 'w' && "process_time"@[0] == 'p');
    assert("website_icon"@[0] == 'w' && "process_time"@[0] == 'p');
}

/// The icon is the `href` of the first `link` whose `rel` contains "icon" and that has
/// an `href`: no earlier link is such a link, and there is none when no link is.
pub proof fn law_icon_href(links: Seq<Seq<Option<Seq<char>>>>)
    ensures
        icon_href(links) is None <==> forall|i: int| 0 <= i < links.len() ==> !(#[trigger] links[i][0] is Some
            && text::contains(links[i][0]->0, "icon"@) && links[i][1] is Some),
        icon_href(links) is Some ==> exists|i: int| 0 <= i < links.len() && #[trigger] links[i][0] is Some
            && text::contains(links[i][0]->0, "icon"@) && links[i][1] == icon_href(links)
            && forall|j: int| 0 <= j < i ==> !(#[trigger] links[j][0] is Some
                && text::contains(links[j][0]->0, "icon"@) && links[j][1] is Some),
    decreases links.len(),
{
    if links.len() > 0 {
        let rest = links.drop_first();
        law_icon_href(rest);
        if !(links[0][0] is Some && text::contains(links[0][0]->0, "icon"@) && links[0][1] is Some) {
            assert forall|i: int| 0 <= i < rest.len() implies #[trigger] rest[i] == links[i + 1] by {}
            if icon_href(rest) is Some {
                let k = choose|i: int| 0 <= i < rest.len() && #[trigger] rest[i][0] is Some
                    && text::contains(rest[i][0]->0, "icon"@) && rest[i][1] == icon_href(rest)
                    && forall|j: int| 0 <= j < i ==> !(#[trigger] rest[j][0] is Some
                        && text::contains(rest[j][0]->0, "icon"@) && rest[j][1] is Some);
                assert(links[k + 1] == rest[k]);
                assert forall|j: int| 0 <= j < k + 1 implies !(#[trigger] links[j][0] is Some
                    && text::contains(links[j][0]->0, "icon"@) && links[j][1] is Some) by {
                    if j > 0 {
                        assert(links[j] == rest[j - 1]);
                    }
                }
            } else {
                assert forall|i: int| 0 <= i < links.len() implies !(#[trigger] links[i][0] is Some
                    && text::contains(links[i][0]->0, "icon"@) && links[i][1] is Some) by {
                    if i > 0 {
                        assert(links[i] == rest[i - 1]);
                    }
                }
            }
        }
    }
}

/// The title is the text nodes of the first `title` element joined by single spaces
/// and trimmed; the description and keywords are the first matching element's value.
pub proof fn law_page_texts(elements: Seq<Seq<Seq<char>>>, attrs: Seq<Seq<Option<Seq<char>>>>)
    ensures
        elements.len() > 0 ==> page_title(elements) == Some(text::trim(text::join(elements[0], " "@))),
        elements.len() == 0 ==> page_title(elements) is None,
        attrs.len() > 0 ==> first_attribute(attrs) == attrs[0][0],
        attrs.len() == 0 ==> first_attribute(attrs) is None,
{
}

} // verus!
