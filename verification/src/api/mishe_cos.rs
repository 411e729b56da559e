//! Cosplay posts of the Miyoushe forum.
use vstd::prelude::*;
use crate::json::{Json, JsonValue, lemma_object_model, lemma_array_model};
use crate::response::{JsonResponse, message_for};

verus! {

/// The query of the forum endpoint: which list is asked for.
pub struct QueryParams {
    pub top: Option<bool>,
    pub new: Option<bool>,
    pub posts: Option<bool>,
}

/// The request made to the forum: an address and its query pairs.
pub struct MisheRequest {
    pub url: String,
    pub query: Vec<(String, String)>,
}

/// The views of a list of query pairs.
pub open spec fn pair_views(v: Seq<(String, String)>) -> Seq<(Seq<char>, Seq<char>)> {
    v.map_values(|p: (String, String)| (p.0@, p.1@))
}

/// The list a query asks for: the top posts first, then the newest, then the feed.
pub open spec fn mishe_request_of(top: Option<bool>, new: Option<bool>, posts: Option<bool>) -> Option<(Seq<char>, Seq<(Seq<char>, Seq<char>)>)> {
    if top == Some(true) {
        Some((
            "https://bbs-api.miyoushe.com/post/wapi/getImagePostTopN"@,
            seq![("forum_id"@, "49"@), ("gids"@, "1"@)],
        ))
    } else if new == Some(true) {
        Some((
            "https://bbs-api.miyoushe.com/post/wapi/getForumPostList"@,
            seq![
                ("forum_id"@, "49"@),
                ("gids"@, "2"@),
                ("is_good"@, "false"@),
                ("is_hot"@, "false"@),
                ("page_size"@, "20"@),
                ("sort_type"@, "2"@),
            ],
        ))
    } else if posts == Some(true) {
        Some((
            "https://bbs-api.mihoyo.com/post/api/feeds/posts?fresh_action=1&gids=2&last_id="@,
            seq![("fresh_action"@, "1"@), ("gids"@, "2"@), ("last_id"@, ""@)],
        ))
    } else {
        None
    }
}

fn pair(k: &str, v: &str) -> (r: (String, String))
    ensures
        r.0@ == k@,
        r.1@ == v@,
{
    (k.to_owned(), v.to_owned())
}

/// The request for the list the query asks for; `None` is answered with [`mishe_bad_request`].
pub fn mishe_request(params: &QueryParams) -> (r: Option<MisheRequest>)
    ensures
        match mishe_request_of(params.top, params.new, params.posts) {
            Some((url, query)) => r matches Some(req) && req.url@ == url && pair_views(req.query@) == query,
            None => r is None,
        },
{
    let (url, query): (&str, Vec<(String, String)>) = if params.top == Some(true) {
        ("https://bbs-api.miyoushe.com/post/wapi/getImagePostTopN", vec![pair("forum_id", "49"), pair("gids", "1")])
    } else if params.new == Some(true) {
        (
            "https://bbs-api.miyoushe.com/post/wapi/getForumPostList",
            vec![
                pair("forum_id", "49"),
                pair("gids", "2"),
                pair("is_good", "false"),
                pair("is_hot", "false"),
                pair("page_size", "20"),
                pair("sort_type", "2"),
            ],
        )
    } else if params.posts == Some(true) {
        (
            "https://bbs-api.mihoyo.com/post/api/feeds/posts?fresh_action=1&gids=2&last_id=",
            vec![pair("fresh_action", "1"), pair("gids", "2"), pair("last_id", "")],
        )
    } else {
        return None;
    };
    proof {
        let (_, want) = mishe_request_of(params.top, params.new, params.posts)->0;
        assert(pair_views(query@) =~= want);
    }
    Some(MisheRequest { url: url.to_owned(), query })
}

/// The answer to a query that asks for no list: 400, "请检查参数是否正确!".
pub fn mishe_bad_request() -> (r: JsonResponse)
    ensures
        r.code == 400,
        r.message@ == message_for(400),
        r.message@ == "Bad Request"@,
        r.data is None,
        r.detail matches Some(d) && d@ == Json::Str("请检查参数是否正确!"@),
{
    JsonResponse::error(400, Some(JsonValue::string("请检查参数是否正确!")))
}

/// The `url` members of a post's pictures, in order, skipping pictures without one.
pub open spec fn image_urls(images: Seq<Json>) -> Seq<Json>
    decreases images.len(),
{
    if images.len() == 0 {
        seq![]
    } else {
        image_urls(images.drop_last()) + match images.last().get("url"@) {
            Some(u) => seq![u],
            None => seq![],
        }
    }
}

/// One post as the endpoint shows it.
pub open spec fn post_json(item: Json) -> Json {
    Json::Object(seq![
        ("title"@, item.field("post"@).field("subject"@)),
        ("coser"@, item.field("user"@).field("nickname"@)),
        ("images"@, Json::Array(match item.field("image_list"@).as_array() {
            Some(images) => image_urls(images),
            None => seq![],
        })),
    ])
}

/// The answer of the forum endpoint: the posts of `data.list`, if it is a list.
pub open spec fn mishe_json(res: Json) -> Json {
    Json::Object(seq![
        ("title"@, Json::Str("米社cos"@)),
        ("list"@, Json::Array(match res.field("data"@).field("list"@).as_array() {
            Some(items) => items.map_values(|x: Json| post_json(x)),
            None => seq![],
        })),
    ])
}

fn post_value(item: &JsonValue) -> (r: JsonValue)
    ensures
        r@ == post_json(item@),
{
    let mut images: Vec<JsonValue> = Vec::new();
    let ghost src = item@.field("image_list"@).as_array();
    let list = match item.get("image_list") {
        Some(l) => l.as_array(),
        None => None,
    };
    assert(list is Some <==> src is Some);
    match list {
        Some(imgs) => {
            let ghost m = src->0;
            let n = imgs.len();
            for i in 0..n
                invariant
                    n == imgs@.len(),
                    m.len() == n,
                    forall|j: int| 0 <= j < n ==> #[trigger] m[j] == imgs@[j]@,
                    images@.map_values(|v: JsonValue| v@) == image_urls(m.take(i as int)),
            {
                let ghost before = images@.map_values(|v: JsonValue| v@);
                assert(m.take(i + 1).drop_last() == m.take(i as int));
                assert(m.take(i + 1).last() == imgs@[i as int]@);
                match imgs[i].get("url") {
                    Some(u) => {
                        images.push(u.deep_clone());
                        assert(images@.map_values(|v: JsonValue| v@) =~= before + seq![u@]);
                    },
                    None => {
                        assert(images@.map_values(|v: JsonValue| v@) =~= before + seq![]);
                    },
                }
            }
            assert(m.take(n as int) == m);
        },
        None => {},
    }
    let ghost im = images@.map_values(|v: JsonValue| v@);
    let iv = JsonValue::Array(images);
    proof {
        lemma_array_model(images);
        assert(iv@->Array_0 =~= im);
    }
    let mut entries: Vec<(String, JsonValue)> = Vec::new();
    let title = match item.get("post") {
        Some(p) => p.field_value("subject"),
        None => JsonValue::Null,
    };
    let coser = match item.get("user") {
        Some(u) => u.field_value("nickname"),
        None => JsonValue::Null,
    };
    entries.push(("title".to_owned(), title));
    entries.push(("coser".to_owned(), coser));
    entries.push(("images".to_owned(), iv));
    let r = JsonValue::Object(entries);
    proof {
        lemma_object_model(entries);
        assert(title@ == item@.field("post"@).field("subject"@));
        assert(coser@ == item@.field("user"@).field("nickname"@));
        assert(im == match item@.field("image_list"@).as_array() {
            Some(images) => image_urls(images),
            None => seq![],
        });
        assert(r@->Object_0 =~= post_json(item@)->Object_0);
    }
    r
}

/// Builds the answer of the forum endpoint.
pub fn mishe_data(res: &JsonValue) -> (r: JsonValue)
    ensures
        r@ == mishe_json(res@),
{
    let ghost src = res@.field("data"@).field("list"@).as_array();
    let found = match res.get("data") {
        Some(d) => match d.get("list") {
            Some(l) => l.as_array(),
            None => None,
        },
        None => None,
    };
    let mut list: Vec<JsonValue> = Vec::new();
    match found {
        Some(items) => {
            let n = items.len();
            for i in 0..n
                invariant
                    n == items@.len(),
                    list@.len() == i,
                    forall|j: int| 0 <= j < i ==> #[trigger] list@[j]@ == post_json(items@[j]@),
            {
                list.push(post_value(&items[i]));
            }
        },
        None => {},
    }
    let lv = JsonValue::Array(list);
    proof {
        lemma_array_model(list);
        let want = mishe_json(res@)->Object_0[1].1->Array_0;
        assert(lv@->Array_0 =~= want);
    }
    let mut entries: Vec<(String, JsonValue)> = Vec::new();
    entries.push(("title".to_owned(), JsonValue::string("米社cos")));
    entries.push(("list".to_owned(), lv));
    let r = JsonValue::Object(entries);
    proof {
        lemma_object_model(entries);
        assert(r@->Object_0 =~= mishe_json(res@)->Object_0);
    }
    r
}

/// Each post of the forum answer carries the post's subject as its title and the
/// poster's nickname as its coser.
pub proof fn law_post_members(item: Json)
    ensures
        post_json(item).field("title"@) == item.field("post"@).field("subject"@),
        post_json(item).field("coser"@) == item.field("user"@).field("nickname"@),
        post_json(item).field("images"@) == Json::Array(match item.field("image_list"@).as_array() { Some(images) => image_urls(images), None => seq![] }),
{
    reveal_strlit("title");
    reveal_strlit("coser");
    reveal_strlit("images");
    reveal_with_fuel(crate::json::lookup, 4);
    assert("title"@.len() == 5);
    assert("coser"@.len() == 5);
    assert("images"@.len() == 6);
    assert("title"@[0] == 't' && "coser"@[0] == 'c');
}

/// The forum answer lists one entry per post of the service's `data.list`, in order,
/// and none when there is no such list.
pub proof fn law_mishe_members(res: Json)
    ensures
        mishe_json(res).field("title"@) == Json::Str("米社cos"@),
        mishe_json(res).field("list"@) == Json::Array(match res.field("data"@).field("list"@).as_array() { Some(items) => Seq::new(items.len(), |i: int| post_json(items[i])), None => seq![] }),
{
    if let Some(items) = res.field("data"@).field("list"@).as_array() {
        assert(items.map_values(|x: Json| post_json(x)) =~= Seq::new(items.len(), |i: int| post_json(items[i])));
    }
    reveal_strlit("title");
    reveal_strlit("list");
    reveal_with_fuel(crate::json::lookup, 3);
    assert("title"@.len() == 5);
    assert("list"@.len() == 4);
}

/// The request follows the first of `top`, `new` and `posts` that is true: the top
/// image posts of forum 49 (gids 1); the newest posts of forum 49 (gids 2, neither
/// good nor hot, 20 a page, sort type 2); or the feed of gids 2. None true asks for
/// nothing.
pub proof fn law_mishe_request(top: Option<bool>, new: Option<bool>, posts: Option<bool>)
    ensures
        top == Some(true) ==> mishe_request_of(top, new, posts) == Some((
            "https://bbs-api.miyoushe.com/post/wapi/getImagePostTopN"@,
            seq![("forum_id"@, "49"@), ("gids"@, "1"@)],
        )),
        top != Some(true) && new == Some(true) ==> mishe_request_of(top, new, posts) == Some((
            "https://bbs-api.miyoushe.com/post/wapi/getForumPostList"@,
            seq![("forum_id"@, "49"@), ("gids"@, "2"@), ("is_good"@, "false"@), ("is_hot"@, "false"@),
                ("page_size"@, "20"@), ("sort_type"@, "2"@)],
        )),
        top != Some(true) && new != Some(true) && posts == Some(true) ==> mishe_request_of(top, new, posts) == Some((
            "https://bbs-api.mihoyo.com/post/api/feeds/posts?fresh_action=1&gids=2&last_id="@,
            seq![("fresh_action"@, "1"@), ("gids"@, "2"@), ("last_id"@, ""@)],
        )),
        mishe_request_of(top, new, posts) is None <==> (top != Some(true) && new != Some(true) && posts != Some(true)),
{
}

} // verus!
