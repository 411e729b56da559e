//! Where an IP address is.
use vstd::prelude::*;
use crate::json::{Json, JsonValue, lemma_object_model};
use crate::text::{chars_of, string_of, concat_str};

verus! {

/// The query of the IP endpoint.
pub struct QueryParams {
    pub ip: Option<String>,
}

/// The address asked about: the one in the query, else the one the
/// `X-Forwarded-For` header gives; the endpoint cannot go on without one.
pub fn client_ip(params: &QueryParams, forwarded_for: Option<&str>) -> (r: Option<String>)
    ensures
        params.ip matches Some(ip) ==> (r matches Some(s) && s@ == ip@),
        params.ip is None ==> (r is None <==> forwarded_for is None),
        params.ip is None ==> (forwarded_for matches Some(f) ==> (r matches Some(s) && s@ == f@)),
{
    match &params.ip {
        Some(ip) => Some(ip.clone()),
        None => match forwarded_for {
            Some(f) => Some(f.to_owned()),
            None => None,
        },
    }
}

/// The address of the lookup service for `ip`.
pub open spec fn ip_lookup_url_of(ip: Seq<char>) -> Seq<char> {
    "http://opendata.baidu.com/api.php?query="@ + ip
        + "&co=&resource_id=6006&t=1433920989928&ie=utf8&oe=utf-8&format=json"@
}

/// The address of the lookup service for `ip`.
pub fn ip_lookup_url(ip: &str) -> (r: String)
    ensures
        r@ == ip_lookup_url_of(ip@),
{
    let a = concat_str(&chars_of("http://opendata.baidu.com/api.php?query="), ip);
    let b = concat_str(&a, "&co=&resource_id=6006&t=1433920989928&ie=utf8&oe=utf-8&format=json");
    string_of(&b)
}

/// The answer of the IP endpoint.
pub open spec fn ip_json(ip: Seq<char>, res: Json, user_agent: Option<Seq<char>>) -> Json {
    Json::Object(seq![
        ("title"@, Json::Str("IP查询"@)),
        ("ip"@, Json::Str(ip)),
        ("location"@, res.field("data"@).item(0).field("location"@)),
        ("user_agent"@, match user_agent {
            Some(u) => Json::Str(u),
            None => Json::Null,
        }),
    ])
}

/// Builds the answer of the IP endpoint: the address, its location and the caller's
/// user agent.
pub fn ip_data(ip: &str, res: &JsonValue, user_agent: Option<&str>) -> (r: JsonValue)
    ensures
        r@ == ip_json(ip@, res@, match user_agent { Some(u) => Some(u@), None => None }),
{
    let location = match res.get("data") {
        Some(d) => match d.at(0) {
            Some(first) => first.field_value("location"),
            None => JsonValue::Null,
        },
        None => JsonValue::Null,
    };
    let agent = match user_agent {
        Some(u) => JsonValue::string(u),
        None => JsonValue::Null,
    };
    let mut entries: Vec<(String, JsonValue)> = Vec::new();
    entries.push(("title".to_owned(), JsonValue::string("IP查询")));
    entries.push(("ip".to_owned(), JsonValue::string(ip)));
    entries.push(("location".to_owned(), location));
    entries.push(("user_agent".to_owned(), agent));
    let r = JsonValue::Object(entries);
    proof {
        lemma_object_model(entries);
        assert(r@->Object_0 =~= ip_json(ip@, res@, match user_agent { Some(u) => Some(u@), None => None })->Object_0);
    }
    r
}

/// The IP answer gives the address asked about, the location of the first record of
/// the lookup's data, and the caller's user agent (null when it sent none).
pub proof fn law_ip_members(ip: Seq<char>, res: Json, user_agent: Option<Seq<char>>)
    ensures
        ip_json(ip, res, user_agent).field("title"@) == Json::Str("IP查询"@),
        ip_json(ip, res, user_agent).field("ip"@) == Json::Str(ip),
        ip_json(ip, res, user_agent).field("location"@) == res.field("data"@).item(0).field("location"@),
        ip_json(ip, res, user_agent).field("user_agent"@) == match user_agent { Some(u) => Json::Str(u), None => Json::Null },
{
    reveal_strlit("title");
    reveal_strlit("ip");
    reveal_strlit("location");
    reveal_strlit("user_agent");
    reveal_with_fuel(crate::json::lookup, 5);
    assert("title"@.len() == 5);
    assert("ip"@.len() == 2);
    assert("location"@.len() == 8);
    assert("user_agent"@.len() == 10);
}

/// The address to look up is passed as `query` to Baidu's open-data service, which
/// answers in JSON.
pub proof fn law_ip_lookup_url(ip: Seq<char>)
    ensures
        ip_lookup_url_of(ip) == "http://opendata.baidu.com/api.php?query="@ + ip
            + "&co=&resource_id=6006&t=1433920989928&ie=utf8&oe=utf-8&format=json"@,
{
}

} // verus!
