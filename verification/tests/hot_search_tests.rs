use rust_api::json::JsonValue;
use rust_api::api::hot_search::{
    QueryParams, Platform, platform_of, resolve_query, round_to_str, hot_entry, douyin_list, toutiao_words_of,
    toutiao_list, baidu_items_of, baidu_list, data_items_of, titled_list, kuaishou_script, apollo_json_text,
    kuaishou_items_of, kuaishou_resolvable_all, kuaishou_list, hot_source, hot_search_data,
};

fn s(t: &str) -> JsonValue {
    JsonValue::Str(t.to_string())
}

fn obj(entries: Vec<(&str, JsonValue)>) -> JsonValue {
    JsonValue::Object(entries.into_iter().map(|(k, v)| (k.to_string(), v)).collect())
}

fn arr(items: Vec<JsonValue>) -> JsonValue {
    JsonValue::Array(items)
}

#[test]
fn rounding_of_counts() {
    assert_eq!(round_to_str(0), "0");
    assert_eq!(round_to_str(999), "999");
    assert_eq!(round_to_str(1000), "1 千");
    assert_eq!(round_to_str(1499), "1 千");
    assert_eq!(round_to_str(1500), "2 千");
    assert_eq!(round_to_str(9999), "10 千");
    assert_eq!(round_to_str(10000), "1 万");
    assert_eq!(round_to_str(12345), "1 万");
    assert_eq!(round_to_str(15000), "2 万");
    assert_eq!(round_to_str(9999500), "1000 万");
    assert_eq!(round_to_str(4936278), "494 万");
}

#[test]
fn rounding_is_to_the_nearest_unit() {
    for v in [10000u64, 14999, 15000, 123456, 987654321] {
        let shown = round_to_str(v);
        let k: u64 = shown.trim_end_matches(" 万").parse().unwrap();
        assert!(k * 10000 <= v + 5000 && v + 5000 < k * 10000 + 10000);
    }
    for v in [1000u64, 1499, 1500, 9499, 9500] {
        let shown = round_to_str(v);
        let k: u64 = shown.trim_end_matches(" 千").parse().unwrap();
        assert!(k * 1000 <= v + 500 && v + 500 < k * 1000 + 1000);
    }
}

#[test]
fn platforms_by_name() {
    assert_eq!(platform_of("抖音"), Some(Platform::Douyin));
    assert_eq!(platform_of("douyin"), Some(Platform::Douyin));
    assert_eq!(platform_of("快手"), Some(Platform::Kuaishou));
    assert_eq!(platform_of("toutiao"), Some(Platform::Toutiao));
    assert_eq!(platform_of("百度"), Some(Platform::Baidu));
    assert_eq!(platform_of("weibo"), Some(Platform::Weibo));
    assert_eq!(platform_of("B站"), Some(Platform::Bilibili));
    assert_eq!(platform_of("哔哩哔哩"), Some(Platform::Bilibili));
    assert_eq!(platform_of("DouYin"), None);
    assert_eq!(platform_of("tiktok"), None);
}

#[test]
fn query_is_lowercased() {
    let (q, p) = resolve_query(&QueryParams { q: "DouYin".to_string() });
    assert_eq!(q, "douyin");
    assert_eq!(p, Some(Platform::Douyin));
    let (q, p) = resolve_query(&QueryParams { q: "B站".to_string() });
    assert_eq!(q, "b站");
    assert_eq!(p, Some(Platform::Bilibili));
    let (_, p) = resolve_query(&QueryParams { q: "nothing".to_string() });
    assert_eq!(p, None);
}

#[test]
fn one_entry_line() {
    assert_eq!(hot_entry(0, "标题", "1 万"), "1、标题 (热度:1 万)");
    assert_eq!(hot_entry(9, "t", "置顶"), "10、t (热度:置顶)");
}

#[test]
fn douyin_lines() {
    let res = obj(vec![(
        "data",
        obj(vec![(
            "word_list",
            arr(vec![
                obj(vec![("word", s("第一")), ("hot_value", JsonValue::UInt(12345678))]),
                obj(vec![("word", s("第二")), ("hot_value", JsonValue::UInt(999))]),
            ]),
        )]),
    )]);
    let list = douyin_list(&res).unwrap();
    assert_eq!(list, vec!["1、第一 (热度:1235 万)".to_string(), "2、第二 (热度:999)".to_string()]);
}

#[test]
fn douyin_missing_parts() {
    assert!(douyin_list(&obj(vec![])).is_none());
    let res = obj(vec![("data", obj(vec![("word_list", arr(vec![obj(vec![("word", s("x"))])]))]))]);
    assert!(douyin_list(&res).is_none());
    let res = obj(vec![(
        "data",
        obj(vec![("word_list", arr(vec![obj(vec![("word", s("x")), ("hot_value", s("12"))])]))]),
    )]);
    assert!(douyin_list(&res).is_none());
    let empty = obj(vec![("data", obj(vec![("word_list", arr(vec![]))]))]);
    assert_eq!(douyin_list(&empty).unwrap().len(), 0);
}

#[test]
fn toutiao_lines() {
    let res = obj(vec![(
        "data",
        arr(vec![obj(vec![(
            "words",
            arr(vec![obj(vec![
                ("word", s("新闻")),
                ("params", obj(vec![("fake_click_cnt", JsonValue::UInt(2500))])),
            ])]),
        )])]),
    )]);
    let words = toutiao_words_of(&res).unwrap();
    let items = match words {
        JsonValue::Array(items) => items,
        _ => panic!("not an array"),
    };
    assert_eq!(toutiao_list(items).unwrap(), vec!["1、新闻 (热度:3 千)".to_string()]);
    let bad = vec![obj(vec![("word", s("x"))])];
    assert!(toutiao_list(&bad).is_none());
    assert!(toutiao_words_of(&obj(vec![("data", arr(vec![]))])).is_none());
}

#[test]
fn baidu_lines() {
    let res = obj(vec![(
        "data",
        obj(vec![(
            "cards",
            arr(vec![obj(vec![(
                "content",
                arr(vec![
                    obj(vec![("query", s("百度一下")), ("hotScore", s("4936278"))]),
                    obj(vec![("hotScore", s("abc"))]),
                    obj(vec![("query", s("数字")), ("hotScore", JsonValue::UInt(20000))]),
                ]),
            )])]),
        )]),
    )]);
    let items = baidu_items_of(&res).unwrap();
    assert_eq!(
        baidu_list(items),
        vec!["1、百度一下 (热度:494 万)".to_string(), "2、未知 (热度:0)".to_string(), "3、数字 (热度:0)".to_string()]
    );
    assert!(baidu_items_of(&obj(vec![])).is_none());
}

#[test]
fn weibo_and_bilibili_lines() {
    let weibo = obj(vec![(
        "data",
        obj(vec![(
            "realtime",
            arr(vec![
                obj(vec![("word", s("热点")), ("num", JsonValue::UInt(1500))]),
                obj(vec![("word", s("文本")), ("num", s("25000"))]),
                obj(vec![("num", s("x"))]),
            ]),
        )]),
    )]);
    let items = data_items_of(&weibo, "realtime").unwrap();
    assert_eq!(
        titled_list(items, "word", "num"),
        vec!["1、热点 (热度:2 千)".to_string(), "2、文本 (热度:3 万)".to_string(), "3、未知 (热度:0)".to_string()]
    );
    let bili = obj(vec![("data", obj(vec![("list", arr(vec![obj(vec![("keyword", s("番剧")), ("hot_id", JsonValue::UInt(42))])]))]))]);
    let items = data_items_of(&bili, "list").unwrap();
    assert_eq!(titled_list(items, "keyword", "hot_id"), vec!["1、番剧 (热度:42)".to_string()]);
    assert!(data_items_of(&bili, "realtime").is_none());
}

#[test]
fn kuaishou_script_and_state_text() {
    let page = "<html><head><script>var a = 1;</script><script>window.__APOLLO_STATE__={\"defaultClient\":{}};(function(){})</script></head></html>";
    let script = kuaishou_script(page).unwrap();
    assert!(script.contains("__APOLLO_STATE__"));
    assert_eq!(apollo_json_text(&script), "{\"defaultClient\":{}}");
    assert_eq!(apollo_json_text("window.__APOLLO_STATE__= {\"a\":1},, ;(function(){x})"), "{\"a\":1}");
    assert_eq!(
        apollo_json_text("window.__APOLLO_STATE__={};(function(){x});(function(){y})"),
        "{};(function(){x})"
    );
    assert_eq!(apollo_json_text("no state here"), "");
    assert!(kuaishou_script("<script>nothing</script>").is_none());
}

#[test]
fn kuaishou_lines() {
    let key = "$ROOT_QUERY.visionHotRank({\"page\":\"brilliant\"})";
    let state = obj(vec![(
        "defaultClient",
        obj(vec![
            (key, obj(vec![("items", arr(vec![obj(vec![("id", s("A"))]), obj(vec![("id", s("B"))])]))])),
            ("A", obj(vec![("name", s("快手一")), ("hotValue", s("123万"))])),
            ("B", obj(vec![("name", s("快手二"))])),
        ]),
    )]);
    let items = kuaishou_items_of(&state).unwrap();
    assert!(kuaishou_resolvable_all(&state, items));
    assert_eq!(
        kuaishou_list(&state, items),
        vec!["1、快手一 (热度:123万)".to_string(), "2、快手二 (热度:置顶)".to_string()]
    );
    let missing = vec![obj(vec![("id", s("C"))])];
    assert!(!kuaishou_resolvable_all(&state, &missing));
    assert!(kuaishou_items_of(&obj(vec![])).is_none());
}

#[test]
fn sources_of_each_platform() {
    let d = hot_source(Platform::Douyin);
    assert_eq!(d.url, "https://www.douyin.com/aweme/v1/web/hot/search/list");
    assert_eq!(d.header, Some(("referer".to_string(), "https://www.douyin.com/hot".to_string())));
    assert_eq!(hot_source(Platform::Kuaishou).header, Some(("host".to_string(), "www.kuaishou.com".to_string())));
    assert_eq!(hot_source(Platform::Weibo).header, None);
    assert_eq!(hot_source(Platform::Baidu).url, "https://top.baidu.com/api/board?platform=pc&tab=realtime");
    assert_eq!(hot_source(Platform::Weibo).url, "https://weibo.com/ajax/side/hotSearch");
    assert_eq!(hot_source(Platform::Bilibili).url, "https://app.bilibili.com/x/v2/search/trending/ranking?limit=50");
    assert_eq!(hot_source(Platform::Toutiao).url, "https://is-lq.snssdk.com/api/suggest_words/?business_id=10016");
    assert_eq!(hot_source(Platform::Kuaishou).url, "https://www.kuaishou.com/brilliant");
}

#[test]
fn trending_answer() {
    let data = hot_search_data("douyin", &vec!["1、a (热度:1)".to_string()]);
    match data {
        JsonValue::Object(entries) => {
            assert_eq!(entries.len(), 3);
            assert_eq!(entries[0].0, "title");
            assert!(matches!(&entries[0].1, JsonValue::Str(t) if t == "热搜榜单"));
            assert_eq!(entries[1].0, "name");
            assert!(matches!(&entries[1].1, JsonValue::Str(t) if t == "douyin"));
            assert_eq!(entries[2].0, "list");
            assert!(matches!(&entries[2].1, JsonValue::Array(l) if l.len() == 1));
        },
        _ => panic!("not an object"),
    }
}

#[test]
fn rounding_never_shrinks_within_a_unit() {
    fn figure(v: u64) -> u64 {
        round_to_str(v).split(' ').next().unwrap().parse().unwrap()
    }
    let wan = [10000u64, 14999, 15000, 15001, 99999, 100000, 4936278, 9999499, 9999500];
    for w in wan.windows(2) {
        assert!(figure(w[0]) <= figure(w[1]));
    }
    let qian = [1000u64, 1499, 1500, 2499, 2500, 9499, 9500, 9999];
    for w in qian.windows(2) {
        assert!(figure(w[0]) <= figure(w[1]));
    }
}
