use rust_api::json::JsonValue;
use rust_api::api::weather::{
    remove_suffix, parse_weather, build_city_table, find_city_id, weather_page_url, weather_data, CITY_LIST_URL,
    CITY_TABLE_CACHE_KEY,
};
use rust_api::api::encryption::{
    QueryParams as HashQuery, HashKind, chosen_hash, hash_hex, to_lower_hex, encryption_data, encryption_answer,
    NO_METHOD_TEXT,
};
use rust_api::api::website_info::{is_success_status, unavailable_data, website_data};
use rust_api::api::changgya::{next_data_of, first_piece_of, audio_url_of, changgya_data, CHANGYA_PAGE_URL};
use rust_api::api::cos::{QueryParams as CosQuery, CosKind, cos_kind, cos_cache_key, pick_cos_id, cos_url, cos_data, cos_bad_request};
use rust_api::api::mishe_cos::{QueryParams as MisheQuery, mishe_request, mishe_bad_request, mishe_data};
use rust_api::api::ip::{QueryParams as IpQuery, client_ip, ip_lookup_url, ip_data};
use rust_api::api::qrcode::{QueryParams as QrQuery, qrcode_url, qrcode_image_url_of, QRCODE_CONTENT_TYPE};
use rust_api::api::fanyi::{QueryParams as FanyiQuery, fanyi_url, fanyi_data};
use rust_api::api::bing::{bing_image_path_of, bing_data, BING_ARCHIVE_URL};
use rust_api::api::ys_kaci::{pool_items_of, ys_kaci_data, GACHA_POOL_URL};
use rust_api::api::everyday_60s::{news_urls, news_data, news_step, NewsStep};
use rust_api::api::yiyan::yiyan;
use rust_api::response::AppError;

fn s(t: &str) -> JsonValue {
    JsonValue::Str(t.to_string())
}

fn obj(entries: Vec<(&str, JsonValue)>) -> JsonValue {
    JsonValue::Object(entries.into_iter().map(|(k, v)| (k.to_string(), v)).collect())
}

fn arr(items: Vec<JsonValue>) -> JsonValue {
    JsonValue::Array(items)
}

fn field<'a>(v: &'a JsonValue, key: &str) -> &'a JsonValue {
    match v {
        JsonValue::Object(entries) => &entries.iter().find(|(k, _)| k == key).expect("no such key").1,
        _ => panic!("not an object"),
    }
}

fn keys(v: &JsonValue) -> Vec<String> {
    match v {
        JsonValue::Object(entries) => entries.iter().map(|(k, _)| k.clone()).collect(),
        _ => panic!("not an object"),
    }
}

fn text(v: &JsonValue) -> &str {
    match v {
        JsonValue::Str(t) => t.as_str(),
        _ => panic!("not a string"),
    }
}

fn texts(v: &JsonValue) -> Vec<String> {
    match v {
        JsonValue::Array(items) => items.iter().map(|x| text(x).to_string()).collect(),
        _ => panic!("not an array"),
    }
}

#[test]
fn region_suffixes_are_removed() {
    assert_eq!(remove_suffix("北京市"), "北京");
    assert_eq!(remove_suffix("昌平区"), "昌平");
    assert_eq!(remove_suffix("延边朝鲜族自治州"), "延边朝鲜族");
    assert_eq!(remove_suffix("长白朝鲜族自治县"), "长白朝鲜族自治");
    assert_eq!(remove_suffix("市辖区"), "市辖");
    assert_eq!(remove_suffix("神农架林区"), "神农架林");
    assert_eq!(remove_suffix("北京"), "北京");
    assert_eq!(remove_suffix(""), "");
}

#[test]
fn region_name_is_one_ending_less() {
    let endings = ["市", "县", "区", "自治州", "旗", "自治县", "市辖区", "特区", "林区"];
    for name in ["上海市", "海淀区", "正蓝旗", "杭州", "x自治州"] {
        let short = remove_suffix(name);
        assert!(short == name || endings.iter().any(|e| format!("{}{}", short, e) == name));
    }
}

const FORECAST: &str = "<div class=\"days\">\
<div class=\"day\">\
<div class=\"day-item\"> 星期一 <br> 06/02 </div>\
<div class=\"day-item\"><img src=\"x.png\"></div>\
<div class=\"day-item\"> 晴 </div>\
<div class=\"day-item\">南风</div>\
<div class=\"day-item\">3级</div>\
<div class=\"bar\"><div class=\"high\">30℃</div><div class=\"low\">20℃</div></div>\
<div class=\"day-item\"></div>\
<div class=\"day-item\">多云</div>\
<div class=\"day-item\">北风</div>\
<div class=\"day-item\">2级</div>\
</div>\
<div class=\"day\"><div class=\"day-item\">星期二</div></div>\
</div>";

#[test]
fn forecast_days_are_read() {
    let days = parse_weather(FORECAST).unwrap();
    assert_eq!(days.len(), 2);
    let d = &days[0];
    assert_eq!(
        keys(d),
        vec!["date", "weather_day", "wind_day", "wind_level_day", "high_temp", "low_temp", "weather_night", "wind_level_night"]
    );
    assert_eq!(texts(field(d, "date")), vec!["星期一", "06/02"]);
    assert_eq!(text(field(d, "weather_day")), "晴");
    assert_eq!(text(field(d, "wind_day")), "南风");
    assert_eq!(text(field(d, "wind_level_day")), "3级");
    assert_eq!(text(field(d, "high_temp")), "30℃");
    assert_eq!(text(field(d, "low_temp")), "20℃");
    assert_eq!(text(field(d, "weather_night")), "多云");
    assert_eq!(text(field(d, "wind_level_night")), "2级");
    let e = &days[1];
    assert_eq!(texts(field(e, "date")), vec!["星期二"]);
    assert_eq!(text(field(e, "weather_day")), "");
    assert_eq!(text(field(e, "high_temp")), "");
    assert_eq!(text(field(e, "wind_level_night")), "");
}

#[test]
fn forecast_of_a_page_without_days() {
    assert_eq!(parse_weather("<p>nothing</p>").unwrap().len(), 0);
}

#[test]
fn city_table_and_lookup() {
    let res = obj(vec![(
        "data",
        obj(vec![(
            "city",
            arr(vec![
                arr(vec![s("54511"), s("北京"), JsonValue::UInt(1)]),
                arr(vec![s("58367")]),
                arr(vec![JsonValue::UInt(1), JsonValue::UInt(2)]),
                arr(vec![s("58362"), s("上海")]),
            ]),
        )]),
    )]);
    let table = build_city_table(&res);
    assert_eq!(table.len(), 3);
    assert_eq!(keys(&table[0]), vec!["北京"]);
    assert_eq!(keys(&table[1]).len(), 0);
    assert_eq!(find_city_id(&table, "北京"), Some("54511".to_string()));
    assert_eq!(find_city_id(&table, "上海"), Some("58362".to_string()));
    assert_eq!(find_city_id(&table, "广州"), None);
    assert_eq!(build_city_table(&obj(vec![])).len(), 0);
}

#[test]
fn weather_answer() {
    assert_eq!(weather_page_url("54511"), "https://weather.cma.cn/web/weather/54511.html");
    assert_eq!(CITY_LIST_URL, "https://weather.cma.cn/api/map/weather/1");
    assert_eq!(CITY_TABLE_CACHE_KEY, "weathersss");
    let data = weather_data("北京市", "54511", vec![obj(vec![])]);
    assert_eq!(keys(&data), vec!["title", "q", "id", "list"]);
    assert_eq!(text(field(&data, "title")), "天气查询");
    assert_eq!(text(field(&data, "q")), "北京市");
    assert_eq!(text(field(&data, "id")), "54511");
}

#[test]
fn digest_choice() {
    let q = HashQuery { md5: None, sha256: Some("a".to_string()), sha384: Some("b".to_string()), sha512: None };
    assert_eq!(chosen_hash(&q), Some((HashKind::Sha256, "a")));
    let q = HashQuery { md5: Some("m".to_string()), sha256: Some("a".to_string()), sha384: None, sha512: None };
    assert_eq!(chosen_hash(&q), Some((HashKind::Md5, "m")));
    let q = HashQuery { md5: None, sha256: None, sha384: None, sha512: Some("z".to_string()) };
    assert_eq!(chosen_hash(&q), Some((HashKind::Sha512, "z")));
    let q = HashQuery { md5: None, sha256: None, sha384: None, sha512: None };
    assert_eq!(chosen_hash(&q), None);
}

#[test]
fn digests_of_abc() {
    assert_eq!(hash_hex(HashKind::Md5, "abc"), "900150983cd24fb0d6963f7d28e17f72");
    assert_eq!(hash_hex(HashKind::Sha256, "abc"), "ba7816bf8f01cfea414140de5dae2223b00361a396177a9cb410ff61f20015ad");
    assert_eq!(
        hash_hex(HashKind::Sha384, "abc"),
        "cb00753f45a35e8bb5a03d699ac65007272c32ab0eded1631a8b605a43ff5bed8086072ba1e7cc2358baeca134c825a7"
    );
    assert_eq!(
        hash_hex(HashKind::Sha512, "abc"),
        "ddaf35a193617abacc417349ae20413112e6fa4e89a97ea20a9eeee64b55d39a2192992a274fc1a836ba3c23a3feebbd454d4423643ce80e2a9ac94fa54ca49f"
    );
    assert_eq!(hash_hex(HashKind::Md5, ""), "d41d8cd98f00b204e9800998ecf8427e");
    assert_eq!(hash_hex(HashKind::Sha256, "中文").len(), 64);
}

#[test]
fn lower_hex_reads_back() {
    let bytes = vec![0u8, 1, 15, 16, 127, 128, 171, 255];
    let h = to_lower_hex(&bytes);
    assert_eq!(h, "00010f107f80abff");
    for (j, b) in bytes.iter().enumerate() {
        assert_eq!(u8::from_str_radix(&h[2 * j..2 * j + 2], 16).unwrap(), *b);
    }
    assert!(h.chars().all(|c| c.is_ascii_digit() || ('a'..='f').contains(&c)));
}

#[test]
fn digest_answer() {
    let d = encryption_data("abc123");
    assert_eq!(keys(&d), vec!["title", "ciphertext"]);
    assert_eq!(text(field(&d, "title")), "哈希加密");
    assert_eq!(text(field(&d, "ciphertext")), "abc123");
}

#[test]
fn website_status() {
    assert!(is_success_status(200));
    assert!(is_success_status(204));
    assert!(!is_success_status(301));
    assert!(!is_success_status(404));
    assert!(!is_success_status(199));
    let d = unavailable_data(404);
    assert_eq!(keys(&d), vec!["title", "website_code"]);
    assert!(matches!(field(&d, "website_code"), JsonValue::UInt(404)));
}

const SITE: &str = "<html><head><title> Example \n Site </title>\
<link rel=\"stylesheet\" href=\"/a.css\">\
<link rel=\"shortcut icon\" href=\"/favicon.ico\">\
<link rel=\"icon\" href=\"/second.ico\">\
<meta name=\"description\" content=\"A site\">\
<meta name=\"keywords\" content=\"k1,k2\">\
</head><body></body></html>";

#[test]
fn website_reading() {
    let d = website_data("example.com/page", 200, SITE, 35).unwrap();
    assert_eq!(
        keys(&d),
        vec!["title", "website_code", "website_title", "website_icon", "website_description", "website_keywords", "process_time"]
    );
    assert_eq!(text(field(&d, "title")), "网站信息查询");
    assert!(matches!(field(&d, "website_code"), JsonValue::UInt(200)));
    assert_eq!(text(field(&d, "website_title")), "Example \n Site");
    assert_eq!(text(field(&d, "website_icon")), "example.com/favicon.ico");
    assert_eq!(text(field(&d, "website_description")), "A site");
    assert_eq!(text(field(&d, "website_keywords")), "k1,k2");
    assert_eq!(text(field(&d, "process_time")), "35ms");
}

#[test]
fn website_reading_absolute_icon_and_missing_parts() {
    let page = "<html><head><link rel=\"icon\" href=\"https://cdn.x/i.png\"></head></html>";
    let d = website_data("https://x.org", 200, page, 0).unwrap();
    assert_eq!(text(field(&d, "website_icon")), "https://cdn.x/i.png");
    assert!(matches!(field(&d, "website_title"), JsonValue::Null));
    assert!(matches!(field(&d, "website_description"), JsonValue::Null));
    assert!(matches!(field(&d, "website_keywords"), JsonValue::Null));
    assert_eq!(text(field(&d, "process_time")), "0ms");
    let d = website_data("https://x.org", 200, "<p></p>", 1).unwrap();
    assert!(matches!(field(&d, "website_icon"), JsonValue::Null));
}

#[test]
fn song_page_reading() {
    let page = "<html><body><script id=\"__NEXT_DATA__\" type=\"application/json\">{\"props\":1}</script></body></html>";
    assert_eq!(next_data_of(page).ok(), Some("{\"props\":1}".to_string()));
    match next_data_of("<html></html>") {
        Err(AppError::Anyhow(m)) => assert_eq!(m, "未找到脚本标签"),
        _ => panic!("expected the missing-script error"),
    }
    assert!(CHANGYA_PAGE_URL.starts_with("https://m.api.singduck.cn/"));
}

#[test]
fn song_piece_and_audio() {
    let piece = obj(vec![
        ("artist", s("歌手")),
        ("avatarUrl", s("https://a/b.png")),
        ("lyric", s("啦啦")),
        ("audioUrl", s("https%3A%2F%2Fa.b%2Fc%20d.mp3")),
    ]);
    let doc = obj(vec![("props", obj(vec![("pageProps", obj(vec![("pieces", arr(vec![piece]))]))]))]);
    let first = first_piece_of(&doc).ok().unwrap();
    let audio = audio_url_of(first).unwrap();
    assert_eq!(audio, "https://a.b/c d.mp3");
    let d = changgya_data(first, &audio);
    assert_eq!(keys(&d), vec!["title", "artist", "avatarUrl", "lyric", "audioUrl"]);
    assert_eq!(text(field(&d, "title")), "随机唱鸭");
    assert_eq!(text(field(&d, "artist")), "歌手");
    assert_eq!(text(field(&d, "audioUrl")), "https://a.b/c d.mp3");
    let bare = obj(vec![]);
    assert_eq!(audio_url_of(&bare), Some(String::new()));
    let d = changgya_data(&bare, "");
    assert_eq!(text(field(&d, "lyric")), "");
    assert_eq!(audio_url_of(&obj(vec![("audioUrl", s("https://a.b/歌.mp3"))])), Some("https://a.b/歌.mp3".to_string()));
    assert_eq!(audio_url_of(&obj(vec![("audioUrl", s("%FF"))])), None);
    assert_eq!(audio_url_of(&obj(vec![("audioUrl", s("100%"))])), Some("100%".to_string()));
    assert_eq!(audio_url_of(&obj(vec![("audioUrl", s("%e4%B8%ad"))])), Some("中".to_string()));
}

#[test]
fn song_piece_errors() {
    let no_list = obj(vec![("props", obj(vec![]))]);
    match first_piece_of(&no_list) {
        Err(AppError::Anyhow(m)) => assert_eq!(m, "无效的pieces格式"),
        _ => panic!("expected the bad-pieces error"),
    }
    let empty = obj(vec![("props", obj(vec![("pageProps", obj(vec![("pieces", arr(vec![]))]))]))]);
    match first_piece_of(&empty) {
        Err(AppError::Anyhow(m)) => assert_eq!(m, "空数据列表"),
        _ => panic!("expected the empty-list error"),
    }
}

#[test]
fn cos_choice_and_answer() {
    assert_eq!(cos_kind(&CosQuery { cos_image: Some(true), cos_video: None }), Some(CosKind::Image));
    assert_eq!(cos_kind(&CosQuery { cos_image: Some(true), cos_video: Some(false) }), Some(CosKind::Image));
    assert_eq!(cos_kind(&CosQuery { cos_image: None, cos_video: Some(true) }), Some(CosKind::Video));
    assert_eq!(cos_kind(&CosQuery { cos_image: Some(false), cos_video: Some(true) }), Some(CosKind::Video));
    assert_eq!(cos_kind(&CosQuery { cos_image: Some(true), cos_video: Some(true) }), None);
    assert_eq!(cos_kind(&CosQuery { cos_image: None, cos_video: None }), None);
    assert_eq!(cos_kind(&CosQuery { cos_image: Some(false), cos_video: Some(false) }), None);
    assert_eq!(cos_cache_key(CosKind::Image), "cos_image");
    assert_eq!(cos_cache_key(CosKind::Video), "cos_video");
    assert_eq!(cos_url(CosKind::Image, "x.jpg"), "https://cdn.cdnjson.com/pic.html?url=x.jpg");
    assert_eq!(cos_url(CosKind::Video, "v.mp4"), "v.mp4");
    let d = cos_data("u");
    assert_eq!(text(field(&d, "title")), "逆天cos");
    assert_eq!(text(field(&d, "url")), "u");
    let bad = cos_bad_request();
    assert_eq!(bad.code, 400);
    assert_eq!(bad.message, "Bad Request");
    assert!(matches!(bad.detail, Some(JsonValue::Str(ref t)) if t == "请检查参数是否正确!"));
}

#[test]
fn cos_random_id() {
    assert_eq!(pick_cos_id(0), None);
    assert_eq!(pick_cos_id(-5), None);
    assert_eq!(pick_cos_id(1), Some(1));
    for _ in 0..50 {
        let id = pick_cos_id(7).unwrap();
        assert!((1..=7).contains(&id));
    }
}

#[test]
fn mishe_requests() {
    let r = mishe_request(&MisheQuery { top: Some(true), new: Some(true), posts: None }).unwrap();
    assert_eq!(r.url, "https://bbs-api.miyoushe.com/post/wapi/getImagePostTopN");
    assert_eq!(r.query, vec![("forum_id".to_string(), "49".to_string()), ("gids".to_string(), "1".to_string())]);
    let r = mishe_request(&MisheQuery { top: Some(false), new: Some(true), posts: None }).unwrap();
    assert_eq!(r.url, "https://bbs-api.miyoushe.com/post/wapi/getForumPostList");
    assert_eq!(r.query.len(), 6);
    assert_eq!(r.query[5], ("sort_type".to_string(), "2".to_string()));
    let r = mishe_request(&MisheQuery { top: None, new: None, posts: Some(true) }).unwrap();
    assert_eq!(r.url, "https://bbs-api.mihoyo.com/post/api/feeds/posts?fresh_action=1&gids=2&last_id=");
    assert_eq!(r.query[2], ("last_id".to_string(), String::new()));
    assert!(mishe_request(&MisheQuery { top: None, new: Some(false), posts: None }).is_none());
    let bad = mishe_bad_request();
    assert_eq!(bad.code, 400);
    assert!(matches!(bad.detail, Some(JsonValue::Str(ref t)) if t == "请检查参数是否正确!"));
}

#[test]
fn mishe_posts() {
    let res = obj(vec![(
        "data",
        obj(vec![(
            "list",
            arr(vec![obj(vec![
                ("post", obj(vec![("subject", s("标题"))])),
                ("user", obj(vec![("nickname", s("coser"))])),
                ("image_list", arr(vec![obj(vec![("url", s("a.jpg"))]), obj(vec![]), obj(vec![("url", s("b.jpg"))])])),
            ])]),
        )]),
    )]);
    let d = mishe_data(&res);
    assert_eq!(text(field(&d, "title")), "米社cos");
    let list = match field(&d, "list") {
        JsonValue::Array(l) => l,
        _ => panic!("no list"),
    };
    assert_eq!(list.len(), 1);
    assert_eq!(text(field(&list[0], "title")), "标题");
    assert_eq!(text(field(&list[0], "coser")), "coser");
    assert_eq!(texts(field(&list[0], "images")), vec!["a.jpg", "b.jpg"]);
    let none = mishe_data(&obj(vec![]));
    assert!(matches!(field(&none, "list"), JsonValue::Array(l) if l.is_empty()));
}

#[test]
fn ip_lookup() {
    let q = IpQuery { ip: Some("1.2.3.4".to_string()) };
    assert_eq!(client_ip(&q, Some("5.6.7.8")), Some("1.2.3.4".to_string()));
    let q = IpQuery { ip: None };
    assert_eq!(client_ip(&q, Some("5.6.7.8")), Some("5.6.7.8".to_string()));
    assert_eq!(client_ip(&q, None), None);
    assert_eq!(
        ip_lookup_url("1.2.3.4"),
        "http://opendata.baidu.com/api.php?query=1.2.3.4&co=&resource_id=6006&t=1433920989928&ie=utf8&oe=utf-8&format=json"
    );
    let res = obj(vec![("data", arr(vec![obj(vec![("location", s("北京市 联通"))])]))]);
    let d = ip_data("1.2.3.4", &res, Some("curl/8"));
    assert_eq!(keys(&d), vec!["title", "ip", "location", "user_agent"]);
    assert_eq!(text(field(&d, "title")), "IP查询");
    assert_eq!(text(field(&d, "location")), "北京市 联通");
    assert_eq!(text(field(&d, "user_agent")), "curl/8");
    let d = ip_data("1.2.3.4", &obj(vec![]), None);
    assert!(matches!(field(&d, "location"), JsonValue::Null));
    assert!(matches!(field(&d, "user_agent"), JsonValue::Null));
}

#[test]
fn qrcode_request() {
    let q = QrQuery { q: "hello".to_string(), color: None, bgcolor: None, size: None };
    let url = qrcode_url(&q);
    assert!(url.starts_with("https://qrcode.hlcode.cn/beautify/style/create?bgColor=F4F4F4&bodyType=1&content=hello&"));
    assert!(url.contains("&foreColor=FF6B6B&"));
    assert!(url.ends_with("&size=400&format=1&qrCodeId=0"));
    let q = QrQuery { q: "x".to_string(), color: Some("000000".to_string()), bgcolor: Some("FFFFFF".to_string()), size: Some("200".to_string()) };
    let url = qrcode_url(&q);
    assert!(url.contains("bgColor=FFFFFF&"));
    assert!(url.contains("&foreColor=000000&"));
    assert!(url.contains("&size=200&"));
    assert_eq!(qrcode_image_url_of(&obj(vec![("data", s("https://img/q.jpg"))])), Some("https://img/q.jpg"));
    assert_eq!(qrcode_image_url_of(&obj(vec![("data", JsonValue::UInt(1))])), None);
    assert_eq!(QRCODE_CONTENT_TYPE, "image/jpeg");
}

#[test]
fn translation() {
    let url = fanyi_url(&FanyiQuery { text: "你好".to_string() });
    assert_eq!(
        url,
        "https://wxapp.translator.qq.com/api/translate?sourceText=你好&source=auto&target=auto&platform=MQQAPP&candidateLangs=zh%7Cen&guid=wxapp_openid_1576171882_ptxba365xp"
    );
    let d = fanyi_data(&obj(vec![("sourceText", s("你好")), ("targetText", s("Hello"))]));
    assert_eq!(keys(&d), vec!["title", "sourceText", "targetText"]);
    assert_eq!(text(field(&d, "title")), "简心翻译");
    assert_eq!(text(field(&d, "targetText")), "Hello");
    let d = fanyi_data(&obj(vec![]));
    assert!(matches!(field(&d, "sourceText"), JsonValue::Null));
}

#[test]
fn bing_picture() {
    assert!(BING_ARCHIVE_URL.starts_with("http://cn.bing.com/HPImageArchive.aspx"));
    let res = obj(vec![("images", arr(vec![obj(vec![("url", s("/th?id=1.jpg"))])]))]);
    assert_eq!(bing_image_path_of(&res), Some("/th?id=1.jpg"));
    assert_eq!(bing_image_path_of(&obj(vec![("images", arr(vec![]))])), None);
    let d = bing_data("/th?id=1.jpg");
    assert_eq!(text(field(&d, "title")), "必应美图");
    assert_eq!(text(field(&d, "url")), "http://cn.bing.com/th?id=1.jpg");
}

#[test]
fn gacha_pools() {
    assert!(GACHA_POOL_URL.contains("gacha_pool"));
    let item = obj(vec![
        ("id", JsonValue::UInt(1)),
        ("title", s("池")),
        ("content_before_act", s("内容")),
        ("pool", arr(vec![obj(vec![("icon", s("i.png"))])])),
        ("start_time", s("2024-01-01")),
        ("end_time", s("2024-02-01")),
    ]);
    let res = obj(vec![("data", obj(vec![("list", arr(vec![item]))]))]);
    assert_eq!(pool_items_of(&res).unwrap().len(), 1);
    let d = ys_kaci_data(&res).unwrap();
    assert_eq!(keys(&d), vec!["title", "list", "start_time", "end_time"]);
    assert_eq!(text(field(&d, "title")), "原神卡池");
    assert_eq!(text(field(&d, "start_time")), "2024-01-01");
    let list = match field(&d, "list") {
        JsonValue::Array(l) => l,
        _ => panic!("no list"),
    };
    assert_eq!(keys(&list[0]), vec!["id", "title", "content", "icon"]);
    assert_eq!(text(field(&list[0], "content")), "内容");
    assert_eq!(text(field(&list[0], "icon")), "i.png");
    assert!(pool_items_of(&obj(vec![])).is_none());
    assert!(ys_kaci_data(&obj(vec![])).is_none());
    assert!(ys_kaci_data(&obj(vec![("data", obj(vec![("list", s("x"))]))])).is_none());
}

#[test]
fn daily_news() {
    let urls = news_urls("2024/05/06");
    assert_eq!(
        urls,
        vec![
            "https://60s-static.viki.moe/60s/2024-05-06.json".to_string(),
            "https://cdn.jsdelivr.net/gh/vikiboss/60s-static-host/static/60s/2024-05-06.json".to_string(),
            "https://raw.githubusercontent.com/vikiboss/60s-static-host/main/static/60s/2024-05-06.json".to_string(),
        ]
    );
    let d = news_data(&obj(vec![("news", arr(vec![s("a")])), ("tip", s("t")), ("date", s("2024-05-06"))]));
    assert_eq!(keys(&d), vec!["title", "list", "image", "tip", "date"]);
    assert_eq!(text(field(&d, "title")), "60s看世界");
    assert!(matches!(field(&d, "image"), JsonValue::Null));
    assert_eq!(text(field(&d, "tip")), "t");
}

#[test]
fn saying_is_under_maintenance() {
    let r = yiyan();
    assert_eq!(r.code, 400);
    assert_eq!(r.message, "Bad Request");
    assert!(r.data.is_none());
    let d = r.detail.unwrap();
    assert_eq!(text(field(&d, "title")), "一言");
    assert_eq!(text(field(&d, "error")), "正在维护中...");
}

#[test]
fn digest_answers() {
    let q = HashQuery { md5: Some("abc".to_string()), sha256: None, sha384: None, sha512: None };
    let r = encryption_answer(&q).ok().unwrap();
    assert_eq!(r.code, 200);
    assert_eq!(r.message, "OK");
    assert!(r.detail.is_none());
    let d = r.data.unwrap();
    assert_eq!(text(field(&d, "ciphertext")), "900150983cd24fb0d6963f7d28e17f72");
    let q = HashQuery { md5: None, sha256: None, sha384: None, sha512: None };
    match encryption_answer(&q) {
        Err(AppError::JsonParse(m)) => assert_eq!(m, "expected value at line 1 column 1"),
        _ => panic!("expected the JSON error"),
    }
    assert_eq!(NO_METHOD_TEXT, "请选择加密方式");
    let r = AppError::JsonParse("expected value at line 1 column 1".to_string()).into_response();
    assert_eq!(r.code, 500);
    assert_eq!(r.message, "Internal Server Error");
}

#[test]
fn news_steps() {
    let date = "2024/05/06";
    let urls = news_urls(date);
    for tried in 0..3usize {
        match news_step(date, tried, None) {
            NewsStep::Fetch(u) => assert_eq!(u, urls[tried]),
            _ => panic!("expected a fetch"),
        }
    }
    assert!(matches!(news_step(date, 3, None), NewsStep::NotFound));
    let data = obj(vec![("tip", s("t"))]);
    match news_step(date, 2, Some(&data)) {
        NewsStep::Answer(v) => {
            assert_eq!(text(field(&v, "title")), "60s看世界");
            assert_eq!(text(field(&v, "tip")), "t");
        },
        _ => panic!("expected an answer"),
    }
}
