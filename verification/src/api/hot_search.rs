//! Trending lists of several platforms.
use vstd::prelude::*;
use crate::json::{Json, JsonValue, str_equal, lemma_object_model, lemma_array_model};
use crate::text::{
    chars_of, string_of, push_decimal, append_chars, parse_unsigned_max, to_lowercase, split_once_chars,
    rsplit_once_chars, trim_chars, trim_end_char_chars, contains_chars,
};
use crate::html::select_inner_html;
use crate::html;
use crate::json;
use crate::text;

verus! {

/// The query of the trending-list endpoint.
pub struct QueryParams {
    pub q: String,
}

/// The platforms whose trending lists can be asked for.
#[derive(Clone, Copy, Debug, PartialEq, Eq, Structural)]
pub enum Platform {
    Douyin,
    Kuaishou,
    Toutiao,
    Baidu,
    Weibo,
    Bilibili,
}

/// The platform that a (lower-cased) query names.
pub open spec fn platform_named(name: Seq<char>) -> Option<Platform> {
    if name == "抖音"@ || name == "douyin"@ {
        Some(Platform::Douyin)
    } else if name == "快手"@ || name == "kuaishou"@ {
        Some(Platform::Kuaishou)
    } else if name == "头条"@ || name == "toutiao"@ {
        Some(Platform::Toutiao)
    } else if name == "百度"@ || name == "baidu"@ {
        Some(Platform::Baidu)
    } else if name == "微博"@ || name == "weibo"@ {
        Some(Platform::Weibo)
    } else if name == "b站"@ || name == "B站"@ || name == "哔哩哔哩"@ || name == "bilibili"@ {
        Some(Platform::Bilibili)
    } else {
        None
    }
}

/// Each platform is named by exactly its names, compared as written: "抖音" and
/// "douyin" name Douyin; "快手" and "kuaishou" Kuaishou; "头条" and "toutiao"
/// Toutiao; "百度" and "baidu" Baidu; "微博" and "weibo" Weibo; "b站", "B站",
/// "哔哩哔哩" and "bilibili" Bilibili. Any other name names no platform.
pub proof fn law_platform_names(name: Seq<char>)
    ensures
        platform_named(name) == Some(Platform::Douyin) <==> (name == "抖音"@ || name == "douyin"@),
        platform_named(name) == Some(Platform::Kuaishou) <==> (name == "快手"@ || name == "kuaishou"@),
        platform_named(name) == Some(Platform::Toutiao) <==> (name == "头条"@ || name == "toutiao"@),
        platform_named(name) == Some(Platform::Baidu) <==> (name == "百度"@ || name == "baidu"@),
        platform_named(name) == Some(Platform::Weibo) <==> (name == "微博"@ || name == "weibo"@),
        platform_named(name) == Some(Platform::Bilibili) <==> (name == "b站"@ || name == "B站"@
            || name == "哔哩哔哩"@ || name == "bilibili"@),
{
    reveal_strlit("抖音");
    reveal_strlit("douyin");
    reveal_strlit("快手");
    reveal_strlit("kuaishou");
    reveal_strlit("头条");
    reveal_strlit("toutiao");
    reveal_strlit("百度");
    reveal_strlit("baidu");
    reveal_strlit("微博");
    reveal_strlit("weibo");
    reveal_strlit("b站");
    reveal_strlit("B站");
    reveal_strlit("哔哩哔哩");
    reveal_strlit("bilibili");
    assert("抖音"@.len() == 2 && "抖音"@[0] == '抖');
    assert("douyin"@.len() == 6 && "douyin"@[0] == 'd');
    assert("快手"@.len() == 2 && "快手"@[0] == '快');
    assert("kuaishou"@.len() == 8 && "kuaishou"@[0] == 'k');
    assert("头条"@.len() == 2 && "头条"@[0] == '头');
    assert("toutiao"@.len() == 7 && "toutiao"@[0] == 't');
    assert("百度"@.len() == 2 && "百度"@[0] == '百');
    assert("baidu"@.len() == 5 && "baidu"@[0] == 'b');
    assert("微博"@.len() == 2 && "微博"@[0] == '微');
    assert("weibo"@.len() == 5 && "weibo"@[0] == 'w');
    assert("b站"@.len() == 2 && "b站"@[0] == 'b');
    assert("B站"@.len() == 2 && "B站"@[0] == 'B');
    assert("哔哩哔哩"@.len() == 4 && "哔哩哔哩"@[0] == '哔');
    assert("bilibili"@.len() == 8 && "bilibili"@[0] == 'b');
}

/// The platform that `name` names, compared as written.
pub fn platform_of(name: &str) -> (r: Option<Platform>)
    ensures
        r == platform_named(name@),
        name@ == "抖音"@ || name@ == "douyin"@ ==> r == Some(Platform::Douyin),
        name@ == "快手"@ || name@ == "kuaishou"@ ==> r == Some(Platform::Kuaishou),
        name@ == "头条"@ || name@ == "toutiao"@ ==> r == Some(Platform::Toutiao),
        name@ == "百度"@ || name@ == "baidu"@ ==> r == Some(Platform::Baidu),
        name@ == "微博"@ || name@ == "weibo"@ ==> r == Some(Platform::Weibo),
        name@ == "b站"@ || name@ == "B站"@ || name@ == "哔哩哔哩"@ || name@ == "bilibili"@
            ==> r == Some(Platform::Bilibili),
{
    proof {
        law_platform_names(name@);
    }
    if str_equal(name, "抖音") || str_equal(name, "douyin") {
        Some(Platform::Douyin)
    } else if str_equal(name, "快手") || str_equal(name, "kuaishou") {
        Some(Platform::Kuaishou)
    } else if str_equal(name, "头条") || str_equal(name, "toutiao") {
        Some(Platform::Toutiao)
    } else if str_equal(name, "百度") || str_equal(name, "baidu") {
        Some(Platform::Baidu)
    } else if str_equal(name, "微博") || str_equal(name, "weibo") {
        Some(Platform::Weibo)
    } else if str_equal(name, "b站") || str_equal(name, "B站") || str_equal(name, "哔哩哔哩") || str_equal(
        name,
        "bilibili",
    ) {
        Some(Platform::Bilibili)
    } else {
        None
    }
}

/// The query as the endpoint reads it (lower-cased), and the platform it names.
pub fn resolve_query(params: &QueryParams) -> (r: (String, Option<Platform>))
    ensures
        r.0@ == text::lowercase(params.q@),
        r.1 == platform_named(text::lowercase(params.q@)),
{
    let q = to_lowercase(params.q.as_str());
    let p = platform_of(q.as_str());
    (q, p)
}

/// How a popularity count is shown: rounded to the nearest ten thousand (万) from
/// ten thousand up, to the nearest thousand (千) from a thousand up, else as is.
pub open spec fn hot_text(value: u64) -> Seq<char> {
    if value >= 10000 {
        text::decimal(((value + 5000) / 10000) as nat) + " 万"@
    } else if value >= 1000 {
        text::decimal(((value + 500) / 1000) as nat) + " 千"@
    } else {
        text::decimal(value as nat)
    }
}

/// Shows a popularity count, rounded to the nearest ten thousand or thousand.
pub fn round_to_str(value: u64) -> (r: String)
    ensures
        r@ == hot_text(value),
{
    let mut v: Vec<char> = Vec::new();
    if value >= 10000 {
        let rounded: u64 = value / 10000 + if value % 10000 >= 5000 { 1 } else { 0 };
        assert(rounded == (value + 5000) / 10000);
        push_decimal(&mut v, rounded);
        let unit = chars_of(" 万");
        append_chars(&mut v, &unit);
    } else if value >= 1000 {
        let rounded: u64 = (value + 500) / 1000;
        push_decimal(&mut v, rounded);
        let unit = chars_of(" 千");
        append_chars(&mut v, &unit);
    } else {
        push_decimal(&mut v, value);
    }
    string_of(&v)
}

proof fn lemma_unit_cancel(a: Seq<char>, b: Seq<char>, u: Seq<char>)
    requires
        a + u == b + u,
    ensures
        a == b,
{
    assert(a.len() == b.len()) by {
        assert((a + u).len() == a.len() + u.len());
        assert((b + u).len() == b.len() + u.len());
    }
    assert(a =~= (a + u).take(a.len() as int));
    assert(b =~= (b + u).take(b.len() as int));
}

/// A count of ten thousand or more is shown as the number of ten thousands nearest to
/// it (a half rounded up) followed by " 万"; a count from a thousand up, as the number
/// of thousands nearest to it followed by " 千"; a smaller count, exactly.
pub proof fn law_hot_text_nearest(value: u64, k: nat)
    ensures
        value >= 10000 ==> (hot_text(value) == text::decimal(k) + " 万"@
            <==> k * 10000 <= value + 5000 < k * 10000 + 10000),
        1000 <= value < 10000 ==> (hot_text(value) == text::decimal(k) + " 千"@
            <==> k * 1000 <= value + 500 < k * 1000 + 1000),
        value < 1000 ==> hot_text(value) == text::decimal(value as nat),
{
    let v = value as int;
    let ki = k as int;
    if value >= 10000 {
        let m = ((value + 5000) / 10000) as nat;
        if hot_text(value) == text::decimal(k) + " 万"@ {
            lemma_unit_cancel(text::decimal(m), text::decimal(k), " 万"@);
            text::law_decimal_injective(m, k);
        }
        if ki * 10000 <= v + 5000 < ki * 10000 + 10000 {
            assert(ki == (v + 5000) / 10000) by (nonlinear_arith)
                requires
                    ki * 10000 <= v + 5000 < ki * 10000 + 10000,
                    v >= 0;
        }
        assert(m * 10000 <= v + 5000 < m * 10000 + 10000) by (nonlinear_arith)
            requires
                m == (v + 5000) / 10000,
                v >= 0;
    } else if value >= 1000 {
        let m = ((value + 500) / 1000) as nat;
        if hot_text(value) == text::decimal(k) + " 千"@ {
            lemma_unit_cancel(text::decimal(m), text::decimal(k), " 千"@);
            text::law_decimal_injective(m, k);
        }
        if ki * 1000 <= v + 500 < ki * 1000 + 1000 {
            assert(ki == (v + 500) / 1000) by (nonlinear_arith)
                requires
                    ki * 1000 <= v + 500 < ki * 1000 + 1000,
                    v >= 0;
        }
        assert(m * 1000 <= v + 500 < m * 1000 + 1000) by (nonlinear_arith)
            requires
                m == (v + 500) / 1000,
                v >= 0;
    }
}

/// The number a popularity count is shown as: its nearest whole number of ten
/// thousands, or of thousands, or the count itself.
pub open spec fn hot_figure(value: u64) -> nat {
    if value >= 10000 {
        ((value + 5000) / 10000) as nat
    } else if value >= 1000 {
        ((value + 500) / 1000) as nat
    } else {
        value as nat
    }
}

/// The unit a popularity count is shown with.
pub open spec fn hot_unit(value: u64) -> Seq<char> {
    if value >= 10000 {
        " 万"@
    } else if value >= 1000 {
        " 千"@
    } else {
        seq![]
    }
}

/// Within one unit, a larger count is never shown as a smaller number: for counts
/// both of ten thousand or more, or both from a thousand to below ten thousand, the
/// shown number of the larger one is at least that of the smaller one.
pub proof fn law_hot_text_monotonic(a: u64, b: u64)
    requires
        (10000 <= a <= b) || (1000 <= a <= b < 10000),
    ensures
        hot_text(a) == text::decimal(hot_figure(a)) + hot_unit(a),
        hot_text(b) == text::decimal(hot_figure(b)) + hot_unit(b),
        hot_unit(a) == hot_unit(b),
        hot_figure(a) <= hot_figure(b),
{
    let (x, y) = (a as int, b as int);
    if a >= 10000 {
        assert((x + 5000) / 10000 <= (y + 5000) / 10000) by (nonlinear_arith)
            requires
                0 <= x <= y;
    } else {
        assert((x + 500) / 1000 <= (y + 500) / 1000) by (nonlinear_arith)
            requires
                0 <= x <= y;
    }
}

/// One line of a trending list: its position from one, the title and the popularity.
pub open spec fn entry_text(index: int, title: Seq<char>, hot: Seq<char>) -> Seq<char> {
    text::decimal((index + 1) as nat) + "、"@ + title + " (热度:"@ + hot + ")"@
}

/// Formats one line of a trending list.
pub fn hot_entry(index: usize, title: &str, hot: &str) -> (r: String)
    requires
        index < usize::MAX,
    ensures
        r@ == entry_text(index as int, title@, hot@),
{
    let mut v: Vec<char> = Vec::new();
    push_decimal(&mut v, (index + 1) as u64);
    let a = chars_of("、");
    append_chars(&mut v, &a);
    let t = chars_of(title);
    append_chars(&mut v, &t);
    let b = chars_of(" (热度:");
    append_chars(&mut v, &b);
    let h = chars_of(hot);
    append_chars(&mut v, &h);
    let c = chars_of(")");
    append_chars(&mut v, &c);
    string_of(&v)
}


/// The title shown for an entry: the text found, or "未知" (unknown).
pub open spec fn title_or_unknown(t: Option<Seq<char>>) -> Seq<char> {
    match t {
        Some(s) => s,
        None => "未知"@,
    }
}

/// A count that is a number, or a text holding a number; zero otherwise.
pub open spec fn count_of(v: Option<Json>) -> u64 {
    match v {
        Some(x) => match x.as_u64() {
            Some(n) => n,
            None => match x.as_str() {
                Some(s) => match text::parse_unsigned(s, u64::MAX as nat) {
                    Some(n) => n as u64,
                    None => 0,
                },
                None => 0,
            },
        },
        None => 0,
    }
}

/// A count held as text; zero when the text is missing or not a number.
pub open spec fn text_count_of(v: Option<Seq<char>>) -> u64 {
    match v {
        Some(s) => match text::parse_unsigned(s, u64::MAX as nat) {
            Some(n) => n as u64,
            None => 0,
        },
        None => 0,
    }
}

fn title_or_unknown_exec(t: Option<&str>) -> (r: String)
    ensures
        r@ == title_or_unknown(match t { Some(s) => Some(s@), None => None }),
{
    match t {
        Some(s) => s.to_owned(),
        None => "未知".to_owned(),
    }
}

fn text_count(t: Option<&str>) -> (r: u64)
    ensures
        r == text_count_of(match t { Some(s) => Some(s@), None => None }),
{
    match t {
        Some(s) => {
            let cs = chars_of(s);
            match parse_unsigned_max(&cs, u64::MAX) {
                Some(n) => n,
                None => 0,
            }
        },
        None => 0,
    }
}

fn count(v: Option<&JsonValue>) -> (r: u64)
    ensures
        r == count_of(match v { Some(x) => Some(x@), None => None }),
{
    match v {
        Some(x) => match x.as_u64() {
            Some(n) => n,
            None => text_count(x.as_str()),
        },
        None => 0,
    }
}

/// The entries of a Douyin list.
pub open spec fn douyin_items(res: Json) -> Option<Seq<Json>> {
    match res.get("data"@) {
        Some(d) => match d.get("word_list"@) {
            Some(l) => l.as_array(),
            None => None,
        },
        None => None,
    }
}

/// One line of a Douyin list, when the entry has a word and a count.
pub open spec fn douyin_entry(index: int, item: Json) -> Option<Seq<char>> {
    match (json::str_at(item, "word"@), json::u64_at(item, "hot_value"@)) {
        (Some(w), Some(h)) => Some(entry_text(index, w, hot_text(h))),
        _ => None,
    }
}

/// What a list of entries becomes, line by line; `None` when some line cannot be made.
pub open spec fn all_lines(items: Seq<Json>, line: spec_fn(int, Json) -> Option<Seq<char>>) -> Option<Seq<Seq<char>>> {
    if forall|i: int| 0 <= i < items.len() ==> (#[trigger] line(i, items[i])) is Some {
        Some(Seq::new(items.len(), |i: int| line(i, items[i])->0))
    } else {
        None
    }
}

/// Whether `r` holds exactly the lines in `lines`.
pub open spec fn lines_match(r: Vec<String>, lines: Seq<Seq<char>>) -> bool {
    r@.len() == lines.len() && forall|i: int| 0 <= i < lines.len() ==> #[trigger] r@[i]@ == lines[i]
}

/// The Douyin trending list; `None` (an internal error) when the list is
/// missing or an entry lacks its word or count.
pub fn douyin_list(res: &JsonValue) -> (r: Option<Vec<String>>)
    ensures
        match douyin_items(res@) {
            Some(items) => match all_lines(items, |i: int, x: Json| douyin_entry(i, x)) {
                Some(lines) => r matches Some(v) && lines_match(v, lines),
                None => r is None,
            },
            None => r is None,
        },
{
    let data = match res.get("data") {
        Some(d) => d,
        None => return None,
    };
    let list = match data.get("word_list") {
        Some(l) => l,
        None => return None,
    };
    let items = match list.as_array() {
        Some(a) => a,
        None => return None,
    };
    let ghost m = douyin_items(res@)->0;
    let ghost line = |i: int, x: Json| douyin_entry(i, x);
    let mut out: Vec<String> = Vec::new();
    let n = items.len();
    for i in 0..n
        invariant
            n == items.len(),
            m.len() == n,
            douyin_items(res@) == Some(m),
            line == (|i: int, x: Json| douyin_entry(i, x)),
            forall|j: int| 0 <= j < n ==> #[trigger] m[j] == items[j]@,
            out@.len() == i,
            forall|j: int| 0 <= j < i ==> #[trigger] line(j, m[j]) == Some(out@[j]@),
    {
        let item = &items[i];
        let word = match item.str_at("word") {
            Some(w) => w,
            None => {
                assert(line(i as int, m[i as int]) is None);
                return None;
            },
        };
        let hot = match item.u64_at("hot_value") {
            Some(h) => h,
            None => {
                assert(line(i as int, m[i as int]) is None);
                return None;
            },
        };
        let shown = round_to_str(hot);
        let entry = hot_entry(i, word, shown.as_str());
        out.push(entry);
    }
    proof {
        assert forall|j: int| 0 <= j < m.len() implies (#[trigger] line(j, m[j])) is Some by {}
        let lines = all_lines(m, line)->0;
        assert(lines_match(out, lines));
    }
    Some(out)
}


/// The models of a list of values.
pub open spec fn models(v: Seq<JsonValue>) -> Seq<Json> {
    v.map_values(|x: JsonValue| x@)
}

/// The lines of a list whose every entry gives a line.
pub open spec fn lines_of(items: Seq<Json>, line: spec_fn(int, Json) -> Seq<char>) -> Seq<Seq<char>> {
    Seq::new(items.len(), |i: int| line(i, items[i]))
}

/// The word list of a Toutiao answer (`data[0].words`).
pub open spec fn toutiao_words(res: Json) -> Option<Json> {
    match res.get("data"@) {
        Some(d) => match d.at(0) {
            Some(w) => w.get("words"@),
            None => None,
        },
        None => None,
    }
}

/// The click count of a Toutiao word (`params.fake_click_cnt`).
pub open spec fn toutiao_count(word: Json) -> Option<u64> {
    match word.get("params"@) {
        Some(p) => json::u64_at(p, "fake_click_cnt"@),
        None => None,
    }
}

/// One line of a Toutiao list, when the word has a text and a click count.
pub open spec fn toutiao_entry(index: int, word: Json) -> Option<Seq<char>> {
    match (json::str_at(word, "word"@), toutiao_count(word)) {
        (Some(w), Some(h)) => Some(entry_text(index, w, hot_text(h))),
        _ => None,
    }
}

/// Finds the word list of a Toutiao answer; `None` is an internal error.
pub fn toutiao_words_of(res: &JsonValue) -> (r: Option<&JsonValue>)
    ensures
        r is None <==> toutiao_words(res@) is None,
        r matches Some(w) ==> toutiao_words(res@) == Some(w@),
{
    match res.get("data") {
        Some(d) => match d.at(0) {
            Some(w) => w.get("words"),
            None => None,
        },
        None => None,
    }
}

/// The Toutiao trending list from its words; `None` (an internal error) when a word
/// lacks its text or click count.
pub fn toutiao_list(words: &Vec<JsonValue>) -> (r: Option<Vec<String>>)
    ensures
        match all_lines(models(words@), |i: int, x: Json| toutiao_entry(i, x)) {
            Some(lines) => r matches Some(v) && lines_match(v, lines),
            None => r is None,
        },
{
    let ghost m = models(words@);
    let ghost line = |i: int, x: Json| toutiao_entry(i, x);
    let mut out: Vec<String> = Vec::new();
    let n = words.len();
    for i in 0..n
        invariant
            n == words@.len(),
            m == models(words@),
            line == (|i: int, x: Json| toutiao_entry(i, x)),
            out@.len() == i,
            forall|j: int| 0 <= j < i ==> #[trigger] line(j, m[j]) == Some(out@[j]@),
    {
        let word = &words[i];
        assert(m[i as int] == word@);
        let text = match word.str_at("word") {
            Some(w) => w,
            None => {
                assert(line(i as int, m[i as int]) is None);
                return None;
            },
        };
        let count = match word.get("params") {
            Some(p) => p.u64_at("fake_click_cnt"),
            None => None,
        };
        let hot = match count {
            Some(h) => h,
            None => {
                assert(line(i as int, m[i as int]) is None);
                return None;
            },
        };
        let shown = round_to_str(hot);
        out.push(hot_entry(i, text, shown.as_str()));
    }
    proof {
        assert forall|j: int| 0 <= j < m.len() implies (#[trigger] line(j, m[j])) is Some by {}
        assert(lines_match(out, all_lines(m, line)->0));
    }
    Some(out)
}

/// The entries of a Baidu list (`data.cards[0].content`).
pub open spec fn baidu_items(res: Json) -> Option<Seq<Json>> {
    res.field("data"@).field("cards"@).item(0).field("content"@).as_array()
}

/// One line of a Baidu list: the query, or "未知", and its score read from text, or zero.
pub open spec fn baidu_entry(index: int, item: Json) -> Seq<char> {
    entry_text(
        index,
        title_or_unknown(item.field("query"@).as_str()),
        hot_text(text_count_of(item.field("hotScore"@).as_str())),
    )
}

/// Finds the entries of a Baidu answer; the endpoint cannot go on without them.
pub fn baidu_items_of(res: &JsonValue) -> (r: Option<&Vec<JsonValue>>)
    ensures
        r is None <==> baidu_items(res@) is None,
        r matches Some(a) ==> baidu_items(res@) == Some(models(a@)),
{
    let found = match res.get("data") {
        Some(d) => match d.get("cards") {
            Some(c) => match c.at(0) {
                Some(first) => match first.get("content") {
                    Some(content) => content.as_array(),
                    None => None,
                },
                None => None,
            },
            None => None,
        },
        None => None,
    };
    proof {
        if let Some(a) = found {
            assert(baidu_items(res@)->0 =~= models(a@));
        }
    }
    found
}

/// The Baidu trending list.
pub fn baidu_list(items: &Vec<JsonValue>) -> (r: Vec<String>)
    ensures
        lines_match(r, lines_of(models(items@), |i: int, x: Json| baidu_entry(i, x))),
{
    let mut out: Vec<String> = Vec::new();
    let n = items.len();
    for i in 0..n
        invariant
            n == items@.len(),
            out@.len() == i,
            forall|j: int| 0 <= j < i ==> #[trigger] out@[j]@ == baidu_entry(j, items@[j]@),
    {
        let item = &items[i];
        let title = title_or_unknown_exec(match item.get("query") {
            Some(q) => q.as_str(),
            None => None,
        });
        let score = text_count(match item.get("hotScore") {
            Some(h) => h.as_str(),
            None => None,
        });
        let shown = round_to_str(score);
        out.push(hot_entry(i, title.as_str(), shown.as_str()));
    }
    out
}

/// The entries of a list found at `data.<key>`.
pub open spec fn data_items(res: Json, key: Seq<char>) -> Option<Seq<Json>> {
    res.field("data"@).field(key).as_array()
}

/// One line of a list whose entries give a title under `title_key`, or "未知", and a
/// count under `count_key`, as a number or as text, or zero.
pub open spec fn titled_entry(index: int, item: Json, title_key: Seq<char>, count_key: Seq<char>) -> Seq<char> {
    entry_text(
        index,
        title_or_unknown(item.field(title_key).as_str()),
        hot_text(count_of(item.get(count_key))),
    )
}

/// Finds the entries at `data.<key>`; the endpoint cannot go on without them.
pub fn data_items_of<'a>(res: &'a JsonValue, key: &str) -> (r: Option<&'a Vec<JsonValue>>)
    ensures
        r is None <==> data_items(res@, key@) is None,
        r matches Some(a) ==> data_items(res@, key@) == Some(models(a@)),
{
    let found = match res.get("data") {
        Some(d) => match d.get(key) {
            Some(l) => l.as_array(),
            None => None,
        },
        None => None,
    };
    proof {
        if let Some(a) = found {
            assert(data_items(res@, key@)->0 =~= models(a@));
        }
    }
    found
}

/// A trending list whose entries give a title under `title_key` and a count under
/// `count_key` (Weibo: `word`, `num`; Bilibili: `keyword`, `hot_id`).
pub fn titled_list(items: &Vec<JsonValue>, title_key: &str, count_key: &str) -> (r: Vec<String>)
    ensures
        lines_match(r, lines_of(models(items@), |i: int, x: Json| titled_entry(i, x, title_key@, count_key@))),
{
    let mut out: Vec<String> = Vec::new();
    let n = items.len();
    for i in 0..n
        invariant
            n == items@.len(),
            out@.len() == i,
            forall|j: int| 0 <= j < i ==> #[trigger] out@[j]@ == titled_entry(j, items@[j]@, title_key@, count_key@),
    {
        let item = &items[i];
        let title = title_or_unknown_exec(match item.get(title_key) {
            Some(t) => t.as_str(),
            None => None,
        });
        let hot = count(item.get(count_key));
        let shown = round_to_str(hot);
        out.push(hot_entry(i, title.as_str(), shown.as_str()));
    }
    out
}

/// The first script of a Kuaishou page whose inner HTML mentions `__APOLLO_STATE__`.
pub open spec fn apollo_script(scripts: Seq<Seq<char>>) -> Option<Seq<char>>
    decreases scripts.len(),
{
    if scripts.len() == 0 {
        None
    } else if text::contains(scripts[0], "__APOLLO_STATE__"@) {
        Some(scripts[0])
    } else {
        apollo_script(scripts.drop_first())
    }
}

/// Finds the script of a Kuaishou page that holds its state; the endpoint cannot go
/// on without it. `None` also where the `script` selector is refused.
pub fn kuaishou_script(page: &str) -> (r: Option<String>)
    ensures
        match html::document_inner_htmls(page@, "script"@) {
            Some(scripts) => match apollo_script(scripts) {
                Some(s) => r matches Some(t) && t@ == s,
                None => r is None,
            },
            None => r is None,
        },
{
    let scripts = match select_inner_html(page, "script") {
        Some(v) => v,
        None => return None,
    };
    let ghost m = html::views(scripts@);
    let marker = chars_of("__APOLLO_STATE__");
    let n = scripts.len();
    assert(m.skip(0) == m);
    for i in 0..n
        invariant
            n == scripts@.len(),
            m == html::views(scripts@),
            marker@ == "__APOLLO_STATE__"@,
            html::document_inner_htmls(page@, "script"@) == Some(m),
            apollo_script(m) == apollo_script(m.skip(i as int)),
    {
        assert(m.skip(i as int)[0] == scripts@[i as int]@);
        assert(m.skip(i as int).drop_first() == m.skip(i + 1));
        let cs = chars_of(scripts[i].as_str());
        if contains_chars(&cs, &marker) {
            return Some(scripts[i].clone());
        }
    }
    assert(m.skip(n as int).len() == 0);
    None
}

/// The JSON text of a Kuaishou page's state: what follows `window.__APOLLO_STATE__=`
/// up to the last `;(function()`, trimmed and without trailing commas; empty when
/// either marker is missing.
pub open spec fn apollo_text(script: Seq<char>) -> Seq<char> {
    match text::split_once(script, "window.__APOLLO_STATE__="@) {
        Some((_, after)) => match text::rsplit_once(after, ";(function()"@) {
            Some((left, _)) => text::trim_end_char(text::trim(left), ','),
            None => seq![],
        },
        None => seq![],
    }
}

/// Cuts the JSON text of a Kuaishou page's state out of its script.
pub fn apollo_json_text(script: &str) -> (r: String)
    ensures
        r@ == apollo_text(script@),
{
    let s = chars_of(script);
    let open = chars_of("window.__APOLLO_STATE__=");
    let close = chars_of(";(function()");
    match split_once_chars(&s, &open) {
        Some((_, after)) => match rsplit_once_chars(&after, &close) {
            Some((left, _)) => {
                let t = trim_chars(&left);
                let u = trim_end_char_chars(&t, ',');
                string_of(&u)
            },
            None => String::new(),
        },
        None => String::new(),
    }
}

/// The key under which a Kuaishou state lists its trending entries.
pub open spec fn kuaishou_rank_key() -> Seq<char> {
    "$ROOT_QUERY.visionHotRank({\"page\":\"brilliant\"})"@
}

/// The trending entries of a Kuaishou state.
pub open spec fn kuaishou_items(state: Json) -> Option<Seq<Json>> {
    state.field("defaultClient"@).field(kuaishou_rank_key()).field("items"@).as_array()
}

/// Whether a Kuaishou entry names, by its `id`, a record of the state.
pub open spec fn kuaishou_resolvable(state: Json, item: Json) -> bool {
    match item.field("id"@).as_str() {
        Some(id) => state.field("defaultClient"@).get(id) is Some,
        None => false,
    }
}

/// One line of a Kuaishou list, from the record the entry names: its name, or
/// "未知", and its popularity text, or "置顶" (pinned).
pub open spec fn kuaishou_entry(index: int, state: Json, item: Json) -> Seq<char> {
    let record = state.field("defaultClient"@).get(item.field("id"@).as_str()->0)->0;
    entry_text(
        index,
        title_or_unknown(record.field("name"@).as_str()),
        match record.field("hotValue"@).as_str() {
            Some(h) => h,
            None => "置顶"@,
        },
    )
}

/// Finds the trending entries of a Kuaishou state; the endpoint cannot go on without them.
pub fn kuaishou_items_of(state: &JsonValue) -> (r: Option<&Vec<JsonValue>>)
    ensures
        r is None <==> kuaishou_items(state@) is None,
        r matches Some(a) ==> kuaishou_items(state@) == Some(models(a@)),
{
    let found = match state.get("defaultClient") {
        Some(c) => match c.get("$ROOT_QUERY.visionHotRank({\"page\":\"brilliant\"})") {
            Some(rank) => match rank.get("items") {
                Some(items) => items.as_array(),
                None => None,
            },
            None => None,
        },
        None => None,
    };
    proof {
        if let Some(a) = found {
            assert(kuaishou_items(state@)->0 =~= models(a@));
        }
    }
    found
}

/// Whether every Kuaishou entry names a record of the state; the endpoint cannot go
/// on otherwise.
pub fn kuaishou_resolvable_all(state: &JsonValue, items: &Vec<JsonValue>) -> (r: bool)
    ensures
        r == forall|i: int| 0 <= i < items@.len() ==> kuaishou_resolvable(state@, #[trigger] items@[i]@),
{
    let n = items.len();
    for i in 0..n
        invariant
            n == items@.len(),
            forall|j: int| 0 <= j < i ==> kuaishou_resolvable(state@, #[trigger] items@[j]@),
    {
        let ok = match items[i].get("id") {
            Some(idv) => match idv.as_str() {
                Some(id) => match state.get("defaultClient") {
                    Some(c) => c.get(id).is_some(),
                    None => false,
                },
                None => false,
            },
            None => false,
        };
        if !ok {
            assert(!kuaishou_resolvable(state@, items@[i as int]@));
            return false;
        }
    }
    true
}

/// The Kuaishou trending list, from the records its entries name.
pub fn kuaishou_list(state: &JsonValue, items: &Vec<JsonValue>) -> (r: Vec<String>)
    requires
        forall|i: int| 0 <= i < items@.len() ==> kuaishou_resolvable(state@, #[trigger] items@[i]@),
    ensures
        lines_match(r, lines_of(models(items@), |i: int, x: Json| kuaishou_entry(i, state@, x))),
{
    let client = state.get("defaultClient");
    let mut out: Vec<String> = Vec::new();
    let n = items.len();
    for i in 0..n
        invariant
            n == items@.len(),
            forall|i: int| 0 <= i < items@.len() ==> kuaishou_resolvable(state@, #[trigger] items@[i]@),
            client is None <==> state@.get("defaultClient"@) is None,
            client matches Some(c) ==> state@.get("defaultClient"@) == Some(c@),
            out@.len() == i,
            forall|j: int| 0 <= j < i ==> #[trigger] out@[j]@ == kuaishou_entry(j, state@, items@[j]@),
    {
        assert(kuaishou_resolvable(state@, items@[i as int]@));
        let id = match items[i].get("id") {
            Some(v) => match v.as_str() {
                Some(s) => s,
                None => {
                    assert(false);
                    return out;
                },
            },
            None => {
                assert(false);
                return out;
            },
        };
        let c = match client {
            Some(c) => c,
            None => {
                assert(false);
                return out;
            },
        };
        let record = match c.get(id) {
            Some(r) => r,
            None => {
                assert(false);
                return out;
            },
        };
        let name = title_or_unknown_exec(match record.get("name") {
            Some(v) => v.as_str(),
            None => None,
        });
        let hot: String = match record.get("hotValue") {
            Some(v) => match v.as_str() {
                Some(h) => h.to_owned(),
                None => "置顶".to_owned(),
            },
            None => "置顶".to_owned(),
        };
        out.push(hot_entry(i, name.as_str(), hot.as_str()));
    }
    out
}

/// Where each platform's trending list is fetched from, and the header the request
/// carries, if any.
pub struct HotSource {
    pub url: String,
    pub header: Option<(String, String)>,
}

/// The address each platform's trending list is fetched from.
pub open spec fn source_url(p: Platform) -> Seq<char> {
    match p {
        Platform::Douyin => "https://www.douyin.com/aweme/v1/web/hot/search/list"@,
        Platform::Kuaishou => "https://www.kuaishou.com/brilliant"@,
        Platform::Toutiao => "https://is-lq.snssdk.com/api/suggest_words/?business_id=10016"@,
        Platform::Baidu => "https://top.baidu.com/api/board?platform=pc&tab=realtime"@,
        Platform::Weibo => "https://weibo.com/ajax/side/hotSearch"@,
        Platform::Bilibili => "https://app.bilibili.com/x/v2/search/trending/ranking?limit=50"@,
    }
}

/// The request that fetches a platform's trending list.
pub fn hot_source(p: Platform) -> (r: HotSource)
    ensures
        r.url@ == source_url(p),
        p == Platform::Douyin ==> (r.header matches Some((k, v)) && k@ == "referer"@ && v@ == "https://www.douyin.com/hot"@),
        p == Platform::Kuaishou ==> (r.header matches Some((k, v)) && k@ == "host"@ && v@ == "www.kuaishou.com"@),
        p != Platform::Douyin && p != Platform::Kuaishou ==> r.header is None,
{
    match p {
        Platform::Douyin => HotSource {
            url: "https://www.douyin.com/aweme/v1/web/hot/search/list".to_owned(),
            header: Some(("referer".to_owned(), "https://www.douyin.com/hot".to_owned())),
        },
        Platform::Kuaishou => HotSource {
            url: "https://www.kuaishou.com/brilliant".to_owned(),
            header: Some(("host".to_owned(), "www.kuaishou.com".to_owned())),
        },
        Platform::Toutiao => HotSource {
            url: "https://is-lq.snssdk.com/api/suggest_words/?business_id=10016".to_owned(),
            header: None,
        },
        Platform::Baidu => HotSource {
            url: "https://top.baidu.com/api/board?platform=pc&tab=realtime".to_owned(),
            header: None,
        },
        Platform::Weibo => HotSource { url: "https://weibo.com/ajax/side/hotSearch".to_owned(), header: None },
        Platform::Bilibili => HotSource {
            url: "https://app.bilibili.com/x/v2/search/trending/ranking?limit=50".to_owned(),
            header: None,
        },
    }
}

/// The answer of the trending-list endpoint.
pub open spec fn hot_search_json(name: Seq<char>, lines: Seq<Seq<char>>) -> Json {
    Json::Object(seq![
        ("title"@, Json::Str("热搜榜单"@)),
        ("name"@, Json::Str(name)),
        ("list"@, json::strs_json(lines)),
    ])
}

/// Builds the answer of the trending-list endpoint.
pub fn hot_search_data(name: &str, list: &Vec<String>) -> (r: JsonValue)
    ensures
        r@ == hot_search_json(name@, html::views(list@)),
{
    let mut entries: Vec<(String, JsonValue)> = Vec::new();
    entries.push(("title".to_owned(), JsonValue::string("热搜榜单")));
    entries.push(("name".to_owned(), JsonValue::string(name)));
    entries.push(("list".to_owned(), JsonValue::from_strings(list)));
    let r = JsonValue::Object(entries);
    proof {
        lemma_object_model(entries);
        assert(r@->Object_0 =~= hot_search_json(name@, html::views(list@))->Object_0);
    }
    r
}

/// The trending answer gives the query as its name and the lines, in order, as a list
/// of strings.
pub proof fn law_hot_search_members(name: Seq<char>, lines: Seq<Seq<char>>)
    ensures
        hot_search_json(name, lines).field("title"@) == Json::Str("热搜榜单"@),
        hot_search_json(name, lines).field("name"@) == Json::Str(name),
        hot_search_json(name, lines).field("list"@) == Json::Array(Seq::new(lines.len(), |i: int| Json::Str(lines[i]))),
{
    assert(lines.map_values(|t: Seq<char>| Json::Str(t)) =~= Seq::new(lines.len(), |i: int| Json::Str(lines[i])));
    reveal_strlit("title");
    reveal_strlit("name");
    reveal_strlit("list");
    reveal_with_fuel(crate::json::lookup, 4);
    assert("title"@.len() == 5);
    assert("name"@.len() == 4);
    assert("list"@.len() == 4);
    assert("name"@[0] == 'n' && "list"@[0] == 'l');
}

/// A trending line is the position counted from one, "、", the title, " (热度:", the
/// popularity text and ")".
pub proof fn law_entry_line(index: int, title: Seq<char>, hot: Seq<char>)
    ensures
        entry_text(index, title, hot) == text::decimal((index + 1) as nat) + "、"@ + title + " (热度:"@ + hot + ")"@,
{
}

/// A Douyin entry makes a line exactly when its `word` is a text and its `hot_value`
/// a non-negative integer; the line shows that word and that count rounded. The
/// entries are those under `data.word_list`.
pub proof fn law_douyin_entry(index: int, item: Json, res: Json)
    ensures
        douyin_entry(index, item) is Some <==> (item.get("word"@) is Some && item.get("word"@)->0 is Str
            && item.get("hot_value"@) is Some && item.get("hot_value"@)->0.as_u64() is Some),
        douyin_entry(index, item) is Some ==> douyin_entry(index, item)->0 == entry_text(
            index,
            item.get("word"@)->0->Str_0,
            hot_text(item.get("hot_value"@)->0.as_u64()->0),
        ),
        douyin_items(res) == (if res.get("data"@) is Some && res.get("data"@)->0.get("word_list"@) is Some {
            res.get("data"@)->0.get("word_list"@)->0.as_array()
        } else {
            None
        }),
{
}

/// A Toutiao word makes a line exactly when its `word` is a text and its
/// `params.fake_click_cnt` a non-negative integer; the line shows that word and that
/// count rounded. The words are those under `words` of the first element of `data`.
pub proof fn law_toutiao_entry(index: int, word: Json, res: Json)
    ensures
        toutiao_entry(index, word) is Some <==> (word.get("word"@) is Some && word.get("word"@)->0 is Str
            && word.get("params"@) is Some && word.get("params"@)->0.get("fake_click_cnt"@) is Some
            && word.get("params"@)->0.get("fake_click_cnt"@)->0.as_u64() is Some),
        toutiao_entry(index, word) is Some ==> toutiao_entry(index, word)->0 == entry_text(
            index,
            word.get("word"@)->0->Str_0,
            hot_text(word.get("params"@)->0.get("fake_click_cnt"@)->0.as_u64()->0),
        ),
        toutiao_words(res) == (if res.get("data"@) is Some && res.get("data"@)->0.at(0) is Some {
            res.get("data"@)->0.at(0)->0.get("words"@)
        } else {
            None
        }),
{
}

/// A Baidu entry's line shows its `query` (or "未知" when that is not a text) and its
/// `hotScore` read as a decimal text, rounded (zero when it is not such a text). The
/// entries are those under `data.cards[0].content`.
pub proof fn law_baidu_entry(index: int, item: Json, res: Json)
    ensures
        baidu_entry(index, item) == entry_text(
            index,
            match item.get("query"@) { Some(Json::Str(t)) => t, _ => "未知"@ },
            hot_text(match item.get("hotScore"@) {
                Some(Json::Str(s)) => match text::parse_unsigned(s, u64::MAX as nat) {
                    Some(n) => n as u64,
                    None => 0,
                },
                _ => 0,
            }),
        ),
        baidu_items(res) == res.field("data"@).field("cards"@).item(0).field("content"@).as_array(),
{
}

/// A Weibo or Bilibili entry's line shows its member `title_key` (or "未知" when that
/// is not a text) and its member `count_key` as an integer, or a decimal text, rounded
/// (zero otherwise). The entries are those under `data.<key>`.
pub proof fn law_titled_entry(index: int, item: Json, title_key: Seq<char>, count_key: Seq<char>, res: Json, key: Seq<char>)
    ensures
        titled_entry(index, item, title_key, count_key) == entry_text(
            index,
            match item.get(title_key) { Some(Json::Str(t)) => t, _ => "未知"@ },
            hot_text(match item.get(count_key) {
                Some(Json::UInt(n)) => n,
                Some(Json::NegInt(n)) => if n >= 0 { n as u64 } else { 0 },
                Some(Json::Str(s)) => match text::parse_unsigned(s, u64::MAX as nat) {
                    Some(n) => n as u64,
                    None => 0,
                },
                _ => 0,
            }),
        ),
        data_items(res, key) == res.field("data"@).field(key).as_array(),
{
}

/// A Kuaishou entry's line shows the `name` (or "未知") and the `hotValue` text (or
/// "置顶") of the record that its `id` names under `defaultClient`. The entries are
/// the `items` of the brilliant-page ranking under `defaultClient`.
pub proof fn law_kuaishou_entry(index: int, state: Json, item: Json)
    ensures
        item.get("id"@) matches Some(Json::Str(id)) ==> (state.field("defaultClient"@).get(id) matches Some(record)
            ==> kuaishou_entry(index, state, item) == entry_text(
                index,
                match record.get("name"@) { Some(Json::Str(t)) => t, _ => "未知"@ },
                match record.get("hotValue"@) { Some(Json::Str(t)) => t, _ => "置顶"@ },
            )),
        kuaishou_items(state) == state.field("defaultClient"@).field(
            "$ROOT_QUERY.visionHotRank({\"page\":\"brilliant\"})"@,
        ).field("items"@).as_array(),
{
}

/// Where each platform's list is fetched from.
pub proof fn law_hot_sources()
    ensures
        source_url(Platform::Douyin) == "https://www.douyin.com/aweme/v1/web/hot/search/list"@,
        source_url(Platform::Kuaishou) == "https://www.kuaishou.com/brilliant"@,
        source_url(Platform::Toutiao) == "https://is-lq.snssdk.com/api/suggest_words/?business_id=10016"@,
        source_url(Platform::Baidu) == "https://top.baidu.com/api/board?platform=pc&tab=realtime"@,
        source_url(Platform::Weibo) == "https://weibo.com/ajax/side/hotSearch"@,
        source_url(Platform::Bilibili) == "https://app.bilibili.com/x/v2/search/trending/ranking?limit=50"@,
{
}

/// The state text is cut out between the first "window.__APOLLO_STATE__=" and the
/// last ";(function()" after it, trimmed, and without trailing commas; it is empty
/// when either marker is missing.
pub proof fn law_apollo_text(script: Seq<char>)
    ensures
        apollo_text(script) == match text::split_once(script, "window.__APOLLO_STATE__="@) {
            Some((_, after)) => match text::rsplit_once(after, ";(function()"@) {
                Some((left, _)) => text::trim_end_char(text::trim(left), ','),
                None => seq![],
            },
            None => seq![],
        },
{
}

} // verus!
