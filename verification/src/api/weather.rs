//! Weather forecast of a region.
use vstd::prelude::*;
use crate::json::{Json, JsonValue, str_equal, lemma_object_model, lemma_array_model};
use crate::text::{chars_of, string_of, slice_chars, ends_with_chars, trim_chars, join_strings, words_chars, concat_str};
use crate::html::{select_scoped_text_nodes, select_scoped2_text_nodes};
use crate::json;
use crate::text;
use crate::html;

verus! {

/// The query of the weather endpoint.
pub struct QueryParams {
    pub q: String,
}

/// The weather service's list of cities and their codes.
pub const CITY_LIST_URL: &'static str = "https://weather.cma.cn/api/map/weather/1";

/// The cache key the city table is kept under.
pub const CITY_TABLE_CACHE_KEY: &'static str = "weathersss";

/// The endings that name the kind of a region, tried in this order.
pub open spec fn region_suffixes() -> Seq<Seq<char>> {
    seq!["市"@, "县"@, "区"@, "自治州"@, "旗"@, "自治县"@, "市辖区"@, "特区"@, "林区"@]
}

/// `region` without the first of `suffixes` that it ends with.
pub open spec fn strip_first_suffix(region: Seq<char>, suffixes: Seq<Seq<char>>) -> Seq<char>
    decreases suffixes.len(),
{
    if suffixes.len() == 0 {
        region
    } else if text::ends_with(region, suffixes[0]) {
        region.take(region.len() - suffixes[0].len())
    } else {
        strip_first_suffix(region, suffixes.drop_first())
    }
}

/// A region's name without the ending that names its kind.
pub open spec fn region_name(region: Seq<char>) -> Seq<char> {
    strip_first_suffix(region, region_suffixes())
}

proof fn lemma_strip_first_suffix(region: Seq<char>, suffixes: Seq<Seq<char>>)
    ensures
        (exists|i: int|
            0 <= i < suffixes.len() && text::ends_with(region, #[trigger] suffixes[i])
                && region == strip_first_suffix(region, suffixes) + suffixes[i])
        || ((forall|i: int| 0 <= i < suffixes.len() ==> !text::ends_with(region, #[trigger] suffixes[i]))
            && strip_first_suffix(region, suffixes) == region),
    decreases suffixes.len(),
{
    if suffixes.len() > 0 {
        if text::ends_with(region, suffixes[0]) {
            let kept = region.take(region.len() - suffixes[0].len());
            assert(region =~= kept + suffixes[0]);
        } else {
            let rest = suffixes.drop_first();
            lemma_strip_first_suffix(region, rest);
            if exists|i: int|
                0 <= i < rest.len() && text::ends_with(region, #[trigger] rest[i])
                    && region == strip_first_suffix(region, rest) + rest[i] {
                let i = choose|i: int|
                    0 <= i < rest.len() && text::ends_with(region, #[trigger] rest[i])
                        && region == strip_first_suffix(region, rest) + rest[i];
                assert(suffixes[i + 1] == rest[i]);
            } else {
                assert forall|i: int| 0 <= i < suffixes.len() implies !text::ends_with(region, #[trigger] suffixes[i]) by {
                    if i > 0 {
                        assert(suffixes[i] == rest[i - 1]);
                    }
                }
            }
        }
    }
}

/// A region's name is the full name less one of the known endings, which the full name
/// ends with; or, where the full name ends with none of them, the full name itself.
pub proof fn law_region_name_drops_one_ending(region: Seq<char>)
    ensures
        (exists|i: int|
            0 <= i < region_suffixes().len() && text::ends_with(region, #[trigger] region_suffixes()[i])
                && region == region_name(region) + region_suffixes()[i])
        || ((forall|i: int| 0 <= i < region_suffixes().len() ==> !text::ends_with(region, #[trigger] region_suffixes()[i]))
            && region_name(region) == region),
{
    lemma_strip_first_suffix(region, region_suffixes());
}

/// Which ending goes: a name ending in "市", "县" or "区" loses that character,
/// tried in that order; otherwise one ending in "自治州" loses it, otherwise one ending
/// in "旗" loses it; any other name is kept whole. (The other known endings,
/// "自治县", "市辖区", "特区" and "林区", end in "县" or "区" and so lose only that.)
pub proof fn law_region_endings(region: Seq<char>)
    ensures
        text::ends_with(region, "市"@) ==> region_name(region) == region.drop_last(),
        !text::ends_with(region, "市"@) && text::ends_with(region, "县"@) ==> region_name(region) == region.drop_last(),
        !text::ends_with(region, "市"@) && !text::ends_with(region, "县"@) && text::ends_with(region, "区"@)
            ==> region_name(region) == region.drop_last(),
        !text::ends_with(region, "市"@) && !text::ends_with(region, "县"@) && !text::ends_with(region, "区"@)
            && text::ends_with(region, "自治州"@) ==> region_name(region) == region.take(region.len() - 3),
        !text::ends_with(region, "市"@) && !text::ends_with(region, "县"@) && !text::ends_with(region, "区"@)
            && !text::ends_with(region, "自治州"@) && text::ends_with(region, "旗"@)
            ==> region_name(region) == region.drop_last(),
        !text::ends_with(region, "市"@) && !text::ends_with(region, "县"@) && !text::ends_with(region, "区"@)
            && !text::ends_with(region, "自治州"@) && !text::ends_with(region, "旗"@) ==> region_name(region) == region,
{
    reveal_strlit("市");
    reveal_strlit("县");
    reveal_strlit("区");
    reveal_strlit("自治州");
    reveal_strlit("旗");
    reveal_strlit("自治县");
    reveal_strlit("市辖区");
    reveal_strlit("特区");
    reveal_strlit("林区");
    let sufs = region_suffixes();
    let n = region.len();
    assert(sufs.drop_first() =~= seq!["县"@, "区"@, "自治州"@, "旗"@, "自治县"@, "市辖区"@, "特区"@, "林区"@]);
    assert(sufs.drop_first().drop_first() =~= seq!["区"@, "自治州"@, "旗"@, "自治县"@, "市辖区"@, "特区"@, "林区"@]);
    assert(sufs.skip(3) =~= seq!["自治州"@, "旗"@, "自治县"@, "市辖区"@, "特区"@, "林区"@]);
    assert(sufs.drop_first().drop_first().drop_first() == sufs.skip(3));
    assert(sufs.skip(4) =~= seq!["旗"@, "自治县"@, "市辖区"@, "特区"@, "林区"@]);
    assert(sufs.skip(3).drop_first() == sufs.skip(4));
    assert(sufs.skip(5) =~= seq!["自治县"@, "市辖区"@, "特区"@, "林区"@]);
    assert(sufs.skip(4).drop_first() == sufs.skip(5));
    assert(sufs.skip(6) =~= seq!["市辖区"@, "特区"@, "林区"@]);
    assert(sufs.skip(5).drop_first() == sufs.skip(6));
    assert(sufs.skip(7) =~= seq!["特区"@, "林区"@]);
    assert(sufs.skip(6).drop_first() == sufs.skip(7));
    assert(sufs.skip(8) =~= seq!["林区"@]);
    assert(sufs.skip(7).drop_first() == sufs.skip(8));
    assert(sufs.skip(8).drop_first() =~= Seq::<Seq<char>>::empty());
    if text::ends_with(region, "自治县"@) {
        assert(region.skip(n - 1) =~= region.skip(n - 3).skip(2));
        assert("自治县"@.skip(2) =~= "县"@);
    }
    if text::ends_with(region, "市辖区"@) {
        assert(region.skip(n - 1) =~= region.skip(n - 3).skip(2));
        assert("市辖区"@.skip(2) =~= "区"@);
    }
    if text::ends_with(region, "特区"@) {
        assert(region.skip(n - 1) =~= region.skip(n - 2).skip(1));
        assert("特区"@.skip(1) =~= "区"@);
    }
    if text::ends_with(region, "林区"@) {
        assert(region.skip(n - 1) =~= region.skip(n - 2).skip(1));
        assert("林区"@.skip(1) =~= "区"@);
    }
    assert(strip_first_suffix(region, sufs.skip(8).drop_first()) == region);
    if n > 0 {
        assert(region.take(n - 1) =~= region.drop_last());
    }
    assert(sufs[0] == "市"@);
    assert(sufs.drop_first()[0] == "县"@);
    assert(sufs.drop_first().drop_first()[0] == "区"@);
    if !text::ends_with(region, "市"@) {
        assert(region_name(region) == strip_first_suffix(region, sufs.drop_first()));
        if text::ends_with(region, "县"@) {
            assert(strip_first_suffix(region, sufs.drop_first()) == region.take(n - 1));
        } else {
            assert(strip_first_suffix(region, sufs.drop_first()) == strip_first_suffix(
                region,
                sufs.drop_first().drop_first(),
            ));
            if text::ends_with(region, "区"@) {
                assert(strip_first_suffix(region, sufs.drop_first().drop_first()) == region.take(n - 1));
            } else {
                let t = sufs.drop_first().drop_first();
                assert(strip_first_suffix(region, t) == strip_first_suffix(region, sufs.skip(3)));
                assert(sufs.skip(3)[0] == "自治州"@);
                if text::ends_with(region, "自治州"@) {
                    assert(strip_first_suffix(region, sufs.skip(3)) == region.take(n - 3));
                } else {
                    assert(strip_first_suffix(region, sufs.skip(3)) == strip_first_suffix(region, sufs.skip(4)));
                    assert(sufs.skip(4)[0] == "旗"@);
                    if text::ends_with(region, "旗"@) {
                        assert(strip_first_suffix(region, sufs.skip(4)) == region.take(n - 1));
                    } else {
                        assert(strip_first_suffix(region, sufs.skip(4)) == strip_first_suffix(region, sufs.skip(5)));
                        assert(sufs.skip(5)[0] == "自治县"@);
                        assert(strip_first_suffix(region, sufs.skip(5)) == strip_first_suffix(region, sufs.skip(6)));
                        assert(sufs.skip(6)[0] == "市辖区"@);
                        assert(strip_first_suffix(region, sufs.skip(6)) == strip_first_suffix(region, sufs.skip(7)));
                        assert(sufs.skip(7)[0] == "特区"@);
                        assert(strip_first_suffix(region, sufs.skip(7)) == strip_first_suffix(region, sufs.skip(8)));
                        assert(sufs.skip(8)[0] == "林区"@);
                        assert(strip_first_suffix(region, sufs.skip(8)) == region);
                    }
                }
            }
        }
    }
}

/// Removes from a region's name the first ending, in the order of
/// [`region_suffixes`], that it ends with.
pub fn remove_suffix(region: &str) -> (r: String)
    ensures
        r@ == region_name(region@),
{
    let rc = chars_of(region);
    let sufs: Vec<Vec<char>> = vec![
        chars_of("市"),
        chars_of("县"),
        chars_of("区"),
        chars_of("自治州"),
        chars_of("旗"),
        chars_of("自治县"),
        chars_of("市辖区"),
        chars_of("特区"),
        chars_of("林区"),
    ];
    let ghost all = sufs@.map_values(|v: Vec<char>| v@);
    assert(all =~= region_suffixes());
    let n = sufs.len();
    assert(all.skip(0) == all);
    for i in 0..n
        invariant
            n == sufs@.len(),
            rc@ == region@,
            all == sufs@.map_values(|v: Vec<char>| v@),
            region_name(region@) == strip_first_suffix(region@, all.skip(i as int)),
    {
        assert(all.skip(i as int)[0] == sufs@[i as int]@);
        assert(all.skip(i as int).drop_first() == all.skip(i + 1));
        if ends_with_chars(&rc, &sufs[i]) {
            let cut = rc.len() - sufs[i].len();
            let kept = slice_chars(&rc, 0, cut);
            return string_of(&kept);
        }
    }
    assert(all.skip(n as int).len() == 0);
    string_of(&rc)
}

/// The characters of a text split into nodes.
pub open spec fn node_text(nodes: Seq<Seq<char>>) -> Seq<char> {
    text::join(nodes, seq![])
}

/// The trimmed text of the `k`-th element of a list, or the empty text.
pub open spec fn item_text(items: Seq<Seq<Seq<char>>>, k: int) -> Seq<char> {
    if 0 <= k < items.len() {
        text::trim(node_text(items[k]))
    } else {
        seq![]
    }
}

/// The trimmed text of the first element inside the first group, or the empty text.
pub open spec fn first_group_text(groups: Seq<Seq<Seq<Seq<char>>>>) -> Seq<char> {
    if groups.len() > 0 {
        item_text(groups[0], 0)
    } else {
        seq![]
    }
}

/// One day of the forecast, from the texts of its items and of its high and low marks.
pub open spec fn day_json(items: Seq<Seq<Seq<char>>>, highs: Seq<Seq<Seq<Seq<char>>>>, lows: Seq<Seq<Seq<Seq<char>>>>) -> Json {
    Json::Object(seq![
        ("date"@, json::strs_json(text::words(item_text(items, 0)))),
        ("weather_day"@, Json::Str(item_text(items, 2))),
        ("wind_day"@, Json::Str(item_text(items, 3))),
        ("wind_level_day"@, Json::Str(item_text(items, 4))),
        ("high_temp"@, Json::Str(first_group_text(highs))),
        ("low_temp"@, Json::Str(first_group_text(lows))),
        ("weather_night"@, Json::Str(item_text(items, 6))),
        ("wind_level_night"@, Json::Str(item_text(items, 8))),
    ])
}

/// A day's list of groups at position `d`, or no groups.
pub open spec fn group_at<T>(days: Seq<Seq<T>>, d: int) -> Seq<T> {
    if 0 <= d < days.len() {
        days[d]
    } else {
        seq![]
    }
}

fn item_text_exec(items: &Vec<Vec<String>>, k: usize) -> (r: Vec<char>)
    ensures
        r@ == item_text(html::views2(items@), k as int),
{
    if k < items.len() {
        let t = join_strings(&items[k], "");
        let r = trim_chars(&t);
        proof {
            assert(html::views2(items@)[k as int] == items@[k as int]@.map_values(|s: String| s@));
            reveal_strlit("");
            assert(""@ =~= Seq::<char>::empty());
        }
        r
    } else {
        Vec::new()
    }
}

fn first_group_text_exec(groups: &Vec<Vec<Vec<String>>>) -> (r: Vec<char>)
    ensures
        r@ == first_group_text(groups@.map_values(|b: Vec<Vec<String>>| html::views2(b@))),
{
    if groups.len() > 0 {
        item_text_exec(&groups[0], 0)
    } else {
        Vec::new()
    }
}

/// Builds one day of the forecast from the texts found for it.
pub fn day_value(items: &Vec<Vec<String>>, highs: &Vec<Vec<Vec<String>>>, lows: &Vec<Vec<Vec<String>>>) -> (r: JsonValue)
    ensures
        r@ == day_json(
            html::views2(items@),
            highs@.map_values(|b: Vec<Vec<String>>| html::views2(b@)),
            lows@.map_values(|b: Vec<Vec<String>>| html::views2(b@)),
        ),
{
    let date = item_text_exec(items, 0);
    let date_words = words_chars(&date);
    let date_value = JsonValue::from_char_lists(&date_words);
    assert(date_words@.map_values(|v: Vec<char>| v@) =~= text::words(date@));
    let mut entries: Vec<(String, JsonValue)> = Vec::new();
    entries.push(("date".to_owned(), date_value));
    entries.push(("weather_day".to_owned(), JsonValue::from_chars(&item_text_exec(items, 2))));
    entries.push(("wind_day".to_owned(), JsonValue::from_chars(&item_text_exec(items, 3))));
    entries.push(("wind_level_day".to_owned(), JsonValue::from_chars(&item_text_exec(items, 4))));
    entries.push(("high_temp".to_owned(), JsonValue::from_chars(&first_group_text_exec(highs))));
    entries.push(("low_temp".to_owned(), JsonValue::from_chars(&first_group_text_exec(lows))));
    entries.push(("weather_night".to_owned(), JsonValue::from_chars(&item_text_exec(items, 6))));
    entries.push(("wind_level_night".to_owned(), JsonValue::from_chars(&item_text_exec(items, 8))));
    let r = JsonValue::Object(entries);
    proof {
        lemma_object_model(entries);
        let m = r@->Object_0;
        let expected = day_json(
            html::views2(items@),
            highs@.map_values(|b: Vec<Vec<String>>| html::views2(b@)),
            lows@.map_values(|b: Vec<Vec<String>>| html::views2(b@)),
        )->Object_0;
        assert(m =~= expected);
    }
    r
}


/// The forecast read from a weather page: one day per `div.day`, from the texts of
/// its `div.day-item` elements and of the `div.high` and `div.low` marks in its
/// first `div.bar`. `None` only where a selector is refused.
pub fn parse_weather(page: &str) -> (r: Option<Vec<JsonValue>>)
    ensures
        match (
            html::fragment_scoped_text_nodes(page@, "div.day"@, "div.day-item"@),
            html::fragment_scoped2_text_nodes(page@, "div.day"@, "div.bar"@, "div.high"@),
            html::fragment_scoped2_text_nodes(page@, "div.day"@, "div.bar"@, "div.low"@),
        ) {
            (Some(items), Some(highs), Some(lows)) => r matches Some(v) && v@.len() == items.len()
                && forall|d: int| 0 <= d < items.len() ==> #[trigger] v@[d]@ == day_json(
                    items[d],
                    group_at(highs, d),
                    group_at(lows, d),
                ),
            _ => r is None,
        },
{
    let items = match select_scoped_text_nodes(page, "div.day", "div.day-item") {
        Some(v) => v,
        None => return None,
    };
    let highs = match select_scoped2_text_nodes(page, "div.day", "div.bar", "div.high") {
        Some(v) => v,
        None => return None,
    };
    let lows = match select_scoped2_text_nodes(page, "div.day", "div.bar", "div.low") {
        Some(v) => v,
        None => return None,
    };
    let ghost mi = items@.map_values(|l: Vec<Vec<String>>| html::views2(l@));
    let ghost mh = highs@.map_values(|a: Vec<Vec<Vec<String>>>| a@.map_values(|b: Vec<Vec<String>>| html::views2(b@)));
    let ghost ml = lows@.map_values(|a: Vec<Vec<Vec<String>>>| a@.map_values(|b: Vec<Vec<String>>| html::views2(b@)));
    let empty: Vec<Vec<Vec<String>>> = Vec::new();
    let mut days: Vec<JsonValue> = Vec::new();
    let n = items.len();
    for d in 0..n
        invariant
            n == items@.len(),
            empty@.len() == 0,
            mi == items@.map_values(|l: Vec<Vec<String>>| html::views2(l@)),
            mh == highs@.map_values(|a: Vec<Vec<Vec<String>>>| a@.map_values(|b: Vec<Vec<String>>| html::views2(b@))),
            ml == lows@.map_values(|a: Vec<Vec<Vec<String>>>| a@.map_values(|b: Vec<Vec<String>>| html::views2(b@))),
            days@.len() == d,
            forall|j: int| 0 <= j < d ==> #[trigger] days@[j]@ == day_json(mi[j], group_at(mh, j), group_at(ml, j)),
    {
        let high = if d < highs.len() { &highs[d] } else { &empty };
        let low = if d < lows.len() { &lows[d] } else { &empty };
        let day = day_value(&items[d], high, low);
        proof {
            assert(high@.map_values(|b: Vec<Vec<String>>| html::views2(b@)) =~= group_at(mh, d as int));
            assert(low@.map_values(|b: Vec<Vec<String>>| html::views2(b@)) =~= group_at(ml, d as int));
        }
        days.push(day);
    }
    Some(days)
}

/// The entry of the city table made from one `[code, name]` record: an object from
/// the name to the code (empty when the name is not a string), or nothing when the
/// record lacks either element.
pub open spec fn city_entry(city: Json) -> Option<Json> {
    match (city.at(1), city.at(0)) {
        (Some(name), Some(code)) => Some(
            match name.as_str() {
                Some(n) => Json::Object(seq![(n, code)]),
                None => Json::Object(seq![]),
            },
        ),
        _ => None,
    }
}

/// The city table made from a list of records.
pub open spec fn city_entries(records: Seq<Json>) -> Seq<Json>
    decreases records.len(),
{
    if records.len() == 0 {
        seq![]
    } else {
        city_entries(records.drop_last()) + match city_entry(records.last()) {
            Some(e) => seq![e],
            None => seq![],
        }
    }
}

/// The city table made from the weather service's city list (`data.city`).
pub open spec fn city_table(res: Json) -> Seq<Json> {
    match res.get("data"@) {
        Some(d) => match d.get("city"@) {
            Some(c) => match c.as_array() {
                Some(records) => city_entries(records),
                None => seq![],
            },
            None => seq![],
        },
        None => seq![],
    }
}

/// Builds the city table, one object per complete `[code, name]` record.
pub fn build_city_table(res: &JsonValue) -> (r: Vec<JsonValue>)
    ensures
        r@.map_values(|v: JsonValue| v@) == city_table(res@),
{
    let records = match res.get("data") {
        Some(d) => match d.get("city") {
            Some(c) => match c.as_array() {
                Some(a) => a,
                None => return Vec::new(),
            },
            None => return Vec::new(),
        },
        None => return Vec::new(),
    };
    let ghost m = city_table(res@);
    let ghost recs = res@.get("data"@)->0.get("city"@)->0.as_array()->0;
    let mut out: Vec<JsonValue> = Vec::new();
    let n = records.len();
    for i in 0..n
        invariant
            n == records@.len(),
            recs.len() == n,
            forall|j: int| 0 <= j < n ==> #[trigger] recs[j] == records@[j]@,
            m == city_entries(recs),
            out@.map_values(|v: JsonValue| v@) == city_entries(recs.take(i as int)),
    {
        let city = &records[i];
        let ghost before = out@.map_values(|v: JsonValue| v@);
        assert(recs.take(i + 1).drop_last() == recs.take(i as int));
        assert(recs.take(i + 1).last() == city@);
        match (city.at(1), city.at(0)) {
            (Some(name), Some(code)) => {
                let mut entries: Vec<(String, JsonValue)> = Vec::new();
                match name.as_str() {
                    Some(n) => {
                        entries.push((n.to_owned(), code.deep_clone()));
                    },
                    None => {},
                }
                let e = JsonValue::Object(entries);
                proof {
                    lemma_object_model(entries);
                    let em = e@->Object_0;
                    let want = city_entry(city@)->0->Object_0;
                    assert(em =~= want);
                }
                out.push(e);
                assert(out@.map_values(|v: JsonValue| v@) =~= before + seq![e@]);
            },
            _ => {
                assert(out@.map_values(|v: JsonValue| v@) =~= before + seq![]);
            },
        }
    }
    assert(recs.take(n as int) == recs);
    out
}

/// The id of the first city in the table whose name is `name`.
pub open spec fn city_id(table: Seq<Json>, name: Seq<char>) -> Option<Seq<char>>
    decreases table.len(),
{
    if table.len() == 0 {
        None
    } else {
        match json::str_at(table[0], name) {
            Some(id) => Some(id),
            None => city_id(table.drop_first(), name),
        }
    }
}

/// Looks a region's name up in the city table.
pub fn find_city_id(table: &Vec<JsonValue>, name: &str) -> (r: Option<String>)
    ensures
        match city_id(table@.map_values(|v: JsonValue| v@), name@) {
            Some(id) => r matches Some(s) && s@ == id,
            None => r is None,
        },
{
    let ghost m = table@.map_values(|v: JsonValue| v@);
    let n = table.len();
    assert(m.skip(0) == m);
    for i in 0..n
        invariant
            n == table@.len(),
            m == table@.map_values(|v: JsonValue| v@),
            city_id(m, name@) == city_id(m.skip(i as int), name@),
    {
        assert(m.skip(i as int)[0] == table@[i as int]@);
        assert(m.skip(i as int).drop_first() == m.skip(i + 1));
        match table[i].str_at(name) {
            Some(id) => return Some(id.to_owned()),
            None => {},
        }
    }
    assert(m.skip(n as int).len() == 0);
    None
}

/// The address of a city's forecast page.
pub fn weather_page_url(id: &str) -> (r: String)
    ensures
        r@ == "https://weather.cma.cn/web/weather/"@ + id@ + ".html"@,
{
    let base = chars_of("https://weather.cma.cn/web/weather/");
    let a = concat_str(&base, id);
    let b = concat_str(&a, ".html");
    string_of(&b)
}

/// The answer of the weather endpoint.
pub open spec fn weather_json(q: Seq<char>, id: Seq<char>, days: Seq<Json>) -> Json {
    Json::Object(seq![
        ("title"@, Json::Str("天气查询"@)),
        ("q"@, Json::Str(q)),
        ("id"@, Json::Str(id)),
        ("list"@, Json::Array(days)),
    ])
}

/// Builds the answer of the weather endpoint.
pub fn weather_data(q: &str, id: &str, days: Vec<JsonValue>) -> (r: JsonValue)
    ensures
        r@ == weather_json(q@, id@, days@.map_values(|v: JsonValue| v@)),
{
    let ghost dm = days@.map_values(|v: JsonValue| v@);
    let list = JsonValue::Array(days);
    proof {
        lemma_array_model(days);
        assert(list@->Array_0 =~= dm);
    }
    let mut entries: Vec<(String, JsonValue)> = Vec::new();
    entries.push(("title".to_owned(), JsonValue::string("天气查询")));
    entries.push(("q".to_owned(), JsonValue::string(q)));
    entries.push(("id".to_owned(), JsonValue::string(id)));
    entries.push(("list".to_owned(), list));
    let r = JsonValue::Object(entries);
    proof {
        lemma_object_model(entries);
        assert(r@->Object_0 =~= weather_json(q@, id@, dm)->Object_0);
    }
    r
}

/// The weather answer gives the query as written, the city id found for it, and the
/// days in the order given.
pub proof fn law_weather_members(q: Seq<char>, id: Seq<char>, days: Seq<Json>)
    ensures
        weather_json(q, id, days).field("title"@) == Json::Str("天气查询"@),
        weather_json(q, id, days).field("q"@) == Json::Str(q),
        weather_json(q, id, days).field("id"@) == Json::Str(id),
        weather_json(q, id, days).field("list"@) == Json::Array(days),
{
    reveal_strlit("title");
    reveal_strlit("q");
    reveal_strlit("id");
    reveal_strlit("list");
    reveal_with_fuel(crate::json::lookup, 5);
    assert("title"@.len() == 5);
    assert("q"@.len() == 1);
    assert("id"@.len() == 2);
    assert("list"@.len() == 4);
}

/// A day of the forecast reads its items by position: the words of the first item
/// are the date, items 2, 3 and 4 the day's weather, wind and wind level, items 6
/// and 8 the night's weather and wind level; the high and low temperatures are the
/// first marks of its first bar.
pub proof fn law_day_members(items: Seq<Seq<Seq<char>>>, highs: Seq<Seq<Seq<Seq<char>>>>, lows: Seq<Seq<Seq<Seq<char>>>>)
    ensures
        day_json(items, highs, lows).field("date"@) == json::strs_json(text::words(item_text(items, 0))),
        day_json(items, highs, lows).field("weather_day"@) == Json::Str(item_text(items, 2)),
        day_json(items, highs, lows).field("wind_day"@) == Json::Str(item_text(items, 3)),
        day_json(items, highs, lows).field("wind_level_day"@) == Json::Str(item_text(items, 4)),
        day_json(items, highs, lows).field("high_temp"@) == Json::Str(first_group_text(highs)),
        day_json(items, highs, lows).field("low_temp"@) == Json::Str(first_group_text(lows)),
        day_json(items, highs, lows).field("weather_night"@) == Json::Str(item_text(items, 6)),
        day_json(items, highs, lows).field("wind_level_night"@) == Json::Str(item_text(items, 8)),
{
    reveal_strlit("date");
    reveal_strlit("weather_day");
    reveal_strlit("wind_day");
    reveal_strlit("wind_level_day");
    reveal_strlit("high_temp");
    reveal_strlit("low_temp");
    reveal_strlit("weather_night");
    reveal_strlit("wind_level_night");
    reveal_with_fuel(crate::json::lookup, 9);
    assert("date"@.len() == 4);
    assert("weather_day"@.len() == 11);
    assert("wind_day"@.len() == 8);
    assert("wind_level_day"@.len() == 14);
    assert("high_temp"@.len() == 9);
    assert("low_temp"@.len() == 8);
    assert("weather_night"@.len() == 13);
    assert("wind_level_night"@.len() == 16);
    assert("wind_day"@[0] == 'w' && "low_temp"@[0] == 'l');
}

/// A city record `[code, name, ..]` whose name is a text becomes the table entry
/// from that name to that code; and a name is looked up in the first table entry
/// that maps it to a text, that text being the city's id.
pub proof fn law_city_lookup(record: Json, entry: Json, rest: Seq<Json>, name: Seq<char>)
    ensures
        (record.at(0) is Some && record.at(1) is Some && record.at(1)->0 is Str) ==> city_entry(record) == Some(
            Json::Object(seq![(record.at(1)->0->Str_0, record.at(0)->0)]),
        ),
        (record.at(0) is None || record.at(1) is None) ==> city_entry(record) is None,
        (entry.get(name) is Some && entry.get(name)->0 is Str) ==> city_id(seq![entry] + rest, name) == Some(
            entry.get(name)->0->Str_0,
        ),
        !(entry.get(name) is Some && entry.get(name)->0 is Str) ==> city_id(seq![entry] + rest, name) == city_id(
            rest,
            name,
        ),
        city_id(seq![], name) is None,
{
    assert((seq![entry] + rest)[0] == entry);
    assert((seq![entry] + rest).drop_first() =~= rest);
}

/// An item's text is its text nodes run together and trimmed; an item that is not
/// there reads as empty. The high and low marks are read in the first bar only.
pub proof fn law_item_text(items: Seq<Seq<Seq<char>>>, k: int, groups: Seq<Seq<Seq<Seq<char>>>>)
    ensures
        0 <= k < items.len() ==> item_text(items, k) == text::trim(text::join(items[k], seq![])),
        !(0 <= k < items.len()) ==> item_text(items, k) == Seq::<char>::empty(),
        groups.len() > 0 ==> first_group_text(groups) == item_text(groups[0], 0),
        groups.len() == 0 ==> first_group_text(groups) == Seq::<char>::empty(),
{
}

} // verus!
