//! A random song of the Changya app.
use vstd::prelude::*;
use crate::json::{Json, JsonValue, lemma_object_model};
use crate::response::AppError;
use crate::text::{join_strings, string_of};
use crate::html::select_text_nodes;
use crate::html;
use crate::json;
use crate::text;

verus! {

/// The page a random song is read from.
pub const CHANGYA_PAGE_URL: &'static str = "https://m.api.singduck.cn/user-piece/6oGNUeM16kBuRmPct?userId=2003919010";

/// The value of a hexadecimal digit byte, as `char::to_digit(16)` reads it.
pub open spec fn hex_digit_value(b: u8) -> Option<u8> {
    if 48 <= b <= 57 {
        Some((b - 48) as u8)
    } else if 97 <= b <= 102 {
        Some((b - 87) as u8)
    } else if 65 <= b <= 70 {
        Some((b - 55) as u8)
    } else {
        None
    }
}

/// Percent-decoding: each `%` followed by two hexadecimal digits becomes the byte
/// they give; every other byte stays.
pub open spec fn percent_decode(b: Seq<u8>) -> Seq<u8>
    decreases b.len(),
{
    if b.len() == 0 {
        seq![]
    } else if b.len() >= 3 && b[0] == 37 && hex_digit_value(b[1]) is Some && hex_digit_value(b[2]) is Some {
        seq![(hex_digit_value(b[1])->0 * 16 + hex_digit_value(b[2])->0) as u8] + percent_decode(b.skip(3))
    } else {
        seq![b[0]] + percent_decode(b.drop_first())
    }
}

/// Bytes without a `%` decode to themselves.
pub proof fn law_percent_decode_plain(b: Seq<u8>)
    requires
        forall|i: int| 0 <= i < b.len() ==> #[trigger] b[i] != 37,
    ensures
        percent_decode(b) == b,
    decreases b.len(),
{
    if b.len() > 0 {
        let rest = b.drop_first();
        assert forall|i: int| 0 <= i < rest.len() implies #[trigger] rest[i] != 37 by {
            assert(rest[i] == b[i + 1]);
        }
        law_percent_decode_plain(rest);
        assert(b =~= seq![b[0]] + rest);
    }
}

/// The byte of a hexadecimal digit value below 16, lower-case or upper-case.
pub open spec fn hex_byte(d: nat, upper: bool) -> u8 {
    if d < 10 {
        (48 + d) as u8
    } else if upper {
        (55 + d) as u8
    } else {
        (87 + d) as u8
    }
}

/// A `%` followed by two hexadecimal digits, of either case, becomes the byte whose
/// high and low halves they give; a `%` not followed by two such digits stays as it is.
pub proof fn law_percent_decode_escape(hi: nat, lo: nat, upper_hi: bool, upper_lo: bool, rest: Seq<u8>)
    requires
        hi < 16,
        lo < 16,
    ensures
        percent_decode(seq![37u8, hex_byte(hi, upper_hi), hex_byte(lo, upper_lo)] + rest)
            == seq![(hi * 16 + lo) as u8] + percent_decode(rest),
        percent_decode(seq![37u8]) == seq![37u8],
        percent_decode(seq![37u8, 71u8] + rest) == seq![37u8] + percent_decode(seq![71u8] + rest),
{
    let b = seq![37u8, hex_byte(hi, upper_hi), hex_byte(lo, upper_lo)] + rest;
    assert(b[0] == 37u8 && b[1] == hex_byte(hi, upper_hi) && b[2] == hex_byte(lo, upper_lo));
    assert(b.skip(3) =~= rest);
    let c = seq![37u8, 71u8] + rest;
    assert(c[0] == 37u8 && c[1] == 71u8);
    assert(c.drop_first() =~= seq![71u8] + rest);
    assert(seq![37u8].drop_first() =~= Seq::<u8>::empty());
    assert(percent_decode(Seq::<u8>::empty()) == Seq::<u8>::empty());
}

/// Calls `percent_decode_str(s).decode_utf8()`: the bytes of `s`, percent-decoded,
/// read as UTF-8; `None` where they are not UTF-8.
#[verifier::external_body]
fn percent_decode_utf8(s: &str) -> (r: Option<String>)
    ensures
        r is Some <==> vstd::utf8::valid_utf8(percent_decode(vstd::utf8::encode_utf8(s@))),
        r matches Some(t) ==> t@ == vstd::utf8::decode_utf8(percent_decode(vstd::utf8::encode_utf8(s@))),
{
    percent_encoding::percent_decode_str(s).decode_utf8().ok().map(|c| c.into_owned())
}

/// The text of the first `#__NEXT_DATA__` element of a page.
pub open spec fn next_data_text(page: Seq<char>) -> Option<Seq<char>> {
    match html::document_text_nodes(page, "#__NEXT_DATA__"@) {
        Some(elements) => if elements.len() > 0 {
            Some(text::join(elements[0], seq![]))
        } else {
            None
        },
        None => None,
    }
}

/// Reads the text of the page's `#__NEXT_DATA__` script, the song data; an error
/// ("未找到脚本标签", script tag not found) when there is none.
pub fn next_data_of(page: &str) -> (r: Result<String, AppError>)
    ensures
        match next_data_text(page@) {
            Some(t) => r matches Ok(s) && s@ == t,
            None => r matches Err(AppError::Anyhow(m)) && m@ == "未找到脚本标签"@,
        },
{
    let found = match select_text_nodes(page, "#__NEXT_DATA__") {
        Some(els) => if els.len() > 0 {
            let t = join_strings(&els[0], "");
            proof {
                reveal_strlit("");
                assert(""@ =~= Seq::<char>::empty());
                assert(html::views2(els@)[0] == els@[0]@.map_values(|s: String| s@));
            }
            Some(string_of(&t))
        } else {
            None
        },
        None => None,
    };
    match found {
        Some(t) => Ok(t),
        None => Err(AppError::Anyhow("未找到脚本标签".to_owned())),
    }
}

/// The first piece of the song data (`props.pageProps.pieces[0]`), or the error
/// that says what is missing.
pub open spec fn first_piece(doc: Json) -> Result<Json, Seq<char>> {
    match doc.field("props"@).field("pageProps"@).field("pieces"@).as_array() {
        Some(pieces) => if pieces.len() > 0 {
            Ok(pieces[0])
        } else {
            Err("空数据列表"@)
        },
        None => Err("无效的pieces格式"@),
    }
}

/// Finds the first piece of the song data; an error ("无效的pieces格式", bad pieces, or
/// "空数据列表", empty list) when there is none.
pub fn first_piece_of(doc: &JsonValue) -> (r: Result<&JsonValue, AppError>)
    ensures
        match first_piece(doc@) {
            Ok(p) => r matches Ok(v) && v@ == p,
            Err(m) => r matches Err(AppError::Anyhow(t)) && t@ == m,
        },
{
    let pieces = match doc.get("props") {
        Some(p) => match p.get("pageProps") {
            Some(pp) => match pp.get("pieces") {
                Some(l) => l.as_array(),
                None => None,
            },
            None => None,
        },
        None => None,
    };
    match pieces {
        Some(list) => if list.len() > 0 {
            Ok(&list[0])
        } else {
            Err(AppError::Anyhow("空数据列表".to_owned()))
        },
        None => Err(AppError::Anyhow("无效的pieces格式".to_owned())),
    }
}

/// The text of a piece's member, or the empty text.
pub open spec fn text_or_empty(piece: Json, key: Seq<char>) -> Seq<char> {
    match piece.field(key).as_str() {
        Some(s) => s,
        None => seq![],
    }
}

/// The address of a piece's audio, percent-decoded; `None` where the decoded bytes are
/// not UTF-8, which the endpoint cannot go on with.
pub fn audio_url_of(piece: &JsonValue) -> (r: Option<String>)
    ensures
        r is Some <==> vstd::utf8::valid_utf8(percent_decode(vstd::utf8::encode_utf8(text_or_empty(piece@, "audioUrl"@)))),
        r matches Some(t) ==> t@ == vstd::utf8::decode_utf8(percent_decode(vstd::utf8::encode_utf8(text_or_empty(piece@, "audioUrl"@)))),
{
    let raw: &str = match piece.get("audioUrl") {
        Some(v) => match v.as_str() {
            Some(s) => s,
            None => "",
        },
        None => "",
    };
    proof {
        reveal_strlit("");
    }
    assert(raw@ == text_or_empty(piece@, "audioUrl"@));
    percent_decode_utf8(raw)
}

/// The answer of the song endpoint.
pub open spec fn changgya_json(piece: Json, audio: Seq<char>) -> Json {
    Json::Object(seq![
        ("title"@, Json::Str("随机唱鸭"@)),
        ("artist"@, Json::Str(text_or_empty(piece, "artist"@))),
        ("avatarUrl"@, Json::Str(text_or_empty(piece, "avatarUrl"@))),
        ("lyric"@, Json::Str(text_or_empty(piece, "lyric"@))),
        ("audioUrl"@, Json::Str(audio)),
    ])
}

/// Each member of the song answer comes from the piece's member of the same name (a
/// text, or the empty text when the piece has none), apart from the fixed title and
/// the decoded audio address given.
pub proof fn law_changgya_members(piece: Json, audio: Seq<char>)
    ensures
        changgya_json(piece, audio).field("title"@) == Json::Str("随机唱鸭"@),
        changgya_json(piece, audio).field("artist"@) == Json::Str(
            match piece.get("artist"@) { Some(Json::Str(s)) => s, _ => seq![] },
        ),
        changgya_json(piece, audio).field("avatarUrl"@) == Json::Str(
            match piece.get("avatarUrl"@) { Some(Json::Str(s)) => s, _ => seq![] },
        ),
        changgya_json(piece, audio).field("lyric"@) == Json::Str(
            match piece.get("lyric"@) { Some(Json::Str(s)) => s, _ => seq![] },
        ),
        changgya_json(piece, audio).field("audioUrl"@) == Json::Str(audio),
{
    reveal_strlit("title");
    reveal_strlit("artist");
    reveal_strlit("avatarUrl");
    reveal_strlit("lyric");
    reveal_strlit("audioUrl");
    reveal_with_fuel(json::lookup, 6);
    assert("title"@.len() == 5 && "title"@[0] == 't');
    assert("artist"@.len() == 6 && "artist"@[0] == 'a');
    assert("avatarUrl"@.len() == 9);
    assert("lyric"@.len() == 5 && "lyric"@[0] == 'l');
    assert("audioUrl"@.len() == 8);
}

fn text_or_empty_exec(piece: &JsonValue, key: &str) -> (r: JsonValue)
    ensures
        r@ == Json::Str(text_or_empty(piece@, key@)),
{
    match piece.get(key) {
        Some(v) => match v.as_str() {
            Some(s) => JsonValue::string(s),
            None => JsonValue::Str(String::new()),
        },
        None => JsonValue::Str(String::new()),
    }
}

/// Builds the answer of the song endpoint from a piece and its decoded audio address.
pub fn changgya_data(piece: &JsonValue, audio: &str) -> (r: JsonValue)
    ensures
        r@ == changgya_json(piece@, audio@),
{
    let mut entries: Vec<(String, JsonValue)> = Vec::new();
    entries.push(("title".to_owned(), JsonValue::string("随机唱鸭")));
    entries.push(("artist".to_owned(), text_or_empty_exec(piece, "artist")));
    entries.push(("avatarUrl".to_owned(), text_or_empty_exec(piece, "avatarUrl")));
    entries.push(("lyric".to_owned(), text_or_empty_exec(piece, "lyric")));
    entries.push(("audioUrl".to_owned(), JsonValue::string(audio)));
    let r = JsonValue::Object(entries);
    proof {
        lemma_object_model(entries);
        assert(r@->Object_0 =~= changgya_json(piece@, audio@)->Object_0);
    }
    r
}

/// The song data is the text of the page's `#__NEXT_DATA__` element; the piece is the
/// first of `props.pageProps.pieces`, an empty list being "空数据列表" and a missing
/// one "无效的pieces格式".
pub proof fn law_song_data(page: Seq<char>, doc: Json)
    ensures
        next_data_text(page) == match html::document_text_nodes(page, "#__NEXT_DATA__"@) {
            Some(elements) => if elements.len() > 0 { Some(text::join(elements[0], seq![])) } else { None },
            None => None,
        },
        first_piece(doc) == match doc.field("props"@).field("pageProps"@).field("pieces"@) {
            Json::Array(pieces) => if pieces.len() > 0 { Ok(pieces[0]) } else { Err("空数据列表"@) },
            _ => Err("无效的pieces格式"@),
        },
{
}

} // verus!
