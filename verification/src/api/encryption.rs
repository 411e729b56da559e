//! Hex digests of a text.
use vstd::prelude::*;
use crate::json::{Json, JsonValue, lemma_object_model, json_syntax_error};
use crate::response::{AppError, JsonResponse};
use crate::text::string_of;
use crate::json;

verus! {

/// The query of the digest endpoint: the text, under the name of the digest wanted.
pub struct QueryParams {
    pub md5: Option<String>,
    pub sha256: Option<String>,
    pub sha384: Option<String>,
    pub sha512: Option<String>,
}

/// The digests the endpoint can compute.
#[derive(Clone, Copy, Debug, PartialEq, Eq, Structural)]
pub enum HashKind {
    Md5,
    Sha256,
    Sha384,
    Sha512,
}

/// What `md5::compute` gives for some bytes.
pub uninterp spec fn md5_of(data: Seq<u8>) -> Seq<u8>;

/// What `Sha256` gives for some bytes.
pub uninterp spec fn sha256_of(data: Seq<u8>) -> Seq<u8>;

/// What `Sha384` gives for some bytes.
pub uninterp spec fn sha384_of(data: Seq<u8>) -> Seq<u8>;

/// What `Sha512` gives for some bytes.
pub uninterp spec fn sha512_of(data: Seq<u8>) -> Seq<u8>;

/// Calls `md5::compute`; the digest is named, not stated. It is 16 bytes long
/// (`md5::Digest` holds a `[u8; 16]`).
#[verifier::external_body]
fn md5_digest(data: &[u8]) -> (r: Vec<u8>)
    ensures
        r@ == md5_of(data@),
        r@.len() == 16,
{
    md5::compute(data).0.to_vec()
}

/// Calls `Sha256::new`, `update` and `finalize`; the digest is named, not stated. It
/// is 32 bytes long (the type's `OutputSize` is `U32`).
#[verifier::external_body]
fn sha256_digest(data: &[u8]) -> (r: Vec<u8>)
    ensures
        r@ == sha256_of(data@),
        r@.len() == 32,
{
    let mut h = <sha2::Sha256 as sha2::Digest>::new();
    sha2::Digest::update(&mut h, data);
    sha2::Digest::finalize(h).to_vec()
}

/// Calls `Sha384::new`, `update` and `finalize`; the digest is named, not stated. It
/// is 48 bytes long (the type's `OutputSize` is `U48`).
#[verifier::external_body]
fn sha384_digest(data: &[u8]) -> (r: Vec<u8>)
    ensures
        r@ == sha384_of(data@),
        r@.len() == 48,
{
    let mut h = <sha2::Sha384 as sha2::Digest>::new();
    sha2::Digest::update(&mut h, data);
    sha2::Digest::finalize(h).to_vec()
}

/// Calls `Sha512::new`, `update` and `finalize`; the digest is named, not stated. It
/// is 64 bytes long (the type's `OutputSize` is `U64`).
#[verifier::external_body]
fn sha512_digest(data: &[u8]) -> (r: Vec<u8>)
    ensures
        r@ == sha512_of(data@),
        r@.len() == 64,
{
    let mut h = <sha2::Sha512 as sha2::Digest>::new();
    sha2::Digest::update(&mut h, data);
    sha2::Digest::finalize(h).to_vec()
}

/// The digest a query asks for and the text to digest: the first given of md5,
/// sha256, sha384 and sha512, in that order.
pub open spec fn chosen(params: QueryParams) -> Option<(HashKind, Seq<char>)> {
    if params.md5 is Some {
        Some((HashKind::Md5, params.md5->0@))
    } else if params.sha256 is Some {
        Some((HashKind::Sha256, params.sha256->0@))
    } else if params.sha384 is Some {
        Some((HashKind::Sha384, params.sha384->0@))
    } else if params.sha512 is Some {
        Some((HashKind::Sha512, params.sha512->0@))
    } else {
        None
    }
}

/// The digest follows the name the text is given under: md5 gives MD5, sha256
/// SHA-256, sha384 SHA-384 and sha512 SHA-512, the first given of these in that order
/// winning; no text gives no digest. The hex answer is two characters per byte of
/// that digest: 32, 64, 96 and 128 characters.
pub proof fn law_digest_follows_query(params: QueryParams)
    ensures
        params.md5 is Some ==> chosen(params) == Some((HashKind::Md5, params.md5->0@)),
        params.md5 is None && params.sha256 is Some
            ==> chosen(params) == Some((HashKind::Sha256, params.sha256->0@)),
        params.md5 is None && params.sha256 is None && params.sha384 is Some
            ==> chosen(params) == Some((HashKind::Sha384, params.sha384->0@)),
        params.md5 is None && params.sha256 is None && params.sha384 is None && params.sha512 is Some
            ==> chosen(params) == Some((HashKind::Sha512, params.sha512->0@)),
        params.md5 is None && params.sha256 is None && params.sha384 is None && params.sha512 is None
            ==> chosen(params) is None,
        2 * digest_len(HashKind::Md5) == 32 && 2 * digest_len(HashKind::Sha256) == 64
            && 2 * digest_len(HashKind::Sha384) == 96 && 2 * digest_len(HashKind::Sha512) == 128,
{
}

/// The digest the query asks for, and the text; `None` when it names none.
pub fn chosen_hash(params: &QueryParams) -> (r: Option<(HashKind, &str)>)
    ensures
        params.md5 is Some ==> (r matches Some((k, t)) && k == HashKind::Md5 && t@ == params.md5->0@),
        params.md5 is None && params.sha256 is Some
            ==> (r matches Some((k, t)) && k == HashKind::Sha256 && t@ == params.sha256->0@),
        params.md5 is None && params.sha256 is None && params.sha384 is Some
            ==> (r matches Some((k, t)) && k == HashKind::Sha384 && t@ == params.sha384->0@),
        params.md5 is None && params.sha256 is None && params.sha384 is None && params.sha512 is Some
            ==> (r matches Some((k, t)) && k == HashKind::Sha512 && t@ == params.sha512->0@),
        match chosen(*params) {
            Some((k, t)) => r matches Some((kind, text)) && kind == k && text@ == t,
            None => r is None,
        },
{
    match (&params.md5, &params.sha256, &params.sha384, &params.sha512) {
        (Some(t), _, _, _) => Some((HashKind::Md5, t.as_str())),
        (None, Some(t), _, _) => Some((HashKind::Sha256, t.as_str())),
        (None, None, Some(t), _) => Some((HashKind::Sha384, t.as_str())),
        (None, None, None, Some(t)) => Some((HashKind::Sha512, t.as_str())),
        (None, None, None, None) => None,
    }
}

/// The digest of some bytes.
pub open spec fn digest_of(kind: HashKind, data: Seq<u8>) -> Seq<u8> {
    match kind {
        HashKind::Md5 => md5_of(data),
        HashKind::Sha256 => sha256_of(data),
        HashKind::Sha384 => sha384_of(data),
        HashKind::Sha512 => sha512_of(data),
    }
}

/// The length in bytes of each digest.
pub open spec fn digest_len(kind: HashKind) -> nat {
    match kind {
        HashKind::Md5 => 16,
        HashKind::Sha256 => 32,
        HashKind::Sha384 => 48,
        HashKind::Sha512 => 64,
    }
}

/// The lower-case character of a hexadecimal digit.
pub open spec fn hex_char(d: nat) -> char {
    if d < 10 {
        (48 + d) as char
    } else {
        (87 + d) as char
    }
}

/// Bytes written in lower-case hexadecimal, two digits each (`{:x}`).
pub open spec fn lower_hex(b: Seq<u8>) -> Seq<char>
    decreases b.len(),
{
    if b.len() == 0 {
        seq![]
    } else {
        lower_hex(b.drop_last()) + seq![hex_char((b.last() / 16) as nat), hex_char((b.last() % 16) as nat)]
    }
}

/// Lower-case hex is two characters per byte.
pub proof fn lemma_lower_hex_len(b: Seq<u8>)
    ensures
        lower_hex(b).len() == 2 * b.len(),
    decreases b.len(),
{
    if b.len() > 0 {
        lemma_lower_hex_len(b.drop_last());
    }
}

/// Whether a character is a lower-case hexadecimal digit.
pub open spec fn is_lower_hex_digit(c: char) -> bool {
    ('0' <= c <= '9') || ('a' <= c <= 'f')
}

/// The value of a lower-case hexadecimal digit.
pub open spec fn hex_value(c: char) -> nat {
    if c <= '9' {
        (c as int - 48) as nat
    } else {
        (c as int - 87) as nat
    }
}

/// Lower-case hex loses nothing: it is made of lower-case hex digits only, and
/// characters `2j` and `2j + 1` are the high and the low digit of byte `j`.
pub proof fn law_lower_hex_reads_back(b: Seq<u8>)
    ensures
        lower_hex(b).len() == 2 * b.len(),
        forall|i: int| 0 <= i < lower_hex(b).len() ==> is_lower_hex_digit(#[trigger] lower_hex(b)[i]),
        forall|j: int| 0 <= j < b.len() ==>
            hex_value(lower_hex(b)[2 * j]) * 16 + hex_value(lower_hex(b)[2 * j + 1]) == #[trigger] b[j],
    decreases b.len(),
{
    lemma_lower_hex_len(b);
    if b.len() > 0 {
        let p = b.drop_last();
        law_lower_hex_reads_back(p);
        let x = b.last();
        let hi = (x / 16) as nat;
        let lo = (x % 16) as nat;
        let h = lower_hex(b);
        let hp = lower_hex(p);
        assert(h == hp + seq![hex_char(hi), hex_char(lo)]);
        assert(hex_value(hex_char(hi)) == hi);
        assert(hex_value(hex_char(lo)) == lo);
        assert forall|i: int| 0 <= i < h.len() implies is_lower_hex_digit(#[trigger] h[i]) by {
            if i < hp.len() {
                assert(h[i] == hp[i]);
            }
        }
        assert forall|j: int| 0 <= j < b.len() implies
            hex_value(h[2 * j]) * 16 + hex_value(h[2 * j + 1]) == #[trigger] b[j] by {
            if j < p.len() {
                assert(b[j] == p[j]);
                assert(h[2 * j] == hp[2 * j]);
                assert(h[2 * j + 1] == hp[2 * j + 1]);
            } else {
                assert(j == p.len());
                assert(h[2 * j] == hex_char(hi));
                assert(h[2 * j + 1] == hex_char(lo));
            }
        }
    }
}

fn hex_digit(d: u8) -> (c: char)
    requires
        d < 16,
    ensures
        c == hex_char(d as nat),
{
    match d {
        0 => '0',
        1 => '1',
        2 => '2',
        3 => '3',
        4 => '4',
        5 => '5',
        6 => '6',
        7 => '7',
        8 => '8',
        9 => '9',
        10 => 'a',
        11 => 'b',
        12 => 'c',
        13 => 'd',
        14 => 'e',
        _ => 'f',
    }
}

/// Writes bytes in lower-case hexadecimal.
pub fn to_lower_hex(data: &Vec<u8>) -> (r: String)
    ensures
        r@ == lower_hex(data@),
{
    let mut out: Vec<char> = Vec::new();
    let n = data.len();
    for i in 0..n
        invariant
            n == data@.len(),
            out@ == lower_hex(data@.take(i as int)),
    {
        let b = data[i];
        out.push(hex_digit(b / 16));
        out.push(hex_digit(b % 16));
        proof {
            let t = data@.take(i + 1);
            assert(t.drop_last() == data@.take(i as int));
            assert(t.last() == b);
            assert(out@ =~= lower_hex(t));
        }
    }
    assert(data@.take(n as int) == data@);
    string_of(&out)
}

/// The lower-case hex digest of a text's UTF-8 bytes.
pub fn hash_hex(kind: HashKind, input: &str) -> (r: String)
    ensures
        r@ == lower_hex(digest_of(kind, vstd::utf8::encode_utf8(input@))),
        r@.len() == 2 * digest_len(kind),
{
    let bytes = input.as_bytes();
    let digest = match kind {
        HashKind::Md5 => md5_digest(bytes),
        HashKind::Sha256 => sha256_digest(bytes),
        HashKind::Sha384 => sha384_digest(bytes),
        HashKind::Sha512 => sha512_digest(bytes),
    };
    proof {
        lemma_lower_hex_len(digest@);
    }
    to_lower_hex(&digest)
}

/// The answer of the digest endpoint.
pub open spec fn encryption_json(ciphertext: Seq<char>) -> Json {
    Json::Object(seq![("title"@, Json::Str("哈希加密"@)), ("ciphertext"@, Json::Str(ciphertext))])
}

/// Builds the answer of the digest endpoint.
pub fn encryption_data(ciphertext: &str) -> (r: JsonValue)
    ensures
        r@ == encryption_json(ciphertext@),
{
    let mut entries: Vec<(String, JsonValue)> = Vec::new();
    entries.push(("title".to_owned(), JsonValue::string("哈希加密")));
    entries.push(("ciphertext".to_owned(), JsonValue::string(ciphertext)));
    let r = JsonValue::Object(entries);
    proof {
        lemma_object_model(entries);
        assert(r@->Object_0 =~= encryption_json(ciphertext@)->Object_0);
    }
    r
}

/// The detail the endpoint gives, read as JSON, when no digest is asked for.
pub const NO_METHOD_TEXT: &'static str = "请选择加密方式";

/// The answer of the digest endpoint: the digest asked for, in lower-case hex. When
/// none is asked for, the endpoint reads [`NO_METHOD_TEXT`] as a JSON detail, which is
/// not JSON, so the answer is the JSON error that reading gives.
pub fn encryption_answer(params: &QueryParams) -> (r: Result<JsonResponse, AppError>)
    ensures
        match chosen(*params) {
            Some((k, t)) => r matches Ok(resp) && (resp.code == 200 && resp.message@ == "OK"@
                && resp.detail is None && (resp.data matches Some(d)
                && d@ == encryption_json(lower_hex(digest_of(k, vstd::utf8::encode_utf8(t)))))),
            None => r matches Err(AppError::JsonParse(m)) && json::json_parse_error("请选择加密方式"@) == Some(m@),
        },
        params.md5 is None && params.sha256 is None && params.sha384 is Some ==> (r matches Ok(resp)
            && (resp.data matches Some(d) && d@ == encryption_json(
                lower_hex(sha384_of(vstd::utf8::encode_utf8(params.sha384->0@))),
            ))),
        params.md5 is None && params.sha256 is None && params.sha384 is None && params.sha512 is Some ==> (r matches Ok(resp)
            && (resp.data matches Some(d) && d@ == encryption_json(
                lower_hex(sha512_of(vstd::utf8::encode_utf8(params.sha512->0@))),
            ))),
        params.md5 is None && params.sha256 is Some ==> (r matches Ok(resp)
            && (resp.data matches Some(d) && d@ == encryption_json(
                lower_hex(sha256_of(vstd::utf8::encode_utf8(params.sha256->0@))),
            ))),
        params.md5 is Some ==> (r matches Ok(resp)
            && (resp.data matches Some(d) && d@ == encryption_json(
                lower_hex(md5_of(vstd::utf8::encode_utf8(params.md5->0@))),
            ))),
{
    match chosen_hash(params) {
        Some((kind, text)) => {
            let hex = hash_hex(kind, text);
            Ok(JsonResponse::success(encryption_data(&hex)))
        },
        None => {
            proof {
                reveal_strlit("请选择加密方式");
            }
            match json_syntax_error(NO_METHOD_TEXT) {
                Some(m) => Err(AppError::JsonParse(m)),
                None => {
                    proof {
                        assert(false);
                    }
                    Err(AppError::InternalError)
                },
            }
        },
    }
}

/// The digest answer gives the hex text it is handed under "ciphertext".
pub proof fn law_encryption_members(ciphertext: Seq<char>)
    ensures
        encryption_json(ciphertext).field("title"@) == Json::Str("哈希加密"@),
        encryption_json(ciphertext).field("ciphertext"@) == Json::Str(ciphertext),
{
    reveal_strlit("title");
    reveal_strlit("ciphertext");
    reveal_with_fuel(crate::json::lookup, 3);
    assert("title"@.len() == 5);
    assert("ciphertext"@.len() == 10);
}

} // verus!
