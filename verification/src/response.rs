//! The uniform JSON answer of every endpoint, and how errors become answers.
use vstd::prelude::*;
use crate::json::{Json, JsonValue};
use crate::text::{chars_of, string_of, concat_str};

verus! {

/// Calls `StatusCode::from_u16`, which accepts exactly the codes from 100 to 999.
#[verifier::external_body]
fn status_code_accepted(code: u16) -> (r: bool)
    ensures
        r == (100 <= code <= 999),
{
    axum::http::StatusCode::from_u16(code).is_ok()
}

/// What `StatusCode::canonical_reason` gives for a code: the standard reason phrase,
/// if the code has one.
pub uninterp spec fn canonical_reason(code: u16) -> Option<Seq<char>>;

/// Calls `StatusCode::canonical_reason` on the status code `code`. The table of
/// phrases is named, not stated, apart from the phrases of the codes this library
/// answers with, which the `http` crate's table gives.
#[verifier::external_body]
fn reason_phrase(code: u16) -> (r: Option<String>)
    requires
        100 <= code <= 999,
    ensures
        r is None <==> canonical_reason(code) is None,
        r matches Some(s) ==> canonical_reason(code) == Some(s@),
        r is Some || !(code == 200 || code == 400 || code == 404 || code == 422 || code == 500),
        r matches Some(s) ==> (code == 200 ==> s@ == "OK"@),
        r matches Some(s) ==> (code == 400 ==> s@ == "Bad Request"@),
        r matches Some(s) ==> (code == 404 ==> s@ == "Not Found"@),
        r matches Some(s) ==> (code == 422 ==> s@ == "Unprocessable Entity"@),
        r matches Some(s) ==> (code == 500 ==> s@ == "Internal Server Error"@),
{
    axum::http::StatusCode::from_u16(code).ok().and_then(|s| s.canonical_reason()).map(String::from)
}

/// The message of an answer with status `code`: the standard reason phrase, or
/// "Internal Server Error" when the code is not a status code or has no phrase.
pub open spec fn message_for(code: u16) -> Seq<char> {
    if 100 <= code <= 999 {
        match canonical_reason(code) {
            Some(p) => p,
            None => "Internal Server Error"@,
        }
    } else {
        "Internal Server Error"@
    }
}

/// The HTTP status an answer is sent with: its code when that is a status code, else 500.
pub open spec fn status_for(code: u16) -> u16 {
    if 100 <= code <= 999 {
        code
    } else {
        500
    }
}

/// The uniform JSON answer: a code, its message, and either data or a detail.
pub struct JsonResponse {
    /// The HTTP status code, such as 200 or 404.
    pub code: u16,
    /// The status's description, such as "OK" or "Not Found".
    pub message: String,
    /// The answer's data.
    pub data: Option<JsonValue>,
    /// The error's detail.
    pub detail: Option<JsonValue>,
}

impl JsonResponse {
    /// A successful answer carrying `data`.
    pub fn success(data: JsonValue) -> (r: JsonResponse)
        ensures
            r.code == 200,
            r.message@ == "OK"@,
            r.data matches Some(d) && d@ == data@,
            r.detail is None,
    {
        let ghost m = data@;
        JsonResponse { code: 200, message: "OK".to_owned(), data: Some(data), detail: None }
    }

    /// An error answer with status `code` and an optional detail.
    pub fn error(code: u16, detail: Option<JsonValue>) -> (r: JsonResponse)
        ensures
            r.code == code,
            r.message@ == message_for(code),
            code == 200 ==> r.message@ == "OK"@,
            code == 400 ==> r.message@ == "Bad Request"@,
            code == 404 ==> r.message@ == "Not Found"@,
            code == 422 ==> r.message@ == "Unprocessable Entity"@,
            code == 500 ==> r.message@ == "Internal Server Error"@,
            r.data is None,
            match (r.detail, detail) {
                (Some(a), Some(b)) => a@ == b@,
                (None, None) => true,
                _ => false,
            },
    {
        let message = if status_code_accepted(code) {
            match reason_phrase(code) {
                Some(p) => p,
                None => "Internal Server Error".to_owned(),
            }
        } else {
            "Internal Server Error".to_owned()
        };
        JsonResponse { code, message, data: None, detail }
    }

    /// The HTTP status this answer is sent with.
    pub fn status(&self) -> (r: u16)
        ensures
            r == status_for(self.code),
    {
        if status_code_accepted(self.code) {
            self.code
        } else {
            500
        }
    }
}

/// The errors an endpoint can end with. The variants that wrap an error of another
/// crate hold that error's text.
pub enum AppError {
    NotFound,
    InternalError,
    ValidationError,
    Query(String),
    JsonParse(String),
    Path(String),
    Reqwest(String),
    SeaOrm(String),
    Redis(String),
    DeadpoolRedis(String),
    Scraper(String),
    Anyhow(String),
}

/// The status code and detail text an error is answered with.
pub open spec fn error_answer(e: AppError) -> (u16, Seq<char>) {
    match e {
        AppError::NotFound => (404, "Not Found"@),
        AppError::InternalError => (500, "InternalError"@),
        AppError::ValidationError => (400, "ValidationError"@),
        AppError::Query(t) => (400, t@),
        AppError::Path(t) => (422, t@),
        AppError::Reqwest(t) => (500, t@),
        AppError::SeaOrm(t) => (500, t@),
        AppError::Redis(t) => (500, t@),
        AppError::DeadpoolRedis(t) => (500, t@),
        _ => (500, "Internal Server Error"@),
    }
}

/// The text that describes an error.
pub open spec fn error_message(e: AppError) -> Seq<char> {
    match e {
        AppError::NotFound => "Not found"@,
        AppError::InternalError => "InternalError"@,
        AppError::ValidationError => "ValidationError"@,
        AppError::Query(t) => "ValidationError："@ + t@,
        AppError::JsonParse(t) => "JSON解析失败: "@ + t@,
        AppError::Path(t) => t@,
        AppError::Reqwest(t) => t@,
        AppError::SeaOrm(t) => t@,
        AppError::Redis(t) => t@,
        AppError::DeadpoolRedis(t) => t@,
        AppError::Scraper(t) => t@,
        AppError::Anyhow(t) => "anyhow，"@ + t@,
    }
}

impl AppError {
    /// The answer an error is sent as: an error answer with the error's status code
    /// and its detail text.
    pub fn into_response(self) -> (r: JsonResponse)
        ensures
            r.code == error_answer(self).0,
            r.message@ == message_for(error_answer(self).0),
            r.message@ == match error_answer(self).0 {
                400 => "Bad Request"@,
                404 => "Not Found"@,
                422 => "Unprocessable Entity"@,
                _ => "Internal Server Error"@,
            },
            r.data is None,
            r.detail matches Some(d) && d@ == Json::Str(error_answer(self).1),
    {
        let ghost e = self;
        let (code, detail): (u16, String) = match self {
            AppError::NotFound => (404, "Not Found".to_owned()),
            AppError::InternalError => (500, "InternalError".to_owned()),
            AppError::ValidationError => (400, "ValidationError".to_owned()),
            AppError::Query(t) => (400, t),
            AppError::Path(t) => (422, t),
            AppError::Reqwest(t) => (500, t),
            AppError::SeaOrm(t) => (500, t),
            AppError::Redis(t) => (500, t),
            AppError::DeadpoolRedis(t) => (500, t),
            _ => (500, "Internal Server Error".to_owned()),
        };
        JsonResponse::error(code, Some(JsonValue::Str(detail)))
    }

    /// The text that describes this error.
    pub fn message(&self) -> (r: String)
        ensures
            r@ == error_message(*self),
    {
        match self {
            AppError::NotFound => "Not found".to_owned(),
            AppError::InternalError => "InternalError".to_owned(),
            AppError::ValidationError => "ValidationError".to_owned(),
            AppError::Query(t) => string_of(&concat_str(&chars_of("ValidationError："), t.as_str())),
            AppError::JsonParse(t) => string_of(&concat_str(&chars_of("JSON解析失败: "), t.as_str())),
            AppError::Path(t) => t.clone(),
            AppError::Reqwest(t) => t.clone(),
            AppError::SeaOrm(t) => t.clone(),
            AppError::Redis(t) => t.clone(),
            AppError::DeadpoolRedis(t) => t.clone(),
            AppError::Scraper(t) => t.clone(),
            AppError::Anyhow(t) => string_of(&concat_str(&chars_of("anyhow，"), t.as_str())),
        }
    }
}


/// A request's query, read so that a malformed query is answered as a validation error.
pub struct ValidQuery<T>(pub T);

/// A request's path parameters, read so that a malformed path is answered as a path error.
pub struct ValidPath<T>(pub T);

/// Every error is answered with a real HTTP status, which the answer is sent with.
pub proof fn law_error_status_is_sent(e: AppError)
    ensures
        100 <= error_answer(e).0 <= 999,
        status_for(error_answer(e).0) == error_answer(e).0,
{
}

/// How each error is answered: not found is 404, a validation error or a malformed
/// query 400, a malformed path 422, and every other error 500; the detail is the
/// error's own text for a query, path, HTTP, database or Redis error.
pub proof fn law_error_answers(t: String)
    ensures
        error_answer(AppError::NotFound) == (404u16, "Not Found"@),
        error_answer(AppError::InternalError) == (500u16, "InternalError"@),
        error_answer(AppError::ValidationError) == (400u16, "ValidationError"@),
        error_answer(AppError::Query(t)) == (400u16, t@),
        error_answer(AppError::Path(t)) == (422u16, t@),
        error_answer(AppError::Reqwest(t)) == (500u16, t@),
        error_answer(AppError::SeaOrm(t)) == (500u16, t@),
        error_answer(AppError::Redis(t)) == (500u16, t@),
        error_answer(AppError::DeadpoolRedis(t)) == (500u16, t@),
        error_answer(AppError::JsonParse(t)) == (500u16, "Internal Server Error"@),
        error_answer(AppError::Scraper(t)) == (500u16, "Internal Server Error"@),
        error_answer(AppError::Anyhow(t)) == (500u16, "Internal Server Error"@),
        status_for(99) == 500 && status_for(1000) == 500,
{
}

/// The text of each error: its name, or its cause after a prefix that says what
/// failed ("ValidationError：" for a query, "JSON解析失败: " for JSON, "anyhow，" for
/// any other failure), or the cause alone.
pub proof fn law_error_messages(t: String)
    ensures
        error_message(AppError::NotFound) == "Not found"@,
        error_message(AppError::InternalError) == "InternalError"@,
        error_message(AppError::ValidationError) == "ValidationError"@,
        error_message(AppError::Query(t)) == "ValidationError："@ + t@,
        error_message(AppError::JsonParse(t)) == "JSON解析失败: "@ + t@,
        error_message(AppError::Anyhow(t)) == "anyhow，"@ + t@,
        error_message(AppError::Path(t)) == t@ && error_message(AppError::Reqwest(t)) == t@
            && error_message(AppError::SeaOrm(t)) == t@ && error_message(AppError::Redis(t)) == t@
            && error_message(AppError::DeadpoolRedis(t)) == t@ && error_message(AppError::Scraper(t)) == t@,
{
}

} // verus!
