use rust_api::json::JsonValue;
use rust_api::response::{AppError, JsonResponse};
use rust_api::config::{Settings, SettingsError, env_file_for, parse_port};
use rust_api::state::{redis_url, postgres_url, listen_address, expiration_secs, after_lookup, after_load, CacheStep, USER_AGENT};
use rust_api::api_frontend::{search_term, SearchParams};

fn text_of(v: &Option<JsonValue>) -> String {
    match v {
        Some(JsonValue::Str(s)) => s.clone(),
        _ => panic!("not a string"),
    }
}

#[test]
fn success_answer() {
    let r = JsonResponse::success(JsonValue::UInt(7));
    assert_eq!(r.code, 200);
    assert_eq!(r.message, "OK");
    assert!(matches!(r.data, Some(JsonValue::UInt(7))));
    assert!(r.detail.is_none());
    assert_eq!(r.status(), 200);
}

#[test]
fn error_answer_messages() {
    let r = JsonResponse::error(404, None);
    assert_eq!(r.code, 404);
    assert_eq!(r.message, "Not Found");
    assert!(r.data.is_none());
    assert!(r.detail.is_none());
    assert_eq!(JsonResponse::error(400, None).message, "Bad Request");
    assert_eq!(JsonResponse::error(422, None).message, "Unprocessable Entity");
    assert_eq!(JsonResponse::error(500, None).message, "Internal Server Error");
    assert_eq!(JsonResponse::error(418, None).message, "I'm a teapot");
}

#[test]
fn error_answer_without_phrase_or_status() {
    let r = JsonResponse::error(99, Some(JsonValue::Str("d".to_string())));
    assert_eq!(r.code, 99);
    assert_eq!(r.message, "Internal Server Error");
    assert_eq!(text_of(&r.detail), "d");
    assert_eq!(r.status(), 500);
    let r = JsonResponse::error(599, None);
    assert_eq!(r.message, "Internal Server Error");
    assert_eq!(r.status(), 599);
    let r = JsonResponse::error(1000, None);
    assert_eq!(r.message, "Internal Server Error");
    assert_eq!(r.status(), 500);
}

#[test]
fn errors_become_answers() {
    let cases: Vec<(AppError, u16, &str, &str)> = vec![
        (AppError::NotFound, 404, "Not Found", "Not Found"),
        (AppError::InternalError, 500, "Internal Server Error", "InternalError"),
        (AppError::ValidationError, 400, "Bad Request", "ValidationError"),
        (AppError::Query("bad q".to_string()), 400, "Bad Request", "bad q"),
        (AppError::Path("bad p".to_string()), 422, "Unprocessable Entity", "bad p"),
        (AppError::Reqwest("net".to_string()), 500, "Internal Server Error", "net"),
        (AppError::SeaOrm("db".to_string()), 500, "Internal Server Error", "db"),
        (AppError::Redis("r".to_string()), 500, "Internal Server Error", "r"),
        (AppError::DeadpoolRedis("pool".to_string()), 500, "Internal Server Error", "pool"),
        (AppError::JsonParse("j".to_string()), 500, "Internal Server Error", "Internal Server Error"),
        (AppError::Scraper("s".to_string()), 500, "Internal Server Error", "Internal Server Error"),
        (AppError::Anyhow("a".to_string()), 500, "Internal Server Error", "Internal Server Error"),
    ];
    for (e, code, message, detail) in cases {
        let r = e.into_response();
        assert_eq!(r.code, code);
        assert_eq!(r.status(), code);
        assert_eq!(r.message, message);
        assert!(r.data.is_none());
        assert_eq!(text_of(&r.detail), detail);
    }
}

#[test]
fn error_texts() {
    assert_eq!(AppError::NotFound.message(), "Not found");
    assert_eq!(AppError::InternalError.message(), "InternalError");
    assert_eq!(AppError::ValidationError.message(), "ValidationError");
    assert_eq!(AppError::Query("x".to_string()).message(), "ValidationError：x");
    assert_eq!(AppError::JsonParse("eof".to_string()).message(), "JSON解析失败: eof");
    assert_eq!(AppError::Path("p".to_string()).message(), "p");
    assert_eq!(AppError::Reqwest("q".to_string()).message(), "q");
    assert_eq!(AppError::SeaOrm("o".to_string()).message(), "o");
    assert_eq!(AppError::Redis("r".to_string()).message(), "r");
    assert_eq!(AppError::DeadpoolRedis("d".to_string()).message(), "d");
    assert_eq!(AppError::Scraper("s".to_string()).message(), "s");
    assert_eq!(AppError::Anyhow("boom".to_string()).message(), "anyhow，boom");
}

fn some(s: &str) -> Option<String> {
    Some(s.to_string())
}

#[test]
fn settings_from_all_variables() {
    let s = Settings::from_vars(some("127.0.0.1"), some("8080"), some("db"), some("5432"), some("u"), some("p"), some("d"));
    match s {
        Ok(s) => {
            assert_eq!(s.server_host, "127.0.0.1");
            assert_eq!(s.server_port, Some(8080));
            assert_eq!(s.db_host, "db");
            assert_eq!(s.db_port, 5432);
            assert_eq!(s.db_username, "u");
            assert_eq!(s.db_password, "p");
            assert_eq!(s.db_database, "d");
        },
        Err(_) => panic!("settings refused"),
    }
}

#[test]
fn settings_server_port_is_optional() {
    let s = Settings::from_vars(some("h"), None, some("db"), some("5432"), some("u"), some("p"), some("d"));
    assert!(matches!(s, Ok(ref v) if v.server_port.is_none()));
    let s = Settings::from_vars(some("h"), some("http"), some("db"), some("5432"), some("u"), some("p"), some("d"));
    assert!(matches!(s, Ok(ref v) if v.server_port.is_none()));
    let s = Settings::from_vars(some("h"), some("70000"), some("db"), some("5432"), some("u"), some("p"), some("d"));
    assert!(matches!(s, Ok(ref v) if v.server_port.is_none()));
}

fn missing_name(r: Result<Settings, SettingsError>) -> String {
    match r {
        Err(SettingsError::Missing(n)) => n,
        _ => panic!("expected a missing variable"),
    }
}

#[test]
fn settings_missing_variables() {
    assert_eq!(missing_name(Settings::from_vars(None, None, None, None, None, None, None)), "SERVER_HOST");
    assert_eq!(missing_name(Settings::from_vars(some("h"), None, None, some("x"), None, None, None)), "DB_HOST");
    assert_eq!(missing_name(Settings::from_vars(some("h"), None, some("db"), None, some("u"), some("p"), some("d"))), "DB_PORT");
    assert_eq!(missing_name(Settings::from_vars(some("h"), None, some("db"), some("1"), None, some("p"), some("d"))), "DB_USERNAME");
    assert_eq!(missing_name(Settings::from_vars(some("h"), None, some("db"), some("1"), some("u"), None, some("d"))), "DB_PASSWORD");
    assert_eq!(missing_name(Settings::from_vars(some("h"), None, some("db"), some("1"), some("u"), some("p"), None)), "DB_DATABASE");
}

#[test]
fn settings_bad_database_port() {
    let r = Settings::from_vars(some("h"), None, some("db"), some("port"), some("u"), some("p"), some("d"));
    assert!(matches!(r, Err(SettingsError::InvalidDbPort)));
    let r = Settings::from_vars(some("h"), None, some("db"), some("65536"), None, None, None);
    assert!(matches!(r, Err(SettingsError::InvalidDbPort)));
}

#[test]
fn debug_and_env_file() {
    assert!(Settings::debug_from(Some("true")));
    assert!(!Settings::debug_from(Some("TRUE")));
    assert!(!Settings::debug_from(Some("false")));
    assert!(!Settings::debug_from(None));
    assert_eq!(env_file_for("true"), "env.development");
    assert_eq!(env_file_for("false"), "env.production");
    assert_eq!(env_file_for(""), "env.production");
}

#[test]
fn ports() {
    assert_eq!(parse_port("3000"), Some(3000));
    assert_eq!(parse_port("0"), Some(0));
    assert_eq!(parse_port("65535"), Some(65535));
    assert_eq!(parse_port("65536"), None);
    assert_eq!(parse_port("x"), None);
}

#[test]
fn connection_addresses() {
    assert_eq!(redis_url("pw", "localhost:6379", "0"), "redis://:pw@localhost:6379/0");
    assert_eq!(postgres_url("u", "p", "h", "5432", "d"), "postgres://u:p@h:5432/d");
    assert_eq!(listen_address(None, None), "0.0.0.0:3000");
    assert_eq!(listen_address(Some("127.0.0.1"), Some("8080")), "127.0.0.1:8080");
    assert!(USER_AGENT.starts_with("Mozilla/5.0"));
}

#[test]
fn cache_aside_steps() {
    assert_eq!(expiration_secs(None), 43200);
    assert_eq!(expiration_secs(Some(60)), 60);
    assert!(matches!(after_lookup(Some(5)), CacheStep::Answer(Some(5))));
    assert!(matches!(after_lookup::<i32>(None), CacheStep::Load));
    assert!(matches!(after_load(Some(6)), CacheStep::Store(6)));
    assert!(matches!(after_load::<i32>(None), CacheStep::Answer(None)));
}

#[test]
fn catalogue_search_term() {
    assert_eq!(search_term(&SearchParams { q: Some("天气".to_string()) }), Some("天气"));
    assert_eq!(search_term(&SearchParams { q: Some(String::new()) }), None);
    assert_eq!(search_term(&SearchParams { q: None }), None);
}
