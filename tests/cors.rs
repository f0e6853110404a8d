use axum::http::HeaderValue;
use ticket_payment::cors::{get_allowed_origins, parse_allowed_origins, split_pieces, AllowedOrigins, DEFAULT_ALLOWED_ORIGINS};

fn listed(r: AllowedOrigins) -> Vec<String> {
    match r {
        AllowedOrigins::Any => panic!("expected a list of origins"),
        AllowedOrigins::List(v) => v,
    }
}

#[test]
fn test_default_origins_are_valid() {
    for origin in DEFAULT_ALLOWED_ORIGINS.split(',') {
        let trimmed = origin.trim();
        assert!(
            trimmed.parse::<HeaderValue>().is_ok(),
            "Default origin '{}' should be a valid HeaderValue",
            trimmed
        );
    }
}

#[test]
fn test_create_cors_layer() {
    let origins = listed(get_allowed_origins(None));
    assert_eq!(origins, vec!["http://localhost:3000".to_string(), "http://localhost:5173".to_string()]);
}

#[test]
fn configured_origins_are_trimmed_and_filtered() {
    let origins = listed(get_allowed_origins(Some(" https://a.example , ,https://b.example,bad\u{7f}origin,")));
    assert_eq!(origins, vec!["https://a.example".to_string(), "https://b.example".to_string()]);
}

#[test]
fn nothing_usable_allows_any_origin() {
    assert!(matches!(parse_allowed_origins(""), AllowedOrigins::Any));
    assert!(matches!(parse_allowed_origins(" , ,"), AllowedOrigins::Any));
    assert!(matches!(parse_allowed_origins("\u{1}"), AllowedOrigins::Any));
}

#[test]
fn split_keeps_empty_pieces() {
    assert_eq!(split_pieces("a,,b", ','), vec!["a".to_string(), String::new(), "b".to_string()]);
    assert_eq!(split_pieces("", ','), vec![String::new()]);
    assert_eq!(split_pieces("ä,ö", ','), vec!["ä".to_string(), "ö".to_string()]);
}

#[test]
fn unicode_white_space_is_trimmed() {
    let origins = listed(parse_allowed_origins("\u{3000}https://c.example\u{a0},\thttps://d.example\n"));
    assert_eq!(origins, vec!["https://c.example".to_string(), "https://d.example".to_string()]);
}
