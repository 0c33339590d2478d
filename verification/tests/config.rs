use portfolio_api::config::{ends_with, is_hosted_origin, pg_settings, PgSettings};

fn some(text: &str) -> Option<String> {
    Some(String::from(text))
}

#[test]
fn connection_string_wins_over_single_settings() {
    assert_eq!(
        pg_settings(some("postgres://u@h/db"), some("host"), some("user"), some("pw"), some("db")),
        Ok(PgSettings::Url { url: String::from("postgres://u@h/db"), max_size: 16 })
    );
    assert_eq!(
        pg_settings(some("postgres://u@h/db"), None, None, None, None),
        Ok(PgSettings::Url { url: String::from("postgres://u@h/db"), max_size: 16 })
    );
}

#[test]
fn single_settings_need_host_user_and_database() {
    assert_eq!(
        pg_settings(None, some("host"), some("user"), some("pw"), some("db")),
        Ok(PgSettings::Parts {
            host: String::from("host"),
            user: String::from("user"),
            password: some("pw"),
            dbname: String::from("db"),
        })
    );
    assert_eq!(
        pg_settings(None, some("host"), some("user"), None, some("db")),
        Ok(PgSettings::Parts {
            host: String::from("host"),
            user: String::from("user"),
            password: None,
            dbname: String::from("db"),
        })
    );
}

#[test]
fn first_missing_setting_is_named() {
    assert_eq!(pg_settings(None, None, None, None, None), Err(String::from("PG_HOST not set")));
    assert_eq!(
        pg_settings(None, some("h"), None, some("pw"), None),
        Err(String::from("PG_USER not set"))
    );
    assert_eq!(
        pg_settings(None, some("h"), some("u"), some("pw"), None),
        Err(String::from("PG_DB not set"))
    );
}

#[test]
fn ends_with_compares_the_tail() {
    assert!(ends_with(b"abc", b"bc"));
    assert!(ends_with(b"abc", b"abc"));
    assert!(ends_with(b"abc", b""));
    assert!(ends_with(b"", b""));
    assert!(!ends_with(b"abc", b"ab"));
    assert!(!ends_with(b"bc", b"abc"));
    assert!(!ends_with(b"", b"a"));
}

#[test]
fn hosted_origins_end_in_vercel_app() {
    assert!(is_hosted_origin(b"https://portfolio.vercel.app"));
    assert!(is_hosted_origin(b"https://a-b-c.vercel.app"));
    assert!(is_hosted_origin(b"https://notvercel.app"));
    assert!(is_hosted_origin(b"vercel.app"));
    assert!(!is_hosted_origin(b"https://vercel.app.evil.com"));
    assert!(!is_hosted_origin(b"https://portfolio.vercel.app/"));
    assert!(!is_hosted_origin(b"http://localhost:3000"));
    assert!(!is_hosted_origin(b"https://portfolio.VERCEL.APP"));
    assert!(!is_hosted_origin(b""));
}
