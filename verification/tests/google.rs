use oauth2::basic::BasicClient;
use oauth2::{AuthUrl, ClientId, CsrfToken, RedirectUrl, Scope};
use telesms_bot::db::Db;
use telesms_bot::google::{
    classify_people_status, classify_token_failure, contacts_from_people, sync_parsed,
    token_fresh, CachedToken, GoogleError, ParsedContact, Person, TokenCache, CONTACTS_SCOPE,
    REDIRECT_URI, SECOND,
};

fn texts(list: &serde_json::Value, key: &str) -> Vec<Option<String>> {
    match list.as_array() {
        Some(items) => items
            .iter()
            .map(|item| item[key].as_str().map(str::to_string))
            .collect(),
        None => Vec::new(),
    }
}

fn contacts_from_people_json(
    body: &str,
    region: &str,
) -> Result<Vec<ParsedContact>, serde_json::Error> {
    let page: serde_json::Value = serde_json::from_str(body)?;
    let people: Vec<Person> = page["connections"]
        .as_array()
        .map(|list| {
            list.iter()
                .map(|p| Person {
                    resource_name: p["resourceName"].as_str().map(str::to_string),
                    names: texts(&p["names"], "displayName"),
                    phone_numbers: texts(&p["phoneNumbers"], "value"),
                })
                .collect()
        })
        .unwrap_or_default();
    Ok(contacts_from_people(&people, region))
}

#[test]
fn parse_people_connection() {
    let j = r#"{"connections":[{"resourceName":"people/x","names":[{"displayName":"Ali"}],"phoneNumbers":[{"value":"09120000000"}]}]}"#;
    let v = contacts_from_people_json(j, "IR").unwrap();
    assert_eq!(v[0].0, "people/x");
    assert_eq!(v[0].1, "Ali");
    assert_eq!(v[0].2, vec!["+989120000000".to_string()]);
}

#[test]
fn parse_people_dedupes_normalized_numbers() {
    let j = r#"{"connections":[{"resourceName":"people/x","names":[{"displayName":"Ali"}],"phoneNumbers":[{"value":"09120000000"},{"value":"+989120000000"}]}]}"#;
    let v = contacts_from_people_json(j, "IR").unwrap();
    assert_eq!(v[0].2, vec!["+989120000000".to_string()]);
    let mut db = Db::open_in_memory().unwrap();
    assert_eq!(sync_parsed(&mut db, &v).unwrap(), 1);
    assert_eq!(
        db.search_contacts("ali").unwrap()[0].numbers,
        vec!["+989120000000".to_string()]
    );
}

#[test]
fn parse_people_unknown_name_skips_invalid_numbers() {
    let j = r#"{"connections":[{"resourceName":"people/y","phoneNumbers":[{"value":"not-a-number"},{"value":"+14155552671"}]}]}"#;
    let v = contacts_from_people_json(j, "IR").unwrap();
    assert_eq!(v[0].0, "people/y");
    assert_eq!(v[0].1, "Unknown");
    assert_eq!(v[0].2, vec!["+14155552671".to_string()]);
}

#[test]
fn sync_parsed_upserts() {
    let mut db = Db::open_in_memory().unwrap();
    let n = sync_parsed(
        &mut db,
        &vec![("people/x".into(), "Ali".into(), vec!["+98912".into()])],
    )
    .unwrap();
    assert_eq!(n, 1);
    assert!(db.search_contacts("ali").unwrap().len() == 1);
}

#[test]
fn auth_url_includes_scope_and_redirect() {
    let client = BasicClient::new(ClientId::new("cid".into()))
        .set_auth_uri(
            AuthUrl::new("https://accounts.google.com/o/oauth2/v2/auth".into()).unwrap(),
        )
        .set_redirect_uri(RedirectUrl::new(REDIRECT_URI.into()).unwrap());
    let (url, _) = client
        .authorize_url(CsrfToken::new_random)
        .add_scope(Scope::new(CONTACTS_SCOPE.into()))
        .url();
    let s = url.to_string();
    assert!(s.contains("contacts.readonly"));
    assert!(s.contains("127.0.0.1"));
    assert!(s.contains("8765"));
    assert_eq!(REDIRECT_URI, "http://127.0.0.1:8765/");
    assert_eq!(
        CONTACTS_SCOPE,
        "https://www.googleapis.com/auth/contacts.readonly"
    );
}

#[test]
fn classifies_token_endpoint_failures() {
    assert!(matches!(
        classify_token_failure(400, r#"{"error":"invalid_grant"}"#),
        GoogleError::Auth(_)
    ));
    assert!(matches!(
        classify_token_failure(401, r#"{"error":"invalid_client"}"#),
        GoogleError::Auth(_)
    ));
    assert!(matches!(
        classify_token_failure(500, "server error"),
        GoogleError::Transient(_)
    ));
    assert!(matches!(
        classify_token_failure(403, "forbidden"),
        GoogleError::Other(_)
    ));
}


#[test]
fn token_fresh_respects_margin() {
    let now: u64 = 7_000_000_000;
    let fresh = CachedToken {
        token: "a".into(),
        expires_at: now as u128 + 600 * SECOND,
    };
    let stale = CachedToken {
        token: "a".into(),
        expires_at: now as u128 + 60 * SECOND,
    };
    assert!(token_fresh(&fresh, now));
    assert!(!token_fresh(&stale, now));
}

#[test]
fn cached_token_short_circuits_refresh() {
    let mut cache = TokenCache::new();
    assert!(cache.cached_token(5).is_none());
    cache.store_cached_token("cached-token", 3600, 5);
    assert_eq!(cache.cached_token(5).unwrap(), "cached-token");
    cache.invalidate_cached_token();
    assert!(cache.cached_token(5).is_none());
}

#[test]
fn stale_cached_token_is_not_used() {
    let mut cache = TokenCache::new();
    cache.store_cached_token("stale-token", 0, 5);
    assert!(cache.cached_token(5).is_none());
}

#[test]
fn classifies_people_api_failures() {
    assert!(matches!(
        classify_people_status(503, "u", "s"),
        GoogleError::Transient(_)
    ));
    assert!(matches!(
        classify_people_status(429, "u", "s"),
        GoogleError::Transient(_)
    ));
    assert!(matches!(
        classify_people_status(401, "u", "s"),
        GoogleError::Auth(_)
    ));
    assert!(matches!(
        classify_people_status(400, "u", "s"),
        GoogleError::Other(_)
    ));
}
