use telesms_bot::config::{Config, ConfigError};

/// Environment variables that are set and removed one by one.
struct Env {
    vars: Vec<(String, String)>,
}

impl Env {
    fn required() -> Env {
        let mut env = Env { vars: Vec::new() };
        env.set_var("TELEGRAM_BOT_TOKEN", "tok");
        env.set_var("TELEGRAM_USER_ID", "42");
        env.set_var("TELEGRAM_GROUP_ID", "-1001");
        env.set_var("MODEM_UID", "dwm222");
        env.set_var("GOOGLE_CLIENT_ID", "cid");
        env.set_var("GOOGLE_CLIENT_SECRET", "sec");
        env
    }

    fn set_var(&mut self, key: &str, value: &str) {
        self.remove_var(key);
        self.vars.push((key.to_string(), value.to_string()));
    }

    fn remove_var(&mut self, key: &str) {
        self.vars.retain(|(k, _)| k != key);
    }

    fn config(&self) -> Result<Config, ConfigError> {
        Config::from_env(&self.vars)
    }
}

#[test]
fn from_env_reads_required_fields() {
    let env = Env::required();
    let c = env.config().unwrap();
    assert_eq!(c.telegram_user_id, 42);
    assert_eq!(c.modem_uid, "dwm222");
    assert_eq!(c.database_path.as_str(), "./data/telesms.sqlite");
    assert_eq!(c.google_token_path.as_str(), "./secrets/google-token.json");
    assert_eq!(c.contacts_sync_interval, 21600);
    assert_eq!(c.default_region, "IR");
    assert_eq!(
        c.status_tz.parse::<chrono_tz::Tz>().unwrap(),
        chrono_tz::Asia::Tehran
    );
    assert!(c.sms_delete_enabled);
    assert_eq!(c.sms_delete_max_age, 30 * 86400);
}

#[test]
fn from_env_reads_status_tz() {
    let mut env = Env::required();
    env.set_var("STATUS_TZ", "UTC");
    let c = env.config().unwrap();
    assert_eq!(
        c.status_tz.parse::<chrono_tz::Tz>().unwrap(),
        chrono_tz::UTC
    );
    env.remove_var("STATUS_TZ");
}

#[test]
fn from_env_rejects_bad_status_tz() {
    let mut env = Env::required();
    env.set_var("STATUS_TZ", "NotAZone");
    let err = env.config().unwrap_err();
    env.remove_var("STATUS_TZ");
    match err {
        ConfigError::Invalid { key, .. } => assert_eq!(key, "STATUS_TZ"),
        other => panic!("{other:?}"),
    }
}

#[test]
fn sms_delete_enabled_defaults_true() {
    let mut env = Env::required();
    env.remove_var("SMS_DELETE_ENABLED");
    env.remove_var("SMS_DELETE_MAX_AGE_DAYS");
    let c = env.config().unwrap();
    assert!(c.sms_delete_enabled);
    assert_eq!(c.sms_delete_max_age, 30 * 86400);
}

#[test]
fn sms_delete_enabled_false_aliases() {
    let mut env = Env::required();
    for v in ["false", "0", "no", "NO", "False"] {
        env.set_var("SMS_DELETE_ENABLED", v);
        let c = env.config().unwrap();
        assert!(!c.sms_delete_enabled, "value {v}");
    }
    for v in ["true", "1", "yes", "YES", ""] {
        env.set_var("SMS_DELETE_ENABLED", v);
        assert!(env.config().unwrap().sms_delete_enabled, "value {v:?}");
    }
}

#[test]
fn sms_delete_enabled_rejects_garbage() {
    let mut env = Env::required();
    env.set_var("SMS_DELETE_ENABLED", "maybe");
    match env.config() {
        Err(ConfigError::Invalid { key, .. }) => assert_eq!(key, "SMS_DELETE_ENABLED"),
        other => panic!("{other:?}"),
    }
}

#[test]
fn sms_delete_max_age_parses_days() {
    let mut env = Env::required();
    env.remove_var("SMS_DELETE_ENABLED");
    env.set_var("SMS_DELETE_MAX_AGE_DAYS", "7");
    let c = env.config().unwrap();
    assert_eq!(c.sms_delete_max_age, 7 * 86400);
}

#[test]
fn sms_delete_max_age_rejects_garbage() {
    let mut env = Env::required();
    env.set_var("SMS_DELETE_MAX_AGE_DAYS", "abc");
    match env.config() {
        Err(ConfigError::Invalid { key, .. }) => {
            assert_eq!(key, "SMS_DELETE_MAX_AGE_DAYS")
        }
        other => panic!("{other:?}"),
    }
}
