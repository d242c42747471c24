//! The settings of the gateway, read from environment variables.
use vstd::prelude::*;

use crate::clock::{zone_complaint, zone_error};
use crate::decimal::{
    int_complaint, int_problem, parse_i64, parse_u16, parse_u64, parsed,
};
use crate::rows::{opt_view, pair_views, res_plain, res_view};
use crate::text::{
    cat, cat3, lookup, lower, nonblank, str_eq, to_lower, trim, trimmed, value_under,
};

verus! {

/// The settings. Intervals and ages are in seconds.
#[derive(Debug)]
pub struct Config {
    pub telegram_bot_token: String,
    pub telegram_user_id: i64,
    pub telegram_group_id: i64,
    pub modem_uid: String,
    pub google_client_id: String,
    pub google_client_secret: String,
    pub google_token_path: String,
    pub database_path: String,
    pub contacts_sync_interval: u64,
    pub default_region: String,
    pub status_tz: String,
    pub sms_delete_enabled: bool,
    pub sms_delete_max_age: u64,
    pub api_key: Option<String>,
    pub api_bind: String,
    pub api_port: u16,
}

pub struct ConfigView {
    pub telegram_bot_token: Seq<char>,
    pub telegram_user_id: int,
    pub telegram_group_id: int,
    pub modem_uid: Seq<char>,
    pub google_client_id: Seq<char>,
    pub google_client_secret: Seq<char>,
    pub google_token_path: Seq<char>,
    pub database_path: Seq<char>,
    pub contacts_sync_interval: int,
    pub default_region: Seq<char>,
    pub status_tz: Seq<char>,
    pub sms_delete_enabled: bool,
    pub sms_delete_max_age: int,
    pub api_key: Option<Seq<char>>,
    pub api_bind: Seq<char>,
    pub api_port: int,
}

impl View for Config {
    type V = ConfigView;

    open spec fn view(&self) -> ConfigView {
        ConfigView {
            telegram_bot_token: self.telegram_bot_token@,
            telegram_user_id: self.telegram_user_id as int,
            telegram_group_id: self.telegram_group_id as int,
            modem_uid: self.modem_uid@,
            google_client_id: self.google_client_id@,
            google_client_secret: self.google_client_secret@,
            google_token_path: self.google_token_path@,
            database_path: self.database_path@,
            contacts_sync_interval: self.contacts_sync_interval as int,
            default_region: self.default_region@,
            status_tz: self.status_tz@,
            sms_delete_enabled: self.sms_delete_enabled,
            sms_delete_max_age: self.sms_delete_max_age as int,
            api_key: opt_view(self.api_key),
            api_bind: self.api_bind@,
            api_port: self.api_port as int,
        }
    }
}

/// Why the settings cannot be used.
#[derive(Debug)]
pub enum ConfigError {
    Missing(&'static str),
    Invalid { key: &'static str, source: String },
}

pub enum ConfigErrorView {
    Missing(Seq<char>),
    Invalid { key: Seq<char>, source: Seq<char> },
}

impl View for ConfigError {
    type V = ConfigErrorView;

    open spec fn view(&self) -> ConfigErrorView {
        match self {
            ConfigError::Missing(key) => ConfigErrorView::Missing(key@),
            ConfigError::Invalid { key, source } => ConfigErrorView::Invalid {
                key: key@,
                source: source@,
            },
        }
    }
}

impl ConfigErrorView {
    pub open spec fn words(self) -> Seq<char> {
        match self {
            ConfigErrorView::Missing(key) => "missing required env var: "@ + key,
            ConfigErrorView::Invalid { key, source } => "invalid value for "@ + key + ": "@
                + source,
        }
    }
}

impl ConfigError {
    /// The error in words.
    pub fn message(&self) -> (r: String)
        ensures
            r@ == self@.words(),
    {
        match self {
            ConfigError::Missing(key) => cat("missing required env var: ", key),
            ConfigError::Invalid { key, source } => cat3(
                cat("invalid value for ", key).as_str(),
                ": ",
                source.as_str(),
            ),
        }
    }
}

// ---------------------------------------------------------------------------
// Variables
// ---------------------------------------------------------------------------

/// Environment variables: names and values.
pub type Vars = Seq<(Seq<char>, Seq<char>)>;

pub open spec fn var_or(vars: Vars, key: Seq<char>, default: Seq<char>) -> Seq<char> {
    match value_under(vars, key) {
        Some(v) => v,
        None => default,
    }
}

/// The integer in a variable; the default where there is none.
pub open spec fn int_or(value: Option<Seq<char>>, lo: int, hi: int, default: int) -> int {
    match value {
        Some(v) => match parsed(v, lo, hi) {
            Some(n) => n,
            None => default,
        },
        None => default,
    }
}

/// A value that holds more than white space.
pub open spec fn written(value: Option<Seq<char>>) -> Option<Seq<char>> {
    if nonblank(value) is Some {
        value
    } else {
        None
    }
}

/// What the words for yes and no mean; nothing written means yes.
pub open spec fn enabled_of(raw: Seq<char>) -> Option<bool> {
    let word = lower(trimmed(raw));
    if word == ""@ || word == "true"@ || word == "1"@ || word == "yes"@ {
        Some(true)
    } else if word == "false"@ || word == "0"@ || word == "no"@ {
        Some(false)
    } else {
        None
    }
}

// ---------------------------------------------------------------------------
// What can be wrong
// ---------------------------------------------------------------------------

pub open spec fn missing(vars: Vars, key: Seq<char>) -> Option<ConfigErrorView> {
    if value_under(vars, key) is None {
        Some(ConfigErrorView::Missing(key))
    } else {
        None
    }
}

pub open spec fn bad_int(value: Option<Seq<char>>, key: Seq<char>, lo: int, hi: int) -> Option<
    ConfigErrorView,
> {
    match value {
        Some(v) => if parsed(v, lo, hi) is None {
            Some(ConfigErrorView::Invalid { key, source: int_complaint(v, lo, hi) })
        } else {
            None
        },
        None => None,
    }
}

pub open spec fn bad_id(vars: Vars, key: Seq<char>) -> Option<ConfigErrorView> {
    earliest(
        missing(vars, key),
        bad_int(value_under(vars, key), key, i64::MIN as int, i64::MAX as int),
    )
}

/// What is wrong with the time zone, given what is said of an unknown one.
pub open spec fn bad_zone(vars: Vars, complaint: Option<Seq<char>>) -> Option<ConfigErrorView> {
    match complaint {
        Some(source) => if var_or(vars, "STATUS_TZ"@, Seq::empty()).len() == 0 {
            None
        } else {
            Some(ConfigErrorView::Invalid { key: "STATUS_TZ"@, source })
        },
        None => None,
    }
}

pub open spec fn bad_enabled(vars: Vars) -> Option<ConfigErrorView> {
    match value_under(vars, "SMS_DELETE_ENABLED"@) {
        Some(v) => if enabled_of(v) is None {
            Some(
                ConfigErrorView::Invalid {
                    key: "SMS_DELETE_ENABLED"@,
                    source: "expected true/1/yes or false/0/no"@,
                },
            )
        } else {
            None
        },
        None => None,
    }
}

pub open spec fn earliest(a: Option<ConfigErrorView>, b: Option<ConfigErrorView>) -> Option<
    ConfigErrorView,
> {
    if a is Some {
        a
    } else {
        b
    }
}

/// The variables that there must be, in the order in which they are looked at.
pub open spec fn required_problem(vars: Vars) -> Option<ConfigErrorView> {
    earliest(
        missing(vars, "TELEGRAM_BOT_TOKEN"@),
        earliest(
            bad_id(vars, "TELEGRAM_USER_ID"@),
            earliest(
                bad_id(vars, "TELEGRAM_GROUP_ID"@),
                earliest(
                    missing(vars, "MODEM_UID"@),
                    earliest(
                        missing(vars, "GOOGLE_CLIENT_ID"@),
                        missing(vars, "GOOGLE_CLIENT_SECRET"@),
                    ),
                ),
            ),
        ),
    )
}

/// The variables that there may be, in the order in which they are looked at.
pub open spec fn optional_problem(vars: Vars, complaint: Option<Seq<char>>) -> Option<
    ConfigErrorView,
> {
    earliest(
        bad_int(
            value_under(vars, "CONTACTS_SYNC_INTERVAL_SECS"@),
            "CONTACTS_SYNC_INTERVAL_SECS"@,
            0,
            u64::MAX as int,
        ),
        earliest(
            bad_zone(vars, complaint),
            earliest(
                bad_enabled(vars),
                earliest(
                    bad_int(
                        written(value_under(vars, "SMS_DELETE_MAX_AGE_DAYS"@)),
                        "SMS_DELETE_MAX_AGE_DAYS"@,
                        0,
                        u64::MAX as int,
                    ),
                    bad_int(
                        written(value_under(vars, "API_PORT"@)),
                        "API_PORT"@,
                        0,
                        u16::MAX as int,
                    ),
                ),
            ),
        ),
    )
}

/// The first thing that is wrong with the variables, given what is said of
/// their time zone if it is unknown.
pub open spec fn problem(vars: Vars, complaint: Option<Seq<char>>) -> Option<ConfigErrorView> {
    earliest(required_problem(vars), optional_problem(vars, complaint))
}

// ---------------------------------------------------------------------------
// What they mean
// ---------------------------------------------------------------------------

/// The time zone of the status card.
pub open spec fn zone_of(vars: Vars) -> Seq<char> {
    let zone = var_or(vars, "STATUS_TZ"@, Seq::empty());
    if zone.len() == 0 {
        "Asia/Tehran"@
    } else {
        zone
    }
}

/// After how many days a message is deleted from the modem.
pub open spec fn delete_days(vars: Vars) -> int {
    int_or(written(value_under(vars, "SMS_DELETE_MAX_AGE_DAYS"@)), 0, u64::MAX as int, 30)
}

/// The days fit when counted in seconds.
pub open spec fn days_fit(vars: Vars) -> bool {
    delete_days(vars) * 86400 <= u64::MAX
}

pub open spec fn id_of(vars: Vars, key: Seq<char>) -> int {
    int_or(value_under(vars, key), i64::MIN as int, i64::MAX as int, 0)
}

/// The settings that variables with nothing wrong stand for.
pub open spec fn settings(vars: Vars) -> ConfigView {
    ConfigView {
        telegram_bot_token: var_or(vars, "TELEGRAM_BOT_TOKEN"@, Seq::empty()),
        telegram_user_id: id_of(vars, "TELEGRAM_USER_ID"@),
        telegram_group_id: id_of(vars, "TELEGRAM_GROUP_ID"@),
        modem_uid: var_or(vars, "MODEM_UID"@, Seq::empty()),
        google_client_id: var_or(vars, "GOOGLE_CLIENT_ID"@, Seq::empty()),
        google_client_secret: var_or(vars, "GOOGLE_CLIENT_SECRET"@, Seq::empty()),
        google_token_path: var_or(vars, "GOOGLE_TOKEN_PATH"@, "./secrets/google-token.json"@),
        database_path: var_or(vars, "DATABASE_PATH"@, "./data/telesms.sqlite"@),
        contacts_sync_interval: int_or(
            value_under(vars, "CONTACTS_SYNC_INTERVAL_SECS"@),
            0,
            u64::MAX as int,
            21600,
        ),
        default_region: var_or(vars, "DEFAULT_REGION"@, "IR"@),
        status_tz: zone_of(vars),
        sms_delete_enabled: match value_under(vars, "SMS_DELETE_ENABLED"@) {
            Some(v) => enabled_of(v) == Some(true),
            None => true,
        },
        sms_delete_max_age: delete_days(vars) * 86400,
        api_key: value_under(vars, "API_KEY"@),
        api_bind: var_or(vars, "API_BIND"@, "0.0.0.0"@),
        api_port: int_or(written(value_under(vars, "API_PORT"@)), 0, u16::MAX as int, 8787),
    }
}

/// The settings, or the first thing that is wrong, given what is said of the
/// time zone if it is unknown.
pub open spec fn configured_with(vars: Vars, complaint: Option<Seq<char>>) -> Result<
    ConfigView,
    ConfigErrorView,
> {
    match problem(vars, complaint) {
        Some(e) => Err(e),
        None => Ok(settings(vars)),
    }
}

/// The settings, or the first thing that is wrong.
pub open spec fn configured(vars: Vars) -> Result<ConfigView, ConfigErrorView> {
    configured_with(vars, zone_complaint(zone_of(vars)))
}

fn required(vars: &Vec<(String, String)>, key: &'static str) -> (r: Result<String, ConfigError>)
    ensures
        res_view(r) == match value_under(pair_views(vars@), key@) {
            Some(v) => Ok::<Seq<char>, ConfigErrorView>(v),
            None => Err(ConfigErrorView::Missing(key@)),
        },
{
    match lookup(vars, key) {
        Some(v) => Ok(v),
        None => Err(ConfigError::Missing(key)),
    }
}

fn parse_required(vars: &Vec<(String, String)>, key: &'static str) -> (r: Result<i64, ConfigError>)
    ensures
        bad_id(pair_views(vars@), key@) == match r {
            Ok(_) => None::<ConfigErrorView>,
            Err(e) => Some(e@),
        },
        r matches Ok(n) ==> n == id_of(pair_views(vars@), key@),
{
    let v = required(vars, key)?;
    match parse_i64(v.as_str()) {
        Some(n) => Ok(n),
        None => Err(
            ConfigError::Invalid {
                key,
                source: int_problem(v.as_str(), i64::MIN, i64::MAX as u64).to_owned(),
            },
        ),
    }
}

fn or_default(v: Option<String>, default: &str) -> (r: String)
    ensures
        r@ == match opt_view(v) {
            Some(s) => s,
            None => default@,
        },
{
    match v {
        Some(v) => v,
        None => default.to_owned(),
    }
}

fn u64_or(v: &Option<String>, key: &'static str, default: u64) -> (r: Result<u64, ConfigError>)
    ensures
        bad_int(opt_view(*v), key@, 0, u64::MAX as int) == match r {
            Ok(_) => None::<ConfigErrorView>,
            Err(e) => Some(e@),
        },
        r matches Ok(n) ==> n == int_or(opt_view(*v), 0, u64::MAX as int, default as int),
{
    match v {
        None => Ok(default),
        Some(v) => match parse_u64(v.as_str()) {
            Some(n) => Ok(n),
            None => Err(
                ConfigError::Invalid {
                    key,
                    source: int_problem(v.as_str(), 0, u64::MAX).to_owned(),
                },
            ),
        },
    }
}

fn port_or(v: &Option<String>, default: u16) -> (r: Result<u16, ConfigError>)
    ensures
        bad_int(opt_view(*v), "API_PORT"@, 0, u16::MAX as int) == match r {
            Ok(_) => None::<ConfigErrorView>,
            Err(e) => Some(e@),
        },
        r matches Ok(n) ==> n == int_or(opt_view(*v), 0, u16::MAX as int, default as int),
{
    match v {
        None => Ok(default),
        Some(v) => match parse_u16(v.as_str()) {
            Some(n) => Ok(n),
            None => Err(
                ConfigError::Invalid {
                    key: "API_PORT",
                    source: int_problem(v.as_str(), 0, u16::MAX as u64).to_owned(),
                },
            ),
        },
    }
}

fn if_written(v: Option<String>) -> (r: Option<String>)
    ensures
        opt_view(r) == written(opt_view(v)),
{
    match v {
        Some(v) => if trim(v.as_str()).as_str().is_empty() {
            None
        } else {
            Some(v)
        },
        None => None,
    }
}

fn parse_tz(vars: &Vec<(String, String)>) -> (r: String)
    ensures
        r@ == zone_of(pair_views(vars@)),
{
    match lookup(vars, "STATUS_TZ") {
        Some(zone) => if zone.as_str().is_empty() {
            "Asia/Tehran".to_owned()
        } else {
            zone
        },
        None => "Asia/Tehran".to_owned(),
    }
}

fn check_tz(vars: &Vec<(String, String)>, complaint: Option<String>) -> (r: Result<(), ConfigError>)
    ensures
        bad_zone(pair_views(vars@), opt_view(complaint)) == match r {
            Ok(_) => None::<ConfigErrorView>,
            Err(e) => Some(e@),
        },
{
    match (lookup(vars, "STATUS_TZ"), complaint) {
        (Some(zone), Some(source)) => if zone.as_str().is_empty() {
            Ok(())
        } else {
            Err(ConfigError::Invalid { key: "STATUS_TZ", source })
        },
        _ => Ok(()),
    }
}

/// What the words for yes and no mean.
pub fn parse_sms_delete_enabled(raw: &str) -> (r: Result<bool, ConfigError>)
    ensures
        res_plain(r) == match enabled_of(raw@) {
            Some(b) => Ok::<bool, ConfigErrorView>(b),
            None => Err(
                ConfigErrorView::Invalid {
                    key: "SMS_DELETE_ENABLED"@,
                    source: "expected true/1/yes or false/0/no"@,
                },
            ),
        },
{
    let word = to_lower(trim(raw).as_str());
    let w = word.as_str();
    if str_eq(w, "") || str_eq(w, "true") || str_eq(w, "1") || str_eq(w, "yes") {
        Ok(true)
    } else if str_eq(w, "false") || str_eq(w, "0") || str_eq(w, "no") {
        Ok(false)
    } else {
        Err(
            ConfigError::Invalid {
                key: "SMS_DELETE_ENABLED",
                source: "expected true/1/yes or false/0/no".to_owned(),
            },
        )
    }
}

/// Whether the age at which messages are deleted can be counted in seconds.
pub fn max_age_fits(vars: &Vec<(String, String)>) -> (r: bool)
    ensures
        r == days_fit(pair_views(vars@)),
{
    match if_written(lookup(vars, "SMS_DELETE_MAX_AGE_DAYS")) {
        None => true,
        Some(v) => match parse_u64(v.as_str()) {
            Some(n) => n <= 213503982334601,
            None => true,
        },
    }
}

impl Config {
    /// Reads the settings from environment variables.
    pub fn from_env(vars: &Vec<(String, String)>) -> (r: Result<Config, ConfigError>)
        requires
            days_fit(pair_views(vars@)),
        ensures
            res_view(r) == configured(pair_views(vars@)),
    {
        let complaint = zone_error(parse_tz(vars).as_str());
        Config::from_vars(vars, complaint)
    }

    /// Reads the settings, given what is said of their time zone if it is
    /// unknown.
    pub fn from_vars(vars: &Vec<(String, String)>, complaint: Option<String>) -> (r: Result<
        Config,
        ConfigError,
    >)
        requires
            days_fit(pair_views(vars@)),
        ensures
            res_view(r) == configured_with(pair_views(vars@), opt_view(complaint)),
    {
        let ghost all = pair_views(vars@);
        let telegram_bot_token = required(vars, "TELEGRAM_BOT_TOKEN")?;
        let telegram_user_id = parse_required(vars, "TELEGRAM_USER_ID")?;
        let telegram_group_id = parse_required(vars, "TELEGRAM_GROUP_ID")?;
        let modem_uid = required(vars, "MODEM_UID")?;
        let google_client_id = required(vars, "GOOGLE_CLIENT_ID")?;
        let google_client_secret = required(vars, "GOOGLE_CLIENT_SECRET")?;
        assert(required_problem(all) is None);
        let google_token_path = or_default(
            lookup(vars, "GOOGLE_TOKEN_PATH"),
            "./secrets/google-token.json",
        );
        let database_path = or_default(lookup(vars, "DATABASE_PATH"), "./data/telesms.sqlite");
        let contacts_sync_interval = u64_or(
            &lookup(vars, "CONTACTS_SYNC_INTERVAL_SECS"),
            "CONTACTS_SYNC_INTERVAL_SECS",
            21600,
        )?;
        let default_region = or_default(lookup(vars, "DEFAULT_REGION"), "IR");
        let status_tz = parse_tz(vars);
        check_tz(vars, complaint)?;
        let sms_delete_enabled = match lookup(vars, "SMS_DELETE_ENABLED") {
            None => true,
            Some(v) => parse_sms_delete_enabled(v.as_str())?,
        };
        assert(bad_enabled(all) is None);
        let days = u64_or(
            &if_written(lookup(vars, "SMS_DELETE_MAX_AGE_DAYS")),
            "SMS_DELETE_MAX_AGE_DAYS",
            30,
        )?;
        let sms_delete_max_age: u64 = days * 86400;
        let api_key = lookup(vars, "API_KEY");
        let api_bind = or_default(lookup(vars, "API_BIND"), "0.0.0.0");
        let api_port = port_or(&if_written(lookup(vars, "API_PORT")), 8787)?;
        Ok(
            Config {
                telegram_bot_token,
                telegram_user_id,
                telegram_group_id,
                modem_uid,
                google_client_id,
                google_client_secret,
                google_token_path,
                database_path,
                contacts_sync_interval,
                default_region,
                status_tz,
                sms_delete_enabled,
                sms_delete_max_age,
                api_key,
                api_bind,
                api_port,
            },
        )
    }

    /// The API is served only where there is a key.
    pub fn api_enabled(&self) -> (r: bool)
        ensures
            r == (self@.api_key matches Some(k) && k.len() > 0),
    {
        match &self.api_key {
            Some(k) => !k.as_str().is_empty(),
            None => false,
        }
    }
}

} // verus!
