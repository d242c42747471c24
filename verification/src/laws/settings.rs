//! What the settings are, said of the variables that are set.
use vstd::prelude::*;

use crate::config::{configured_with, settings, written, ConfigErrorView, ConfigView, Vars};
use crate::decimal::{int_complaint, int_text, law_parsed_int_text, parsed};
use crate::laws::texts::law_value_is_the_first;
use crate::text::{lower, trimmed, value_under};

verus! {

/// The variable is set to the value.
pub open spec fn set_to(vars: Vars, key: Seq<char>, value: Seq<char>) -> bool {
    exists|i: int|
        {
            &&& 0 <= i < vars.len()
            &&& #[trigger] vars[i] == (key, value)
            &&& forall|j: int| 0 <= j < i ==> (#[trigger] vars[j]).0 != key
        }
}

/// The variable is not set.
pub open spec fn unset(vars: Vars, key: Seq<char>) -> bool {
    forall|i: int| 0 <= i < vars.len() ==> (#[trigger] vars[i]).0 != key
}

proof fn lemma_set_to(vars: Vars, key: Seq<char>, value: Seq<char>)
    ensures
        set_to(vars, key, value) ==> value_under(vars, key) == Some(value),
        unset(vars, key) ==> value_under(vars, key) is None,
{
    if set_to(vars, key, value) {
        let i = choose|i: int|
            {
                &&& 0 <= i < vars.len()
                &&& #[trigger] vars[i] == (key, value)
                &&& forall|j: int| 0 <= j < i ==> (#[trigger] vars[j]).0 != key
            };
        law_value_is_the_first(vars, key, i);
    }
    if unset(vars, key) {
        law_value_is_the_first(vars, key, 0);
    }
}

/// Every setting that is a text is that of its variable; those that may be left
/// out have a value of their own where they are.
pub proof fn law_texts_are_those_of_their_variables(vars: Vars, v: Seq<char>)
    ensures
        set_to(vars, "TELEGRAM_BOT_TOKEN"@, v) ==> settings(vars).telegram_bot_token == v,
        set_to(vars, "MODEM_UID"@, v) ==> settings(vars).modem_uid == v,
        set_to(vars, "GOOGLE_CLIENT_ID"@, v) ==> settings(vars).google_client_id == v,
        set_to(vars, "GOOGLE_CLIENT_SECRET"@, v) ==> settings(vars).google_client_secret == v,
        set_to(vars, "GOOGLE_TOKEN_PATH"@, v) ==> settings(vars).google_token_path == v,
        set_to(vars, "DATABASE_PATH"@, v) ==> settings(vars).database_path == v,
        set_to(vars, "DEFAULT_REGION"@, v) ==> settings(vars).default_region == v,
        set_to(vars, "API_BIND"@, v) ==> settings(vars).api_bind == v,
        set_to(vars, "API_KEY"@, v) ==> settings(vars).api_key == Some(v),
        set_to(vars, "STATUS_TZ"@, v) && v.len() > 0 ==> settings(vars).status_tz == v,
        unset(vars, "GOOGLE_TOKEN_PATH"@) ==> settings(vars).google_token_path
            == "./secrets/google-token.json"@,
        unset(vars, "DATABASE_PATH"@) ==> settings(vars).database_path == "./data/telesms.sqlite"@,
        unset(vars, "DEFAULT_REGION"@) ==> settings(vars).default_region == "IR"@,
        unset(vars, "API_BIND"@) ==> settings(vars).api_bind == "0.0.0.0"@,
        unset(vars, "API_KEY"@) ==> settings(vars).api_key is None,
        unset(vars, "STATUS_TZ"@) || set_to(vars, "STATUS_TZ"@, Seq::empty()) ==> settings(
            vars,
        ).status_tz == "Asia/Tehran"@,
{
    lemma_set_to(vars, "TELEGRAM_BOT_TOKEN"@, v);
    lemma_set_to(vars, "MODEM_UID"@, v);
    lemma_set_to(vars, "GOOGLE_CLIENT_ID"@, v);
    lemma_set_to(vars, "GOOGLE_CLIENT_SECRET"@, v);
    lemma_set_to(vars, "GOOGLE_TOKEN_PATH"@, v);
    lemma_set_to(vars, "DATABASE_PATH"@, v);
    lemma_set_to(vars, "DEFAULT_REGION"@, v);
    lemma_set_to(vars, "API_BIND"@, v);
    lemma_set_to(vars, "API_KEY"@, v);
    lemma_set_to(vars, "STATUS_TZ"@, v);
    lemma_set_to(vars, "STATUS_TZ"@, Seq::empty());
}

/// Every setting that is a number is that of its variable, days counted in
/// seconds; those that may be left out have a value of their own where they are
/// left out or, of some, blank.
pub proof fn law_numbers_are_those_of_their_variables(vars: Vars, n: int, empty: Seq<char>)
    requires
        empty.len() == 0,
    ensures
        i64::MIN <= n <= i64::MAX && set_to(vars, "TELEGRAM_USER_ID"@, int_text(n)) ==> settings(
            vars,
        ).telegram_user_id == n,
        i64::MIN <= n <= i64::MAX && set_to(vars, "TELEGRAM_GROUP_ID"@, int_text(n)) ==> settings(
            vars,
        ).telegram_group_id == n,
        0 <= n <= u64::MAX && set_to(vars, "CONTACTS_SYNC_INTERVAL_SECS"@, int_text(n))
            ==> settings(vars).contacts_sync_interval == n,
        0 <= n <= u64::MAX && set_to(vars, "SMS_DELETE_MAX_AGE_DAYS"@, int_text(n)) ==> settings(
            vars,
        ).sms_delete_max_age == n * 86400,
        0 <= n <= u16::MAX && set_to(vars, "API_PORT"@, int_text(n)) ==> settings(vars).api_port
            == n,
        unset(vars, "CONTACTS_SYNC_INTERVAL_SECS"@) ==> settings(vars).contacts_sync_interval
            == 21600,
        unset(vars, "SMS_DELETE_MAX_AGE_DAYS"@) || set_to(vars, "SMS_DELETE_MAX_AGE_DAYS"@, empty)
            ==> settings(vars).sms_delete_max_age == 30 * 86400,
        unset(vars, "API_PORT"@) || set_to(vars, "API_PORT"@, empty) ==> settings(vars).api_port
            == 8787,
{
    lemma_set_to(vars, "TELEGRAM_USER_ID"@, int_text(n));
    lemma_set_to(vars, "TELEGRAM_GROUP_ID"@, int_text(n));
    lemma_set_to(vars, "CONTACTS_SYNC_INTERVAL_SECS"@, int_text(n));
    lemma_set_to(vars, "SMS_DELETE_MAX_AGE_DAYS"@, int_text(n));
    lemma_set_to(vars, "SMS_DELETE_MAX_AGE_DAYS"@, empty);
    lemma_set_to(vars, "API_PORT"@, int_text(n));
    lemma_set_to(vars, "API_PORT"@, empty);
    lemma_written_number(n);
    if i64::MIN <= n <= i64::MAX {
        law_parsed_int_text(n, i64::MIN as int, i64::MAX as int);
    }
    if 0 <= n <= u64::MAX {
        law_parsed_int_text(n, 0, u64::MAX as int);
    }
    if 0 <= n <= u16::MAX {
        law_parsed_int_text(n, 0, u16::MAX as int);
    }
    assert(trimmed(empty).len() == 0);
}

/// A number in digits is not blank.
proof fn lemma_written_number(n: int)
    ensures
        n >= 0 ==> written(Some(int_text(n))) == Some(int_text(n)),
{
    if n >= 0 {
        let s = int_text(n);
        crate::decimal::law_value_of_text(n as nat);
        assert(crate::text::is_digit(s[0]));
        assert(crate::text::is_digit(s[s.len() - 1]));
        let none = Seq::<char>::empty();
        crate::laws::texts::law_trimming_keeps_the_core(none, s, none);
        assert(none + s + none =~= s);
    }
}

/// Deleting is on unless it is turned off, in any of the ways of writing so.
pub proof fn law_deleting_is_turned_off_by_name(vars: Vars, raw: Seq<char>, word: Seq<char>)
    requires
        word == lower(trimmed(raw)),
        set_to(vars, "SMS_DELETE_ENABLED"@, raw),
    ensures
        word == "false"@ || word == "0"@ || word == "no"@ ==> !settings(vars).sms_delete_enabled,
        word == "true"@ || word == "1"@ || word == "yes"@ || word.len() == 0 ==> settings(
            vars,
        ).sms_delete_enabled,
{
    lemma_set_to(vars, "SMS_DELETE_ENABLED"@, raw);
    reveal_strlit("");
    reveal_strlit("true");
    reveal_strlit("1");
    reveal_strlit("yes");
    reveal_strlit("false");
    reveal_strlit("0");
    reveal_strlit("no");
    if word.len() == 0 {
        assert(word =~= ""@);
    }
    if word == "false"@ || word == "0"@ || word == "no"@ {
        assert(word.len() == "false"@.len() ==> word[0] == 'f');
        assert(word.len() == 1 ==> word[0] == '0');
        assert(word.len() == 2 ==> word[0] == 'n');
        assert(word != ""@ && word != "true"@ && word != "1"@ && word != "yes"@);
    }
}

/// Where it is not said, deleting is on.
pub proof fn law_deleting_is_on_by_itself(vars: Vars)
    requires
        unset(vars, "SMS_DELETE_ENABLED"@),
    ensures
        settings(vars).sms_delete_enabled,
{
    lemma_set_to(vars, "SMS_DELETE_ENABLED"@, Seq::empty());
}

/// Without a variable that is required there are no settings, and the error names
/// one that is not set, or one of the two numbers that is none.
pub proof fn law_required_variables_are_required(
    vars: Vars,
    complaint: Option<Seq<char>>,
    key: Seq<char>,
)
    requires
        key == "TELEGRAM_BOT_TOKEN"@ || key == "TELEGRAM_USER_ID"@ || key == "TELEGRAM_GROUP_ID"@
            || key == "MODEM_UID"@ || key == "GOOGLE_CLIENT_ID"@ || key == "GOOGLE_CLIENT_SECRET"@,
        unset(vars, key),
    ensures
        configured_with(vars, complaint) is Err,
        configured_with(vars, complaint) matches Err(ConfigErrorView::Missing(missing))
            ==> value_under(vars, missing) is None,
{
    lemma_set_to(vars, key, Seq::empty());
}

/// A single variable that is missing is the one that the error names.
pub proof fn law_missing_variable_is_named(
    vars: Vars,
    complaint: Option<Seq<char>>,
    key: Seq<char>,
    user: Seq<char>,
    group: Seq<char>,
)
    requires
        key == "TELEGRAM_BOT_TOKEN"@ || key == "TELEGRAM_USER_ID"@ || key == "TELEGRAM_GROUP_ID"@
            || key == "MODEM_UID"@ || key == "GOOGLE_CLIENT_ID"@ || key == "GOOGLE_CLIENT_SECRET"@,
        unset(vars, key),
        "TELEGRAM_BOT_TOKEN"@ != key ==> value_under(vars, "TELEGRAM_BOT_TOKEN"@) is Some,
        "TELEGRAM_USER_ID"@ != key ==> set_to(vars, "TELEGRAM_USER_ID"@, user) && parsed(
            user,
            i64::MIN as int,
            i64::MAX as int,
        ) is Some,
        "TELEGRAM_GROUP_ID"@ != key ==> set_to(vars, "TELEGRAM_GROUP_ID"@, group) && parsed(
            group,
            i64::MIN as int,
            i64::MAX as int,
        ) is Some,
        "MODEM_UID"@ != key ==> value_under(vars, "MODEM_UID"@) is Some,
        "GOOGLE_CLIENT_ID"@ != key ==> value_under(vars, "GOOGLE_CLIENT_ID"@) is Some,
        "GOOGLE_CLIENT_SECRET"@ != key ==> value_under(vars, "GOOGLE_CLIENT_SECRET"@) is Some,
    ensures
        configured_with(vars, complaint) == Err::<ConfigView, ConfigErrorView>(
            ConfigErrorView::Missing(key),
        ),
{
    lemma_set_to(vars, key, Seq::empty());
    lemma_set_to(vars, "TELEGRAM_USER_ID"@, user);
    lemma_set_to(vars, "TELEGRAM_GROUP_ID"@, group);
}

/// With every required variable set to something that can be read, and the others
/// left out, but for whether to delete, there are settings.
pub proof fn law_required_variables_are_enough(
    vars: Vars,
    user: Seq<char>,
    group: Seq<char>,
    deleting: Seq<char>,
)
    requires
        value_under(vars, "TELEGRAM_BOT_TOKEN"@) is Some,
        set_to(vars, "TELEGRAM_USER_ID"@, user) && parsed(user, i64::MIN as int, i64::MAX as int)
            is Some,
        set_to(vars, "TELEGRAM_GROUP_ID"@, group) && parsed(group, i64::MIN as int, i64::MAX as int)
            is Some,
        value_under(vars, "MODEM_UID"@) is Some,
        value_under(vars, "GOOGLE_CLIENT_ID"@) is Some,
        value_under(vars, "GOOGLE_CLIENT_SECRET"@) is Some,
        unset(vars, "CONTACTS_SYNC_INTERVAL_SECS"@),
        unset(vars, "SMS_DELETE_ENABLED"@) || (set_to(vars, "SMS_DELETE_ENABLED"@, deleting) && (
        lower(trimmed(deleting)) == "true"@ || lower(trimmed(deleting)) == "false"@)),
        unset(vars, "SMS_DELETE_MAX_AGE_DAYS"@),
        unset(vars, "API_PORT"@),
    ensures
        configured_with(vars, None) == Ok::<ConfigView, ConfigErrorView>(settings(vars)),
{
    lemma_set_to(vars, "TELEGRAM_USER_ID"@, user);
    lemma_set_to(vars, "TELEGRAM_GROUP_ID"@, group);
    lemma_set_to(vars, "CONTACTS_SYNC_INTERVAL_SECS"@, Seq::empty());
    lemma_set_to(vars, "SMS_DELETE_ENABLED"@, deleting);
    lemma_set_to(vars, "SMS_DELETE_MAX_AGE_DAYS"@, Seq::empty());
    lemma_set_to(vars, "API_PORT"@, Seq::empty());
}

/// A variable that is set to what cannot be read is an error, whatever the others
/// are.
pub proof fn law_unreadable_variable_is_an_error(
    vars: Vars,
    complaint: Option<Seq<char>>,
    v: Seq<char>,
)
    ensures
        set_to(vars, "TELEGRAM_USER_ID"@, v) && parsed(v, i64::MIN as int, i64::MAX as int) is None
            ==> configured_with(vars, complaint) is Err,
        set_to(vars, "TELEGRAM_GROUP_ID"@, v) && parsed(v, i64::MIN as int, i64::MAX as int) is None
            ==> configured_with(vars, complaint) is Err,
        set_to(vars, "CONTACTS_SYNC_INTERVAL_SECS"@, v) && parsed(v, 0, u64::MAX as int) is None
            ==> configured_with(vars, complaint) is Err,
        set_to(vars, "SMS_DELETE_MAX_AGE_DAYS"@, v) && trimmed(v).len() > 0 && parsed(
            v,
            0,
            u64::MAX as int,
        ) is None ==> configured_with(vars, complaint) is Err,
        set_to(vars, "API_PORT"@, v) && trimmed(v).len() > 0 && parsed(v, 0, u16::MAX as int) is None
            ==> configured_with(vars, complaint) is Err,
        set_to(vars, "STATUS_TZ"@, v) && v.len() > 0 && complaint is Some ==> configured_with(
            vars,
            complaint,
        ) is Err,
        set_to(vars, "SMS_DELETE_ENABLED"@, v) && lower(trimmed(v)) != ""@ && lower(trimmed(v))
            != "true"@ && lower(trimmed(v)) != "1"@ && lower(trimmed(v)) != "yes"@ && lower(
            trimmed(v),
        ) != "false"@ && lower(trimmed(v)) != "0"@ && lower(trimmed(v)) != "no"@
            ==> configured_with(vars, complaint) is Err,
{
    lemma_set_to(vars, "TELEGRAM_USER_ID"@, v);
    lemma_set_to(vars, "TELEGRAM_GROUP_ID"@, v);
    lemma_set_to(vars, "CONTACTS_SYNC_INTERVAL_SECS"@, v);
    lemma_set_to(vars, "SMS_DELETE_MAX_AGE_DAYS"@, v);
    lemma_set_to(vars, "API_PORT"@, v);
    lemma_set_to(vars, "STATUS_TZ"@, v);
    lemma_set_to(vars, "SMS_DELETE_ENABLED"@, v);
}

/// A number that cannot be read is told with its variable and with what is wrong
/// with it.
pub proof fn law_unreadable_number_is_named(
    vars: Vars,
    complaint: Option<Seq<char>>,
    user: Seq<char>,
    group: Seq<char>,
    v: Seq<char>,
)
    requires
        value_under(vars, "TELEGRAM_BOT_TOKEN"@) is Some,
        set_to(vars, "TELEGRAM_USER_ID"@, user),
    ensures
        parsed(user, i64::MIN as int, i64::MAX as int) is None ==> configured_with(vars, complaint)
            == Err::<ConfigView, ConfigErrorView>(
            ConfigErrorView::Invalid {
                key: "TELEGRAM_USER_ID"@,
                source: int_complaint(user, i64::MIN as int, i64::MAX as int),
            },
        ),
        parsed(user, i64::MIN as int, i64::MAX as int) is Some && set_to(
            vars,
            "TELEGRAM_GROUP_ID"@,
            group,
        ) && parsed(group, i64::MIN as int, i64::MAX as int) is Some && value_under(
            vars,
            "MODEM_UID"@,
        ) is Some && value_under(vars, "GOOGLE_CLIENT_ID"@) is Some && value_under(
            vars,
            "GOOGLE_CLIENT_SECRET"@,
        ) is Some && set_to(vars, "CONTACTS_SYNC_INTERVAL_SECS"@, v) && parsed(
            v,
            0,
            u64::MAX as int,
        ) is None ==> configured_with(vars, complaint) == Err::<ConfigView, ConfigErrorView>(
            ConfigErrorView::Invalid {
                key: "CONTACTS_SYNC_INTERVAL_SECS"@,
                source: int_complaint(v, 0, u64::MAX as int),
            },
        ),
{
    lemma_set_to(vars, "TELEGRAM_USER_ID"@, user);
    lemma_set_to(vars, "TELEGRAM_GROUP_ID"@, group);
    lemma_set_to(vars, "CONTACTS_SYNC_INTERVAL_SECS"@, v);
}

/// What is wrong with a number is that it is not there, that it is too great, or
/// that it is none.
pub proof fn law_wrong_numbers_are_told(s: Seq<char>, lo: int, hi: int)
    requires
        lo <= 0 <= hi,
    ensures
        s.len() == 0 ==> int_complaint(s, lo, hi) == "cannot parse integer from empty string"@,
        s.len() > 0 && crate::decimal::all_digits(s) && crate::decimal::value(s) > hi
            ==> int_complaint(s, lo, hi) == "number too large to fit in target type"@,
        s.len() > 0 && !crate::text::is_digit(s[0]) && s[0] != '-' && s[0] != '+' ==> int_complaint(
            s,
            lo,
            hi,
        ) == "invalid digit found in string"@,
{
    if s.len() > 0 && crate::decimal::all_digits(s) {
        assert(crate::text::is_digit(s[0]));
        lemma_all_leading(s);
    }
}

proof fn lemma_all_leading(s: Seq<char>)
    requires
        crate::decimal::all_digits(s),
    ensures
        crate::decimal::leading_digits(s) == s,
    decreases s.len(),
{
    if s.len() > 0 {
        assert(crate::text::is_digit(s[0]));
        let rest = s.skip(1);
        assert forall|i: int| 0 <= i < rest.len() implies crate::text::is_digit(
            #[trigger] rest[i],
        ) by {
            assert(rest[i] == s[i + 1]);
        }
        lemma_all_leading(rest);
        assert(seq![s[0]] + rest =~= s);
    } else {
        assert(s =~= Seq::<char>::empty());
    }
}

/// An error about a variable names it, and says which.
pub proof fn law_errors_say_the_variable(key: Seq<char>, source: Seq<char>)
    ensures
        ConfigErrorView::Missing(key).words() == "missing required env var: "@ + key,
        (ConfigErrorView::Invalid { key, source }).words() == "invalid value for "@ + key + ": "@
            + source,
{
}

} // verus!
