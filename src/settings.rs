//! The settings store read as typed groups: each key takes the value stored
//! last under it, or a fixed default where none is stored or a number does
//! not parse.
use vstd::prelude::*;
use crate::numbers::{decimal_text, i32_text, lemma_decimal_round_trip, parse_i32, parsed_i32};
use crate::lockout::{
    LockoutPolicy, DEFAULT_LOCKOUT_DURATION, DEFAULT_MAX_ATTEMPTS, DEFAULT_RESET_ATTEMPTS_AFTER,
};

verus! {

/// One stored setting.
#[derive(Debug, Clone)]
pub struct SettingEntry {
    pub key: String,
    pub value: String,
}

/// The value stored last under `key`.
pub open spec fn last_value(rows: Seq<SettingEntry>, key: Seq<char>) -> Option<Seq<char>>
    decreases rows.len(),
{
    if rows.len() == 0 {
        None
    } else if rows.last().key@ == key {
        Some(rows.last().value@)
    } else {
        last_value(rows.drop_last(), key)
    }
}

pub open spec fn text_setting(rows: Seq<SettingEntry>, key: Seq<char>, default: Seq<char>) -> Seq<char> {
    match last_value(rows, key) {
        Some(v) => v,
        None => default,
    }
}

pub open spec fn number_setting(rows: Seq<SettingEntry>, key: Seq<char>, default: i32) -> i32 {
    match last_value(rows, key) {
        Some(v) => number_or_spec(v, default),
        None => default,
    }
}

#[derive(Debug, Clone)]
pub struct SystemSettings {
    pub system_name: String,
    pub system_description: String,
    pub system_version: String,
}

#[derive(Debug, Clone)]
pub struct UISettings {
    pub theme_color: String,
    pub language: String,
    pub page_size: i32,
}

#[derive(Debug, Clone, Copy, PartialEq, Eq, Structural)]
pub struct SecuritySettings {
    pub max_login_attempts: i32,
    pub lockout_duration: i32,
    pub reset_attempts_after: i32,
}

#[derive(Debug, Clone)]
pub struct SystemSettingsResponse {
    pub system: SystemSettings,
    pub ui: UISettings,
    pub security: SecuritySettings,
}

/// What `settings_from_rows` gives for these rows, field by field.
pub open spec fn settings_match(r: SystemSettingsResponse, rows: Seq<SettingEntry>) -> bool {
    &&& r.system.system_name@ == text_setting(rows, "system_name"@, "Rust Admin"@)
    &&& r.system.system_description@ == text_setting(
        rows,
        "system_description"@,
        "基于 Tauri + Vue 3 的后台管理系统"@,
    )
    &&& r.system.system_version@ == text_setting(rows, "system_version"@, "1.0.0"@)
    &&& r.ui.theme_color@ == text_setting(rows, "theme_color"@, "#1890ff"@)
    &&& r.ui.language@ == text_setting(rows, "language"@, "zh-CN"@)
    &&& r.ui.page_size == number_setting(rows, "page_size"@, 10)
    &&& r.security.max_login_attempts == number_setting(rows, "max_login_attempts"@, 5)
    &&& r.security.lockout_duration == number_setting(rows, "lockout_duration"@, 300)
    &&& r.security.reset_attempts_after == number_setting(rows, "reset_attempts_after"@, 3600)
}

fn key_is(key: &String, name: &str) -> (r: bool)
    ensures
        r == (key@ == name@),
{
    key.eq(&name.to_string())
}

pub open spec fn number_or_spec(text: Seq<char>, default: i32) -> i32 {
    match parsed_i32(text) {
        Some(n) => n,
        None => default,
    }
}

fn number_or(text: &String, default: i32) -> (r: i32)
    ensures
        r == number_or_spec(text@, default),
{
    match parse_i32(text.as_str()) {
        Some(n) => n,
        None => default,
    }
}

/// Takes one stored row into the groups.
fn apply_setting(r: &mut SystemSettingsResponse, row: &SettingEntry)
    ensures
        final(r).system.system_name@ == if row.key@ == "system_name"@ {
            row.value@
        } else {
            old(r).system.system_name@
        },
        final(r).system.system_description@ == if row.key@ == "system_description"@ {
            row.value@
        } else {
            old(r).system.system_description@
        },
        final(r).system.system_version@ == if row.key@ == "system_version"@ {
            row.value@
        } else {
            old(r).system.system_version@
        },
        final(r).ui.theme_color@ == if row.key@ == "theme_color"@ {
            row.value@
        } else {
            old(r).ui.theme_color@
        },
        final(r).ui.language@ == if row.key@ == "language"@ {
            row.value@
        } else {
            old(r).ui.language@
        },
        final(r).ui.page_size == if row.key@ == "page_size"@ {
            number_or_spec(row.value@, 10)
        } else {
            old(r).ui.page_size
        },
        final(r).security.max_login_attempts == if row.key@ == "max_login_attempts"@ {
            number_or_spec(row.value@, 5)
        } else {
            old(r).security.max_login_attempts
        },
        final(r).security.lockout_duration == if row.key@ == "lockout_duration"@ {
            number_or_spec(row.value@, 300)
        } else {
            old(r).security.lockout_duration
        },
        final(r).security.reset_attempts_after == if row.key@ == "reset_attempts_after"@ {
            number_or_spec(row.value@, 3600)
        } else {
            old(r).security.reset_attempts_after
        },
{
    proof {
        reveal_strlit("system_name");
        reveal_strlit("system_description");
        reveal_strlit("system_version");
        reveal_strlit("theme_color");
        reveal_strlit("language");
        reveal_strlit("page_size");
        reveal_strlit("max_login_attempts");
        reveal_strlit("lockout_duration");
        reveal_strlit("reset_attempts_after");
        assert("system_name"@.len() == 11 && "system_name"@[0] == 's');
        assert("system_description"@.len() == 18 && "system_description"@[0] == 's');
        assert("system_version"@.len() == 14 && "system_version"@[0] == 's');
        assert("theme_color"@.len() == 11 && "theme_color"@[0] == 't');
        assert("language"@.len() == 8 && "language"@[0] == 'l');
        assert("page_size"@.len() == 9 && "page_size"@[0] == 'p');
        assert("max_login_attempts"@.len() == 18 && "max_login_attempts"@[0] == 'm');
        assert("lockout_duration"@.len() == 16 && "lockout_duration"@[0] == 'l');
        assert("reset_attempts_after"@.len() == 20 && "reset_attempts_after"@[0] == 'r');
    }
    if key_is(&row.key, "system_name") {
        r.system.system_name = row.value.clone();
    } else if key_is(&row.key, "system_description") {
        r.system.system_description = row.value.clone();
    } else if key_is(&row.key, "system_version") {
        r.system.system_version = row.value.clone();
    } else if key_is(&row.key, "theme_color") {
        r.ui.theme_color = row.value.clone();
    } else if key_is(&row.key, "language") {
        r.ui.language = row.value.clone();
    } else if key_is(&row.key, "page_size") {
        r.ui.page_size = number_or(&row.value, 10);
    } else if key_is(&row.key, "max_login_attempts") {
        r.security.max_login_attempts = number_or(&row.value, 5);
    } else if key_is(&row.key, "lockout_duration") {
        r.security.lockout_duration = number_or(&row.value, 300);
    } else if key_is(&row.key, "reset_attempts_after") {
        r.security.reset_attempts_after = number_or(&row.value, 3600);
    }
}

/// The three settings groups read from the stored rows.
pub fn settings_from_rows(rows: &Vec<SettingEntry>) -> (r: SystemSettingsResponse)
    ensures
        settings_match(r, rows@),
{
    let mut r = SystemSettingsResponse {
        system: SystemSettings {
            system_name: "Rust Admin".to_string(),
            system_description: "基于 Tauri + Vue 3 的后台管理系统".to_string(),
            system_version: "1.0.0".to_string(),
        },
        ui: UISettings {
            theme_color: "#1890ff".to_string(),
            language: "zh-CN".to_string(),
            page_size: 10,
        },
        security: SecuritySettings {
            max_login_attempts: 5,
            lockout_duration: 300,
            reset_attempts_after: 3600,
        },
    };
    assert(rows@.subrange(0, 0) =~= Seq::<SettingEntry>::empty());
    let mut i: usize = 0;
    while i < rows.len()
        invariant
            0 <= i <= rows.len(),
            settings_match(r, rows@.subrange(0, i as int)),
        decreases rows.len() - i,
    {
        let row = &rows[i];
        let ghost prev = rows@.subrange(0, i as int);
        assert(rows@.subrange(0, i + 1).drop_last() =~= prev);
        assert(rows@.subrange(0, i + 1).last() == rows@[i as int]);
        apply_setting(&mut r, row);
        i = i + 1;
    }
    assert(rows@.subrange(0, rows.len() as int) =~= rows@);
    r
}

impl SecuritySettings {
    /// The lockout policy these settings ask for; a value out of range (fewer
    /// than one attempt, a negative duration) falls back to its default.
    pub fn to_policy(&self) -> (r: LockoutPolicy)
        ensures
            r.wf(),
            r.max_attempts == if self.max_login_attempts >= 1 {
                self.max_login_attempts as u32
            } else {
                DEFAULT_MAX_ATTEMPTS
            },
            r.lockout_duration == if self.lockout_duration >= 0 {
                self.lockout_duration as i64
            } else {
                DEFAULT_LOCKOUT_DURATION
            },
            r.reset_attempts_after == if self.reset_attempts_after >= 0 {
                self.reset_attempts_after as i64
            } else {
                DEFAULT_RESET_ATTEMPTS_AFTER
            },
    {
        LockoutPolicy {
            max_attempts: if self.max_login_attempts >= 1 {
                self.max_login_attempts as u32
            } else {
                DEFAULT_MAX_ATTEMPTS
            },
            lockout_duration: if self.lockout_duration >= 0 {
                self.lockout_duration as i64
            } else {
                DEFAULT_LOCKOUT_DURATION
            },
            reset_attempts_after: if self.reset_attempts_after >= 0 {
                self.reset_attempts_after as i64
            } else {
                DEFAULT_RESET_ATTEMPTS_AFTER
            },
        }
    }
}

fn entry(key: &str, value: String) -> (r: SettingEntry)
    ensures
        r.key@ == key@,
        r.value@ == value@,
{
    SettingEntry { key: key.to_string(), value }
}

/// The rows that store the system group.
pub fn system_settings_entries(s: &SystemSettings) -> (r: Vec<SettingEntry>)
    ensures
        r@.len() == 3,
        r@[0].key@ == "system_name"@ && r@[0].value@ == s.system_name@,
        r@[1].key@ == "system_description"@ && r@[1].value@ == s.system_description@,
        r@[2].key@ == "system_version"@ && r@[2].value@ == s.system_version@,
{
    let mut r: Vec<SettingEntry> = Vec::new();
    r.push(entry("system_name", s.system_name.clone()));
    r.push(entry("system_description", s.system_description.clone()));
    r.push(entry("system_version", s.system_version.clone()));
    r
}

/// The rows that store the interface group.
pub fn ui_settings_entries(s: &UISettings) -> (r: Vec<SettingEntry>)
    ensures
        r@.len() == 3,
        r@[0].key@ == "theme_color"@ && r@[0].value@ == s.theme_color@,
        r@[1].key@ == "language"@ && r@[1].value@ == s.language@,
        r@[2].key@ == "page_size"@ && r@[2].value@ == decimal_text(s.page_size as int),
{
    let mut r: Vec<SettingEntry> = Vec::new();
    r.push(entry("theme_color", s.theme_color.clone()));
    r.push(entry("language", s.language.clone()));
    r.push(entry("page_size", i32_text(s.page_size)));
    r
}

/// The rows that store the security group.
pub fn security_settings_entries(s: &SecuritySettings) -> (r: Vec<SettingEntry>)
    ensures
        r@.len() == 3,
        r@[0].key@ == "max_login_attempts"@ && r@[0].value@ == decimal_text(
            s.max_login_attempts as int,
        ),
        r@[1].key@ == "lockout_duration"@ && r@[1].value@ == decimal_text(
            s.lockout_duration as int,
        ),
        r@[2].key@ == "reset_attempts_after"@ && r@[2].value@ == decimal_text(
            s.reset_attempts_after as int,
        ),
{
    let mut r: Vec<SettingEntry> = Vec::new();
    r.push(entry("max_login_attempts", i32_text(s.max_login_attempts)));
    r.push(entry("lockout_duration", i32_text(s.lockout_duration)));
    r.push(entry("reset_attempts_after", i32_text(s.reset_attempts_after)));
    r
}

/// The rows written for the security group read back as the same settings.
pub proof fn lemma_security_settings_round_trip(s: SecuritySettings, rows: Seq<SettingEntry>)
    requires
        rows.len() == 3,
        rows[0].key@ == "max_login_attempts"@ && rows[0].value@ == decimal_text(
            s.max_login_attempts as int,
        ),
        rows[1].key@ == "lockout_duration"@ && rows[1].value@ == decimal_text(
            s.lockout_duration as int,
        ),
        rows[2].key@ == "reset_attempts_after"@ && rows[2].value@ == decimal_text(
            s.reset_attempts_after as int,
        ),
    ensures
        number_setting(rows, "max_login_attempts"@, 5) == s.max_login_attempts,
        number_setting(rows, "lockout_duration"@, 300) == s.lockout_duration,
        number_setting(rows, "reset_attempts_after"@, 3600) == s.reset_attempts_after,
{
    reveal_strlit("max_login_attempts");
    reveal_strlit("lockout_duration");
    reveal_strlit("reset_attempts_after");
    assert("max_login_attempts"@.len() == 18);
    assert("lockout_duration"@.len() == 16);
    assert("reset_attempts_after"@.len() == 20);
    lemma_decimal_round_trip(s.max_login_attempts);
    lemma_decimal_round_trip(s.lockout_duration);
    lemma_decimal_round_trip(s.reset_attempts_after);
    assert(rows.drop_last().drop_last().drop_last() =~= Seq::<SettingEntry>::empty());
    assert(rows.drop_last().last() == rows[1]);
    assert(rows.drop_last().drop_last().last() == rows[0]);
    assert(last_value(rows, "reset_attempts_after"@) == Some(rows[2].value@));
    assert(last_value(rows, "lockout_duration"@) == last_value(rows.drop_last(), "lockout_duration"@));
    assert(last_value(rows.drop_last(), "lockout_duration"@) == Some(rows[1].value@));
    assert(last_value(rows, "max_login_attempts"@) == last_value(rows.drop_last(), "max_login_attempts"@));
    assert(last_value(rows.drop_last(), "max_login_attempts"@) == last_value(rows.drop_last().drop_last(), "max_login_attempts"@));
    assert(last_value(rows.drop_last().drop_last(), "max_login_attempts"@) == Some(rows[0].value@));
}

} // verus!
