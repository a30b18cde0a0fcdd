//! Configuration values and the pure decisions the program makes on them:
//! placeholder expansion, archive naming, and settings validation.

use vstd::prelude::*;
use vstd::string::StrSliceExecFns;
use crate::strutil::{
    eq_lowered, replace_str, spec_dec_digits, spec_lower, spec_replace, spec_trim, trim_str,
    u64_to_dec,
};

verus! {

/// Faults in the configuration or in one backup item.
#[derive(Debug)]
pub enum ConfigError {
    /// A backup item names neither a source path nor a source directory.
    MissingSource,
    /// The expanded source path is blank.
    EmptySource,
    /// The configuration lists no backup items.
    NoBackups,
}

/// One backup item of the configuration.
#[derive(Debug)]
pub struct BackupItem {
    pub source_dir: Option<String>,
    pub source_path: Option<String>,
    pub command: Option<String>,
    pub command_workdir: Option<String>,
    pub keep_command_source: Option<bool>,
    pub remote_dir: String,
    pub archive_name: String,
    pub keep_archive: Option<bool>,
}

/// Application-level settings of the configuration.
#[derive(Debug)]
pub struct AppConfig {
    pub baidu_enabled: Option<bool>,
    pub baidu_app_key: Option<String>,
    pub baidu_app_secret: Option<String>,
    pub baidu_config: Option<String>,
    pub cloud189_enabled: Option<bool>,
    pub cloud189_config: Option<String>,
    pub cloud189_username: Option<String>,
    pub cloud189_password: Option<String>,
    pub cloud189_use_qr: Option<bool>,
}

/// The whole configuration file.
#[derive(Debug)]
pub struct Config {
    pub app: AppConfig,
    pub backups: Vec<BackupItem>,
}

/// A configuration must list at least one backup item.
pub fn validate_config(config: &Config) -> (r: Result<(), ConfigError>)
    ensures
        config.backups@.len() == 0 <==> (r matches Err(e) && e is NoBackups),
        config.backups@.len() > 0 <==> r is Ok,
{
    if config.backups.len() == 0 {
        Err(ConfigError::NoBackups)
    } else {
        Ok(())
    }
}

/// How a permissive boolean setting reads: `1`/`true`/`yes`/`on` and
/// `0`/`false`/`no`/`off`, after trimming and ASCII lowering; anything
/// else means nothing.
pub open spec fn spec_parse_env_bool(s: Seq<char>) -> Option<bool> {
    let t = spec_lower(spec_trim(s));
    if t == "1"@ || t == "true"@ || t == "yes"@ || t == "on"@ {
        Some(true)
    } else if t == "0"@ || t == "false"@ || t == "no"@ || t == "off"@ {
        Some(false)
    } else {
        None
    }
}

/// Parse a permissive boolean setting.
pub fn parse_env_bool(value: String) -> (r: Option<bool>)
    ensures
        r == spec_parse_env_bool(value@),
{
    let t = trim_str(value.as_str());
    if eq_lowered(t, "1") || eq_lowered(t, "true") || eq_lowered(t, "yes") || eq_lowered(t, "on") {
        Some(true)
    } else if eq_lowered(t, "0") || eq_lowered(t, "false") || eq_lowered(t, "no") || eq_lowered(
        t,
        "off",
    ) {
        Some(false)
    } else {
        None
    }
}

/// An archive name reads as its trimmed self, or `backup` when blank.
pub open spec fn spec_normalize_archive_name(s: Seq<char>) -> Seq<char> {
    if spec_trim(s).len() == 0 {
        "backup"@
    } else {
        spec_trim(s)
    }
}

/// Trim an archive name, falling back to `backup` when blank.
pub fn normalize_archive_name<'a>(archive_name: &'a str) -> (r: &'a str)
    ensures
        r@ == spec_normalize_archive_name(archive_name@),
{
    let t = trim_str(archive_name);
    if t.unicode_len() == 0 {
        "backup"
    } else {
        t
    }
}

/// `input` with `{date}` replaced first, then `{archive_name}`.
pub open spec fn spec_expand(
    input: Seq<char>,
    date: Seq<char>,
    archive_name: Seq<char>,
) -> Seq<char> {
    spec_replace(spec_replace(input, "{date}"@, date), "{archive_name}"@, archive_name)
}

/// Substitute the `{date}` and `{archive_name}` placeholders.
pub fn expand_placeholders(input: &str, date: &str, archive_name: &str) -> (r: String)
    ensures
        r@ == spec_expand(input@, date@, archive_name@),
{
    proof {
        reveal_strlit("{date}");
        reveal_strlit("{archive_name}");
    }
    let first = replace_str(input, "{date}", date);
    replace_str(first.as_str(), "{archive_name}", archive_name)
}

/// The source a backup item names: an explicit path wins over a directory.
pub open spec fn spec_source_candidate(item: BackupItem) -> Option<String> {
    if item.source_path is Some {
        item.source_path
    } else {
        item.source_dir
    }
}

/// Resolve a backup item's source: expand placeholders, trim, and refuse
/// a missing or blank source.
pub fn resolve_source_path(item: &BackupItem, date: &str, archive_name: &str) -> (r: Result<
    String,
    ConfigError,
>)
    ensures
        spec_source_candidate(*item) is None ==> (r matches Err(e) && e is MissingSource),
        spec_source_candidate(*item) matches Some(c) ==> {
            let t = spec_trim(spec_expand(c@, date@, archive_name@));
            &&& (t.len() == 0 ==> (r matches Err(e) && e is EmptySource))
            &&& (t.len() > 0 ==> (r matches Ok(p) && p@ == t))
        },
{
    let candidate: &String = match &item.source_path {
        Some(p) => p,
        None => match &item.source_dir {
            Some(d) => d,
            None => {
                return Err(ConfigError::MissingSource);
            },
        },
    };
    let expanded = expand_placeholders(candidate.as_str(), date, archive_name);
    let trimmed = trim_str(expanded.as_str());
    if trimmed.unicode_len() == 0 {
        Err(ConfigError::EmptySource)
    } else {
        Ok(trimmed.to_owned())
    }
}

/// The first present value, if any.
pub open spec fn spec_or_string(a: Option<String>, b: Option<String>) -> Option<String> {
    if a is Some {
        a
    } else {
        b
    }
}

/// Settle the second vendor's login settings: explicit configuration wins
/// over the environment's values, and the QR flag defaults to off.
pub fn resolve_cloud189_credentials(
    username: Option<String>,
    password: Option<String>,
    use_qr: Option<bool>,
    env_username: Option<String>,
    env_password: Option<String>,
    env_use_qr: Option<String>,
) -> (r: (Option<String>, Option<String>, bool))
    ensures
        r.0 == spec_or_string(username, env_username),
        r.1 == spec_or_string(password, env_password),
        r.2 == (if use_qr is Some {
            use_qr->Some_0
        } else if env_use_qr is Some && spec_parse_env_bool(env_use_qr->Some_0@) is Some {
            spec_parse_env_bool(env_use_qr->Some_0@)->Some_0
        } else {
            false
        }),
{
    let u = match username {
        Some(v) => Some(v),
        None => env_username,
    };
    let p = match password {
        Some(v) => Some(v),
        None => env_password,
    };
    let q = match use_qr {
        Some(v) => v,
        None => match env_use_qr {
            Some(raw) => match parse_env_bool(raw) {
                Some(v) => v,
                None => false,
            },
            None => false,
        },
    };
    (u, p, q)
}

/// A present setting whose trimmed text is non-empty.
pub open spec fn spec_nonblank(v: Option<String>) -> bool {
    v is Some && spec_trim(v->Some_0@).len() > 0
}

/// Whether an optional setting is present and not blank.
pub fn has_nonblank(v: &Option<String>) -> (r: bool)
    ensures
        r == spec_nonblank(*v),
{
    match v {
        Some(s) => {
            let t = trim_str(s.as_str());
            t.unicode_len() > 0
        },
        None => false,
    }
}

/// The first vendor's settings are complete: either it is disabled, or
/// both the application key and the secret are present and non-blank.
pub fn baidu_settings_complete(
    enabled: bool,
    app_key: &Option<String>,
    app_secret: &Option<String>,
) -> (r: bool)
    ensures
        r == (!enabled || (spec_nonblank(*app_key) && spec_nonblank(*app_secret))),
{
    if enabled {
        has_nonblank(app_key) && has_nonblank(app_secret)
    } else {
        true
    }
}

/// The second vendor's settings are usable: QR login, or a full
/// username/password pair.
pub fn cloud189_settings_ok(
    use_qr: bool,
    username: &Option<String>,
    password: &Option<String>,
) -> (r: bool)
    ensures
        r == (use_qr || (spec_nonblank(*username) && spec_nonblank(*password))),
{
    if use_qr {
        true
    } else {
        has_nonblank(username) && has_nonblank(password)
    }
}

/// The archive file name for a backup item on a given date.
pub open spec fn spec_archive_file_name(archive_name: Seq<char>, date: Seq<char>) -> Seq<char> {
    archive_name + "-"@ + date + ".tar.zst"@
}

pub fn archive_file_name(archive_name: &str, date: &str) -> (r: String)
    ensures
        r@ == spec_archive_file_name(archive_name@, date@),
{
    let mut out = String::new();
    out.append(archive_name);
    out.append("-");
    out.append(date);
    out.append(".tar.zst");
    proof {
        assert(out@ =~= spec_archive_file_name(archive_name@, date@));
    }
    out
}

/// The numbered alternative used when the plain archive name is taken.
pub open spec fn spec_archive_file_name_numbered(
    archive_name: Seq<char>,
    date: Seq<char>,
    counter: int,
) -> Seq<char> {
    archive_name + "-"@ + date + "-"@ + spec_dec_digits(counter) + ".tar.zst"@
}

pub fn archive_file_name_numbered(archive_name: &str, date: &str, counter: u64) -> (r: String)
    ensures
        r@ == spec_archive_file_name_numbered(archive_name@, date@, counter as int),
{
    let mut out = String::new();
    out.append(archive_name);
    out.append("-");
    out.append(date);
    out.append("-");
    let digits = u64_to_dec(counter);
    out.append(digits.as_str());
    out.append(".tar.zst");
    proof {
        assert(out@ =~= spec_archive_file_name_numbered(archive_name@, date@, counter as int));
    }
    out
}

} // verus!
