//! What the service does with its environment when it starts.

use crate::text::same;
use vstd::prelude::*;
use vstd::string::*;

verus! {

/// How much is logged.
#[derive(Debug, Clone, Copy, PartialEq, Eq, Structural)]
pub enum LogLevel {
    Trace,
    Debug,
    Info,
    Warn,
    Error,
}

/// The level that a setting names; `Info` where it names none.
pub open spec fn level_named(setting: Option<String>) -> LogLevel {
    match setting {
        Some(name) => if name@ == "debug"@ {
            LogLevel::Debug
        } else if name@ == "trace"@ {
            LogLevel::Trace
        } else if name@ == "warn"@ {
            LogLevel::Warn
        } else if name@ == "error"@ {
            LogLevel::Error
        } else {
            LogLevel::Info
        },
        None => LogLevel::Info,
    }
}

/// Chooses the log level.
pub fn log_level(setting: &Option<String>) -> (r: LogLevel)
    ensures
        r == level_named(*setting),
{
    match setting {
        Some(name) => {
            if same(name.as_str(), "debug") {
                LogLevel::Debug
            } else if same(name.as_str(), "trace") {
                LogLevel::Trace
            } else if same(name.as_str(), "warn") {
                LogLevel::Warn
            } else if same(name.as_str(), "error") {
                LogLevel::Error
            } else {
                LogLevel::Info
            }
        },
        None => LogLevel::Info,
    }
}

/// The value of a setting, or what stands for it where it is not set.
pub open spec fn setting_or(setting: Option<String>, default_value: Seq<char>) -> Seq<char> {
    match setting {
        Some(value) => value@,
        None => default_value,
    }
}

fn or_default(setting: &Option<String>, default_value: &str) -> (r: String)
    ensures
        r@ == setting_or(*setting, default_value@),
{
    match setting {
        Some(value) => value.clone(),
        None => default_value.to_owned(),
    }
}

/// Where the service listens: by default on port 4653 of every interface.
pub fn listen_address(host: &Option<String>, port: &Option<String>) -> (r: String)
    ensures
        r@ == setting_or(*host, "0.0.0.0"@) + ":"@ + setting_or(*port, "4653"@),
{
    let mut address = or_default(host, "0.0.0.0");
    address.append(":");
    address.append(or_default(port, "4653").as_str());
    address
}

/// The origin whose pages may use the service.
pub fn allowed_origin(setting: &Option<String>) -> (r: String)
    ensures
        r@ == setting_or(*setting, "https://jeaic.com"@),
{
    or_default(setting, "https://jeaic.com")
}

/// A setting that names a level gives that level; any other text, and no setting, give
/// the level of information.
pub proof fn levels_go_by_their_names(name: String)
    ensures
        level_named(Some(name)) == LogLevel::Debug <==> name@ == "debug"@,
        level_named(Some(name)) == LogLevel::Trace <==> name@ == "trace"@,
        level_named(Some(name)) == LogLevel::Warn <==> name@ == "warn"@,
        level_named(Some(name)) == LogLevel::Error <==> name@ == "error"@,
        level_named(None) == LogLevel::Info,
{
    reveal_strlit("debug");
    reveal_strlit("trace");
    reveal_strlit("warn");
    reveal_strlit("error");
    assert("debug"@[0] == 'd' && "trace"@[0] == 't' && "warn"@[0] == 'w' && "error"@[0] == 'e');
}

/// A setting that is there is used as it is, and only where there is none what stands
/// for it.
pub proof fn settings_are_used_as_they_are(value: String, default_value: Seq<char>)
    ensures
        setting_or(Some(value), default_value) == value@,
        setting_or(None, default_value) == default_value,
{
}

} // verus!
