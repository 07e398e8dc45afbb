use vstd::prelude::*;
use std::collections::HashMap;

verus! {

/// One plugin's settings: whether it runs, and its options.
#[derive(Debug)]
pub struct PluginConfig {
    pub enabled: bool,
    pub config: Option<HashMap<String, String>>,
}

impl Default for PluginConfig {
    /// Enabled, with no options.
    fn default() -> (r: PluginConfig)
        ensures
            r.enabled,
            r.config is None,
    {
        PluginConfig { enabled: true, config: None }
    }
}

/// The application's settings: each plugin's settings by plugin id, and the log level.
#[derive(Debug)]
pub struct AppConfig {
    pub plugins: Option<HashMap<String, PluginConfig>>,
    pub log_level: String,
}

impl Default for AppConfig {
    /// No plugin settings, logging at `INFO`.
    fn default() -> (r: AppConfig)
        ensures
            r.plugins matches Some(m) && m@ == Map::<String, PluginConfig>::empty(),
            r.log_level@ == "INFO"@,
    {
        AppConfig { plugins: Some(HashMap::new()), log_level: String::from_str("INFO") }
    }
}

/// The levels of the log.
#[derive(Debug, Clone, Copy, PartialEq, Eq, Structural)]
pub enum LogLevel {
    Off,
    Error,
    Warn,
    Info,
    Debug,
    Trace,
}

/// The two characters are equal once ASCII letters are folded to one case.
pub open spec fn ascii_char_eq_ignore_case(c: char, t: char) -> bool {
    ||| c == t
    ||| ('A' <= c && c <= 'Z' && (c as u32) + 32 == (t as u32))
    ||| ('A' <= t && t <= 'Z' && (t as u32) + 32 == (c as u32))
}

/// The two strings are equal once ASCII letters are folded to one case.
pub open spec fn ascii_eq_ignore_case(a: Seq<char>, b: Seq<char>) -> bool {
    &&& a.len() == b.len()
    &&& forall|j: int| 0 <= j < a.len() ==> ascii_char_eq_ignore_case(#[trigger] a[j], b[j])
}

/// The level that a name denotes, in any ASCII case.
pub open spec fn level_named(s: Seq<char>) -> Option<LogLevel> {
    if ascii_eq_ignore_case(s, "OFF"@) {
        Some(LogLevel::Off)
    } else if ascii_eq_ignore_case(s, "ERROR"@) {
        Some(LogLevel::Error)
    } else if ascii_eq_ignore_case(s, "WARN"@) {
        Some(LogLevel::Warn)
    } else if ascii_eq_ignore_case(s, "INFO"@) {
        Some(LogLevel::Info)
    } else if ascii_eq_ignore_case(s, "DEBUG"@) {
        Some(LogLevel::Debug)
    } else if ascii_eq_ignore_case(s, "TRACE"@) {
        Some(LogLevel::Trace)
    } else {
        None
    }
}

/// Relies on `FromStr for log::LevelFilter`: it accepts exactly the names `OFF`, `ERROR`,
/// `WARN`, `INFO`, `DEBUG` and `TRACE`, compared with `eq_ignore_ascii_case`.
#[verifier::external_body]
fn parse_level_filter(s: &str) -> (r: Option<LogLevel>)
    ensures
        r == level_named(s@),
{
    match s.parse::<log::LevelFilter>() {
        Ok(log::LevelFilter::Off) => Some(LogLevel::Off),
        Ok(log::LevelFilter::Error) => Some(LogLevel::Error),
        Ok(log::LevelFilter::Warn) => Some(LogLevel::Warn),
        Ok(log::LevelFilter::Info) => Some(LogLevel::Info),
        Ok(log::LevelFilter::Debug) => Some(LogLevel::Debug),
        Ok(log::LevelFilter::Trace) => Some(LogLevel::Trace),
        Err(_) => None,
    }
}

/// The log level that the settings name, or `Info` when the name is unknown.
pub fn set_log_level_by_config(app_config: &AppConfig) -> (r: LogLevel)
    ensures
        r == (match level_named(app_config.log_level@) {
            Some(l) => l,
            None => LogLevel::Info,
        }),
{
    match parse_level_filter(app_config.log_level.as_str()) {
        Some(level) => level,
        None => LogLevel::Info,
    }
}

/// The self-description that one loaded plugin reports.
#[derive(Debug)]
pub struct ConfigSchema {
    pub id: String,
    pub name: String,
    pub description: String,
    pub config: Vec<HashMap<String, String>>,
}

/// The self-descriptions of all loaded plugins, in load order.
#[derive(Debug)]
pub struct ConfigSchemaList {
    pub plugins: Vec<ConfigSchema>,
}

impl ConfigSchemaList {
    /// The ids of the loaded plugins, in load order.
    pub fn loaded_plugins(&self) -> (r: Vec<String>)
        ensures
            r@.len() == self.plugins@.len(),
            forall|i: int| 0 <= i < r@.len() ==> #[trigger] r@[i]@ == self.plugins@[i].id@,
    {
        let mut out: Vec<String> = Vec::new();
        let mut i: usize = 0;
        while i < self.plugins.len()
            invariant
                i <= self.plugins@.len(),
                out@.len() == i,
                forall|k: int| 0 <= k < i ==> #[trigger] out@[k]@ == self.plugins@[k].id@,
            decreases self.plugins@.len() - i,
        {
            out.push(self.plugins[i].id.clone());
            i = i + 1;
        }
        out
    }

    /// The position of the first plugin with this id.
    pub fn find(&self, plugin_id: &String) -> (r: Option<usize>)
        ensures
            r matches Some(i) ==> i < self.plugins@.len() && self.plugins@[i as int].id@ == plugin_id@
                && forall|k: int| 0 <= k < i ==> #[trigger] self.plugins@[k].id@ != plugin_id@,
            r is None ==> forall|k: int|
                0 <= k < self.plugins@.len() ==> #[trigger] self.plugins@[k].id@ != plugin_id@,
    {
        let mut i: usize = 0;
        while i < self.plugins.len()
            invariant
                i <= self.plugins@.len(),
                forall|k: int| 0 <= k < i ==> #[trigger] self.plugins@[k].id@ != plugin_id@,
            decreases self.plugins@.len() - i,
        {
            if self.plugins[i].id == *plugin_id {
                return Some(i);
            }
            i = i + 1;
        }
        None
    }
}

} // verus!
