//! Log levels and the lines written for them. The caller reads the settings
//! and writes the lines to standard error.

use vstd::prelude::*;
use crate::text::text_eq;

verus! {

#[derive(PartialEq, Eq, Structural, Clone, Copy, Debug)]
pub enum LogLevel {
    Error,
    Warn,
    Info,
    Debug,
    Tip,
}

/// The settings that gate logging.
#[derive(Debug, Clone, PartialEq, Eq)]
pub struct LogConfig {
    pub level: LogLevel,
    pub enabled: bool,
}

/// What `str::to_uppercase` gives for `s`.
pub uninterp spec fn upper_of(s: Seq<char>) -> Seq<char>;

/// What `str::to_lowercase` gives for `s`.
pub uninterp spec fn lower_of(s: Seq<char>) -> Seq<char>;

/// Relies on str::to_uppercase: the result depends on the characters alone.
#[verifier::external_body]
fn to_upper(s: &str) -> (r: String)
    ensures
        r@ == upper_of(s@),
{
    s.to_uppercase()
}

/// Relies on str::to_lowercase: the result depends on the characters alone.
#[verifier::external_body]
fn to_lower(s: &str) -> (r: String)
    ensures
        r@ == lower_of(s@),
{
    s.to_lowercase()
}

/// The level an upper-case level name selects; unknown names select `Debug`.
pub open spec fn level_named(name: Seq<char>) -> LogLevel {
    if name == "ERROR"@ {
        LogLevel::Error
    } else if name == "WARN"@ {
        LogLevel::Warn
    } else if name == "INFO"@ {
        LogLevel::Info
    } else {
        LogLevel::Debug
    }
}

/// Verbosity rank of a configured level; a message of rank at least the
/// configured one is written.
pub open spec fn rank(l: LogLevel) -> nat {
    match l {
        LogLevel::Error => 0,
        LogLevel::Warn => 1,
        LogLevel::Info => 2,
        _ => 3,
    }
}

impl LogConfig {
    /// The configuration from an already upper-cased level name and an
    /// already lower-cased debug flag; both default when absent (level
    /// `Debug`, logging on). Logging is on exactly when the flag is `true`.
    pub fn from_normalized(level_upper: Option<&str>, debug_lower: Option<&str>) -> (r: LogConfig)
        ensures
            r.level == match level_upper {
                Some(s) => level_named(s@),
                None => LogLevel::Debug,
            },
            r.enabled == match debug_lower {
                Some(s) => s@ == "true"@,
                None => true,
            },
    {
        let level = match level_upper {
            Some(s) => if text_eq(s, "ERROR") {
                LogLevel::Error
            } else if text_eq(s, "WARN") {
                LogLevel::Warn
            } else if text_eq(s, "INFO") {
                LogLevel::Info
            } else {
                LogLevel::Debug
            },
            None => LogLevel::Debug,
        };
        let enabled = match debug_lower {
            Some(s) => text_eq(s, "true"),
            None => true,
        };
        LogConfig { level, enabled }
    }

    /// The configuration from the raw settings: the level name is compared
    /// without regard to case, and so is the debug flag.
    pub fn from_settings(level: Option<&str>, debug: Option<&str>) -> (r: LogConfig)
        ensures
            r.level == match level {
                Some(s) => level_named(upper_of(s@)),
                None => LogLevel::Debug,
            },
            r.enabled == match debug {
                Some(s) => lower_of(s@) == "true"@,
                None => true,
            },
    {
        let upper = match level {
            Some(s) => Some(to_upper(s)),
            None => None,
        };
        let lower = match debug {
            Some(s) => Some(to_lower(s)),
            None => None,
        };
        let level_upper = match &upper {
            Some(s) => Some(s.as_str()),
            None => None,
        };
        let debug_lower = match &lower {
            Some(s) => Some(s.as_str()),
            None => None,
        };
        LogConfig::from_normalized(level_upper, debug_lower)
    }

    /// Whether a message of `level` is written.
    pub open spec fn spec_writes(&self, level: LogLevel) -> bool {
        self.enabled && (level == LogLevel::Tip || rank(self.level) <= rank(level))
    }
}

/// A secret as it may be logged: its first and last characters with stars
/// between them. Secrets shorter than two characters are all stars.
pub open spec fn redacted(s: Seq<char>) -> Seq<char> {
    if s.len() < 2 {
        Seq::new(s.len(), |i: int| '*')
    } else {
        seq![s[0]] + Seq::new((s.len() - 2) as nat, |i: int| '*') + seq![s.last()]
    }
}

/// Masks a secret for logging.
pub fn redact(secret: &str) -> (r: String)
    ensures
        r@ == redacted(secret@),
{
    proof {
        reveal_strlit("*");
    }
    let n = secret.unicode_len();
    let (mut out, stars) = if n < 2 {
        (String::new(), n)
    } else {
        (String::from_str(secret.substring_char(0, 1)), n - 2)
    };
    let ghost start = out@;
    let mut i: usize = 0;
    while i < stars
        invariant
            i <= stars,
            out@ == start + Seq::new(i as nat, |k: int| '*'),
        decreases stars - i,
    {
        proof {
            reveal_strlit("*");
        }
        out = out.concat("*");
        assert("*"@ =~= seq!['*']);
        assert(out@ =~= start + Seq::new((i + 1) as nat, |k: int| '*'));
        i = i + 1;
    }
    if n >= 2 {
        out = out.concat(secret.substring_char(n - 1, n));
    }
    assert(out@ =~= redacted(secret@));
    out
}

/// The tag that starts a line of `level`.
pub open spec fn tag_of(level: LogLevel) -> Seq<char> {
    match level {
        LogLevel::Error => "ERROR  | "@,
        LogLevel::Warn => "WARN   | "@,
        LogLevel::Info => "INFO   | "@,
        LogLevel::Debug => "DEBUG  | "@,
        LogLevel::Tip => "TIP    | "@,
    }
}

/// The line to write for `message` at `level`, or `None` when the
/// configuration silences it.
pub fn log(config: &LogConfig, message: &str, level: LogLevel) -> (r: Option<String>)
    ensures
        r.is_some() == config.spec_writes(level),
        r.is_some() ==> r.unwrap()@ == tag_of(level) + message@,
{
    let rank_of = |l: LogLevel| -> (n: u8)
        ensures
            n == rank(l),
        {
            match l {
                LogLevel::Error => 0u8,
                LogLevel::Warn => 1u8,
                LogLevel::Info => 2u8,
                _ => 3u8,
            }
        };
    if !config.enabled {
        return None;
    }
    if level != LogLevel::Tip && rank_of(config.level) > rank_of(level) {
        return None;
    }
    let tag = match level {
        LogLevel::Error => "ERROR  | ",
        LogLevel::Warn => "WARN   | ",
        LogLevel::Info => "INFO   | ",
        LogLevel::Debug => "DEBUG  | ",
        LogLevel::Tip => "TIP    | ",
    };
    Some(String::from_str(tag).concat(message))
}

pub fn error(config: &LogConfig, message: &str) -> (r: Option<String>)
    ensures
        r.is_some() == config.spec_writes(LogLevel::Error),
        r.is_some() ==> r.unwrap()@ == tag_of(LogLevel::Error) + message@,
{
    log(config, message, LogLevel::Error)
}

pub fn warn(config: &LogConfig, message: &str) -> (r: Option<String>)
    ensures
        r.is_some() == config.spec_writes(LogLevel::Warn),
        r.is_some() ==> r.unwrap()@ == tag_of(LogLevel::Warn) + message@,
{
    log(config, message, LogLevel::Warn)
}

pub fn info(config: &LogConfig, message: &str) -> (r: Option<String>)
    ensures
        r.is_some() == config.spec_writes(LogLevel::Info),
        r.is_some() ==> r.unwrap()@ == tag_of(LogLevel::Info) + message@,
{
    log(config, message, LogLevel::Info)
}

pub fn debug(config: &LogConfig, message: &str) -> (r: Option<String>)
    ensures
        r.is_some() == config.spec_writes(LogLevel::Debug),
        r.is_some() ==> r.unwrap()@ == tag_of(LogLevel::Debug) + message@,
{
    log(config, message, LogLevel::Debug)
}

pub fn tip(config: &LogConfig, message: &str) -> (r: Option<String>)
    ensures
        r.is_some() == config.spec_writes(LogLevel::Tip),
        r.is_some() ==> r.unwrap()@ == tag_of(LogLevel::Tip) + message@,
{
    log(config, message, LogLevel::Tip)
}

} // verus!
