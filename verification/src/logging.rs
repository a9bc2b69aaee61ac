//! Log-level resolution: the shell controls logging verbosity through an
//! environment variable whose recognized values are `trace`, `debug`, `warn`
//! and `error` (compared without regard to ASCII case). Anything else, or an
//! absent variable, falls back to a build-mode default: `Debug` in development
//! builds, `Info` in release builds.

use vstd::prelude::*;

verus! {

#[derive(Clone, Copy, Debug, PartialEq, Eq, Structural)]
pub enum LogLevel {
    Trace,
    Debug,
    Info,
    Warn,
    Error,
}

/// Whether `a` equals `b` up to ASCII case: either the same character, or `a`
/// is an ASCII upper-case letter whose lower-case form is `b`.
pub open spec fn chars_eq_ignore_ascii_case(a: char, b: char) -> bool {
    a == b || (65 <= a as u32 <= 90 && b as u32 == a as u32 + 32)
}

/// Whether `s` spells the (lower-case) keyword `kw`, ignoring ASCII case in `s`.
pub open spec fn spells_keyword(s: Seq<char>, kw: Seq<char>) -> bool {
    s.len() == kw.len() && forall|i: int|
        0 <= i < s.len() ==> chars_eq_ignore_ascii_case(s[i], #[trigger] kw[i])
}

/// The level used when the environment variable is absent or unrecognized.
pub open spec fn default_level(debug_build: bool) -> LogLevel {
    if debug_build {
        LogLevel::Debug
    } else {
        LogLevel::Info
    }
}

/// The level selected for a given environment-variable value.
pub open spec fn resolved_level(var: Option<Seq<char>>, debug_build: bool) -> LogLevel {
    match var {
        Some(s) => {
            if spells_keyword(s, "trace"@) {
                LogLevel::Trace
            } else if spells_keyword(s, "debug"@) {
                LogLevel::Debug
            } else if spells_keyword(s, "warn"@) {
                LogLevel::Warn
            } else if spells_keyword(s, "error"@) {
                LogLevel::Error
            } else {
                default_level(debug_build)
            }
        },
        None => default_level(debug_build),
    }
}

fn char_eq_ignore_ascii_case(a: char, b: char) -> (r: bool)
    ensures
        r == chars_eq_ignore_ascii_case(a, b),
{
    a == b || (65 <= a as u32 && a as u32 <= 90 && b as u32 == a as u32 + 32)
}

/// Whether `s` spells the (lower-case) keyword `kw`, ignoring ASCII case in `s`.
pub fn str_spells_keyword(s: &str, kw: &str) -> (r: bool)
    ensures
        r == spells_keyword(s@, kw@),
{
    let n = s.unicode_len();
    let m = kw.unicode_len();
    if n != m {
        return false;
    }
    let mut i: usize = 0;
    while i < n
        invariant
            n == s@.len(),
            n == kw@.len(),
            0 <= i <= n,
            forall|j: int| 0 <= j < i ==> chars_eq_ignore_ascii_case(s@[j], #[trigger] kw@[j]),
        decreases n - i,
    {
        let a = s.get_char(i);
        let b = kw.get_char(i);
        if !char_eq_ignore_ascii_case(a, b) {
            return false;
        }
        i += 1;
    }
    true
}

/// Resolves the logging level from the environment variable's value (if any)
/// and the build mode, as `resolved_level` describes.
pub fn resolve_log_level(var: Option<&String>, debug_build: bool) -> (l: LogLevel)
    ensures
        l == resolved_level(
            match var {
                Some(s) => Some(s@),
                None => None,
            },
            debug_build,
        ),
{
    let fallback = if debug_build {
        LogLevel::Debug
    } else {
        LogLevel::Info
    };
    match var {
        Some(s) => {
            if str_spells_keyword(s.as_str(), "trace") {
                LogLevel::Trace
            } else if str_spells_keyword(s.as_str(), "debug") {
                LogLevel::Debug
            } else if str_spells_keyword(s.as_str(), "warn") {
                LogLevel::Warn
            } else if str_spells_keyword(s.as_str(), "error") {
                LogLevel::Error
            } else {
                fallback
            }
        },
        None => fallback,
    }
}

} // verus!
