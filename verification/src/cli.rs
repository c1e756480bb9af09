//! Decisions of the command-line tool that prepares a Tauri project for fuzzing.

use vstd::prelude::*;
use crate::text::{chars_of, push_char, same_text};

pub mod fuzz;
pub mod init;

verus! {

/// Name of the JSON Tauri configuration file
pub const TAURI_JSON: &'static str = "tauri.conf.json";
/// Name of the JSON5 Tauri configuration file
pub const TAURI_JSON5: &'static str = "tauri.conf.json5";
/// Name of the TOML Tauri configuration file
pub const TAURI_TOML: &'static str = "Tauri.toml";

/// Logging levels, from the most to the least severe.
#[derive(Debug, Clone, Copy, PartialEq, Eq, Structural)]
pub enum LogLevel {
    Error,
    Warn,
    Info,
    Debug,
    Trace,
}

/// This maps the occurrence of `--verbose` flags to the correct log level
pub fn verbosity_level(num: u8) -> (level: LogLevel)
    ensures
        num == 0 ==> level == LogLevel::Info,
        num == 1 ==> level == LogLevel::Debug,
        num >= 2 ==> level == LogLevel::Trace,
{
    match num {
        0 => LogLevel::Info,
        1 => LogLevel::Debug,
        _ => LogLevel::Trace,
    }
}

/// The printed name of a level.
pub open spec fn level_name(lvl: LogLevel) -> Seq<char> {
    match lvl {
        LogLevel::Error => "Error"@,
        LogLevel::Warn => "Warn"@,
        LogLevel::Info => "Info"@,
        LogLevel::Debug => "Debug"@,
        LogLevel::Trace => "Trace"@,
    }
}

/// The default string representation for a level is all uppercaps which doesn't mix well with
/// the other printed actions.
pub fn prettyprint_level(lvl: LogLevel) -> (name: &'static str)
    ensures
        name@ == level_name(lvl),
{
    match lvl {
        LogLevel::Error => "Error",
        LogLevel::Warn => "Warn",
        LogLevel::Info => "Info",
        LogLevel::Debug => "Debug",
        LogLevel::Trace => "Trace",
    }
}

/// The name of a Tauri configuration file.
pub open spec fn is_config_name(name: Seq<char>) -> bool {
    name == TAURI_JSON@ || name == TAURI_JSON5@ || name == TAURI_TOML@
}

/// Whether a path whose file name is `file_name` is a Tauri configuration file
pub fn is_tauri_config_file(file_name: Option<&str>) -> (r: bool)
    ensures
        r == (file_name matches Some(n) && is_config_name(n@)),
{
    match file_name {
        None => false,
        Some(n) => same_text(n, TAURI_JSON) || same_text(n, TAURI_JSON5) || same_text(n, TAURI_TOML),
    }
}

/// Whether a folder whose entries are named `entries` holds a Tauri configuration file
pub fn folder_has_tauri_config(entries: &Vec<String>) -> (r: bool)
    ensures
        r == exists|i: int| 0 <= i < entries@.len() && is_config_name(#[trigger] entries.deep_view()[i]),
{
    let mut i: usize = 0;
    while i < entries.len()
        invariant
            i <= entries@.len(),
            forall|j: int| 0 <= j < i ==> !is_config_name(#[trigger] entries.deep_view()[j]),
        decreases entries@.len() - i,
    {
        if is_tauri_config_file(Some(entries[i].as_str())) {
            assert(entries.deep_view()[i as int] == entries@[i as int]@);
            return true;
        }
        i = i + 1;
    }
    false
}

/// How deep the project's folders are walked when no configuration is found at once, when the
/// environment does not say otherwise.
pub const DEFAULT_LOOKUP_DEPTH: usize = 3;

/// The environment gives a lookup depth that is not a positive integer.
#[derive(Debug, Clone, Copy, PartialEq, Eq, Structural)]
pub struct InvalidLookupDepth;

/// The value of the decimal digits `s`.
pub open spec fn digits_value(s: Seq<char>) -> int
    decreases s.len(),
{
    if s.len() == 0 {
        0
    } else {
        digits_value(s.drop_last()) * 10 + (s.last() as int - '0' as int)
    }
}

/// Every character of `s` is a decimal digit.
pub open spec fn all_digits(s: Seq<char>) -> bool {
    forall|i: int| 0 <= i < s.len() ==> '0' <= #[trigger] s[i] <= '9'
}

/// The `usize` written in `s`, as `str::parse` reads it: an optional `+`, then one or more
/// decimal digits, whose value fits in a `usize`.
pub open spec fn usize_of_text(s: Seq<char>) -> Option<usize> {
    let digits = if s.len() > 0 && s[0] == '+' { s.drop_first() } else { s };
    if digits.len() > 0 && all_digits(digits) && digits_value(digits) <= usize::MAX {
        Some(digits_value(digits) as usize)
    } else {
        None
    }
}

proof fn lemma_digits_value_step(s: Seq<char>, m: int)
    requires
        0 <= m < s.len(),
    ensures
        digits_value(s.take(m + 1)) == digits_value(s.take(m)) * 10 + (s[m] as int - '0' as int),
{
    assert(s.take(m + 1).drop_last() =~= s.take(m));
}

proof fn lemma_digits_value_nonnegative(s: Seq<char>, j: int)
    requires
        all_digits(s),
        0 <= j <= s.len(),
    ensures
        0 <= digits_value(s.take(j)),
    decreases j,
{
    if j == 0 {
        assert(s.take(0) =~= Seq::<char>::empty());
    } else {
        lemma_digits_value_nonnegative(s, j - 1);
        lemma_digits_value_step(s, j - 1);
    }
}

proof fn lemma_digits_value_grows(s: Seq<char>, i: int, j: int)
    requires
        all_digits(s),
        0 <= i <= j <= s.len(),
    ensures
        digits_value(s.take(i)) <= digits_value(s.take(j)),
    decreases j,
{
    if i < j {
        lemma_digits_value_grows(s, i, j - 1);
        lemma_digits_value_nonnegative(s, j - 1);
        lemma_digits_value_step(s, j - 1);
    }
}

/// How deep the project's folders are walked, from the value of the environment variable
/// `TAURI_FUZZER_CONFIG_LOOKUP_DEPTH` (none when it is not set): the default depth when there
/// is no value, else the value read as a `usize`.
pub fn lookup_depth(value: Option<&str>) -> (r: Result<usize, InvalidLookupDepth>)
    ensures
        value is None ==> r == Ok::<usize, InvalidLookupDepth>(DEFAULT_LOOKUP_DEPTH),
        value matches Some(v) ==> match usize_of_text(v@) {
            Some(n) => r == Ok::<usize, InvalidLookupDepth>(n),
            None => r is Err,
        },
{
    let text: &str = match value {
        None => return Ok(DEFAULT_LOOKUP_DEPTH),
        Some(v) => v,
    };
    let chars: Vec<char> = chars_of(text);
    let n: usize = chars.len();
    let start: usize = if n > 0 && chars[0] == '+' { 1 } else { 0 };
    let ghost digits = if text@.len() > 0 && text@[0] == '+' { text@.drop_first() } else { text@ };
    assert(digits =~= text@.subrange(start as int, n as int));
    if start >= n {
        return Err(InvalidLookupDepth);
    }
    let mut v: usize = 0;
    let mut i: usize = start;
    while i < n
        invariant
            value == Some(text),
            digits == (if text@.len() > 0 && text@[0] == '+' { text@.drop_first() } else { text@ }),
            chars@ == text@,
            n == chars@.len(),
            start <= i <= n,
            digits == text@.subrange(start as int, n as int),
            forall|j: int| 0 <= j < i - start ==> '0' <= #[trigger] digits[j] <= '9',
            v == digits_value(digits.take(i - start)),
        decreases n - i,
    {
        let c: char = chars[i];
        if c < '0' || c > '9' {
            assert(digits[i - start] == c);
            return Err(InvalidLookupDepth);
        }
        let d: usize = (c as u32 - '0' as u32) as usize;
        proof {
            lemma_digits_value_step(digits, i - start);
        }
        let next: Option<usize> = match v.checked_mul(10) {
            Some(t) => t.checked_add(d),
            None => None,
        };
        match next {
            Some(w) => {
                v = w;
            },
            None => {
                proof {
                    if all_digits(digits) {
                        lemma_digits_value_grows(digits, i - start + 1, digits.len() as int);
                        assert(digits.take(digits.len() as int) =~= digits);
                    }
                }
                return Err(InvalidLookupDepth);
            },
        }
        i = i + 1;
    }
    assert(digits.take(digits.len() as int) =~= digits);
    Ok(v)
}

/// An entry met while walking the project's folders.
#[derive(Debug, Clone)]
pub struct WalkedEntry {
    /// The entry is a directory
    pub is_dir: bool,
    /// The entry is a directory that holds a Tauri configuration file
    pub has_tauri_config: bool,
    /// The entry's file name, if it has one
    pub file_name: Option<String>,
}

/// Where the Tauri project directory is.
#[derive(Debug, Clone, Copy, PartialEq, Eq, Structural)]
pub enum TauriDir {
    /// The current directory
    Current,
    /// Its `src-tauri` subdirectory
    SrcTauri,
    /// The walked directory at this index
    Walked(usize),
    /// The parent of the walked configuration file at this index
    ParentOfWalked(usize),
    /// Nowhere
    NotFound,
}

/// The walked entry is where the search stops.
pub open spec fn stops_at(e: WalkedEntry) -> bool {
    (e.is_dir && e.has_tauri_config) || (e.file_name matches Some(n) && is_config_name(n@))
}

/// The Tauri project directory: the current directory or its `src-tauri` subdirectory when they
/// hold a configuration file; otherwise, among the entries walked in order, the first directory
/// that holds a configuration file or the parent of the first configuration file.
pub fn locate_tauri_dir(cwd_has_config: bool, src_tauri_has_config: bool, walked: &Vec<WalkedEntry>) -> (r: TauriDir)
    ensures
        cwd_has_config ==> r == TauriDir::Current,
        !cwd_has_config && src_tauri_has_config ==> r == TauriDir::SrcTauri,
        !cwd_has_config && !src_tauri_has_config ==> match r {
            TauriDir::Walked(i) => i < walked@.len() && walked@[i as int].is_dir && walked@[i as int].has_tauri_config
                && forall|j: int| 0 <= j < i ==> !stops_at(#[trigger] walked@[j]),
            TauriDir::ParentOfWalked(i) => i < walked@.len() && stops_at(walked@[i as int])
                && !(walked@[i as int].is_dir && walked@[i as int].has_tauri_config)
                && forall|j: int| 0 <= j < i ==> !stops_at(#[trigger] walked@[j]),
            TauriDir::NotFound => forall|j: int| 0 <= j < walked@.len() ==> !stops_at(#[trigger] walked@[j]),
            _ => false,
        },
{
    if cwd_has_config {
        return TauriDir::Current;
    }
    if src_tauri_has_config {
        return TauriDir::SrcTauri;
    }
    let mut i: usize = 0;
    while i < walked.len()
        invariant
            !cwd_has_config,
            !src_tauri_has_config,
            i <= walked@.len(),
            forall|j: int| 0 <= j < i ==> !stops_at(#[trigger] walked@[j]),
        decreases walked@.len() - i,
    {
        let e: &WalkedEntry = &walked[i];
        if e.is_dir && e.has_tauri_config {
            return TauriDir::Walked(i);
        }
        let name: Option<&str> = match &e.file_name {
            Some(n) => Some(n.as_str()),
            None => None,
        };
        if is_tauri_config_file(name) {
            return TauriDir::ParentOfWalked(i);
        }
        i = i + 1;
    }
    TauriDir::NotFound
}

/// `name` with every `-` replaced by `_`.
pub open spec fn underscored(name: Seq<char>) -> Seq<char> {
    name.map_values(|c: char| if c == '-' { '_' } else { c })
}

/// The crate name as a Rust identifier: every `-` replaced by `_`
pub fn underscored_crate_name(name: &str) -> (r: String)
    ensures
        r@ == underscored(name@),
{
    let chars: Vec<char> = crate::text::chars_of(name);
    let mut r: String = String::new();
    let mut i: usize = 0;
    while i < chars.len()
        invariant
            chars@ == name@,
            i <= chars@.len(),
            r@ == underscored(name@.subrange(0, i as int)),
        decreases chars@.len() - i,
    {
        let c: char = chars[i];
        push_char(&mut r, if c == '-' { '_' } else { c });
        assert(underscored(name@.subrange(0, i + 1)) =~= underscored(name@.subrange(0, i as int)).push(
            if c == '-' { '_' } else { c }));
        i = i + 1;
    }
    assert(name@.subrange(0, i as int) =~= name@);
    r
}

} // verus!
