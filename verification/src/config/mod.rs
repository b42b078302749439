//! The configuration record that the surrounding program hands to the
//! core, and the rules a record must meet before the core accepts it.

pub mod types;

pub use self::types::{
    clone_filter, default_auto_start, extract_local_config, listed, opt_filter, opt_names,
    AppConfig, EndpointConfig, EndpointKindConfig, HttpConfig, LocalServerConfig, LoggingConfig,
    McpConfig, ToolFilter, ToolFilterView,
};
use crate::error::{ErrorKind, ProxyError};
use crate::text::{contains_char, join3, names_of, str_eq};
use vstd::prelude::*;

verus! {

/// The routing paths of `endpoints`, in order.
pub open spec fn endpoint_paths(endpoints: Seq<EndpointConfig>) -> Seq<Seq<char>> {
    Seq::new(endpoints.len(), |i: int| endpoints[i].route())
}

/// The names of `endpoints`, in order.
pub open spec fn endpoint_names(endpoints: Seq<EndpointConfig>) -> Seq<Seq<char>> {
    Seq::new(endpoints.len(), |i: int| endpoints[i].name@)
}

/// `j` is the first position of `s` whose item already stands before it.
pub open spec fn is_first_repeat(s: Seq<Seq<char>>, j: int) -> bool {
    &&& 0 <= j < s.len()
    &&& s.take(j).contains(s[j])
    &&& s.take(j).no_duplicates()
}

/// The first position of `s` whose item already stands before it, where
/// `s` repeats an item.
pub open spec fn first_repeat(s: Seq<Seq<char>>) -> int {
    choose|j: int| is_first_repeat(s, j)
}

/// A routing path may not hold a slash, a backslash or a dot.
pub open spec fn has_reserved_char(path: Seq<char>) -> bool {
    path.contains('/') || path.contains('\\') || path.contains('.')
}

/// `j` is the first position of `paths` whose path holds a reserved character.
pub open spec fn is_first_reserved(paths: Seq<Seq<char>>, j: int) -> bool {
    &&& 0 <= j < paths.len()
    &&& has_reserved_char(paths[j])
    &&& forall|k: int| 0 <= k < j ==> !has_reserved_char(#[trigger] paths[k])
}

/// The first position of `paths` whose path holds a reserved character,
/// where there is one.
pub open spec fn first_reserved(paths: Seq<Seq<char>>) -> int {
    choose|j: int| is_first_reserved(paths, j)
}

/// The log levels that are known.
pub open spec fn is_log_level(level: Seq<char>) -> bool {
    level == "trace"@ || level == "debug"@ || level == "info"@ || level == "warn"@ || level
        == "error"@
}

/// The log formats that are known.
pub open spec fn is_log_format(format: Seq<char>) -> bool {
    format == "pretty"@ || format == "json"@
}

/// What is said of a path that two endpoints share.
pub open spec fn duplicate_path_message(path: Seq<char>) -> Seq<char> {
    "Duplicate server path '"@ + path + "' found in configuration"@
}

/// What is said of a name that two endpoints share.
pub open spec fn duplicate_name_message(name: Seq<char>) -> Seq<char> {
    "Duplicate server name '"@ + name + "' found in configuration"@
}

/// What is said of a path that holds a reserved character.
pub open spec fn reserved_char_message(path: Seq<char>) -> Seq<char> {
    "Server path '"@ + path + "' contains invalid characters (/, \\, or .)"@
}

/// What is said of a log level that is not known.
pub open spec fn log_level_message(level: Seq<char>) -> Seq<char> {
    "Invalid log level '"@ + level + "'. Valid levels: trace, debug, info, warn, error"@
}

/// What is said of a log format that is not known.
pub open spec fn log_format_message(format: Seq<char>) -> Seq<char> {
    "Invalid log format '"@ + format + "'. Valid formats: pretty, json"@
}

/// Why `config` is rejected, or `None` where it is accepted. The rules are
/// taken in this order, and the first one broken gives the reason: no two
/// endpoints share a path; no two share a name; no path holds a reserved
/// character; the log level is a known one; the log format is a known one.
pub open spec fn rejection(config: AppConfig) -> Option<Seq<char>> {
    let paths = endpoint_paths(config.endpoints@);
    let names = endpoint_names(config.endpoints@);
    if !paths.no_duplicates() {
        Some(duplicate_path_message(paths[first_repeat(paths)]))
    } else if !names.no_duplicates() {
        Some(duplicate_name_message(names[first_repeat(names)]))
    } else if exists|j: int| is_first_reserved(paths, j) {
        Some(reserved_char_message(paths[first_reserved(paths)]))
    } else if !is_log_level(config.logging.level@) {
        Some(log_level_message(config.logging.level@))
    } else if !is_log_format(config.logging.format@) {
        Some(log_format_message(config.logging.format@))
    } else {
        None
    }
}

/// A sequence has at most one first repeat.
pub proof fn lemma_first_repeat_unique(s: Seq<Seq<char>>, j: int, k: int)
    requires
        is_first_repeat(s, j),
        is_first_repeat(s, k),
    ensures
        j == k,
{
    if j < k {
        let i = choose|i: int| 0 <= i < s.take(j).len() && s.take(j)[i] == s[j];
        assert(s.take(k)[i] == s.take(k)[j]);
    } else if k < j {
        let i = choose|i: int| 0 <= i < s.take(k).len() && s.take(k)[i] == s[k];
        assert(s.take(j)[i] == s.take(j)[k]);
    }
}

/// A sequence with a first repeat is not free of duplicates.
pub proof fn lemma_first_repeat_is_duplicate(s: Seq<Seq<char>>, j: int)
    requires
        is_first_repeat(s, j),
    ensures
        !s.no_duplicates(),
        first_repeat(s) == j,
{
    let i = choose|i: int| 0 <= i < s.take(j).len() && s.take(j)[i] == s[j];
    assert(s[i] == s[j] && i != j);
    lemma_first_repeat_unique(s, j, first_repeat(s));
}

/// The first position of `list` whose string already stands before it.
fn find_repeat(list: &Vec<String>) -> (found: Option<usize>)
    ensures
        match found {
            Some(j) => is_first_repeat(names_of(list@), j as int),
            None => names_of(list@).no_duplicates(),
        },
{
    let ghost s = names_of(list@);
    let mut j: usize = 0;
    while j < list.len()
        invariant
            j <= list.len(),
            s == names_of(list@),
            s.take(j as int).no_duplicates(),
        decreases list.len() - j,
    {
        let mut i: usize = 0;
        while i < j
            invariant
                i <= j < list.len(),
                s == names_of(list@),
                s.take(j as int).no_duplicates(),
                forall|k: int| 0 <= k < i ==> s[k] != s[j as int],
            decreases j - i,
        {
            if str_eq(list[i].as_str(), list[j].as_str()) {
                assert(s.take(j as int)[i as int] == s[j as int]);
                return Some(j);
            }
            i += 1;
        }
        proof {
            let shorter = s.take(j as int);
            let longer = s.take(j as int + 1);
            assert forall|a: int, b: int|
                0 <= a < longer.len() && 0 <= b < longer.len() && a != b implies #[trigger] longer[a]
                != #[trigger] longer[b] by {
                if a < j && b < j {
                    assert(shorter[a] != shorter[b]);
                }
            }
        }
        j += 1;
    }
    assert(s.take(list.len() as int) =~= s);
    None
}

/// Whether `path` holds a slash, a backslash or a dot.
fn holds_reserved_char(path: &str) -> (found: bool)
    ensures
        found == has_reserved_char(path@),
{
    contains_char(path, '/') || contains_char(path, '\\') || contains_char(path, '.')
}

/// The first position of `paths` whose path holds a reserved character.
fn find_reserved(paths: &Vec<String>) -> (found: Option<usize>)
    ensures
        match found {
            Some(j) => is_first_reserved(names_of(paths@), j as int),
            None => forall|j: int| !is_first_reserved(names_of(paths@), j),
        },
{
    let mut j: usize = 0;
    while j < paths.len()
        invariant
            j <= paths.len(),
            forall|k: int| 0 <= k < j ==> !has_reserved_char(#[trigger] names_of(paths@)[k]),
        decreases paths.len() - j,
    {
        if holds_reserved_char(paths[j].as_str()) {
            return Some(j);
        }
        j += 1;
    }
    None
}

fn known_log_level(level: &str) -> (known: bool)
    ensures
        known == is_log_level(level@),
{
    str_eq(level, "trace") || str_eq(level, "debug") || str_eq(level, "info") || str_eq(
        level,
        "warn",
    ) || str_eq(level, "error")
}

fn known_log_format(format: &str) -> (known: bool)
    ensures
        known == is_log_format(format@),
{
    str_eq(format, "pretty") || str_eq(format, "json")
}

/// Checks a configuration record against the rules of [`rejection`], and
/// reports the first rule it breaks as a configuration error.
pub fn validate_config(config: &AppConfig) -> (r: Result<(), ProxyError>)
    ensures
        match r {
            Ok(()) => rejection(*config) is None,
            Err(e) => rejection(*config) matches Some(reason) && e.is_of(
                ErrorKind::Config,
                reason,
            ),
        },
{
    let ghost path_views = endpoint_paths(config.endpoints@);
    let ghost name_views = endpoint_names(config.endpoints@);
    let mut paths: Vec<String> = Vec::new();
    let mut names: Vec<String> = Vec::new();
    let mut i: usize = 0;
    while i < config.endpoints.len()
        invariant
            i <= config.endpoints.len(),
            paths.len() == i,
            names.len() == i,
            forall|k: int| 0 <= k < i ==> paths@[k]@ == config.endpoints@[k].route(),
            forall|k: int| 0 <= k < i ==> names@[k]@ == config.endpoints@[k].name@,
        decreases config.endpoints.len() - i,
    {
        paths.push(config.endpoints[i].get_path());
        names.push(config.endpoints[i].name.clone());
        i += 1;
    }
    assert(names_of(paths@) =~= path_views);
    assert(names_of(names@) =~= name_views);

    if let Some(j) = find_repeat(&paths) {
        proof {
            lemma_first_repeat_is_duplicate(path_views, j as int);
        }
        let message = join3("Duplicate server path '", paths[j].as_str(), "' found in configuration");
        return Err(ProxyError::Config(message));
    }
    if let Some(j) = find_repeat(&names) {
        proof {
            lemma_first_repeat_is_duplicate(name_views, j as int);
        }
        let message = join3("Duplicate server name '", names[j].as_str(), "' found in configuration");
        return Err(ProxyError::Config(message));
    }
    if let Some(j) = find_reserved(&paths) {
        proof {
            let c = first_reserved(path_views);
            assert(is_first_reserved(path_views, j as int));
            assert(is_first_reserved(path_views, c));
            assert(c == j);
        }
        let message = join3(
            "Server path '",
            paths[j].as_str(),
            "' contains invalid characters (/, \\, or .)",
        );
        return Err(ProxyError::Config(message));
    }
    if !known_log_level(config.logging.level.as_str()) {
        let message = join3(
            "Invalid log level '",
            config.logging.level.as_str(),
            "'. Valid levels: trace, debug, info, warn, error",
        );
        return Err(ProxyError::Config(message));
    }
    if !known_log_format(config.logging.format.as_str()) {
        let message = join3(
            "Invalid log format '",
            config.logging.format.as_str(),
            "'. Valid formats: pretty, json",
        );
        return Err(ProxyError::Config(message));
    }
    Ok(())
}

} // verus!
