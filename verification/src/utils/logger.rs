use vstd::prelude::*;
use vstd::string::*;

use crate::text::{matches_at, str_equal};

verus! {

/// Log sink that prints to the debug UART. Output happens at the C boundary.
pub struct UartLogger;

/// `s` without the leading `prefix`, or `s` itself when it does not start
/// with it.
pub open spec fn spec_strip_prefix(s: Seq<char>, prefix: Seq<char>) -> Seq<char> {
    if prefix.len() <= s.len() && s.subrange(0, prefix.len() as int) == prefix {
        s.subrange(prefix.len() as int, s.len() as int)
    } else {
        s
    }
}

/// `s` without the trailing `suffix`, or `s` itself when it does not end
/// with it.
pub open spec fn spec_strip_suffix(s: Seq<char>, suffix: Seq<char>) -> Seq<char> {
    if suffix.len() <= s.len() && s.subrange(s.len() - suffix.len(), s.len() as int) == suffix {
        s.subrange(0, s.len() - suffix.len())
    } else {
        s
    }
}

fn strip_prefix<'a>(s: &'a str, prefix: &str) -> (r: &'a str)
    ensures
        r@ == spec_strip_prefix(s@, prefix@),
{
    let n = s.unicode_len();
    let p = prefix.unicode_len();
    if p <= n && matches_at(s, 0, prefix) {
        s.substring_char(p, n)
    } else {
        s
    }
}

fn strip_suffix<'a>(s: &'a str, suffix: &str) -> (r: &'a str)
    ensures
        r@ == spec_strip_suffix(s@, suffix@),
{
    let n = s.unicode_len();
    let p = suffix.unicode_len();
    if p <= n && matches_at(s, n - p, suffix) {
        s.substring_char(0, n - p)
    } else {
        s
    }
}

/// Module path as the log shows it: the crate root as `core`, other paths
/// relative to the crate, without a trailing `::mod`.
pub open spec fn spec_format_module_path(path: Option<Seq<char>>) -> Seq<char> {
    match path {
        None => "?"@,
        Some(m) => if m == "void_pointer_core"@ {
            "core"@
        } else {
            spec_strip_suffix(spec_strip_prefix(m, "void_pointer_core::"@), "::mod"@)
        },
    }
}

pub fn format_module_path(path: Option<&str>) -> (r: &str)
    ensures
        r@ == spec_format_module_path(
            match path {
                Some(m) => Some(m@),
                None => None,
            },
        ),
{
    let path = match path {
        Some(m) => m,
        None => {
            return "?";
        },
    };
    if str_equal(path, "void_pointer_core") {
        return "core";
    }
    let shortened = strip_prefix(path, "void_pointer_core::");
    strip_suffix(shortened, "::mod")
}

} // verus!
