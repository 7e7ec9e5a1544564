//! Calls into outside crates, each behind a small trusted item.
use vstd::prelude::*;

use crate::text::{
    date_shaped, has_char, no_double_star, trim_end_spec, trim_start_spec, unclosed_class,
};

verus! {

#[verifier::external_type_specification]
#[verifier::external_body]
pub struct ExPattern(glob::Pattern);

#[verifier::external_type_specification]
#[verifier::external_body]
pub struct ExPatternError(glob::PatternError);

/// The text that `humansize::format_size` gives for a byte count in decimal units.
pub uninterp spec fn decimal_size(n: u64) -> Seq<char>;

/// Whether `glob::Pattern::new` accepts the pattern text.
pub uninterp spec fn glob_compiles(pattern: Seq<char>) -> bool;

/// Whether the pattern compiled from the first text matches the second text.
pub uninterp spec fn glob_match(pattern: Seq<char>, name: Seq<char>) -> bool;

/// The latest Unix time (9999-12-30 00:00 UTC) whose local date, in any time zone,
/// still has a four-digit year.
pub const MAX_DATED_SECS: i64 = 253402128000;

/// A glob pattern compiled once, with the text it was compiled from. Only
/// `compile_glob` builds one, so the two always belong together.
pub struct Glob {
    pattern: glob::Pattern,
    source: String,
}

impl Glob {
    /// The text the pattern was compiled from.
    pub closed spec fn text(&self) -> Seq<char> {
        self.source@
    }
}

/// Relies on `humansize::format_size` with `DECIMAL` options: the text depends on the
/// count alone.
#[verifier::external_body]
pub(crate) fn format_decimal(n: u64) -> (r: String)
    ensures
        r@ == decimal_size(n),
{
    humansize::format_size(n, humansize::DECIMAL)
}

/// Relies on `glob::Pattern::new`: it either compiles the text or reports a syntax error,
/// depending on the text alone. Its only errors come from a run of two or more `*` or
/// from a `[`, so a text with neither compiles; and the first `[` with no `]` two or more
/// places after it is always an error.
#[verifier::external_body]
pub(crate) fn compile_glob(text: &str) -> (r: Result<Glob, glob::PatternError>)
    ensures
        r is Ok <==> glob_compiles(text@),
        r is Ok || has_char(text@, '[') || !no_double_star(text@),
        r is Err || !unclosed_class(text@),
        r matches Ok(g) ==> g.text() == text@,
{
    match glob::Pattern::new(text) {
        Ok(pattern) => Ok(Glob { pattern, source: text.to_string() }),
        Err(e) => Err(e),
    }
}

/// Relies on `glob::Pattern::matches` with default options: the answer depends on the
/// pattern's text and the name alone.
#[verifier::external_body]
pub(crate) fn glob_matches(g: &Glob, name: &str) -> (r: bool)
    ensures
        r == glob_match(g.text(), name@),
{
    g.pattern.matches(name)
}

/// Relies on the `Display` impl of `glob::PatternError` for a readable message.
#[verifier::external_body]
pub(crate) fn pattern_error_text(e: &glob::PatternError) -> (r: String) {
    e.to_string()
}

/// Relies on `chrono::DateTime::from_timestamp`, shifted to the machine's local time zone
/// and written as `%Y-%m-%d`. The date depends on the time zone; what holds in every zone
/// is that a time from the epoch up to `MAX_DATED_SECS` is accepted and written with a
/// four-digit year (local offsets are under a day), so as `YYYY-MM-DD`.
#[verifier::external_body]
pub(crate) fn local_date(secs: i64) -> (r: Option<String>)
    ensures
        r is Some || !(0 <= secs <= MAX_DATED_SECS),
        r matches Some(d) ==> (0 <= secs <= MAX_DATED_SECS ==> date_shaped(d@)),
{
    match chrono::DateTime::from_timestamp(secs, 0) {
        Some(t) => Some(t.with_timezone(&chrono::Local).format("%Y-%m-%d").to_string()),
        None => None,
    }
}

/// Relies on `str::trim`: the result is the text with leading and trailing characters of
/// Unicode's White_Space property removed.
#[verifier::external_body]
pub(crate) fn trim_text(s: &str) -> (r: &str)
    ensures
        r@ == trim_end_spec(trim_start_spec(s@)),
{
    s.trim()
}

} // verus!
