//! Finding walked entries whose base name matches a pattern.
use vstd::prelude::*;
use vstd::string::StringExecFns;

use crate::entry::Entry;
use crate::error::PanError;
use crate::outside::{
    compile_glob, glob_compiles, glob_match, glob_matches, pattern_error_text, trim_text,
    Glob,
};
use crate::text::{
    contains_char_from, ends_with_spec, ends_with_text, has_char, no_double_star, same_text,
    trim_end_spec, unclosed_class,
    trim_start_spec,
};

verus! {

/// The answer of a search: the matching paths, their number, and the time spent.
pub struct QuickFindRespond {
    pub vec: Vec<String>,
    pub count: usize,
    pub spent_millis: u128,
}

/// How names are tested against a pattern, chosen once per search.
pub enum MatchStrategy {
    /// The name ends with this text (a pattern `*.ext`, kept as `.ext`).
    Suffix(String),
    /// The name matches this compiled glob.
    Glob(Glob),
    /// The name equals this text.
    Exact(String),
}

/// Whether `p` holds a glob wildcard: `*`, `?` or `[`.
pub open spec fn has_wildcard(p: Seq<char>) -> bool {
    has_char(p, '*') || has_char(p, '?') || has_char(p, '[')
}

/// Whether `p` is `*.` followed by text without wildcards.
pub open spec fn is_suffix_pattern(p: Seq<char>) -> bool {
    p.len() >= 2 && p[0] == '*' && p[1] == '.' && !has_wildcard(p.subrange(2, p.len() as int))
}

/// Whether a name matches the pattern `p` under the strategy that `p` selects.
pub open spec fn pattern_matches(p: Seq<char>, name: Seq<char>) -> bool {
    if is_suffix_pattern(p) {
        ends_with_spec(name, p.subrange(1, p.len() as int))
    } else if has_wildcard(p) {
        glob_match(p, name)
    } else {
        name == p
    }
}

/// The error of a pattern that does not compile: a `CommonErr` whose message starts
/// with `invalid glob pattern: `.
pub open spec fn pattern_error(e: PanError) -> bool {
    e matches PanError::CommonErr(m) && m@.len() >= 22 && m@.subrange(0, 22)
        == "invalid glob pattern: "@
}

/// Whether the pattern `p` fails to compile: it selects the glob strategy and the glob
/// compiler refuses it.
pub open spec fn bad_pattern(p: Seq<char>) -> bool {
    !is_suffix_pattern(p) && has_wildcard(p) && !glob_compiles(p)
}

/// The paths of the first `n` entries whose names match `p`, in walk order.
pub open spec fn found_upto(es: Seq<Entry>, p: Seq<char>, n: int) -> Seq<String>
    decreases n,
{
    if n <= 0 {
        Seq::empty()
    } else {
        let before = found_upto(es, p, n - 1);
        if pattern_matches(p, es[n - 1].name@) {
            before.push(es[n - 1].path)
        } else {
            before
        }
    }
}

impl MatchStrategy {
    /// Whether a name passes under this strategy.
    pub open spec fn matches_spec(&self, name: Seq<char>) -> bool {
        match self {
            MatchStrategy::Suffix(s) => ends_with_spec(name, s@),
            MatchStrategy::Glob(g) => glob_match(g.text(), name),
            MatchStrategy::Exact(s) => name == s@,
        }
    }

    /// Whether this strategy is the one that `p` selects, ready to test names.
    pub open spec fn selected_for(&self, p: Seq<char>) -> bool {
        match self {
            MatchStrategy::Suffix(s) => is_suffix_pattern(p) && s@ == p.subrange(1, p.len() as int),
            MatchStrategy::Glob(g) => !is_suffix_pattern(p) && has_wildcard(p) && g.text() == p,
            MatchStrategy::Exact(s) => !is_suffix_pattern(p) && !has_wildcard(p) && s@ == p,
        }
    }

    /// Tests a name under this strategy.
    pub fn matches(&self, name: &str) -> (r: bool)
        ensures
            r == self.matches_spec(name@),
    {
        match self {
            MatchStrategy::Suffix(s) => ends_with_text(name, s.as_str()),
            MatchStrategy::Glob(g) => glob_matches(g, name),
            MatchStrategy::Exact(s) => same_text(name, s.as_str()),
        }
    }
}

/// Whether `p` holds a glob wildcard at or after position `from`.
fn wildcard_from(p: &str, from: usize) -> (r: bool)
    requires
        from <= p@.len(),
    ensures
        r == has_wildcard(p@.subrange(from as int, p@.len() as int)),
{
    contains_char_from(p, '*', from) || contains_char_from(p, '?', from) || contains_char_from(
        p,
        '[',
        from,
    )
}

/// Chooses how names are tested against `pattern`: by suffix for `*.ext` without further
/// wildcards, by a glob compiled once where a wildcard occurs, else by equality. A glob
/// that does not compile is an error.
pub fn select_strategy(pattern: &str) -> (r: Result<MatchStrategy, PanError>)
    ensures
        r is Err <==> bad_pattern(pattern@),
        r matches Ok(m) ==> m.selected_for(pattern@),
        !has_char(pattern@, '[') && no_double_star(pattern@) ==> r is Ok,
        r matches Err(e) ==> pattern_error(e),
        unclosed_class(pattern@) ==> r is Err,
{
    proof {
        if unclosed_class(pattern@) {
            let i = choose|i: int|
                0 <= i < pattern@.len() && pattern@[i] == '[' && (forall|j: int|
                    0 <= j < i ==> pattern@[j] != '[') && (forall|j: int|
                    i + 2 <= j < pattern@.len() ==> pattern@[j] != ']');
            assert(has_char(pattern@, '['));
            if pattern@.len() >= 2 && pattern@[0] == '*' && pattern@[1] == '.' {
                assert(pattern@.subrange(2, pattern@.len() as int)[i - 2] == '[');
                assert(has_wildcard(pattern@.subrange(2, pattern@.len() as int)));
            }
        }
    }
    let n = pattern.unicode_len();
    proof {
        assert(pattern@ =~= pattern@.subrange(0, n as int));
    }
    if n >= 2 && pattern.get_char(0) == '*' && pattern.get_char(1) == '.' && !wildcard_from(
        pattern,
        2,
    ) {
        let s = pattern.substring_char(1, n);
        return Ok(MatchStrategy::Suffix(String::from_str(s)));
    }
    if wildcard_from(pattern, 0) {
        match compile_glob(pattern) {
            Ok(g) => Ok(MatchStrategy::Glob(g)),
            Err(e) => {
                let mut m = String::from_str("invalid glob pattern: ");
                let detail = pattern_error_text(&e);
                m.append(detail.as_str());
                proof {
                    reveal_strlit("invalid glob pattern: ");
                    assert(m@.subrange(0, 22) =~= "invalid glob pattern: "@);
                }
                Err(PanError::CommonErr(m))
            },
        }
    } else {
        Ok(MatchStrategy::Exact(String::from_str(pattern)))
    }
}

/// Lists the walked entries whose base names match `pattern`, taken as it stands, in
/// walk order; fails only when the pattern selects a glob that does not compile.
pub fn search_entries(entries: &Vec<Entry>, pattern: &str, spent_millis: u128) -> (r: Result<
    QuickFindRespond,
    PanError,
>)
    ensures
        r is Err <==> bad_pattern(pattern@),
        r matches Err(e) ==> pattern_error(e),
        !has_char(pattern@, '[') && no_double_star(pattern@) ==> r is Ok,
        unclosed_class(pattern@) ==> r is Err,
        r matches Ok(resp) ==> {
            &&& resp.vec@ == found_upto(entries@, pattern@, entries@.len() as int)
            &&& resp.count == resp.vec@.len()
            &&& resp.spent_millis == spent_millis
        },
{
    let strategy = match select_strategy(pattern) {
        Ok(m) => m,
        Err(e) => {
            return Err(e);
        },
    };
    let mut found: Vec<String> = Vec::new();
    let mut i: usize = 0;
    while i < entries.len()
        invariant
            i <= entries@.len(),
            strategy.selected_for(pattern@),
            found@ == found_upto(entries@, pattern@, i as int),
        decreases entries@.len() - i,
    {
        if strategy.matches(entries[i].name.as_str()) {
            found.push(entries[i].path.clone());
        }
        i = i + 1;
    }
    let count = found.len();
    Ok(QuickFindRespond { vec: found, count, spent_millis })
}

/// Lists the walked entries whose base names match `pattern` with surrounding whitespace
/// removed, in walk order; fails only when that pattern selects a glob that does not
/// compile.
pub fn search(entries: &Vec<Entry>, pattern: &str, spent_millis: u128) -> (r: Result<
    QuickFindRespond,
    PanError,
>)
    ensures
        r is Err <==> bad_pattern(trim_end_spec(trim_start_spec(pattern@))),
        r matches Err(e) ==> pattern_error(e),
        !has_char(trim_end_spec(trim_start_spec(pattern@)), '[') && no_double_star(
            trim_end_spec(trim_start_spec(pattern@)),
        ) ==> r is Ok,
        unclosed_class(trim_end_spec(trim_start_spec(pattern@))) ==> r is Err,
        r matches Ok(resp) ==> {
            &&& resp.vec@ == found_upto(entries@, trim_end_spec(trim_start_spec(pattern@)), entries@.len() as int)
            &&& resp.count == resp.vec@.len()
            &&& resp.spent_millis == spent_millis
        },
{
    search_entries(entries, trim_text(pattern), spent_millis)
}

/// Whether no two of the entries share a path.
pub open spec fn distinct_paths(es: Seq<Entry>) -> bool {
    forall|i: int, j: int| 0 <= i < j < es.len() ==> es[i].path@ != es[j].path@
}

/// A search reports a path exactly when some walked entry has that path and a name that
/// matches the pattern; and where the walk gives each path once, so does the search.
pub proof fn lemma_search_exact(es: Seq<Entry>, p: Seq<char>, n: int)
    requires
        0 <= n <= es.len(),
    ensures
        forall|x: String|
            found_upto(es, p, n).contains(x) <==> exists|i: int|
                0 <= i < n && es[i].path == x && pattern_matches(p, es[i].name@),
        distinct_paths(es) ==> forall|a: int, b: int|
            0 <= a < b < found_upto(es, p, n).len() ==> found_upto(es, p, n)[a]@
                != found_upto(es, p, n)[b]@,
    decreases n,
{
    if n > 0 {
        lemma_search_exact(es, p, n - 1);
        let before = found_upto(es, p, n - 1);
        let f = found_upto(es, p, n);
        assert forall|x: String|
            f.contains(x) <==> exists|i: int|
                0 <= i < n && es[i].path == x && pattern_matches(p, es[i].name@) by {
            if f.contains(x) {
                let w = choose|w: int| 0 <= w < f.len() && f[w] == x;
                if w < before.len() {
                    assert(before[w] == x);
                    assert(before.contains(x));
                    let i = choose|i: int|
                        0 <= i < n - 1 && es[i].path == x && pattern_matches(p, es[i].name@);
                    assert(0 <= i < n);
                }
            }
            if exists|i: int| 0 <= i < n && es[i].path == x && pattern_matches(p, es[i].name@) {
                let i = choose|i: int|
                    0 <= i < n && es[i].path == x && pattern_matches(p, es[i].name@);
                if i < n - 1 {
                    assert(before.contains(x));
                    let w = choose|w: int| 0 <= w < before.len() && before[w] == x;
                    assert(f[w] == x);
                } else {
                    assert(f[f.len() - 1] == x);
                }
            }
        }
        if distinct_paths(es) && pattern_matches(p, es[n - 1].name@) {
            assert forall|a: int, b: int| 0 <= a < b < f.len() implies f[a]@ != f[b]@ by {
                if b == f.len() - 1 {
                    assert(before.contains(f[a]));
                    let i = choose|i: int|
                        0 <= i < n - 1 && es[i].path == f[a] && pattern_matches(p, es[i].name@);
                    assert(es[i].path@ != es[n - 1].path@);
                }
            }
        }
    }
}

} // verus!
