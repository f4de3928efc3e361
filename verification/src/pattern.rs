//! Compiled glob patterns.
//!
//! Patterns are compiled and matched by the `glob` crate. This module is the
//! only place that calls it; everything here is assumed, not proved. A
//! compiled pattern is opaque to the verifier, which knows it only through
//! two facts: the expression it was compiled from, and that whether it
//! matches a path is a fixed function of that expression and the path.
//! `glob` reads path separators as the build target defines them, so the
//! functions named here are those of one build target.

use vstd::prelude::*;
use glob::Pattern;
use glob::PatternError;

verus! {

/// `glob::Pattern`, a compiled glob expression. Nothing inside it is
/// visible here.
#[verifier::external_type_specification]
#[verifier::external_body]
pub struct ExPattern(Pattern);

/// `glob::PatternError`, the reason why an expression did not compile.
/// Nothing inside it is visible here.
#[verifier::external_type_specification]
#[verifier::external_body]
pub struct ExPatternError(PatternError);

/// The glob expression that `pattern` was compiled from, as
/// `glob::Pattern::as_str` gives it back.
pub uninterp spec fn pattern_text(pattern: Pattern) -> Seq<char>;

/// Whether `glob::Pattern::new` accepts the expression `text`.
pub uninterp spec fn glob_accepts(text: Seq<char>) -> bool;

/// Whether the pattern compiled from the expression `text` matches `path`
/// under `glob::Pattern::matches_path`, with the path separators of the
/// build target.
pub uninterp spec fn glob_matches(text: Seq<char>, path: Seq<char>) -> bool;

/// Calls `glob::Pattern::new`.
///
/// Assumed: whether the expression compiles depends on the expression alone,
/// and the compiled pattern remembers the expression unchanged.
#[verifier::external_body]
pub(crate) fn compile(text: &str) -> (r: Result<Pattern, PatternError>)
    ensures
        r is Ok <==> glob_accepts(text@),
        r matches Ok(p) ==> pattern_text(p) == text@,
{
    Pattern::new(text)
}

/// Calls `glob::Pattern::matches_path` on a path given as text.
///
/// Assumed: the answer depends only on the expression the pattern was
/// compiled from and on the path.
#[verifier::external_body]
pub(crate) fn matches_path(pattern: &Pattern, path: &str) -> (r: bool)
    ensures
        r == glob_matches(pattern_text(*pattern), path@),
{
    pattern.matches_path(std::path::Path::new(path))
}

/// `Clone` as `glob` derives it for `Pattern`.
///
/// Assumed: the copy was compiled from the same expression.
pub assume_specification[ <Pattern as Clone>::clone ](pattern: &Pattern) -> (r: Pattern)
    ensures
        pattern_text(r) == pattern_text(*pattern),
;

} // verus!
