//! Which changed paths are worth reacting to.
//!
//! A path is relevant when at least one include pattern matches it and no
//! exclude pattern does.

use vstd::prelude::*;
use glob::Pattern;
use crate::pattern::glob_matches;
use crate::pattern::matches_path;
use crate::pattern::pattern_text;

verus! {

/// The expressions that a sequence of compiled patterns was made from.
pub open spec fn texts(patterns: Seq<Pattern>) -> Seq<Seq<char>> {
    patterns.map_values(|p: Pattern| pattern_text(p))
}

/// At least one of the glob expressions matches `path`.
pub open spec fn matches_any(path: Seq<char>, globs: Seq<Seq<char>>) -> bool {
    exists|i: int| 0 <= i < globs.len() && glob_matches(#[trigger] globs[i], path)
}

/// `path` is matched by an include expression and by no exclude expression.
pub open spec fn relevant(
    path: Seq<char>,
    includes: Seq<Seq<char>>,
    excludes: Seq<Seq<char>>,
) -> bool {
    matches_any(path, includes) && !matches_any(path, excludes)
}

/// Whether any of `patterns` matches `path`.
pub fn any_match(path: &str, patterns: &[Pattern]) -> (r: bool)
    ensures
        r == matches_any(path@, texts(patterns@)),
{
    let ghost globs = texts(patterns@);
    let mut i: usize = 0;
    while i < patterns.len()
        invariant
            i <= patterns@.len(),
            globs == texts(patterns@),
            forall|j: int| 0 <= j < i ==> !glob_matches(#[trigger] globs[j], path@),
        decreases patterns@.len() - i,
    {
        if matches_path(&patterns[i], path) {
            assert(glob_matches(globs[i as int], path@));
            return true;
        }
        i = i + 1;
    }
    false
}

/// Whether a change to `path` is relevant: some pattern in `includes`
/// matches it and none in `excludes` does.
pub fn is_relevant(path: &str, includes: &[Pattern], excludes: &[Pattern]) -> (r: bool)
    ensures
        r == relevant(path@, texts(includes@), texts(excludes@)),
{
    any_match(path, includes) && !any_match(path, excludes)
}

/// A path that at least one include expression matches and no exclude
/// expression matches is relevant.
pub proof fn lemma_included_and_not_excluded(
    path: Seq<char>,
    includes: Seq<Seq<char>>,
    excludes: Seq<Seq<char>>,
)
    requires
        exists|i: int| 0 <= i < includes.len() && glob_matches(#[trigger] includes[i], path),
        forall|j: int| 0 <= j < excludes.len() ==> !glob_matches(#[trigger] excludes[j], path),
    ensures
        relevant(path, includes, excludes),
{
}

/// A path that at least one exclude expression matches is not relevant,
/// whatever the include expressions are.
pub proof fn lemma_excluded_is_irrelevant(
    path: Seq<char>,
    includes: Seq<Seq<char>>,
    excludes: Seq<Seq<char>>,
)
    requires
        exists|j: int| 0 <= j < excludes.len() && glob_matches(#[trigger] excludes[j], path),
    ensures
        !relevant(path, includes, excludes),
{
}

} // verus!
