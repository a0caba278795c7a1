//! The ignore filter: a set of regular expressions over bare file names.
//!
//! The expressions are compiled and matched by the `regex` crate. What that
//! crate does is taken on trust here and named, not restated: see
//! [`regex_set_language`] and [`compiled_language`].

use crate::options::Options;
use crate::text::{lines_of, split_lines, texts};
use vstd::prelude::*;

verus! {

/// `regex::RegexSet`, a compiled set of regular expressions. Nothing of
/// its inside is known here.
#[verifier::external_type_specification]
#[verifier::external_body]
pub struct ExRegexSet(regex::RegexSet);

/// `regex::Error`, the failure to compile an expression. Nothing of its
/// inside is known here.
#[verifier::external_type_specification]
#[verifier::external_body]
pub struct ExRegexError(regex::Error);

/// The haystacks that a compiled set matches: those on which
/// `regex::RegexSet::is_match` answers `true`, which are those in which at
/// least one expression of the set matches somewhere.
pub uninterp spec fn regex_set_language(set: regex::RegexSet) -> Set<Seq<char>>;

/// What `regex::RegexSet::new` makes of `patterns`: nothing where it
/// fails, and else the haystacks that the set it returns matches.
///
/// The call fails when a pattern does not parse as a regular expression or
/// when the compiled set is beyond the size limit of the `regex` crate.
/// That limit is counted in bytes of the compiled program, so at its
/// margin the answer belongs to one build target. Within a build it
/// depends on the patterns alone.
pub uninterp spec fn compiled_language(patterns: Seq<Seq<char>>) -> Option<Set<Seq<char>>>;

/// Whether `patterns` compile to a set.
pub open spec fn patterns_compile(patterns: Seq<Seq<char>>) -> bool {
    compiled_language(patterns) is Some
}

/// The haystacks that the set compiled from `patterns` matches, where
/// they compile.
pub open spec fn pattern_language(patterns: Seq<Seq<char>>) -> Set<Seq<char>> {
    match compiled_language(patterns) {
        Some(language) => language,
        None => Set::empty(),
    }
}

/// Calls `regex::RegexSet::new` on `patterns`. Whether a set comes back,
/// and what that set matches, depends on the patterns alone. With no
/// pattern at all the call is the one that `regex::RegexSet::empty` makes
/// and unwraps: it gives a set, and that set never matches anything.
#[verifier::external_body]
fn compile_patterns(patterns: &Vec<String>) -> (compiled: Result<regex::RegexSet, regex::Error>)
    ensures
        match compiled {
            Ok(set) => compiled_language(texts(patterns@)) == Some(regex_set_language(set)),
            Err(_) => compiled_language(texts(patterns@)) is None,
        },
        compiled is Err ==> patterns@.len() > 0,
        compiled matches Ok(set) ==> (patterns@.len() == 0 ==> regex_set_language(set)
            == Set::<Seq<char>>::empty()),
{
    regex::RegexSet::new(patterns)
}

/// Calls `regex::RegexSet::is_match`: whether one of the expressions of
/// `set` matches somewhere in `haystack`.
#[verifier::external_body]
fn set_matches(set: &regex::RegexSet, haystack: &str) -> (matched: bool)
    ensures
        matched == regex_set_language(*set).contains(haystack@),
{
    set.is_match(haystack)
}

/// The message of a `regex::Error`, as its `Display` writes it. Nothing is
/// claimed about the text.
#[verifier::external_body]
fn error_message(error: &regex::Error) -> (message: String) {
    format!("{}", error)
}

/// A pattern of the ignore file is no regular expression, or the set is
/// too large to compile.
#[derive(Clone, Debug, PartialEq, Eq)]
pub struct IgnoreError {
    /// What the compiler of the expressions said.
    pub message: String,
}

/// The compiled ignore patterns. It never changes once it is built.
#[derive(Debug)]
pub struct IgnoreMatcher {
    set: regex::RegexSet,
}

impl IgnoreMatcher {
    /// The names that this matcher suppresses.
    pub open spec fn ignored(&self) -> Set<Seq<char>> {
        regex_set_language(self.compiled())
    }

    /// The compiled set that this matcher holds.
    pub closed spec fn compiled(&self) -> regex::RegexSet {
        self.set
    }

    /// Wraps what the compiler of the expressions returned: a set becomes a
    /// matcher that suppresses what the set matches, a failure becomes an
    /// [`IgnoreError`].
    pub fn from_compiled(compiled: Result<regex::RegexSet, regex::Error>) -> (made: Result<
        IgnoreMatcher,
        IgnoreError,
    >)
        ensures
            match compiled {
                Ok(set) => made matches Ok(matcher) && matcher.compiled() == set,
                Err(_) => made is Err,
            },
    {
        match compiled {
            Ok(set) => Ok(IgnoreMatcher { set }),
            Err(error) => Err(IgnoreError { message: error_message(&error) }),
        }
    }

    /// Compiles the patterns of `content`, one regular expression on each
    /// line. A matcher comes back exactly when the lines compile, and it
    /// suppresses exactly the names that the lines match. A content
    /// without any line always gives a matcher, and that matcher
    /// suppresses nothing.
    pub fn compile(content: &str) -> (made: Result<IgnoreMatcher, IgnoreError>)
        ensures
            made is Ok <==> patterns_compile(lines_of(content@)),
            made matches Ok(matcher) ==> matcher.ignored() == pattern_language(
                lines_of(content@),
            ),
            lines_of(content@).len() == 0 ==> (made matches Ok(matcher) && matcher.ignored()
                == Set::<Seq<char>>::empty()),
    {
        let patterns = split_lines(content);
        IgnoreMatcher::from_compiled(compile_patterns(&patterns))
    }

    /// Whether `name` is suppressed. The name is matched as it stands, with
    /// no directory in front of it.
    pub fn is_ignored(&self, name: &str) -> (ignored: bool)
        ensures
            ignored == self.ignored().contains(name@),
    {
        set_matches(&self.set, name)
    }
}

/// The names that an optional matcher suppresses: none without a matcher.
pub open spec fn ignored_names(ignore: Option<IgnoreMatcher>) -> Set<Seq<char>> {
    match ignore {
        Some(matcher) => matcher.ignored(),
        None => Set::empty(),
    }
}

/// Tests a name against an optional matcher.
pub fn name_is_ignored(ignore: &Option<IgnoreMatcher>, name: &str) -> (ignored: bool)
    ensures
        ignored == ignored_names(*ignore).contains(name@),
{
    match ignore {
        Some(matcher) => matcher.is_ignored(name),
        None => false,
    }
}

/// Builds the ignore filter of a run. `content` is what the configured
/// ignore file holds. Without a configured file there is no filter and
/// `content` is not looked at. With a configured file there is a filter
/// exactly when the lines of `content` compile, and it suppresses exactly
/// the names that the lines match; lines that do not compile are an error.
/// A file without any line gives a filter that suppresses nothing.
pub fn read_ignore_regex(opts: &Options, content: &str) -> (made: Result<
    Option<IgnoreMatcher>,
    IgnoreError,
>)
    ensures
        !opts.has_ignore_file() ==> made matches Ok(None),
        opts.has_ignore_file() ==> (made is Ok <==> patterns_compile(lines_of(content@))),
        opts.has_ignore_file() ==> (made matches Ok(found) ==> found matches Some(matcher)
            && matcher.ignored() == pattern_language(lines_of(content@))),
        opts.has_ignore_file() && lines_of(content@).len() == 0 ==> (made matches Ok(
            Some(matcher),
        ) && matcher.ignored() == Set::<Seq<char>>::empty()),
{
    match opts.ignore_file_path() {
        None => Ok(None),
        Some(_) => match IgnoreMatcher::compile(content) {
            Ok(matcher) => Ok(Some(matcher)),
            Err(error) => Err(error),
        },
    }
}

} // verus!
