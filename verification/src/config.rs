//! The scan configuration: the directory to scan and the name pattern,
//! compiled once and then tested against file names.

use regex::Regex;
use vstd::prelude::*;

verus! {

/// `regex::Regex`, a compiled regular expression. Nothing inside it is
/// visible here.
#[verifier::external_type_specification]
#[verifier::external_body]
pub struct ExRegex(regex::Regex);

/// `regex::Error`, the reason why a pattern was rejected. Nothing inside it
/// is visible here.
#[verifier::external_type_specification]
#[verifier::external_body]
pub struct ExRegexError(regex::Error);

/// What `Regex::new` makes of a pattern: the compiled regex, or `None` where
/// the pattern is rejected.
pub uninterp spec fn compiled(pattern: Seq<char>) -> Option<Regex>;

/// Whether `Regex::is_match` finds a match of the regex anywhere in the text.
pub uninterp spec fn finds_match(regex: Regex, text: Seq<char>) -> bool;

/// Calls `Regex::new`. The outcome is taken to be a function of the pattern
/// alone: a pattern is either always accepted or always rejected, and an
/// accepted pattern always yields the same regex.
#[verifier::external_body]
fn compile(pattern: &str) -> (outcome: Result<Regex, regex::Error>)
    ensures
        outcome.is_ok() == compiled(pattern@).is_some(),
        outcome matches Ok(regex) ==> compiled(pattern@) == Some(regex),
{
    Regex::new(pattern)
}

/// Calls `Regex::is_match`, which reports whether the regex matches anywhere
/// in the text and depends on nothing but the regex and the text.
#[verifier::external_body]
fn is_match(regex: &Regex, text: &str) -> (found: bool)
    ensures
        found == finds_match(*regex, text@),
{
    regex.is_match(text)
}

/// Whether the pattern is a regular expression that can be compiled.
pub open spec fn pattern_valid(pattern: Seq<char>) -> bool {
    compiled(pattern).is_some()
}

/// Whether a name contains a match of the pattern. The match is unanchored:
/// it need not cover the whole name. A pattern that cannot be compiled
/// matches nothing.
pub open spec fn name_matches(pattern: Seq<char>, name: Seq<char>) -> bool {
    compiled(pattern) matches Some(regex) && finds_match(regex, name)
}

/// Why a scan configuration could not be built.
#[derive(Clone, Copy, Debug, PartialEq, Eq, Structural)]
pub enum ConfigError {
    /// The pattern is not a regular expression that can be compiled.
    InvalidPattern,
}

/// The directory to scan and the pattern that file names are tested against.
/// Built once, never changed afterwards.
pub struct ScanConfig {
    root_path: String,
    pattern: String,
    regex: Regex,
}

impl ScanConfig {
    /// The regex held is the one that the pattern compiles to.
    #[verifier::type_invariant]
    spec fn well_formed(&self) -> bool {
        compiled(self.pattern@) == Some(self.regex)
    }

    /// The root path, as given at construction.
    pub closed spec fn root(&self) -> Seq<char> {
        self.root_path@
    }

    /// The pattern, as given at construction.
    pub closed spec fn pattern(&self) -> Seq<char> {
        self.pattern@
    }

    /// Builds the configuration from a root path and a pattern. The root path
    /// is taken as it is, whether or not anything exists there. The pattern
    /// must compile: `InvalidPattern` is returned exactly when it does not.
    pub fn new(root_path: &str, pattern: &str) -> (made: Result<ScanConfig, ConfigError>)
        ensures
            pattern_valid(pattern@) ==> (made matches Ok(config) && config.root() == root_path@
                && config.pattern() == pattern@),
            !pattern_valid(pattern@) ==> made == Err::<ScanConfig, ConfigError>(
                ConfigError::InvalidPattern,
            ),
    {
        match compile(pattern) {
            Ok(regex) => Ok(
                ScanConfig { root_path: root_path.to_owned(), pattern: pattern.to_owned(), regex },
            ),
            Err(_) => Err(ConfigError::InvalidPattern),
        }
    }

    /// The directory under which the scan begins.
    pub fn root_path(&self) -> (path: &str)
        ensures
            path@ == self.root(),
    {
        self.root_path.as_str()
    }

    /// The pattern text that the configuration was built from. It compiles,
    /// as does the pattern of every configuration.
    pub fn pattern_text(&self) -> (text: &str)
        ensures
            text@ == self.pattern(),
            pattern_valid(text@),
    {
        proof {
            use_type_invariant(self);
        }
        self.pattern.as_str()
    }

    /// Tests a file name against the pattern.
    pub fn matches(&self, name: &str) -> (found: bool)
        ensures
            found == name_matches(self.pattern(), name@),
    {
        proof {
            use_type_invariant(self);
        }
        is_match(&self.regex, name)
    }
}

} // verus!
