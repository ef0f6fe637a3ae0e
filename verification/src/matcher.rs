//! The compiled matcher: pattern text plus the flag configuration, compiled
//! once into a `regex::bytes::Regex` and shared read-only afterwards.
//!
//! What the regex engine itself computes — whether a pattern compiles,
//! whether it matches somewhere in a byte buffer, and what replacing every
//! match yields — is named by uninterpreted spec functions and stated only
//! at the trusted boundary; everything around those calls is verified
//! against the names.

use vstd::prelude::*;

verus! {

/// What a matcher was built from: the final pattern text (already escaped
/// and word-wrapped as requested) and the three matcher options.
pub struct MatcherModel {
    pub pattern: Seq<char>,
    pub case_insensitive: bool,
    pub multi_line: bool,
    pub dot_all: bool,
}

/// Whether the regex crate accepts this pattern text under these options.
pub uninterp spec fn regex_compiles(
    pattern: Seq<char>,
    case_insensitive: bool,
    multi_line: bool,
    dot_all: bool,
) -> bool;

/// Whether the compiled pattern matches somewhere in the haystack.
pub uninterp spec fn regex_found(
    pattern: Seq<char>,
    case_insensitive: bool,
    multi_line: bool,
    dot_all: bool,
    haystack: Seq<u8>,
) -> bool;

/// The haystack with every non-overlapping match replaced by the template,
/// capture references in the template expanded.
pub uninterp spec fn regex_replaced(
    pattern: Seq<char>,
    case_insensitive: bool,
    multi_line: bool,
    dot_all: bool,
    haystack: Seq<u8>,
    template: Seq<u8>,
) -> Seq<u8>;

/// The haystack with every non-overlapping match replaced by the
/// replacement bytes taken verbatim, nothing expanded.
pub uninterp spec fn regex_replaced_verbatim(
    pattern: Seq<char>,
    case_insensitive: bool,
    multi_line: bool,
    dot_all: bool,
    haystack: Seq<u8>,
    replacement: Seq<u8>,
) -> Seq<u8>;

/// Whether a matcher with this model matches somewhere in the haystack.
pub open spec fn match_found(m: MatcherModel, haystack: Seq<u8>) -> bool {
    regex_found(m.pattern, m.case_insensitive, m.multi_line, m.dot_all, haystack)
}

/// What replacing every match of this model in the haystack yields, under
/// either template semantics.
pub open spec fn replaced_bytes(
    m: MatcherModel,
    literal: bool,
    template: Seq<u8>,
    haystack: Seq<u8>,
) -> Seq<u8> {
    if literal {
        regex_replaced_verbatim(
            m.pattern,
            m.case_insensitive,
            m.multi_line,
            m.dot_all,
            haystack,
            template,
        )
    } else {
        regex_replaced(m.pattern, m.case_insensitive, m.multi_line, m.dot_all, haystack, template)
    }
}

/// The substitution engine as a whole: a haystack without a match passes
/// through unchanged, any other haystack becomes its replaced form.
pub open spec fn sub_result(
    m: MatcherModel,
    literal: bool,
    template: Seq<u8>,
    haystack: Seq<u8>,
) -> Seq<u8> {
    if match_found(m, haystack) {
        replaced_bytes(m, literal, template, haystack)
    } else {
        haystack
    }
}

#[verifier::external_type_specification]
#[verifier::external_body]
pub struct ExRegex(regex::bytes::Regex);

#[verifier::external_type_specification]
#[verifier::external_body]
pub struct ExRegexError(regex::Error);

/// A character the regex syntax gives significance to, which literal-mode
/// escaping therefore prefixes with a backslash.
pub open spec fn is_regex_meta(c: char) -> bool {
    ||| c == '\\'
    ||| c == '.'
    ||| c == '+'
    ||| c == '*'
    ||| c == '?'
    ||| c == '('
    ||| c == ')'
    ||| c == '|'
    ||| c == '['
    ||| c == ']'
    ||| c == '{'
    ||| c == '}'
    ||| c == '^'
    ||| c == '$'
    ||| c == '#'
    ||| c == '&'
    ||| c == '-'
    ||| c == '~'
}

/// Literal-mode escaping: every meta character gets a backslash before it,
/// every other character is kept as it is.
pub open spec fn escaped(text: Seq<char>) -> Seq<char>
    decreases text.len(),
{
    if text.len() == 0 {
        text
    } else {
        let head = if is_regex_meta(text[0]) {
            seq!['\\', text[0]]
        } else {
            seq![text[0]]
        };
        head + escaped(text.drop_first())
    }
}

/// Relies on regex::escape: it puts a backslash before exactly the meta
/// characters of the regex syntax and keeps every other character.
#[verifier::external_body]
pub(crate) fn escape_literal(text: &str) -> (quoted: String)
    ensures
        quoted@ == escaped(text@),
{
    regex::escape(text)
}

/// A compiled matcher. Immutable after construction and safe to share
/// read-only across concurrent workers; nothing is re-compiled per use.
pub(crate) struct Matcher {
    regex: regex::bytes::Regex,
    pattern: String,
    case_insensitive: bool,
    multi_line: bool,
    dot_all: bool,
}

impl Matcher {
    /// The pattern text and options this matcher was compiled from.
    pub(crate) closed spec fn model(&self) -> MatcherModel {
        MatcherModel {
            pattern: self.pattern@,
            case_insensitive: self.case_insensitive,
            multi_line: self.multi_line,
            dot_all: self.dot_all,
        }
    }

    /// Relies on regex::bytes::RegexBuilder: `build` compiles the pattern
    /// text under exactly the given case, multi-line and dot-matches-newline
    /// options, and fails precisely on the texts the regex crate rejects.
    #[verifier::external_body]
    pub(crate) fn compile(
        pattern: &str,
        case_insensitive: bool,
        multi_line: bool,
        dot_all: bool,
    ) -> (r: Result<Matcher, regex::Error>)
        ensures
            r is Ok <==> regex_compiles(pattern@, case_insensitive, multi_line, dot_all),
            r is Ok ==> (r->Ok_0).model() == (MatcherModel {
                pattern: pattern@,
                case_insensitive,
                multi_line,
                dot_all,
            }),
    {
        let mut builder = regex::bytes::RegexBuilder::new(pattern);
        builder.case_insensitive(case_insensitive);
        builder.multi_line(multi_line);
        builder.dot_matches_new_line(dot_all);
        match builder.build() {
            Ok(regex) => Ok(
                Matcher { regex, pattern: pattern.to_owned(), case_insensitive, multi_line, dot_all },
            ),
            Err(e) => Err(e),
        }
    }

    /// Relies on regex::bytes::Regex::is_match: true exactly when the
    /// pattern matches somewhere in the haystack.
    #[verifier::external_body]
    pub(crate) fn is_match(&self, haystack: &[u8]) -> (found: bool)
        ensures
            found == regex_found(
                self.model().pattern,
                self.model().case_insensitive,
                self.model().multi_line,
                self.model().dot_all,
                haystack@,
            ),
    {
        self.regex.is_match(haystack)
    }

    /// Relies on regex::bytes::Regex::replace_all with a byte-slice
    /// replacer: every non-overlapping match is replaced left to right with
    /// the template, `$group` references expanded from the match's
    /// captures; a haystack without a match is returned unchanged.
    #[verifier::external_body]
    pub(crate) fn replace_all_expanding(&self, haystack: &[u8], template: &[u8]) -> (out: Vec<u8>)
        ensures
            regex_found(
                self.model().pattern,
                self.model().case_insensitive,
                self.model().multi_line,
                self.model().dot_all,
                haystack@,
            ) ==> out@ == regex_replaced(
                self.model().pattern,
                self.model().case_insensitive,
                self.model().multi_line,
                self.model().dot_all,
                haystack@,
                template@,
            ),
            !regex_found(
                self.model().pattern,
                self.model().case_insensitive,
                self.model().multi_line,
                self.model().dot_all,
                haystack@,
            ) ==> out@ == haystack@,
    {
        self.regex.replace_all(haystack, template).into_owned()
    }

    /// Relies on regex::bytes::Regex::replace_all with NoExpand: every
    /// non-overlapping match is replaced with the replacement bytes taken
    /// verbatim; a haystack without a match is returned unchanged.
    #[verifier::external_body]
    pub(crate) fn replace_all_verbatim(&self, haystack: &[u8], replacement: &[u8]) -> (out: Vec<u8>)
        ensures
            regex_found(
                self.model().pattern,
                self.model().case_insensitive,
                self.model().multi_line,
                self.model().dot_all,
                haystack@,
            ) ==> out@ == regex_replaced_verbatim(
                self.model().pattern,
                self.model().case_insensitive,
                self.model().multi_line,
                self.model().dot_all,
                haystack@,
                replacement@,
            ),
            !regex_found(
                self.model().pattern,
                self.model().case_insensitive,
                self.model().multi_line,
                self.model().dot_all,
                haystack@,
            ) ==> out@ == haystack@,
    {
        self.regex.replace_all(haystack, regex::bytes::NoExpand(replacement)).into_owned()
    }
}

} // verus!
