//! The substitution engine: one compiled matcher plus one replacement
//! template, applied to arbitrary byte buffers.
//!
//! A replacer is built exactly once per run and never mutated afterwards,
//! so it can be shared read-only across concurrent workers.

use crate::RunError;
use crate::flags::{FlagConfig, flag_config_of, flag_letters};
use crate::matcher::{
    Matcher, MatcherModel, escape_literal, escaped, match_found, regex_compiles, sub_result,
};
use crate::template::{build_template, template_bytes};
use vstd::prelude::*;
use vstd::slice::slice_to_vec;
use vstd::string::*;
use vstd::utf8::encode_utf8;

verus! {

/// The two characters of the word-boundary anchor, `\b`.
pub open spec fn word_boundary() -> Seq<char> {
    seq!['\\', 'b']
}

/// The final pattern text handed to the regex engine: the raw text, escaped
/// first in literal mode, and wrapped in word-boundary anchors when
/// whole-word matching is asked for.
pub open spec fn pattern_of(look_for: Seq<char>, literal: bool, whole_words: bool) -> Seq<char> {
    let base = if literal {
        escaped(look_for)
    } else {
        look_for
    };
    if whole_words {
        word_boundary() + base + word_boundary()
    } else {
        base
    }
}

/// A compiled matcher together with the template bytes to put in place of
/// every match.
pub struct Replacer {
    matcher: Matcher,
    replace_with: Vec<u8>,
    is_literal: bool,
}

impl Replacer {
    /// The pattern text and matcher options this replacer was built from.
    pub closed spec fn model(&self) -> MatcherModel {
        self.matcher.model()
    }

    /// The template bytes put in place of every match.
    pub closed spec fn template(&self) -> Seq<u8> {
        self.replace_with@
    }

    /// Whether the template is emitted verbatim, with no capture expansion.
    pub closed spec fn literal(&self) -> bool {
        self.is_literal
    }

    /// Whether this replacer's pattern matches somewhere in `input`.
    pub open spec fn has_match(&self, input: Seq<u8>) -> bool {
        match_found(self.model(), input)
    }

    /// What substituting over `input` yields for this replacer.
    pub open spec fn result_of(&self, input: Seq<u8>) -> Seq<u8> {
        sub_result(self.model(), self.literal(), self.template(), input)
    }

    /// Build the replacer once for the whole run: compile the flag letters
    /// into a configuration, escape the pattern in literal mode, wrap it in
    /// word-boundary anchors if asked, decode the replacement template, and
    /// compile the matcher. A pattern the regex engine rejects is the one
    /// fatal error, raised before any input is touched.
    pub fn new(
        look_for: String,
        replace_with: String,
        is_literal: bool,
        flags: Option<String>,
    ) -> (r: Result<Replacer, RunError>)
        ensures
            ({
                let cfg = flag_config_of(flag_letters(flags));
                let pat = pattern_of(look_for@, is_literal, cfg.whole_words);
                &&& (r is Ok <==> regex_compiles(
                    pat,
                    cfg.case_insensitive,
                    cfg.multi_line,
                    cfg.dot_all,
                ))
                &&& (r is Err ==> r->Err_0 == RunError::InvalidPattern)
                &&& (r is Ok ==> (r->Ok_0).model() == (MatcherModel {
                    pattern: pat,
                    case_insensitive: cfg.case_insensitive,
                    multi_line: cfg.multi_line,
                    dot_all: cfg.dot_all,
                }))
                &&& (r is Ok ==> (r->Ok_0).template() == template_bytes(
                    encode_utf8(replace_with@),
                    is_literal,
                ))
                &&& (r is Ok ==> (r->Ok_0).literal() == is_literal)
            }),
    {
        let cfg = FlagConfig::from_flags(&flags);
        let base: String = if is_literal {
            escape_literal(look_for.as_str())
        } else {
            look_for
        };
        let pattern_text: String = if cfg.whole_words {
            let mut anchored: String = "\\b".to_owned();
            anchored.append(base.as_str());
            anchored.append("\\b");
            proof {
                reveal_strlit("\\b");
                assert("\\b"@ =~= word_boundary());
            }
            anchored
        } else {
            base
        };
        let template = build_template(replace_with.as_str(), is_literal);
        match Matcher::compile(
            pattern_text.as_str(),
            cfg.case_insensitive,
            cfg.multi_line,
            cfg.dot_all,
        ) {
            Ok(matcher) => Ok(Replacer { matcher, replace_with: template, is_literal }),
            Err(_) => Err(RunError::InvalidPattern),
        }
    }

    /// The cheap probe: does the pattern match anywhere in `content`?
    pub fn has_matches(&self, content: &[u8]) -> (found: bool)
        ensures
            found == self.has_match(content@),
    {
        self.matcher.is_match(content)
    }

    /// Replace every non-overlapping match in `content`, left to right,
    /// with the template; unmatched regions pass through unchanged, and a
    /// buffer without a match comes back byte-for-byte identical.
    pub fn replace(&self, content: &[u8]) -> (out: Vec<u8>)
        ensures
            out@ == self.result_of(content@),
            !self.has_match(content@) ==> out@ == content@,
    {
        if self.is_literal {
            self.matcher.replace_all_verbatim(content, self.replace_with.as_slice())
        } else {
            self.matcher.replace_all_expanding(content, self.replace_with.as_slice())
        }
    }

    /// The whole-buffer path: probe once, then either hand the input back
    /// unchanged or build the substituted buffer.
    pub fn process(&self, input: &[u8]) -> (out: Vec<u8>)
        ensures
            out@ == self.result_of(input@),
    {
        if self.has_matches(input) {
            self.replace(input)
        } else {
            slice_to_vec(input)
        }
    }
}

/// Law: substitution over a buffer the pattern does not match is the
/// identity, byte for byte.
pub proof fn lemma_no_match_identity(
    m: MatcherModel,
    literal: bool,
    template: Seq<u8>,
    input: Seq<u8>,
)
    ensures
        !match_found(m, input) ==> sub_result(m, literal, template, input) == input,
{
}

/// Law: as soon as one substitution's result no longer matches the pattern
/// — in particular whenever the expanded template cannot re-create a match
/// — substituting a second time changes nothing: twice equals once.
pub proof fn lemma_substitute_idempotent(
    m: MatcherModel,
    literal: bool,
    template: Seq<u8>,
    input: Seq<u8>,
)
    ensures
        !match_found(m, sub_result(m, literal, template, input)) ==> sub_result(
            m,
            literal,
            template,
            sub_result(m, literal, template, input),
        ) == sub_result(m, literal, template, input),
{
}

} // verus!
