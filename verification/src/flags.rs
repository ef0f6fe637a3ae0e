//! The flag compiler: the optional flag-letter string is folded into an
//! order-independent matcher configuration.
//!
//! Each letter is meaningful on its own and unrecognized letters are
//! ignored. The configuration is computed once from the whole letter set,
//! so the textual order of the letters never changes the outcome — with the
//! one documented exception that of the two case directives `c` and `i` the
//! last one given wins.

use vstd::prelude::*;
use vstd::string::*;

verus! {

/// The matcher configuration compiled from the flag letters: case mode,
/// multi-line mode, dot-matches-newline, and whole-word wrapping.
#[derive(Clone, Copy, PartialEq, Eq, Structural, Debug)]
pub struct FlagConfig {
    pub case_insensitive: bool,
    pub multi_line: bool,
    pub dot_all: bool,
    pub whole_words: bool,
}

/// Whether the letter `f` occurs anywhere among the flag letters.
pub open spec fn has_flag(letters: Seq<char>, f: char) -> bool
    decreases letters.len(),
{
    if letters.len() == 0 {
        false
    } else {
        letters.last() == f || has_flag(letters.drop_last(), f)
    }
}

/// The case directive standing last among the letters decides; with no
/// directive at all, matching is case-sensitive.
pub open spec fn case_insensitive_of(letters: Seq<char>) -> bool
    decreases letters.len(),
{
    if letters.len() == 0 {
        false
    } else if letters.last() == 'i' {
        true
    } else if letters.last() == 'c' {
        false
    } else {
        case_insensitive_of(letters.drop_last())
    }
}

/// Multi-line matching is on by default; `e` switches it off, and `s`
/// switches it off too unless `m` is also given.
pub open spec fn multi_line_of(letters: Seq<char>) -> bool {
    !has_flag(letters, 'e') && (has_flag(letters, 'm') || !has_flag(letters, 's'))
}

/// The full configuration determined by a set of flag letters.
pub open spec fn flag_config_of(letters: Seq<char>) -> FlagConfig {
    FlagConfig {
        case_insensitive: case_insensitive_of(letters),
        multi_line: multi_line_of(letters),
        dot_all: has_flag(letters, 's'),
        whole_words: has_flag(letters, 'w'),
    }
}

/// The letters of the optional flag argument; an absent argument means no
/// letters at all.
pub open spec fn flag_letters(flags: Option<String>) -> Seq<char> {
    match flags {
        Option::Some(s) => s@,
        Option::None => Seq::empty(),
    }
}

impl FlagConfig {
    /// Fold the optional flag-letter string into a configuration, letter by
    /// letter, ignoring letters that mean nothing.
    pub fn from_flags(flags: &Option<String>) -> (cfg: FlagConfig)
        ensures
            cfg == flag_config_of(flag_letters(*flags)),
    {
        let letters: &str = match flags {
            Option::Some(s) => s.as_str(),
            Option::None => "",
        };
        proof {
            reveal_strlit("");
            assert(""@ =~= Seq::<char>::empty());
            assert(letters@ == flag_letters(*flags));
        }
        let n: usize = letters.unicode_len();
        let mut case_insensitive: bool = false;
        let mut saw_e: bool = false;
        let mut saw_m: bool = false;
        let mut saw_s: bool = false;
        let mut saw_w: bool = false;
        let mut i: usize = 0;
        while i < n
            invariant
                n == letters@.len(),
                i <= n,
                case_insensitive == case_insensitive_of(letters@.take(i as int)),
                saw_e == has_flag(letters@.take(i as int), 'e'),
                saw_m == has_flag(letters@.take(i as int), 'm'),
                saw_s == has_flag(letters@.take(i as int), 's'),
                saw_w == has_flag(letters@.take(i as int), 'w'),
            decreases n - i,
        {
            let c = letters.get_char(i);
            proof {
                let prefix = letters@.take(i as int);
                let grown = letters@.take(i as int + 1);
                assert(grown.drop_last() =~= prefix);
                assert(grown.last() == c);
            }
            if c == 'i' {
                case_insensitive = true;
            } else if c == 'c' {
                case_insensitive = false;
            }
            if c == 'e' {
                saw_e = true;
            }
            if c == 'm' {
                saw_m = true;
            }
            if c == 's' {
                saw_s = true;
            }
            if c == 'w' {
                saw_w = true;
            }
            i = i + 1;
        }
        proof {
            assert(letters@.take(n as int) =~= letters@);
        }
        FlagConfig {
            case_insensitive,
            multi_line: !saw_e && (saw_m || !saw_s),
            dot_all: saw_s,
            whole_words: saw_w,
        }
    }
}

} // verus!
