//! The replacement template: the raw replacement text, decoded.
//!
//! In literal mode the raw bytes are emitted verbatim. Otherwise backslash
//! escape sequences (newline, tab and the like) are decoded first; when the
//! decoding fails — a trailing backslash or an unknown code — the raw text
//! is used unchanged.

use vstd::prelude::*;
use vstd::string::*;

verus! {

/// The backslash byte, `\`.
pub const BACKSLASH: u8 = 92;

/// The byte of the letter `n`.
pub const LOWER_N: u8 = 110;

/// The byte of the letter `t`.
pub const LOWER_T: u8 = 116;

/// The byte of the letter `r`.
pub const LOWER_R: u8 = 114;

/// The byte of the digit `0`.
pub const DIGIT_ZERO: u8 = 48;

/// The byte of the single quote, `'`.
pub const SINGLE_QUOTE: u8 = 39;

/// The byte of the double quote, `"`.
pub const DOUBLE_QUOTE: u8 = 34;

/// The newline byte.
pub const NEWLINE: u8 = 10;

/// The horizontal tab byte.
pub const TAB: u8 = 9;

/// The carriage-return byte.
pub const CARRIAGE_RETURN: u8 = 13;

/// The NUL byte.
pub const NUL: u8 = 0;

/// The decoded byte for a backslash escape code, if the code is known.
pub open spec fn escape_code(code: u8) -> Option<u8> {
    if code == LOWER_N {
        Option::Some(NEWLINE)
    } else if code == LOWER_T {
        Option::Some(TAB)
    } else if code == LOWER_R {
        Option::Some(CARRIAGE_RETURN)
    } else if code == DIGIT_ZERO {
        Option::Some(NUL)
    } else if code == BACKSLASH {
        Option::Some(BACKSLASH)
    } else if code == SINGLE_QUOTE {
        Option::Some(SINGLE_QUOTE)
    } else if code == DOUBLE_QUOTE {
        Option::Some(DOUBLE_QUOTE)
    } else {
        Option::None
    }
}

/// Escape decoding over raw bytes: each backslash pair becomes its decoded
/// byte, every other byte is kept; a trailing backslash or an unknown code
/// fails the whole decoding.
pub open spec fn unescaped(raw: Seq<u8>) -> Option<Seq<u8>>
    decreases raw.len(),
{
    if raw.len() == 0 {
        Option::Some(Seq::empty())
    } else if raw[0] == BACKSLASH {
        if raw.len() == 1 {
            Option::None
        } else {
            match escape_code(raw[1]) {
                Option::Some(decoded) => match unescaped(raw.skip(2)) {
                    Option::Some(rest) => Option::Some(seq![decoded] + rest),
                    Option::None => Option::None,
                },
                Option::None => Option::None,
            }
        }
    } else {
        match unescaped(raw.skip(1)) {
            Option::Some(rest) => Option::Some(seq![raw[0]] + rest),
            Option::None => Option::None,
        }
    }
}

/// The bytes the template emits for one match: the raw replacement text in
/// literal mode, otherwise its decoded form — or the raw text again when
/// decoding fails.
pub open spec fn template_bytes(raw: Seq<u8>, literal: bool) -> Seq<u8> {
    if literal {
        raw
    } else {
        match unescaped(raw) {
            Option::Some(decoded) => decoded,
            Option::None => raw,
        }
    }
}

/// The decoded byte for a backslash escape code, if the code is known.
fn decode_escape(code: u8) -> (decoded: Option<u8>)
    ensures
        decoded == escape_code(code),
{
    if code == LOWER_N {
        Some(NEWLINE)
    } else if code == LOWER_T {
        Some(TAB)
    } else if code == LOWER_R {
        Some(CARRIAGE_RETURN)
    } else if code == DIGIT_ZERO {
        Some(NUL)
    } else if code == BACKSLASH {
        Some(BACKSLASH)
    } else if code == SINGLE_QUOTE {
        Some(SINGLE_QUOTE)
    } else if code == DOUBLE_QUOTE {
        Some(DOUBLE_QUOTE)
    } else {
        None
    }
}

/// Decode every backslash escape sequence in the raw bytes, or report that
/// the text does not decode.
pub fn unescape(raw: &[u8]) -> (out: Option<Vec<u8>>)
    ensures
        match out {
            Option::Some(decoded) => unescaped(raw@) == Option::Some(decoded@),
            Option::None => unescaped(raw@) is None,
        },
{
    let n: usize = raw.len();
    let mut decoded: Vec<u8> = Vec::new();
    let mut i: usize = 0;
    proof {
        assert(raw@.skip(0) =~= raw@);
    }
    while i < n
        invariant
            n == raw@.len(),
            i <= n,
            match unescaped(raw@.skip(i as int)) {
                Option::Some(rest) => unescaped(raw@) == Option::Some(decoded@ + rest),
                Option::None => unescaped(raw@) is None,
            },
        decreases n - i,
    {
        let ghost pending = raw@.skip(i as int);
        if raw[i] == BACKSLASH {
            if i + 1 == n {
                proof {
                    assert(pending.len() == 1);
                }
                return None;
            }
            match decode_escape(raw[i + 1]) {
                Some(byte) => {
                    proof {
                        assert(pending[0] == BACKSLASH);
                        assert(pending[1] == raw@[i + 1]);
                        assert(pending.skip(2) =~= raw@.skip(i + 2));
                        let rest_opt = unescaped(raw@.skip(i + 2));
                        if rest_opt is Some {
                            assert(decoded@ + (seq![byte] + rest_opt->0)
                                =~= (decoded@ + seq![byte]) + rest_opt->0);
                            assert(decoded@ + seq![byte] =~= decoded@.push(byte));
                        }
                    }
                    decoded.push(byte);
                    i = i + 2;
                },
                None => {
                    proof {
                        assert(pending[0] == BACKSLASH);
                        assert(pending[1] == raw@[i + 1]);
                    }
                    return None;
                },
            }
        } else {
            let byte = raw[i];
            proof {
                assert(pending[0] == byte);
                assert(pending.skip(1) =~= raw@.skip(i + 1));
                let rest_opt = unescaped(raw@.skip(i + 1));
                if rest_opt is Some {
                    assert(decoded@ + (seq![byte] + rest_opt->0)
                        =~= (decoded@ + seq![byte]) + rest_opt->0);
                    assert(decoded@ + seq![byte] =~= decoded@.push(byte));
                }
            }
            decoded.push(byte);
            i = i + 1;
        }
    }
    proof {
        assert(raw@.skip(n as int) =~= Seq::<u8>::empty());
        assert(decoded@ + Seq::<u8>::empty() =~= decoded@);
    }
    Some(decoded)
}

/// Build the template bytes for the raw replacement text: verbatim in
/// literal mode, decoded otherwise, with the raw text as the fallback when
/// decoding fails.
pub fn build_template(replace_with: &str, literal: bool) -> (template: Vec<u8>)
    ensures
        template@ == template_bytes(replace_with.spec_bytes(), literal),
{
    let raw = replace_with.as_bytes_vec();
    if literal {
        raw
    } else {
        match unescape(raw.as_slice()) {
            Some(decoded) => decoded,
            None => raw,
        }
    }
}

} // verus!
