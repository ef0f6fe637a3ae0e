use sd::replacer::Replacer;

fn replacer(pattern: &str, with: &str, literal: bool, flags: Option<&str>) -> Replacer {
    Replacer::new(
        pattern.to_string(),
        with.to_string(),
        literal,
        flags.map(|f| f.to_string()),
    )
    .expect("pattern should compile")
}

#[test]
fn no_match_leaves_input_identical() {
    let r = replacer("xyz", "q", false, None);
    let input = b"hello world, nothing to see".to_vec();
    assert!(!r.has_matches(&input));
    assert_eq!(r.replace(&input), input);
    assert_eq!(r.process(&input), input);
}

#[test]
fn simple_replacement() {
    let r = replacer("world", "there", false, None);
    assert_eq!(r.replace(b"hello world"), b"hello there".to_vec());
    assert!(r.has_matches(b"hello world"));
}

#[test]
fn capture_expansion() {
    let r = replacer("(\\w+)@(\\w+)", "$1-$2", false, None);
    assert_eq!(r.replace(b"user@host"), b"user-host".to_vec());
}

#[test]
fn literal_mode_escapes_metacharacters() {
    let r = replacer("a.b", "X", true, None);
    assert_eq!(r.replace(b"axb"), b"axb".to_vec());
    assert_eq!(r.replace(b"a.b"), b"X".to_vec());
}

#[test]
fn regex_mode_dot_is_a_wildcard() {
    let r = replacer("a.b", "X", false, None);
    assert_eq!(r.replace(b"axb"), b"X".to_vec());
}

#[test]
fn literal_mode_does_not_expand_captures() {
    let r = replacer("a", "$1x", true, None);
    assert_eq!(r.replace(b"a"), b"$1x".to_vec());
}

#[test]
fn word_boundary_flag() {
    let r = replacer("cat", "dog", false, Some("w"));
    assert_eq!(r.replace(b"category"), b"category".to_vec());
    assert_eq!(r.replace(b"cat dog"), b"dog dog".to_vec());
}

#[test]
fn word_boundary_flag_keeps_case_insensitivity() {
    let r = replacer("cat", "dog", false, Some("iw"));
    assert_eq!(r.replace(b"CAT dog"), b"dog dog".to_vec());
    assert_eq!(r.replace(b"CATEGORY"), b"CATEGORY".to_vec());
}

#[test]
fn case_flags_last_directive_wins() {
    let insensitive = replacer("abc", "x", false, Some("i"));
    assert_eq!(insensitive.replace(b"ABC"), b"x".to_vec());

    let sensitive_again = replacer("abc", "x", false, Some("ic"));
    assert_eq!(sensitive_again.replace(b"ABC"), b"ABC".to_vec());

    let insensitive_again = replacer("abc", "x", false, Some("ci"));
    assert_eq!(insensitive_again.replace(b"ABC"), b"x".to_vec());
}

#[test]
fn multi_line_default_and_disable() {
    let on = replacer("^b", "X", false, None);
    assert_eq!(on.replace(b"a\nb"), b"a\nX".to_vec());

    let off = replacer("^b", "X", false, Some("e"));
    assert_eq!(off.replace(b"a\nb"), b"a\nb".to_vec());
}

#[test]
fn dot_all_flag() {
    let without = replacer("a.b", "X", false, None);
    assert_eq!(without.replace(b"a\nb"), b"a\nb".to_vec());

    let with = replacer("a.b", "X", false, Some("s"));
    assert_eq!(with.replace(b"a\nb"), b"X".to_vec());
}

#[test]
fn dot_all_disables_multi_line_unless_m_given() {
    let s_only = replacer("^b.c", "X", false, Some("s"));
    assert_eq!(s_only.replace(b"a\nb\nc"), b"a\nb\nc".to_vec());

    let s_and_m = replacer("^b.c", "X", false, Some("sm"));
    assert_eq!(s_and_m.replace(b"a\nb\nc"), b"a\nX".to_vec());
}

#[test]
fn unknown_flag_letters_are_ignored() {
    let r = replacer("abc", "x", false, Some("zqy"));
    assert_eq!(r.replace(b"zabcz"), b"zxz".to_vec());
}

#[test]
fn replacement_escape_sequences_decode() {
    let r = replacer("-", "\\n", false, None);
    assert_eq!(r.replace(b"a-b"), b"a\nb".to_vec());

    let tab = replacer("-", "\\t", false, None);
    assert_eq!(tab.replace(b"a-b"), b"a\tb".to_vec());
}

#[test]
fn replacement_escape_decoding_failure_falls_back_to_raw() {
    let r = replacer("-", "\\q", false, None);
    assert_eq!(r.replace(b"a-b"), b"a\\qb".to_vec());

    let trailing = replacer("-", "x\\", false, None);
    assert_eq!(trailing.replace(b"a-b"), b"ax\\b".to_vec());
}

#[test]
fn literal_mode_replacement_is_not_decoded() {
    let r = replacer("-", "\\n", true, None);
    assert_eq!(r.replace(b"a-b"), b"a\\nb".to_vec());
}

#[test]
fn invalid_pattern_is_fatal() {
    let err = Replacer::new("(".to_string(), "x".to_string(), false, None);
    assert!(matches!(err, Err(sd::RunError::InvalidPattern)));
}

#[test]
fn invalid_regex_text_compiles_in_literal_mode() {
    let r = replacer("(", "[", true, None);
    assert_eq!(r.replace(b"f(x)"), b"f[x)".to_vec());
}

#[test]
fn substitution_twice_equals_once_when_result_no_longer_matches() {
    let r = replacer("ab", "X", false, None);
    let once = r.replace(b"zababz");
    let twice = r.replace(&once);
    assert_eq!(once, twice);
}

#[test]
fn process_substitutes_whole_buffer() {
    let r = replacer("l+", "L", false, None);
    assert_eq!(r.process(b"hello world"), b"heLo worLd".to_vec());
}

#[test]
fn more_escape_codes_decode() {
    let r = replacer("-", "\\r", false, None);
    assert_eq!(r.replace(b"a-b"), b"a\rb".to_vec());

    let backslash = replacer("-", "\\\\", false, None);
    assert_eq!(backslash.replace(b"a-b"), b"a\\b".to_vec());

    let nul = replacer("-", "\\0", false, None);
    assert_eq!(nul.replace(b"a-b"), vec![b'a', 0u8, b'b']);
}

#[test]
fn binary_content_passes_through() {
    let r = replacer("b", "XY", false, None);
    let input = vec![0u8, 159, 146, 98, 150, 0];
    let out = r.replace(&input);
    assert_eq!(out, vec![0u8, 159, 146, 88, 89, 150, 0]);
}
