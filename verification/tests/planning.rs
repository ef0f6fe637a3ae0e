use sd::driver::{select_strategy, Source, Strategy};
use sd::mutator::FileAction;
use sd::replacer::Replacer;

fn replacer(pattern: &str, with: &str) -> Replacer {
    Replacer::new(pattern.to_string(), with.to_string(), false, None)
        .expect("pattern should compile")
}

#[test]
fn no_paths_means_stdin() {
    let source = Source::infer(Vec::new());
    assert!(matches!(source, Source::Stdin));
}

#[test]
fn paths_keep_their_order() {
    let source = Source::infer(vec!["a.txt".to_string(), "b.txt".to_string()]);
    match source {
        Source::Files(paths) => {
            assert_eq!(paths, vec!["a.txt".to_string(), "b.txt".to_string()]);
        }
        Source::Stdin => panic!("paths were given"),
    }
}

#[test]
fn stdin_strategy_ignores_in_place_flag() {
    let source = Source::infer(Vec::new());
    assert!(matches!(select_strategy(&source, true), Strategy::StdinStream));
    assert!(matches!(select_strategy(&source, false), Strategy::StdinStream));
}

#[test]
fn files_strategy_follows_in_place_flag() {
    let source = Source::infer(vec!["a.txt".to_string()]);
    assert!(matches!(select_strategy(&source, true), Strategy::ConcurrentInPlace));
    assert!(matches!(select_strategy(&source, false), Strategy::SequentialPreview));
}

#[test]
fn empty_file_is_left_untouched() {
    let r = replacer("a", "b");
    let action = r.plan_rewrite(&[], 0o644);
    assert!(matches!(action, FileAction::LeaveUntouched));
}

#[test]
fn rewrite_plan_preserves_permission_bits() {
    let r = replacer("a", "b");
    match r.plan_rewrite(b"banana", 0o751) {
        FileAction::Rewrite(plan) => {
            assert_eq!(plan.mode_bits, 0o751);
            assert_eq!(plan.contents, b"bbnbnb".to_vec());
            assert!(plan.needs_write());
        }
        FileAction::LeaveUntouched => panic!("a non-empty file gets a rewrite plan"),
    }
}

#[test]
fn rewrite_to_nothing_skips_the_write_step() {
    let r = replacer("a+", "");
    match r.plan_rewrite(b"aaaa", 0o600) {
        FileAction::Rewrite(plan) => {
            assert_eq!(plan.contents, Vec::<u8>::new());
            assert!(!plan.needs_write());
        }
        FileAction::LeaveUntouched => panic!("a non-empty file gets a rewrite plan"),
    }
}

#[test]
fn rewrite_plan_without_matches_keeps_contents() {
    let r = replacer("zzz", "x");
    match r.plan_rewrite(b"abc", 0o644) {
        FileAction::Rewrite(plan) => assert_eq!(plan.contents, b"abc".to_vec()),
        FileAction::LeaveUntouched => panic!("a non-empty file gets a rewrite plan"),
    }
}
