use mkf::dispatch::rewrite_args;
use mkf::outcome::CAPTURE_FAILURE_CODE;
use mkf::outcome::CHILD_SIGNALLED_CODE;
use mkf::outcome::FailureKind;
use mkf::outcome::SPAWN_FAILURE_CODE;
use mkf::outcome::WORKSPACE_FAILURE_CODE;
use mkf::outcome::child_exit_outcome;
use mkf::replace::replace_bytes;

fn args_of(strs: &[&str]) -> Vec<Vec<u8>> {
    strs.iter().map(|s| s.as_bytes().to_vec()).collect()
}

#[test]
fn placeholder_is_substituted() {
    let path = b"/ws/tmp_output".to_vec();
    let out = rewrite_args(&args_of(&["value=X"]), &Some(b"X".to_vec()), &path);
    assert_eq!(out, args_of(&["value=/ws/tmp_output"]));
}

#[test]
fn placeholder_replaces_every_occurrence_in_every_argument() {
    let path = b"P".to_vec();
    let out = rewrite_args(&args_of(&["XaXbX", "noop", "X"]), &Some(b"X".to_vec()), &path);
    assert_eq!(out, args_of(&["PaPbP", "noop", "P"]));
}

#[test]
fn placeholder_leaves_untouched_arguments_unchanged() {
    let path = b"/p".to_vec();
    let out = rewrite_args(&args_of(&["alpha", "beta"]), &Some(b"X".to_vec()), &path);
    assert_eq!(out, args_of(&["alpha", "beta"]));
}

#[test]
fn no_placeholder_appends_path_last() {
    let path = b"/ws/tmp_output".to_vec();
    let out = rewrite_args(&args_of(&["fixed"]), &None, &path);
    assert_eq!(out, vec![b"fixed".to_vec(), path]);
}

#[test]
fn no_placeholder_appends_path_to_empty_list() {
    let path = b"/ws/tmp_output".to_vec();
    let out = rewrite_args(&Vec::new(), &None, &path);
    assert_eq!(out, vec![path]);
}

#[test]
fn no_placeholder_never_substitutes() {
    // Even an argument that textually holds the path-like token is kept;
    // only the extra final argument carries the path.
    let path = b"/p".to_vec();
    let out = rewrite_args(&args_of(&["has /p inside"]), &None, &path);
    assert_eq!(out, vec![b"has /p inside".to_vec(), path]);
}

#[test]
fn replace_scans_left_to_right_without_overlap() {
    let out = replace_bytes(&b"aaa".to_vec(), &b"aa".to_vec(), &b"b".to_vec());
    assert_eq!(out, b"ba".to_vec());
}

#[test]
fn replace_with_empty_pattern_interleaves() {
    let out = replace_bytes(&b"abc".to_vec(), &b"".to_vec(), &b"X".to_vec());
    assert_eq!(out, b"XaXbXcX".to_vec());
}

#[test]
fn replace_of_empty_text_with_empty_pattern_is_replacement() {
    let out = replace_bytes(&b"".to_vec(), &b"".to_vec(), &b"X".to_vec());
    assert_eq!(out, b"X".to_vec());
}

#[test]
fn replacement_may_reintroduce_the_pattern() {
    // The scan never revisits what it already wrote.
    let out = replace_bytes(&b"abb".to_vec(), &b"ab".to_vec(), &b"a".to_vec());
    assert_eq!(out, b"ab".to_vec());
}

#[test]
fn failure_codes_are_nonzero_and_distinct() {
    let codes = [
        FailureKind::WorkspaceError.exit_code(),
        FailureKind::CaptureError.exit_code(),
        FailureKind::SpawnError.exit_code(),
        CHILD_SIGNALLED_CODE,
    ];
    for (i, a) in codes.iter().enumerate() {
        assert_ne!(*a, 0);
        for b in codes.iter().skip(i + 1) {
            assert_ne!(*a, *b);
        }
    }
    assert_eq!(FailureKind::WorkspaceError.exit_code(), WORKSPACE_FAILURE_CODE);
    assert_eq!(FailureKind::CaptureError.exit_code(), CAPTURE_FAILURE_CODE);
    assert_eq!(FailureKind::SpawnError.exit_code(), SPAWN_FAILURE_CODE);
}

#[test]
fn child_code_is_passed_through() {
    assert_eq!(child_exit_outcome(Some(0)), 0);
    assert_eq!(child_exit_outcome(Some(7)), 7);
}

#[test]
fn missing_child_code_becomes_sentinel() {
    assert_eq!(child_exit_outcome(None), CHILD_SIGNALLED_CODE);
    assert_ne!(child_exit_outcome(None), 0);
}
