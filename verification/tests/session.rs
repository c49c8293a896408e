use mkf::config::Config;
use mkf::miss::Me;
use mkf::outcome::SPAWN_FAILURE_CODE;
use mkf::session::Phase;
use mkf::session::Session;
use mkf::workspace::workspace_file_name;
use mkf::workspace::workspace_file_path;

fn config_with(
    arguments: &[&str],
    eof_marker: Option<&str>,
    placeholder: Option<&str>,
) -> Config {
    Config::new(
        b"echo".to_vec(),
        arguments.iter().map(|s| s.as_bytes().to_vec()).collect(),
        Vec::new(),
        eof_marker.map(|s| s.as_bytes().to_vec()),
        placeholder.map(|s| s.as_bytes().to_vec()),
        false,
    )
    .expect("suffix without separator must be accepted")
}

#[test]
fn run_follows_every_phase_in_order() {
    let mut s = Session::start(config_with(&["value=X"], Some("END"), Some("X")));
    assert_eq!(s.phase(), Phase::Created);
    assert!(s.workspace_alive());

    s.begin_capture();
    assert_eq!(s.phase(), Phase::Capturing);

    let contents = s.capture(&b"a\nb\nEND\nc\n".to_vec());
    assert_eq!(contents, b"a\nb\n".to_vec());
    assert_eq!(s.phase(), Phase::Capturing);
    s.finish_capture();
    assert_eq!(s.phase(), Phase::Ready);
    assert!(s.workspace_alive());

    let path = b"/ws/tmp_output".to_vec();
    let args = s.begin_dispatch(&path);
    assert_eq!(args, vec![b"value=/ws/tmp_output".to_vec()]);
    assert_eq!(s.phase(), Phase::Dispatching);
    assert!(s.workspace_alive());

    let outcome = s.finish_dispatch(Some(0));
    assert_eq!(outcome, 0);
    assert_eq!(s.phase(), Phase::Terminated);
    assert_eq!(s.exit_outcome(), Some(0));
    assert!(s.workspace_alive());

    s.release_workspace();
    assert!(!s.workspace_alive());
    assert_eq!(s.exit_outcome(), Some(0));
}

#[test]
fn workspace_lives_through_dispatch_without_placeholder() {
    let mut s = Session::start(config_with(&["fixed"], None, None));
    s.begin_capture();
    let contents = s.capture(&b"payload".to_vec());
    assert_eq!(contents, b"payload".to_vec());
    s.finish_capture();

    let path = b"/ws/tmp_output".to_vec();
    let args = s.begin_dispatch(&path);
    assert_eq!(args, vec![b"fixed".to_vec(), path]);
    assert!(s.workspace_alive());

    let outcome = s.finish_dispatch(Some(3));
    assert_eq!(outcome, 3);
    assert!(s.workspace_alive());
    s.release_workspace();
    assert!(!s.workspace_alive());
}

#[test]
fn failed_spawn_reserves_its_code_and_still_cleans_up() {
    let mut s = Session::start(config_with(&[], None, None));
    s.begin_capture();
    let _contents = s.capture(&b"ignored".to_vec());
    s.finish_capture();
    let _args = s.begin_dispatch(&b"/ws/tmp_output".to_vec());

    let code = s.fail_spawn();
    assert_eq!(code, SPAWN_FAILURE_CODE);
    assert_ne!(code, 0);
    assert_eq!(s.phase(), Phase::Terminated);
    assert_eq!(s.exit_outcome(), Some(code));

    // The workspace is still there for the unwind to remove.
    assert!(s.workspace_alive());
    s.release_workspace();
    assert!(!s.workspace_alive());
}

#[test]
fn failed_capture_reserves_its_code() {
    let mut s = Session::start(config_with(&[], Some("END"), None));
    s.begin_capture();
    let code = s.fail_capture();
    assert_eq!(code, mkf::outcome::CAPTURE_FAILURE_CODE);
    assert_eq!(s.phase(), Phase::Terminated);
    assert_eq!(s.exit_outcome(), Some(code));
    assert!(s.workspace_alive());
    s.release_workspace();
    assert!(!s.workspace_alive());
}

#[test]
fn suffix_with_separator_is_rejected() {
    let rejected = Config::new(
        b"cat".to_vec(),
        Vec::new(),
        b"dir/evil".to_vec(),
        None,
        None,
        false,
    );
    assert!(rejected.is_none());
}

#[test]
fn file_name_is_stem_plus_suffix() {
    assert_eq!(workspace_file_name(&b".txt".to_vec()), b"tmp_output.txt".to_vec());
    assert_eq!(workspace_file_name(&Vec::new()), b"tmp_output".to_vec());
}

#[test]
fn file_path_joins_directory_and_name() {
    let path = workspace_file_path(&b"/tmp/wsdir".to_vec(), &b".bin".to_vec());
    assert_eq!(path, b"/tmp/wsdir/tmp_output.bin".to_vec());
}

#[test]
fn watcher_never_sees_and_keeps_longing() {
    let alive = true;
    let mut me = Me { miss_you_level: 3, my_life: &alive };
    assert!(!me.see_you());
    assert_eq!(me.miss_you_level, 3);
}
