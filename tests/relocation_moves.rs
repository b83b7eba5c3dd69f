use launcher_core::records::Install;
use launcher_core::relocation::{switch_version, DirState, MoveStatus, RelocationLocks, RelocationStart, ResourceKind, Tool};
use launcher_core::store::RecordStore;
use launcher_core::text::replace_token;

fn s(x: &str) -> String {
    x.to_string()
}

fn store_with_install(directory: &str, runner_path: &str, runner_version: &str) -> RecordStore {
    let mut st = RecordStore::new();
    st.create_repository(s("r1"), s("g")).unwrap();
    st.create_manifest(s("m1"), s("r1"), s("G"), s("m1.json"), true).unwrap();
    st.create_installation(Install {
        id: s("i1"),
        manifest_id: s("m1"),
        version: s("1.0"),
        name: s("My Game"),
        directory: s(directory),
        runner_path: s(runner_path),
        dxvk_path: s("/opt/dxvk/2.3"),
        runner_version: s(runner_version),
        dxvk_version: s("2.3"),
        game_icon: s(""),
        game_background: s(""),
        ignore_updates: false,
        skip_hash_check: false,
        use_jadeite: false,
        use_xxmi: false,
        use_fps_unlock: false,
        env_vars: s(""),
        pre_launch_command: s(""),
        launch_command: s(""),
        fps_value: s(""),
        runner_prefix: s("/opt/prefixes/main"),
        launch_args: s(""),
    })
    .unwrap();
    st
}

#[test]
fn game_move_completes_and_stores_destination() {
    let mut st = store_with_install("/tmp/a", "/opt/runners/7.0", "7.0");
    let mut locks = RelocationLocks::new();
    let start = locks.begin_relocation(&mut st, s("i1"), ResourceKind::Game, s("/tmp/b"), DirState::NonEmpty, DirState::Empty);
    let ticket = match start {
        RelocationStart::Copy(t) => t,
        other => panic!("unexpected {:?}", other),
    };
    assert_eq!(ticket.source, "/tmp/a");
    assert_eq!(ticket.destination, "/tmp/b");
    assert_eq!(st.get_install_info_by_id(s("i1")).unwrap().directory, "/tmp/a");
    let notice = locks.finish_relocation(&mut st, ticket, true);
    assert_eq!(notice.status, MoveStatus::Completed);
    assert_eq!(notice.install_name, "My Game");
    assert_eq!(notice.install_type, "Game");
    assert_eq!(st.get_install_info_by_id(s("i1")).unwrap().directory, "/tmp/b");
    assert!(!locks.is_locked(&s("i1"), ResourceKind::Game));
}

#[test]
fn move_into_occupied_destination_is_skipped() {
    let mut st = store_with_install("/tmp/a", "/opt/runners/7.0", "7.0");
    let mut locks = RelocationLocks::new();
    let start = locks.begin_relocation(&mut st, s("i1"), ResourceKind::Game, s("/tmp/b"), DirState::NonEmpty, DirState::NonEmpty);
    assert!(matches!(start, RelocationStart::DestinationOccupied));
    assert_eq!(st.get_install_info_by_id(s("i1")).unwrap().directory, "/tmp/a");
    assert!(!locks.is_locked(&s("i1"), ResourceKind::Game));
}

#[test]
fn second_concurrent_move_is_busy() {
    let mut st = store_with_install("/tmp/a", "/opt/runners/7.0", "7.0");
    let mut locks = RelocationLocks::new();
    let first = locks.begin_relocation(&mut st, s("i1"), ResourceKind::Prefix, s("/tmp/prefix_b"), DirState::NonEmpty, DirState::Empty);
    assert!(matches!(first, RelocationStart::Copy(_)));
    let second = locks.begin_relocation(&mut st, s("i1"), ResourceKind::Prefix, s("/tmp/prefix_c"), DirState::NonEmpty, DirState::Empty);
    assert!(matches!(second, RelocationStart::Busy));
    let other_kind = locks.begin_relocation(&mut st, s("i1"), ResourceKind::Runner, s("/tmp/r2"), DirState::NonEmpty, DirState::Empty);
    assert!(matches!(other_kind, RelocationStart::Copy(_)));
}

#[test]
fn failed_copy_keeps_stored_path() {
    let mut st = store_with_install("/tmp/a", "/opt/runners/7.0", "7.0");
    let mut locks = RelocationLocks::new();
    let ticket = match locks.begin_relocation(&mut st, s("i1"), ResourceKind::TranslationLayer, s("/tmp/d"), DirState::NonEmpty, DirState::Missing) {
        RelocationStart::Copy(t) => t,
        other => panic!("unexpected {:?}", other),
    };
    let notice = locks.finish_relocation(&mut st, ticket, false);
    assert_eq!(notice.status, MoveStatus::Failed);
    assert_eq!(notice.install_type, "DXVK");
    assert_eq!(st.get_install_info_by_id(s("i1")).unwrap().dxvk_path, "/opt/dxvk/2.3");
}

#[test]
fn empty_source_is_repointed_without_copy() {
    let mut st = store_with_install("/tmp/a", "/opt/runners/7.0", "7.0");
    let mut locks = RelocationLocks::new();
    let start = locks.begin_relocation(&mut st, s("i1"), ResourceKind::Game, s("/tmp/b"), DirState::Empty, DirState::Empty);
    assert!(matches!(start, RelocationStart::NothingToMove));
    assert_eq!(st.get_install_info_by_id(s("i1")).unwrap().directory, "/tmp/b");
    let missing = locks.begin_relocation(&mut st, s("zz"), ResourceKind::Game, s("/tmp/b"), DirState::NonEmpty, DirState::Empty);
    assert!(matches!(missing, RelocationStart::NotFound));
}

#[test]
fn runner_version_switch_derives_path() {
    let mut st = store_with_install("/tmp/a", "/opt/runners/7.0", "7.0");
    let sw = switch_version(&mut st, s("i1"), Tool::Runner, s("8.0")).unwrap();
    assert_eq!(sw.path, "/opt/runners/8.0");
    assert!(sw.token_found);
    let rec = st.get_install_info_by_id(s("i1")).unwrap();
    assert_eq!(rec.runner_version, "8.0");
    assert_eq!(rec.runner_path, "/opt/runners/8.0");
}

#[test]
fn version_switch_without_token_leaves_path() {
    let mut st = store_with_install("/tmp/a", "/opt/runners/custom", "7.0");
    let sw = switch_version(&mut st, s("i1"), Tool::Runner, s("8.0")).unwrap();
    assert!(!sw.token_found);
    assert_eq!(sw.path, "/opt/runners/custom");
    let rec = st.get_install_info_by_id(s("i1")).unwrap();
    assert_eq!(rec.runner_path, "/opt/runners/custom");
    assert_eq!(rec.runner_version, "8.0");
    assert!(switch_version(&mut st, s("zz"), Tool::Runner, s("8.0")).is_none());
}

#[test]
fn version_token_repeated_in_path_is_replaced_everywhere() {
    let mut st = store_with_install("/tmp/a", "/opt/7.0/runners/7.0", "7.0");
    let sw = switch_version(&mut st, s("i1"), Tool::Runner, s("8.0")).unwrap();
    assert_eq!(sw.path, "/opt/8.0/runners/8.0");
}

#[test]
fn replace_token_cases() {
    assert_eq!(replace_token("aaa", "aa", "b"), (s("ba"), true));
    assert_eq!(replace_token("abc", "", "x"), (s("abc"), false));
    assert_eq!(replace_token("ab", "abc", "x"), (s("ab"), false));
    assert_eq!(replace_token("héllo", "é", "e"), (s("hello"), true));
}
