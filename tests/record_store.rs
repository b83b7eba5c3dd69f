use launcher_core::commands::{
    add_install, get_game_manifest_by_filename, get_install_by_id, list_installs, remove_install,
    seed_default_paths, update_install_use_jadeite, update_manifest_enabled, GameVersion, InstallRequest,
};
use launcher_core::migration::{builtin_migrations, plan_migrations};
use launcher_core::records::{Install, InstallField};
use launcher_core::store::{RecordStore, StoreError};

fn s(x: &str) -> String {
    x.to_string()
}

fn sample_install(id: &str, manifest_id: &str, directory: &str) -> Install {
    Install {
        id: s(id),
        manifest_id: s(manifest_id),
        version: s("1.0"),
        name: s("Game 1.0"),
        directory: s(directory),
        runner_path: s("/opt/runners/7.0"),
        dxvk_path: s("/opt/dxvk/2.3"),
        runner_version: s("7.0"),
        dxvk_version: s("2.3"),
        game_icon: s("icon.png"),
        game_background: s("bg.png"),
        ignore_updates: false,
        skip_hash_check: true,
        use_jadeite: false,
        use_xxmi: true,
        use_fps_unlock: false,
        env_vars: s("A=1"),
        pre_launch_command: s(""),
        launch_command: s("run"),
        fps_value: s("60"),
        runner_prefix: s("/opt/prefixes/main"),
        launch_args: s("-x"),
    }
}

fn store_with_manifest() -> RecordStore {
    let mut st = RecordStore::new();
    st.create_repository(s("r1"), s("owner/repo")).unwrap();
    st.create_manifest(s("m1"), s("r1"), s("Game"), s("m1.json"), true).unwrap();
    st
}

fn request(manifest_id: &str, version: &str, directory: &str) -> InstallRequest {
    InstallRequest {
        manifest_id: s(manifest_id),
        version: s(version),
        name: s("n"),
        directory: s(directory),
        runner_path: s("/opt/runners/7.0"),
        dxvk_path: s("/opt/dxvk/2.3"),
        runner_version: s("7.0"),
        dxvk_version: s("2.3"),
        game_icon: s("i"),
        game_background: s("b"),
        ignore_updates: false,
        skip_hash_check: false,
        use_jadeite: false,
        use_xxmi: false,
        use_fps_unlock: false,
        env_vars: s(""),
        pre_launch_command: s(""),
        launch_command: s(""),
        fps_value: s("60"),
        runner_prefix: s("/opt/prefixes/new"),
        launch_args: s(""),
    }
}

fn versions() -> Vec<GameVersion> {
    vec![GameVersion { version: s("1.0"), versioned_name: s("Game 1.0"), game_icon: s("gi"), game_background: s("gb") }]
}

#[test]
fn fresh_start_has_one_settings_row_with_default_game_path() {
    let plan = plan_migrations(&builtin_migrations(), &Vec::new()).unwrap();
    assert_eq!(plan.len(), 7);
    let mut st = RecordStore::new();
    seed_default_paths(&mut st, Some(s("/data/games")), Some(s("/data/extras/xxmi")), None, None);
    let settings = st.get_settings().unwrap();
    assert_eq!(settings.default_game_path, Some(s("/data/games")));
    assert_eq!(settings.xxmi_path, Some(s("/data/extras/xxmi")));
    assert_eq!(settings.fps_unlock_path, None);
    assert!(st.get_installs().is_none());
}

#[test]
fn create_install_then_list_returns_it() {
    let mut st = store_with_manifest();
    st.create_installation(sample_install("i1", "m1", "/tmp/a")).unwrap();
    let all = list_installs(&st).unwrap();
    assert_eq!(all.len(), 1);
    assert_eq!(all[0].directory, "/tmp/a");
}

#[test]
fn create_install_then_get_returns_equal_record() {
    let mut st = store_with_manifest();
    let rec = sample_install("i1", "m1", "/tmp/a");
    st.create_installation(rec.clone()).unwrap();
    assert_eq!(get_install_by_id(&st, s("i1")), Some(rec));
    assert_eq!(get_install_by_id(&st, s("nope")), None);
}

#[test]
fn duplicate_install_id_is_rejected() {
    let mut st = store_with_manifest();
    st.create_installation(sample_install("i1", "m1", "/tmp/a")).unwrap();
    assert_eq!(st.create_installation(sample_install("i1", "m1", "/tmp/b")), Err(StoreError::AlreadyExists));
    assert_eq!(st.get_installs().unwrap().len(), 1);
}

#[test]
fn install_of_unknown_manifest_is_rejected() {
    let mut st = store_with_manifest();
    assert_eq!(st.create_installation(sample_install("i1", "m9", "/tmp/a")), Err(StoreError::MissingReference));
}

#[test]
fn manifest_of_unknown_repository_is_rejected() {
    let mut st = RecordStore::new();
    assert_eq!(st.create_manifest(s("m1"), s("r9"), s("G"), s("m1.json"), true), Err(StoreError::MissingReference));
    st.create_repository(s("r1"), s("g")).unwrap();
    assert_eq!(st.create_repository(s("r1"), s("g2")), Err(StoreError::AlreadyExists));
}

#[test]
fn listing_an_empty_table_is_none() {
    let st = RecordStore::new();
    assert!(st.get_repositories().is_none());
    assert!(st.get_manifests_by_repository_id(s("r1")).is_none());
    assert!(st.get_installs_by_manifest_id(s("m1")).is_none());
}

#[test]
fn manifests_deleted_by_repository() {
    let mut st = store_with_manifest();
    st.create_repository(s("r2"), s("other/repo")).unwrap();
    st.create_manifest(s("m2"), s("r1"), s("G2"), s("m2.json"), false).unwrap();
    st.create_manifest(s("m3"), s("r2"), s("G3"), s("m3.json"), true).unwrap();
    assert_eq!(st.get_manifests_by_repository_id(s("r1")).unwrap().len(), 2);
    assert!(st.delete_manifest_by_repository_id(s("r1")));
    assert!(!st.delete_manifest_by_repository_id(s("r1")));
    let left: Vec<String> = st.manifests.iter().map(|m| m.id.clone()).collect();
    assert_eq!(left, vec![s("m3")]);
}

#[test]
fn delete_by_id_reports_whether_a_row_went() {
    let mut st = store_with_manifest();
    st.create_installation(sample_install("i1", "m1", "/tmp/a")).unwrap();
    assert!(st.delete_installation_by_id(s("i1")));
    assert!(!st.delete_installation_by_id(s("i1")));
    assert!(st.delete_manifest_by_id(s("m1")));
    assert!(st.delete_repository_by_id(s("r1")));
    assert!(!st.delete_repository_by_id(s("r1")));
}

#[test]
fn repository_lookups() {
    let mut st = store_with_manifest();
    st.create_repository(s("r2"), s("owner/repo")).unwrap();
    assert_eq!(st.get_repository_info_by_github_id(s("owner/repo")).unwrap().id, "r1");
    assert_eq!(st.get_repository_info_by_id(s("r2")).unwrap().github_id, "owner/repo");
    assert_eq!(st.get_repositories().unwrap().len(), 2);
}

#[test]
fn single_field_updates() {
    let mut st = store_with_manifest();
    st.create_installation(sample_install("i1", "m1", "/tmp/a")).unwrap();
    assert_eq!(update_install_use_jadeite(&mut st, s("i1"), true), Some(true));
    assert_eq!(update_install_use_jadeite(&mut st, s("zz"), true), None);
    assert!(st.update_install_by_id(s("i1"), InstallField::FpsValue(s("120"))));
    let rec = st.get_install_info_by_id(s("i1")).unwrap();
    assert!(rec.use_jadeite);
    assert_eq!(rec.fps_value, "120");
    assert_eq!(rec.directory, "/tmp/a");
    st.update_settings_third_party_repo_update(true);
    assert!(st.get_settings().unwrap().third_party_repo_updates);
}

#[test]
fn add_install_takes_name_and_art_from_game_version() {
    let mut st = store_with_manifest();
    let rsp = add_install(&mut st, s("c1"), request("m1", "1.0", "/tmp/a"), &versions()).unwrap();
    assert!(rsp.success);
    assert_eq!(rsp.install_id, "c1");
    assert_eq!(rsp.background, "gb");
    let rec = st.get_install_info_by_id(s("c1")).unwrap();
    assert_eq!(rec.manifest_id, "m1");
    assert_eq!(rec.name, "Game 1.0");
    assert_eq!(rec.game_icon, "gi");
    assert_eq!(rec.directory, "/tmp/a");
}

#[test]
fn add_install_refuses_incomplete_or_unknown() {
    let mut st = store_with_manifest();
    assert!(add_install(&mut st, s("c1"), request("m1", "1.0", ""), &versions()).is_none());
    assert!(add_install(&mut st, s("c1"), request("m9", "1.0", "/tmp/a"), &versions()).is_none());
    assert!(add_install(&mut st, s("c1"), request("m1", "9.9", "/tmp/a"), &versions()).is_none());
    assert!(st.get_installs().is_none());
}

#[test]
fn remove_install_returns_directories() {
    let mut st = store_with_manifest();
    st.create_installation(sample_install("i1", "m1", "/tmp/a")).unwrap();
    assert!(remove_install(&mut st, s(""), true).is_none());
    let gone = remove_install(&mut st, s("i1"), true).unwrap();
    assert_eq!(gone.directory, "/tmp/a");
    assert_eq!(gone.prefix, Some(s("/opt/prefixes/main")));
    assert!(st.get_installs().is_none());
    assert!(remove_install(&mut st, s("i1"), false).is_none());
}

#[test]
fn disabled_manifest_content_is_hidden() {
    let mut st = store_with_manifest();
    assert_eq!(get_game_manifest_by_filename(&st, s("m1.json"), Some(7)), Some(7));
    assert_eq!(update_manifest_enabled(&mut st, s("m1"), false), Some(true));
    assert_eq!(get_game_manifest_by_filename(&st, s("m1.json"), Some(7)), None);
    assert_eq!(get_game_manifest_by_filename::<i32>(&st, s("m1.json"), None), None);
    assert_eq!(update_manifest_enabled(&mut st, s("m9"), false), None);
}
