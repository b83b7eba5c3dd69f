use vstd::prelude::*;
use crate::records::{Install, InstallField, Manifest};
use crate::relocation::{
    DirState, RelocationLocks, RelocationStart, ResourceKind, Tool, VersionSwitch, relocation_began, switch_version,
    version_switched,
};
use crate::store::{RecordStore, first_match, install_ids, installs_updated, lookup, manifest_ids};

verus! {

/// The fields a caller supplies to create an install.
#[derive(Clone, Debug)]
pub struct InstallRequest {
    pub manifest_id: String,
    pub version: String,
    pub name: String,
    pub directory: String,
    pub runner_path: String,
    pub dxvk_path: String,
    pub runner_version: String,
    pub dxvk_version: String,
    pub game_icon: String,
    pub game_background: String,
    pub ignore_updates: bool,
    pub skip_hash_check: bool,
    pub use_jadeite: bool,
    pub use_xxmi: bool,
    pub use_fps_unlock: bool,
    pub env_vars: String,
    pub pre_launch_command: String,
    pub launch_command: String,
    pub fps_value: String,
    pub runner_prefix: String,
    pub launch_args: String,
}

/// One game version offered by a manifest's content.
#[derive(Clone, Debug)]
pub struct GameVersion {
    pub version: String,
    pub versioned_name: String,
    pub game_icon: String,
    pub game_background: String,
}

/// The answer to a successful install creation.
#[derive(Clone, Debug)]
pub struct AddInstallRsp {
    pub success: bool,
    pub install_id: String,
    pub background: String,
}

/// The directories to delete once an install record is removed.
#[derive(Clone, Debug)]
pub struct RemovedInstall {
    pub directory: String,
    pub prefix: Option<String>,
}

/// Every field that must be given is non-empty.
pub open spec fn request_complete(q: InstallRequest) -> bool {
    &&& q.manifest_id@.len() > 0
    &&& q.version@.len() > 0
    &&& q.name@.len() > 0
    &&& q.directory@.len() > 0
    &&& q.runner_path@.len() > 0
    &&& q.dxvk_path@.len() > 0
    &&& q.game_icon@.len() > 0
    &&& q.game_background@.len() > 0
}

/// The file name under which a manifest id's content is stored.
pub open spec fn manifest_file(manifest_id: Seq<char>) -> Seq<char> {
    manifest_id + ".json"@
}

/// The record created for request `q` with id `id`, manifest `m` and game
/// version `g`: name and artwork come from the game version.
pub open spec fn install_record(id: String, m: Manifest, q: InstallRequest, g: GameVersion) -> Install {
    Install {
        id,
        manifest_id: m.id,
        version: q.version,
        name: g.versioned_name,
        directory: q.directory,
        runner_path: q.runner_path,
        dxvk_path: q.dxvk_path,
        runner_version: q.runner_version,
        dxvk_version: q.dxvk_version,
        game_icon: g.game_icon,
        game_background: g.game_background,
        ignore_updates: q.ignore_updates,
        skip_hash_check: q.skip_hash_check,
        use_jadeite: q.use_jadeite,
        use_xxmi: q.use_xxmi,
        use_fps_unlock: q.use_fps_unlock,
        env_vars: q.env_vars,
        pre_launch_command: q.pre_launch_command,
        launch_command: q.launch_command,
        fps_value: q.fps_value,
        runner_prefix: q.runner_prefix,
        launch_args: q.launch_args,
    }
}

pub open spec fn filenames(s: Seq<Manifest>) -> Seq<Seq<char>> {
    s.map_values(|m: Manifest| m.filename@)
}

pub open spec fn version_names(s: Seq<GameVersion>) -> Seq<Seq<char>> {
    s.map_values(|g: GameVersion| g.version@)
}

/// Whether every field that must be given is non-empty.
pub fn request_is_complete(q: &InstallRequest) -> (r: bool)
    ensures
        r == request_complete(*q),
{
    q.manifest_id.as_str().unicode_len() > 0 && q.version.as_str().unicode_len() > 0
        && q.name.as_str().unicode_len() > 0 && q.directory.as_str().unicode_len() > 0
        && q.runner_path.as_str().unicode_len() > 0 && q.dxvk_path.as_str().unicode_len() > 0
        && q.game_icon.as_str().unicode_len() > 0 && q.game_background.as_str().unicode_len() > 0
}

/// The first game version named `version`.
pub fn find_game_version(versions: &Vec<GameVersion>, version: &String) -> (r: Option<GameVersion>)
    ensures
        first_match(versions@, version_names(versions@), version@, r),
{
    let mut i: usize = 0;
    while i < versions.len()
        invariant
            i <= versions@.len(),
            forall|j: int| 0 <= j < i ==> version_names(versions@)[j] != version@,
        decreases versions@.len() - i,
    {
        if versions[i].version == *version {
            assert(version_names(versions@)[i as int] == version@);
            let g = &versions[i];
            return Some(GameVersion {
                version: g.version.clone(),
                versioned_name: g.versioned_name.clone(),
                game_icon: g.game_icon.clone(),
                game_background: g.game_background.clone(),
            });
        }
        i = i + 1;
    }
    None
}

/// Creates an install with id `id` for the manifest whose file is
/// `<manifest_id>.json`, taking its name and artwork from the game version
/// of `game_versions` named like the requested one. `None` when a required
/// field is empty, the manifest or the version is not found, or the id is
/// taken; then nothing is stored.
pub fn add_install(store: &mut RecordStore, id: String, q: InstallRequest, game_versions: &Vec<GameVersion>) -> (r: Option<AddInstallRsp>)
    requires
        old(store).wf(),
    ensures
        final(store).wf(),
        r is Some <==> request_complete(q)
            && filenames(old(store).manifests@).contains(manifest_file(q.manifest_id@))
            && version_names(game_versions@).contains(q.version@)
            && !install_ids(old(store).installs@).contains(id@),
        r is None ==> final(store).installs == old(store).installs,
        r is Some ==> exists|m: Manifest, g: GameVersion|
            first_match(old(store).manifests@, filenames(old(store).manifests@), manifest_file(q.manifest_id@), Some(m))
            && first_match(game_versions@, version_names(game_versions@), q.version@, Some(g))
            && final(store).installs@ == old(store).installs@.push(install_record(id, m, q, g))
            && r->Some_0.success
            && r->Some_0.install_id == id
            && r->Some_0.background == g.game_background,
        final(store).repositories == old(store).repositories,
        final(store).manifests == old(store).manifests,
        final(store).settings == old(store).settings,
{
    if !request_is_complete(&q) {
        return None;
    }
    let mut file = q.manifest_id.clone();
    file.append(".json");
    assert(filenames(store.manifests@) =~= store.manifests@.map_values(|x: Manifest| x.filename@));
    let m = match store.get_manifest_info_by_filename(file) {
        None => { return None; },
        Some(m) => m,
    };
    let g = match find_game_version(game_versions, &q.version) {
        None => { return None; },
        Some(g) => g,
    };
    proof {
        let k = choose|i: int| 0 <= i < old(store).manifests@.len() && filenames(old(store).manifests@)[i] == manifest_file(q.manifest_id@)
            && m == old(store).manifests@[i] && forall|j: int| 0 <= j < i ==> filenames(old(store).manifests@)[j] != manifest_file(q.manifest_id@);
        assert(manifest_ids(old(store).manifests@)[k] == m.id@);
    }
    let ghost q0 = q;
    let ghost m0 = m;
    let ghost g0 = g;
    let ghost id0 = id;
    let background = g.game_background.clone();
    let record = Install {
        id: id.clone(),
        manifest_id: m.id,
        version: q.version,
        name: g.versioned_name,
        directory: q.directory,
        runner_path: q.runner_path,
        dxvk_path: q.dxvk_path,
        runner_version: q.runner_version,
        dxvk_version: q.dxvk_version,
        game_icon: g.game_icon,
        game_background: g.game_background,
        ignore_updates: q.ignore_updates,
        skip_hash_check: q.skip_hash_check,
        use_jadeite: q.use_jadeite,
        use_xxmi: q.use_xxmi,
        use_fps_unlock: q.use_fps_unlock,
        env_vars: q.env_vars,
        pre_launch_command: q.pre_launch_command,
        launch_command: q.launch_command,
        fps_value: q.fps_value,
        runner_prefix: q.runner_prefix,
        launch_args: q.launch_args,
    };
    assert(record == install_record(id0, m0, q0, g0));
    match store.create_installation(record) {
        Err(_) => None,
        Ok(()) => {
            assert(first_match(old(store).manifests@, filenames(old(store).manifests@), manifest_file(q0.manifest_id@), Some(m0)));
            assert(first_match(game_versions@, version_names(game_versions@), q0.version@, Some(g0)));
            let rsp = AddInstallRsp { success: true, install_id: id, background };
            assert(final(store).installs@ == old(store).installs@.push(install_record(id0, m0, q0, g0)));
            assert(rsp.background == g0.game_background);
            Some(rsp)
        },
    }
}

/// The answer of a single-field update: `Some(true)` when the install
/// exists (and was updated), `None` otherwise.
pub open spec fn updated_answer(found: bool, r: Option<bool>) -> bool {
    r == if found { Some(true) } else { None::<bool> }
}

fn update_field(store: &mut RecordStore, id: String, f: InstallField) -> (r: Option<bool>)
    requires
        old(store).wf(),
    ensures
        final(store).wf(),
        updated_answer(install_ids(old(store).installs@).contains(id@), r),
        final(store).installs@ == installs_updated(old(store).installs@, id@, f),
        final(store).repositories == old(store).repositories,
        final(store).manifests == old(store).manifests,
        final(store).settings == old(store).settings,
{
    if store.update_install_by_id(id, f) {
        Some(true)
    } else {
        None
    }
}

/// Every install, or `None` when there is none.
pub fn list_installs(store: &RecordStore) -> (r: Option<Vec<Install>>)
    ensures
        crate::store::listing(store.installs@, r),
{
    store.get_installs()
}

pub fn list_installs_by_manifest_id(store: &RecordStore, manifest_id: String) -> (r: Option<Vec<Install>>)
    ensures
        crate::store::listing(crate::store::installs_of_manifest(store.installs@, manifest_id@), r),
{
    store.get_installs_by_manifest_id(manifest_id)
}

pub fn get_install_by_id(store: &RecordStore, id: String) -> (r: Option<Install>)
    ensures
        lookup(store.installs@, install_ids(store.installs@), id@, r),
{
    store.get_install_info_by_id(id)
}

/// Removes the install record `id` and returns the directories to delete:
/// its game directory, and its prefix when `wipe_prefix`. `None` when `id`
/// is empty or unknown.
pub fn remove_install(store: &mut RecordStore, id: String, wipe_prefix: bool) -> (r: Option<RemovedInstall>)
    requires
        old(store).wf(),
    ensures
        final(store).wf(),
        r is Some <==> id@.len() > 0 && install_ids(old(store).installs@).contains(id@),
        r is None ==> final(store).installs == old(store).installs,
        r is Some ==> exists|i: int| 0 <= i < old(store).installs@.len() && old(store).installs@[i].id@ == id@
            && final(store).installs@ == old(store).installs@.remove(i)
            && r->Some_0.directory == old(store).installs@[i].directory
            && r->Some_0.prefix == if wipe_prefix { Some(old(store).installs@[i].runner_prefix) } else { None::<String> },
        final(store).repositories == old(store).repositories,
        final(store).manifests == old(store).manifests,
        final(store).settings == old(store).settings,
{
    if id.as_str().unicode_len() == 0 {
        return None;
    }
    let install = match store.get_install_info_by_id(id.clone()) {
        None => { return None; },
        Some(i) => i,
    };
    store.delete_installation_by_id(id);
    proof {
        let k = choose|k: int| 0 <= k < old(store).installs@.len() && install_ids(old(store).installs@)[k] == id@
            && install == old(store).installs@[k];
        let j = choose|j: int| 0 <= j < old(store).installs@.len() && install_ids(old(store).installs@)[j] == id@
            && final(store).installs@ == old(store).installs@.remove(j);
        assert(k == j);
    }
    let prefix = if wipe_prefix { Some(install.runner_prefix) } else { None };
    Some(RemovedInstall { directory: install.directory, prefix })
}

/// Requests a move of the install's game directory to `path`.
pub fn update_install_game_path(
    locks: &mut RelocationLocks,
    store: &mut RecordStore,
    id: String,
    path: String,
    source: DirState,
    dest: DirState,
) -> (r: RelocationStart)
    requires
        old(store).wf(),
    ensures
        final(store).wf(),
        relocation_began(
            old(locks).held@,
            final(locks).held@,
            old(store).installs@,
            final(store).installs@,
            id@,
            ResourceKind::Game,
            path,
            source,
            dest,
            r,
        ),
        final(store).repositories == old(store).repositories,
        final(store).manifests == old(store).manifests,
        final(store).settings == old(store).settings,
{
    locks.begin_relocation(store, id, ResourceKind::Game, path, source, dest)
}

/// Requests a move of the install's runner directory to `path`.
pub fn update_install_runner_path(
    locks: &mut RelocationLocks,
    store: &mut RecordStore,
    id: String,
    path: String,
    source: DirState,
    dest: DirState,
) -> (r: RelocationStart)
    requires
        old(store).wf(),
    ensures
        final(store).wf(),
        relocation_began(
            old(locks).held@,
            final(locks).held@,
            old(store).installs@,
            final(store).installs@,
            id@,
            ResourceKind::Runner,
            path,
            source,
            dest,
            r,
        ),
        final(store).repositories == old(store).repositories,
        final(store).manifests == old(store).manifests,
        final(store).settings == old(store).settings,
{
    locks.begin_relocation(store, id, ResourceKind::Runner, path, source, dest)
}

/// Requests a move of the install's translation-layer directory to `path`.
pub fn update_install_dxvk_path(
    locks: &mut RelocationLocks,
    store: &mut RecordStore,
    id: String,
    path: String,
    source: DirState,
    dest: DirState,
) -> (r: RelocationStart)
    requires
        old(store).wf(),
    ensures
        final(store).wf(),
        relocation_began(
            old(locks).held@,
            final(locks).held@,
            old(store).installs@,
            final(store).installs@,
            id@,
            ResourceKind::TranslationLayer,
            path,
            source,
            dest,
            r,
        ),
        final(store).repositories == old(store).repositories,
        final(store).manifests == old(store).manifests,
        final(store).settings == old(store).settings,
{
    locks.begin_relocation(store, id, ResourceKind::TranslationLayer, path, source, dest)
}

/// Requests a move of the install's prefix directory to `path`.
pub fn update_install_prefix_path(
    locks: &mut RelocationLocks,
    store: &mut RecordStore,
    id: String,
    path: String,
    source: DirState,
    dest: DirState,
) -> (r: RelocationStart)
    requires
        old(store).wf(),
    ensures
        final(store).wf(),
        relocation_began(
            old(locks).held@,
            final(locks).held@,
            old(store).installs@,
            final(store).installs@,
            id@,
            ResourceKind::Prefix,
            path,
            source,
            dest,
            r,
        ),
        final(store).repositories == old(store).repositories,
        final(store).manifests == old(store).manifests,
        final(store).settings == old(store).settings,
{
    locks.begin_relocation(store, id, ResourceKind::Prefix, path, source, dest)
}

pub fn update_install_skip_version_updates(store: &mut RecordStore, id: String, enabled: bool) -> (r: Option<bool>)
    requires
        old(store).wf(),
    ensures
        final(store).wf(),
        updated_answer(install_ids(old(store).installs@).contains(id@), r),
        final(store).installs@ == installs_updated(old(store).installs@, id@, InstallField::IgnoreUpdates(enabled)),
{
    update_field(store, id, InstallField::IgnoreUpdates(enabled))
}

pub fn update_install_skip_hash_valid(store: &mut RecordStore, id: String, enabled: bool) -> (r: Option<bool>)
    requires
        old(store).wf(),
    ensures
        final(store).wf(),
        updated_answer(install_ids(old(store).installs@).contains(id@), r),
        final(store).installs@ == installs_updated(old(store).installs@, id@, InstallField::SkipHashCheck(enabled)),
{
    update_field(store, id, InstallField::SkipHashCheck(enabled))
}

pub fn update_install_use_jadeite(store: &mut RecordStore, id: String, enabled: bool) -> (r: Option<bool>)
    requires
        old(store).wf(),
    ensures
        final(store).wf(),
        updated_answer(install_ids(old(store).installs@).contains(id@), r),
        final(store).installs@ == installs_updated(old(store).installs@, id@, InstallField::UseJadeite(enabled)),
{
    update_field(store, id, InstallField::UseJadeite(enabled))
}

pub fn update_install_use_xxmi(store: &mut RecordStore, id: String, enabled: bool) -> (r: Option<bool>)
    requires
        old(store).wf(),
    ensures
        final(store).wf(),
        updated_answer(install_ids(old(store).installs@).contains(id@), r),
        final(store).installs@ == installs_updated(old(store).installs@, id@, InstallField::UseXxmi(enabled)),
{
    update_field(store, id, InstallField::UseXxmi(enabled))
}

pub fn update_install_use_fps_unlock(store: &mut RecordStore, id: String, enabled: bool) -> (r: Option<bool>)
    requires
        old(store).wf(),
    ensures
        final(store).wf(),
        updated_answer(install_ids(old(store).installs@).contains(id@), r),
        final(store).installs@ == installs_updated(old(store).installs@, id@, InstallField::UseFpsUnlock(enabled)),
{
    update_field(store, id, InstallField::UseFpsUnlock(enabled))
}

pub fn update_install_fps_value(store: &mut RecordStore, id: String, fps: String) -> (r: Option<bool>)
    requires
        old(store).wf(),
    ensures
        final(store).wf(),
        updated_answer(install_ids(old(store).installs@).contains(id@), r),
        final(store).installs@ == installs_updated(old(store).installs@, id@, InstallField::FpsValue(fps)),
{
    update_field(store, id, InstallField::FpsValue(fps))
}

pub fn update_install_env_vars(store: &mut RecordStore, id: String, env_vars: String) -> (r: Option<bool>)
    requires
        old(store).wf(),
    ensures
        final(store).wf(),
        updated_answer(install_ids(old(store).installs@).contains(id@), r),
        final(store).installs@ == installs_updated(old(store).installs@, id@, InstallField::EnvVars(env_vars)),
{
    update_field(store, id, InstallField::EnvVars(env_vars))
}

pub fn update_install_pre_launch_cmd(store: &mut RecordStore, id: String, cmd: String) -> (r: Option<bool>)
    requires
        old(store).wf(),
    ensures
        final(store).wf(),
        updated_answer(install_ids(old(store).installs@).contains(id@), r),
        final(store).installs@ == installs_updated(old(store).installs@, id@, InstallField::PreLaunchCommand(cmd)),
{
    update_field(store, id, InstallField::PreLaunchCommand(cmd))
}

pub fn update_install_launch_cmd(store: &mut RecordStore, id: String, cmd: String) -> (r: Option<bool>)
    requires
        old(store).wf(),
    ensures
        final(store).wf(),
        updated_answer(install_ids(old(store).installs@).contains(id@), r),
        final(store).installs@ == installs_updated(old(store).installs@, id@, InstallField::LaunchCommand(cmd)),
{
    update_field(store, id, InstallField::LaunchCommand(cmd))
}

pub fn update_install_launch_args(store: &mut RecordStore, id: String, args: String) -> (r: Option<bool>)
    requires
        old(store).wf(),
    ensures
        final(store).wf(),
        updated_answer(install_ids(old(store).installs@).contains(id@), r),
        final(store).installs@ == installs_updated(old(store).installs@, id@, InstallField::LaunchArgs(args)),
{
    update_field(store, id, InstallField::LaunchArgs(args))
}

/// Switches the install's runner to `version`; see `switch_version`.
pub fn update_install_runner_version(store: &mut RecordStore, id: String, version: String) -> (r: Option<VersionSwitch>)
    requires
        old(store).wf(),
    ensures
        final(store).wf(),
        version_switched(old(store).installs@, final(store).installs@, id@, Tool::Runner, version, r),
        final(store).repositories == old(store).repositories,
        final(store).manifests == old(store).manifests,
        final(store).settings == old(store).settings,
{
    switch_version(store, id, Tool::Runner, version)
}

/// Switches the install's translation layer to `version`; see `switch_version`.
pub fn update_install_dxvk_version(store: &mut RecordStore, id: String, version: String) -> (r: Option<VersionSwitch>)
    requires
        old(store).wf(),
    ensures
        final(store).wf(),
        version_switched(old(store).installs@, final(store).installs@, id@, Tool::TranslationLayer, version, r),
        final(store).repositories == old(store).repositories,
        final(store).manifests == old(store).manifests,
        final(store).settings == old(store).settings,
{
    switch_version(store, id, Tool::TranslationLayer, version)
}

// === MANIFESTS ===

pub fn get_manifest_by_id(store: &RecordStore, id: String) -> (r: Option<Manifest>)
    ensures
        lookup(store.manifests@, manifest_ids(store.manifests@), id@, r),
{
    store.get_manifest_info_by_id(id)
}

pub fn get_manifest_by_filename(store: &RecordStore, filename: String) -> (r: Option<Manifest>)
    ensures
        first_match(store.manifests@, store.manifests@.map_values(|x: Manifest| x.filename@), filename@, r),
{
    store.get_manifest_info_by_filename(filename)
}

pub fn list_manifests_by_repository_id(store: &RecordStore, repository_id: String) -> (r: Option<Vec<Manifest>>)
    ensures
        crate::store::listing(crate::store::manifests_of_repository(store.manifests@, repository_id@), r),
{
    store.get_manifests_by_repository_id(repository_id)
}

/// The content of the manifest file `filename`, handed out only when the
/// first manifest record with that file name exists and is enabled.
pub fn get_game_manifest_by_filename<T>(store: &RecordStore, filename: String, content: Option<T>) -> (r: Option<T>)
    ensures
        r is Some <==> content is Some && exists|m: Manifest|
            first_match(store.manifests@, store.manifests@.map_values(|x: Manifest| x.filename@), filename@, Some(m)) && m.enabled,
        r is Some ==> r == content,
{
    let found = store.get_manifest_info_by_filename(filename);
    match (found, content) {
        (Some(m), Some(c)) => {
            if m.enabled {
                Some(c)
            } else {
                None
            }
        },
        _ => None,
    }
}

/// Sets whether manifest `id` is enabled: `Some(true)` when it exists,
/// `None` otherwise.
pub fn update_manifest_enabled(store: &mut RecordStore, id: String, enabled: bool) -> (r: Option<bool>)
    requires
        old(store).wf(),
    ensures
        final(store).wf(),
        updated_answer(manifest_ids(old(store).manifests@).contains(id@), r),
        r is Some ==> exists|i: int| 0 <= i < old(store).manifests@.len() && old(store).manifests@[i].id@ == id@
            && final(store).manifests@ == old(store).manifests@.update(i, Manifest { enabled, ..old(store).manifests@[i] }),
        r is None ==> final(store).manifests == old(store).manifests,
{
    if store.update_manifest_enabled_by_id(id, enabled) {
        Some(true)
    } else {
        None
    }
}

// === SETTINGS ===

/// Records in the settings row the default directories that were just
/// created (`Some`); the others keep their stored paths.
pub fn seed_default_paths(
    store: &mut RecordStore,
    games: Option<String>,
    xxmi: Option<String>,
    fps_unlock: Option<String>,
    jadeite: Option<String>,
)
    ensures
        final(store).settings.default_game_path == if games is Some { games } else { old(store).settings.default_game_path },
        final(store).settings.xxmi_path == if xxmi is Some { xxmi } else { old(store).settings.xxmi_path },
        final(store).settings.fps_unlock_path == if fps_unlock is Some { fps_unlock } else { old(store).settings.fps_unlock_path },
        final(store).settings.jadeite_path == if jadeite is Some { jadeite } else { old(store).settings.jadeite_path },
        final(store).settings.third_party_repo_updates == old(store).settings.third_party_repo_updates,
        final(store).repositories == old(store).repositories,
        final(store).manifests == old(store).manifests,
        final(store).installs == old(store).installs,
{
    if let Some(p) = games {
        store.update_settings_default_game_location(p);
    }
    if let Some(p) = xxmi {
        store.update_settings_default_xxmi_location(p);
    }
    if let Some(p) = fps_unlock {
        store.update_settings_default_fps_unlock_location(p);
    }
    if let Some(p) = jadeite {
        store.update_settings_default_jadeite_location(p);
    }
}

} // verus!
