use vstd::prelude::*;

verus! {

/// A source of manifests.
#[derive(Clone, Debug, PartialEq, Eq)]
pub struct Repository {
    pub id: String,
    pub github_id: String,
}

/// Metadata of a game offered by a repository.
#[derive(Clone, Debug, PartialEq, Eq)]
pub struct Manifest {
    pub id: String,
    pub repository_id: String,
    pub display_name: String,
    pub filename: String,
    pub enabled: bool,
}

/// One configured, launchable copy of a game with its compatibility settings.
#[derive(Clone, Debug, PartialEq, Eq)]
pub struct Install {
    pub id: String,
    pub manifest_id: String,
    pub version: String,
    pub name: String,
    pub directory: String,
    pub runner_path: String,
    pub dxvk_path: String,
    pub runner_version: String,
    pub dxvk_version: String,
    pub game_icon: String,
    pub game_background: String,
    pub ignore_updates: bool,
    pub skip_hash_check: bool,
    pub use_jadeite: bool,
    pub use_xxmi: bool,
    pub use_fps_unlock: bool,
    pub env_vars: String,
    pub pre_launch_command: String,
    pub launch_command: String,
    pub fps_value: String,
    pub runner_prefix: String,
    pub launch_args: String,
}

/// The global defaults; there is exactly one such row.
#[derive(Clone, Debug, PartialEq, Eq)]
pub struct Settings {
    pub default_game_path: Option<String>,
    pub xxmi_path: Option<String>,
    pub fps_unlock_path: Option<String>,
    pub jadeite_path: Option<String>,
    pub third_party_repo_updates: bool,
}

/// One field of an install with its new value.
#[derive(Clone, Debug)]
pub enum InstallField {
    GameLocation(String),
    RunnerLocation(String),
    DxvkLocation(String),
    PrefixLocation(String),
    RunnerVersion(String),
    DxvkVersion(String),
    IgnoreUpdates(bool),
    SkipHashCheck(bool),
    UseJadeite(bool),
    UseXxmi(bool),
    UseFpsUnlock(bool),
    EnvVars(String),
    PreLaunchCommand(String),
    LaunchCommand(String),
    FpsValue(String),
    LaunchArgs(String),
}

/// `i` with the field named by `f` set to its value.
pub open spec fn with_field(i: Install, f: InstallField) -> Install {
    match f {
        InstallField::GameLocation(v) => Install { directory: v, ..i },
        InstallField::RunnerLocation(v) => Install { runner_path: v, ..i },
        InstallField::DxvkLocation(v) => Install { dxvk_path: v, ..i },
        InstallField::PrefixLocation(v) => Install { runner_prefix: v, ..i },
        InstallField::RunnerVersion(v) => Install { runner_version: v, ..i },
        InstallField::DxvkVersion(v) => Install { dxvk_version: v, ..i },
        InstallField::IgnoreUpdates(b) => Install { ignore_updates: b, ..i },
        InstallField::SkipHashCheck(b) => Install { skip_hash_check: b, ..i },
        InstallField::UseJadeite(b) => Install { use_jadeite: b, ..i },
        InstallField::UseXxmi(b) => Install { use_xxmi: b, ..i },
        InstallField::UseFpsUnlock(b) => Install { use_fps_unlock: b, ..i },
        InstallField::EnvVars(v) => Install { env_vars: v, ..i },
        InstallField::PreLaunchCommand(v) => Install { pre_launch_command: v, ..i },
        InstallField::LaunchCommand(v) => Install { launch_command: v, ..i },
        InstallField::FpsValue(v) => Install { fps_value: v, ..i },
        InstallField::LaunchArgs(v) => Install { launch_args: v, ..i },
    }
}

/// An exact copy of an optional string.
pub fn copy_opt(s: &Option<String>) -> (r: Option<String>)
    ensures
        r == *s,
{
    match s {
        Some(v) => Some(v.clone()),
        None => None,
    }
}

impl Repository {
    /// An exact copy of this record.
    pub fn duplicate(&self) -> (r: Repository)
        ensures
            r == *self,
    {
        Repository { id: self.id.clone(), github_id: self.github_id.clone() }
    }
}

impl Manifest {
    /// An exact copy of this record.
    pub fn duplicate(&self) -> (r: Manifest)
        ensures
            r == *self,
    {
        Manifest {
            id: self.id.clone(),
            repository_id: self.repository_id.clone(),
            display_name: self.display_name.clone(),
            filename: self.filename.clone(),
            enabled: self.enabled,
        }
    }
}

impl Settings {
    /// The settings row as the first migration leaves it: no paths, no
    /// third-party updates.
    pub open spec fn initial_spec() -> Settings {
        Settings {
            default_game_path: None,
            xxmi_path: None,
            fps_unlock_path: None,
            jadeite_path: None,
            third_party_repo_updates: false,
        }
    }

    /// The settings row as the first migration leaves it.
    #[verifier::when_used_as_spec(initial_spec)]
    pub fn initial() -> (r: Settings)
        ensures
            r == Settings::initial_spec(),
    {
        Settings {
            default_game_path: None,
            xxmi_path: None,
            fps_unlock_path: None,
            jadeite_path: None,
            third_party_repo_updates: false,
        }
    }

    /// An exact copy of this record.
    pub fn duplicate(&self) -> (r: Settings)
        ensures
            r == *self,
    {
        Settings {
            default_game_path: copy_opt(&self.default_game_path),
            xxmi_path: copy_opt(&self.xxmi_path),
            fps_unlock_path: copy_opt(&self.fps_unlock_path),
            jadeite_path: copy_opt(&self.jadeite_path),
            third_party_repo_updates: self.third_party_repo_updates,
        }
    }
}

impl Install {
    /// An exact copy of this record.
    pub fn duplicate(&self) -> (r: Install)
        ensures
            r == *self,
    {
        Install {
            id: self.id.clone(),
            manifest_id: self.manifest_id.clone(),
            version: self.version.clone(),
            name: self.name.clone(),
            directory: self.directory.clone(),
            runner_path: self.runner_path.clone(),
            dxvk_path: self.dxvk_path.clone(),
            runner_version: self.runner_version.clone(),
            dxvk_version: self.dxvk_version.clone(),
            game_icon: self.game_icon.clone(),
            game_background: self.game_background.clone(),
            ignore_updates: self.ignore_updates,
            skip_hash_check: self.skip_hash_check,
            use_jadeite: self.use_jadeite,
            use_xxmi: self.use_xxmi,
            use_fps_unlock: self.use_fps_unlock,
            env_vars: self.env_vars.clone(),
            pre_launch_command: self.pre_launch_command.clone(),
            launch_command: self.launch_command.clone(),
            fps_value: self.fps_value.clone(),
            runner_prefix: self.runner_prefix.clone(),
            launch_args: self.launch_args.clone(),
        }
    }

    /// Sets the field named by `f` to its value.
    pub fn set_field(&mut self, f: InstallField)
        ensures
            *final(self) == with_field(*old(self), f),
    {
        match f {
            InstallField::GameLocation(v) => { self.directory = v; },
            InstallField::RunnerLocation(v) => { self.runner_path = v; },
            InstallField::DxvkLocation(v) => { self.dxvk_path = v; },
            InstallField::PrefixLocation(v) => { self.runner_prefix = v; },
            InstallField::RunnerVersion(v) => { self.runner_version = v; },
            InstallField::DxvkVersion(v) => { self.dxvk_version = v; },
            InstallField::IgnoreUpdates(b) => { self.ignore_updates = b; },
            InstallField::SkipHashCheck(b) => { self.skip_hash_check = b; },
            InstallField::UseJadeite(b) => { self.use_jadeite = b; },
            InstallField::UseXxmi(b) => { self.use_xxmi = b; },
            InstallField::UseFpsUnlock(b) => { self.use_fps_unlock = b; },
            InstallField::EnvVars(v) => { self.env_vars = v; },
            InstallField::PreLaunchCommand(v) => { self.pre_launch_command = v; },
            InstallField::LaunchCommand(v) => { self.launch_command = v; },
            InstallField::FpsValue(v) => { self.fps_value = v; },
            InstallField::LaunchArgs(v) => { self.launch_args = v; },
        }
    }
}

} // verus!
