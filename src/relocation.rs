use vstd::prelude::*;
use crate::records::{Install, InstallField, with_field};
use crate::store::{RecordStore, install_ids, installs_updated, keep};
use crate::text::{occurs, replace_all, replace_token};

verus! {

/// A directory tree of an install that can be moved on its own.
#[derive(Clone, Copy, Debug, PartialEq, Eq, Structural)]
pub enum ResourceKind {
    Game,
    Runner,
    TranslationLayer,
    Prefix,
}

/// What a directory holds when a move is requested.
#[derive(Clone, Copy, Debug, PartialEq, Eq, Structural)]
pub enum DirState {
    Missing,
    Empty,
    NonEmpty,
}

/// A move that may proceed: its lock is held until `finish_relocation`.
#[derive(Debug)]
pub struct RelocationTicket {
    pub install_id: String,
    pub install_name: String,
    pub kind: ResourceKind,
    pub source: String,
    pub destination: String,
}

/// The answer to a move request.
#[derive(Debug)]
pub enum RelocationStart {
    /// No install has that id.
    NotFound,
    /// A move of that install's resource is already in flight.
    Busy,
    /// The destination holds files: nothing is copied or changed.
    DestinationOccupied,
    /// The source is missing or empty: nothing is copied and the stored
    /// path now names the destination.
    NothingToMove,
    /// Copy `source` into `destination`, then report the outcome.
    Copy(RelocationTicket),
}

#[derive(Clone, Copy, Debug, PartialEq, Eq, Structural)]
pub enum MoveStatus {
    Completed,
    Failed,
}

/// The notification sent when a move has ended.
#[derive(Debug)]
pub struct MoveNotice {
    pub install_name: String,
    pub install_type: String,
    pub status: MoveStatus,
}

/// An install and resource kind whose move is in flight.
#[derive(Debug)]
pub struct RelocationKey {
    pub install_id: String,
    pub kind: ResourceKind,
}

/// The moves in flight, at most one per install and resource kind.
#[derive(Debug)]
pub struct RelocationLocks {
    pub held: Vec<RelocationKey>,
}

/// A compatibility tool whose version can be switched.
#[derive(Clone, Copy, Debug, PartialEq, Eq, Structural)]
pub enum Tool {
    Runner,
    TranslationLayer,
}

/// The outcome of a version switch: the derived path, and whether the old
/// version token occurred in the stored path (if not, the path is unchanged).
#[derive(Debug)]
pub struct VersionSwitch {
    pub path: String,
    pub token_found: bool,
}

/// The stored path of resource `k` of install `i`.
pub open spec fn path_of(i: Install, k: ResourceKind) -> String {
    match k {
        ResourceKind::Game => i.directory,
        ResourceKind::Runner => i.runner_path,
        ResourceKind::TranslationLayer => i.dxvk_path,
        ResourceKind::Prefix => i.runner_prefix,
    }
}

/// The update that stores `p` as the path of resource `k`.
pub open spec fn location_field(k: ResourceKind, p: String) -> InstallField {
    match k {
        ResourceKind::Game => InstallField::GameLocation(p),
        ResourceKind::Runner => InstallField::RunnerLocation(p),
        ResourceKind::TranslationLayer => InstallField::DxvkLocation(p),
        ResourceKind::Prefix => InstallField::PrefixLocation(p),
    }
}

pub open spec fn kind_label(k: ResourceKind) -> Seq<char> {
    match k {
        ResourceKind::Game => "Game"@,
        ResourceKind::Runner => "Runner"@,
        ResourceKind::TranslationLayer => "DXVK"@,
        ResourceKind::Prefix => "Prefix"@,
    }
}

pub open spec fn held_keys(l: Seq<RelocationKey>) -> Seq<(Seq<char>, ResourceKind)> {
    l.map_values(|k: RelocationKey| (k.install_id@, k.kind))
}

pub open spec fn is_held(l: Seq<RelocationKey>, id: Seq<char>, k: ResourceKind) -> bool {
    held_keys(l).contains((id, k))
}

/// The locks other than the one of `id` and `k`.
pub open spec fn released(l: Seq<RelocationKey>, id: Seq<char>, k: ResourceKind) -> Seq<RelocationKey> {
    keep(l, |x: RelocationKey| !(x.install_id@ == id && x.kind == k))
}

pub open spec fn tool_path(i: Install, t: Tool) -> String {
    match t {
        Tool::Runner => i.runner_path,
        Tool::TranslationLayer => i.dxvk_path,
    }
}

pub open spec fn tool_version(i: Install, t: Tool) -> String {
    match t {
        Tool::Runner => i.runner_version,
        Tool::TranslationLayer => i.dxvk_version,
    }
}

pub open spec fn version_field(t: Tool, v: String) -> InstallField {
    match t {
        Tool::Runner => InstallField::RunnerVersion(v),
        Tool::TranslationLayer => InstallField::DxvkVersion(v),
    }
}

pub open spec fn tool_location_field(t: Tool, p: String) -> InstallField {
    match t {
        Tool::Runner => InstallField::RunnerLocation(p),
        Tool::TranslationLayer => InstallField::DxvkLocation(p),
    }
}

/// The contract of a move request for resource `kind` of install `id` to
/// `destination`: `held`/`held2` are the locks before and after, `s`/`s2`
/// the installs before and after.
pub open spec fn relocation_began(
    held: Seq<RelocationKey>,
    held2: Seq<RelocationKey>,
    s: Seq<Install>,
    s2: Seq<Install>,
    id: Seq<char>,
    kind: ResourceKind,
    destination: String,
    source: DirState,
    dest: DirState,
    r: RelocationStart,
) -> bool {
    let found = install_ids(s).contains(id);
    let free = !is_held(held, id, kind);
    &&& !found ==> r is NotFound
    &&& found && !free ==> r is Busy
    &&& found && free && dest == DirState::NonEmpty ==> r is DestinationOccupied
    &&& found && free && dest != DirState::NonEmpty && source != DirState::NonEmpty ==> r is NothingToMove
    &&& found && free && dest != DirState::NonEmpty && source == DirState::NonEmpty ==> r is Copy
    &&& r is Copy ==> {
        let t = r->Copy_0;
        &&& held2 == held.push(RelocationKey { install_id: t.install_id, kind })
        &&& t.install_id@ == id
        &&& t.kind == kind
        &&& t.destination == destination
        &&& exists|i: int| 0 <= i < s.len() && s[i].id@ == id
            && t.source == path_of(s[i], kind) && t.install_name == s[i].name
    }
    &&& !(r is Copy) ==> held2 == held
    &&& r is NothingToMove ==> s2 == installs_updated(s, id, location_field(kind, destination))
    &&& !(r is NothingToMove) ==> s2 == s
}

/// The contract of switching `tool` of install `id` to `new_version`: `s`
/// and `s2` are the installs before and after.
pub open spec fn version_switched(s: Seq<Install>, s2: Seq<Install>, id: Seq<char>, tool: Tool, new_version: String, r: Option<VersionSwitch>) -> bool {
    &&& r is Some <==> install_ids(s).contains(id)
    &&& r is None ==> s2 == s
    &&& r is Some ==> exists|i: int| 0 <= i < s.len() && s[i].id@ == id && {
        let old_path = tool_path(s[i], tool)@;
        let old_version = tool_version(s[i], tool)@;
        &&& r->Some_0.path@ == replace_all(old_path, old_version, new_version@)
        &&& r->Some_0.token_found == occurs(old_path, old_version)
        &&& s2 == installs_updated(
            installs_updated(s, id, version_field(tool, new_version)),
            id,
            tool_location_field(tool, r->Some_0.path),
        )
    }
}

impl ResourceKind {
    /// The name of the kind in notifications.
    pub fn label(&self) -> (r: &'static str)
        ensures
            r@ == kind_label(*self),
    {
        match self {
            ResourceKind::Game => "Game",
            ResourceKind::Runner => "Runner",
            ResourceKind::TranslationLayer => "DXVK",
            ResourceKind::Prefix => "Prefix",
        }
    }

    /// The update that stores `path` as this resource's path.
    pub fn location(&self, path: String) -> (r: InstallField)
        ensures
            r == location_field(*self, path),
    {
        match self {
            ResourceKind::Game => InstallField::GameLocation(path),
            ResourceKind::Runner => InstallField::RunnerLocation(path),
            ResourceKind::TranslationLayer => InstallField::DxvkLocation(path),
            ResourceKind::Prefix => InstallField::PrefixLocation(path),
        }
    }

    /// The stored path of this resource of `i`.
    pub fn current_path(&self, i: &Install) -> (r: String)
        ensures
            r == path_of(*i, *self),
    {
        match self {
            ResourceKind::Game => i.directory.clone(),
            ResourceKind::Runner => i.runner_path.clone(),
            ResourceKind::TranslationLayer => i.dxvk_path.clone(),
            ResourceKind::Prefix => i.runner_prefix.clone(),
        }
    }
}

/// Storing a relocated path sets that resource's path to the destination
/// and leaves the other resources' paths as they were.
pub proof fn lemma_relocated_path(i: Install, k: ResourceKind, other: ResourceKind, destination: String)
    ensures
        path_of(with_field(i, location_field(k, destination)), k) == destination,
        other != k ==> path_of(with_field(i, location_field(k, destination)), other) == path_of(i, other),
        with_field(i, location_field(k, destination)).id == i.id,
{
}

impl RelocationLocks {
    pub fn new() -> (r: RelocationLocks)
        ensures
            r.held@.len() == 0,
    {
        RelocationLocks { held: Vec::new() }
    }

    /// Whether a move of resource `kind` of install `id` is in flight.
    pub fn is_locked(&self, id: &String, kind: ResourceKind) -> (r: bool)
        ensures
            r == is_held(self.held@, id@, kind),
    {
        let mut i: usize = 0;
        while i < self.held.len()
            invariant
                i <= self.held@.len(),
                forall|j: int| 0 <= j < i ==> held_keys(self.held@)[j] != (id@, kind),
            decreases self.held@.len() - i,
        {
            if self.held[i].kind == kind && self.held[i].install_id == *id {
                assert(held_keys(self.held@)[i as int] == (id@, kind));
                return true;
            }
            i = i + 1;
        }
        false
    }

    /// Decides a move of resource `kind` of install `install_id` to
    /// `destination`, given what the source and destination directories hold.
    pub fn begin_relocation(
        &mut self,
        store: &mut RecordStore,
        install_id: String,
        kind: ResourceKind,
        destination: String,
        source: DirState,
        dest: DirState,
    ) -> (r: RelocationStart)
        requires
            old(store).wf(),
        ensures
            final(store).wf(),
            relocation_began(
                old(self).held@,
                final(self).held@,
                old(store).installs@,
                final(store).installs@,
                install_id@,
                kind,
                destination,
                source,
                dest,
                r,
            ),
            final(store).repositories == old(store).repositories,
            final(store).manifests == old(store).manifests,
            final(store).settings == old(store).settings,
    {
        let found = store.get_install_info_by_id(install_id.clone());
        let install = match found {
            None => { return RelocationStart::NotFound; },
            Some(i) => i,
        };
        if self.is_locked(&install_id, kind) {
            return RelocationStart::Busy;
        }
        if dest == DirState::NonEmpty {
            return RelocationStart::DestinationOccupied;
        }
        if source != DirState::NonEmpty {
            store.update_install_by_id(install_id, kind.location(destination));
            return RelocationStart::NothingToMove;
        }
        self.held.push(RelocationKey { install_id: install_id.clone(), kind });
        RelocationStart::Copy(RelocationTicket {
            install_id,
            install_name: install.name.clone(),
            kind,
            source: kind.current_path(&install),
            destination,
        })
    }

    /// Ends the move of `ticket`: releases its lock, stores the destination
    /// as the resource's path only when the copy succeeded, and returns the
    /// notification that reports the outcome.
    pub fn finish_relocation(&mut self, store: &mut RecordStore, ticket: RelocationTicket, copied: bool) -> (r: MoveNotice)
        requires
            old(store).wf(),
        ensures
            final(store).wf(),
            final(self).held@ == released(old(self).held@, ticket.install_id@, ticket.kind),
            !is_held(final(self).held@, ticket.install_id@, ticket.kind),
            copied ==> final(store).installs@ == installs_updated(
                old(store).installs@,
                ticket.install_id@,
                location_field(ticket.kind, ticket.destination),
            ),
            !copied ==> final(store).installs == old(store).installs,
            final(store).repositories == old(store).repositories,
            final(store).manifests == old(store).manifests,
            final(store).settings == old(store).settings,
            r.install_name == ticket.install_name,
            r.install_type@ == kind_label(ticket.kind),
            r.status == (if copied { MoveStatus::Completed } else { MoveStatus::Failed }),
    {
        let ghost s = self.held@;
        let mut kept: Vec<RelocationKey> = Vec::new();
        let mut i: usize = 0;
        while i < self.held.len()
            invariant
                s == self.held@,
                i <= s.len(),
                kept@ == released(s.subrange(0, i as int), ticket.install_id@, ticket.kind),
            decreases s.len() - i,
        {
            proof {
                assert(s.subrange(0, i as int + 1).drop_last() =~= s.subrange(0, i as int));
            }
            if !(self.held[i].kind == ticket.kind && self.held[i].install_id == ticket.install_id) {
                kept.push(RelocationKey { install_id: self.held[i].install_id.clone(), kind: self.held[i].kind });
            }
            i = i + 1;
        }
        assert(s.subrange(0, s.len() as int) =~= s);
        proof {
            let p = |x: RelocationKey| !(x.install_id@ == ticket.install_id@ && x.kind == ticket.kind);
            crate::store::lemma_keep_from(s, p);
            if is_held(kept@, ticket.install_id@, ticket.kind) {
                let a = choose|a: int| 0 <= a < held_keys(kept@).len() && held_keys(kept@)[a] == (ticket.install_id@, ticket.kind);
                let j = choose|j: int| 0 <= j < s.len() && #[trigger] keep(s, p)[a] == #[trigger] s[j] && p(s[j]);
            }
        }
        self.held = kept;
        let label = ticket.kind.label();
        if copied {
            store.update_install_by_id(ticket.install_id, ticket.kind.location(ticket.destination));
        }
        MoveNotice {
            install_name: ticket.install_name,
            install_type: String::from_str(label),
            status: if copied { MoveStatus::Completed } else { MoveStatus::Failed },
        }
    }
}

/// While a move of an install's resource is in flight, every further request
/// for the same install and kind is answered `Busy`, so at most one copy
/// writes into a destination; once the move has ended the lock is free.
pub proof fn lemma_one_relocation_at_a_time(held: Seq<RelocationKey>, key: RelocationKey)
    ensures
        is_held(held.push(key), key.install_id@, key.kind),
        !is_held(released(held.push(key), key.install_id@, key.kind), key.install_id@, key.kind),
{
    let l = held.push(key);
    assert(held_keys(l)[held.len() as int] == (key.install_id@, key.kind));
    let p = |x: RelocationKey| !(x.install_id@ == key.install_id@ && x.kind == key.kind);
    crate::store::lemma_keep_from(l, p);
    let r = released(l, key.install_id@, key.kind);
    if is_held(r, key.install_id@, key.kind) {
        let a = choose|a: int| 0 <= a < held_keys(r).len() && held_keys(r)[a] == (key.install_id@, key.kind);
        let j = choose|j: int| 0 <= j < l.len() && #[trigger] keep(l, p)[a] == #[trigger] l[j] && p(l[j]);
    }
}

/// Switches the version of `tool` for the install `install_id`: the stored
/// path has every occurrence of the old version replaced by `new_version`,
/// and both the version and the path are stored.
pub fn switch_version(store: &mut RecordStore, install_id: String, tool: Tool, new_version: String) -> (r: Option<VersionSwitch>)
    requires
        old(store).wf(),
    ensures
        final(store).wf(),
        version_switched(old(store).installs@, final(store).installs@, install_id@, tool, new_version, r),
        final(store).repositories == old(store).repositories,
        final(store).manifests == old(store).manifests,
        final(store).settings == old(store).settings,
{
    let install = match store.get_install_info_by_id(install_id.clone()) {
        None => { return None; },
        Some(i) => i,
    };
    let (path, found) = match tool {
        Tool::Runner => replace_token(install.runner_path.as_str(), install.runner_version.as_str(), new_version.as_str()),
        Tool::TranslationLayer => replace_token(install.dxvk_path.as_str(), install.dxvk_version.as_str(), new_version.as_str()),
    };
    let version_update = match tool {
        Tool::Runner => InstallField::RunnerVersion(new_version),
        Tool::TranslationLayer => InstallField::DxvkVersion(new_version),
    };
    store.update_install_by_id(install_id.clone(), version_update);
    let path_update = match tool {
        Tool::Runner => InstallField::RunnerLocation(path.clone()),
        Tool::TranslationLayer => InstallField::DxvkLocation(path.clone()),
    };
    store.update_install_by_id(install_id, path_update);
    Some(VersionSwitch { path, token_found: found })
}

} // verus!
