use vstd::prelude::*;
use crate::records::{Install, InstallField, Manifest, Repository, Settings, with_field};

verus! {

/// Why a record could not be created.
#[derive(Clone, Copy, Debug, PartialEq, Eq, Structural)]
pub enum StoreError {
    /// A record with that id is already stored.
    AlreadyExists,
    /// The record refers to a parent record that is not stored.
    MissingReference,
}

/// The tables of the launcher's database: repositories, manifests, installs
/// and the single settings row.
pub struct RecordStore {
    pub repositories: Vec<Repository>,
    pub manifests: Vec<Manifest>,
    pub installs: Vec<Install>,
    pub settings: Settings,
}

/// The elements of `s` that satisfy `p`, in order.
pub open spec fn keep<T>(s: Seq<T>, p: spec_fn(T) -> bool) -> Seq<T>
    decreases s.len(),
{
    if s.len() == 0 {
        Seq::empty()
    } else if p(s.last()) {
        keep(s.drop_last(), p).push(s.last())
    } else {
        keep(s.drop_last(), p)
    }
}

/// No key occurs twice.
pub open spec fn unique_keys(k: Seq<Seq<char>>) -> bool {
    forall|i: int, j: int| 0 <= i < k.len() && 0 <= j < k.len() && k[i] == k[j] ==> i == j
}

pub open spec fn repository_ids(s: Seq<Repository>) -> Seq<Seq<char>> {
    s.map_values(|r: Repository| r.id@)
}

pub open spec fn manifest_ids(s: Seq<Manifest>) -> Seq<Seq<char>> {
    s.map_values(|m: Manifest| m.id@)
}

pub open spec fn install_ids(s: Seq<Install>) -> Seq<Seq<char>> {
    s.map_values(|i: Install| i.id@)
}

/// `r` is the record of `s` at the place where `keys` holds `key`, if any.
pub open spec fn lookup<T>(s: Seq<T>, keys: Seq<Seq<char>>, key: Seq<char>, r: Option<T>) -> bool {
    &&& r is Some <==> keys.contains(key)
    &&& r is Some ==> exists|i: int| 0 <= i < s.len() && keys[i] == key && r->Some_0 == s[i]
}

/// `r` is the first record of `s` at whose place `keys` holds `key`, if any.
pub open spec fn first_match<T>(s: Seq<T>, keys: Seq<Seq<char>>, key: Seq<char>, r: Option<T>) -> bool {
    &&& r is Some <==> keys.contains(key)
    &&& r is Some ==> exists|i: int|
        0 <= i < s.len() && keys[i] == key && r->Some_0 == s[i]
            && forall|j: int| 0 <= j < i ==> keys[j] != key
}

/// A non-empty listing as `Some`, an empty one as `None`.
pub open spec fn listing<T>(v: Seq<T>, r: Option<Vec<T>>) -> bool {
    &&& r is Some <==> v.len() > 0
    &&& r is Some ==> r->Some_0@ == v
}

/// `new` is `old` with the one record keyed `key` removed when `removed`,
/// else `old` itself.
pub open spec fn removed_by_key<T>(old: Seq<T>, new: Seq<T>, keys: Seq<Seq<char>>, key: Seq<char>, removed: bool) -> bool {
    &&& removed <==> keys.contains(key)
    &&& removed ==> exists|i: int| 0 <= i < old.len() && keys[i] == key && new == old.remove(i)
    &&& !removed ==> new == old
}

pub proof fn lemma_keep_from<T>(s: Seq<T>, p: spec_fn(T) -> bool)
    ensures
        forall|a: int| 0 <= a < keep(s, p).len() ==> exists|j: int|
            0 <= j < s.len() && #[trigger] keep(s, p)[a] == #[trigger] s[j] && p(s[j]),
    decreases s.len(),
{
    if s.len() > 0 {
        let d = s.drop_last();
        lemma_keep_from(d, p);
        let k = keep(d, p);
        assert forall|a: int| 0 <= a < keep(s, p).len() implies exists|j: int|
            0 <= j < s.len() && #[trigger] keep(s, p)[a] == #[trigger] s[j] && p(s[j]) by {
            if a < k.len() {
                let j = choose|j: int| 0 <= j < d.len() && k[a] == #[trigger] d[j] && p(d[j]);
                assert(keep(s, p)[a] == k[a]);
                assert(s[j] == d[j]);
            } else {
                assert(keep(s, p)[a] == s[s.len() - 1]);
            }
        }
    }
}

proof fn lemma_keep_unique<T>(s: Seq<T>, p: spec_fn(T) -> bool, f: spec_fn(T) -> Seq<char>)
    requires
        unique_keys(s.map_values(f)),
    ensures
        unique_keys(keep(s, p).map_values(f)),
    decreases s.len(),
{
    if s.len() > 0 {
        let d = s.drop_last();
        assert(unique_keys(d.map_values(f))) by {
            assert forall|i: int, j: int| 0 <= i < d.len() && 0 <= j < d.len() && d.map_values(f)[i] == d.map_values(f)[j] implies i == j by {
                assert(s.map_values(f)[i] == s.map_values(f)[j]);
            }
        }
        lemma_keep_unique(d, p, f);
        if p(s.last()) {
            let k = keep(d, p);
            lemma_keep_from(d, p);
            let kp = k.push(s.last());
            assert(keep(s, p) == kp);
            assert forall|i: int, j: int| 0 <= i < kp.len() && 0 <= j < kp.len() && kp.map_values(f)[i] == kp.map_values(f)[j] implies i == j by {
                if i < k.len() && j == k.len() {
                    let t = choose|t: int| 0 <= t < d.len() && k[i] == #[trigger] d[t] && p(d[t]);
                    assert(s.map_values(f)[t] == s.map_values(f)[s.len() - 1]);
                } else if j < k.len() && i == k.len() {
                    let t = choose|t: int| 0 <= t < d.len() && k[j] == #[trigger] d[t] && p(d[t]);
                    assert(s.map_values(f)[t] == s.map_values(f)[s.len() - 1]);
                } else if i < k.len() && j < k.len() {
                    assert(k.map_values(f)[i] == k.map_values(f)[j]);
                }
            }
        }
    }
}

proof fn lemma_remove_keeps_unique<T>(s: Seq<T>, k: Seq<Seq<char>>, i: int, f: spec_fn(T) -> Seq<char>)
    requires
        0 <= i < s.len(),
        k == s.map_values(f),
        unique_keys(k),
    ensures
        unique_keys(s.remove(i).map_values(f)),
{
    let r = s.remove(i);
    let kr = r.map_values(f);
    assert forall|a: int, b: int| 0 <= a < kr.len() && 0 <= b < kr.len() && kr[a] == kr[b] implies a == b by {
        let a2 = if a < i { a } else { a + 1 };
        let b2 = if b < i { b } else { b + 1 };
        assert(k[a2] == k[b2]);
    }
}

impl RecordStore {
    /// Primary keys are unique in every table.
    pub open spec fn wf(&self) -> bool {
        &&& unique_keys(repository_ids(self.repositories@))
        &&& unique_keys(manifest_ids(self.manifests@))
        &&& unique_keys(install_ids(self.installs@))
    }

    /// The store of a freshly migrated database: empty tables and the
    /// initial settings row.
    pub fn new() -> (r: RecordStore)
        ensures
            r.wf(),
            r.repositories@.len() == 0,
            r.manifests@.len() == 0,
            r.installs@.len() == 0,
            r.settings == Settings::initial_spec(),
    {
        RecordStore {
            repositories: Vec::new(),
            manifests: Vec::new(),
            installs: Vec::new(),
            settings: Settings::initial(),
        }
    }

    fn find_repository(&self, id: &String) -> (r: Option<usize>)
        ensures
            r is Some <==> repository_ids(self.repositories@).contains(id@),
            r is Some ==> r->Some_0 < self.repositories@.len() && self.repositories@[r->Some_0 as int].id@ == id@,
    {
        let mut i: usize = 0;
        while i < self.repositories.len()
            invariant
                i <= self.repositories@.len(),
                forall|j: int| 0 <= j < i ==> self.repositories@[j].id@ != id@,
            decreases self.repositories@.len() - i,
        {
            if self.repositories[i].id == *id {
                assert(repository_ids(self.repositories@)[i as int] == id@);
                return Some(i);
            }
            i = i + 1;
        }
        assert(!repository_ids(self.repositories@).contains(id@));
        None
    }

    fn find_manifest(&self, id: &String) -> (r: Option<usize>)
        ensures
            r is Some <==> manifest_ids(self.manifests@).contains(id@),
            r is Some ==> r->Some_0 < self.manifests@.len() && self.manifests@[r->Some_0 as int].id@ == id@,
    {
        let mut i: usize = 0;
        while i < self.manifests.len()
            invariant
                i <= self.manifests@.len(),
                forall|j: int| 0 <= j < i ==> self.manifests@[j].id@ != id@,
            decreases self.manifests@.len() - i,
        {
            if self.manifests[i].id == *id {
                assert(manifest_ids(self.manifests@)[i as int] == id@);
                return Some(i);
            }
            i = i + 1;
        }
        assert(!manifest_ids(self.manifests@).contains(id@));
        None
    }

    fn find_install(&self, id: &String) -> (r: Option<usize>)
        ensures
            r is Some <==> install_ids(self.installs@).contains(id@),
            r is Some ==> r->Some_0 < self.installs@.len() && self.installs@[r->Some_0 as int].id@ == id@,
    {
        let mut i: usize = 0;
        while i < self.installs.len()
            invariant
                i <= self.installs@.len(),
                forall|j: int| 0 <= j < i ==> self.installs@[j].id@ != id@,
            decreases self.installs@.len() - i,
        {
            if self.installs[i].id == *id {
                assert(install_ids(self.installs@)[i as int] == id@);
                return Some(i);
            }
            i = i + 1;
        }
        assert(!install_ids(self.installs@).contains(id@));
        None
    }
}

pub open spec fn manifests_of_repository(s: Seq<Manifest>, repository_id: Seq<char>) -> Seq<Manifest> {
    keep(s, |m: Manifest| m.repository_id@ == repository_id)
}

pub open spec fn manifests_not_of_repository(s: Seq<Manifest>, repository_id: Seq<char>) -> Seq<Manifest> {
    keep(s, |m: Manifest| m.repository_id@ != repository_id)
}

pub open spec fn installs_of_manifest(s: Seq<Install>, manifest_id: Seq<char>) -> Seq<Install> {
    keep(s, |i: Install| i.manifest_id@ == manifest_id)
}

/// Every install, with the one keyed `id` (if any) changed by `f`.
pub open spec fn installs_updated(s: Seq<Install>, id: Seq<char>, f: InstallField) -> Seq<Install> {
    s.map_values(|i: Install| if i.id@ == id { with_field(i, f) } else { i })
}

/// An install that was created is read back equal in every field: when
/// `create_installation` appended `install` and `get_install_info_by_id`
/// looked up its id, the answer is `install`.
pub proof fn lemma_create_then_get(before: Seq<Install>, install: Install, r: Option<Install>)
    requires
        unique_keys(install_ids(before.push(install))),
        lookup(before.push(install), install_ids(before.push(install)), install.id@, r),
    ensures
        r == Some(install),
{
    let s = before.push(install);
    assert(install_ids(s)[before.len() as int] == install.id@);
    let i = choose|i: int| 0 <= i < s.len() && install_ids(s)[i] == install.id@ && r->Some_0 == s[i];
    assert(install_ids(s)[i] == install_ids(s)[before.len() as int]);
}

impl RecordStore {
    // === SETTINGS ===

    /// The settings row, which always exists.
    pub fn get_settings(&self) -> (r: Option<Settings>)
        ensures
            r == Some(self.settings),
    {
        Some(self.settings.duplicate())
    }

    pub fn update_settings_third_party_repo_update(&mut self, enabled: bool)
        ensures
            final(self).settings == (Settings { third_party_repo_updates: enabled, ..old(self).settings }),
            final(self).repositories == old(self).repositories,
            final(self).manifests == old(self).manifests,
            final(self).installs == old(self).installs,
    {
        self.settings.third_party_repo_updates = enabled;
    }

    pub fn update_settings_default_game_location(&mut self, path: String)
        ensures
            final(self).settings == (Settings { default_game_path: Some(path), ..old(self).settings }),
            final(self).repositories == old(self).repositories,
            final(self).manifests == old(self).manifests,
            final(self).installs == old(self).installs,
    {
        self.settings.default_game_path = Some(path);
    }

    pub fn update_settings_default_xxmi_location(&mut self, path: String)
        ensures
            final(self).settings == (Settings { xxmi_path: Some(path), ..old(self).settings }),
            final(self).repositories == old(self).repositories,
            final(self).manifests == old(self).manifests,
            final(self).installs == old(self).installs,
    {
        self.settings.xxmi_path = Some(path);
    }

    pub fn update_settings_default_fps_unlock_location(&mut self, path: String)
        ensures
            final(self).settings == (Settings { fps_unlock_path: Some(path), ..old(self).settings }),
            final(self).repositories == old(self).repositories,
            final(self).manifests == old(self).manifests,
            final(self).installs == old(self).installs,
    {
        self.settings.fps_unlock_path = Some(path);
    }

    pub fn update_settings_default_jadeite_location(&mut self, path: String)
        ensures
            final(self).settings == (Settings { jadeite_path: Some(path), ..old(self).settings }),
            final(self).repositories == old(self).repositories,
            final(self).manifests == old(self).manifests,
            final(self).installs == old(self).installs,
    {
        self.settings.jadeite_path = Some(path);
    }

    // === REPOSITORIES ===

    /// Adds a repository; fails when one with that id is stored.
    pub fn create_repository(&mut self, id: String, github_id: String) -> (r: Result<(), StoreError>)
        requires
            old(self).wf(),
        ensures
            final(self).wf(),
            r is Err <==> repository_ids(old(self).repositories@).contains(id@),
            r is Err ==> r == Err::<(), StoreError>(StoreError::AlreadyExists) && final(self).repositories == old(self).repositories,
            r is Ok ==> final(self).repositories@ == old(self).repositories@.push(Repository { id, github_id }),
            final(self).manifests == old(self).manifests,
            final(self).installs == old(self).installs,
            final(self).settings == old(self).settings,
    {
        if self.find_repository(&id).is_some() {
            return Err(StoreError::AlreadyExists);
        }
        let ghost before = self.repositories@;
        self.repositories.push(Repository { id, github_id });
        proof {
            let k = repository_ids(self.repositories@);
            assert(k =~= repository_ids(before).push(id@));
            assert forall|i: int, j: int| 0 <= i < k.len() && 0 <= j < k.len() && k[i] == k[j] implies i == j by {
                if i < before.len() && j == before.len() {
                    assert(repository_ids(before)[i] == id@);
                } else if j < before.len() && i == before.len() {
                    assert(repository_ids(before)[j] == id@);
                } else if i < before.len() && j < before.len() {
                    assert(repository_ids(before)[i] == repository_ids(before)[j]);
                }
            }
        }
        Ok(())
    }

    /// Removes the repository with that id; true iff one was removed.
    pub fn delete_repository_by_id(&mut self, id: String) -> (r: bool)
        requires
            old(self).wf(),
        ensures
            final(self).wf(),
            removed_by_key(old(self).repositories@, final(self).repositories@, repository_ids(old(self).repositories@), id@, r),
            final(self).manifests == old(self).manifests,
            final(self).installs == old(self).installs,
            final(self).settings == old(self).settings,
    {
        match self.find_repository(&id) {
            None => false,
            Some(i) => {
                let ghost before = self.repositories@;
                self.repositories.remove(i);
                proof {
                    lemma_remove_keeps_unique(before, repository_ids(before), i as int, |x: Repository| x.id@);
                    assert(repository_ids(self.repositories@) =~= self.repositories@.map_values(|x: Repository| x.id@));
                    assert(repository_ids(before)[i as int] == id@);
                }
                true
            },
        }
    }

    pub fn get_repository_info_by_id(&self, id: String) -> (r: Option<Repository>)
        ensures
            lookup(self.repositories@, repository_ids(self.repositories@), id@, r),
    {
        match self.find_repository(&id) {
            None => None,
            Some(i) => {
                assert(repository_ids(self.repositories@)[i as int] == id@);
                Some(self.repositories[i].duplicate())
            },
        }
    }

    /// The first repository with that GitHub id.
    pub fn get_repository_info_by_github_id(&self, github_id: String) -> (r: Option<Repository>)
        ensures
            first_match(self.repositories@, self.repositories@.map_values(|x: Repository| x.github_id@), github_id@, r),
    {
        let ghost keys = self.repositories@.map_values(|x: Repository| x.github_id@);
        let mut i: usize = 0;
        while i < self.repositories.len()
            invariant
                i <= self.repositories@.len(),
                keys == self.repositories@.map_values(|x: Repository| x.github_id@),
                forall|j: int| 0 <= j < i ==> keys[j] != github_id@,
            decreases self.repositories@.len() - i,
        {
            if self.repositories[i].github_id == github_id {
                assert(keys[i as int] == github_id@);
                return Some(self.repositories[i].duplicate());
            }
            i = i + 1;
        }
        assert(!keys.contains(github_id@));
        None
    }

    /// Every repository, or `None` when there is none.
    pub fn get_repositories(&self) -> (r: Option<Vec<Repository>>)
        ensures
            listing(self.repositories@, r),
    {
        if self.repositories.len() == 0 {
            return None;
        }
        let mut v: Vec<Repository> = Vec::new();
        let mut i: usize = 0;
        while i < self.repositories.len()
            invariant
                i <= self.repositories@.len(),
                v@ == self.repositories@.subrange(0, i as int),
            decreases self.repositories@.len() - i,
        {
            v.push(self.repositories[i].duplicate());
            i = i + 1;
        }
        assert(v@ =~= self.repositories@);
        Some(v)
    }

    // === MANIFESTS ===

    /// Adds a manifest; fails when its id is taken or its repository is
    /// not stored.
    pub fn create_manifest(
        &mut self,
        id: String,
        repository_id: String,
        display_name: String,
        filename: String,
        enabled: bool,
    ) -> (r: Result<(), StoreError>)
        requires
            old(self).wf(),
        ensures
            final(self).wf(),
            manifest_ids(old(self).manifests@).contains(id@) ==> r == Err::<(), StoreError>(StoreError::AlreadyExists),
            !manifest_ids(old(self).manifests@).contains(id@) && !repository_ids(old(self).repositories@).contains(repository_id@)
                ==> r == Err::<(), StoreError>(StoreError::MissingReference),
            r is Err ==> final(self).manifests == old(self).manifests,
            r is Ok <==> !manifest_ids(old(self).manifests@).contains(id@) && repository_ids(old(self).repositories@).contains(repository_id@),
            r is Ok ==> final(self).manifests@ == old(self).manifests@.push(
                Manifest { id, repository_id, display_name, filename, enabled },
            ),
            final(self).repositories == old(self).repositories,
            final(self).installs == old(self).installs,
            final(self).settings == old(self).settings,
    {
        if self.find_manifest(&id).is_some() {
            return Err(StoreError::AlreadyExists);
        }
        if self.find_repository(&repository_id).is_none() {
            return Err(StoreError::MissingReference);
        }
        let ghost before = self.manifests@;
        self.manifests.push(Manifest { id, repository_id, display_name, filename, enabled });
        proof {
            let k = manifest_ids(self.manifests@);
            assert(k =~= manifest_ids(before).push(id@));
            assert forall|i: int, j: int| 0 <= i < k.len() && 0 <= j < k.len() && k[i] == k[j] implies i == j by {
                if i < before.len() && j == before.len() {
                    assert(manifest_ids(before)[i] == id@);
                } else if j < before.len() && i == before.len() {
                    assert(manifest_ids(before)[j] == id@);
                } else if i < before.len() && j < before.len() {
                    assert(manifest_ids(before)[i] == manifest_ids(before)[j]);
                }
            }
        }
        Ok(())
    }

    /// Removes every manifest of that repository; true iff any was removed.
    pub fn delete_manifest_by_repository_id(&mut self, repository_id: String) -> (r: bool)
        requires
            old(self).wf(),
        ensures
            final(self).wf(),
            final(self).manifests@ == manifests_not_of_repository(old(self).manifests@, repository_id@),
            r <==> manifests_of_repository(old(self).manifests@, repository_id@).len() > 0,
            final(self).repositories == old(self).repositories,
            final(self).installs == old(self).installs,
            final(self).settings == old(self).settings,
    {
        let ghost s = self.manifests@;
        let mut kept: Vec<Manifest> = Vec::new();
        let mut n_removed: usize = 0;
        let mut i: usize = 0;
        while i < self.manifests.len()
            invariant
                s == self.manifests@,
                i <= s.len(),
                kept@ == manifests_not_of_repository(s.subrange(0, i as int), repository_id@),
                n_removed <= i,
                (n_removed > 0) <==> manifests_of_repository(s.subrange(0, i as int), repository_id@).len() > 0,
            decreases s.len() - i,
        {
            proof {
                assert(s.subrange(0, i as int + 1).drop_last() =~= s.subrange(0, i as int));
            }
            if self.manifests[i].repository_id == repository_id {
                n_removed = n_removed + 1;
            } else {
                kept.push(self.manifests[i].duplicate());
            }
            i = i + 1;
        }
        assert(s.subrange(0, s.len() as int) =~= s);
        proof {
            lemma_keep_unique(s, |m: Manifest| m.repository_id@ != repository_id@, |m: Manifest| m.id@);
            assert(manifest_ids(kept@) =~= kept@.map_values(|m: Manifest| m.id@));
            assert(manifest_ids(s) =~= s.map_values(|m: Manifest| m.id@));
        }
        self.manifests = kept;
        n_removed > 0
    }

    /// Removes the manifest with that id; true iff one was removed.
    pub fn delete_manifest_by_id(&mut self, id: String) -> (r: bool)
        requires
            old(self).wf(),
        ensures
            final(self).wf(),
            removed_by_key(old(self).manifests@, final(self).manifests@, manifest_ids(old(self).manifests@), id@, r),
            final(self).repositories == old(self).repositories,
            final(self).installs == old(self).installs,
            final(self).settings == old(self).settings,
    {
        match self.find_manifest(&id) {
            None => false,
            Some(i) => {
                let ghost before = self.manifests@;
                self.manifests.remove(i);
                proof {
                    lemma_remove_keeps_unique(before, manifest_ids(before), i as int, |x: Manifest| x.id@);
                    assert(manifest_ids(self.manifests@) =~= self.manifests@.map_values(|x: Manifest| x.id@));
                    assert(manifest_ids(before)[i as int] == id@);
                }
                true
            },
        }
    }

    pub fn get_manifest_info_by_id(&self, id: String) -> (r: Option<Manifest>)
        ensures
            lookup(self.manifests@, manifest_ids(self.manifests@), id@, r),
    {
        match self.find_manifest(&id) {
            None => None,
            Some(i) => {
                assert(manifest_ids(self.manifests@)[i as int] == id@);
                Some(self.manifests[i].duplicate())
            },
        }
    }

    /// The first manifest with that file name.
    pub fn get_manifest_info_by_filename(&self, filename: String) -> (r: Option<Manifest>)
        ensures
            first_match(self.manifests@, self.manifests@.map_values(|x: Manifest| x.filename@), filename@, r),
    {
        let ghost keys = self.manifests@.map_values(|x: Manifest| x.filename@);
        let mut i: usize = 0;
        while i < self.manifests.len()
            invariant
                i <= self.manifests@.len(),
                keys == self.manifests@.map_values(|x: Manifest| x.filename@),
                forall|j: int| 0 <= j < i ==> keys[j] != filename@,
            decreases self.manifests@.len() - i,
        {
            if self.manifests[i].filename == filename {
                assert(keys[i as int] == filename@);
                return Some(self.manifests[i].duplicate());
            }
            i = i + 1;
        }
        assert(!keys.contains(filename@));
        None
    }

    /// The manifests of that repository, or `None` when it has none.
    pub fn get_manifests_by_repository_id(&self, repository_id: String) -> (r: Option<Vec<Manifest>>)
        ensures
            listing(manifests_of_repository(self.manifests@, repository_id@), r),
    {
        let ghost s = self.manifests@;
        let mut v: Vec<Manifest> = Vec::new();
        let mut i: usize = 0;
        while i < self.manifests.len()
            invariant
                s == self.manifests@,
                i <= s.len(),
                v@ == manifests_of_repository(s.subrange(0, i as int), repository_id@),
            decreases s.len() - i,
        {
            proof {
                assert(s.subrange(0, i as int + 1).drop_last() =~= s.subrange(0, i as int));
            }
            if self.manifests[i].repository_id == repository_id {
                v.push(self.manifests[i].duplicate());
            }
            i = i + 1;
        }
        assert(s.subrange(0, s.len() as int) =~= s);
        if v.len() == 0 {
            None
        } else {
            Some(v)
        }
    }

    /// Sets whether the manifest with that id is enabled; true iff it exists.
    pub fn update_manifest_enabled_by_id(&mut self, id: String, enabled: bool) -> (r: bool)
        requires
            old(self).wf(),
        ensures
            final(self).wf(),
            r <==> manifest_ids(old(self).manifests@).contains(id@),
            r ==> exists|i: int| 0 <= i < old(self).manifests@.len() && old(self).manifests@[i].id@ == id@
                && final(self).manifests@ == old(self).manifests@.update(i, Manifest { enabled, ..old(self).manifests@[i] }),
            !r ==> final(self).manifests == old(self).manifests,
            final(self).repositories == old(self).repositories,
            final(self).installs == old(self).installs,
            final(self).settings == old(self).settings,
    {
        match self.find_manifest(&id) {
            None => false,
            Some(i) => {
                let ghost before = self.manifests@;
                let mut m = self.manifests[i].duplicate();
                m.enabled = enabled;
                self.manifests.set(i, m);
                assert(manifest_ids(self.manifests@) =~= manifest_ids(before));
                true
            },
        }
    }

    // === INSTALLS ===

    /// Adds an install; fails when its id is taken or its manifest is not
    /// stored.
    pub fn create_installation(&mut self, install: Install) -> (r: Result<(), StoreError>)
        requires
            old(self).wf(),
        ensures
            final(self).wf(),
            install_ids(old(self).installs@).contains(install.id@) ==> r == Err::<(), StoreError>(StoreError::AlreadyExists),
            !install_ids(old(self).installs@).contains(install.id@) && !manifest_ids(old(self).manifests@).contains(install.manifest_id@)
                ==> r == Err::<(), StoreError>(StoreError::MissingReference),
            r is Err ==> final(self).installs == old(self).installs,
            r is Ok <==> !install_ids(old(self).installs@).contains(install.id@) && manifest_ids(old(self).manifests@).contains(install.manifest_id@),
            r is Ok ==> final(self).installs@ == old(self).installs@.push(install),
            final(self).repositories == old(self).repositories,
            final(self).manifests == old(self).manifests,
            final(self).settings == old(self).settings,
    {
        if self.find_install(&install.id).is_some() {
            return Err(StoreError::AlreadyExists);
        }
        if self.find_manifest(&install.manifest_id).is_none() {
            return Err(StoreError::MissingReference);
        }
        let ghost before = self.installs@;
        let ghost id = install.id@;
        self.installs.push(install);
        proof {
            let k = install_ids(self.installs@);
            assert(k =~= install_ids(before).push(id));
            assert forall|i: int, j: int| 0 <= i < k.len() && 0 <= j < k.len() && k[i] == k[j] implies i == j by {
                if i < before.len() && j == before.len() {
                    assert(install_ids(before)[i] == id);
                } else if j < before.len() && i == before.len() {
                    assert(install_ids(before)[j] == id);
                } else if i < before.len() && j < before.len() {
                    assert(install_ids(before)[i] == install_ids(before)[j]);
                }
            }
        }
        Ok(())
    }

    /// Removes the install with that id; true iff one was removed.
    pub fn delete_installation_by_id(&mut self, id: String) -> (r: bool)
        requires
            old(self).wf(),
        ensures
            final(self).wf(),
            removed_by_key(old(self).installs@, final(self).installs@, install_ids(old(self).installs@), id@, r),
            final(self).repositories == old(self).repositories,
            final(self).manifests == old(self).manifests,
            final(self).settings == old(self).settings,
    {
        match self.find_install(&id) {
            None => false,
            Some(i) => {
                let ghost before = self.installs@;
                self.installs.remove(i);
                proof {
                    lemma_remove_keeps_unique(before, install_ids(before), i as int, |x: Install| x.id@);
                    assert(install_ids(self.installs@) =~= self.installs@.map_values(|x: Install| x.id@));
                    assert(install_ids(before)[i as int] == id@);
                }
                true
            },
        }
    }

    pub fn get_install_info_by_id(&self, id: String) -> (r: Option<Install>)
        ensures
            lookup(self.installs@, install_ids(self.installs@), id@, r),
    {
        match self.find_install(&id) {
            None => None,
            Some(i) => {
                assert(install_ids(self.installs@)[i as int] == id@);
                Some(self.installs[i].duplicate())
            },
        }
    }

    /// The installs of that manifest, or `None` when it has none.
    pub fn get_installs_by_manifest_id(&self, manifest_id: String) -> (r: Option<Vec<Install>>)
        ensures
            listing(installs_of_manifest(self.installs@, manifest_id@), r),
    {
        let ghost s = self.installs@;
        let mut v: Vec<Install> = Vec::new();
        let mut i: usize = 0;
        while i < self.installs.len()
            invariant
                s == self.installs@,
                i <= s.len(),
                v@ == installs_of_manifest(s.subrange(0, i as int), manifest_id@),
            decreases s.len() - i,
        {
            proof {
                assert(s.subrange(0, i as int + 1).drop_last() =~= s.subrange(0, i as int));
            }
            if self.installs[i].manifest_id == manifest_id {
                v.push(self.installs[i].duplicate());
            }
            i = i + 1;
        }
        assert(s.subrange(0, s.len() as int) =~= s);
        if v.len() == 0 {
            None
        } else {
            Some(v)
        }
    }

    /// Every install, or `None` when there is none.
    pub fn get_installs(&self) -> (r: Option<Vec<Install>>)
        ensures
            listing(self.installs@, r),
    {
        if self.installs.len() == 0 {
            return None;
        }
        let mut v: Vec<Install> = Vec::new();
        let mut i: usize = 0;
        while i < self.installs.len()
            invariant
                i <= self.installs@.len(),
                v@ == self.installs@.subrange(0, i as int),
            decreases self.installs@.len() - i,
        {
            v.push(self.installs[i].duplicate());
            i = i + 1;
        }
        assert(v@ =~= self.installs@);
        Some(v)
    }

    /// Sets one field of the install with that id; true iff it exists.
    pub fn update_install_by_id(&mut self, id: String, f: InstallField) -> (r: bool)
        requires
            old(self).wf(),
        ensures
            final(self).wf(),
            r <==> install_ids(old(self).installs@).contains(id@),
            final(self).installs@ == installs_updated(old(self).installs@, id@, f),
            final(self).repositories == old(self).repositories,
            final(self).manifests == old(self).manifests,
            final(self).settings == old(self).settings,
    {
        match self.find_install(&id) {
            None => {
                assert forall|j: int| 0 <= j < self.installs@.len() implies self.installs@[j].id@ != id@ by {
                    if self.installs@[j].id@ == id@ {
                        assert(install_ids(self.installs@)[j] == id@);
                    }
                }
                assert(self.installs@ =~= installs_updated(self.installs@, id@, f));
                false
            },
            Some(i) => {
                let ghost before = self.installs@;
                let mut rec = self.installs[i].duplicate();
                rec.set_field(f);
                self.installs.set(i, rec);
                proof {
                    assert(install_ids(self.installs@) =~= install_ids(before));
                    assert forall|j: int| 0 <= j < before.len() && j != i implies before[j].id@ != id@ by {
                        assert(install_ids(before)[j] != install_ids(before)[i as int]);
                    }
                    assert(self.installs@ =~= installs_updated(before, id@, f));
                }
                true
            },
        }
    }
}

} // verus!
