use vstd::prelude::*;

verus! {

/// Direction of a schema change.
#[derive(Clone, Copy, Debug, PartialEq, Eq, Structural)]
pub enum MigrationKind {
    Up,
    Down,
}

/// A migration definition.
#[derive(Clone, Copy, Debug)]
pub struct Migration {
    pub version: i64,
    pub description: &'static str,
    pub sql: &'static str,
    pub kind: MigrationKind,
}

/// The declared migrations of one database, in declaration order.
#[derive(Clone, Debug)]
pub struct MigrationList(pub Vec<Migration>);

/// The migrations registered for one database.
#[derive(Clone, Debug)]
pub struct DatabaseMigrations {
    pub db_url: String,
    pub list: MigrationList,
}

/// One row of the applied-migrations ledger: a version and the checksum of
/// the statement that was run for it.
#[derive(Clone, Debug)]
pub struct AppliedMigration {
    pub version: i64,
    pub checksum: Vec<u8>,
}

pub ghost struct LedgerEntry {
    pub version: i64,
    pub checksum: Seq<u8>,
}

impl View for AppliedMigration {
    type V = LedgerEntry;

    open spec fn view(&self) -> LedgerEntry {
        LedgerEntry { version: self.version, checksum: self.checksum@ }
    }
}

/// Why a declared migration sequence cannot be brought onto a ledger.
#[derive(Clone, Copy, Debug, PartialEq, Eq, Structural)]
pub enum MigrationError {
    /// The forward steps are not in strictly increasing version order.
    NotIncreasing,
    /// An applied version does not stand at its place in the declared steps.
    VersionMissing(i64),
    /// An applied version's statement differs from the declared one.
    VersionChanged(i64),
}

/// The checksum recorded for a migration whose statement text is `sql`.
pub uninterp spec fn migration_checksum(sql: Seq<char>) -> Seq<u8>;

/// Relies on sqlx's `Migration::new`, which stores as the checksum a digest of
/// the statement text alone.
#[verifier::external_body]
fn checksum_of(sql: &str) -> (r: Vec<u8>)
    ensures
        r@ == migration_checksum(sql@),
{
    let m = sqlx::migrate::Migration::new(
        0,
        std::borrow::Cow::Borrowed(""),
        sqlx::migrate::MigrationType::Simple,
        std::borrow::Cow::Owned(sql.to_string()),
        false,
    );
    m.checksum.to_vec()
}

/// The forward steps of `s`, in order.
pub open spec fn forward_only(s: Seq<Migration>) -> Seq<Migration>
    decreases s.len(),
{
    if s.len() == 0 {
        Seq::empty()
    } else if s.last().kind == MigrationKind::Up {
        forward_only(s.drop_last()).push(s.last())
    } else {
        forward_only(s.drop_last())
    }
}

pub open spec fn versions_of(steps: Seq<Migration>) -> Seq<i64> {
    steps.map_values(|m: Migration| m.version)
}

pub open spec fn checksums_of(steps: Seq<Migration>) -> Seq<Seq<u8>> {
    steps.map_values(|m: Migration| migration_checksum(m.sql@))
}

pub open spec fn strictly_increasing(v: Seq<i64>) -> bool {
    forall|i: int, j: int| 0 <= i < j < v.len() ==> v[i] < v[j]
}

/// Entry `i` of the ledger records step `i` of the declared sequence.
pub open spec fn entry_matches(v: Seq<i64>, s: Seq<Seq<u8>>, a: Seq<LedgerEntry>, i: int) -> bool {
    0 <= i < v.len() && i < s.len() && a[i].version == v[i] && a[i].checksum == s[i]
}

/// The ledger records exactly the first `a.len()` declared steps.
pub open spec fn is_applied_prefix(v: Seq<i64>, s: Seq<Seq<u8>>, a: Seq<LedgerEntry>) -> bool {
    &&& a.len() <= v.len()
    &&& forall|i: int| 0 <= i < a.len() ==> entry_matches(v, s, a, i)
}

/// `i` is the first ledger entry that does not record its declared step.
pub open spec fn first_divergence(v: Seq<i64>, s: Seq<Seq<u8>>, a: Seq<LedgerEntry>, i: int) -> bool {
    &&& 0 <= i < a.len()
    &&& !entry_matches(v, s, a, i)
    &&& forall|j: int| 0 <= j < i ==> entry_matches(v, s, a, j)
}

/// The error reported for a first divergence at ledger entry `i`.
pub open spec fn divergence_error(v: Seq<i64>, a: Seq<LedgerEntry>, i: int) -> MigrationError {
    if i < v.len() && a[i].version == v[i] {
        MigrationError::VersionChanged(a[i].version)
    } else {
        MigrationError::VersionMissing(a[i].version)
    }
}

/// The verdict on a ledger `a` against declared versions `v` with checksums
/// `s`: the number of steps already applied, or why they cannot be.
pub open spec fn ledger_verdict_holds(
    v: Seq<i64>,
    s: Seq<Seq<u8>>,
    a: Seq<LedgerEntry>,
    r: Result<usize, MigrationError>,
) -> bool {
    &&& !strictly_increasing(v) ==> r == Err::<usize, MigrationError>(MigrationError::NotIncreasing)
    &&& strictly_increasing(v) && is_applied_prefix(v, s, a) ==> r == Ok::<usize, MigrationError>(a.len() as usize)
    &&& strictly_increasing(v) && !is_applied_prefix(v, s, a) ==> exists|i: int|
        first_divergence(v, s, a, i) && r == Err::<usize, MigrationError>(divergence_error(v, a, i))
}

/// The ledger entry written when `m` is applied.
pub open spec fn entry_for(m: Migration) -> LedgerEntry {
    LedgerEntry { version: m.version, checksum: migration_checksum(m.sql@) }
}

/// The ledger after every declared step that `a` lacks has been applied.
pub open spec fn migrated(steps: Seq<Migration>, a: Seq<LedgerEntry>) -> Seq<LedgerEntry> {
    a + steps.subrange(a.len() as int, steps.len() as int).map_values(|m: Migration| entry_for(m))
}

/// Registers `migrations` for the database at `db_url`.
pub fn add_migrations(db_url: &str, migrations: Vec<Migration>) -> (r: Option<DatabaseMigrations>)
    ensures
        r is Some,
        r->Some_0.db_url@ == db_url@,
        r->Some_0.list.0@ == migrations@,
{
    Some(DatabaseMigrations { db_url: String::from_str(db_url), list: MigrationList(migrations) })
}

impl MigrationList {
    /// The forward steps, in declaration order; reverse steps are left out.
    pub fn forward_steps(&self) -> (r: Vec<Migration>)
        ensures
            r@ == forward_only(self.0@),
    {
        let mut r: Vec<Migration> = Vec::new();
        let mut i: usize = 0;
        while i < self.0.len()
            invariant
                i <= self.0@.len(),
                r@ == forward_only(self.0@.subrange(0, i as int)),
            decreases self.0@.len() - i,
        {
            let m = self.0[i];
            proof {
                assert(self.0@.subrange(0, i as int + 1).drop_last() =~= self.0@.subrange(0, i as int));
            }
            if m.kind == MigrationKind::Up {
                r.push(m);
            }
            i = i + 1;
        }
        assert(self.0@.subrange(0, self.0@.len() as int) =~= self.0@);
        r
    }
}

/// Checks the ledger `applied` against the declared `steps`, whose
/// checksums are `sums`, and returns how many steps it already records.
pub fn check_ledger(steps: &Vec<Migration>, sums: &Vec<Vec<u8>>, applied: &Vec<AppliedMigration>) -> (r: Result<usize, MigrationError>)
    requires
        sums@.len() == steps@.len(),
    ensures
        ledger_verdict_holds(
            versions_of(steps@),
            sums@.map_values(|c: Vec<u8>| c@),
            applied@.map_values(|e: AppliedMigration| e@),
            r,
        ),
{
    let ghost v = versions_of(steps@);
    let ghost s = sums@.map_values(|c: Vec<u8>| c@);
    let ghost a = applied@.map_values(|e: AppliedMigration| e@);
    let mut i: usize = 1;
    while i < steps.len()
        invariant
            1 <= i || steps@.len() == 0,
            i <= steps@.len() || steps@.len() == 0,
            v == versions_of(steps@),
            forall|p: int, q: int| 0 <= p < q < i && q < v.len() ==> v[p] < v[q],
        decreases steps@.len() - i,
    {
        if steps[i - 1].version >= steps[i].version {
            assert(!strictly_increasing(v)) by {
                assert(v[i - 1] >= v[i as int]);
            }
            return Err(MigrationError::NotIncreasing);
        }
        proof {
            assert forall|p: int, q: int| 0 <= p < q < i + 1 && q < v.len() implies v[p] < v[q] by {
                if q == i {
                    if p < i - 1 {
                        assert(v[p] < v[i - 1]);
                    }
                }
            }
        }
        i = i + 1;
    }
    assert(strictly_increasing(v));
    let mut j: usize = 0;
    while j < applied.len()
        invariant
            strictly_increasing(v),
            v == versions_of(steps@),
            s == sums@.map_values(|c: Vec<u8>| c@),
            a == applied@.map_values(|e: AppliedMigration| e@),
            sums@.len() == steps@.len(),
            j <= applied@.len(),
            forall|k: int| 0 <= k < j ==> entry_matches(v, s, a, k),
        decreases applied@.len() - j,
    {
        let e = &applied[j];
        if j >= steps.len() || e.version != steps[j].version {
            assert(first_divergence(v, s, a, j as int));
            return Err(MigrationError::VersionMissing(e.version));
        }
        if !bytes_equal(&e.checksum, &sums[j]) {
            assert(first_divergence(v, s, a, j as int));
            return Err(MigrationError::VersionChanged(e.version));
        }
        assert(entry_matches(v, s, a, j as int));
        j = j + 1;
    }
    proof {
        if a.len() > 0 {
            assert(entry_matches(v, s, a, a.len() - 1));
        }
        assert(is_applied_prefix(v, s, a));
    }
    Ok(applied.len())
}

/// Whether two byte strings are equal.
fn bytes_equal(x: &Vec<u8>, y: &Vec<u8>) -> (r: bool)
    ensures
        r == (x@ == y@),
{
    if x.len() != y.len() {
        return false;
    }
    let mut i: usize = 0;
    while i < x.len()
        invariant
            x@.len() == y@.len(),
            i <= x@.len(),
            forall|k: int| 0 <= k < i ==> x@[k] == y@[k],
        decreases x@.len() - i,
    {
        if x[i] != y[i] {
            return false;
        }
        i = i + 1;
    }
    assert(x@ =~= y@);
    true
}

pub open spec fn ledger_view(applied: Seq<AppliedMigration>) -> Seq<LedgerEntry> {
    applied.map_values(|e: AppliedMigration| e@)
}

/// The forward steps `steps` can be brought onto the ledger `a`.
pub open spec fn migration_ok(steps: Seq<Migration>, a: Seq<LedgerEntry>) -> bool {
    &&& strictly_increasing(versions_of(steps))
    &&& is_applied_prefix(versions_of(steps), checksums_of(steps), a)
}

/// The verdict that a plan `r` on a ledger of `n` entries stands for.
pub open spec fn verdict_of<T>(r: Result<T, MigrationError>, n: nat) -> Result<usize, MigrationError> {
    match r {
        Ok(_) => Ok(n as usize),
        Err(e) => Err(e),
    }
}

/// The checksums of `steps`, in order.
fn step_checksums(steps: &Vec<Migration>) -> (r: Vec<Vec<u8>>)
    ensures
        r@.len() == steps@.len(),
        r@.map_values(|c: Vec<u8>| c@) == checksums_of(steps@),
{
    let mut r: Vec<Vec<u8>> = Vec::new();
    let mut i: usize = 0;
    while i < steps.len()
        invariant
            i <= steps@.len(),
            r@.len() == i,
            forall|k: int| 0 <= k < i ==> r@[k]@ == migration_checksum(steps@[k].sql@),
        decreases steps@.len() - i,
    {
        r.push(checksum_of(steps[i].sql));
        i = i + 1;
    }
    assert(r@.map_values(|c: Vec<u8>| c@) =~= checksums_of(steps@));
    r
}

/// The forward steps of `list` that the ledger `applied` does not record yet,
/// in the order in which they are to be run; or, when the ledger is not a
/// prefix of the declared forward steps (or these are not in strictly
/// increasing version order), the reason, and nothing is to be run.
pub fn plan_migrations(list: &MigrationList, applied: &Vec<AppliedMigration>) -> (r: Result<Vec<Migration>, MigrationError>)
    ensures
        ledger_verdict_holds(
            versions_of(forward_only(list.0@)),
            checksums_of(forward_only(list.0@)),
            ledger_view(applied@),
            verdict_of(r, applied@.len()),
        ),
        r is Ok <==> migration_ok(forward_only(list.0@), ledger_view(applied@)),
        r is Ok ==> r->Ok_0@ == forward_only(list.0@).subrange(applied@.len() as int, forward_only(list.0@).len() as int),
{
    let steps = list.forward_steps();
    let sums = step_checksums(&steps);
    let n_applied = applied.len();
    let verdict = check_ledger(&steps, &sums, applied);
    match verdict {
        Err(e) => Err(e),
        Ok(done) => {
            proof {
                let v = versions_of(steps@);
                let sv = sums@.map_values(|c: Vec<u8>| c@);
                let a = applied@.map_values(|e: AppliedMigration| e@);
                assert(strictly_increasing(v) && is_applied_prefix(v, sv, a));
                assert(a.len() == applied@.len());
                assert(verdict == Ok::<usize, MigrationError>(done));
                assert(done == a.len());
            }
            let mut pending: Vec<Migration> = Vec::new();
            let mut i: usize = done;
            while i < steps.len()
                invariant
                    done == applied@.len(),
                    done <= i <= steps@.len(),
                    pending@ == steps@.subrange(done as int, i as int),
                decreases steps@.len() - i,
            {
                pending.push(steps[i]);
                i = i + 1;
            }
            Ok(pending)
        },
    }
}

/// The ledger after running the plan of `plan_migrations` on it: `applied`
/// followed by one entry for each pending step.
pub fn migrate_ledger(list: &MigrationList, applied: Vec<AppliedMigration>) -> (r: Result<Vec<AppliedMigration>, MigrationError>)
    ensures
        r is Ok <==> migration_ok(forward_only(list.0@), ledger_view(applied@)),
        r is Err ==> ledger_verdict_holds(
            versions_of(forward_only(list.0@)),
            checksums_of(forward_only(list.0@)),
            ledger_view(applied@),
            verdict_of(r, applied@.len()),
        ),
        r is Ok ==> ledger_view(r->Ok_0@) == migrated(forward_only(list.0@), ledger_view(applied@)),
{
    let pending = match plan_migrations(list, &applied) {
        Err(e) => { return Err(e); },
        Ok(p) => p,
    };
    let ghost a0 = ledger_view(applied@);
    let ghost steps = forward_only(list.0@);
    let mut ledger = applied;
    let mut i: usize = 0;
    while i < pending.len()
        invariant
            i <= pending@.len(),
            pending@ == steps.subrange(a0.len() as int, steps.len() as int),
            ledger_view(ledger@) == a0 + pending@.subrange(0, i as int).map_values(|m: Migration| entry_for(m)),
        decreases pending@.len() - i,
    {
        let m = pending[i];
        let sum = checksum_of(m.sql);
        let ghost prev = ledger@;
        ledger.push(AppliedMigration { version: m.version, checksum: sum });
        proof {
            assert(ledger_view(ledger@) =~= ledger_view(prev).push(entry_for(m)));
            assert(pending@.subrange(0, i as int + 1).map_values(|m: Migration| entry_for(m))
                =~= pending@.subrange(0, i as int).map_values(|m: Migration| entry_for(m)).push(entry_for(m)));
            assert(ledger_view(ledger@) =~= a0 + pending@.subrange(0, i as int + 1).map_values(|m: Migration| entry_for(m)));
        }
        i = i + 1;
    }
    assert(pending@.subrange(0, pending@.len() as int) =~= pending@);
    Ok(ledger)
}

/// Migrating twice in a row is migrating once: on a ledger that has just been
/// migrated, nothing is pending and the ledger stays as it is.
pub proof fn lemma_migrate_idempotent(declared: Seq<Migration>, a: Seq<LedgerEntry>)
    requires
        migration_ok(forward_only(declared), a),
    ensures
        migration_ok(forward_only(declared), migrated(forward_only(declared), a)),
        migrated(forward_only(declared), a).len() == forward_only(declared).len(),
        migrated(forward_only(declared), migrated(forward_only(declared), a))
            == migrated(forward_only(declared), a),
{
    let steps = forward_only(declared);
    let m = migrated(steps, a);
    let v = versions_of(steps);
    let s = checksums_of(steps);
    assert forall|i: int| 0 <= i < m.len() implies entry_matches(v, s, m, i) by {
        if i >= a.len() {
            assert(m[i] == entry_for(steps[i]));
        } else {
            assert(entry_matches(v, s, a, i));
        }
    }
    assert(steps.subrange(m.len() as int, steps.len() as int).map_values(|x: Migration| entry_for(x)) =~= Seq::<LedgerEntry>::empty());
    assert(migrated(steps, m) =~= m);
}

/// Steps are applied in strictly increasing version order: the ledger after a
/// migration lists its versions in strictly increasing order, the pending
/// steps after every version that was applied before.
pub proof fn lemma_applied_in_increasing_order(declared: Seq<Migration>, a: Seq<LedgerEntry>)
    requires
        migration_ok(forward_only(declared), a),
    ensures
        strictly_increasing(migrated(forward_only(declared), a).map_values(|e: LedgerEntry| e.version)),
{
    let steps = forward_only(declared);
    lemma_migrate_idempotent(declared, a);
    let m = migrated(steps, a);
    let mv = m.map_values(|e: LedgerEntry| e.version);
    assert forall|i: int, j: int| 0 <= i < j < mv.len() implies mv[i] < mv[j] by {
        assert(entry_matches(versions_of(steps), checksums_of(steps), m, i));
        assert(entry_matches(versions_of(steps), checksums_of(steps), m, j));
    }
}

/// A declared sequence that lacks a version the ledger records is rejected,
/// so that no statement runs.
pub proof fn lemma_missing_version_rejected(declared: Seq<Migration>, a: Seq<LedgerEntry>, i: int)
    requires
        0 <= i < a.len(),
        forall|k: int| 0 <= k < forward_only(declared).len() ==> forward_only(declared)[k].version != a[i].version,
    ensures
        !migration_ok(forward_only(declared), a),
{
    let steps = forward_only(declared);
    if migration_ok(steps, a) {
        assert(entry_matches(versions_of(steps), checksums_of(steps), a, i));
        assert(steps[i].version == a[i].version);
    }
}

/// After a migration every declared forward step, and so the one that seeds
/// the settings row, is recorded exactly once, however often the migration
/// has run before.
pub proof fn lemma_each_step_recorded_once(declared: Seq<Migration>, a: Seq<LedgerEntry>, k: int)
    requires
        migration_ok(forward_only(declared), a),
        0 <= k < forward_only(declared).len(),
    ensures
        migrated(forward_only(declared), a)[k].version == forward_only(declared)[k].version,
        forall|j: int| 0 <= j < migrated(forward_only(declared), a).len()
            && #[trigger] migrated(forward_only(declared), a)[j].version == forward_only(declared)[k].version ==> j == k,
{
    let steps = forward_only(declared);
    lemma_migrate_idempotent(declared, a);
    let m = migrated(steps, a);
    let v = versions_of(steps);
    assert(entry_matches(v, checksums_of(steps), m, k));
    assert forall|j: int| 0 <= j < m.len() && #[trigger] m[j].version == steps[k].version implies j == k by {
        assert(entry_matches(v, checksums_of(steps), m, j));
        if j < k {
            assert(v[j] < v[k]);
        } else if j > k {
            assert(v[k] < v[j]);
        }
    }
}

/// The schema of the launcher's database, one step per version.
pub fn builtin_migrations() -> (r: MigrationList)
    ensures
        r.0@.len() == 7,
        forall|i: int| 0 <= i < r.0@.len() ==> r.0@[i].kind == MigrationKind::Up,
        strictly_increasing(r.0@.map_values(|m: Migration| m.version)),
{
    let mut v: Vec<Migration> = Vec::new();
    v.push(Migration {
        version: 1,
        description: "init_repository_table",
        sql: r#"CREATE TABLE "repository" ("id" string PRIMARY KEY,"github_id" string);"#,
        kind: MigrationKind::Up,
    });
    v.push(Migration {
        version: 2,
        description: "init_manifest_table",
        sql: r#"CREATE TABLE manifest ("id" string PRIMARY KEY, "repository_id" string, "display_name" string, "filename" string, "enabled" bool, CONSTRAINT fk_manifest_repo FOREIGN KEY(repository_id) REFERENCES repository(id));"#,
        kind: MigrationKind::Up,
    });
    v.push(Migration {
        version: 4,
        description: "init_settings_table",
        sql: r#"CREATE TABLE settings ("default_game_path" string default null, "third_party_repo_updates" bool default 0 not null, "xxmi_path" string default null,fps_unlock_path string default null,jadeite_path string default null, id integer not null CONSTRAINT settings_pk primary key autoincrement);"#,
        kind: MigrationKind::Up,
    });
    v.push(Migration {
        version: 5,
        description: "populate_settings_table",
        sql: r#"INSERT INTO settings (default_game_path, third_party_repo_updates, xxmi_path, fps_unlock_path, jadeite_path, id) values (null,false, null, null, null, 1);"#,
        kind: MigrationKind::Up,
    });
    v.push(Migration {
        version: 6,
        description: "init_install_table",
        sql: r#"CREATE TABLE install ("id" TEXT PRIMARY KEY, "manifest_id" TEXT, "version" TEXT, "name" TEXT, "directory" TEXT, "runner_path" TEXT, "dxvk_path" TEXT, "runner_version" TEXT, "dxvk_version" TEXT, "game_icon" TEXT, "game_background" TEXT, "ignore_updates" bool, "skip_hash_check" bool, "use_jadeite" bool, "use_xxmi" bool, "use_fps_unlock" bool, "env_vars" TEXT, "pre_launch_command" TEXT, "launch_command" TEXT, "fps_value" TEXT, CONSTRAINT fk_install_manifest FOREIGN KEY(manifest_id) REFERENCES manifest(id));"#,
        kind: MigrationKind::Up,
    });
    v.push(Migration {
        version: 7,
        description: "add_install_runner_prefix",
        sql: r#"ALTER TABLE install ADD COLUMN "runner_prefix" TEXT;"#,
        kind: MigrationKind::Up,
    });
    v.push(Migration {
        version: 8,
        description: "add_install_launch_args",
        sql: r#"ALTER TABLE install ADD COLUMN "launch_args" TEXT;"#,
        kind: MigrationKind::Up,
    });
    MigrationList(v)
}

} // verus!
