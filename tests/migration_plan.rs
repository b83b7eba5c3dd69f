use launcher_core::migration::{
    add_migrations, builtin_migrations, migrate_ledger, plan_migrations, AppliedMigration, Migration,
    MigrationError, MigrationKind, MigrationList,
};

fn step(version: i64, sql: &'static str, kind: MigrationKind) -> Migration {
    Migration { version, description: "step", sql, kind }
}

fn versions(v: &[AppliedMigration]) -> Vec<i64> {
    v.iter().map(|e| e.version).collect()
}

#[test]
fn fresh_ledger_plans_every_forward_step_in_order() {
    let list = builtin_migrations();
    let plan = plan_migrations(&list, &Vec::new()).unwrap();
    let got: Vec<i64> = plan.iter().map(|m| m.version).collect();
    assert_eq!(got, vec![1, 2, 4, 5, 6, 7, 8]);
}

#[test]
fn migrating_twice_equals_migrating_once() {
    let list = builtin_migrations();
    let once = migrate_ledger(&list, Vec::new()).unwrap();
    let once_versions = versions(&once);
    let once_sums: Vec<Vec<u8>> = once.iter().map(|e| e.checksum.clone()).collect();
    assert!(plan_migrations(&list, &once).unwrap().is_empty());
    let twice = migrate_ledger(&list, once).unwrap();
    assert_eq!(versions(&twice), once_versions);
    let twice_sums: Vec<Vec<u8>> = twice.iter().map(|e| e.checksum.clone()).collect();
    assert_eq!(twice_sums, once_sums);
}

#[test]
fn settings_seed_recorded_once_after_repeated_runs() {
    let list = builtin_migrations();
    let mut ledger = Vec::new();
    for _ in 0..3 {
        ledger = migrate_ledger(&list, ledger).unwrap();
    }
    assert_eq!(ledger.iter().filter(|e| e.version == 5).count(), 1);
    assert_eq!(ledger.len(), 7);
}

#[test]
fn partial_ledger_plans_only_the_rest() {
    let list = builtin_migrations();
    let full = migrate_ledger(&list, Vec::new()).unwrap();
    let partial: Vec<AppliedMigration> = full.iter().take(3).cloned().collect();
    let plan = plan_migrations(&list, &partial).unwrap();
    let got: Vec<i64> = plan.iter().map(|m| m.version).collect();
    assert_eq!(got, vec![5, 6, 7, 8]);
}

#[test]
fn declared_sequence_missing_an_applied_version_is_rejected() {
    let full = MigrationList(vec![
        step(1, "CREATE TABLE a (x int);", MigrationKind::Up),
        step(2, "CREATE TABLE b (x int);", MigrationKind::Up),
        step(3, "CREATE TABLE c (x int);", MigrationKind::Up),
    ]);
    let ledger = migrate_ledger(&full, Vec::new()).unwrap();
    let shrunk = MigrationList(vec![
        step(1, "CREATE TABLE a (x int);", MigrationKind::Up),
        step(3, "CREATE TABLE c (x int);", MigrationKind::Up),
    ]);
    assert_eq!(plan_migrations(&shrunk, &ledger).unwrap_err(), MigrationError::VersionMissing(2));
    assert_eq!(migrate_ledger(&shrunk, ledger).unwrap_err(), MigrationError::VersionMissing(2));
}

#[test]
fn edited_statement_is_rejected() {
    let first = MigrationList(vec![step(1, "CREATE TABLE a (x int);", MigrationKind::Up)]);
    let ledger = migrate_ledger(&first, Vec::new()).unwrap();
    let edited = MigrationList(vec![step(1, "CREATE TABLE a (y int);", MigrationKind::Up)]);
    assert_eq!(plan_migrations(&edited, &ledger).unwrap_err(), MigrationError::VersionChanged(1));
}

#[test]
fn checksum_is_a_digest_not_the_statement_bytes() {
    let sql = "CREATE TABLE a (x int);";
    let list = MigrationList(vec![step(1, sql, MigrationKind::Up)]);
    let raw = vec![AppliedMigration { version: 1, checksum: sql.as_bytes().to_vec() }];
    assert_eq!(plan_migrations(&list, &raw).unwrap_err(), MigrationError::VersionChanged(1));
    let ledger = migrate_ledger(&list, Vec::new()).unwrap();
    assert_eq!(ledger[0].checksum.len(), 48);
}

#[test]
fn out_of_order_declaration_is_rejected() {
    let list = MigrationList(vec![
        step(1, "a", MigrationKind::Up),
        step(6, "b", MigrationKind::Up),
        step(4, "c", MigrationKind::Up),
    ]);
    assert_eq!(plan_migrations(&list, &Vec::new()).unwrap_err(), MigrationError::NotIncreasing);
}

#[test]
fn duplicate_version_is_rejected() {
    let list = MigrationList(vec![step(1, "a", MigrationKind::Up), step(1, "b", MigrationKind::Up)]);
    assert_eq!(plan_migrations(&list, &Vec::new()).unwrap_err(), MigrationError::NotIncreasing);
}

#[test]
fn reverse_steps_are_left_out() {
    let list = MigrationList(vec![
        step(1, "a", MigrationKind::Up),
        step(2, "b", MigrationKind::Down),
        step(3, "c", MigrationKind::Up),
    ]);
    let fwd: Vec<i64> = list.forward_steps().iter().map(|m| m.version).collect();
    assert_eq!(fwd, vec![1, 3]);
}

#[test]
fn ledger_beyond_declaration_is_rejected() {
    let list = MigrationList(vec![step(1, "a", MigrationKind::Up)]);
    let mut ledger = migrate_ledger(&list, Vec::new()).unwrap();
    ledger.push(AppliedMigration { version: 2, checksum: vec![0] });
    assert_eq!(plan_migrations(&list, &ledger).unwrap_err(), MigrationError::VersionMissing(2));
}

#[test]
fn add_migrations_registers_the_list() {
    let reg = add_migrations("db", builtin_migrations().0).unwrap();
    assert_eq!(reg.db_url, "db");
    assert_eq!(reg.list.0.len(), 7);
}
