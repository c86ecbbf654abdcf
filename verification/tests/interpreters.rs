//! The table-creation decision logic and the error-code registry.

use datavalues::error::ErrorKind;
use datavalues::interp::CreateTableAction;
use datavalues::interp::CreateTableInterpreterV2;
use datavalues::interp::CreateTablePlanV2;
use datavalues::interp::StorageDescription;

fn plan(table: &str, engine: &str, cluster_keys: Vec<String>, as_select: bool) -> CreateTablePlanV2 {
    CreateTablePlanV2 {
        tenant: "tenant".to_owned(),
        catalog: "default".to_owned(),
        database: "db".to_owned(),
        table: table.to_owned(),
        engine: engine.to_owned(),
        cluster_keys,
        as_select,
    }
}

fn engines() -> Vec<StorageDescription> {
    vec![
        StorageDescription { engine_name: "Fuse".to_owned(), support_cluster_key: true },
        StorageDescription { engine_name: "Memory".to_owned(), support_cluster_key: false },
    ]
}

#[test]
fn create_table_proceeds_for_a_known_engine() {
    let it = CreateTableInterpreterV2::try_create(plan("t1", "FUSE", vec![], false)).unwrap();
    assert_eq!(it.name(), "CreateTableInterpreterV2");
    let action = it.check_create_table(0, &vec![], &engines()).unwrap();
    assert!(matches!(action, CreateTableAction::CreateTable));
}

#[test]
fn create_table_as_select_is_chosen_when_the_plan_has_a_source() {
    let it = CreateTableInterpreterV2::try_create(plan("t1", "fuse", vec![], true)).unwrap();
    let action = it.check_create_table(0, &vec![], &engines()).unwrap();
    assert!(matches!(action, CreateTableAction::CreateTableAsSelect));
}

#[test]
fn quota_stops_creation_when_the_database_is_full() {
    let it = CreateTableInterpreterV2::try_create(plan("t9", "fuse", vec![], false)).unwrap();
    let existing = vec!["a".to_owned(), "b".to_owned()];
    let err = it.check_create_table(2, &existing, &engines()).unwrap_err();
    assert_eq!(err.kind(), ErrorKind::TenantQuotaExceeded);
    assert!(it.check_create_table(3, &existing, &engines()).is_ok());
}

#[test]
fn cluster_keys_need_engine_support() {
    let it = CreateTableInterpreterV2::try_create(
        plan("t1", "memory", vec!["k".to_owned()], false),
    )
    .unwrap();
    let err = it.check_create_table(0, &vec![], &engines()).unwrap_err();
    assert_eq!(err.kind(), ErrorKind::UnsupportedEngineParams);

    let it = CreateTableInterpreterV2::try_create(plan("t1", "fuse", vec!["k".to_owned()], false))
        .unwrap();
    assert!(it.check_create_table(0, &vec![], &engines()).is_ok());
}

#[test]
fn unknown_engine_is_an_error_unless_the_name_already_exists() {
    let it = CreateTableInterpreterV2::try_create(plan("t1", "paper", vec![], false)).unwrap();
    let err = it.check_create_table(0, &vec![], &engines()).unwrap_err();
    assert_eq!(err.kind(), ErrorKind::UnknownTableEngine);
    assert_eq!(err.code(), 2702);

    let existing = vec!["t1".to_owned()];
    assert!(it.check_create_table(0, &existing, &engines()).is_ok());
}

#[test]
fn error_kinds_carry_their_registered_codes() {
    assert_eq!(ErrorKind::Success.code(), 0);
    assert_eq!(ErrorKind::BadDataValueType.code(), 1010);
    assert_eq!(ErrorKind::AbortedSession.code(), datavalues::error::ABORT_SESSION);
    assert_eq!(ErrorKind::AbortedQuery.code(), datavalues::error::ABORT_QUERY);
    assert_eq!(ErrorKind::UnknownTableEngine.code(), 2702);
    assert_eq!(ErrorKind::AlreadyStopped.code(), 5002);
}

#[test]
fn insert_fields_keep_select_order_and_drop_unknown_names() {
    let table_fields = vec!["a".to_owned(), "b".to_owned(), "c".to_owned()];
    let select_fields = vec!["c".to_owned(), "x".to_owned(), "a".to_owned()];
    let picked = datavalues::interp::select_insert_fields(&table_fields, &select_fields);
    assert_eq!(picked, vec!["c".to_owned(), "a".to_owned()]);
}
