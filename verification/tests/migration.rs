use charybdis_core::args::Args;
use charybdis_core::builder::MigrationBuilder;
use charybdis_core::cql::{CqlStatement, ModelRunner};
use charybdis_core::data::MigrationUnitData;
use charybdis_core::migration::{Migration, MigrationTarget, NamedSchema, SchemaSet};
use charybdis_core::modelize::{is_cargo_lock, project_root_index, ModelizationUnit};
use charybdis_core::options::{alter_options_from, extract_alter_table_options, PatternError};
use charybdis_core::plan::{MigrationAction, MigrationError, MigrationStep, MigrationUnit, ModelMigration};
use charybdis_core::schema::{Column, ModelType, SchemaObject, SecondaryIndex};

fn col(name: &str, t: &str) -> Column {
    Column { name: name.to_string(), cql_type: t.to_string(), is_static: false }
}

fn idx(name: &str, target: &str) -> SecondaryIndex {
    SecondaryIndex { name: name.to_string(), target: target.to_string() }
}

fn strings(v: &[&str]) -> Vec<String> {
    v.iter().map(|s| s.to_string()).collect()
}

fn table(cols: Vec<Column>, pk: &[&str], ck: &[&str]) -> SchemaObject {
    SchemaObject {
        fields: cols,
        partition_keys: strings(pk),
        clustering_keys: strings(ck),
        global_secondary_indexes: vec![],
        local_secondary_indexes: vec![],
        table_options: None,
        base_table: String::new(),
    }
}

fn users_code() -> SchemaObject {
    let mut s = table(vec![col("id", "uuid"), col("username", "text"), col("email", "text")], &["id"], &[]);
    s.global_secondary_indexes = vec![idx("users_username_idx", "username")];
    s
}

fn args(drop_and_replace: bool) -> Args {
    let mut a = Args::with_current_dir("/project".to_string());
    a.drop_and_replace = drop_and_replace;
    a
}

fn plan_of(name: &str, t: ModelType, code: &SchemaObject, db: &SchemaObject, drop_and_replace: bool) -> Vec<MigrationAction> {
    let name = name.to_string();
    let data = MigrationUnitData::new(&name, t, code, db);
    let a = args(drop_and_replace);
    let m = ModelMigration::new(&data, &a);
    match m.refusal() {
        Some((mut before, e)) => {
            before.push(MigrationAction::Abort(e));
            before
        }
        None => m.plan(),
    }
}

fn unit_plan_of(name: &str, t: ModelType, code: &SchemaObject, db: &SchemaObject) -> Vec<MigrationAction> {
    let name = name.to_string();
    let data = MigrationUnitData::new(&name, t, code, db);
    let u = MigrationUnit::new(&data);
    match u.refusal() {
        Some((mut before, e)) => {
            before.push(MigrationAction::Abort(e));
            before
        }
        None => u.plan(),
    }
}

fn cql_of(name: &str, t: ModelType, code: &SchemaObject, db: &SchemaObject, action: MigrationAction) -> Vec<String> {
    let name = name.to_string();
    let data = MigrationUnitData::new(&name, t, code, db);
    let a = args(true);
    let runner = ModelRunner::new(&data, &a);
    runner.action_cql(action).unwrap().into_iter().map(|s| s.cql).collect()
}

#[test]
fn steps_run_in_non_conflicting_order() {
    assert_eq!(
        MigrationStep::array(),
        [
            MigrationStep::ChangeTableOptions,
            MigrationStep::ChangeFieldTypes,
            MigrationStep::AddFields,
            MigrationStep::AddGlobalIndexes,
            MigrationStep::AddLocalIndexes,
            MigrationStep::RemoveLocalIndexes,
            MigrationStep::RemoveGlobalIndexes,
            MigrationStep::RemoveFields,
        ]
    );
}

#[test]
fn diff_of_columns_and_indexes() {
    let code = users_code();
    let mut db = table(vec![col("id", "uuid"), col("email", "TEXT"), col("old", "int")], &["id"], &[]);
    db.global_secondary_indexes = vec![idx("users_email_idx", "email")];
    let name = "users".to_string();
    let d = MigrationUnitData::new(&name, ModelType::Table, &code, &db);
    assert_eq!(d.new_fields.len(), 1);
    assert_eq!(d.new_fields[0].name, "username");
    assert_eq!(d.new_fields[0].cql_type, "text");
    assert_eq!(d.removed_fields, vec!["old"]);
    assert!(d.changed_field_types.is_empty());
    assert_eq!(d.new_global_secondary_indexes, vec!["username"]);
    assert_eq!(d.removed_global_secondary_indexes, vec!["users_email_idx"]);
    assert!(!d.is_first_migration());
    assert!(!d.partition_key_changed());
    assert_eq!(d.construct_index_name(&"username".to_string()), "users_username_idx");
}

#[test]
fn added_and_dropped_columns_are_disjoint() {
    let code = table(vec![col("id", "uuid"), col("a", "int"), col("b", "int")], &["id"], &[]);
    let db = table(vec![col("id", "uuid"), col("b", "text"), col("c", "int")], &["id"], &[]);
    let name = "t".to_string();
    let d = MigrationUnitData::new(&name, ModelType::Table, &code, &db);
    let added: Vec<String> = d.new_fields.iter().map(|f| f.name.clone()).collect();
    assert_eq!(added, vec!["a"]);
    assert_eq!(d.removed_fields, vec!["c"]);
    assert!(added.iter().all(|a| !d.removed_fields.contains(a)));
    assert_eq!(d.changed_field_types.len(), 1);
    assert_eq!(d.changed_field_types[0].name, "b");
}

#[test]
fn type_comparison_ignores_case_and_spaces() {
    let code = table(vec![col("id", "uuid"), col("address", "frozen<address>")], &["id"], &[]);
    let db = table(vec![col("id", "uuid"), col("address", "FROZEN< address >")], &["id"], &[]);
    let name = "users".to_string();
    let d = MigrationUnitData::new(&name, ModelType::Table, &code, &db);
    assert!(!d.field_type_changed());
    let db2 = table(vec![col("id", "uuid"), col("address", "text")], &["id"], &[]);
    let d2 = MigrationUnitData::new(&name, ModelType::Table, &code, &db2);
    assert!(d2.field_type_changed());
    assert_eq!(d2.changed_field_types[0].db_type, "text");
    assert_eq!(d2.changed_field_types[0].code_type, "frozen<address>");
}

#[test]
fn first_migration_creates_then_indexes() {
    let code = users_code();
    let empty = SchemaObject::empty();
    assert_eq!(
        plan_of("users", ModelType::Table, &code, &empty, false),
        vec![MigrationAction::FirstMigration, MigrationAction::AddGlobalIndexes]
    );
    assert_eq!(
        unit_plan_of("users", ModelType::Table, &code, &empty),
        vec![MigrationAction::FirstMigration, MigrationAction::AddGlobalIndexes]
    );
}

#[test]
fn matching_schema_changes_nothing() {
    let code = users_code();
    let db = users_code();
    let expected = vec![MigrationAction::ChangeTableOptions, MigrationAction::ReportNoFieldChanges];
    assert_eq!(plan_of("users", ModelType::Table, &code, &db, false), expected);
    assert_eq!(plan_of("users", ModelType::Table, &code, &db, true), expected);
    assert_eq!(unit_plan_of("users", ModelType::Table, &code, &db), expected);
}

#[test]
fn reordered_keys_are_not_a_change() {
    let code = table(vec![col("a", "int"), col("b", "int"), col("c", "int")], &["a", "b"], &["c"]);
    let db = table(vec![col("a", "int"), col("b", "int"), col("c", "int")], &["b", "a"], &["c"]);
    assert_eq!(
        plan_of("t", ModelType::Table, &code, &db, false),
        vec![MigrationAction::ChangeTableOptions, MigrationAction::ReportNoFieldChanges]
    );
}

#[test]
fn key_changes_are_refused() {
    let code = table(vec![col("a", "int"), col("b", "int")], &["a"], &["b"]);
    let db = table(vec![col("a", "int"), col("b", "int")], &["b"], &["a"]);
    assert_eq!(
        plan_of("t", ModelType::Table, &code, &db, true),
        vec![MigrationAction::Abort(MigrationError::PartitionKeyChange)]
    );
    let db2 = table(vec![col("a", "int"), col("b", "int")], &["a"], &[]);
    assert_eq!(
        plan_of("t", ModelType::Table, &code, &db2, true),
        vec![MigrationAction::Abort(MigrationError::ClusteringKeyChange)]
    );
    assert_eq!(
        unit_plan_of("t", ModelType::Table, &code, &db2),
        vec![MigrationAction::ChangeTableOptions, MigrationAction::Abort(MigrationError::ClusteringKeyChange)]
    );
}

#[test]
fn type_change_needs_drop_and_replace() {
    let code = table(vec![col("id", "uuid"), col("n", "bigint")], &["id"], &[]);
    let db = table(vec![col("id", "uuid"), col("n", "int")], &["id"], &[]);
    assert_eq!(
        plan_of("t", ModelType::Table, &code, &db, false),
        vec![MigrationAction::ChangeTableOptions, MigrationAction::Abort(MigrationError::FieldTypeChange)]
    );
    assert_eq!(
        plan_of("t", ModelType::Table, &code, &db, true),
        vec![MigrationAction::ChangeTableOptions, MigrationAction::ChangeFieldTypes]
    );
    assert_eq!(
        unit_plan_of("t", ModelType::Table, &code, &db),
        vec![MigrationAction::ChangeTableOptions, MigrationAction::Abort(MigrationError::FieldTypeChangeUnsupported)]
    );
    assert_eq!(
        cql_of("t", ModelType::Table, &code, &db, MigrationAction::ChangeFieldTypes),
        vec!["ALTER Table t DROP (n)".to_string(), "ALTER Table t ADD (n bigint)".to_string()]
    );
}

#[test]
fn materialized_view_columns_cannot_change() {
    let code = table(vec![col("a", "int"), col("b", "int"), col("c", "int")], &["a"], &["b"]);
    let db = table(vec![col("a", "int"), col("b", "int")], &["a"], &["b"]);
    assert_eq!(
        plan_of("v", ModelType::MaterializedView, &code, &db, false),
        vec![MigrationAction::ChangeTableOptions, MigrationAction::Abort(MigrationError::MaterializedViewFieldsChange)]
    );
}

#[test]
fn udt_fields_cannot_be_removed() {
    let code = table(vec![col("street", "text")], &[], &[]);
    let db = table(vec![col("street", "text"), col("zip", "text")], &[], &[]);
    assert_eq!(
        plan_of("address", ModelType::Udt, &code, &db, false),
        vec![MigrationAction::ChangeTableOptions, MigrationAction::Abort(MigrationError::UdtFieldsRemoval)]
    );
    assert_eq!(
        unit_plan_of("address", ModelType::Udt, &code, &db),
        vec![MigrationAction::ChangeTableOptions, MigrationAction::Abort(MigrationError::UdtFieldsRemoval)]
    );
}

#[test]
fn full_table_migration() {
    let mut code = table(vec![col("id", "uuid"), col("bio", "text")], &["id"], &[]);
    code.global_secondary_indexes = vec![idx("users_bio_idx", "bio")];
    code.local_secondary_indexes = vec![idx("users_id_bio_idx", "bio")];
    let mut db = table(vec![col("id", "uuid"), col("old", "int")], &["id"], &[]);
    db.global_secondary_indexes = vec![idx("users_old_idx", "old")];
    db.local_secondary_indexes = vec![idx("users_id_old_idx", "old")];
    assert_eq!(
        plan_of("users", ModelType::Table, &code, &db, false),
        vec![
            MigrationAction::ChangeTableOptions,
            MigrationAction::AddFields,
            MigrationAction::AddGlobalIndexes,
            MigrationAction::AddLocalIndexes,
            MigrationAction::RemoveLocalIndexes,
            MigrationAction::RemoveGlobalIndexes,
            MigrationAction::RemoveFields,
        ]
    );
    assert_eq!(
        unit_plan_of("users", ModelType::Table, &code, &db),
        vec![
            MigrationAction::ChangeTableOptions,
            MigrationAction::AddFields,
            MigrationAction::RemoveFields,
            MigrationAction::AddGlobalIndexes,
            MigrationAction::AddLocalIndexes,
            MigrationAction::RemoveGlobalIndexes,
            MigrationAction::RemoveLocalIndexes,
        ]
    );
    let t = ModelType::Table;
    assert_eq!(cql_of("users", t, &code, &db, MigrationAction::AddFields), vec!["ALTER Table users ADD (bio text)"]);
    assert_eq!(cql_of("users", t, &code, &db, MigrationAction::RemoveFields), vec!["ALTER Table users DROP (old)"]);
    assert_eq!(
        cql_of("users", t, &code, &db, MigrationAction::AddGlobalIndexes),
        vec!["CREATE INDEX IF NOT EXISTS users_bio_idx ON users (bio)"]
    );
    assert_eq!(cql_of("users", t, &code, &db, MigrationAction::RemoveGlobalIndexes), vec!["DROP INDEX users_old_idx"]);
    assert_eq!(
        cql_of("users", t, &code, &db, MigrationAction::AddLocalIndexes),
        vec!["CREATE INDEX IF NOT EXISTS users_id_bio_idx ON users ((id), bio)"]
    );
    assert_eq!(cql_of("users", t, &code, &db, MigrationAction::RemoveLocalIndexes), vec!["DROP INDEX users_id_old_idx"]);
    assert!(cql_of("users", t, &code, &db, MigrationAction::ReportNoFieldChanges).is_empty());
}

#[test]
fn local_index_statement() {
    let mut code = table(vec![col("location", "text"), col("name", "text"), col("dish_type", "text")], &["location"], &["name"]);
    code.local_secondary_indexes = vec![idx("menus_location_dish_type_idx", "dish_type")];
    let empty = SchemaObject::empty();
    assert_eq!(
        cql_of("menus", ModelType::Table, &code, &empty, MigrationAction::AddLocalIndexes),
        vec!["CREATE INDEX IF NOT EXISTS menus_location_dish_type_idx ON menus ((location), dish_type)"]
    );
}

#[test]
fn udt_fields_are_added_one_by_one() {
    let code = table(vec![col("street", "text"), col("zip", "text"), col("city", "text")], &[], &[]);
    let db = table(vec![col("street", "text")], &[], &[]);
    assert_eq!(
        cql_of("address", ModelType::Udt, &code, &db, MigrationAction::AddFields),
        vec!["ALTER TYPE address ADD zip text", "ALTER TYPE address ADD city text"]
    );
}

#[test]
fn create_statements() {
    let empty = SchemaObject::empty();
    let udt = table(vec![col("street", "text"), col("city", "text")], &[], &[]);
    assert_eq!(
        cql_of("address", ModelType::Udt, &udt, &empty, MigrationAction::FirstMigration),
        vec!["CREATE TYPE IF NOT EXISTS address\n(\n    street text,\n    city text\n);\n"]
    );
    let mut t = table(vec![col("object_id", "uuid"), col("created_at", "timestamp"), col("id", "uuid")], &["object_id"], &["created_at", "id"]);
    t.fields[2].is_static = true;
    t.table_options = Some("CLUSTERING ORDER BY (created_at DESC)".to_string());
    assert_eq!(
        cql_of("commits", ModelType::Table, &t, &empty, MigrationAction::FirstMigration),
        vec!["CREATE TABLE IF NOT EXISTS commits\n(\n    object_id uuid,\n    created_at timestamp,\n    id uuid STATIC, \n    PRIMARY KEY ((object_id) ,created_at, id)\n) \n WITH CLUSTERING ORDER BY (created_at DESC)"]
    );
    let plain = table(vec![col("id", "uuid")], &["id"], &[]);
    assert_eq!(
        cql_of("t", ModelType::Table, &plain, &empty, MigrationAction::FirstMigration),
        vec!["CREATE TABLE IF NOT EXISTS t\n(\n    id uuid, \n    PRIMARY KEY ((id) )\n) \n "]
    );
    let mut mv = table(vec![col("email", "text"), col("id", "uuid"), col("username", "text")], &["email"], &["id"]);
    mv.base_table = "users".to_string();
    assert_eq!(
        cql_of("users_by_email", ModelType::MaterializedView, &mv, &empty, MigrationAction::FirstMigration),
        vec!["CREATE MATERIALIZED VIEW IF NOT EXISTS users_by_email\nAS SELECT email, id, username \nFROM users\nWHERE email IS NOT NULL AND id IS NOT NULL\nPRIMARY KEY (email, id)\n\n"]
    );
    let mut readme = table(
        vec![col("created_at", "timestamp"), col("updated_at", "timestamp"), col("username", "text"), col("email", "text"), col("id", "uuid")],
        &["email"],
        &["id"],
    );
    readme.base_table = "users".to_string();
    let cql = cql_of("users_by_email", ModelType::MaterializedView, &readme, &empty, MigrationAction::FirstMigration);
    let normalized: Vec<String> = cql.iter().map(|q| q.split_whitespace().collect::<Vec<_>>().join(" ")).collect();
    assert_eq!(
        normalized,
        vec!["CREATE MATERIALIZED VIEW IF NOT EXISTS users_by_email AS SELECT created_at, updated_at, username, email, id FROM users WHERE email IS NOT NULL AND id IS NOT NULL PRIMARY KEY (email, id)"]
    );
    let mut composite = table(vec![col("a", "int"), col("b", "int"), col("c", "int")], &["a", "b"], &["c"]);
    composite.base_table = "t".to_string();
    let cql = cql_of("t_by_ab", ModelType::MaterializedView, &composite, &empty, MigrationAction::FirstMigration);
    assert!(cql[0].contains("PRIMARY KEY ((a, b), c)\n"));
}

#[test]
fn table_options_without_clustering_order() {
    let options = Some("\n WITH CLUSTERING ORDER BY (created_at DESC) \n AND gc_grace_seconds = 86400\n ".to_string());
    assert_eq!(extract_alter_table_options(&options), Ok(Some("gc_grace_seconds = 86400".to_string())));
    assert_eq!(extract_alter_table_options(&Some("CLUSTERING ORDER BY (id ASC)".to_string())), Ok(None));
    assert_eq!(extract_alter_table_options(&Some("compact storage AND comment = 'x'".to_string())), Ok(Some("comment = 'x'".to_string())));
    assert_eq!(extract_alter_table_options(&None), Ok(None));
    let mut t = table(vec![col("id", "uuid")], &["id"], &[]);
    t.table_options = options;
    let db = table(vec![col("id", "uuid")], &["id"], &[]);
    assert_eq!(
        cql_of("commits", ModelType::Table, &t, &db, MigrationAction::ChangeTableOptions),
        vec!["\n ALTER TABLE commits WITH gc_grace_seconds = 86400"]
    );
    assert!(cql_of("address", ModelType::Udt, &t, &db, MigrationAction::ChangeTableOptions).is_empty());
    let _: Option<PatternError> = None;
}

#[test]
fn table_options_statement_is_printed_when_verbose() {
    let mut t = table(vec![col("id", "uuid")], &["id"], &[]);
    t.table_options = Some("gc_grace_seconds = 10".to_string());
    let name = "t".to_string();
    let data = MigrationUnitData::new(&name, ModelType::Table, &t, &t);
    let mut a = args(false);
    let quiet = ModelRunner::new(&data, &a).table_options_change_cql().unwrap();
    assert_eq!(quiet.len(), 1);
    assert!(!quiet[0].print);
    a.verbose = true;
    let loud = ModelRunner::new(&data, &a).table_options_change_cql().unwrap();
    assert!(loud[0].print);
}

#[test]
fn empty_options_are_none() {
    assert_eq!(alter_options_from(String::new()), None);
    assert_eq!(alter_options_from("x = 1".to_string()), Some("x = 1".to_string()));
}

#[test]
fn migration_targets_match_by_name() {
    let code = SchemaSet {
        udts: vec![NamedSchema { name: "address".to_string(), schema: SchemaObject::empty() }],
        tables: vec![
            NamedSchema { name: "users".to_string(), schema: users_code() },
            NamedSchema { name: "posts".to_string(), schema: SchemaObject::empty() },
        ],
        materialized_views: vec![],
    };
    let db = SchemaSet {
        udts: vec![],
        tables: vec![
            NamedSchema { name: "posts".to_string(), schema: SchemaObject::empty() },
            NamedSchema { name: "users".to_string(), schema: SchemaObject::empty() },
        ],
        materialized_views: vec![],
    };
    let m = Migration::new(db, code);
    assert_eq!(
        m.targets(),
        vec![
            MigrationTarget { kind: ModelType::Udt, code_index: 0, db_index: None },
            MigrationTarget { kind: ModelType::Table, code_index: 0, db_index: Some(1) },
            MigrationTarget { kind: ModelType::Table, code_index: 1, db_index: Some(0) },
        ]
    );
    assert_eq!(m.get_code_schema().tables.len(), 2);
    assert_eq!(m.get_db_schema().udts.len(), 0);
}

#[test]
fn builder_options() {
    let b = MigrationBuilder::new("/project".to_string())
        .keyspace("ks".to_string())
        .drop_and_replace(true)
        .verbose(true)
        .code_schema_override_json("{}".to_string())
        .current_dir("/other".to_string());
    assert_eq!(b.args.keyspace, "ks");
    assert!(b.args.drop_and_replace);
    assert!(b.args.verbose);
    assert_eq!(b.args.code_schema_override_json.as_deref(), Some("{}"));
    assert_eq!(b.args.current_dir, "/other");
    assert_eq!(b.args.timeout, 30);
    let from: MigrationBuilder = MigrationBuilder::from(args(true));
    assert!(from.args.drop_and_replace);
}

#[test]
fn keyspace_comes_from_the_session_when_missing() {
    let b = MigrationBuilder::new("/p".to_string());
    assert!(b.has_keyspace_with(&Some("session_ks".to_string())));
    let r = b.with_session_keyspace(Some("session_ks".to_string()));
    assert_eq!(r.args.keyspace, "session_ks");
    let kept = MigrationBuilder::new("/p".to_string()).keyspace("given".to_string()).with_session_keyspace(Some("s".to_string()));
    assert_eq!(kept.args.keyspace, "given");
    assert!(MigrationBuilder::new("/p".to_string()).keyspace("given".to_string()).has_keyspace_with(&None));
    assert!(!MigrationBuilder::new("/p".to_string()).has_keyspace_with(&None));
}

#[test]
fn modelization_reports_udts() {
    let name = "address".to_string();
    let s = SchemaObject::empty();
    assert_eq!(
        ModelizationUnit::new(&name, ModelType::Udt, &s).run(),
        vec!["Modelizing udt address...", "Modelized udt address successfully!"]
    );
    assert!(ModelizationUnit::new(&name, ModelType::Table, &s).run().is_empty());
    assert_eq!(ModelType::MaterializedView.display_name(), "Materialized View");
}

#[test]
fn modelization_writes_udt_model_files() {
    let name = "user_address".to_string();
    let udt = table(
        vec![col("street", "text"), col("zip", "int"), col("tags", "set<text>"), col("prices", "map<text, bigint>"), col("home", "frozen<location>")],
        &[],
        &[],
    );
    let file = ModelizationUnit::new(&name, ModelType::Udt, &udt).model_file().unwrap();
    assert_eq!(
        file,
        "use charybdis::macros::charybdis_udt_model;\nuse charybdis::types::{Ascii, BigInt, Blob, Boolean, Counter, Date, Decimal, Double, Duration, Float, Frozen, Inet, Int, List, Map, Set, SmallInt, Text, Time, Timestamp, Timeuuid, TinyInt, Tuple, Uuid, Varint};\n\n#[charybdis_udt_model(type_name = user_address)]\npub struct UserAddress {\n    pub street: Text,\n    pub zip: Int,\n    pub tags: Set<Text>,\n    pub prices: Map<Text, BigInt>,\n    pub home: Frozen<Location>,\n}\n"
    );
    assert!(ModelizationUnit::new(&name, ModelType::Table, &udt).model_file().is_none());
}

#[test]
fn refusals_stop_the_plan() {
    let code = table(vec![col("id", "uuid"), col("name", "int")], &["id"], &[]);
    let db = table(vec![col("id", "uuid"), col("name", "text")], &["id"], &[]);
    assert_eq!(
        plan_of("t", ModelType::Table, &code, &db, false),
        vec![MigrationAction::ChangeTableOptions, MigrationAction::Abort(MigrationError::FieldTypeChange)]
    );
    assert_eq!(
        unit_plan_of("t", ModelType::Table, &code, &db),
        vec![MigrationAction::ChangeTableOptions, MigrationAction::Abort(MigrationError::FieldTypeChangeUnsupported)]
    );
    let moved = table(vec![col("id", "uuid"), col("name", "text")], &["name"], &[]);
    assert_eq!(
        plan_of("t", ModelType::Table, &moved, &db, true),
        vec![MigrationAction::Abort(MigrationError::PartitionKeyChange)]
    );
    let view_code = table(vec![col("id", "uuid"), col("extra", "int")], &["id"], &[]);
    let view_db = table(vec![col("id", "uuid"), col("old", "int")], &["id"], &[]);
    let plan = plan_of("v", ModelType::MaterializedView, &view_code, &view_db, true);
    assert_eq!(plan.last(), Some(&MigrationAction::Abort(MigrationError::MaterializedViewFieldsChange)));
    let name = "t".to_string();
    let data = MigrationUnitData::new(&name, ModelType::Table, &code, &db);
    let a = args(false);
    let (before, e) = ModelMigration::new(&data, &a).refusal().unwrap();
    assert_eq!(before, vec![MigrationAction::ChangeTableOptions]);
    assert_eq!(e, MigrationError::FieldTypeChange);
    let a = args(true);
    assert!(ModelMigration::new(&data, &a).refusal().is_none());
    assert!(!ModelMigration::new(&data, &a).plan().iter().any(|x| matches!(x, MigrationAction::Abort(_))));
    assert!(!plan.iter().any(|a| matches!(a, MigrationAction::AddFields | MigrationAction::RemoveFields | MigrationAction::ChangeFieldTypes)));
}

#[test]
fn executed_cql_has_no_colour_escapes() {
    let s = CqlStatement { cql: "\x1b[32mALTER TABLE t\x1b[m ADD (a int)".to_string(), print: true };
    assert_eq!(s.executable_cql(), "ALTER TABLE t ADD (a int)");
    let plain = CqlStatement { cql: "DROP INDEX t_a_idx".to_string(), print: false };
    assert_eq!(plain.executable_cql(), "DROP INDEX t_a_idx");
}

#[test]
fn schema_validity_is_distinct_column_names() {
    assert!(SchemaObject::empty().has_distinct_column_names());
    let ok = table(vec![col("id", "uuid"), col("name", "text")], &["id"], &[]);
    assert!(ok.has_distinct_column_names());
    let twice = table(vec![col("id", "uuid"), col("name", "text"), col("name", "int")], &["id"], &[]);
    assert!(!twice.has_distinct_column_names());
    let name = "t".to_string();
    let d = MigrationUnitData::new(&name, ModelType::Table, &ok, &ok);
    assert!(d.new_fields.is_empty() && d.removed_fields.is_empty() && d.changed_field_types.is_empty());
    assert!(!d.partition_key_changed() && !d.clustering_key_changed());
}

#[test]
fn project_root_is_the_nearest_directory_with_a_lock_file() {
    assert!(is_cargo_lock("Cargo.lock"));
    assert!(!is_cargo_lock("Cargo.toml"));
    assert_eq!(project_root_index(&vec![false, true, true]), Some(1));
    assert_eq!(project_root_index(&vec![false, false]), None);
}
