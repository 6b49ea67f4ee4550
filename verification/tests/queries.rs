use charybdis_core::fields::{
    check_row_size, comma_sep_cols, db_fields, field_kind, insert_bind_markers, row_layout, FieldSource, RowSizeError, set_bind_markers, where_bind_markers, where_placeholders, FieldKind, ModelField,
    ModelFields,
};
use charybdis_core::model_impls::{
    find_by_partition_key_query_const as positional_find_by_partition_key, find_by_primary_key_query_const as positional_find_by_primary_key,
    primary_key_values, pull_from_collection_funs, push_to_collection_funs, serialized_field_value_adder, serialized_value_adder,
    update_query_const as positional_update_query, update_values,
};
use charybdis_core::model_rules;
use charybdis_core::native::{
    decrement_counter_methods, delete_by_primary_key_functions, find_by_fn_name, find_by_local_secondary_index,
    find_by_primary_keys_functions, find_first_by_fn_name, increment_counter_methods, maybe_find_first_by_fn_name,
    pull_from_collection_consts, push_to_collection_consts,
};
use charybdis_core::queries::{
    delete_by_partition_key_query_const, delete_query_const, find_all_query_const, find_by_partition_key_query_consts,
    find_by_primary_key_query_const, find_first_by_partition_key_query_const, insert_if_not_exists_query_const,
    insert_query_const, update_query_const, MacroArgs,
};
use charybdis_core::rules::{
    delete_model_query_rule, delete_model_rule, find_first_model_rule, find_model_query_rule, find_model_rule,
    update_model_query_rule,
};

fn field(name: &str, type_text: &str) -> ModelField {
    ModelField { name: name.to_string(), type_text: type_text.to_string(), ignored: false }
}

fn plain(name: &str) -> ModelField {
    field(name, "Text")
}

fn strings(v: &[&str]) -> Vec<String> {
    v.iter().map(|s| s.to_string()).collect()
}

fn args(table: &str, partition: &[&str], clustering: &[&str]) -> MacroArgs {
    MacroArgs {
        table_name: table.to_string(),
        partition_keys: strings(partition),
        clustering_keys: strings(clustering),
        local_secondary_indexes: vec![],
    }
}

/// posts: partition key [date], clustering keys [category_id, title], plus id.
fn posts() -> (MacroArgs, ModelFields) {
    let fields = ModelFields {
        db_fields: vec![plain("date"), plain("category_id"), plain("title"), plain("id")],
        primary_key_fields: vec![plain("date"), plain("category_id"), plain("title")],
        partition_key_fields: vec![plain("date")],
        clustering_key_fields: vec![plain("category_id"), plain("title")],
        local_secondary_index_fields: vec![plain("title")],
    };
    (args("posts", &["date"], &["category_id", "title"]), fields)
}

/// users: partition key [id], with a set of tags and a list of post ids.
fn users() -> (MacroArgs, ModelFields) {
    let fields = ModelFields {
        db_fields: vec![
            plain("id"),
            field("tags", "Set<Text>"),
            field("post_ids", "List<Uuid>"),
            field("meta", "Map<Text, Text>"),
        ],
        primary_key_fields: vec![plain("id")],
        partition_key_fields: vec![plain("id")],
        clustering_key_fields: vec![],
        local_secondary_index_fields: vec![],
    };
    (args("users", &["id"], &[]), fields)
}

const POST_COLUMNS: &str = "\"date\", \"category_id\", \"title\", \"id\"";

#[test]
fn field_clauses() {
    let fs = vec![plain("a"), plain("b")];
    assert_eq!(comma_sep_cols(&fs), "\"a\", \"b\"");
    assert_eq!(insert_bind_markers(&fs), ":a, :b");
    assert_eq!(set_bind_markers(&fs), "a = :a, b = :b");
    assert_eq!(where_placeholders(&fs), "a = ? AND b = ?");
    assert_eq!(where_bind_markers(&fs), "a = :a AND b = :b");
    assert_eq!(where_placeholders(&vec![]), "");
}

#[test]
fn model_query_consts() {
    let (a, f) = posts();
    assert_eq!(find_all_query_const(&a, &f), format!("SELECT {} FROM posts", POST_COLUMNS));
    assert_eq!(
        find_by_primary_key_query_const(&a, &f),
        format!("SELECT {} FROM posts WHERE date = ? AND category_id = ? AND title = ?", POST_COLUMNS)
    );
    assert_eq!(find_by_partition_key_query_consts(&a, &f), format!("SELECT {} FROM posts WHERE date = ?", POST_COLUMNS));
    assert_eq!(
        find_first_by_partition_key_query_const(&a, &f),
        format!("SELECT {} FROM posts WHERE date = ? LIMIT 1", POST_COLUMNS)
    );
    assert_eq!(
        insert_query_const(&a, &f),
        "INSERT INTO posts (date, category_id, title, id) VALUES (?, ?, ?, ?)"
    );
    assert_eq!(
        insert_if_not_exists_query_const(&a, &f),
        "INSERT INTO posts (date, category_id, title, id) VALUES (?, ?, ?, ?) IF NOT EXISTS"
    );
    assert_eq!(
        update_query_const(&a, &f),
        "UPDATE posts SET id = ? WHERE date = ? AND category_id = ? AND title = ?"
    );
    assert_eq!(delete_query_const(&a, &f), "DELETE FROM posts WHERE date = ? AND category_id = ? AND title = ?");
    assert_eq!(delete_by_partition_key_query_const(&a, &f), "DELETE FROM posts WHERE date = ?");
}

#[test]
fn find_helpers_by_primary_key_prefix() {
    let (a, f) = posts();
    let fns = find_by_primary_keys_functions(&a, &f);
    assert_eq!(fns.len(), 3);
    assert_eq!(fns[0].find_by, "find_by_date");
    assert_eq!(fns[1].find_by, "find_by_date_and_category_id");
    assert_eq!(fns[2].find_by, "find_by_date_and_category_id_and_title");
    assert_eq!(fns[2].find_first_by, "find_first_by_date_and_category_id_and_title");
    assert_eq!(fns[0].maybe_find_first_by, "maybe_find_first_by_date");
    assert!(!fns[0].single_row);
    assert!(!fns[1].single_row);
    assert!(fns[2].single_row);
    assert_eq!(fns[1].arity, 2);
    assert_eq!(fns[1].query, format!("SELECT {} FROM posts WHERE date = ? AND category_id = ?", POST_COLUMNS));
}

#[test]
fn find_helpers_stop_at_three_fields() {
    let fields = ModelFields {
        db_fields: vec![plain("a"), plain("b"), plain("c"), plain("d")],
        primary_key_fields: vec![plain("a"), plain("b"), plain("c"), plain("d")],
        partition_key_fields: vec![plain("a")],
        clustering_key_fields: vec![plain("b"), plain("c"), plain("d")],
        local_secondary_index_fields: vec![],
    };
    let a = args("t", &["a"], &["b", "c", "d"]);
    let fns = find_by_primary_keys_functions(&a, &fields);
    assert_eq!(fns.len(), 3);
    assert!(fns.iter().all(|f| !f.single_row));
    assert_eq!(delete_by_primary_key_functions(&a, &fields).len(), 3);
}

#[test]
fn find_helpers_of_a_single_key() {
    let (a, f) = users();
    let fns = find_by_primary_keys_functions(&a, &f);
    assert_eq!(fns.len(), 1);
    assert_eq!(fns[0].find_by, "find_by_id");
    assert!(fns[0].single_row);
}

#[test]
fn find_helpers_by_local_index() {
    let (a, f) = posts();
    let fns = find_by_local_secondary_index(&a, &f);
    assert_eq!(fns.len(), 1);
    assert_eq!(fns[0].find_by, "find_by_date_and_title");
    assert_eq!(fns[0].find_first_by, "find_first_by_date_and_title");
    assert_eq!(fns[0].maybe_find_first_by, "maybe_find_first_by_date_and_title");
    assert_eq!(fns[0].query, format!("SELECT {} FROM posts WHERE date = ? AND title = ?", POST_COLUMNS));
    assert!(!fns[0].single_row);
}

#[test]
fn find_fn_names() {
    let fs = vec![plain("date"), plain("title")];
    assert_eq!(find_by_fn_name(&fs), "find_by_date_and_title");
    assert_eq!(find_first_by_fn_name(&fs), "find_first_by_date_and_title");
    assert_eq!(maybe_find_first_by_fn_name(&fs), "maybe_find_first_by_date_and_title");
}

#[test]
fn delete_helpers() {
    let (a, f) = posts();
    let fns = delete_by_primary_key_functions(&a, &f);
    let names: Vec<&str> = fns.iter().map(|g| g.fn_name.as_str()).collect();
    assert_eq!(names, vec!["delete_by_date", "delete_by_date_and_category_id", "delete_by_date_and_category_id_and_title"]);
    assert_eq!(fns[1].query, "DELETE FROM posts WHERE date = ? AND category_id = ?");
}

#[test]
fn delete_helpers_need_the_whole_partition_key() {
    let fields = ModelFields {
        db_fields: vec![plain("a"), plain("b"), plain("c")],
        primary_key_fields: vec![plain("a"), plain("b"), plain("c")],
        partition_key_fields: vec![plain("a"), plain("b")],
        clustering_key_fields: vec![plain("c")],
        local_secondary_index_fields: vec![],
    };
    let a = args("t", &["a", "b"], &["c"]);
    let fns = delete_by_primary_key_functions(&a, &fields);
    let names: Vec<&str> = fns.iter().map(|g| g.fn_name.as_str()).collect();
    assert_eq!(names, vec!["delete_by_a_and_b", "delete_by_a_and_b_and_c"]);
    assert_eq!(fns[0].params, vec!["a", "b"]);
    assert_eq!(fns[1].params, vec!["a", "b", "c"]);
    assert_eq!(fns[1].binds, vec!["a", "b", "c"]);
}

#[test]
fn counter_methods() {
    let fields = ModelFields {
        db_fields: vec![plain("id"), field("likes", "Counter"), field("comments", "Counter")],
        primary_key_fields: vec![plain("id")],
        partition_key_fields: vec![plain("id")],
        clustering_key_fields: vec![],
        local_secondary_index_fields: vec![],
    };
    let a = args("post_counters", &["id"], &[]);
    let inc = increment_counter_methods(&a, &fields);
    assert_eq!(inc.len(), 2);
    assert_eq!(inc[0].fn_name, "increment_likes");
    assert_eq!(inc[0].query, "UPDATE post_counters SET likes = likes + ? WHERE id = ?");
    assert_eq!(inc[1].fn_name, "increment_comments");
    let dec = decrement_counter_methods(&a, &fields);
    assert_eq!(dec[1].fn_name, "decrement_comments");
    assert_eq!(dec[1].query, "UPDATE post_counters SET comments = comments - ? WHERE id = ?");
    assert_eq!(inc[0].binds, vec!["charybdis::types::Counter(increment)", "self.id.clone()"]);
    assert!(inc[0].params.is_empty());
    assert_eq!(dec[1].binds, vec!["charybdis::types::Counter(decrement)", "self.id.clone()"]);
}

#[test]
fn collection_query_consts() {
    let (a, f) = users();
    let push = push_to_collection_consts(&a, &f);
    assert_eq!(push.len(), 2);
    assert_eq!(push[0].fn_name, "PUSH_TAGS_QUERY");
    assert_eq!(push[0].query, "UPDATE users SET tags = tags + ? WHERE id = ?");
    assert_eq!(push[1].fn_name, "PUSH_POST_IDS_QUERY");
    assert_eq!(push[1].query, "UPDATE users SET post_ids = post_ids + ? WHERE id = ?");
    let pull = pull_from_collection_consts(&a, &f);
    assert_eq!(pull[0].fn_name, "PULL_TAGS_QUERY");
    assert_eq!(pull[0].query, "UPDATE users SET tags = tags - ? WHERE id = ?");
    assert_eq!(pull[1].fn_name, "PULL_POST_IDS_QUERY");
    assert_eq!(pull[1].query, "UPDATE users SET post_ids = post_ids - ? WHERE id = ?");
}

#[test]
fn collection_query_binds_value_then_key() {
    let (a, f) = users();
    for q in push_to_collection_consts(&a, &f) {
        assert_eq!(q.query.matches('?').count(), 1 + f.primary_key_fields.len());
        assert!(q.query.find('?').unwrap() < q.query.find(" WHERE ").unwrap());
    }
}

#[test]
fn generated_macro_rules() {
    let (a, f) = posts();
    let r = find_model_query_rule("Post", &a, &f);
    assert_eq!(r.macro_name, "find_post_query");
    assert_eq!(r.query_prefix, format!("SELECT {} FROM posts WHERE ", POST_COLUMNS));
    assert_eq!(r.query_suffix, "");
    assert_eq!(find_model_rule("Post", &a, &f).macro_name, "find_post");
    assert_eq!(find_first_model_rule("Post", &a, &f).macro_name, "find_first_post");
    let u = update_model_query_rule("UserPost", &a, &f);
    assert_eq!(u.macro_name, "update_user_post_query");
    assert_eq!(u.query_prefix, "UPDATE posts SET ");
    assert_eq!(u.query_suffix, " WHERE date = ? AND category_id = ? AND title = ?");
    let d = delete_model_query_rule("Post", &a);
    assert_eq!(d.macro_name, "delete_post_query");
    assert_eq!(d.query_prefix, "DELETE FROM posts WHERE ");
    assert_eq!(delete_model_rule("UsersByUsername", &a).macro_name, "delete_users_by_username");
    assert_eq!(r.call, "");
    assert_eq!(find_model_rule("Post", &a, &f).call, "<Post as charybdis::operations::Find>::find");
    assert!(find_model_rule("Post", &a, &f).takes_values);
    assert!(r.takes_values);
    assert!(!u.takes_values);
    assert_eq!(find_first_model_rule("Post", &a, &f).call, "<Post as charybdis::operations::Find>::find_first");
    assert_eq!(delete_model_rule("Post", &a).call, "<Post as charybdis::operations::Delete>::delete_by_query");
    assert_eq!(u.call, "");
}

#[test]
fn positional_macro_rules() {
    let a = args("users", &["id"], &["org_id"]);
    let fs = vec![plain("id"), plain("org_id"), plain("name")];
    let r = model_rules::find_model_query_rule(&a, &fs, "User");
    assert_eq!(r.macro_name, "find_user_query");
    assert_eq!(r.query_prefix, "SELECT id, org_id, name FROM users WHERE ");
    assert_eq!(model_rules::find_model_rule(&a, &fs, "User").macro_name, "find_user");
    assert_eq!(model_rules::find_first_model_rule(&a, &fs, "User").macro_name, "find_first_user");
    let u = model_rules::update_model_query_rule(&a, "User");
    assert_eq!(u.macro_name, "update_user_query");
    assert_eq!(u.query_prefix, "UPDATE users SET ");
    assert_eq!(u.query_suffix, " WHERE id = ? AND org_id = ?");
    assert_eq!(model_rules::comma_sep_cols(&fs), "id, org_id, name");
    let f = model_rules::find_model_rule(&a, &fs, "User");
    assert_eq!(f.call, "<User as charybdis::operations::Find>::find");
    assert!(f.takes_values);
    assert!(r.takes_values);
    assert_eq!(model_rules::find_first_model_rule(&a, &fs, "User").call, "<User as charybdis::operations::Find>::find_first");
    assert_eq!(r.call, "");
}

#[test]
fn positional_query_consts() {
    let a = args("users", &["id"], &["org_id"]);
    let fs = vec![plain("id"), plain("username"), plain("org_id"), plain("email")];
    assert_eq!(
        positional_find_by_primary_key(&a, &fs),
        "SELECT id, username, org_id, email FROM users WHERE id = ? AND org_id = ?"
    );
    assert_eq!(positional_find_by_partition_key(&a, &fs), "SELECT id, username, org_id, email FROM users WHERE id = ?");
    assert_eq!(positional_update_query(&a, &fs), "UPDATE users SET username = ?, email = ? WHERE id = ? AND org_id = ?");
    let v = update_values(&a, &fs);
    assert_eq!(v.fields, vec!["username", "email", "id", "org_id"]);
    assert_eq!(v.capacity, 4);
    assert_eq!(
        v.adder,
        "serialized.add_value(&self.username)?;\nserialized.add_value(&self.email)?;\nserialized.add_value(&self.id)?;\nserialized.add_value(&self.org_id)?;"
    );
    let pk = primary_key_values(&a);
    assert_eq!(pk.fields, vec!["id", "org_id"]);
    assert_eq!(pk.capacity, 2);
}

#[test]
fn serialized_value_adders() {
    assert_eq!(serialized_field_value_adder(&strings(&["a"])), "serialized.add_value(&self.a)?;");
    assert_eq!(serialized_value_adder(&strings(&["x", "y"])), "serialized.add_value(&x)?;\nserialized.add_value(&y)?;");
    assert_eq!(serialized_value_adder(&vec![]), "");
}

#[test]
fn collection_update_functions() {
    let a = args("users", &["id"], &["org_id"]);
    let fs = vec![
        plain("id"),
        field("tags", "Option<Set<Text>>"),
        field("post_ids", "List<Uuid>"),
        field("name", "Text"),
    ];
    let (push, adder) = push_to_collection_funs(&a, &fs);
    assert_eq!(push.len(), 2);
    assert_eq!(push[0].fn_name, "push_tags");
    assert_eq!(push[0].query_const, "Self::PUSH_TAGS_QUERY");
    assert_eq!(push[0].values_capacity, 3);
    assert_eq!(push[1].fn_name, "push_post_ids");
    assert_eq!(push[1].query_const, "Self::PUSH_POST_IDS_QUERY");
    assert_eq!(adder, "serialized.add_value(&self.id)?;\nserialized.add_value(&self.org_id)?;");
    let (pull, _) = pull_from_collection_funs(&a, &fs);
    assert_eq!(pull[1].fn_name, "pull_post_ids");
    assert_eq!(pull[1].query_const, "Self::PULL_POST_IDS_QUERY");
    assert_eq!(
        push[0].body,
        "serialized.add_value(value)?;\nserialized.add_value(&self.id)?;\nserialized.add_value(&self.org_id)?;\ncharybdis::operations::execute(session, Self::PUSH_TAGS_QUERY, serialized).await?;\nOk(())"
    );
    assert_eq!(
        pull[0].body,
        "serialized.add_value(value)?;\nserialized.add_value(&self.id)?;\nserialized.add_value(&self.org_id)?;\ncharybdis::operations::execute(session, Self::PULL_TAGS_QUERY, serialized).await?;\nOk(())"
    );
}

#[test]
fn collection_functions_only_for_declared_lists_and_sets() {
    let a = args("users", &["id"], &[]);
    let fs = vec![
        ModelField::new("id".to_string(), "Uuid".to_string(), false),
        ModelField::new("settings".to_string(), "Settings".to_string(), false),
        ModelField::new("tags".to_string(), "Set < Text >".to_string(), false),
        ModelField::new("ids".to_string(), "Option < List < Uuid > >".to_string(), false),
        ModelField::new("scores".to_string(), "Map < Text , Int >".to_string(), false),
        ModelField::new("listing".to_string(), "Listing".to_string(), false),
    ];
    let (push, _) = push_to_collection_funs(&a, &fs);
    let names: Vec<&str> = push.iter().map(|f| f.fn_name.as_str()).collect();
    assert_eq!(names, vec!["push_tags", "push_ids"]);
    let (pull, _) = pull_from_collection_funs(&a, &fs);
    let names: Vec<&str> = pull.iter().map(|f| f.fn_name.as_str()).collect();
    assert_eq!(names, vec!["pull_tags", "pull_ids"]);
}

#[test]
fn field_kinds_from_declared_types() {
    assert_eq!(field_kind("Counter"), FieldKind::Counter);
    assert_eq!(field_kind("charybdis :: types :: Counter"), FieldKind::Counter);
    assert_eq!(field_kind("List < Text >"), FieldKind::ListCollection);
    assert_eq!(field_kind("Option<Set<Uuid>>"), FieldKind::SetCollection);
    assert_eq!(field_kind("Map<Text, Int>"), FieldKind::MapCollection);
    assert_eq!(field_kind("Settings"), FieldKind::Plain);
    assert_eq!(field_kind("Option<Text>"), FieldKind::Plain);
    assert_eq!(field_kind("Text"), FieldKind::Plain);
    assert_eq!(field_kind(&ModelField::new("c".to_string(), "Counter".to_string(), false).type_text), FieldKind::Counter);
}

#[test]
fn partial_model_insert_and_update_queries() {
    let fields = ModelFields {
        db_fields: vec![plain("id"), plain("username")],
        primary_key_fields: vec![plain("id")],
        partition_key_fields: vec![plain("id")],
        clustering_key_fields: vec![],
        local_secondary_index_fields: vec![],
    };
    let a = args("users", &["id"], &[]);
    assert_eq!(insert_query_const(&a, &fields), "INSERT INTO users (id, username) VALUES (?, ?)");
    assert_eq!(update_query_const(&a, &fields), "UPDATE users SET username = ? WHERE id = ?");
    assert_eq!(delete_query_const(&a, &fields), "DELETE FROM users WHERE id = ?");
}

#[test]
fn update_values_follow_update_query_markers() {
    let a = args("users", &["id"], &["org_id"]);
    let fs = vec![plain("id"), plain("username"), plain("org_id"), plain("email")];
    let q = positional_update_query(&a, &fs);
    let v = update_values(&a, &fs);
    assert_eq!(q.matches('?').count(), v.capacity);
    let marked: Vec<&str> = q
        .split(" = ?")
        .filter(|p| !p.is_empty())
        .map(|p| p.rsplit(|c: char| c == ' ' || c == ',').next().unwrap())
        .collect();
    assert_eq!(marked, v.fields);
}

#[test]
fn ignored_fields_are_left_out_of_queries_and_rows() {
    let declared = vec![
        ModelField::new("id".to_string(), "Uuid".to_string(), false),
        ModelField::new("organization".to_string(), "Option<Organization>".to_string(), true),
        ModelField::new("name".to_string(), "Text".to_string(), false),
    ];
    let mut a = args("users", &["id"], &[]);
    let stored: Vec<String> = db_fields(&declared).iter().map(|f| f.name.clone()).collect();
    assert_eq!(stored, vec!["id", "name"]);
    assert_eq!(row_layout(&declared), vec![FieldSource::Column(0), FieldSource::Default, FieldSource::Column(1)]);
    assert_eq!(check_row_size(&declared, 2), Ok(()));
    assert_eq!(check_row_size(&declared, 3), Err(RowSizeError { expected: 2, actual: 3 }));
    let f = ModelFields::from_declared(&declared, &a).unwrap();
    assert_eq!(insert_query_const(&a, &f), "INSERT INTO users (id, name) VALUES (?, ?)");
    assert_eq!(f.primary_key_fields[0].name, "id");
    a.local_secondary_indexes = strings(&["name"]);
    let f = ModelFields::from_declared(&declared, &a).unwrap();
    assert_eq!(find_by_local_secondary_index(&a, &f)[0].find_by, "find_by_id_and_name");
    a.local_secondary_indexes = strings(&["organization"]);
    assert!(ModelFields::from_declared(&declared, &a).is_none());
}

#[test]
fn readme_post_macros() {
    let a = args("posts", &["category_id"], &["date", "title"]);
    let fs = vec![plain("category_id"), plain("date"), plain("title")];
    let f = model_rules::find_model_rule(&a, &fs, "Post");
    assert_eq!(f.macro_name, "find_post");
    assert_eq!(f.query_prefix, "SELECT category_id, date, title FROM posts WHERE ");
    assert_eq!(f.call, "<Post as charybdis::operations::Find>::find");
    assert!(f.takes_values);
    let q = model_rules::find_model_query_rule(&a, &fs, "Post");
    assert_eq!(q.call, "");
    assert!(q.takes_values);
}
