use atoma_node::query::build_query_with_in;
use sqlx::{Arguments, Execute};

#[test]
fn in_query_binds_each_value_to_its_placeholder() {
    let values = [7i64, 8, 9];
    let query = build_query_with_in("SELECT * FROM stacks", "stack_small_id", &values, None);
    assert_eq!(
        query.builder.sql(),
        "SELECT * FROM stacks WHERE stack_small_id IN ($1, $2, $3)"
    );
}

#[test]
fn in_query_without_values_selects_nothing() {
    let values: [i64; 0] = [];
    let query = build_query_with_in(
        "SELECT * FROM stacks",
        "stack_small_id",
        &values,
        Some("x = 1"),
    );
    assert_eq!(query.builder.sql(), "SELECT * FROM stacks WHERE 1=0");
}

#[test]
fn in_query_appends_additional_conditions() {
    let values = [42i64];
    let query = build_query_with_in(
        "SELECT * FROM tasks",
        "task_small_id",
        &values,
        Some("is_deprecated = false"),
    );
    assert_eq!(
        query.builder.sql(),
        "SELECT * FROM tasks WHERE task_small_id IN ($1) AND is_deprecated = false"
    );
}

#[test]
fn in_query_numbers_placeholders_in_decimal() {
    let values: Vec<i64> = (0..12).collect();
    let query = build_query_with_in("SELECT 1", "c", &values, None);
    assert_eq!(
        query.builder.sql(),
        "SELECT 1 WHERE c IN ($1, $2, $3, $4, $5, $6, $7, $8, $9, $10, $11, $12)"
    );
}

#[test]
fn in_query_binds_as_many_values_as_it_has_placeholders() {
    let values = [7i64, 8, 9];
    let mut query = build_query_with_in("SELECT * FROM stacks", "stack_small_id", &values, None);
    let mut built = query.builder.build();
    let arguments = built.take_arguments().unwrap().unwrap();
    assert_eq!(arguments.len(), 3);

    let none: [i64; 0] = [];
    let mut query = build_query_with_in("SELECT * FROM stacks", "stack_small_id", &none, None);
    let mut built = query.builder.build();
    let arguments = built.take_arguments().unwrap().unwrap();
    assert_eq!(arguments.len(), 0);
}
