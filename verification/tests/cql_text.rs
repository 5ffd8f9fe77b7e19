use message::common::types::{Timestamp, Timeuuid};
use message::store::cql::join;
use message::store::schema::EntityKind;
use message::store::statement::Statement;
use message::store::value::{CqlValue, Row};

fn topic_key_values() -> Row {
    Row { values: vec![CqlValue::Timeuuid(Timeuuid(7)), CqlValue::Timestamp(Timestamp(9))] }
}

fn topic_row_values() -> Row {
    Row {
        values: vec![
            CqlValue::Timeuuid(Timeuuid(7)),
            CqlValue::Timestamp(Timestamp(9)),
            CqlValue::Text("infra".to_string()),
            CqlValue::Null,
            CqlValue::TextList(vec!["ann".to_string()]),
            CqlValue::TextList(vec![]),
            CqlValue::Timestamp(Timestamp(11)),
        ],
    }
}

#[test]
fn join_writes_a_separator_between_parts() {
    assert_eq!(join(&vec![], ", "), "");
    assert_eq!(join(&vec!["a".to_string()], ", "), "a");
    assert_eq!(join(&vec!["a".to_string(), "b".to_string(), "c".to_string()], " AND "), "a AND b AND c");
}

#[test]
fn create_table_text_for_topics() {
    let text = Statement::CreateTable { kind: EntityKind::Topic }.to_cql();
    assert_eq!(
        text,
        Some(
            "CREATE TABLE IF NOT EXISTS uptop.topics (topic_id timeuuid, created_at timestamp, \
             topic_name text, topic_description text, topic_owners list<text>, \
             topic_admins list<text>, updated_at timestamp, \
             PRIMARY KEY ((topic_id), created_at)) WITH CLUSTERING ORDER BY (created_at DESC)"
                .to_string()
        )
    );
}

#[test]
fn create_table_text_without_clustering_key() {
    let text = Statement::CreateTable { kind: EntityKind::LatestMessage }.to_cql();
    assert_eq!(
        text,
        Some(
            "CREATE TABLE IF NOT EXISTS uptop.latest_messages (user_id timeuuid, \
             latest_message_id timeuuid, latest_message_content text, topic_id timeuuid, \
             created_at timestamp, updated_at timestamp, PRIMARY KEY ((user_id)))"
                .to_string()
        )
    );
}

#[test]
fn create_index_text() {
    let text = Statement::CreateIndex { kind: EntityKind::Topic, column: 2 }.to_cql();
    assert_eq!(text, Some("CREATE INDEX IF NOT EXISTS ON uptop.topics (topic_name)".to_string()));
}

#[test]
fn insert_text_and_values() {
    let statement = Statement::Insert { kind: EntityKind::Topic, row: topic_row_values() };
    assert_eq!(
        statement.to_cql(),
        Some(
            "INSERT INTO uptop.topics (topic_id, created_at, topic_name, topic_description, \
             topic_owners, topic_admins, updated_at) VALUES (?, ?, ?, ?, ?, ?, ?)"
                .to_string()
        )
    );
    assert!(statement.is_wf());
    assert_eq!(statement.bound_values(), topic_row_values().values);
}

#[test]
fn update_text_binds_the_key_last() {
    let statement = Statement::Update { kind: EntityKind::Topic, row: topic_row_values() };
    assert_eq!(
        statement.to_cql(),
        Some(
            "UPDATE uptop.topics SET topic_name = ?, topic_description = ?, topic_owners = ?, \
             topic_admins = ?, updated_at = ? WHERE topic_id = ? AND created_at = ?"
                .to_string()
        )
    );
    assert!(statement.is_wf());
    assert_eq!(
        statement.bound_values(),
        vec![
            CqlValue::Text("infra".to_string()),
            CqlValue::Null,
            CqlValue::TextList(vec!["ann".to_string()]),
            CqlValue::TextList(vec![]),
            CqlValue::Timestamp(Timestamp(11)),
            CqlValue::Timeuuid(Timeuuid(7)),
            CqlValue::Timestamp(Timestamp(9)),
        ]
    );
}

#[test]
fn select_texts() {
    let by_partition = Statement::SelectPartition {
        kind: EntityKind::Topic,
        key: Row { values: vec![CqlValue::Timeuuid(Timeuuid(7))] },
    };
    assert_eq!(
        by_partition.to_cql(),
        Some(
            "SELECT topic_id, created_at, topic_name, topic_description, topic_owners, \
             topic_admins, updated_at FROM uptop.topics WHERE topic_id = ?"
                .to_string()
        )
    );
    assert!(by_partition.is_wf());
    assert_eq!(by_partition.bound_values(), vec![CqlValue::Timeuuid(Timeuuid(7))]);

    let by_key = Statement::SelectRow { kind: EntityKind::Topic, key: topic_key_values() };
    assert_eq!(
        by_key.to_cql(),
        Some(
            "SELECT topic_id, created_at, topic_name, topic_description, topic_owners, \
             topic_admins, updated_at FROM uptop.topics WHERE topic_id = ? AND created_at = ?"
                .to_string()
        )
    );
    assert_eq!(by_key.bound_values(), topic_key_values().values);

    let by_index = Statement::SelectByIndex {
        kind: EntityKind::Topic,
        column: 2,
        value: CqlValue::Text("infra".to_string()),
    };
    assert_eq!(
        by_index.to_cql(),
        Some(
            "SELECT topic_id, created_at, topic_name, topic_description, topic_owners, \
             topic_admins, updated_at FROM uptop.topics WHERE topic_name = ?"
                .to_string()
        )
    );
    assert_eq!(by_index.bound_values(), vec![CqlValue::Text("infra".to_string())]);
}

#[test]
fn list_mutation_texts() {
    let push = Statement::ListAppend {
        kind: EntityKind::Topic,
        key: topic_key_values(),
        column: 5,
        values: vec!["alice".to_string()],
    };
    assert_eq!(
        push.to_cql(),
        Some(
            "UPDATE uptop.topics SET topic_admins = topic_admins + ? \
             WHERE topic_id = ? AND created_at = ?"
                .to_string()
        )
    );
    assert!(push.is_wf());
    assert_eq!(
        push.bound_values(),
        vec![
            CqlValue::TextList(vec!["alice".to_string()]),
            CqlValue::Timeuuid(Timeuuid(7)),
            CqlValue::Timestamp(Timestamp(9)),
        ]
    );
    let pop = Statement::ListRemove {
        kind: EntityKind::Topic,
        key: topic_key_values(),
        column: 4,
        values: vec!["bob".to_string()],
    };
    assert_eq!(
        pop.to_cql(),
        Some(
            "UPDATE uptop.topics SET topic_owners = topic_owners - ? \
             WHERE topic_id = ? AND created_at = ?"
                .to_string()
        )
    );
}

#[test]
fn a_statement_on_a_missing_column_has_no_text() {
    assert_eq!(Statement::CreateIndex { kind: EntityKind::Topic, column: 7 }.to_cql(), None);
    let push = Statement::ListAppend {
        kind: EntityKind::UserTopic,
        key: topic_key_values(),
        column: 3,
        values: vec![],
    };
    assert_eq!(push.to_cql(), None);
    assert!(!push.is_wf());
}

#[test]
fn well_formedness_of_statements() {
    // a lookup must bind every partition-key column, with the right type
    let short = Statement::SelectPartition { kind: EntityKind::Topic, key: Row { values: vec![] } };
    assert!(!short.is_wf());
    let mistyped = Statement::SelectPartition {
        kind: EntityKind::Topic,
        key: Row { values: vec![CqlValue::Text("x".to_string())] },
    };
    assert!(!mistyped.is_wf());
    let null_key = Statement::SelectPartition {
        kind: EntityKind::Topic,
        key: Row { values: vec![CqlValue::Null] },
    };
    assert!(!null_key.is_wf());
    // only an indexed column can be read by value
    let unindexed = Statement::SelectByIndex {
        kind: EntityKind::Topic,
        column: 3,
        value: CqlValue::Text("x".to_string()),
    };
    assert!(!unindexed.is_wf());
    // only a list column can be appended to
    let not_a_list = Statement::ListAppend {
        kind: EntityKind::Topic,
        key: topic_key_values(),
        column: 2,
        values: vec![],
    };
    assert!(!not_a_list.is_wf());
    // a row must have a value of the right type for every column
    let mut row = topic_row_values();
    row.values[2] = CqlValue::Timestamp(Timestamp(1));
    assert!(!Statement::Insert { kind: EntityKind::Topic, row }.is_wf());
    let mut row = topic_row_values();
    row.values.pop();
    assert!(!Statement::Insert { kind: EntityKind::Topic, row }.is_wf());
    let mut row = topic_row_values();
    row.values[1] = CqlValue::Null;
    assert!(!Statement::Insert { kind: EntityKind::Topic, row }.is_wf());
}
