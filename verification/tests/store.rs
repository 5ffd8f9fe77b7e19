use message::common::types::{Timestamp, Timeuuid};
use message::store::memory::MemoryStore;
use message::store::schema::EntityKind;
use message::store::statement::{Action, Statement, StoreReply};
use message::store::value::{CqlValue, Row};

fn user_topic_row(topic: u128, at: i64, name: &str) -> Row {
    Row {
        values: vec![
            CqlValue::Timeuuid(Timeuuid(topic)),
            CqlValue::Timestamp(Timestamp(at)),
            CqlValue::Text(name.to_string()),
        ],
    }
}

fn topic_row_with(id: u128, at: i64, name: &str, admins: Vec<&str>) -> Row {
    Row {
        values: vec![
            CqlValue::Timeuuid(Timeuuid(id)),
            CqlValue::Timestamp(Timestamp(at)),
            CqlValue::Text(name.to_string()),
            CqlValue::Null,
            CqlValue::TextList(vec![]),
            CqlValue::TextList(admins.into_iter().map(|a| a.to_string()).collect()),
            CqlValue::Timestamp(Timestamp(at)),
        ],
    }
}

fn key_of_topic(id: u128, at: i64) -> Row {
    Row { values: vec![CqlValue::Timeuuid(Timeuuid(id)), CqlValue::Timestamp(Timestamp(at))] }
}

fn created(kind: EntityKind) -> MemoryStore {
    let mut store = MemoryStore::new();
    assert_eq!(
        store.submit(&Action::Single(Statement::CreateTable { kind }), false),
        StoreReply::Applied
    );
    store
}

fn partition_of(store: &mut MemoryStore, kind: EntityKind, id: u128) -> StoreReply {
    store.submit(
        &Action::Single(Statement::SelectPartition {
            kind,
            key: Row { values: vec![CqlValue::Timeuuid(Timeuuid(id))] },
        }),
        false,
    )
}

#[test]
fn a_write_before_the_table_exists_fails() {
    let mut store = MemoryStore::new();
    let write = Action::Single(Statement::Insert {
        kind: EntityKind::UserTopic,
        row: user_topic_row(1, 1, "ann"),
    });
    assert_eq!(store.submit(&write, false), StoreReply::Failed);
    assert_eq!(partition_of(&mut store, EntityKind::UserTopic, 1), StoreReply::Failed);
}

#[test]
fn a_written_row_is_read_back() {
    let mut store = created(EntityKind::UserTopic);
    let write = Action::Single(Statement::Insert {
        kind: EntityKind::UserTopic,
        row: user_topic_row(1, 5, "ann"),
    });
    assert_eq!(store.submit(&write, false), StoreReply::Applied);
    assert_eq!(
        partition_of(&mut store, EntityKind::UserTopic, 1),
        StoreReply::Rows(vec![user_topic_row(1, 5, "ann")])
    );
}

#[test]
fn a_row_with_the_same_key_is_replaced() {
    let mut store = created(EntityKind::UserTopic);
    for name in ["ann", "bob"] {
        let write = Action::Single(Statement::Update {
            kind: EntityKind::UserTopic,
            row: user_topic_row(1, 5, name),
        });
        assert_eq!(store.submit(&write, false), StoreReply::Applied);
    }
    assert_eq!(
        partition_of(&mut store, EntityKind::UserTopic, 1),
        StoreReply::Rows(vec![user_topic_row(1, 5, "bob")])
    );
}

#[test]
fn a_read_stays_within_its_partition() {
    let mut store = created(EntityKind::UserTopic);
    for (topic, at, name) in [(1, 1, "ann"), (2, 1, "bob"), (1, 2, "cy"), (3, 1, "dee")] {
        let write = Action::Single(Statement::Insert {
            kind: EntityKind::UserTopic,
            row: user_topic_row(topic, at, name),
        });
        assert_eq!(store.submit(&write, false), StoreReply::Applied);
    }
    assert_eq!(
        partition_of(&mut store, EntityKind::UserTopic, 1),
        StoreReply::Rows(vec![user_topic_row(1, 2, "cy"), user_topic_row(1, 1, "ann")])
    );
    assert_eq!(partition_of(&mut store, EntityKind::UserTopic, 4), StoreReply::Rows(vec![]));
}

#[test]
fn a_read_by_value_needs_the_index() {
    let mut store = created(EntityKind::Topic);
    let write = Action::Single(Statement::Insert {
        kind: EntityKind::Topic,
        row: topic_row_with(1, 1, "infra", vec![]),
    });
    assert_eq!(store.submit(&write, false), StoreReply::Applied);
    let read = Action::Single(Statement::SelectByIndex {
        kind: EntityKind::Topic,
        column: 2,
        value: CqlValue::Text("infra".to_string()),
    });
    assert_eq!(store.submit(&read, false), StoreReply::Failed);
    let index = Action::Single(Statement::CreateIndex { kind: EntityKind::Topic, column: 2 });
    assert_eq!(store.submit(&index, false), StoreReply::Applied);
    assert_eq!(
        store.submit(&read, false),
        StoreReply::Rows(vec![topic_row_with(1, 1, "infra", vec![])])
    );
}

#[test]
fn an_index_cannot_be_created_on_an_undeclared_column() {
    let mut store = created(EntityKind::Topic);
    let index = Action::Single(Statement::CreateIndex { kind: EntityKind::Topic, column: 3 });
    assert_eq!(store.submit(&index, false), StoreReply::Failed);
}

#[test]
fn a_fault_applies_nothing() {
    let mut store = created(EntityKind::UserTopic);
    let write = Action::Single(Statement::Insert {
        kind: EntityKind::UserTopic,
        row: user_topic_row(1, 5, "ann"),
    });
    assert_eq!(store.submit(&write, true), StoreReply::Failed);
    assert_eq!(partition_of(&mut store, EntityKind::UserTopic, 1), StoreReply::Rows(vec![]));
}

#[test]
fn an_append_extends_the_list() {
    let mut store = created(EntityKind::Topic);
    let write = Action::Single(Statement::Insert {
        kind: EntityKind::Topic,
        row: topic_row_with(1, 1, "infra", vec!["ann"]),
    });
    assert_eq!(store.submit(&write, false), StoreReply::Applied);
    let push = Action::Single(Statement::ListAppend {
        kind: EntityKind::Topic,
        key: key_of_topic(1, 1),
        column: 5,
        values: vec!["bob".to_string(), "ann".to_string()],
    });
    assert_eq!(store.submit(&push, false), StoreReply::Applied);
    assert_eq!(
        partition_of(&mut store, EntityKind::Topic, 1),
        StoreReply::Rows(vec![topic_row_with(1, 1, "infra", vec!["ann", "bob", "ann"])])
    );
}

#[test]
fn a_removal_takes_every_occurrence() {
    let mut store = created(EntityKind::Topic);
    let write = Action::Single(Statement::Insert {
        kind: EntityKind::Topic,
        row: topic_row_with(1, 1, "infra", vec!["ann", "bob", "ann", "cy"]),
    });
    assert_eq!(store.submit(&write, false), StoreReply::Applied);
    let pop = Action::Single(Statement::ListRemove {
        kind: EntityKind::Topic,
        key: key_of_topic(1, 1),
        column: 5,
        values: vec!["ann".to_string(), "zed".to_string()],
    });
    assert_eq!(store.submit(&pop, false), StoreReply::Applied);
    assert_eq!(
        partition_of(&mut store, EntityKind::Topic, 1),
        StoreReply::Rows(vec![topic_row_with(1, 1, "infra", vec!["bob", "cy"])])
    );
}

#[test]
fn an_append_to_a_missing_row_brings_the_row_into_being() {
    let mut store = created(EntityKind::Topic);
    let push = Action::Single(Statement::ListAppend {
        kind: EntityKind::Topic,
        key: key_of_topic(1, 1),
        column: 5,
        values: vec!["ann".to_string()],
    });
    assert_eq!(store.submit(&push, false), StoreReply::Applied);
    let expected = Row {
        values: vec![
            CqlValue::Timeuuid(Timeuuid(1)),
            CqlValue::Timestamp(Timestamp(1)),
            CqlValue::Null,
            CqlValue::Null,
            CqlValue::Null,
            CqlValue::TextList(vec!["ann".to_string()]),
            CqlValue::Null,
        ],
    };
    assert_eq!(partition_of(&mut store, EntityKind::Topic, 1), StoreReply::Rows(vec![expected]));
}

#[test]
fn a_removal_from_a_missing_row_changes_nothing() {
    let mut store = created(EntityKind::Topic);
    let pop = Action::Single(Statement::ListRemove {
        kind: EntityKind::Topic,
        key: key_of_topic(1, 1),
        column: 5,
        values: vec!["ann".to_string()],
    });
    assert_eq!(store.submit(&pop, false), StoreReply::Applied);
    assert_eq!(partition_of(&mut store, EntityKind::Topic, 1), StoreReply::Rows(vec![]));
}

#[test]
fn a_batch_is_applied_in_order() {
    let mut store = created(EntityKind::Topic);
    let write = Action::Single(Statement::Insert {
        kind: EntityKind::Topic,
        row: topic_row_with(1, 1, "infra", vec!["ann"]),
    });
    assert_eq!(store.submit(&write, false), StoreReply::Applied);
    let batch = Action::LoggedBatch(vec![
        Statement::ListAppend {
            kind: EntityKind::Topic,
            key: key_of_topic(1, 1),
            column: 5,
            values: vec!["bob".to_string()],
        },
        Statement::ListRemove {
            kind: EntityKind::Topic,
            key: key_of_topic(1, 1),
            column: 5,
            values: vec!["ann".to_string()],
        },
    ]);
    assert_eq!(store.submit(&batch, false), StoreReply::Applied);
    assert_eq!(
        partition_of(&mut store, EntityKind::Topic, 1),
        StoreReply::Rows(vec![topic_row_with(1, 1, "infra", vec!["bob"])])
    );
}

#[test]
fn a_batch_with_one_bad_statement_applies_none() {
    let mut store = created(EntityKind::Topic);
    let write = Action::Single(Statement::Insert {
        kind: EntityKind::Topic,
        row: topic_row_with(1, 1, "infra", vec!["ann"]),
    });
    assert_eq!(store.submit(&write, false), StoreReply::Applied);
    let batch = Action::LoggedBatch(vec![
        Statement::ListAppend {
            kind: EntityKind::Topic,
            key: key_of_topic(1, 1),
            column: 5,
            values: vec!["bob".to_string()],
        },
        // not a list column
        Statement::ListRemove {
            kind: EntityKind::Topic,
            key: key_of_topic(1, 1),
            column: 2,
            values: vec!["ann".to_string()],
        },
    ]);
    assert_eq!(store.submit(&batch, false), StoreReply::Failed);
    assert_eq!(
        partition_of(&mut store, EntityKind::Topic, 1),
        StoreReply::Rows(vec![topic_row_with(1, 1, "infra", vec!["ann"])])
    );
}

#[test]
fn a_batch_cannot_hold_a_read_or_a_schema_statement() {
    let mut store = created(EntityKind::Topic);
    let reading = Action::LoggedBatch(vec![Statement::SelectRow {
        kind: EntityKind::Topic,
        key: key_of_topic(1, 1),
    }]);
    assert_eq!(store.submit(&reading, false), StoreReply::Failed);
    let creating = Action::LoggedBatch(vec![Statement::CreateTable { kind: EntityKind::Topic }]);
    assert_eq!(store.submit(&creating, false), StoreReply::Failed);
    assert_eq!(store.submit(&Action::LoggedBatch(vec![]), false), StoreReply::Applied);
}

#[test]
fn a_faulted_batch_applies_none() {
    let mut store = created(EntityKind::Topic);
    let write = Action::Single(Statement::Insert {
        kind: EntityKind::Topic,
        row: topic_row_with(1, 1, "infra", vec!["ann"]),
    });
    assert_eq!(store.submit(&write, false), StoreReply::Applied);
    let batch = Action::LoggedBatch(vec![Statement::ListAppend {
        kind: EntityKind::Topic,
        key: key_of_topic(1, 1),
        column: 5,
        values: vec!["bob".to_string()],
    }]);
    assert_eq!(store.submit(&batch, true), StoreReply::Failed);
    assert_eq!(
        partition_of(&mut store, EntityKind::Topic, 1),
        StoreReply::Rows(vec![topic_row_with(1, 1, "infra", vec!["ann"])])
    );
}

#[test]
fn tables_do_not_share_rows() {
    let mut store = created(EntityKind::UserTopic);
    assert_eq!(
        store.submit(&Action::Single(Statement::CreateTable { kind: EntityKind::TopicUser }), false),
        StoreReply::Applied
    );
    let write = Action::Single(Statement::Insert {
        kind: EntityKind::UserTopic,
        row: user_topic_row(1, 5, "ann"),
    });
    assert_eq!(store.submit(&write, false), StoreReply::Applied);
    assert_eq!(partition_of(&mut store, EntityKind::TopicUser, 1), StoreReply::Rows(vec![]));
}

#[test]
fn a_partition_is_read_latest_first() {
    let mut store = created(EntityKind::UserTopic);
    for (at, name) in [(30, "c"), (10, "a"), (50, "e"), (-5, "z"), (20, "b"), (40, "d")] {
        let write = Action::Single(Statement::Insert {
            kind: EntityKind::UserTopic,
            row: user_topic_row(1, at, name),
        });
        assert_eq!(store.submit(&write, false), StoreReply::Applied);
    }
    assert_eq!(
        partition_of(&mut store, EntityKind::UserTopic, 1),
        StoreReply::Rows(vec![
            user_topic_row(1, 50, "e"),
            user_topic_row(1, 40, "d"),
            user_topic_row(1, 30, "c"),
            user_topic_row(1, 20, "b"),
            user_topic_row(1, 10, "a"),
            user_topic_row(1, -5, "z"),
        ])
    );
}

#[test]
fn no_write_takes_a_row_away() {
    let mut store = created(EntityKind::Topic);
    let write = Action::Single(Statement::Insert {
        kind: EntityKind::Topic,
        row: topic_row_with(1, 1, "infra", vec!["ann"]),
    });
    assert_eq!(store.submit(&write, false), StoreReply::Applied);
    let later: Vec<Action> = vec![
        Action::Single(Statement::Update {
            kind: EntityKind::Topic,
            row: topic_row_with(1, 1, "renamed", vec![]),
        }),
        Action::Single(Statement::Insert {
            kind: EntityKind::Topic,
            row: topic_row_with(1, 2, "other", vec![]),
        }),
        Action::LoggedBatch(vec![Statement::ListRemove {
            kind: EntityKind::Topic,
            key: key_of_topic(1, 1),
            column: 5,
            values: vec!["ann".to_string()],
        }]),
        Action::Single(Statement::CreateTable { kind: EntityKind::Topic }),
    ];
    let read = Action::Single(Statement::SelectRow { kind: EntityKind::Topic, key: key_of_topic(1, 1) });
    for action in later {
        assert_eq!(store.submit(&action, false), StoreReply::Applied);
        match store.submit(&read, false) {
            StoreReply::Rows(list) => assert_eq!(list.len(), 1),
            other => panic!("expected the row, got {:?}", other),
        }
    }
}
