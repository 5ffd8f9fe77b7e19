use message::application::topic::request::{
    RequestCreateTopic, RequestGetTopicByIndexKey, RequestGetTopicByPartitionKey,
    RequestGetTopicByPrimaryKey, RequestUpdateTopic,
};
use message::common::result::AppError;
use message::common::types::{Timestamp, Timeuuid};
use message::domain::topic::entity::{Topic, TOPIC_ADMINS, TOPIC_OWNERS};
use message::domain::topic::repository::TopicRepository;
use message::infrastructure::persistence::migration::MigrationRunner;
use message::infrastructure::persistence::topic_repository::TopicRepo;
use message::store::memory::MemoryStore;
use message::store::schema::EntityKind;
use message::store::statement::{Action, Statement, StoreReply};
use message::store::value::{CqlValue, Row};

fn migrated_store() -> MemoryStore {
    let mut store = MemoryStore::new();
    assert_eq!(MigrationRunner::migrate(&mut store), Ok(()));
    store
}

fn infra_request() -> RequestCreateTopic {
    RequestCreateTopic {
        topic_name: "infra".to_string(),
        topic_description: None,
        topic_owners: vec![],
        topic_admins: vec![],
    }
}

fn insert_topic(store: &mut MemoryStore, topic: &Topic) {
    let repo = TopicRepo::new();
    let (ready, action) = repo.create_topic_statement(topic.clone());
    assert_eq!(&ready, topic);
    let reply = store.submit(&action, false);
    assert_eq!(repo.create_topic(&ready, &reply), Ok(topic));
}

fn read_partition(store: &mut MemoryStore, topic_id: Timeuuid) -> Result<Vec<Topic>, AppError> {
    let repo = TopicRepo::new();
    let query = RequestGetTopicByPartitionKey { topic_id };
    let reply = store.submit(&repo.find_topic_by_partition_key_statement(&query), false);
    repo.find_topic_by_partition_key(&query, &reply)
}

fn read_row(store: &mut MemoryStore, topic: &Topic) -> Result<Topic, AppError> {
    let repo = TopicRepo::new();
    let query = RequestGetTopicByPrimaryKey { topic_id: topic.topic_id, created_at: topic.created_at };
    let reply = store.submit(&repo.find_topic_by_primary_key_statement(&query), false);
    repo.find_topic_by_primary_key(&query, &reply)
}

fn change(store: &mut MemoryStore, patch: &RequestUpdateTopic, fault: bool) -> Result<Topic, AppError> {
    let repo = TopicRepo::new();
    let reply = store.submit(&repo.update_topic_statement(patch), fault);
    repo.update_topic(patch, &reply)
}

fn patch_for(topic: &Topic) -> RequestUpdateTopic {
    RequestUpdateTopic {
        topic_id: topic.topic_id,
        created_at: topic.created_at,
        topic_name: None,
        topic_description: None,
        push_to_owners: None,
        pop_to_owners: None,
        push_to_admins: None,
        pop_to_admins: None,
    }
}

fn strings(list: &[&str]) -> Vec<String> {
    list.iter().map(|s| s.to_string()).collect()
}

#[test]
fn an_inserted_topic_is_found_in_its_partition() {
    let mut store = migrated_store();
    let topic = Topic::try_from(infra_request()).unwrap();
    assert!(!topic.topic_id.is_nil());
    insert_topic(&mut store, &topic);
    let found = read_partition(&mut store, topic.topic_id).unwrap();
    assert_eq!(found.len(), 1);
    assert_eq!(found[0].topic_name, "infra");
    assert_eq!(found[0].topic_id, topic.topic_id);
    assert_eq!(found[0].created_at, topic.created_at);
    assert_eq!(found[0], topic);
}

#[test]
fn push_then_pop_on_the_admins_of_a_topic() {
    let mut store = migrated_store();
    let topic = Topic::try_from(infra_request()).unwrap();
    insert_topic(&mut store, &topic);

    let push = RequestUpdateTopic { push_to_admins: Some(strings(&["alice"])), ..patch_for(&topic) };
    assert!(change(&mut store, &push, false).is_ok());
    let found = read_partition(&mut store, topic.topic_id).unwrap();
    assert_eq!(found.len(), 1);
    assert_eq!(found[0].topic_admins, strings(&["alice"]));
    assert_eq!(found[0].topic_name, "infra");

    let pop = RequestUpdateTopic { pop_to_admins: Some(strings(&["alice"])), ..patch_for(&topic) };
    assert!(change(&mut store, &pop, false).is_ok());
    let found = read_partition(&mut store, topic.topic_id).unwrap();
    assert_eq!(found.len(), 1);
    assert_eq!(found[0].topic_admins, strings(&[]));
    assert_eq!(found[0], topic);
}

#[test]
fn a_topic_is_found_by_its_name() {
    let mut store = migrated_store();
    let topic = Topic::try_from(infra_request()).unwrap();
    insert_topic(&mut store, &topic);
    let other = Topic { topic_id: Timeuuid(77), topic_name: "ops".to_string(), ..topic.clone() };
    insert_topic(&mut store, &other);

    let repo = TopicRepo::new();
    let query = RequestGetTopicByIndexKey { topic_name: "infra".to_string() };
    let reply = store.submit(&repo.find_topic_by_index_key_statement(&query), false);
    assert_eq!(repo.find_topic_by_index_key(&query, &reply), Ok(vec![topic]));
}

#[test]
fn a_name_nobody_carries_finds_an_empty_list() {
    let mut store = migrated_store();
    let repo = TopicRepo::new();
    let query = RequestGetTopicByIndexKey { topic_name: "nobody".to_string() };
    let reply = store.submit(&repo.find_topic_by_index_key_statement(&query), false);
    assert_eq!(repo.find_topic_by_index_key(&query, &reply), Ok(vec![]));
}

#[test]
fn an_unused_identifier_is_not_found() {
    let mut store = migrated_store();
    let topic = Topic::try_from(infra_request()).unwrap();
    insert_topic(&mut store, &topic);
    let unused = Timeuuid(topic.topic_id.0 ^ 1);
    assert_eq!(read_partition(&mut store, unused), Err(AppError::NotFound(EntityKind::Topic)));
}

#[test]
fn an_overwrite_defaults_the_columns_it_leaves_out() {
    let mut store = migrated_store();
    let topic = Topic {
        topic_owners: strings(&["ann", "bob"]),
        topic_description: Some("the machines".to_string()),
        ..Topic::try_from(infra_request()).unwrap()
    };
    insert_topic(&mut store, &topic);
    assert_eq!(read_row(&mut store, &topic).unwrap().topic_owners, strings(&["ann", "bob"]));

    let patch = RequestUpdateTopic { topic_name: Some("renamed".to_string()), ..patch_for(&topic) };
    let written = change(&mut store, &patch, false).unwrap();
    assert_eq!(written.topic_name, "renamed");

    let found = read_partition(&mut store, topic.topic_id).unwrap();
    assert_eq!(found.len(), 1);
    assert_eq!(found[0].topic_name, "renamed");
    assert_eq!(found[0].topic_owners, strings(&[]));
    assert_eq!(found[0].topic_admins, strings(&[]));
    assert_eq!(found[0].topic_description, None);
    assert_eq!(found[0].updated_at, Timestamp(0));
    assert_eq!(found[0], written);
}

#[test]
fn insert_then_find_by_primary_key_returns_the_topic() {
    let mut store = migrated_store();
    let topic = Topic {
        topic_id: Timeuuid(41),
        topic_name: "infra".to_string(),
        topic_description: Some("the machines".to_string()),
        topic_owners: strings(&["ann"]),
        topic_admins: strings(&["bob", "cy"]),
        created_at: Timestamp(1000),
        updated_at: Timestamp(2000),
    };
    insert_topic(&mut store, &topic);
    // a second topic in the same partition, and one in another
    insert_topic(&mut store, &Topic { created_at: Timestamp(1001), ..topic.clone() });
    insert_topic(&mut store, &Topic { topic_id: Timeuuid(42), ..topic.clone() });
    assert_eq!(read_row(&mut store, &topic), Ok(topic.clone()));
    // writing it again changes nothing
    insert_topic(&mut store, &topic);
    assert_eq!(read_row(&mut store, &topic), Ok(topic.clone()));
    assert_eq!(read_partition(&mut store, Timeuuid(41)).unwrap().len(), 2);
}

#[test]
fn a_missing_row_is_not_found_by_primary_key() {
    let mut store = migrated_store();
    let topic = Topic::try_from(infra_request()).unwrap();
    insert_topic(&mut store, &topic);
    let elsewhere = Topic { created_at: Timestamp(topic.created_at.0 + 1), ..topic };
    assert_eq!(read_row(&mut store, &elsewhere), Err(AppError::NotFound(EntityKind::Topic)));
}

#[test]
fn a_lookup_stays_within_its_partition() {
    let mut store = migrated_store();
    for id in 1..6u128 {
        for at in 1..4i64 {
            let topic = Topic {
                topic_id: Timeuuid(id),
                topic_name: format!("topic {}", id),
                created_at: Timestamp(at),
                ..Topic::try_from(infra_request()).unwrap()
            };
            insert_topic(&mut store, &topic);
        }
    }
    let found = read_partition(&mut store, Timeuuid(3)).unwrap();
    assert_eq!(found.len(), 3);
    assert!(found.iter().all(|t| t.topic_id == Timeuuid(3)));
}

#[test]
fn rows_of_another_partition_make_the_answer_malformed() {
    let repo = TopicRepo::new();
    let query = RequestGetTopicByPartitionKey { topic_id: Timeuuid(3) };
    let mine = Topic { topic_id: Timeuuid(3), ..Topic::try_from(infra_request()).unwrap() };
    let foreign = Topic { topic_id: Timeuuid(4), ..mine.clone() };
    let good = StoreReply::Rows(vec![mine.to_row()]);
    assert_eq!(repo.find_topic_by_partition_key(&query, &good), Ok(vec![mine.clone()]));
    let mixed = StoreReply::Rows(vec![mine.to_row(), foreign.to_row()]);
    assert_eq!(repo.find_topic_by_partition_key(&query, &mixed), Err(AppError::InternalServerError));
}

#[test]
fn an_empty_partition_is_not_found_not_an_empty_list() {
    let repo = TopicRepo::new();
    let query = RequestGetTopicByPartitionKey { topic_id: Timeuuid(3) };
    assert_eq!(
        repo.find_topic_by_partition_key(&query, &StoreReply::Rows(vec![])),
        Err(AppError::NotFound(EntityKind::Topic))
    );
    let mut store = migrated_store();
    assert_eq!(
        read_partition(&mut store, Timeuuid(3)),
        Err(AppError::NotFound(EntityKind::Topic))
    );
}

#[test]
fn store_failures_are_internal_errors() {
    let repo = TopicRepo::new();
    let topic = Topic::try_from(infra_request()).unwrap();
    let by_partition = RequestGetTopicByPartitionKey { topic_id: topic.topic_id };
    let by_key = RequestGetTopicByPrimaryKey { topic_id: topic.topic_id, created_at: topic.created_at };
    let by_name = RequestGetTopicByIndexKey { topic_name: "infra".to_string() };
    let patch = patch_for(&topic);
    for reply in [StoreReply::Failed, StoreReply::Applied] {
        assert_eq!(
            repo.find_topic_by_partition_key(&by_partition, &reply),
            Err(AppError::InternalServerError)
        );
        assert_eq!(repo.find_topic_by_primary_key(&by_key, &reply), Err(AppError::InternalServerError));
        assert_eq!(repo.find_topic_by_index_key(&by_name, &reply), Err(AppError::InternalServerError));
    }
    for reply in [StoreReply::Failed, StoreReply::Rows(vec![])] {
        assert_eq!(repo.create_topic(&topic, &reply), Err(AppError::InternalServerError));
        assert_eq!(repo.update_topic(&patch, &reply), Err(AppError::InternalServerError));
    }
}

#[test]
fn unreadable_rows_are_internal_errors() {
    let repo = TopicRepo::new();
    let topic = Topic { topic_id: Timeuuid(3), ..Topic::try_from(infra_request()).unwrap() };
    let mut broken = topic.to_row();
    broken.values[2] = CqlValue::Null;
    let query = RequestGetTopicByPartitionKey { topic_id: Timeuuid(3) };
    assert_eq!(
        repo.find_topic_by_partition_key(&query, &StoreReply::Rows(vec![topic.to_row(), broken.clone()])),
        Err(AppError::InternalServerError)
    );
    let by_key = RequestGetTopicByPrimaryKey { topic_id: Timeuuid(3), created_at: topic.created_at };
    assert_eq!(
        repo.find_topic_by_primary_key(&by_key, &StoreReply::Rows(vec![broken])),
        Err(AppError::InternalServerError)
    );
    // two rows for one primary key
    assert_eq!(
        repo.find_topic_by_primary_key(&by_key, &StoreReply::Rows(vec![topic.to_row(), topic.to_row()])),
        Err(AppError::InternalServerError)
    );
    // a row with another key
    let other = Topic { created_at: Timestamp(topic.created_at.0 + 1), ..topic.clone() };
    assert_eq!(
        repo.find_topic_by_primary_key(&by_key, &StoreReply::Rows(vec![other.to_row()])),
        Err(AppError::InternalServerError)
    );
    assert_eq!(
        repo.find_topic_by_primary_key(&by_key, &StoreReply::Rows(vec![topic.to_row()])),
        Ok(topic.clone())
    );
    // a row with another name in the answer to a lookup by name
    let by_name = RequestGetTopicByIndexKey { topic_name: "ops".to_string() };
    assert_eq!(
        repo.find_topic_by_index_key(&by_name, &StoreReply::Rows(vec![topic.to_row()])),
        Err(AppError::InternalServerError)
    );
}

#[test]
fn a_change_with_list_mutations_is_one_batch_on_one_row() {
    let repo = TopicRepo::new();
    let patch = RequestUpdateTopic {
        topic_id: Timeuuid(3),
        created_at: Timestamp(4),
        topic_name: Some("ignored here".to_string()),
        topic_description: None,
        push_to_owners: Some(strings(&["ann"])),
        pop_to_owners: Some(strings(&["bob"])),
        push_to_admins: Some(strings(&["cy"])),
        pop_to_admins: Some(strings(&["dee"])),
    };
    let key = Row { values: vec![CqlValue::Timeuuid(Timeuuid(3)), CqlValue::Timestamp(Timestamp(4))] };
    assert_eq!(
        repo.update_topic_statement(&patch),
        Action::LoggedBatch(vec![
            Statement::ListAppend {
                kind: EntityKind::Topic,
                key: key.clone(),
                column: TOPIC_OWNERS,
                values: strings(&["ann"]),
            },
            Statement::ListRemove {
                kind: EntityKind::Topic,
                key: key.clone(),
                column: TOPIC_OWNERS,
                values: strings(&["bob"]),
            },
            Statement::ListAppend {
                kind: EntityKind::Topic,
                key: key.clone(),
                column: TOPIC_ADMINS,
                values: strings(&["cy"]),
            },
            Statement::ListRemove {
                kind: EntityKind::Topic,
                key: key.clone(),
                column: TOPIC_ADMINS,
                values: strings(&["dee"]),
            },
        ])
    );
    let only_pop = RequestUpdateTopic {
        push_to_owners: None,
        pop_to_owners: None,
        push_to_admins: None,
        ..patch.clone()
    };
    assert_eq!(
        repo.update_topic_statement(&only_pop),
        Action::LoggedBatch(vec![Statement::ListRemove {
            kind: EntityKind::Topic,
            key,
            column: TOPIC_ADMINS,
            values: strings(&["dee"]),
        }])
    );
}

#[test]
fn a_change_without_list_mutations_overwrites_the_row() {
    let repo = TopicRepo::new();
    let patch = RequestUpdateTopic {
        topic_id: Timeuuid(3),
        created_at: Timestamp(4),
        topic_name: Some("renamed".to_string()),
        topic_description: Some("why".to_string()),
        push_to_owners: None,
        pop_to_owners: None,
        push_to_admins: None,
        pop_to_admins: None,
    };
    assert_eq!(
        repo.update_topic_statement(&patch),
        Action::Single(Statement::Update {
            kind: EntityKind::Topic,
            row: Row {
                values: vec![
                    CqlValue::Timeuuid(Timeuuid(3)),
                    CqlValue::Timestamp(Timestamp(4)),
                    CqlValue::Text("renamed".to_string()),
                    CqlValue::Text("why".to_string()),
                    CqlValue::TextList(vec![]),
                    CqlValue::TextList(vec![]),
                    CqlValue::Timestamp(Timestamp(0)),
                ],
            },
        })
    );
}

#[test]
fn push_and_pop_in_one_change_apply_together_or_not_at_all() {
    let mut store = migrated_store();
    let topic = Topic {
        topic_admins: strings(&["ann", "bob"]),
        ..Topic::try_from(infra_request()).unwrap()
    };
    insert_topic(&mut store, &topic);
    let both = RequestUpdateTopic {
        push_to_admins: Some(strings(&["cy"])),
        pop_to_admins: Some(strings(&["ann"])),
        ..patch_for(&topic)
    };
    // the store fails: neither is applied
    assert_eq!(change(&mut store, &both, true), Err(AppError::InternalServerError));
    assert_eq!(read_row(&mut store, &topic).unwrap().topic_admins, strings(&["ann", "bob"]));
    // the store applies: both are
    assert!(change(&mut store, &both, false).is_ok());
    assert_eq!(read_row(&mut store, &topic).unwrap().topic_admins, strings(&["bob", "cy"]));
}

#[test]
fn push_then_pop_restores_a_list_that_did_not_hold_the_value() {
    let mut store = migrated_store();
    let topic = Topic {
        topic_owners: strings(&["ann", "bob", "ann"]),
        ..Topic::try_from(infra_request()).unwrap()
    };
    insert_topic(&mut store, &topic);
    let push = RequestUpdateTopic { push_to_owners: Some(strings(&["cy"])), ..patch_for(&topic) };
    let pop = RequestUpdateTopic { pop_to_owners: Some(strings(&["cy"])), ..patch_for(&topic) };
    assert!(change(&mut store, &push, false).is_ok());
    assert_eq!(read_row(&mut store, &topic).unwrap().topic_owners, strings(&["ann", "bob", "ann", "cy"]));
    assert!(change(&mut store, &pop, false).is_ok());
    assert_eq!(read_row(&mut store, &topic), Ok(topic.clone()));
}

#[test]
fn pop_takes_earlier_occurrences_too() {
    let mut store = migrated_store();
    let topic = Topic {
        topic_owners: strings(&["ann", "bob"]),
        ..Topic::try_from(infra_request()).unwrap()
    };
    insert_topic(&mut store, &topic);
    let push = RequestUpdateTopic { push_to_owners: Some(strings(&["ann"])), ..patch_for(&topic) };
    let pop = RequestUpdateTopic { pop_to_owners: Some(strings(&["ann"])), ..patch_for(&topic) };
    assert!(change(&mut store, &push, false).is_ok());
    assert!(change(&mut store, &pop, false).is_ok());
    assert_eq!(read_row(&mut store, &topic).unwrap().topic_owners, strings(&["bob"]));
}

#[test]
fn topic_migration_creates_the_table_then_the_index() {
    assert_eq!(
        TopicRepo::new().migrate_topic_table(),
        vec![
            Statement::CreateTable { kind: EntityKind::Topic },
            Statement::CreateIndex { kind: EntityKind::Topic, column: 2 },
        ]
    );
}

#[test]
fn an_insert_assigns_what_the_topic_lacks() {
    let mut store = migrated_store();
    let repo = TopicRepo::new();
    let bare = Topic {
        topic_id: Timeuuid(0),
        topic_name: "infra".to_string(),
        topic_description: None,
        topic_owners: vec![],
        topic_admins: vec![],
        created_at: Timestamp(0),
        updated_at: Timestamp(0),
    };
    let (ready, action) = repo.create_topic_statement(bare);
    assert_eq!((ready.topic_id.0 >> 76) & 0xf, 1);
    assert!(ready.created_at.0 > 0);
    assert_eq!(ready.updated_at, ready.created_at);
    assert_eq!(action, Action::Single(Statement::Insert { kind: EntityKind::Topic, row: ready.to_row() }));
    let reply = store.submit(&action, false);
    assert_eq!(repo.create_topic(&ready, &reply), Ok(&ready));
    assert_eq!(read_partition(&mut store, ready.topic_id), Ok(vec![ready.clone()]));
    assert_eq!(read_row(&mut store, &ready), Ok(ready));
}

#[test]
fn the_topics_of_a_partition_come_latest_first() {
    let mut store = migrated_store();
    let base = Topic::try_from(infra_request()).unwrap();
    for at in [200, 100, 300] {
        insert_topic(&mut store, &Topic { topic_id: Timeuuid(8), created_at: Timestamp(at), ..base.clone() });
    }
    let found = read_partition(&mut store, Timeuuid(8)).unwrap();
    let times: Vec<i64> = found.iter().map(|t| t.created_at.0).collect();
    assert_eq!(times, vec![300, 200, 100]);
}
