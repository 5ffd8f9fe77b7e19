use message::common::result::AppError;
use message::infrastructure::persistence::migration::{migrate_all, migrate_table, MigrationRunner};
use message::infrastructure::persistence::MessageRepositories;
use message::store::memory::MemoryStore;
use message::store::schema::EntityKind;
use message::store::statement::{Action, Statement, StoreReply};
use message::store::value::{CqlValue, Row};
use message::common::types::{Timestamp, Timeuuid};

fn full_plan() -> Vec<Statement> {
    vec![
        Statement::CreateTable { kind: EntityKind::Topic },
        Statement::CreateIndex { kind: EntityKind::Topic, column: 2 },
        Statement::CreateTable { kind: EntityKind::TopicMessage },
        Statement::CreateTable { kind: EntityKind::LatestMessage },
        Statement::CreateTable { kind: EntityKind::Notification },
        Statement::CreateTable { kind: EntityKind::TopicUser },
        Statement::CreateTable { kind: EntityKind::UserTopic },
    ]
}

#[test]
fn the_full_migration_goes_entity_by_entity() {
    assert_eq!(migrate_all(), full_plan());
    assert_eq!(migrate_table(EntityKind::Notification), vec![Statement::CreateTable {
        kind: EntityKind::Notification
    }]);
}

#[test]
fn each_repository_knows_its_own_migration() {
    let repositories = MessageRepositories::new();
    let mut plan = repositories.topic.migrate_topic_table();
    plan.extend(repositories.topic_message.migrate_topic_message_table());
    plan.extend(repositories.latest_message.migrate_latest_message_table());
    plan.extend(repositories.notification.migrate_notification_table());
    plan.extend(repositories.topic_user.migrate_topic_user_table());
    plan.extend(repositories.user_topic.migrate_user_topic_table());
    assert_eq!(plan, full_plan());
}

#[test]
fn the_runner_hands_out_one_statement_at_a_time() {
    let mut runner = MessageRepositories::new().auto_mod_identification_migrate();
    let mut seen = Vec::new();
    while let Some(action) = runner.next() {
        assert_eq!(runner.outcome(), None);
        match action {
            Action::Single(statement) => seen.push(statement),
            Action::LoggedBatch(_) => panic!("schema statements are not batched"),
        }
        runner.record(&StoreReply::Applied);
    }
    assert_eq!(seen, full_plan());
    assert_eq!(runner.outcome(), Some(Ok(())));
    // recording after the end changes nothing
    runner.record(&StoreReply::Failed);
    assert_eq!(runner.outcome(), Some(Ok(())));
    assert_eq!(runner.next(), None);
}

#[test]
fn a_failed_statement_is_fatal() {
    let mut runner = MigrationRunner::new();
    assert_eq!(runner.next(), Some(Action::Single(Statement::CreateTable { kind: EntityKind::Topic })));
    runner.record(&StoreReply::Applied);
    assert_eq!(
        runner.next(),
        Some(Action::Single(Statement::CreateIndex { kind: EntityKind::Topic, column: 2 }))
    );
    runner.record(&StoreReply::Failed);
    assert_eq!(runner.next(), None);
    assert_eq!(runner.outcome(), Some(Err(AppError::MigrationFailed)));
    runner.record(&StoreReply::Applied);
    assert_eq!(runner.next(), None);
    assert_eq!(runner.outcome(), Some(Err(AppError::MigrationFailed)));
}

#[test]
fn an_unexpected_reply_is_fatal_too() {
    let mut runner = MigrationRunner::new();
    assert!(runner.next().is_some());
    runner.record(&StoreReply::Rows(vec![]));
    assert_eq!(runner.outcome(), Some(Err(AppError::MigrationFailed)));
}

#[test]
fn running_the_migration_twice_changes_nothing() {
    let mut store = MemoryStore::new();
    assert_eq!(MigrationRunner::migrate(&mut store), Ok(()));
    // something to lose
    let row = Row {
        values: vec![
            CqlValue::Timeuuid(Timeuuid(1)),
            CqlValue::Timestamp(Timestamp(2)),
            CqlValue::Text("ann".to_string()),
        ],
    };
    let write = Action::Single(Statement::Insert { kind: EntityKind::UserTopic, row: row.clone() });
    assert_eq!(store.submit(&write, false), StoreReply::Applied);

    assert_eq!(MigrationRunner::migrate(&mut store), Ok(()));

    let read = Action::Single(Statement::SelectPartition {
        kind: EntityKind::UserTopic,
        key: Row { values: vec![CqlValue::Timeuuid(Timeuuid(1))] },
    });
    assert_eq!(store.submit(&read, false), StoreReply::Rows(vec![row]));
    // the index is still there
    let by_name = Action::Single(Statement::SelectByIndex {
        kind: EntityKind::Topic,
        column: 2,
        value: CqlValue::Text("infra".to_string()),
    });
    assert_eq!(store.submit(&by_name, false), StoreReply::Rows(vec![]));
}

#[test]
fn every_statement_of_the_migration_has_a_text() {
    for statement in migrate_all() {
        let text = statement.to_cql().unwrap();
        assert!(text.starts_with("CREATE TABLE IF NOT EXISTS ") || text.starts_with("CREATE INDEX IF NOT EXISTS "));
        assert!(statement.is_wf());
        assert!(statement.bound_values().is_empty());
    }
}
