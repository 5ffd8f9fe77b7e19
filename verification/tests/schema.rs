use message::store::schema::{EntityKind, SchemaRegistry};
use message::store::value::ColumnType;

fn column_names_of(kind: EntityKind) -> Vec<String> {
    SchemaRegistry::describe(kind).columns.iter().map(|c| c.name.clone()).collect()
}

#[test]
fn topic_table_is_described() {
    let schema = SchemaRegistry::describe(EntityKind::Topic);
    assert_eq!(schema.table, "uptop.topics");
    assert_eq!(
        column_names_of(EntityKind::Topic),
        vec![
            "topic_id",
            "created_at",
            "topic_name",
            "topic_description",
            "topic_owners",
            "topic_admins",
            "updated_at"
        ]
    );
    assert_eq!(schema.columns[0].kind, ColumnType::Timeuuid);
    assert_eq!(schema.columns[1].kind, ColumnType::Timestamp);
    assert_eq!(schema.columns[2].kind, ColumnType::Text);
    assert_eq!(schema.columns[3].kind, ColumnType::Text);
    assert_eq!(schema.columns[4].kind, ColumnType::TextList);
    assert_eq!(schema.columns[5].kind, ColumnType::TextList);
    assert_eq!(schema.columns[6].kind, ColumnType::Timestamp);
    assert_eq!(schema.partition_len, 1);
    assert_eq!(schema.clustering_len, 1);
    assert!(schema.descending);
    assert_eq!(schema.indexes, vec![2]);
}

#[test]
fn latest_message_table_has_no_clustering_key() {
    let schema = SchemaRegistry::describe(EntityKind::LatestMessage);
    assert_eq!(schema.table, "uptop.latest_messages");
    assert_eq!(schema.partition_len, 1);
    assert_eq!(schema.clustering_len, 0);
    assert_eq!(schema.columns[0].name, "user_id");
    assert!(schema.indexes.is_empty());
}

#[test]
fn notification_table_is_keyed_by_username() {
    let schema = SchemaRegistry::describe(EntityKind::Notification);
    assert_eq!(schema.table, "uptop.notification");
    assert_eq!(
        column_names_of(EntityKind::Notification),
        vec!["username", "created_at", "topic_id", "from_user", "message"]
    );
    assert_eq!(schema.columns[0].kind, ColumnType::Text);
}

#[test]
fn remaining_tables_are_described() {
    assert_eq!(SchemaRegistry::describe(EntityKind::TopicMessage).table, "uptop.topic_messages");
    assert_eq!(
        column_names_of(EntityKind::TopicMessage),
        vec!["topic_id", "created_at", "from_user_id", "message"]
    );
    assert_eq!(SchemaRegistry::describe(EntityKind::TopicUser).table, "uptop.topic_user");
    assert_eq!(
        column_names_of(EntityKind::TopicUser),
        vec!["topic_id", "created_at", "username", "user_id"]
    );
    assert_eq!(SchemaRegistry::describe(EntityKind::UserTopic).table, "uptop.user_topic");
    assert_eq!(column_names_of(EntityKind::UserTopic), vec!["topic_id", "created_at", "username"]);
}

#[test]
fn widths_and_key_lengths_agree_with_the_descriptions() {
    assert_eq!(EntityKind::from_index(6), None);
    for i in 0..6 {
        let kind = EntityKind::from_index(i).unwrap();
        assert_eq!(kind.index(), i);
        let schema = SchemaRegistry::describe(kind);
        assert_eq!(SchemaRegistry::width(kind), schema.columns.len());
        assert_eq!(SchemaRegistry::partition_len(kind), schema.partition_len);
        assert_eq!(SchemaRegistry::key_len(kind), schema.partition_len + schema.clustering_len);
        for column in 0..schema.columns.len() {
            assert_eq!(SchemaRegistry::column_type(kind, column), Some(schema.columns[column].kind));
            assert_eq!(SchemaRegistry::is_indexed(kind, column), schema.indexes.contains(&column));
        }
        assert_eq!(SchemaRegistry::column_type(kind, schema.columns.len()), None);
    }
}

#[test]
fn only_the_topic_name_is_indexed() {
    assert!(SchemaRegistry::is_indexed(EntityKind::Topic, 2));
    assert!(!SchemaRegistry::is_indexed(EntityKind::Topic, 0));
    assert!(!SchemaRegistry::is_indexed(EntityKind::Topic, 3));
    assert!(!SchemaRegistry::is_indexed(EntityKind::TopicMessage, 2));
    assert!(!SchemaRegistry::is_indexed(EntityKind::Topic, 99));
}

#[test]
fn clustered_tables_are_kept_latest_first() {
    for i in 0..6 {
        let kind = EntityKind::from_index(i).unwrap();
        assert_eq!(SchemaRegistry::descending(kind), SchemaRegistry::describe(kind).descending);
        assert_eq!(SchemaRegistry::descending(kind), SchemaRegistry::describe(kind).clustering_len > 0);
    }
}
