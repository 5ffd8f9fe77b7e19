use message::application::topic::request::{RequestCreateTopic, RequestUpdateTopic};
use message::application::topic_message::request::RequestUpdateTopicMessage;
use message::common::generate::node_id;
use message::common::types::{clone_texts, concat_texts, contains_text, same_texts, Timestamp, Timeuuid};
use message::domain::latest_message::entity::LatestMessage;
use message::domain::notification::entity::Notification;
use message::domain::topic::entity::Topic;
use message::domain::topic_message::entity::TopicMessage;
use message::domain::topic_user::entity::TopicUser;
use message::domain::user_topic::entity::UserTopic;
use message::store::statement::{check_row, Statement};
use message::store::schema::EntityKind;
use message::store::value::{clone_rows, CqlValue, ColumnType, Row};

fn sample_topic() -> Topic {
    Topic {
        topic_id: Timeuuid(0x1234),
        topic_name: "infra".to_string(),
        topic_description: Some("the machines".to_string()),
        topic_owners: vec!["ann".to_string(), "bob".to_string()],
        topic_admins: vec!["cy".to_string()],
        created_at: Timestamp(1_700_000_000_000),
        updated_at: Timestamp(1_700_000_000_500),
    }
}

#[test]
fn topic_row_lists_keys_first() {
    let row = sample_topic().to_row();
    assert_eq!(
        row.values,
        vec![
            CqlValue::Timeuuid(Timeuuid(0x1234)),
            CqlValue::Timestamp(Timestamp(1_700_000_000_000)),
            CqlValue::Text("infra".to_string()),
            CqlValue::Text("the machines".to_string()),
            CqlValue::TextList(vec!["ann".to_string(), "bob".to_string()]),
            CqlValue::TextList(vec!["cy".to_string()]),
            CqlValue::Timestamp(Timestamp(1_700_000_000_500)),
        ]
    );
    assert!(check_row(EntityKind::Topic, &row));
}

#[test]
fn topic_reads_back_from_its_row() {
    let topic = sample_topic();
    assert_eq!(Topic::from_row(&topic.to_row()), Some(topic.clone()));
    assert_eq!(topic.duplicate(), topic);
    let plain = Topic { topic_description: None, topic_owners: vec![], ..sample_topic() };
    assert_eq!(plain.to_row().values[3], CqlValue::Null);
    assert_eq!(Topic::from_row(&plain.to_row()), Some(plain));
}

#[test]
fn null_lists_read_as_empty_lists() {
    let mut row = sample_topic().to_row();
    row.values[4] = CqlValue::Null;
    row.values[5] = CqlValue::Null;
    let topic = Topic::from_row(&row).unwrap();
    assert!(topic.topic_owners.is_empty());
    assert!(topic.topic_admins.is_empty());
    assert_eq!(topic.topic_name, "infra");
}

#[test]
fn rows_of_another_shape_are_not_topics() {
    let mut short = sample_topic().to_row();
    short.values.pop();
    assert_eq!(Topic::from_row(&short), None);
    let mut long = sample_topic().to_row();
    long.values.push(CqlValue::Null);
    assert_eq!(Topic::from_row(&long), None);
    let mut no_name = sample_topic().to_row();
    no_name.values[2] = CqlValue::Null;
    assert_eq!(Topic::from_row(&no_name), None);
    let mut no_key = sample_topic().to_row();
    no_key.values[0] = CqlValue::Null;
    assert_eq!(Topic::from_row(&no_key), None);
    let mut mistyped = sample_topic().to_row();
    mistyped.values[6] = CqlValue::Text("now".to_string());
    assert_eq!(Topic::from_row(&mistyped), None);
    let mut swapped = sample_topic().to_row();
    swapped.values.swap(0, 1);
    assert_eq!(Topic::from_row(&swapped), None);
}

#[test]
fn topic_from_a_request_takes_every_column_the_request_sets() {
    let request = RequestCreateTopic {
        topic_name: "infra".to_string(),
        topic_description: Some("the machines".to_string()),
        topic_owners: vec!["ann".to_string()],
        topic_admins: vec!["bob".to_string()],
    };
    let topic = Topic::from_request(request, Timeuuid(5), Timestamp(6), Timestamp(7));
    assert_eq!(
        topic,
        Topic {
            topic_id: Timeuuid(5),
            topic_name: "infra".to_string(),
            topic_description: Some("the machines".to_string()),
            topic_owners: vec!["ann".to_string()],
            topic_admins: vec!["bob".to_string()],
            created_at: Timestamp(6),
            updated_at: Timestamp(7),
        }
    );
    let plain = RequestCreateTopic {
        topic_name: "ops".to_string(),
        topic_description: None,
        topic_owners: vec![],
        topic_admins: vec![],
    };
    let topic = Topic::from_request(plain, Timeuuid(5), Timestamp(6), Timestamp(7));
    assert_eq!(topic.topic_description, None);
    assert_eq!(topic.topic_name, "ops");
}

#[test]
fn a_created_topic_carries_its_description() {
    let request = RequestCreateTopic {
        topic_name: "infra".to_string(),
        topic_description: Some("core infra".to_string()),
        topic_owners: vec!["bob".to_string()],
        topic_admins: vec!["alice".to_string()],
    };
    let topic = Topic::try_from(request).unwrap();
    assert_eq!(topic.topic_name, "infra");
    assert_eq!(topic.topic_description, Some("core infra".to_string()));
    assert_eq!(topic.topic_owners, vec!["bob".to_string()]);
    assert_eq!(topic.topic_admins, vec!["alice".to_string()]);
    assert_eq!(topic.to_row().values[3], CqlValue::Text("core infra".to_string()));
}

#[test]
fn a_created_topic_gets_a_version_one_identifier() {
    let request = RequestCreateTopic {
        topic_name: "infra".to_string(),
        topic_description: None,
        topic_owners: vec![],
        topic_admins: vec![],
    };
    let topic = Topic::try_from(request.clone()).unwrap();
    assert_eq!((topic.topic_id.0 >> 76) & 0xf, 1);
    assert!(!topic.topic_id.is_nil());
    assert_ne!(topic.topic_id, Timeuuid::nil());
    assert_eq!(topic.topic_name, "infra");
    assert!(topic.topic_owners.is_empty());
    assert!(topic.topic_admins.is_empty());
    assert_eq!(topic.topic_description, None);
    // the node of this process is stamped into the low 48 bits
    let node = node_id();
    assert_eq!(node, [1, 2, 3, 4, 5, 6]);
    assert_eq!(topic.topic_id.0 & 0xffff_ffff_ffff, 0x0102_0304_0506);
    // the clock has moved on from the epoch
    assert!(topic.created_at.0 > 1_600_000_000_000);
    assert!(topic.updated_at.0 >= topic.created_at.0);
    // a second topic gets another identifier
    let other = Topic::try_from(request).unwrap();
    assert_ne!(other.topic_id, topic.topic_id);
}

#[test]
fn a_patch_leaves_unnamed_columns_at_their_defaults() {
    let patch = RequestUpdateTopic {
        topic_id: Timeuuid(9),
        created_at: Timestamp(10),
        topic_name: Some("renamed".to_string()),
        topic_description: None,
        push_to_owners: None,
        pop_to_owners: None,
        push_to_admins: None,
        pop_to_admins: None,
    };
    assert_eq!(
        Topic::from_patch(&patch),
        Topic {
            topic_id: Timeuuid(9),
            topic_name: "renamed".to_string(),
            topic_description: None,
            topic_owners: vec![],
            topic_admins: vec![],
            created_at: Timestamp(10),
            updated_at: Timestamp(0),
        }
    );
    let bare = RequestUpdateTopic { topic_name: None, topic_description: Some("why".to_string()), ..patch };
    let topic = Topic::from_patch(&bare);
    assert_eq!(topic.topic_name, "");
    assert_eq!(topic.topic_description, Some("why".to_string()));
}

#[test]
fn topic_message_row_round_trip() {
    let message = TopicMessage {
        topic_id: Timeuuid(1),
        from_user_id: Timeuuid(2),
        message: "hello".to_string(),
        created_at: Timestamp(3),
    };
    let row = message.to_row();
    assert_eq!(
        row.values,
        vec![
            CqlValue::Timeuuid(Timeuuid(1)),
            CqlValue::Timestamp(Timestamp(3)),
            CqlValue::Timeuuid(Timeuuid(2)),
            CqlValue::Text("hello".to_string()),
        ]
    );
    assert!(check_row(EntityKind::TopicMessage, &row));
    assert_eq!(TopicMessage::from_row(&row), Some(message.clone()));
    assert_eq!(message.duplicate(), message);
    let mut nulled = row.clone();
    nulled.values[3] = CqlValue::Null;
    assert_eq!(TopicMessage::from_row(&nulled), None);
}

#[test]
fn topic_message_from_an_update_has_the_default_creation_time() {
    let request = RequestUpdateTopicMessage {
        topic_id: Timeuuid(1),
        from_user_id: Timeuuid(2),
        message: "hello".to_string(),
    };
    assert_eq!(
        TopicMessage::from_update(&request),
        TopicMessage {
            topic_id: Timeuuid(1),
            from_user_id: Timeuuid(2),
            message: "hello".to_string(),
            created_at: Timestamp(0),
        }
    );
}

#[test]
fn latest_message_row_round_trip() {
    let latest = LatestMessage {
        latest_message_id: Timeuuid(1),
        latest_message_content: "hello".to_string(),
        topic_id: Timeuuid(2),
        user_id: Timeuuid(3),
        created_at: Timestamp(4),
        updated_at: Timestamp(5),
    };
    let row = latest.to_row();
    assert_eq!(
        row.values,
        vec![
            CqlValue::Timeuuid(Timeuuid(3)),
            CqlValue::Timeuuid(Timeuuid(1)),
            CqlValue::Text("hello".to_string()),
            CqlValue::Timeuuid(Timeuuid(2)),
            CqlValue::Timestamp(Timestamp(4)),
            CqlValue::Timestamp(Timestamp(5)),
        ]
    );
    assert!(check_row(EntityKind::LatestMessage, &row));
    assert_eq!(LatestMessage::from_row(&row), Some(latest));
}

#[test]
fn notification_row_round_trip() {
    let notification = Notification {
        topic_id: Timeuuid(1),
        username: "ann".to_string(),
        from_user: "bob".to_string(),
        message: "ping".to_string(),
        created_at: Timestamp(2),
    };
    let row = notification.to_row();
    assert_eq!(
        row.values,
        vec![
            CqlValue::Text("ann".to_string()),
            CqlValue::Timestamp(Timestamp(2)),
            CqlValue::Timeuuid(Timeuuid(1)),
            CqlValue::Text("bob".to_string()),
            CqlValue::Text("ping".to_string()),
        ]
    );
    assert!(check_row(EntityKind::Notification, &row));
    assert_eq!(Notification::from_row(&row), Some(notification));
}

#[test]
fn topic_user_and_user_topic_row_round_trips() {
    let topic_user = TopicUser {
        topic_id: Timeuuid(1),
        username: "ann".to_string(),
        user_id: Timeuuid(2),
        created_at: Timestamp(3),
    };
    let row = topic_user.to_row();
    assert_eq!(
        row.values,
        vec![
            CqlValue::Timeuuid(Timeuuid(1)),
            CqlValue::Timestamp(Timestamp(3)),
            CqlValue::Text("ann".to_string()),
            CqlValue::Timeuuid(Timeuuid(2)),
        ]
    );
    assert!(check_row(EntityKind::TopicUser, &row));
    assert_eq!(TopicUser::from_row(&row), Some(topic_user));

    let user_topic =
        UserTopic { topic_id: Timeuuid(1), username: "ann".to_string(), created_at: Timestamp(3) };
    let row = user_topic.to_row();
    assert_eq!(
        row.values,
        vec![
            CqlValue::Timeuuid(Timeuuid(1)),
            CqlValue::Timestamp(Timestamp(3)),
            CqlValue::Text("ann".to_string()),
        ]
    );
    assert!(check_row(EntityKind::UserTopic, &row));
    // a topic user row is no user topic row
    assert_eq!(UserTopic::from_row(&topic_user_row()), None);
    assert_eq!(UserTopic::from_row(&row), Some(user_topic));
}

fn topic_user_row() -> Row {
    Row {
        values: vec![
            CqlValue::Timeuuid(Timeuuid(1)),
            CqlValue::Timestamp(Timestamp(3)),
            CqlValue::Text("ann".to_string()),
            CqlValue::Timeuuid(Timeuuid(2)),
        ],
    }
}

#[test]
fn values_compare_by_what_they_hold() {
    let list = CqlValue::TextList(vec!["a".to_string(), "b".to_string()]);
    assert!(list.same(&list.duplicate()));
    assert!(!list.same(&CqlValue::TextList(vec!["a".to_string()])));
    assert!(!list.same(&CqlValue::TextList(vec!["b".to_string(), "a".to_string()])));
    assert!(!list.same(&CqlValue::Null));
    assert!(CqlValue::Null.same(&CqlValue::Null));
    assert!(!CqlValue::Timeuuid(Timeuuid(1)).same(&CqlValue::Timestamp(Timestamp(1))));
    assert!(CqlValue::Text("x".to_string()).same(&CqlValue::Text("x".to_string())));
    assert!(!CqlValue::Text("x".to_string()).same(&CqlValue::Text("y".to_string())));
    assert!(CqlValue::Null.fits(ColumnType::Text));
    assert!(list.fits(ColumnType::TextList));
    assert!(!list.fits(ColumnType::Text));
    assert!(CqlValue::Timestamp(Timestamp(1)).fits(ColumnType::Timestamp));
    assert!(!CqlValue::Timestamp(Timestamp(1)).fits(ColumnType::Timeuuid));
}

#[test]
fn rows_and_prefixes() {
    let row = topic_user_row();
    let key = Row { values: vec![CqlValue::Timeuuid(Timeuuid(1)), CqlValue::Timestamp(Timestamp(3))] };
    assert!(row.starts_with(&key));
    assert!(row.starts_with(&Row { values: vec![] }));
    assert!(row.starts_with(&row.duplicate()));
    assert!(!key.starts_with(&row));
    assert!(!row.starts_with(&Row { values: vec![CqlValue::Timeuuid(Timeuuid(2))] }));
    assert_eq!(clone_rows(&vec![row.clone(), key.clone()]), vec![row, key]);
}

#[test]
fn lists_of_texts() {
    let a = vec!["x".to_string(), "y".to_string()];
    let b = vec!["z".to_string()];
    assert_eq!(clone_texts(&a), a);
    assert_eq!(concat_texts(&a, &b), vec!["x".to_string(), "y".to_string(), "z".to_string()]);
    assert_eq!(concat_texts(&vec![], &b), b);
    assert!(same_texts(&a, &a.clone()));
    assert!(!same_texts(&a, &b));
    assert!(!same_texts(&a, &vec!["x".to_string(), "z".to_string()]));
    assert!(contains_text(&a, &"y".to_string()));
    assert!(!contains_text(&a, &"z".to_string()));
    assert!(!contains_text(&vec![], &"z".to_string()));
}

#[test]
fn statements_are_copied_whole() {
    let statement = Statement::ListAppend {
        kind: EntityKind::Topic,
        key: Row { values: vec![CqlValue::Timeuuid(Timeuuid(1)), CqlValue::Timestamp(Timestamp(3))] },
        column: 5,
        values: vec!["ann".to_string()],
    };
    assert_eq!(statement.duplicate(), statement);
    assert_eq!(statement.kind(), EntityKind::Topic);
    assert!(statement.is_row_write());
    assert!(!Statement::CreateTable { kind: EntityKind::Topic }.is_row_write());
}

#[test]
fn completing_a_topic_fills_in_only_what_is_unset() {
    let unset = Topic {
        topic_id: Timeuuid(0),
        topic_name: "infra".to_string(),
        topic_description: None,
        topic_owners: vec![],
        topic_admins: vec![],
        created_at: Timestamp(0),
        updated_at: Timestamp(0),
    };
    assert_eq!(
        unset.clone().completed(Timeuuid(5), Timestamp(6)),
        Topic { topic_id: Timeuuid(5), created_at: Timestamp(6), updated_at: Timestamp(6), ..unset.clone() }
    );
    let set = sample_topic();
    assert_eq!(set.clone().completed(Timeuuid(5), Timestamp(6)), set);
    let half = Topic { created_at: Timestamp(0), ..sample_topic() };
    assert_eq!(
        half.clone().completed(Timeuuid(5), Timestamp(6)),
        Topic { created_at: Timestamp(6), ..sample_topic() }
    );

    let fresh = unset.complete();
    assert_eq!((fresh.topic_id.0 >> 76) & 0xf, 1);
    assert!(fresh.created_at.0 > 1_600_000_000_000);
    assert_eq!(fresh.updated_at, fresh.created_at);
    assert_eq!(fresh.topic_name, "infra");
    assert_eq!(sample_topic().complete(), sample_topic());
}
