use std::sync::Arc;

use message::application::latest_message::app::{LatestMessageApp, LatestMessageAppInterface};
use message::application::latest_message::request::{
    RequestGetLatestMessagesByUserId, RequestUpdateLatestMessage,
};
use message::application::latest_message::response::PublicLatestMessage;
use message::application::notification::app::{NotificationApp, NotificationAppInterface};
use message::application::notification::request::{
    RequestGetNotificationByUsername, RequestUpdateNotification,
};
use message::application::notification::response::PublicNotification;
use message::application::topic::app::{TopicApp, TopicAppInterface};
use message::application::topic::request::{
    RequestCreateTopic, RequestGetTopicByIndexKey, RequestGetTopicByPartitionKey,
    RequestGetTopicByPrimaryKey, RequestUpdateTopic,
};
use message::application::topic::response::PublicTopic;
use message::application::topic_message::app::{TopicMessageApp, TopicMessageAppInterface};
use message::application::topic_message::request::{
    RequestGetMessagesByTopicId, RequestUpdateTopicMessage,
};
use message::application::topic_message::response::PublicTopicMessage;
use message::application::topic_user::app::{TopicUserApp, TopicUserAppInterface};
use message::application::topic_user::request::{RequestGetUsersByTopicId, RequestUpdateTopicUser};
use message::application::topic_user::response::PublicTopicUser;
use message::application::user_topic::app::{UserTopicApp, UserTopicAppInterface};
use message::application::user_topic::request::{RequestGetTopicsByUsername, RequestUpdateUserTopic};
use message::application::user_topic::response::PublicUserTopic;
use message::common::result::AppError;
use message::common::types::{Timestamp, Timeuuid};
use message::domain::topic::entity::Topic;
use message::infrastructure::persistence::latest_message_repository::LatestMessageRepo;
use message::infrastructure::persistence::migration::MigrationRunner;
use message::infrastructure::persistence::notification_repository::NotificationRepo;
use message::infrastructure::persistence::topic_message_repository::TopicMessageRepo;
use message::infrastructure::persistence::topic_repository::TopicRepo;
use message::infrastructure::persistence::topic_user_repository::TopicUserRepo;
use message::infrastructure::persistence::user_topic_repository::UserTopicRepo;
use message::interfaces::topic_handler::{
    on_create_new_topic, on_create_new_topic_statement, TopicHandler,
};
use message::store::memory::MemoryStore;
use message::store::schema::EntityKind;
use message::store::statement::{Action, Statement, StoreReply};

fn ready_store() -> MemoryStore {
    let mut store = MemoryStore::new();
    assert_eq!(MigrationRunner::migrate(&mut store), Ok(()));
    store
}

fn sample() -> Topic {
    Topic {
        topic_id: Timeuuid(5),
        topic_name: "infra".to_string(),
        topic_description: Some("the machines".to_string()),
        topic_owners: vec!["ann".to_string()],
        topic_admins: vec!["bob".to_string()],
        created_at: Timestamp(6),
        updated_at: Timestamp(7),
    }
}

fn shown_sample() -> PublicTopic {
    PublicTopic {
        topic_id: Timeuuid(5),
        topic_name: "infra".to_string(),
        topic_description: Some("the machines".to_string()),
        topic_owners: vec!["ann".to_string()],
        topic_admins: vec!["bob".to_string()],
        created_at: Timestamp(6),
    }
}

#[test]
fn a_topic_is_shown_without_its_identifier() {
    assert_eq!(PublicTopic::try_from(&sample()), Ok(shown_sample()));
}

#[test]
fn the_topic_service_shows_what_the_repository_finds() {
    let mut store = ready_store();
    let app = TopicApp::new(Arc::new(TopicRepo::new()));
    let (topic, action) = app.create_topic_statement(sample());
    assert_eq!(topic, sample());
    let reply = store.submit(&action, false);
    assert_eq!(app.create_topic(&topic, &reply), Ok(shown_sample()));

    let by_partition = RequestGetTopicByPartitionKey { topic_id: Timeuuid(5) };
    let reply = store.submit(&app.find_topic_by_partition_key_statement(&by_partition), false);
    assert_eq!(app.find_topic_by_partition_key(&by_partition, &reply), Ok(vec![shown_sample()]));

    let by_key = RequestGetTopicByPrimaryKey { topic_id: Timeuuid(5), created_at: Timestamp(6) };
    let reply = store.submit(&app.find_topic_by_primary_key_statement(&by_key), false);
    assert_eq!(app.find_topic_by_primary_key(&by_key, &reply), Ok(shown_sample()));

    let by_name = RequestGetTopicByIndexKey { topic_name: "infra".to_string() };
    let reply = store.submit(&app.find_topic_by_index_key_statement(&by_name), false);
    assert_eq!(app.find_topic_by_index_key(&by_name, &reply), Ok(vec![shown_sample()]));

    let patch = RequestUpdateTopic {
        topic_id: Timeuuid(5),
        created_at: Timestamp(6),
        topic_name: Some("renamed".to_string()),
        topic_description: None,
        push_to_owners: None,
        pop_to_owners: None,
        push_to_admins: None,
        pop_to_admins: None,
    };
    let reply = store.submit(&app.update_topic_statement(&patch), false);
    assert_eq!(
        app.update_topic(&patch, &reply),
        Ok(PublicTopic {
            topic_id: Timeuuid(5),
            topic_name: "renamed".to_string(),
            topic_description: None,
            topic_owners: vec![],
            topic_admins: vec![],
            created_at: Timestamp(6),
        })
    );
}

#[test]
fn the_topic_service_passes_errors_on() {
    let app = TopicApp::new(Arc::new(TopicRepo::new()));
    let by_partition = RequestGetTopicByPartitionKey { topic_id: Timeuuid(5) };
    assert_eq!(
        app.find_topic_by_partition_key(&by_partition, &StoreReply::Rows(vec![])),
        Err(AppError::NotFound(EntityKind::Topic))
    );
    assert_eq!(
        app.find_topic_by_partition_key(&by_partition, &StoreReply::Failed),
        Err(AppError::InternalServerError)
    );
    let by_key = RequestGetTopicByPrimaryKey { topic_id: Timeuuid(5), created_at: Timestamp(6) };
    assert_eq!(
        app.find_topic_by_primary_key(&by_key, &StoreReply::Rows(vec![])),
        Err(AppError::NotFound(EntityKind::Topic))
    );
    assert_eq!(app.create_topic(&sample(), &StoreReply::Failed), Err(AppError::InternalServerError));
}

#[test]
fn creating_a_topic_validates_before_anything_is_submitted() {
    let handler = TopicHandler { topic_app: Arc::new(TopicApp::new(Arc::new(TopicRepo::new()))) };
    let bad = RequestCreateTopic {
        topic_name: "infra".to_string(),
        topic_description: Some("ab".to_string()),
        topic_owners: vec![],
        topic_admins: vec![],
    };
    assert!(matches!(
        on_create_new_topic_statement(&handler, bad),
        Err(AppError::BadRequest { .. })
    ));

    let good = RequestCreateTopic {
        topic_name: "infra".to_string(),
        topic_description: Some("abc".to_string()),
        topic_owners: vec!["ann".to_string()],
        topic_admins: vec![],
    };
    let (topic, action) = on_create_new_topic_statement(&handler, good).unwrap();
    assert_eq!(topic.topic_name, "infra");
    assert_eq!(topic.topic_description, Some("abc".to_string()));
    assert_eq!(topic.topic_owners, vec!["ann".to_string()]);
    assert_eq!(action, Action::Single(Statement::Insert { kind: EntityKind::Topic, row: topic.to_row() }));

    let mut store = ready_store();
    let reply = store.submit(&action, false);
    let shown = on_create_new_topic(&handler, &topic, &reply).unwrap();
    assert_eq!(shown.topic_name, "infra");
    assert_eq!(shown.topic_description, Some("abc".to_string()));
    assert_eq!(shown.created_at, topic.created_at);
    assert_eq!(shown.topic_id, topic.topic_id);
    assert_eq!((shown.topic_id.0 >> 76) & 0xf, 1);
    assert_eq!(
        on_create_new_topic(&handler, &topic, &StoreReply::Failed),
        Err(AppError::InternalServerError)
    );
}

#[test]
fn topic_messages_are_written_and_listed() {
    let mut store = ready_store();
    let app = TopicMessageApp::new(Arc::new(TopicMessageRepo::new()));
    let request = RequestUpdateTopicMessage {
        topic_id: Timeuuid(1),
        from_user_id: Timeuuid(2),
        message: "hello".to_string(),
    };
    let shown = PublicTopicMessage {
        topic_id: Timeuuid(1),
        from_user_id: Timeuuid(2),
        message: "hello".to_string(),
    };
    let reply = store.submit(&app.update_topic_message_statement(&request), false);
    assert_eq!(app.update_topic_message(&request, &reply), Ok(shown.clone()));
    let query = RequestGetMessagesByTopicId { topic_id: Timeuuid(1) };
    let reply = store.submit(&app.find_list_messages_by_topic_id_statement(&query), false);
    assert_eq!(app.find_list_messages_by_topic_id(&query, &reply), Ok(vec![shown]));
    let other = RequestGetMessagesByTopicId { topic_id: Timeuuid(9) };
    let reply = store.submit(&app.find_list_messages_by_topic_id_statement(&other), false);
    assert_eq!(
        app.find_list_messages_by_topic_id(&other, &reply),
        Err(AppError::NotFound(EntityKind::TopicMessage))
    );
}

#[test]
fn an_update_overwrites_the_row_at_the_default_creation_time() {
    let mut store = ready_store();
    let app = TopicMessageApp::new(Arc::new(TopicMessageRepo::new()));
    for text in ["first", "second"] {
        let request = RequestUpdateTopicMessage {
            topic_id: Timeuuid(1),
            from_user_id: Timeuuid(2),
            message: text.to_string(),
        };
        let reply = store.submit(&app.update_topic_message_statement(&request), false);
        assert!(app.update_topic_message(&request, &reply).is_ok());
    }
    let query = RequestGetMessagesByTopicId { topic_id: Timeuuid(1) };
    let reply = store.submit(&app.find_list_messages_by_topic_id_statement(&query), false);
    let found = app.find_list_messages_by_topic_id(&query, &reply).unwrap();
    assert_eq!(found.len(), 1);
    assert_eq!(found[0].message, "second");
}

#[test]
fn latest_messages_are_written_and_listed() {
    let mut store = ready_store();
    let app = LatestMessageApp::new(Arc::new(LatestMessageRepo::new()));
    let request = RequestUpdateLatestMessage {
        latest_message_id: Timeuuid(1),
        latest_message_content: "hello".to_string(),
        topic_id: Timeuuid(2),
        user_id: Timeuuid(3),
    };
    let shown = PublicLatestMessage {
        latest_message_id: Timeuuid(1),
        latest_message_content: "hello".to_string(),
        topic_id: Timeuuid(2),
        user_id: Timeuuid(3),
    };
    let reply = store.submit(&app.update_latest_message_statement(&request), false);
    assert_eq!(app.update_latest_message(&request, &reply), Ok(shown.clone()));
    let query = RequestGetLatestMessagesByUserId { user_id: Timeuuid(3) };
    let reply = store.submit(&app.find_list_latest_messages_by_user_id_statement(&query), false);
    assert_eq!(app.find_list_latest_messages_by_user_id(&query, &reply), Ok(vec![shown]));
    assert_eq!(
        app.update_latest_message(&request, &StoreReply::Failed),
        Err(AppError::InternalServerError)
    );
}

#[test]
fn notifications_are_written_and_listed() {
    let mut store = ready_store();
    let app = NotificationApp::new(Arc::new(NotificationRepo::new()));
    let request = RequestUpdateNotification {
        topic_id: Timeuuid(1),
        username: "ann".to_string(),
        from_user: "bob".to_string(),
        message: "ping".to_string(),
    };
    let shown = PublicNotification {
        username: "ann".to_string(),
        from_user: "bob".to_string(),
        message: "ping".to_string(),
        created_at: Timestamp(0),
    };
    let reply = store.submit(&app.update_notification_statement(&request), false);
    assert_eq!(app.update_notification(&request, &reply), Ok(shown.clone()));
    let query = RequestGetNotificationByUsername { username: "ann".to_string() };
    let reply = store.submit(&app.find_list_notification_by_username_statement(&query), false);
    assert_eq!(app.find_list_notification_by_username(&query, &reply), Ok(vec![shown]));
    let nobody = RequestGetNotificationByUsername { username: "an".to_string() };
    let reply = store.submit(&app.find_list_notification_by_username_statement(&nobody), false);
    assert_eq!(
        app.find_list_notification_by_username(&nobody, &reply),
        Err(AppError::NotFound(EntityKind::Notification))
    );
}

#[test]
fn topic_users_are_written_and_listed() {
    let mut store = ready_store();
    let app = TopicUserApp::new(Arc::new(TopicUserRepo::new()));
    let request =
        RequestUpdateTopicUser { topic_id: Timeuuid(1), username: "ann".to_string(), user_id: Timeuuid(2) };
    let shown =
        PublicTopicUser { topic_id: Timeuuid(1), user_id: Timeuuid(2), username: "ann".to_string() };
    let reply = store.submit(&app.update_topic_user_statement(&request), false);
    assert_eq!(app.update_topic_user(&request, &reply), Ok(shown.clone()));
    let query = RequestGetUsersByTopicId { topic_id: Timeuuid(1) };
    let reply = store.submit(&app.find_list_users_by_topic_id_statement(&query), false);
    assert_eq!(app.find_list_users_by_topic_id(&query, &reply), Ok(vec![shown]));
}

#[test]
fn user_topic_lookups_address_the_partition_they_name() {
    let mut store = ready_store();
    let app = UserTopicApp::new(Arc::new(UserTopicRepo::new()));
    let query = RequestGetTopicsByUsername { topic_id: Timeuuid(1), username: "ann".to_string() };
    assert_eq!(
        app.find_list_topics_by_username_statement(&query),
        Action::Single(Statement::SelectPartition {
            kind: EntityKind::UserTopic,
            key: message::store::value::Row {
                values: vec![message::store::value::CqlValue::Timeuuid(Timeuuid(1))]
            },
        })
    );
    // nothing is there yet
    let reply = store.submit(&app.find_list_topics_by_username_statement(&query), false);
    assert_eq!(
        app.find_list_topics_by_username(&query, &reply),
        Err(AppError::NotFound(EntityKind::UserTopic))
    );
    // a row under the topic named, one under another topic, one under the nil topic
    for (topic, name) in [(1, "ann"), (2, "bob"), (0, "cy")] {
        let request = RequestUpdateUserTopic { topic_id: Timeuuid(topic), username: name.to_string() };
        let reply = store.submit(&app.update_user_topic_statement(&request), false);
        assert_eq!(
            app.update_user_topic(&request, &reply),
            Ok(PublicUserTopic {
                topic_id: Timeuuid(topic),
                username: name.to_string(),
                created_at: Timestamp(0)
            })
        );
    }
    let reply = store.submit(&app.find_list_topics_by_username_statement(&query), false);
    assert_eq!(
        app.find_list_topics_by_username(&query, &reply),
        Ok(vec![PublicUserTopic {
            topic_id: Timeuuid(1),
            username: "ann".to_string(),
            created_at: Timestamp(0)
        }])
    );
    let other = RequestGetTopicsByUsername { topic_id: Timeuuid(2), username: "ann".to_string() };
    let reply = store.submit(&app.find_list_topics_by_username_statement(&other), false);
    let found = app.find_list_topics_by_username(&other, &reply).unwrap();
    assert_eq!(found.len(), 1);
    assert_eq!(found[0].topic_id, Timeuuid(2));
    assert_eq!(found[0].username, "bob");
}

#[test]
fn user_topics_of_another_partition_make_the_answer_malformed() {
    let app = UserTopicApp::new(Arc::new(UserTopicRepo::new()));
    let query = RequestGetTopicsByUsername { topic_id: Timeuuid(1), username: "ann".to_string() };
    let foreign = message::domain::user_topic::entity::UserTopic {
        topic_id: Timeuuid(2),
        username: "ann".to_string(),
        created_at: Timestamp(3),
    };
    let reply = StoreReply::Rows(vec![foreign.to_row()]);
    assert_eq!(app.find_list_topics_by_username(&query, &reply), Err(AppError::InternalServerError));
}

#[test]
fn the_answer_to_a_creation_names_the_stored_row() {
    let mut store = ready_store();
    let handler = TopicHandler { topic_app: Arc::new(TopicApp::new(Arc::new(TopicRepo::new()))) };
    let request = RequestCreateTopic {
        topic_name: "infra".to_string(),
        topic_description: None,
        topic_owners: vec![],
        topic_admins: vec![],
    };
    let (topic, action) = on_create_new_topic_statement(&handler, request).unwrap();
    let reply = store.submit(&action, false);
    let shown = on_create_new_topic(&handler, &topic, &reply).unwrap();
    assert_eq!((shown.topic_id.0 >> 76) & 0xf, 1);
    assert!(shown.created_at.0 > 0);
    assert_eq!(shown.topic_name, "infra");
    assert!(shown.topic_owners.is_empty());
    assert!(shown.topic_admins.is_empty());

    // the identifier and the creation time shown address the row again
    let by_key =
        RequestGetTopicByPrimaryKey { topic_id: shown.topic_id, created_at: shown.created_at };
    let reply = store.submit(&handler.topic_app.find_topic_by_primary_key_statement(&by_key), false);
    assert_eq!(handler.topic_app.find_topic_by_primary_key(&by_key, &reply), Ok(shown.clone()));
    let by_partition = RequestGetTopicByPartitionKey { topic_id: shown.topic_id };
    let reply =
        store.submit(&handler.topic_app.find_topic_by_partition_key_statement(&by_partition), false);
    assert_eq!(
        handler.topic_app.find_topic_by_partition_key(&by_partition, &reply),
        Ok(vec![shown])
    );
}
