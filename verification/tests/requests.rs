use message::application::latest_message::request::{
    RequestGetLatestMessagesByUserId, RequestUpdateLatestMessage,
};
use message::application::notification::request::RequestUpdateNotification;
use message::application::topic::request::{
    RequestCreateTopic, RequestFindTopicError, RequestGetTopicByPartitionKey, RequestUpdateTopic,
};
use message::common::result::AppError;
use message::common::types::{Timestamp, Timeuuid};
use message::common::validation::require_min_length;
use message::store::schema::EntityKind;

fn create_request(description: Option<&str>) -> RequestCreateTopic {
    RequestCreateTopic {
        topic_name: "infra".to_string(),
        topic_description: description.map(|d| d.to_string()),
        topic_owners: vec!["ann".to_string()],
        topic_admins: vec![],
    }
}

#[test]
fn a_request_without_description_passes() {
    let request = create_request(None);
    assert_eq!(request.clone().try_into_domain(), Ok(request));
}

#[test]
fn a_description_of_three_characters_passes() {
    let request = create_request(Some("abc"));
    assert_eq!(request.clone().try_into_domain(), Ok(request));
    let longer = create_request(Some("the machines"));
    assert_eq!(longer.clone().try_into_domain(), Ok(longer));
}

#[test]
fn a_description_of_two_characters_is_a_bad_request() {
    match create_request(Some("ab")).try_into_domain() {
        Err(AppError::BadRequest { msg }) => {
            assert!(msg.contains("topic_description"));
            assert!(msg.contains("length"));
        }
        other => panic!("expected a bad request, got {:?}", other),
    }
    assert!(matches!(
        create_request(Some("")).try_into_domain(),
        Err(AppError::BadRequest { .. })
    ));
}

#[test]
fn length_is_counted_in_characters() {
    // three characters, six bytes
    let request = create_request(Some("äöü"));
    assert_eq!(request.clone().try_into_domain(), Ok(request));
    // two characters, eight bytes
    assert!(matches!(
        create_request(Some("😀😀")).try_into_domain(),
        Err(AppError::BadRequest { .. })
    ));
}

#[test]
fn require_min_length_decides_by_the_minimum() {
    assert_eq!(require_min_length("field", "abc", 3), Ok(()));
    assert_eq!(require_min_length("field", "", 0), Ok(()));
    assert!(matches!(require_min_length("field", "ab", 3), Err(AppError::BadRequest { .. })));
    assert!(matches!(require_min_length("field", "abc", 4), Err(AppError::BadRequest { .. })));
}

#[test]
fn latest_message_content_needs_three_characters() {
    let request = RequestUpdateLatestMessage {
        latest_message_id: Timeuuid(1),
        latest_message_content: "hey".to_string(),
        topic_id: Timeuuid(2),
        user_id: Timeuuid(3),
    };
    assert_eq!(request.clone().try_into_domain(), Ok(request.clone()));
    let short = RequestUpdateLatestMessage { latest_message_content: "yo".to_string(), ..request };
    match short.try_into_domain() {
        Err(AppError::BadRequest { msg }) => assert!(msg.contains("latest_message_content")),
        other => panic!("expected a bad request, got {:?}", other),
    }
}

#[test]
fn requests_without_rules_always_pass() {
    let by_key = RequestGetTopicByPartitionKey { topic_id: Timeuuid(0) };
    assert_eq!(by_key.clone().try_into_domain(), Ok(by_key));
    let by_user = RequestGetLatestMessagesByUserId { user_id: Timeuuid(7) };
    assert_eq!(by_user.clone().try_into_domain(), Ok(by_user));
    let notification = RequestUpdateNotification {
        topic_id: Timeuuid(1),
        username: "".to_string(),
        from_user: "".to_string(),
        message: "".to_string(),
    };
    assert_eq!(notification.clone().try_into_domain(), Ok(notification));
    let patch = RequestUpdateTopic {
        topic_id: Timeuuid(1),
        created_at: Timestamp(2),
        topic_name: None,
        topic_description: Some("x".to_string()),
        push_to_owners: None,
        pop_to_owners: None,
        push_to_admins: None,
        pop_to_admins: None,
    };
    assert_eq!(patch.clone().try_into_domain(), Ok(patch));
}

#[test]
fn not_found_errors_name_their_entity() {
    assert_eq!(
        RequestFindTopicError::TopicNotFound.into_app_error(),
        AppError::NotFound(EntityKind::Topic)
    );
    assert_eq!(RequestFindTopicError::TopicNotFound.message(), "Topic not found");
    let e = message::application::latest_message::request::RequestFindLatestMessageError::LatestMessageNotFound;
    assert_eq!(e.into_app_error(), AppError::NotFound(EntityKind::LatestMessage));
    assert_eq!(e.message(), "LatestMessage not found");
    let e = message::application::notification::request::RequestFindLatestMessageError::LatestMessageNotFound;
    assert_eq!(e.into_app_error(), AppError::NotFound(EntityKind::Notification));
    let e = message::application::topic_message::request::RequestFindLatestMessageError::LatestMessageNotFound;
    assert_eq!(e.into_app_error(), AppError::NotFound(EntityKind::TopicMessage));
    let e = message::application::topic_user::request::RequestFindLatestMessageError::LatestMessageNotFound;
    assert_eq!(e.into_app_error(), AppError::NotFound(EntityKind::TopicUser));
    let e = message::application::user_topic::request::RequestFindLatestMessageError::LatestMessageNotFound;
    assert_eq!(e.into_app_error(), AppError::NotFound(EntityKind::UserTopic));
    assert_eq!(e.message(), "LatestMessage not found");
}
