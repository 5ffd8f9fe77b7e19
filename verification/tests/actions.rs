use message::common::result::AppError;
use message::interfaces::actions::MessageModuleServices;
use message::interfaces::reply::MessageReply;
use message::store::schema::EntityKind;

#[test]
fn action_maps_each_command_name() {
    assert_eq!(MessageModuleServices::action("CREATE_USER"), Some(MessageModuleServices::CreateTopic));
    assert_eq!(MessageModuleServices::action("GET_USER"), Some(MessageModuleServices::GetTopic));
    assert_eq!(MessageModuleServices::action("GET_USERS"), Some(MessageModuleServices::GetTopics));
    assert_eq!(MessageModuleServices::action("UPDATE_USER"), Some(MessageModuleServices::UpdateTopic));
}

#[test]
fn action_turns_unknown_names_away() {
    assert_eq!(MessageModuleServices::action(""), None);
    assert_eq!(MessageModuleServices::action("create_user"), None);
    assert_eq!(MessageModuleServices::action("CREATE_USER "), None);
    assert_eq!(MessageModuleServices::action("CREATE_TOPIC"), None);
    assert_eq!(MessageModuleServices::action("GET_USERSS"), None);
}

#[test]
fn reply_for_an_unknown_command() {
    let reply = MessageReply::unknown_command();
    assert_eq!(reply.id, "Internal Server Error");
    assert_eq!(reply.message, "Please try again!");
}

#[test]
fn reply_carries_the_result_under_ok() {
    let reply = MessageReply::of(Ok("{\"topic_name\":\"infra\"}".to_string()));
    assert_eq!(reply.id, "OK");
    assert_eq!(reply.message, "{\"topic_name\":\"infra\"}");
}

#[test]
fn reply_carries_the_error_text_under_error() {
    let reply = MessageReply::of(Err(AppError::NotFound(EntityKind::Topic)));
    assert_eq!(reply.id, "ERROR");
    assert_eq!(reply.message, "Topic not found");

    let reply = MessageReply::of(Err(AppError::BadRequest { msg: "too short".to_string() }));
    assert_eq!(reply.id, "ERROR");
    assert_eq!(reply.message, "too short");
}

#[test]
fn error_texts() {
    assert_eq!(AppError::NotFound(EntityKind::Topic).message(), "Topic not found");
    assert_eq!(AppError::NotFound(EntityKind::TopicMessage).message(), "LatestMessage not found");
    assert_eq!(AppError::NotFound(EntityKind::LatestMessage).message(), "LatestMessage not found");
    assert_eq!(AppError::NotFound(EntityKind::UserTopic).message(), "LatestMessage not found");
    assert_eq!(AppError::InternalServerError.message(), "Internal Server Error");
    assert_eq!(AppError::MigrationFailed.message(), "Migration failed");
    assert_eq!(AppError::BadRequest { msg: "why".to_string() }.message(), "why");
}
