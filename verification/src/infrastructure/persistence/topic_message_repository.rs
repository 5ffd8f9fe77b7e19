//! The topic message repository.

use crate::application::topic_message::request::{
    RequestGetMessagesByTopicId, RequestUpdateTopicMessage,
};
use crate::common::result::AppResult;
use crate::domain::topic_message::entity::TopicMessage;
use crate::domain::topic_message::repository::{topic_message_partition, TopicMessageRepository};
use crate::infrastructure::persistence::migration::{migrate_table, table_migration};
use crate::infrastructure::persistence::repository::Repository;
use crate::store::entity::Entity;
use crate::store::schema::EntityKind;
use crate::store::statement::{statements, Action, Statement, StoreReply};
use crate::store::value::{starts_with, CqlValue, Row};
use vstd::prelude::*;

verus! {

fn partition_row(query: &RequestGetMessagesByTopicId) -> (key: Row)
    ensures
        key@ == topic_message_partition(query),
{
    let mut values: Vec<CqlValue> = Vec::new();
    values.push(CqlValue::Timeuuid(query.topic_id));
    let key = Row { values };
    assert(key@ =~= topic_message_partition(query));
    key
}

/// The repository of topic messages.
pub struct TopicMessageRepo {
    repository: Repository<TopicMessage>,
}

impl TopicMessageRepo {
    pub fn new() -> (repo: Self) {
        TopicMessageRepo { repository: Repository::new() }
    }

    /// The statements that prepare the store for topic messages. Each is
    /// safe to run again.
    pub fn migrate_topic_message_table(&self) -> (plan: Vec<Statement>)
        ensures
            statements(plan@) == table_migration(EntityKind::TopicMessage),
    {
        migrate_table(EntityKind::TopicMessage)
    }
}

impl TopicMessageRepository for TopicMessageRepo {
    fn find_topic_message_by_partition_key_statement(
        &self,
        query: &RequestGetMessagesByTopicId,
    ) -> (action: Action) {
        self.repository.find_by_partition_key_statement(partition_row(query))
    }

    fn find_topic_message_by_partition_key(
        &self,
        query: &RequestGetMessagesByTopicId,
        reply: &StoreReply,
    ) -> (r: AppResult<Vec<TopicMessage>>) {
        let key = partition_row(query);
        let r = self.repository.find_by_partition_key(&key, reply);
        proof {
            if let Ok(found) = &r {
                assert forall|i: int| 0 <= i < found.len() implies
                    (#[trigger] found[i]).topic_id == query.topic_id by {
                    assert(starts_with(found[i].row(), key@));
                    assert(found[i].row().take(1)[0] == found[i].row()[0]);
                }
            }
        }
        r
    }

    fn update_topic_message_statement(
        &self,
        topic_message: &RequestUpdateTopicMessage,
    ) -> (action: Action) {
        self.repository.update_statement(&TopicMessage::from_update(topic_message))
    }

    fn update_topic_message(
        &self,
        topic_message: &RequestUpdateTopicMessage,
        reply: &StoreReply,
    ) -> (r: AppResult<TopicMessage>) {
        self.repository.update(TopicMessage::from_update(topic_message), reply)
    }
}

} // verus!
