//! The user topic repository.

use crate::application::user_topic::request::{RequestGetTopicsByUsername, RequestUpdateUserTopic};
use crate::common::result::AppResult;
use crate::domain::user_topic::entity::UserTopic;
use crate::domain::user_topic::repository::{user_topic_partition, UserTopicRepository};
use crate::infrastructure::persistence::migration::{migrate_table, table_migration};
use crate::infrastructure::persistence::repository::Repository;
use crate::store::entity::Entity;
use crate::store::schema::EntityKind;
use crate::store::statement::{statements, Action, Statement, StoreReply};
use crate::store::value::{starts_with, CqlValue, Row};
use vstd::prelude::*;

verus! {

fn partition_row(query: &RequestGetTopicsByUsername) -> (key: Row)
    ensures
        key@ == user_topic_partition(query),
{
    let mut values: Vec<CqlValue> = Vec::new();
    values.push(CqlValue::Timeuuid(query.topic_id));
    let key = Row { values };
    assert(key@ =~= user_topic_partition(query));
    key
}

/// The repository of user topics.
pub struct UserTopicRepo {
    repository: Repository<UserTopic>,
}

impl UserTopicRepo {
    pub fn new() -> (repo: Self) {
        UserTopicRepo { repository: Repository::new() }
    }

    /// The statements that prepare the store for user topics. Each is
    /// safe to run again.
    pub fn migrate_user_topic_table(&self) -> (plan: Vec<Statement>)
        ensures
            statements(plan@) == table_migration(EntityKind::UserTopic),
    {
        migrate_table(EntityKind::UserTopic)
    }
}

impl UserTopicRepository for UserTopicRepo {
    fn find_user_topics_by_partition_key_statement(
        &self,
        query: &RequestGetTopicsByUsername,
    ) -> (action: Action) {
        self.repository.find_by_partition_key_statement(partition_row(query))
    }

    fn find_user_topics_by_partition_key(
        &self,
        query: &RequestGetTopicsByUsername,
        reply: &StoreReply,
    ) -> (r: AppResult<Vec<UserTopic>>) {
        let key = partition_row(query);
        let r = self.repository.find_by_partition_key(&key, reply);
        proof {
            if let Ok(found) = &r {
                assert forall|i: int| 0 <= i < found.len() implies
                    (#[trigger] found[i]).topic_id == query.topic_id by {
                    assert(starts_with(found[i].row(), key@));
                    assert(found[i].row().take(1)[0] == found[i].row()[0]);
                }
            }
        }
        r
    }

    fn update_user_topics_statement(
        &self,
        user_topic: &RequestUpdateUserTopic,
    ) -> (action: Action) {
        self.repository.update_statement(&UserTopic::from_update(user_topic))
    }

    fn update_user_topics(
        &self,
        user_topic: &RequestUpdateUserTopic,
        reply: &StoreReply,
    ) -> (r: AppResult<UserTopic>) {
        self.repository.update(UserTopic::from_update(user_topic), reply)
    }
}

} // verus!
