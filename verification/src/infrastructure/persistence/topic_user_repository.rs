//! The topic user repository.

use crate::application::topic_user::request::{RequestGetUsersByTopicId, RequestUpdateTopicUser};
use crate::common::result::AppResult;
use crate::domain::topic_user::entity::TopicUser;
use crate::domain::topic_user::repository::{topic_user_partition, TopicUserRepository};
use crate::infrastructure::persistence::migration::{migrate_table, table_migration};
use crate::infrastructure::persistence::repository::Repository;
use crate::store::entity::Entity;
use crate::store::schema::EntityKind;
use crate::store::statement::{statements, Action, Statement, StoreReply};
use crate::store::value::{starts_with, CqlValue, Row};
use vstd::prelude::*;

verus! {

fn partition_row(query: &RequestGetUsersByTopicId) -> (key: Row)
    ensures
        key@ == topic_user_partition(query),
{
    let mut values: Vec<CqlValue> = Vec::new();
    values.push(CqlValue::Timeuuid(query.topic_id));
    let key = Row { values };
    assert(key@ =~= topic_user_partition(query));
    key
}

/// The repository of topic users.
pub struct TopicUserRepo {
    repository: Repository<TopicUser>,
}

impl TopicUserRepo {
    pub fn new() -> (repo: Self) {
        TopicUserRepo { repository: Repository::new() }
    }

    /// The statements that prepare the store for topic users. Each is
    /// safe to run again.
    pub fn migrate_topic_user_table(&self) -> (plan: Vec<Statement>)
        ensures
            statements(plan@) == table_migration(EntityKind::TopicUser),
    {
        migrate_table(EntityKind::TopicUser)
    }
}

impl TopicUserRepository for TopicUserRepo {
    fn find_topic_users_by_partition_key_statement(
        &self,
        query: &RequestGetUsersByTopicId,
    ) -> (action: Action) {
        self.repository.find_by_partition_key_statement(partition_row(query))
    }

    fn find_topic_users_by_partition_key(
        &self,
        query: &RequestGetUsersByTopicId,
        reply: &StoreReply,
    ) -> (r: AppResult<Vec<TopicUser>>) {
        let key = partition_row(query);
        let r = self.repository.find_by_partition_key(&key, reply);
        proof {
            if let Ok(found) = &r {
                assert forall|i: int| 0 <= i < found.len() implies
                    (#[trigger] found[i]).topic_id == query.topic_id by {
                    assert(starts_with(found[i].row(), key@));
                    assert(found[i].row().take(1)[0] == found[i].row()[0]);
                }
            }
        }
        r
    }

    fn update_topic_users_statement(
        &self,
        topic_user: &RequestUpdateTopicUser,
    ) -> (action: Action) {
        self.repository.update_statement(&TopicUser::from_update(topic_user))
    }

    fn update_topic_users(
        &self,
        topic_user: &RequestUpdateTopicUser,
        reply: &StoreReply,
    ) -> (r: AppResult<TopicUser>) {
        self.repository.update(TopicUser::from_update(topic_user), reply)
    }
}

} // verus!
