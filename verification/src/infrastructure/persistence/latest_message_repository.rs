//! The latest message repository.

use crate::application::latest_message::request::{
    RequestGetLatestMessagesByUserId, RequestUpdateLatestMessage,
};
use crate::common::result::AppResult;
use crate::domain::latest_message::entity::LatestMessage;
use crate::domain::latest_message::repository::{latest_message_partition, LatestMessageRepository};
use crate::infrastructure::persistence::migration::{migrate_table, table_migration};
use crate::infrastructure::persistence::repository::Repository;
use crate::store::entity::Entity;
use crate::store::schema::EntityKind;
use crate::store::statement::{statements, Action, Statement, StoreReply};
use crate::store::value::{starts_with, CqlValue, Row};
use vstd::prelude::*;

verus! {

fn partition_row(query: &RequestGetLatestMessagesByUserId) -> (key: Row)
    ensures
        key@ == latest_message_partition(query),
{
    let mut values: Vec<CqlValue> = Vec::new();
    values.push(CqlValue::Timeuuid(query.user_id));
    let key = Row { values };
    assert(key@ =~= latest_message_partition(query));
    key
}

/// The repository of latest messages.
pub struct LatestMessageRepo {
    repository: Repository<LatestMessage>,
}

impl LatestMessageRepo {
    pub fn new() -> (repo: Self) {
        LatestMessageRepo { repository: Repository::new() }
    }

    /// The statements that prepare the store for latest messages. Each is
    /// safe to run again.
    pub fn migrate_latest_message_table(&self) -> (plan: Vec<Statement>)
        ensures
            statements(plan@) == table_migration(EntityKind::LatestMessage),
    {
        migrate_table(EntityKind::LatestMessage)
    }
}

impl LatestMessageRepository for LatestMessageRepo {
    fn find_latest_message_by_partition_key_statement(
        &self,
        query: &RequestGetLatestMessagesByUserId,
    ) -> (action: Action) {
        self.repository.find_by_partition_key_statement(partition_row(query))
    }

    fn find_latest_message_by_partition_key(
        &self,
        query: &RequestGetLatestMessagesByUserId,
        reply: &StoreReply,
    ) -> (r: AppResult<Vec<LatestMessage>>) {
        let key = partition_row(query);
        let r = self.repository.find_by_partition_key(&key, reply);
        proof {
            if let Ok(found) = &r {
                assert forall|i: int| 0 <= i < found.len() implies
                    (#[trigger] found[i]).user_id == query.user_id by {
                    assert(starts_with(found[i].row(), key@));
                    assert(found[i].row().take(1)[0] == found[i].row()[0]);
                }
            }
        }
        r
    }

    fn update_latest_message_statement(
        &self,
        latest_message: &RequestUpdateLatestMessage,
    ) -> (action: Action) {
        self.repository.update_statement(&LatestMessage::from_update(latest_message))
    }

    fn update_latest_message(
        &self,
        latest_message: &RequestUpdateLatestMessage,
        reply: &StoreReply,
    ) -> (r: AppResult<LatestMessage>) {
        self.repository.update(LatestMessage::from_update(latest_message), reply)
    }
}

} // verus!
