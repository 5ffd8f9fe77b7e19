//! The topic repository.

use crate::application::topic::request::{
    RequestGetTopicByIndexKey, RequestGetTopicByPartitionKey, RequestGetTopicByPrimaryKey,
    RequestUpdateTopic,
};
use crate::common::result::AppResult;
use crate::common::types::{texts, Timestamp, Timeuuid};
use crate::domain::topic::entity::{Topic, TOPIC_ADMINS, TOPIC_NAME, TOPIC_OWNERS};
use crate::domain::topic::repository::{
    lemma_update_plan_wf, list_mutations, mutation, topic_key, topic_partition, update_plan,
    TopicRepository,
};
use crate::infrastructure::persistence::batch::{lemma_one_partition, BatchMutator};
use crate::infrastructure::persistence::guarantees::{
    lemma_batch_leaves_rest, lemma_push_and_pop_together, lemma_push_then_pop, names_column,
};
use crate::infrastructure::persistence::migration::{migrate_table, table_migration};
use crate::infrastructure::persistence::repository::{lemma_keeps_prefix, Repository};
use crate::store::entity::{canonical_rows, entity_rows, Entity};
use crate::store::model::{list_at, mutated_column, without, StoreState};
use crate::store::schema::{layout, EntityKind};
use crate::store::statement::{
    statements, Action, ReplyView, Statement, StatementView, StoreReply,
};
use crate::store::value::{starts_with, CqlValue, Row};
use vstd::prelude::*;

verus! {

/// The repository of topics.
pub struct TopicRepo {
    repository: Repository<Topic>,
}

fn partition_row(topic_id: Timeuuid) -> (key: Row)
    ensures
        key@ == topic_partition(topic_id.0),
{
    let mut values: Vec<CqlValue> = Vec::new();
    values.push(CqlValue::Timeuuid(topic_id));
    let key = Row { values };
    assert(key@ =~= topic_partition(topic_id.0));
    key
}

fn key_row(topic_id: Timeuuid, created_at: Timestamp) -> (key: Row)
    ensures
        key@ == topic_key(topic_id.0, created_at.0),
{
    let mut values: Vec<CqlValue> = Vec::new();
    values.push(CqlValue::Timeuuid(topic_id));
    values.push(CqlValue::Timestamp(created_at));
    let key = Row { values };
    assert(key@ =~= topic_key(topic_id.0, created_at.0));
    key
}

impl TopicRepo {
    pub fn new() -> (repo: Self) {
        TopicRepo { repository: Repository::new() }
    }

    /// The statements that prepare the store for topics: the table, then
    /// the index on the topic name. Each is safe to run again.
    pub fn migrate_topic_table(&self) -> (plan: Vec<Statement>)
        ensures
            statements(plan@) == table_migration(EntityKind::Topic),
    {
        migrate_table(EntityKind::Topic)
    }
}

impl TopicRepository for TopicRepo {
    fn create_topic_statement(&self, topic: Topic) -> (prepared: (Topic, Action)) {
        let ready = topic.complete();
        let action = self.repository.insert_statement(&ready);
        (ready, action)
    }

    fn create_topic<'c>(&self, topic: &'c Topic, reply: &StoreReply) -> (r: AppResult<
        &'c Topic,
    >) {
        self.repository.insert(topic, reply)
    }

    fn find_topic_by_partition_key_statement(
        &self,
        query: &RequestGetTopicByPartitionKey,
    ) -> (action: Action) {
        self.repository.find_by_partition_key_statement(partition_row(query.topic_id))
    }

    fn find_topic_by_partition_key(
        &self,
        query: &RequestGetTopicByPartitionKey,
        reply: &StoreReply,
    ) -> (r: AppResult<Vec<Topic>>) {
        let key = partition_row(query.topic_id);
        let r = self.repository.find_by_partition_key(&key, reply);
        proof {
            if let Ok(topics) = &r {
                assert forall|i: int| 0 <= i < topics.len() implies (#[trigger] topics[i]).topic_id
                    == query.topic_id by {
                    assert(starts_with(topics[i].row(), key@));
                    assert(topics[i].row().take(1)[0] == topics[i].row()[0]);
                }
            }
        }
        r
    }

    fn find_topic_by_primary_key_statement(
        &self,
        query: &RequestGetTopicByPrimaryKey,
    ) -> (action: Action) {
        self.repository.find_by_primary_key_statement(key_row(query.topic_id, query.created_at))
    }

    fn find_topic_by_primary_key(
        &self,
        query: &RequestGetTopicByPrimaryKey,
        reply: &StoreReply,
    ) -> (r: AppResult<Topic>) {
        let key = key_row(query.topic_id, query.created_at);
        let r = self.repository.find_by_primary_key(&key, reply);
        proof {
            if let Ok(topic) = &r {
                let list = reply@->Rows_0;
                Topic::lemma_canonical(list[0]);
                lemma_keeps_prefix(topic.row(), list[0], key@, 2);
                assert(topic.row().take(2)[0] == topic.row()[0]);
                assert(topic.row().take(2)[1] == topic.row()[1]);
            }
        }
        r
    }

    fn find_topic_by_index_key_statement(&self, query: &RequestGetTopicByIndexKey) -> (action:
        Action) {
        assert(layout(EntityKind::Topic).indexes[0] == 2);
        self.repository.find_by_secondary_index_statement(
            TOPIC_NAME,
            CqlValue::Text(query.topic_name.clone()),
        )
    }

    fn find_topic_by_index_key(
        &self,
        query: &RequestGetTopicByIndexKey,
        reply: &StoreReply,
    ) -> (r: AppResult<Vec<Topic>>) {
        let value = CqlValue::Text(query.topic_name.clone());
        let r = self.repository.find_by_secondary_index(TOPIC_NAME, &value, reply);
        proof {
            if let Ok(topics) = &r {
                let list = reply@->Rows_0;
                assert(entity_rows(topics@).len() == topics.len());
                assert(canonical_rows::<Topic>(list).len() == list.len());
                assert forall|i: int| 0 <= i < topics.len() implies (
                #[trigger] topics[i]).topic_name@ == query.topic_name@ by {
                    assert(entity_rows(topics@)[i] == topics[i].row());
                    assert(canonical_rows::<Topic>(list)[i] == Topic::canonical(list[i]));
                    Topic::lemma_canonical(list[i]);
                    assert(list[i][2] == value@);
                }
            }
        }
        r
    }

    fn update_topic_statement(&self, topic: &RequestUpdateTopic) -> (action: Action) {
        let mutates = topic.push_to_owners.is_some() || topic.pop_to_owners.is_some()
            || topic.push_to_admins.is_some() || topic.pop_to_admins.is_some();
        if mutates {
            let ghost key = topic_key(topic.topic_id.0, topic.created_at.0);
            let mut batch = BatchMutator::new(
                EntityKind::Topic,
                key_row(topic.topic_id, topic.created_at),
            );
            match &topic.push_to_owners {
                Some(values) => batch.push(TOPIC_OWNERS, values),
                None => (),
            }
            assert(batch.pending() =~= mutation(
                true,
                key,
                TOPIC_OWNERS as int,
                topic.push_to_owners,
            ));
            let ghost first = batch.pending();
            match &topic.pop_to_owners {
                Some(values) => batch.pop(TOPIC_OWNERS, values),
                None => (),
            }
            assert(batch.pending() =~= first + mutation(
                false,
                key,
                TOPIC_OWNERS as int,
                topic.pop_to_owners,
            ));
            let ghost second = batch.pending();
            match &topic.push_to_admins {
                Some(values) => batch.push(TOPIC_ADMINS, values),
                None => (),
            }
            assert(batch.pending() =~= second + mutation(
                true,
                key,
                TOPIC_ADMINS as int,
                topic.push_to_admins,
            ));
            let ghost third = batch.pending();
            match &topic.pop_to_admins {
                Some(values) => batch.pop(TOPIC_ADMINS, values),
                None => (),
            }
            assert(batch.pending() =~= third + mutation(
                false,
                key,
                TOPIC_ADMINS as int,
                topic.pop_to_admins,
            ));
            let action = batch.into_action();
            proof {
                lemma_update_plan_wf(topic);
            }
            action
        } else {
            self.repository.update_statement(&Topic::from_patch(topic))
        }
    }

    fn update_topic(&self, topic: &RequestUpdateTopic, reply: &StoreReply) -> (r: AppResult<
        Topic,
    >) {
        self.repository.update(Topic::from_patch(topic), reply)
    }
}


/// A change that asks for an append to and a removal from the
/// administrators of a topic, and for nothing else, never leaves exactly one
/// of the two behind: whether or not the store fails, a read afterwards sees
/// the list with both applied, or the list as it was.
pub proof fn lemma_update_applies_both_or_neither(
    state: StoreState,
    patch: &RequestUpdateTopic,
    fault: bool,
)
    requires
        state.wf(),
        patch.push_to_owners is None,
        patch.pop_to_owners is None,
        patch.push_to_admins is Some,
        patch.pop_to_admins is Some,
    ensures
        ({
            let key = topic_key(patch.topic_id.0, patch.created_at.0);
            let pushed = texts(patch.push_to_admins->0@);
            let popped = texts(patch.pop_to_admins->0@);
            let held = state.table(EntityKind::Topic).rows;
            let before = list_at(held, key, TOPIC_ADMINS as int);
            let (after, reply) = state.step(update_plan(patch), fault);
            let seen = list_at(after.table(EntityKind::Topic).rows, key, TOPIC_ADMINS as int);
            ||| reply == ReplyView::Applied && seen == without(before + pushed, popped)
            ||| reply == ReplyView::Failed && seen == before
        }),
{
    let key = topic_key(patch.topic_id.0, patch.created_at.0);
    let pushed = texts(patch.push_to_admins->0@);
    let popped = texts(patch.pop_to_admins->0@);
    assert(list_mutations(patch) =~= seq![
        StatementView::ListAppend {
            kind: EntityKind::Topic,
            key,
            column: TOPIC_ADMINS as int,
            values: pushed,
        },
        StatementView::ListRemove {
            kind: EntityKind::Topic,
            key,
            column: TOPIC_ADMINS as int,
            values: popped,
        },
    ]);
    lemma_push_and_pop_together(
        state,
        EntityKind::Topic,
        key,
        TOPIC_ADMINS as int,
        pushed,
        popped,
        fault,
    );
}

/// Two changes to the administrators of a topic, the first appending a name
/// the list does not hold and the second removing it, leave the list as it
/// was, provided the store applies both.
pub proof fn lemma_update_push_then_pop(
    state: StoreState,
    push: &RequestUpdateTopic,
    pop: &RequestUpdateTopic,
    name: Seq<char>,
)
    requires
        state.wf(),
        state.table(EntityKind::Topic).created,
        push.topic_id == pop.topic_id,
        push.created_at == pop.created_at,
        push.push_to_owners is None && push.pop_to_owners is None && push.pop_to_admins is None,
        pop.push_to_owners is None && pop.pop_to_owners is None && pop.push_to_admins is None,
        push.push_to_admins matches Some(values) && texts(values@) == seq![name],
        pop.pop_to_admins matches Some(values) && texts(values@) == seq![name],
        !list_at(
            state.table(EntityKind::Topic).rows,
            topic_key(push.topic_id.0, push.created_at.0),
            TOPIC_ADMINS as int,
        ).contains(name),
    ensures
        ({
            let key = topic_key(push.topic_id.0, push.created_at.0);
            let (pushed, first) = state.step(update_plan(push), false);
            let (popped, second) = pushed.step(update_plan(pop), false);
            &&& first is Applied
            &&& second is Applied
            &&& list_at(popped.table(EntityKind::Topic).rows, key, TOPIC_ADMINS as int) == list_at(
                state.table(EntityKind::Topic).rows,
                key,
                TOPIC_ADMINS as int,
            )
        }),
{
    let key = topic_key(push.topic_id.0, push.created_at.0);
    assert(list_mutations(push) =~= seq![
        StatementView::ListAppend {
            kind: EntityKind::Topic,
            key,
            column: TOPIC_ADMINS as int,
            values: seq![name],
        },
    ]);
    assert(list_mutations(pop) =~= seq![
        StatementView::ListRemove {
            kind: EntityKind::Topic,
            key,
            column: TOPIC_ADMINS as int,
            values: seq![name],
        },
    ]);
    lemma_update_plan_wf(push);
    lemma_push_then_pop(state, EntityKind::Topic, key, TOPIC_ADMINS as int, name);
}

/// A change that asks for list mutations, once the store has applied it,
/// has touched the owners and the administrators of the topic it names and
/// nothing else: every other topic, every other table, and the name, the
/// description and the timestamps of that topic are as they were.
pub proof fn lemma_update_touches_lists_only(state: StoreState, patch: &RequestUpdateTopic)
    requires
        state.wf(),
        patch.mutates_lists(),
        state.table(EntityKind::Topic).created,
    ensures
        ({
            let key = topic_key(patch.topic_id.0, patch.created_at.0);
            let before = state.table(EntityKind::Topic);
            let (stored, reply) = state.step(update_plan(patch), false);
            let after = stored.table(EntityKind::Topic);
            &&& reply is Applied
            &&& forall|other: EntityKind|
                other != EntityKind::Topic ==> #[trigger] stored.table(other) == state.table(other)
            &&& after.rows.len() >= before.rows.len()
            &&& forall|i: int|
                0 <= i < before.rows.len() && !starts_with(#[trigger] before.rows[i], key)
                    ==> after.rows[i] == before.rows[i]
            &&& forall|i: int, c: int|
                0 <= i < before.rows.len() && 0 <= c < before.rows[i].len() && c != TOPIC_OWNERS
                    && c != TOPIC_ADMINS ==> #[trigger] after.rows[i][c] == before.rows[i][c]
        }),
{
    let key = topic_key(patch.topic_id.0, patch.created_at.0);
    let batch = list_mutations(patch);
    lemma_update_plan_wf(patch);
    lemma_one_partition(batch, EntityKind::Topic, key);
    assert(state.accepts_all(batch));
    lemma_batch_leaves_rest(state, batch, EntityKind::Topic, key);
    assert forall|c: int| names_column(batch, c) implies c == TOPIC_OWNERS || c == TOPIC_ADMINS by {
        let k = choose|k: int| 0 <= k < batch.len() && mutated_column(#[trigger] batch[k]) == c;
        let owners_push = mutation(true, key, TOPIC_OWNERS as int, patch.push_to_owners);
        let owners_pop = mutation(false, key, TOPIC_OWNERS as int, patch.pop_to_owners);
        let admins_push = mutation(true, key, TOPIC_ADMINS as int, patch.push_to_admins);
        let admins_pop = mutation(false, key, TOPIC_ADMINS as int, patch.pop_to_admins);
        assert(batch == owners_push + owners_pop + admins_push + admins_pop);
    }
}

} // verus!
