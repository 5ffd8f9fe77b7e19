//! What a repository of topics does.

use crate::application::topic::request::{
    RequestGetTopicByIndexKey, RequestGetTopicByPartitionKey, RequestGetTopicByPrimaryKey,
    RequestUpdateTopic,
};
use crate::common::result::{AppError, AppResult};
use crate::common::types::texts;
use crate::domain::topic::entity::{lemma_topic_row, Topic, TOPIC_ADMINS, TOPIC_NAME, TOPIC_OWNERS};
use crate::infrastructure::persistence::batch::mutations_of;
use crate::infrastructure::persistence::repository::{
    index_result, partition_result, row_result, same_outcome, same_single_outcome,
};
use crate::store::schema::EntityKind;
use crate::store::statement::{Action, ActionView, ReplyView, StatementView, StoreReply};
use crate::store::value::CqlValueView;
use vstd::prelude::*;

verus! {

/// The key of the partition a topic lies in.
pub open spec fn topic_partition(topic_id: u128) -> Seq<CqlValueView> {
    seq![CqlValueView::Timeuuid(topic_id)]
}

/// The key of a topic's row.
pub open spec fn topic_key(topic_id: u128, created_at: i64) -> Seq<CqlValueView> {
    seq![CqlValueView::Timeuuid(topic_id), CqlValueView::Timestamp(created_at)]
}

/// One list mutation, where the change asks for it.
pub open spec fn mutation(
    append: bool,
    key: Seq<CqlValueView>,
    column: int,
    values: Option<Vec<String>>,
) -> Seq<StatementView> {
    match values {
        Some(values) => if append {
            seq![
                StatementView::ListAppend {
                    kind: EntityKind::Topic,
                    key,
                    column,
                    values: texts(values@),
                },
            ]
        } else {
            seq![
                StatementView::ListRemove {
                    kind: EntityKind::Topic,
                    key,
                    column,
                    values: texts(values@),
                },
            ]
        },
        None => Seq::empty(),
    }
}

/// The list mutations a change asks for: owners before administrators, and
/// for each list the append before the removal.
pub open spec fn list_mutations(patch: &RequestUpdateTopic) -> Seq<StatementView> {
    let key = topic_key(patch.topic_id.0, patch.created_at.0);
    mutation(true, key, TOPIC_OWNERS as int, patch.push_to_owners) + mutation(
        false,
        key,
        TOPIC_OWNERS as int,
        patch.pop_to_owners,
    ) + mutation(true, key, TOPIC_ADMINS as int, patch.push_to_admins) + mutation(
        false,
        key,
        TOPIC_ADMINS as int,
        patch.pop_to_admins,
    )
}

/// What a change submits: one logged batch of the list mutations it asks
/// for, or, where it asks for none, the overwrite of the full row.
pub open spec fn update_plan(patch: &RequestUpdateTopic) -> ActionView {
    if patch.mutates_lists() {
        ActionView::LoggedBatch(list_mutations(patch))
    } else {
        ActionView::Single(
            StatementView::Update { kind: EntityKind::Topic, row: Topic::patched(patch).row() },
        )
    }
}

/// Every list mutation a change asks for is well formed and addresses the
/// row the change names.
pub proof fn lemma_update_plan_wf(patch: &RequestUpdateTopic)
    ensures
        update_plan(patch).wf(),
        mutations_of(
            list_mutations(patch),
            EntityKind::Topic,
            topic_key(patch.topic_id.0, patch.created_at.0),
        ),
{
    lemma_topic_row(Topic::patched(patch));
}

/// The repository of topics. Every operation comes in two halves: the
/// statement to submit, and the result that the store's reply comes to.
pub trait TopicRepository {
    /// The first half of an insert: the topic made ready, and the write of
    /// its full row. A topic without identifier or creation time is given a
    /// fresh time-ordered identifier and the current time; what it has, it
    /// keeps.
    fn create_topic_statement(&self, topic: Topic) -> (prepared: (Topic, Action))
        ensures
            Topic::completes(topic@, prepared.0@),
            prepared.0.topic_id.0 != 0,
            prepared.1@ == ActionView::Single(
                StatementView::Insert { kind: EntityKind::Topic, row: prepared.0@.row() },
            ),
            prepared.1@.wf(),
    ;

    /// The second half of an insert: the topic as written, or an internal
    /// error where the store did not apply the write.
    fn create_topic<'c>(&self, topic: &'c Topic, reply: &StoreReply) -> (r: AppResult<
        &'c Topic,
    >)
        ensures
            match r {
                Ok(written) => written == topic && reply@ is Applied,
                Err(e) => e == AppError::InternalServerError && !(reply@ is Applied),
            },
    ;

    /// The read of every topic of one partition.
    fn find_topic_by_partition_key_statement(
        &self,
        query: &RequestGetTopicByPartitionKey,
    ) -> (action: Action)
        ensures
            action@ == ActionView::Single(
                StatementView::SelectPartition {
                    kind: EntityKind::Topic,
                    key: topic_partition(query.topic_id.0),
                },
            ),
            action@.wf(),
    ;

    /// The topics of one partition. An empty answer is reported as not
    /// found; every topic returned lies in the partition asked for.
    fn find_topic_by_partition_key(
        &self,
        query: &RequestGetTopicByPartitionKey,
        reply: &StoreReply,
    ) -> (r: AppResult<Vec<Topic>>)
        ensures
            same_outcome(r, partition_result::<Topic>(topic_partition(query.topic_id.0), reply@)),
            r matches Ok(topics) ==> topics.len() > 0 && forall|i: int|
                0 <= i < topics.len() ==> (#[trigger] topics[i]).topic_id == query.topic_id,
            reply@ matches ReplyView::Rows(list) && list.len() == 0 ==> r == Err::<
                Vec<Topic>,
                AppError,
            >(AppError::NotFound(EntityKind::Topic)),
    ;

    /// The read of the one topic with a partition and clustering key.
    fn find_topic_by_primary_key_statement(
        &self,
        query: &RequestGetTopicByPrimaryKey,
    ) -> (action: Action)
        ensures
            action@ == ActionView::Single(
                StatementView::SelectRow {
                    kind: EntityKind::Topic,
                    key: topic_key(query.topic_id.0, query.created_at.0),
                },
            ),
            action@.wf(),
    ;

    /// The one topic with a partition and clustering key, or not found.
    fn find_topic_by_primary_key(
        &self,
        query: &RequestGetTopicByPrimaryKey,
        reply: &StoreReply,
    ) -> (r: AppResult<Topic>)
        ensures
            same_single_outcome(
                r,
                row_result::<Topic>(topic_key(query.topic_id.0, query.created_at.0), reply@),
            ),
            r matches Ok(topic) ==> topic.topic_id == query.topic_id && topic.created_at
                == query.created_at,
    ;

    /// The read of the topics that carry a name, through the index on it.
    fn find_topic_by_index_key_statement(&self, query: &RequestGetTopicByIndexKey) -> (action:
        Action)
        ensures
            action@ == ActionView::Single(
                StatementView::SelectByIndex {
                    kind: EntityKind::Topic,
                    column: TOPIC_NAME as int,
                    value: CqlValueView::Text(query.topic_name@),
                },
            ),
            action@.wf(),
    ;

    /// The topics that carry a name. There may be none.
    fn find_topic_by_index_key(
        &self,
        query: &RequestGetTopicByIndexKey,
        reply: &StoreReply,
    ) -> (r: AppResult<Vec<Topic>>)
        ensures
            same_outcome(
                r,
                index_result::<Topic>(
                    TOPIC_NAME as int,
                    CqlValueView::Text(query.topic_name@),
                    reply@,
                ),
            ),
            r matches Ok(topics) ==> forall|i: int|
                0 <= i < topics.len() ==> (#[trigger] topics[i]).topic_name@ == query.topic_name@,
    ;

    /// What a change submits. A change that asks for list mutations submits
    /// them, and only them, as one logged batch on the row it names. Any
    /// other change overwrites that row in full.
    fn update_topic_statement(&self, topic: &RequestUpdateTopic) -> (action: Action)
        ensures
            action@ == update_plan(topic),
            action@.wf(),
    ;

    /// The result of a change: the topic the change describes, or an
    /// internal error where the store did not apply it. The topic returned
    /// is the image of the change itself, not a row read back: after list
    /// mutations its lists are empty whatever the row now holds.
    fn update_topic(&self, topic: &RequestUpdateTopic, reply: &StoreReply) -> (r: AppResult<
        Topic,
    >)
        ensures
            match r {
                Ok(written) => written@ == Topic::patched(topic) && reply@ is Applied,
                Err(e) => e == AppError::InternalServerError && !(reply@ is Applied),
            },
    ;
}

} // verus!
