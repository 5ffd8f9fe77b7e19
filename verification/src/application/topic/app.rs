//! The topic service: the repository's results, shown to the caller.

use crate::application::topic::request::{
    RequestGetTopicByIndexKey, RequestGetTopicByPartitionKey, RequestGetTopicByPrimaryKey,
    RequestUpdateTopic,
};
use crate::application::topic::response::{public_topics, PublicTopic, PublicTopicView};
use crate::common::result::{AppError, AppResult};
use crate::domain::topic::entity::{lemma_topic_row, Topic, TopicView, TOPIC_NAME};
use crate::infrastructure::persistence::repository::{index_result, partition_result, row_result};
use crate::domain::topic::repository::{
    topic_key, topic_partition, update_plan, TopicRepository,
};
use crate::store::entity::{entity_rows, Entity};
use crate::store::schema::EntityKind;
use crate::store::statement::{Action, ActionView, StatementView, StoreReply};
use crate::store::value::CqlValueView;
use std::sync::Arc;
use vstd::prelude::*;

verus! {

/// What is shown of the topics that rows hold.
pub open spec fn shown_topics(list: Seq<Seq<CqlValueView>>) -> Seq<PublicTopicView> {
    Seq::new(list.len(), |i: int| PublicTopicView::of(TopicView::of_row(list[i]).unwrap()))
}

/// Whether the service's answer shows the topics, or carries the error, of
/// the repository's result.
pub open spec fn shows_topics(
    r: Result<Vec<PublicTopic>, AppError>,
    found: Result<Seq<Seq<CqlValueView>>, AppError>,
) -> bool {
    match r {
        Ok(list) => found matches Ok(held) && public_topics(list@) == shown_topics(held),
        Err(e) => found == Err::<Seq<Seq<CqlValueView>>, AppError>(e),
    }
}

/// Whether the service's answer shows the topic, or carries the error, of
/// the repository's result.
pub open spec fn shows_topic(
    r: Result<PublicTopic, AppError>,
    found: Result<Seq<CqlValueView>, AppError>,
) -> bool {
    match r {
        Ok(shown) => found matches Ok(held) && shown@ == PublicTopicView::of(
            TopicView::of_row(held).unwrap(),
        ),
        Err(e) => found == Err::<Seq<CqlValueView>, AppError>(e),
    }
}

/// The public face of each topic of a list.
pub fn show_topics(topics: &Vec<Topic>) -> (list: Vec<PublicTopic>)
    ensures
        public_topics(list@) == shown_topics(entity_rows(topics@)),
{
    let mut list: Vec<PublicTopic> = Vec::new();
    let mut i: usize = 0;
    while i < topics.len()
        invariant
            i <= topics.len(),
            list.len() == i,
            forall|j: int| 0 <= j < i ==> (#[trigger] list[j])@ == PublicTopicView::of(topics[j]@),
        decreases topics.len() - i,
    {
        match PublicTopic::try_from(&topics[i]) {
            Ok(shown) => list.push(shown),
            Err(_) => {},
        }
        i += 1;
    }
    assert(public_topics(list@) =~= shown_topics(entity_rows(topics@))) by {
        assert forall|j: int| 0 <= j < topics.len() implies TopicView::of_row(
            #[trigger] entity_rows(topics@)[j],
        ).unwrap() == topics[j]@ by {
            lemma_topic_row(topics[j]@);
        }
    }
    list
}

/// The topic service. Every operation comes in two halves, as those of the
/// repository it rests on.
pub trait TopicAppInterface {
    /// The first half of creating a topic: the topic made ready, and the
    /// write of its full row.
    fn create_topic_statement(&self, topic: Topic) -> (prepared: (Topic, Action))
        ensures
            Topic::completes(topic@, prepared.0@),
            prepared.0.topic_id.0 != 0,
            prepared.1@ == ActionView::Single(
                StatementView::Insert { kind: EntityKind::Topic, row: prepared.0@.row() },
            ),
            prepared.1@.wf(),
    ;

    /// The topic as created and shown, or an internal error where the store
    /// did not apply the write.
    fn create_topic(&self, topic: &Topic, reply: &StoreReply) -> (r: AppResult<PublicTopic>)
        ensures
            match r {
                Ok(shown) => shown@ == PublicTopicView::of(topic@) && reply@ is Applied,
                Err(e) => e == AppError::InternalServerError && !(reply@ is Applied),
            },
    ;

    /// The read of every topic of one partition.
    fn find_topic_by_partition_key_statement(
        &self,
        query: &RequestGetTopicByPartitionKey,
    ) -> (action: Action)
        ensures
            action@ == ActionView::Single(
                StatementView::SelectPartition {
                    kind: EntityKind::Topic,
                    key: topic_partition(query.topic_id.0),
                },
            ),
            action@.wf(),
    ;

    /// The topics of one partition, shown; not found where there is none.
    fn find_topic_by_partition_key(
        &self,
        query: &RequestGetTopicByPartitionKey,
        reply: &StoreReply,
    ) -> (r: AppResult<Vec<PublicTopic>>)
        ensures
            shows_topics(
                r,
                partition_result::<Topic>(topic_partition(query.topic_id.0), reply@),
            ),
            r matches Ok(list) ==> list.len() > 0,
    ;

    /// The read of the one topic with a partition and clustering key.
    fn find_topic_by_primary_key_statement(
        &self,
        query: &RequestGetTopicByPrimaryKey,
    ) -> (action: Action)
        ensures
            action@ == ActionView::Single(
                StatementView::SelectRow {
                    kind: EntityKind::Topic,
                    key: topic_key(query.topic_id.0, query.created_at.0),
                },
            ),
            action@.wf(),
    ;

    /// The one topic with a partition and clustering key, shown.
    fn find_topic_by_primary_key(
        &self,
        query: &RequestGetTopicByPrimaryKey,
        reply: &StoreReply,
    ) -> (r: AppResult<PublicTopic>)
        ensures
            shows_topic(
                r,
                row_result::<Topic>(topic_key(query.topic_id.0, query.created_at.0), reply@),
            ),
    ;

    /// The read of the topics that carry a name.
    fn find_topic_by_index_key_statement(&self, query: &RequestGetTopicByIndexKey) -> (action:
        Action)
        ensures
            action@ == ActionView::Single(
                StatementView::SelectByIndex {
                    kind: EntityKind::Topic,
                    column: TOPIC_NAME as int,
                    value: CqlValueView::Text(query.topic_name@),
                },
            ),
            action@.wf(),
    ;

    /// The topics that carry a name, shown. There may be none.
    fn find_topic_by_index_key(
        &self,
        query: &RequestGetTopicByIndexKey,
        reply: &StoreReply,
    ) -> (r: AppResult<Vec<PublicTopic>>)
        ensures
            shows_topics(
                r,
                index_result::<Topic>(
                    TOPIC_NAME as int,
                    CqlValueView::Text(query.topic_name@),
                    reply@,
                ),
            ),
    ;

    /// What a change submits.
    fn update_topic_statement(&self, topic: &RequestUpdateTopic) -> (action: Action)
        ensures
            action@ == update_plan(topic),
            action@.wf(),
    ;

    /// The topic a change describes, shown, or an internal error where the
    /// store did not apply the change.
    fn update_topic(&self, topic: &RequestUpdateTopic, reply: &StoreReply) -> (r: AppResult<
        PublicTopic,
    >)
        ensures
            match r {
                Ok(shown) => shown@ == PublicTopicView::of(Topic::patched(topic)) && reply@
                    is Applied,
                Err(e) => e == AppError::InternalServerError && !(reply@ is Applied),
            },
    ;
}

/// The topic service over a repository of topics.
pub struct TopicApp<TP: TopicRepository> {
    topic_repo: Arc<TP>,
}

impl<TP: TopicRepository> TopicApp<TP> {
    /// The repository the service rests on.
    pub closed spec fn repository(&self) -> Arc<TP> {
        self.topic_repo
    }

    /// The service over the repository given: every operation of the
    /// service goes to that repository.
    pub fn new(topic_repo: Arc<TP>) -> (app: Self)
        ensures
            app.repository() == topic_repo,
    {
        TopicApp { topic_repo }
    }
}

impl<TP: TopicRepository> TopicAppInterface for TopicApp<TP> {
    fn create_topic_statement(&self, topic: Topic) -> (prepared: (Topic, Action)) {
        self.topic_repo.create_topic_statement(topic)
    }

    fn create_topic(&self, topic: &Topic, reply: &StoreReply) -> (r: AppResult<PublicTopic>) {
        match self.topic_repo.create_topic(topic, reply) {
            Ok(written) => PublicTopic::try_from(written),
            Err(e) => Err(e),
        }
    }

    fn find_topic_by_partition_key_statement(
        &self,
        query: &RequestGetTopicByPartitionKey,
    ) -> (action: Action) {
        self.topic_repo.find_topic_by_partition_key_statement(query)
    }

    fn find_topic_by_partition_key(
        &self,
        query: &RequestGetTopicByPartitionKey,
        reply: &StoreReply,
    ) -> (r: AppResult<Vec<PublicTopic>>) {
        match self.topic_repo.find_topic_by_partition_key(query, reply) {
            Ok(topics) => {
                let list = show_topics(&topics);
                assert(public_topics(list@).len() == list.len());
                assert(shown_topics(entity_rows(topics@)).len() == topics.len());
                Ok(list)
            },
            Err(e) => Err(e),
        }
    }

    fn find_topic_by_primary_key_statement(
        &self,
        query: &RequestGetTopicByPrimaryKey,
    ) -> (action: Action) {
        self.topic_repo.find_topic_by_primary_key_statement(query)
    }

    fn find_topic_by_primary_key(
        &self,
        query: &RequestGetTopicByPrimaryKey,
        reply: &StoreReply,
    ) -> (r: AppResult<PublicTopic>) {
        match self.topic_repo.find_topic_by_primary_key(query, reply) {
            Ok(topic) => {
                proof {
                    lemma_topic_row(topic@);
                }
                PublicTopic::try_from(&topic)
            },
            Err(e) => Err(e),
        }
    }

    fn find_topic_by_index_key_statement(&self, query: &RequestGetTopicByIndexKey) -> (action:
        Action) {
        self.topic_repo.find_topic_by_index_key_statement(query)
    }

    fn find_topic_by_index_key(
        &self,
        query: &RequestGetTopicByIndexKey,
        reply: &StoreReply,
    ) -> (r: AppResult<Vec<PublicTopic>>) {
        match self.topic_repo.find_topic_by_index_key(query, reply) {
            Ok(topics) => Ok(show_topics(&topics)),
            Err(e) => Err(e),
        }
    }

    fn update_topic_statement(&self, topic: &RequestUpdateTopic) -> (action: Action) {
        self.topic_repo.update_topic_statement(topic)
    }

    fn update_topic(&self, topic: &RequestUpdateTopic, reply: &StoreReply) -> (r: AppResult<
        PublicTopic,
    >) {
        match self.topic_repo.update_topic(topic, reply) {
            Ok(written) => PublicTopic::try_from(&written),
            Err(e) => Err(e),
        }
    }
}

} // verus!
