//! The topic message service: the repository's results, shown to the
//! caller.

use crate::application::topic_message::request::{
    RequestGetMessagesByTopicId, RequestUpdateTopicMessage,
};
use crate::application::topic_message::response::{PublicTopicMessage, PublicTopicMessageView};
use crate::common::result::{AppError, AppResult};
use crate::domain::topic_message::entity::{lemma_topic_message_row, TopicMessage, TopicMessageView};
use crate::domain::topic_message::repository::{topic_message_partition, TopicMessageRepository};
use crate::infrastructure::persistence::repository::partition_result;
use crate::store::entity::entity_rows;
use crate::store::schema::EntityKind;
use crate::store::statement::{Action, ActionView, StatementView, StoreReply};
use crate::store::value::CqlValueView;
use std::sync::Arc;
use vstd::prelude::*;

verus! {

/// What is shown of each topic message of a sequence.
pub open spec fn public_views(list: Seq<PublicTopicMessage>) -> Seq<PublicTopicMessageView> {
    Seq::new(list.len(), |i: int| list[i]@)
}

/// What is shown of the topic messages that rows hold.
pub open spec fn shown(list: Seq<Seq<CqlValueView>>) -> Seq<PublicTopicMessageView> {
    Seq::new(
        list.len(),
        |i: int| PublicTopicMessageView::of(TopicMessageView::of_row(list[i]).unwrap()),
    )
}

/// Whether the service's answer shows what the repository found, or
/// carries its error.
pub open spec fn shows(
    r: Result<Vec<PublicTopicMessage>, AppError>,
    found: Result<Seq<Seq<CqlValueView>>, AppError>,
) -> bool {
    match r {
        Ok(list) => found matches Ok(held) && public_views(list@) == shown(held),
        Err(e) => found == Err::<Seq<Seq<CqlValueView>>, AppError>(e),
    }
}

/// The public face of each topic message of a list.
pub fn show_all(found: &Vec<TopicMessage>) -> (list: Vec<PublicTopicMessage>)
    ensures
        public_views(list@) == shown(entity_rows(found@)),
{
    let mut list: Vec<PublicTopicMessage> = Vec::new();
    let mut i: usize = 0;
    while i < found.len()
        invariant
            i <= found.len(),
            list.len() == i,
            forall|j: int|
                0 <= j < i ==> (#[trigger] list[j])@ == PublicTopicMessageView::of(found[j]@),
        decreases found.len() - i,
    {
        match PublicTopicMessage::try_from(&found[i]) {
            Ok(shown) => list.push(shown),
            Err(_) => {},
        }
        i += 1;
    }
    assert(public_views(list@) =~= shown(entity_rows(found@))) by {
        assert forall|j: int| 0 <= j < found.len() implies TopicMessageView::of_row(
            #[trigger] entity_rows(found@)[j],
        ).unwrap() == found[j]@ by {
            lemma_topic_message_row(found[j]@);
        }
    }
    list
}

/// The topic message service. Every operation comes in two halves, as those
/// of the repository it rests on.
pub trait TopicMessageAppInterface {
    /// The read of every topic message of one partition.
    fn find_list_messages_by_topic_id_statement(
        &self,
        query: &RequestGetMessagesByTopicId,
    ) -> (action: Action)
        ensures
            action@ == ActionView::Single(
                StatementView::SelectPartition {
                    kind: EntityKind::TopicMessage,
                    key: topic_message_partition(query),
                },
            ),
            action@.wf(),
    ;

    /// The topic messages of one partition, shown; not found where there is
    /// none.
    fn find_list_messages_by_topic_id(
        &self,
        query: &RequestGetMessagesByTopicId,
        reply: &StoreReply,
    ) -> (r: AppResult<Vec<PublicTopicMessage>>)
        ensures
            shows(r, partition_result::<TopicMessage>(topic_message_partition(query), reply@)),
            r matches Ok(list) ==> list.len() > 0,
    ;

    /// The overwrite of the full row an update names.
    fn update_topic_message_statement(
        &self,
        topic_message: &RequestUpdateTopicMessage,
    ) -> (action: Action)
        ensures
            action@ == ActionView::Single(
                StatementView::Update {
                    kind: EntityKind::TopicMessage,
                    row: TopicMessage::updated(topic_message).row(),
                },
            ),
            action@.wf(),
    ;

    /// The topic message as written and shown, or an internal error where the
    /// store did not apply the write.
    fn update_topic_message(
        &self,
        topic_message: &RequestUpdateTopicMessage,
        reply: &StoreReply,
    ) -> (r: AppResult<PublicTopicMessage>)
        ensures
            match r {
                Ok(shown) => shown@ == PublicTopicMessageView::of(
                    TopicMessage::updated(topic_message),
                ) && reply@ is Applied,
                Err(e) => e == AppError::InternalServerError && !(reply@ is Applied),
            },
    ;
}

/// The topic message service over a repository of topic messages.
pub struct TopicMessageApp<TP: TopicMessageRepository> {
    topic_message_repo: Arc<TP>,
}

impl<TP: TopicMessageRepository> TopicMessageApp<TP> {
    /// The repository the service rests on.
    pub closed spec fn repository(&self) -> Arc<TP> {
        self.topic_message_repo
    }

    /// The service over the repository given: every operation of the
    /// service goes to that repository.
    pub fn new(topic_message_repo: Arc<TP>) -> (app: Self)
        ensures
            app.repository() == topic_message_repo,
    {
        TopicMessageApp { topic_message_repo }
    }
}

impl<TP: TopicMessageRepository> TopicMessageAppInterface for TopicMessageApp<TP> {
    fn find_list_messages_by_topic_id_statement(
        &self,
        query: &RequestGetMessagesByTopicId,
    ) -> (action: Action) {
        self.topic_message_repo.find_topic_message_by_partition_key_statement(query)
    }

    fn find_list_messages_by_topic_id(
        &self,
        query: &RequestGetMessagesByTopicId,
        reply: &StoreReply,
    ) -> (r: AppResult<Vec<PublicTopicMessage>>) {
        match self.topic_message_repo.find_topic_message_by_partition_key(query, reply) {
            Ok(found) => {
                let list = show_all(&found);
                assert(public_views(list@).len() == list.len());
                assert(shown(entity_rows(found@)).len() == found.len());
                Ok(list)
            },
            Err(e) => Err(e),
        }
    }

    fn update_topic_message_statement(
        &self,
        topic_message: &RequestUpdateTopicMessage,
    ) -> (action: Action) {
        self.topic_message_repo.update_topic_message_statement(topic_message)
    }

    fn update_topic_message(
        &self,
        topic_message: &RequestUpdateTopicMessage,
        reply: &StoreReply,
    ) -> (r: AppResult<PublicTopicMessage>) {
        match self.topic_message_repo.update_topic_message(topic_message, reply) {
            Ok(written) => PublicTopicMessage::try_from(&written),
            Err(e) => Err(e),
        }
    }
}

} // verus!
