//! The latest message service: the repository's results, shown to the
//! caller.

use crate::application::latest_message::request::{
    RequestGetLatestMessagesByUserId, RequestUpdateLatestMessage,
};
use crate::application::latest_message::response::{PublicLatestMessage, PublicLatestMessageView};
use crate::common::result::{AppError, AppResult};
use crate::domain::latest_message::entity::{
    lemma_latest_message_row, LatestMessage, LatestMessageView,
};
use crate::domain::latest_message::repository::{latest_message_partition, LatestMessageRepository};
use crate::infrastructure::persistence::repository::partition_result;
use crate::store::entity::entity_rows;
use crate::store::schema::EntityKind;
use crate::store::statement::{Action, ActionView, StatementView, StoreReply};
use crate::store::value::CqlValueView;
use std::sync::Arc;
use vstd::prelude::*;

verus! {

/// What is shown of each latest message of a sequence.
pub open spec fn public_views(list: Seq<PublicLatestMessage>) -> Seq<PublicLatestMessageView> {
    Seq::new(list.len(), |i: int| list[i]@)
}

/// What is shown of the latest messages that rows hold.
pub open spec fn shown(list: Seq<Seq<CqlValueView>>) -> Seq<PublicLatestMessageView> {
    Seq::new(
        list.len(),
        |i: int| PublicLatestMessageView::of(LatestMessageView::of_row(list[i]).unwrap()),
    )
}

/// Whether the service's answer shows what the repository found, or
/// carries its error.
pub open spec fn shows(
    r: Result<Vec<PublicLatestMessage>, AppError>,
    found: Result<Seq<Seq<CqlValueView>>, AppError>,
) -> bool {
    match r {
        Ok(list) => found matches Ok(held) && public_views(list@) == shown(held),
        Err(e) => found == Err::<Seq<Seq<CqlValueView>>, AppError>(e),
    }
}

/// The public face of each latest message of a list.
pub fn show_all(found: &Vec<LatestMessage>) -> (list: Vec<PublicLatestMessage>)
    ensures
        public_views(list@) == shown(entity_rows(found@)),
{
    let mut list: Vec<PublicLatestMessage> = Vec::new();
    let mut i: usize = 0;
    while i < found.len()
        invariant
            i <= found.len(),
            list.len() == i,
            forall|j: int|
                0 <= j < i ==> (#[trigger] list[j])@ == PublicLatestMessageView::of(found[j]@),
        decreases found.len() - i,
    {
        match PublicLatestMessage::try_from(&found[i]) {
            Ok(shown) => list.push(shown),
            Err(_) => {},
        }
        i += 1;
    }
    assert(public_views(list@) =~= shown(entity_rows(found@))) by {
        assert forall|j: int| 0 <= j < found.len() implies LatestMessageView::of_row(
            #[trigger] entity_rows(found@)[j],
        ).unwrap() == found[j]@ by {
            lemma_latest_message_row(found[j]@);
        }
    }
    list
}

/// The latest message service. Every operation comes in two halves, as those
/// of the repository it rests on.
pub trait LatestMessageAppInterface {
    /// The read of every latest message of one partition.
    fn find_list_latest_messages_by_user_id_statement(
        &self,
        query: &RequestGetLatestMessagesByUserId,
    ) -> (action: Action)
        ensures
            action@ == ActionView::Single(
                StatementView::SelectPartition {
                    kind: EntityKind::LatestMessage,
                    key: latest_message_partition(query),
                },
            ),
            action@.wf(),
    ;

    /// The latest messages of one partition, shown; not found where there is
    /// none.
    fn find_list_latest_messages_by_user_id(
        &self,
        query: &RequestGetLatestMessagesByUserId,
        reply: &StoreReply,
    ) -> (r: AppResult<Vec<PublicLatestMessage>>)
        ensures
            shows(r, partition_result::<LatestMessage>(latest_message_partition(query), reply@)),
            r matches Ok(list) ==> list.len() > 0,
    ;

    /// The overwrite of the full row an update names.
    fn update_latest_message_statement(
        &self,
        latest_message: &RequestUpdateLatestMessage,
    ) -> (action: Action)
        ensures
            action@ == ActionView::Single(
                StatementView::Update {
                    kind: EntityKind::LatestMessage,
                    row: LatestMessage::updated(latest_message).row(),
                },
            ),
            action@.wf(),
    ;

    /// The latest message as written and shown, or an internal error where the
    /// store did not apply the write.
    fn update_latest_message(
        &self,
        latest_message: &RequestUpdateLatestMessage,
        reply: &StoreReply,
    ) -> (r: AppResult<PublicLatestMessage>)
        ensures
            match r {
                Ok(shown) => shown@ == PublicLatestMessageView::of(
                    LatestMessage::updated(latest_message),
                ) && reply@ is Applied,
                Err(e) => e == AppError::InternalServerError && !(reply@ is Applied),
            },
    ;
}

/// The latest message service over a repository of latest messages.
pub struct LatestMessageApp<TP: LatestMessageRepository> {
    latest_message_repo: Arc<TP>,
}

impl<TP: LatestMessageRepository> LatestMessageApp<TP> {
    /// The repository the service rests on.
    pub closed spec fn repository(&self) -> Arc<TP> {
        self.latest_message_repo
    }

    /// The service over the repository given: every operation of the
    /// service goes to that repository.
    pub fn new(latest_message_repo: Arc<TP>) -> (app: Self)
        ensures
            app.repository() == latest_message_repo,
    {
        LatestMessageApp { latest_message_repo }
    }
}

impl<TP: LatestMessageRepository> LatestMessageAppInterface for LatestMessageApp<TP> {
    fn find_list_latest_messages_by_user_id_statement(
        &self,
        query: &RequestGetLatestMessagesByUserId,
    ) -> (action: Action) {
        self.latest_message_repo.find_latest_message_by_partition_key_statement(query)
    }

    fn find_list_latest_messages_by_user_id(
        &self,
        query: &RequestGetLatestMessagesByUserId,
        reply: &StoreReply,
    ) -> (r: AppResult<Vec<PublicLatestMessage>>) {
        match self.latest_message_repo.find_latest_message_by_partition_key(query, reply) {
            Ok(found) => {
                let list = show_all(&found);
                assert(public_views(list@).len() == list.len());
                assert(shown(entity_rows(found@)).len() == found.len());
                Ok(list)
            },
            Err(e) => Err(e),
        }
    }

    fn update_latest_message_statement(
        &self,
        latest_message: &RequestUpdateLatestMessage,
    ) -> (action: Action) {
        self.latest_message_repo.update_latest_message_statement(latest_message)
    }

    fn update_latest_message(
        &self,
        latest_message: &RequestUpdateLatestMessage,
        reply: &StoreReply,
    ) -> (r: AppResult<PublicLatestMessage>) {
        match self.latest_message_repo.update_latest_message(latest_message, reply) {
            Ok(written) => PublicLatestMessage::try_from(&written),
            Err(e) => Err(e),
        }
    }
}

} // verus!
