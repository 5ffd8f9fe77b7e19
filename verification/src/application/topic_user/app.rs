//! The topic user service: the repository's results, shown to the
//! caller.

use crate::application::topic_user::request::{RequestGetUsersByTopicId, RequestUpdateTopicUser};
use crate::application::topic_user::response::{PublicTopicUser, PublicTopicUserView};
use crate::common::result::{AppError, AppResult};
use crate::domain::topic_user::entity::{lemma_topic_user_row, TopicUser, TopicUserView};
use crate::domain::topic_user::repository::{topic_user_partition, TopicUserRepository};
use crate::infrastructure::persistence::repository::partition_result;
use crate::store::entity::entity_rows;
use crate::store::schema::EntityKind;
use crate::store::statement::{Action, ActionView, StatementView, StoreReply};
use crate::store::value::CqlValueView;
use std::sync::Arc;
use vstd::prelude::*;

verus! {

/// What is shown of each topic user of a sequence.
pub open spec fn public_views(list: Seq<PublicTopicUser>) -> Seq<PublicTopicUserView> {
    Seq::new(list.len(), |i: int| list[i]@)
}

/// What is shown of the topic users that rows hold.
pub open spec fn shown(list: Seq<Seq<CqlValueView>>) -> Seq<PublicTopicUserView> {
    Seq::new(list.len(), |i: int| PublicTopicUserView::of(TopicUserView::of_row(list[i]).unwrap()))
}

/// Whether the service's answer shows what the repository found, or
/// carries its error.
pub open spec fn shows(
    r: Result<Vec<PublicTopicUser>, AppError>,
    found: Result<Seq<Seq<CqlValueView>>, AppError>,
) -> bool {
    match r {
        Ok(list) => found matches Ok(held) && public_views(list@) == shown(held),
        Err(e) => found == Err::<Seq<Seq<CqlValueView>>, AppError>(e),
    }
}

/// The public face of each topic user of a list.
pub fn show_all(found: &Vec<TopicUser>) -> (list: Vec<PublicTopicUser>)
    ensures
        public_views(list@) == shown(entity_rows(found@)),
{
    let mut list: Vec<PublicTopicUser> = Vec::new();
    let mut i: usize = 0;
    while i < found.len()
        invariant
            i <= found.len(),
            list.len() == i,
            forall|j: int|
                0 <= j < i ==> (#[trigger] list[j])@ == PublicTopicUserView::of(found[j]@),
        decreases found.len() - i,
    {
        match PublicTopicUser::try_from(&found[i]) {
            Ok(shown) => list.push(shown),
            Err(_) => {},
        }
        i += 1;
    }
    assert(public_views(list@) =~= shown(entity_rows(found@))) by {
        assert forall|j: int| 0 <= j < found.len() implies TopicUserView::of_row(
            #[trigger] entity_rows(found@)[j],
        ).unwrap() == found[j]@ by {
            lemma_topic_user_row(found[j]@);
        }
    }
    list
}

/// The topic user service. Every operation comes in two halves, as those
/// of the repository it rests on.
pub trait TopicUserAppInterface {
    /// The read of every topic user of one partition.
    fn find_list_users_by_topic_id_statement(
        &self,
        query: &RequestGetUsersByTopicId,
    ) -> (action: Action)
        ensures
            action@ == ActionView::Single(
                StatementView::SelectPartition {
                    kind: EntityKind::TopicUser,
                    key: topic_user_partition(query),
                },
            ),
            action@.wf(),
    ;

    /// The topic users of one partition, shown; not found where there is
    /// none.
    fn find_list_users_by_topic_id(
        &self,
        query: &RequestGetUsersByTopicId,
        reply: &StoreReply,
    ) -> (r: AppResult<Vec<PublicTopicUser>>)
        ensures
            shows(r, partition_result::<TopicUser>(topic_user_partition(query), reply@)),
            r matches Ok(list) ==> list.len() > 0,
    ;

    /// The overwrite of the full row an update names.
    fn update_topic_user_statement(&self, topic_user: &RequestUpdateTopicUser) -> (action: Action)
        ensures
            action@ == ActionView::Single(
                StatementView::Update {
                    kind: EntityKind::TopicUser,
                    row: TopicUser::updated(topic_user).row(),
                },
            ),
            action@.wf(),
    ;

    /// The topic user as written and shown, or an internal error where the
    /// store did not apply the write.
    fn update_topic_user(
        &self,
        topic_user: &RequestUpdateTopicUser,
        reply: &StoreReply,
    ) -> (r: AppResult<PublicTopicUser>)
        ensures
            match r {
                Ok(shown) => shown@ == PublicTopicUserView::of(
                    TopicUser::updated(topic_user),
                ) && reply@ is Applied,
                Err(e) => e == AppError::InternalServerError && !(reply@ is Applied),
            },
    ;
}

/// The topic user service over a repository of topic users.
pub struct TopicUserApp<TP: TopicUserRepository> {
    topic_user_repo: Arc<TP>,
}

impl<TP: TopicUserRepository> TopicUserApp<TP> {
    /// The repository the service rests on.
    pub closed spec fn repository(&self) -> Arc<TP> {
        self.topic_user_repo
    }

    /// The service over the repository given: every operation of the
    /// service goes to that repository.
    pub fn new(topic_user_repo: Arc<TP>) -> (app: Self)
        ensures
            app.repository() == topic_user_repo,
    {
        TopicUserApp { topic_user_repo }
    }
}

impl<TP: TopicUserRepository> TopicUserAppInterface for TopicUserApp<TP> {
    fn find_list_users_by_topic_id_statement(
        &self,
        query: &RequestGetUsersByTopicId,
    ) -> (action: Action) {
        self.topic_user_repo.find_topic_users_by_partition_key_statement(query)
    }

    fn find_list_users_by_topic_id(
        &self,
        query: &RequestGetUsersByTopicId,
        reply: &StoreReply,
    ) -> (r: AppResult<Vec<PublicTopicUser>>) {
        match self.topic_user_repo.find_topic_users_by_partition_key(query, reply) {
            Ok(found) => {
                let list = show_all(&found);
                assert(public_views(list@).len() == list.len());
                assert(shown(entity_rows(found@)).len() == found.len());
                Ok(list)
            },
            Err(e) => Err(e),
        }
    }

    fn update_topic_user_statement(&self, topic_user: &RequestUpdateTopicUser) -> (action: Action) {
        self.topic_user_repo.update_topic_users_statement(topic_user)
    }

    fn update_topic_user(
        &self,
        topic_user: &RequestUpdateTopicUser,
        reply: &StoreReply,
    ) -> (r: AppResult<PublicTopicUser>) {
        match self.topic_user_repo.update_topic_users(topic_user, reply) {
            Ok(written) => PublicTopicUser::try_from(&written),
            Err(e) => Err(e),
        }
    }
}

} // verus!
