//! The user topic service: the repository's results, shown to the
//! caller.

use crate::application::user_topic::request::{RequestGetTopicsByUsername, RequestUpdateUserTopic};
use crate::application::user_topic::response::{PublicUserTopic, PublicUserTopicView};
use crate::common::result::{AppError, AppResult};
use crate::domain::user_topic::entity::{lemma_user_topic_row, UserTopic, UserTopicView};
use crate::domain::user_topic::repository::{user_topic_partition, UserTopicRepository};
use crate::infrastructure::persistence::repository::partition_result;
use crate::store::entity::entity_rows;
use crate::store::schema::EntityKind;
use crate::store::statement::{Action, ActionView, StatementView, StoreReply};
use crate::store::value::CqlValueView;
use std::sync::Arc;
use vstd::prelude::*;

verus! {

/// What is shown of each user topic of a sequence.
pub open spec fn public_views(list: Seq<PublicUserTopic>) -> Seq<PublicUserTopicView> {
    Seq::new(list.len(), |i: int| list[i]@)
}

/// What is shown of the user topics that rows hold.
pub open spec fn shown(list: Seq<Seq<CqlValueView>>) -> Seq<PublicUserTopicView> {
    Seq::new(list.len(), |i: int| PublicUserTopicView::of(UserTopicView::of_row(list[i]).unwrap()))
}

/// Whether the service's answer shows what the repository found, or
/// carries its error.
pub open spec fn shows(
    r: Result<Vec<PublicUserTopic>, AppError>,
    found: Result<Seq<Seq<CqlValueView>>, AppError>,
) -> bool {
    match r {
        Ok(list) => found matches Ok(held) && public_views(list@) == shown(held),
        Err(e) => found == Err::<Seq<Seq<CqlValueView>>, AppError>(e),
    }
}

/// The public face of each user topic of a list.
pub fn show_all(found: &Vec<UserTopic>) -> (list: Vec<PublicUserTopic>)
    ensures
        public_views(list@) == shown(entity_rows(found@)),
{
    let mut list: Vec<PublicUserTopic> = Vec::new();
    let mut i: usize = 0;
    while i < found.len()
        invariant
            i <= found.len(),
            list.len() == i,
            forall|j: int|
                0 <= j < i ==> (#[trigger] list[j])@ == PublicUserTopicView::of(found[j]@),
        decreases found.len() - i,
    {
        match PublicUserTopic::try_from(&found[i]) {
            Ok(shown) => list.push(shown),
            Err(_) => {},
        }
        i += 1;
    }
    assert(public_views(list@) =~= shown(entity_rows(found@))) by {
        assert forall|j: int| 0 <= j < found.len() implies UserTopicView::of_row(
            #[trigger] entity_rows(found@)[j],
        ).unwrap() == found[j]@ by {
            lemma_user_topic_row(found[j]@);
        }
    }
    list
}

/// The user topic service. Every operation comes in two halves, as those
/// of the repository it rests on.
pub trait UserTopicAppInterface {
    /// The read of every user topic of one partition.
    fn find_list_topics_by_username_statement(
        &self,
        query: &RequestGetTopicsByUsername,
    ) -> (action: Action)
        ensures
            action@ == ActionView::Single(
                StatementView::SelectPartition {
                    kind: EntityKind::UserTopic,
                    key: user_topic_partition(query),
                },
            ),
            action@.wf(),
    ;

    /// The user topics of one partition, shown; not found where there is
    /// none.
    fn find_list_topics_by_username(
        &self,
        query: &RequestGetTopicsByUsername,
        reply: &StoreReply,
    ) -> (r: AppResult<Vec<PublicUserTopic>>)
        ensures
            shows(r, partition_result::<UserTopic>(user_topic_partition(query), reply@)),
            r matches Ok(list) ==> list.len() > 0,
    ;

    /// The overwrite of the full row an update names.
    fn update_user_topic_statement(&self, user_topic: &RequestUpdateUserTopic) -> (action: Action)
        ensures
            action@ == ActionView::Single(
                StatementView::Update {
                    kind: EntityKind::UserTopic,
                    row: UserTopic::updated(user_topic).row(),
                },
            ),
            action@.wf(),
    ;

    /// The user topic as written and shown, or an internal error where the
    /// store did not apply the write.
    fn update_user_topic(
        &self,
        user_topic: &RequestUpdateUserTopic,
        reply: &StoreReply,
    ) -> (r: AppResult<PublicUserTopic>)
        ensures
            match r {
                Ok(shown) => shown@ == PublicUserTopicView::of(
                    UserTopic::updated(user_topic),
                ) && reply@ is Applied,
                Err(e) => e == AppError::InternalServerError && !(reply@ is Applied),
            },
    ;
}

/// The user topic service over a repository of user topics.
pub struct UserTopicApp<TP: UserTopicRepository> {
    user_topic_repo: Arc<TP>,
}

impl<TP: UserTopicRepository> UserTopicApp<TP> {
    /// The repository the service rests on.
    pub closed spec fn repository(&self) -> Arc<TP> {
        self.user_topic_repo
    }

    /// The service over the repository given: every operation of the
    /// service goes to that repository.
    pub fn new(user_topic_repo: Arc<TP>) -> (app: Self)
        ensures
            app.repository() == user_topic_repo,
    {
        UserTopicApp { user_topic_repo }
    }
}

impl<TP: UserTopicRepository> UserTopicAppInterface for UserTopicApp<TP> {
    fn find_list_topics_by_username_statement(
        &self,
        query: &RequestGetTopicsByUsername,
    ) -> (action: Action) {
        self.user_topic_repo.find_user_topics_by_partition_key_statement(query)
    }

    fn find_list_topics_by_username(
        &self,
        query: &RequestGetTopicsByUsername,
        reply: &StoreReply,
    ) -> (r: AppResult<Vec<PublicUserTopic>>) {
        match self.user_topic_repo.find_user_topics_by_partition_key(query, reply) {
            Ok(found) => {
                let list = show_all(&found);
                assert(public_views(list@).len() == list.len());
                assert(shown(entity_rows(found@)).len() == found.len());
                Ok(list)
            },
            Err(e) => Err(e),
        }
    }

    fn update_user_topic_statement(&self, user_topic: &RequestUpdateUserTopic) -> (action: Action) {
        self.user_topic_repo.update_user_topics_statement(user_topic)
    }

    fn update_user_topic(
        &self,
        user_topic: &RequestUpdateUserTopic,
        reply: &StoreReply,
    ) -> (r: AppResult<PublicUserTopic>) {
        match self.user_topic_repo.update_user_topics(user_topic, reply) {
            Ok(written) => PublicUserTopic::try_from(&written),
            Err(e) => Err(e),
        }
    }
}

} // verus!
