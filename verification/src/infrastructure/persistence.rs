//! The repositories: one generic contract, instantiated per entity.

use crate::infrastructure::persistence::latest_message_repository::LatestMessageRepo;
use crate::infrastructure::persistence::migration::{full_migration, MigrationRunner};
use crate::infrastructure::persistence::notification_repository::NotificationRepo;
use crate::infrastructure::persistence::topic_message_repository::TopicMessageRepo;
use crate::infrastructure::persistence::topic_repository::TopicRepo;
use crate::infrastructure::persistence::topic_user_repository::TopicUserRepo;
use crate::infrastructure::persistence::user_topic_repository::UserTopicRepo;
use vstd::prelude::*;

pub mod batch;
pub mod guarantees;
pub mod latest_message_repository;
pub mod migration;
pub mod notification_repository;
pub mod repository;
pub mod topic_message_repository;
pub mod topic_repository;
pub mod topic_user_repository;
pub mod user_topic_repository;

verus! {

/// The repository of every entity.
pub struct MessageRepositories {
    pub topic: TopicRepo,
    pub topic_message: TopicMessageRepo,
    pub latest_message: LatestMessageRepo,
    pub notification: NotificationRepo,
    pub topic_user: TopicUserRepo,
    pub user_topic: UserTopicRepo,
}

impl MessageRepositories {
    pub fn new() -> (repositories: Self) {
        MessageRepositories {
            topic: TopicRepo::new(),
            topic_message: TopicMessageRepo::new(),
            latest_message: LatestMessageRepo::new(),
            notification: NotificationRepo::new(),
            topic_user: TopicUserRepo::new(),
            user_topic: UserTopicRepo::new(),
        }
    }

    /// The runner that prepares the store for every entity, entity by entity
    /// in creation order. It is to be run to its end, with success, before
    /// any request is served.
    pub fn auto_mod_identification_migrate(&self) -> (runner: MigrationRunner)
        ensures
            runner.plan() == full_migration(),
            runner.done() == 0,
            !runner.failed(),
    {
        MigrationRunner::new()
    }
}

} // verus!
