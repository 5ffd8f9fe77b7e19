//! Command names understood by the dispatcher.

use vstd::prelude::*;

verus! {

/// The operations a caller may ask of the topic service.
#[derive(Debug, Clone, Copy, PartialEq, Eq, Structural)]
pub enum MessageModuleServices {
    CreateTopic,
    GetTopic,
    GetTopics,
    UpdateTopic,
}

impl MessageModuleServices {
    /// The service a command name selects, if any.
    pub open spec fn action_of(input: Seq<char>) -> Option<MessageModuleServices> {
        if input == "CREATE_USER"@ {
            Some(MessageModuleServices::CreateTopic)
        } else if input == "GET_USER"@ {
            Some(MessageModuleServices::GetTopic)
        } else if input == "GET_USERS"@ {
            Some(MessageModuleServices::GetTopics)
        } else if input == "UPDATE_USER"@ {
            Some(MessageModuleServices::UpdateTopic)
        } else {
            None
        }
    }

    /// Maps a command name to the service it selects. Names are matched
    /// exactly; anything else selects nothing.
    pub fn action(input: &str) -> (r: Option<MessageModuleServices>)
        ensures
            r == Self::action_of(input@),
    {
        let name = input.to_owned();
        if name == "CREATE_USER".to_owned() {
            Some(MessageModuleServices::CreateTopic)
        } else if name == "GET_USER".to_owned() {
            Some(MessageModuleServices::GetTopic)
        } else if name == "GET_USERS".to_owned() {
            Some(MessageModuleServices::GetTopics)
        } else if name == "UPDATE_USER".to_owned() {
            Some(MessageModuleServices::UpdateTopic)
        } else {
            None
        }
    }
}

} // verus!
