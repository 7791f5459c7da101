//! Google Chat resources, as far as the library reads or writes them.

use vstd::prelude::*;
use crate::utils::text::clone_opt_string;

verus! {

/// A Chat space (room, group chat or direct message).
pub struct Space {
    pub name: Option<String>,
    pub display_name: Option<String>,
    pub space_type: Option<String>,
}

impl Clone for Space {
    fn clone(&self) -> (r: Self)
        ensures
            r == *self,
    {
        Space {
            name: clone_opt_string(&self.name),
            display_name: clone_opt_string(&self.display_name),
            space_type: clone_opt_string(&self.space_type),
        }
    }
}

/// A thread to reply in.
pub struct Thread {
    pub name: Option<String>,
}

/// Body of a message to send.
pub struct CreateMessageRequest {
    pub text: String,
    pub thread: Option<Thread>,
}

/// Body of a request that sets up a named space with members.
pub struct SetupSpaceRequest {
    pub space: SpaceSetup,
    pub memberships: Vec<MembershipSetup>,
}

pub struct SpaceSetup {
    pub display_name: Option<String>,
    pub space_type: String,
}

pub struct MembershipSetup {
    pub member: MemberRef,
}

/// A member by resource name (`users/<email>`) and kind (the API's `type`).
pub struct MemberRef {
    pub name: String,
    pub member_type: String,
}

} // verus!
