use vstd::prelude::*;

use crate::kind::Services;
use crate::user::{RedisUser, RedisUserV, User};

verus! {

/// The view of a [`RedisMessage`].
pub struct RedisMessageV {
    pub id: Seq<char>,
    pub timestamp: int,
    pub user: RedisUserV,
    pub service: Services,
}

/// The notification envelope: the self-contained message published on the
/// inter-process channel when a service trigger fires. It bundles a
/// caller-supplied event id (unique per publication), the publication
/// timestamp (milliseconds since the Unix epoch, UTC — not business time),
/// the credential subset of the triggering user, and the target service
/// kind. Write-once, read-once: it exists only in transit and is never
/// persisted.
#[derive(Debug, PartialEq, Eq)]
pub struct RedisMessage {
    pub id: String,
    pub timestamp: i64,
    pub user: RedisUser,
    pub service: Services,
}

impl View for RedisMessage {
    type V = RedisMessageV;

    open spec fn view(&self) -> RedisMessageV {
        RedisMessageV {
            id: self.id@,
            timestamp: self.timestamp as int,
            user: self.user@,
            service: self.service,
        }
    }
}

/// What `build` produces from a user record and the caller-supplied event
/// data: nothing in the envelope is randomized or drawn from ambient state.
pub open spec fn spec_build(
    id: Seq<char>,
    timestamp: int,
    user: User,
    service: Services,
) -> RedisMessageV {
    RedisMessageV { id, timestamp, user: user.spec_credential_subset(), service }
}

impl RedisMessage {
    /// Assemble an envelope from an already-derived credential subset.
    pub fn new(id: String, timestamp: i64, user: RedisUser, service: Services) -> (r:
        RedisMessage)
        ensures
            r@ == (RedisMessageV { id: id@, timestamp: timestamp as int, user: user@, service }),
    {
        RedisMessage { id, timestamp, user, service }
    }

    /// Build an envelope for `service` from a full user record, narrowing it
    /// through `derive_credential_subset` on the way.
    pub fn build(id: String, timestamp: i64, user: &User, service: Services) -> (r: RedisMessage)
        ensures
            r@ == spec_build(id@, timestamp as int, *user, service),
    {
        let subset = user.derive_credential_subset();
        RedisMessage::new(id, timestamp, subset, service)
    }
}

/// Law: envelope building is deterministic — two envelopes built from the
/// same user record, kind, event id and timestamp are structurally
/// identical; nothing in them is randomized.
pub proof fn lemma_build_deterministic(
    e1: RedisMessage,
    e2: RedisMessage,
    id: Seq<char>,
    timestamp: int,
    user: User,
    service: Services,
)
    requires
        e1@ == spec_build(id, timestamp, user, service),
        e2@ == spec_build(id, timestamp, user, service),
    ensures
        e1@ == e2@,
{
}

} // verus!
