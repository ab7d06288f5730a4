//! The agent: one identity, one store, one outbound notification.
//!
//! An agent owns exactly one [`Identity`] and one [`KeyValueStore`].
//! Construction generates the identity and creates the store empty, and
//! cannot fail. Store and retrieve delegate to the store. A notification is
//! split at the network edge: the agent builds the payload
//! ([`Agent::notify_payload`]) and interprets what the embedding program
//! observed ([`Agent::notify_response`]); the HTTP round trip itself —
//! the single suspension point — is the embedding program's. A failed
//! notification touches nothing: the store is not part of these contracts'
//! frame, so stored data is independent of network fate.

use vstd::prelude::*;

use crate::identity::Identity;
use crate::identity::IdentityGenerator;
use crate::identity::valid_identity;
use crate::notify::NotifyError;
use crate::notify::SendOutcome;
use crate::notify::TransportError;
use crate::notify::classify_outcome;
use crate::notify::send_verdict;
use crate::payload::build_payload;
use crate::payload::payload_bytes;
use crate::store::KeyValueStore;

verus! {

/// The owning unit: one identity, generated at construction and immutable
/// thereafter, and one exclusively owned key/value store.
pub struct Agent {
    pub identity: Identity,
    pub store: KeyValueStore,
}

impl Agent {
    /// Well-formedness: the identity has its generated shape and the store
    /// keeps its key-uniqueness invariant.
    pub open spec fn wf(&self) -> bool {
        &&& valid_identity(&self.identity)
        &&& self.store.wf()
    }

    /// The agent's id, as the character sequence it was generated with.
    pub open spec fn id(&self) -> Seq<char> {
        self.identity.id@
    }

    /// The current abstract contents of the agent's store.
    pub open spec fn store_view(&self) -> Map<Seq<char>, Seq<char>> {
        self.store@
    }

    /// Construct an agent: generate a fresh identity and create an empty
    /// store. Never fails.
    pub fn new() -> (a: Agent)
        ensures
            a.wf(),
            a.store_view() == Map::<Seq<char>, Seq<char>>::empty(),
    {
        Agent { identity: IdentityGenerator::generate(), store: KeyValueStore::new() }
    }

    /// Store a value: afterwards the store maps `key` to `value` and every
    /// other key to what it mapped to before; the identity is untouched.
    /// Never fails.
    pub fn store_data(&mut self, key: String, value: String)
        requires
            old(self).wf(),
        ensures
            final(self).wf(),
            final(self).store_view() == old(self).store_view().insert(key@, value@),
            final(self).id() == old(self).id(),
            final(self).identity.public_key@ == old(self).identity.public_key@,
    {
        self.store.put(key, value);
    }

    /// Retrieve a value: the one the store currently maps `key` to, or
    /// absence exactly when `key` is not present. Never fails.
    pub fn retrieve_data(&self, key: &str) -> (r: Option<String>)
        requires
            self.wf(),
        ensures
            match r {
                Some(v) => self.store_view().contains_key(key@) && v@ == self.store_view()[key@],
                None => !self.store_view().contains_key(key@),
            },
    {
        self.store.get(key)
    }

    /// Build the notification body for a message: the JSON object carrying
    /// this agent's id and the message, as UTF-8 bytes.
    pub fn notify_payload(&self, message: &str) -> (r: Vec<u8>)
        ensures
            r@ == payload_bytes(self.id(), message@),
    {
        build_payload(self.identity.id.as_str(), message)
    }

    /// Interpret one notification attempt: the remote body on a success
    /// response, otherwise a `NotifyError` wrapping the transport failure of
    /// the kind observed. The agent makes a single attempt and never
    /// retries; the caller decides what to do with a failure.
    pub fn notify_response(outcome: SendOutcome) -> (r: Result<String, NotifyError>)
        ensures
            match r {
                Ok(body) => send_verdict(outcome) == Ok::<Seq<char>, TransportError>(body@),
                Err(e) => send_verdict(outcome) == Err::<Seq<char>, TransportError>(e.cause),
            },
    {
        match classify_outcome(outcome) {
            Ok(body) => Ok(body),
            Err(cause) => Err(NotifyError { cause }),
        }
    }
}

} // verus!
