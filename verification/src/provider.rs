//! The control surface and the entry points of the provider.
//!
//! One `SqsProvider` value stands for the process-wide provider state. The
//! host's link-up, link-down and shutdown notifications mutate the link
//! registry here; `publish` and `request` start the routing state machines
//! that the embedding process then drives against the backend.

use vstd::prelude::*;

use crate::backend;
use crate::config::{EnvSettings, LinkSettings, resolve_settings};
use crate::errors::MessagingError;
use crate::messages::{PubMessage, RequestMessage};
use crate::registry::LinkRegistry;
use crate::router::{
    PublishState, RequestState, publish_start_spec, request_start_spec,
};

verus! {

/// The provider: one backend connection per linked actor.
pub struct SqsProvider {
    links: LinkRegistry,
}

impl View for SqsProvider {
    type V = Map<Seq<char>, aws_sdk_sqs::Client>;

    closed spec fn view(&self) -> Map<Seq<char>, aws_sdk_sqs::Client> {
        self.links@
    }
}

impl SqsProvider {
    /// The registry invariant: at most one connection per actor.
    pub closed spec fn wf(&self) -> bool {
        self.links.wf()
    }

    /// A provider with no links.
    pub fn new() -> (p: Self)
        ensures
            p.wf(),
            p@ == Map::<Seq<char>, aws_sdk_sqs::Client>::empty(),
    {
        SqsProvider { links: LinkRegistry::new() }
    }

    /// Link-up: builds a connection from the link's settings (falling back
    /// to the environment, per the documented precedence rule) and stores it
    /// under the host-supplied actor identifier, replacing any prior entry
    /// for the same actor. The link is always accepted.
    pub fn on_link_up(
        &mut self,
        actor_id: String,
        link: &LinkSettings,
        env: &EnvSettings,
    ) -> (r: Result<bool, MessagingError>)
        requires
            old(self).wf(),
        ensures
            final(self).wf(),
            r == Ok::<bool, MessagingError>(true),
            final(self)@.contains_key(actor_id@),
            exists|c: aws_sdk_sqs::Client| final(self)@ == old(self)@.insert(actor_id@, c),
    {
        let settings = resolve_settings(link, env);
        let client = backend::make_client(
            settings.region,
            settings.access_key_id,
            settings.secret_access_key,
        );
        self.links.put(actor_id, client);
        proof {
            assert(self.links@ == old(self)@.insert(actor_id@, client));
        }
        Ok(true)
    }

    /// Link-down: removes the actor's connection; a no-op when the actor was
    /// not linked. Reports whether a connection existed.
    pub fn on_link_down(&mut self, actor_id: &String) -> (removed: bool)
        requires
            old(self).wf(),
        ensures
            final(self).wf(),
            final(self)@ == old(self)@.remove(actor_id@),
            removed == old(self)@.contains_key(actor_id@),
    {
        self.links.remove(actor_id)
    }

    /// Shutdown: drops every connection. Cannot fail.
    pub fn on_shutdown(&mut self)
        ensures
            final(self).wf(),
            final(self)@ == Map::<Seq<char>, aws_sdk_sqs::Client>::empty(),
    {
        self.links.clear()
    }

    /// A copy of the connection handle for `actor_id`, if one is linked.
    pub fn get(&self, actor_id: &String) -> (r: Option<aws_sdk_sqs::Client>)
        requires
            self.wf(),
        ensures
            match r {
                Some(c) => self@.contains_key(actor_id@) && c == self@[actor_id@],
                None => !self@.contains_key(actor_id@),
            },
    {
        self.links.get(actor_id)
    }

    /// Starts a publish operation: looks the actor's connection up and hands
    /// back the state the embedding process must drive. A missing connection
    /// ends the operation at once with `NoConnection`.
    pub fn publish(&self, actor_id: String, msg: PubMessage) -> (s: PublishState)
        requires
            self.wf(),
        ensures
            s == publish_start_spec(self@, actor_id, msg),
    {
        match self.links.get(&actor_id) {
            Some(client) => PublishState::ListingQueues { actor_id, client, body: msg.body },
            None => PublishState::Done {
                result: Err(MessagingError::NoConnection { actor_id }),
            },
        }
    }

    /// Starts a request operation. The message plays no further part: the
    /// receive is a blind poll, so nothing of the request addresses the
    /// queue.
    pub fn request(&self, actor_id: String, _msg: RequestMessage) -> (s: RequestState)
        requires
            self.wf(),
        ensures
            s == request_start_spec(self@, actor_id),
    {
        match self.links.get(&actor_id) {
            Some(client) => RequestState::ListingQueues { actor_id, client },
            None => RequestState::Done {
                result: Err(MessagingError::NoConnection { actor_id }),
            },
        }
    }
}

/// Link lifecycle: linking an actor and then dropping that link leaves no
/// entry for the actor, and a publish started afterwards fails with
/// `NoConnection` — whatever the registry held before.
pub proof fn lemma_link_lifecycle(
    links: Map<Seq<char>, aws_sdk_sqs::Client>,
    actor_id: String,
    client: aws_sdk_sqs::Client,
    msg: PubMessage,
)
    ensures
        !links.insert(actor_id@, client).remove(actor_id@).contains_key(actor_id@),
        publish_start_spec(links.insert(actor_id@, client).remove(actor_id@), actor_id, msg)
            == (PublishState::Done { result: Err(MessagingError::NoConnection { actor_id }) }),
{
}

/// Shutdown clears all: the empty mapping that `on_shutdown` leaves behind
/// has no entry for any actor, so every later lookup is absent and every
/// operation started afterwards fails with `NoConnection`.
pub proof fn lemma_shutdown_clears_all(actor_id: String, msg: PubMessage)
    ensures
        !Map::<Seq<char>, aws_sdk_sqs::Client>::empty().contains_key(actor_id@),
        publish_start_spec(Map::empty(), actor_id, msg) == (PublishState::Done {
            result: Err(MessagingError::NoConnection { actor_id }),
        }),
        request_start_spec(Map::empty(), actor_id) == (RequestState::Done {
            result: Err(MessagingError::NoConnection { actor_id }),
        }),
{
}

} // verus!
