//! Which of the relay's services a MoQ session gets to use.
//!
//! Every session of a relay shares one registry of local tracks. What differs
//! from session to session is who else it may reach: the other relays of the
//! cluster, the API that keeps track of them, and the relay that announces are
//! forwarded to.

use vstd::prelude::*;
use crate::handles::Handles;

verus! {

/// The services that a relay has to share with its sessions.
#[derive(Clone, Copy)]
pub struct Services<H: Handles> {
    /// The registry of local tracks.
    pub locals: H::Locals,
    /// The other relays of the cluster, to fetch tracks from.
    pub remotes: Option<H::Remotes>,
    /// The cluster's API, to register announces with.
    pub api: Option<H::Api>,
    /// Another relay, to forward announces to.
    pub forward: Option<H::Forward>,
}

/// The side of a session that serves tracks to the peer.
#[derive(Clone, Copy)]
pub struct ProducerRole<H: Handles> {
    /// Where the tracks are looked for first.
    pub locals: H::Locals,
    /// Where tracks that are not local are looked for.
    pub remotes: Option<H::Remotes>,
}

/// The side of a session that takes the peer's announces.
#[derive(Clone, Copy)]
pub struct ConsumerRole<H: Handles> {
    /// Where announces are entered.
    pub locals: H::Locals,
    /// Where announces are registered.
    pub api: Option<H::Api>,
    /// Where announces are forwarded to.
    pub forward: Option<H::Forward>,
}

/// What a relay does on one MoQ session.
#[derive(Clone, Copy)]
pub struct SessionRoles<H: Handles> {
    pub producer: Option<ProducerRole<H>>,
    pub consumer: Option<ConsumerRole<H>>,
}

/// The two directions that a peer offers when a MoQ session is set up.
#[derive(Clone, Copy, PartialEq, Eq, Debug, Structural)]
pub struct Offer {
    /// The peer takes tracks from us.
    pub publisher: bool,
    /// The peer announces tracks to us.
    pub subscriber: bool,
}

impl<H: Handles> SessionRoles<H> {
    /// Whether what the peer announces leaves this relay by another way.
    pub open spec fn passes_announces_on(self) -> bool {
        self.consumer matches Some(consumer) && (consumer.api is Some || consumer.forward is Some)
    }

    /// Whether the session serves tracks from this registry, and enters announces in
    /// it, and uses no other.
    pub open spec fn works_on(self, locals: H::Locals) -> bool {
        &&& self.producer matches Some(producer) ==> producer.locals == locals
        &&& self.consumer matches Some(consumer) ==> consumer.locals == locals
    }
}

impl<H: Handles> Services<H> {
    /// The registry and nothing else: a relay on its own.
    pub open spec fn local_only(locals: H::Locals) -> Services<H> {
        Services { locals, remotes: None, api: None, forward: None }
    }

    /// The roles on a session with a client: each direction that the client
    /// offers, with every service that the relay has.
    pub open spec fn for_client(self, offer: Offer) -> SessionRoles<H> {
        SessionRoles {
            producer: if offer.publisher {
                Some(ProducerRole { locals: self.locals, remotes: self.remotes })
            } else {
                None
            },
            consumer: if offer.subscriber {
                Some(ConsumerRole { locals: self.locals, api: self.api, forward: self.forward })
            } else {
                None
            },
        }
    }

    /// The roles on a session with a relay that this one connected to: both
    /// directions, where announces are neither registered nor forwarded.
    pub open spec fn for_relay(self) -> SessionRoles<H> {
        SessionRoles {
            producer: Some(ProducerRole { locals: self.locals, remotes: self.remotes }),
            consumer: Some(ConsumerRole { locals: self.locals, api: None, forward: None }),
        }
    }

    /// The registry and nothing else: a relay on its own.
    pub fn alone(locals: H::Locals) -> (services: Services<H>)
        ensures
            services == Self::local_only(locals),
    {
        Services { locals, remotes: None, api: None, forward: None }
    }

    /// The roles on a session with a client that makes this offer.
    pub fn client_roles(&self, offer: Offer) -> (roles: SessionRoles<H>)
        ensures
            roles == self.for_client(offer),
    {
        SessionRoles {
            producer: if offer.publisher {
                Some(ProducerRole { locals: self.locals, remotes: self.remotes })
            } else {
                None
            },
            consumer: if offer.subscriber {
                Some(ConsumerRole { locals: self.locals, api: self.api, forward: self.forward })
            } else {
                None
            },
        }
    }

    /// The roles on a session with a relay that this one connected to.
    pub fn relay_roles(&self) -> (roles: SessionRoles<H>)
        ensures
            roles == self.for_relay(),
    {
        SessionRoles {
            producer: Some(ProducerRole { locals: self.locals, remotes: self.remotes }),
            consumer: Some(ConsumerRole { locals: self.locals, api: None, forward: None }),
        }
    }
}

/// What another relay announces is served to our clients and goes no further,
/// whatever services there are: two relays that connect to each other do not
/// send an announce round in circles.
pub proof fn law_relay_announces_stay<H: Handles>(services: Services<H>)
    ensures
        !services.for_relay().passes_announces_on(),
{
}

/// Sessions that have their services from one relay share its registry, in both
/// directions, whoever is at the other end: what one peer announces, the others find.
pub proof fn law_sessions_share_the_registry<H: Handles>(services: Services<H>, offer: Offer)
    ensures
        services.for_client(offer).works_on(services.locals),
        services.for_relay().works_on(services.locals),
{
}

/// A client's session gets every service that the relay has, each independently of the
/// others. It serves tracks exactly when the client takes them, and takes announces exactly
/// when the client makes them.
pub proof fn law_client_gets_every_service<H: Handles>(services: Services<H>, offer: Offer)
    ensures
        services.for_client(offer).producer is Some <==> offer.publisher,
        services.for_client(offer).consumer is Some <==> offer.subscriber,
        services.for_client(offer).producer matches Some(producer) ==> {
            &&& producer.locals == services.locals
            &&& producer.remotes == services.remotes
        },
        services.for_client(offer).consumer matches Some(consumer) ==> {
            &&& consumer.locals == services.locals
            &&& consumer.api == services.api
            &&& consumer.forward == services.forward
        },
{
}

/// The two directions of a client's session do not depend on each other.
pub proof fn law_directions_are_independent<H: Handles>(
    services: Services<H>,
    one: Offer,
    other: Offer,
)
    ensures
        one.publisher == other.publisher ==> services.for_client(one).producer
            == services.for_client(other).producer,
        one.subscriber == other.subscriber ==> services.for_client(one).consumer
            == services.for_client(other).consumer,
{
}

/// A session with another relay always has both directions. It serves all that a client
/// would be served, and takes announces for the registry alone.
pub proof fn law_relay_session_has_both_directions<H: Handles>(services: Services<H>)
    ensures
        services.for_relay().producer matches Some(producer) && {
            &&& producer.locals == services.locals
            &&& producer.remotes == services.remotes
        },
        services.for_relay().consumer matches Some(consumer) && {
            &&& consumer.locals == services.locals
            &&& consumer.api is None
            &&& consumer.forward is None
        },
{
}

/// A relay on its own has its registry and no other service.
pub proof fn law_relay_on_its_own<H: Handles>(locals: H::Locals)
    ensures
        Services::<H>::local_only(locals).locals == locals,
        Services::<H>::local_only(locals).remotes is None,
        Services::<H>::local_only(locals).api is None,
        Services::<H>::local_only(locals).forward is None,
{
}

/// What it means that announces are passed on, and that a session works on a registry.
pub proof fn law_reach_of_a_session<H: Handles>(roles: SessionRoles<H>, locals: H::Locals)
    ensures
        roles.consumer is None ==> !roles.passes_announces_on(),
        roles.consumer matches Some(consumer) ==> (roles.passes_announces_on() <==> !(
        consumer.api is None && consumer.forward is None)),
        roles.works_on(locals) <==> !(roles.producer is Some && roles.producer->Some_0.locals
            != locals) && !(roles.consumer is Some && roles.consumer->Some_0.locals != locals),
{
}

} // verus!
