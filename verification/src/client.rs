//! A MoQ session with one client, from the transport session to its end.

use vstd::prelude::*;
use crate::handles::Handles;
use crate::roles::{Offer, Services, SessionRoles};

verus! {

/// How far a client has come.
#[derive(Clone, Copy, PartialEq, Eq, Debug, Structural)]
pub enum ClientStage {
    /// The MoQ session is being set up.
    Negotiating,
    /// The MoQ session runs.
    Running,
    /// The client is gone.
    Closed,
}

/// A client and the services that it may use.
#[derive(Clone, Copy)]
pub struct Client<H: Handles> {
    pub services: Services<H>,
    pub stage: ClientStage,
}

/// What happened to a client. An error is given by its text.
#[derive(Debug)]
pub enum ClientEvent {
    /// The set-up of the MoQ session ended.
    Negotiated(Result<Offer, String>),
    /// The MoQ session ended.
    Ended(Result<(), String>),
}

/// What to do next for a client.
#[derive(Clone, Copy)]
pub enum ClientAction<H: Handles> {
    /// Set up a MoQ session.
    Negotiate,
    /// Run the MoQ session in these roles.
    Run(SessionRoles<H>),
    /// Nothing is left to do.
    Close,
}

impl<H: Handles> Client<H> {
    /// A client whose transport session has just been established.
    pub open spec fn at_start(services: Services<H>) -> Client<H> {
        Client { services, stage: ClientStage::Negotiating }
    }

    /// Whether this can happen to the client now.
    pub open spec fn expects(self, event: ClientEvent) -> bool {
        match event {
            ClientEvent::Negotiated(_) => self.stage == ClientStage::Negotiating,
            ClientEvent::Ended(_) => self.stage == ClientStage::Running,
        }
    }

    /// What becomes of the client, and what to do.
    pub open spec fn after(self, event: ClientEvent) -> (Client<H>, ClientAction<H>) {
        match event {
            ClientEvent::Negotiated(Ok(offer)) => (
                Client { services: self.services, stage: ClientStage::Running },
                ClientAction::Run(self.services.for_client(offer)),
            ),
            _ => (
                Client { services: self.services, stage: ClientStage::Closed },
                ClientAction::Close,
            ),
        }
    }

    /// A client whose transport session has just been established: the MoQ session
    /// comes next.
    pub fn new(services: Services<H>) -> (res: (Client<H>, ClientAction<H>))
        ensures
            res == (Self::at_start(services), ClientAction::<H>::Negotiate),
    {
        (Client { services, stage: ClientStage::Negotiating }, ClientAction::Negotiate)
    }

    /// Takes in what happened. A MoQ session that cannot be set up, or that fails,
    /// closes this client and concerns nobody else.
    pub fn step(self, event: ClientEvent) -> (res: (Client<H>, ClientAction<H>))
        requires
            self.expects(event),
        ensures
            res == self.after(event),
    {
        match event {
            ClientEvent::Negotiated(Ok(offer)) => (
                Client { services: self.services, stage: ClientStage::Running },
                ClientAction::Run(self.services.client_roles(offer)),
            ),
            _ => (
                Client { services: self.services, stage: ClientStage::Closed },
                ClientAction::Close,
            ),
        }
    }
}

/// A client is negotiated with once, and then runs, in the roles that its own offer gives
/// it with the services that it came with. Anything else, and above all any failure,
/// closes it.
pub proof fn law_client_runs_as_offered<H: Handles>(client: Client<H>, event: ClientEvent)
    requires
        client.expects(event),
    ensures
        client.after(event).0.services == client.services,
        event matches ClientEvent::Negotiated(Ok(offer)) ==> {
            &&& client.after(event).0.stage == ClientStage::Running
            &&& client.after(event).1 matches ClientAction::Run(roles)
            &&& roles.producer is Some <==> offer.publisher
            &&& roles.consumer is Some <==> offer.subscriber
            &&& roles.producer matches Some(producer) ==> producer.locals == client.services.locals
                && producer.remotes == client.services.remotes
            &&& roles.consumer matches Some(consumer) ==> consumer.locals == client.services.locals
                && consumer.api == client.services.api && consumer.forward
                == client.services.forward
        },
        event matches ClientEvent::Negotiated(Err(_)) ==> client.after(event).0.stage
            == ClientStage::Closed && client.after(event).1 is Close,
        event is Ended ==> client.after(event).0.stage == ClientStage::Closed && client.after(
            event,
        ).1 is Close,
{
}

/// What can happen to a client at each stage: the set-up ends while it is negotiated with,
/// the session ends while it runs, and nothing happens to one that is gone.
pub proof fn law_client_stages<H: Handles>(
    services: Services<H>,
    client: Client<H>,
    event: ClientEvent,
)
    ensures
        Client::at_start(services).services == services,
        Client::at_start(services).stage == ClientStage::Negotiating,
        client.stage == ClientStage::Negotiating ==> (client.expects(event) <==> event is Negotiated),
        client.stage == ClientStage::Running ==> (client.expects(event) <==> event is Ended),
        client.stage == ClientStage::Closed ==> !client.expects(event),
{
}

} // verus!
