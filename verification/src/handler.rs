//! What an actor implements to receive messages.
//!
//! A handler takes the actor by value and returns it inside a
//! [`Completion`]: while the handler runs nobody else can reach the actor's
//! state, and nothing has to be locked.

use vstd::prelude::*;
use crate::address::Address;

verus! {

/// The actor as a handler hands it back.
pub enum Completion<A> {
    /// The actor is ready for its next message.
    Immediate(A),
    /// The actor still waits for an operation it started; its context holds it
    /// back from further messages until it is resumed.
    Deferred(A),
}

impl<A> Completion<A> {
    /// The actor inside the completion.
    pub open spec fn actor(self) -> A {
        match self {
            Completion::Immediate(actor) => actor,
            Completion::Deferred(actor) => actor,
        }
    }

    /// Hands `actor` back, ready for its next message.
    pub fn immediate(actor: A) -> (completion: Self)
        ensures
            completion == Completion::Immediate(actor),
    {
        Completion::Immediate(actor)
    }

    /// Hands `actor` back while an operation it started is still under way.
    pub fn deferred(actor: A) -> (completion: Self)
        ensures
            completion == Completion::Deferred(actor),
    {
        Completion::Deferred(actor)
    }
}

/// The actor and the value it answers a request with.
pub struct Response<A, R> {
    pub completion: Completion<A>,
    pub value: R,
}

impl<A, R> Response<A, R> {
    /// Answers with `value`; the actor is ready for its next message.
    pub fn immediate(actor: A, value: R) -> (response: Self)
        ensures
            response == (Response { completion: Completion::Immediate(actor), value }),
    {
        Response { completion: Completion::Immediate(actor), value }
    }

    /// Answers with `value` while the actor finishes an operation it started.
    pub fn deferred(actor: A, value: R) -> (response: Self)
        ensures
            response == (Response { completion: Completion::Deferred(actor), value }),
    {
        Response { completion: Completion::Deferred(actor), value }
    }
}

/// The stations in the life of an actor, of which the runtime notifies it.
#[derive(Clone, Copy, Debug, PartialEq, Eq, Structural)]
pub enum Lifecycle {
    Initialize,
    Start,
    Stop,
    Sleep,
    Hibernate,
}

/// What every mounted actor goes through before its first message.
pub trait Actor: Sized {
    /// The addresses of the collaborators that the actor is wired with.
    type Configuration;

    /// What the actor sends on when it starts. Whoever started it routes it.
    type Startup;

    /// Whether the actor is in a state to start. An actor that says nothing
    /// can always start.
    open spec fn startable(&self) -> bool {
        true
    }

    /// Tells the actor its own address and its collaborators.
    fn on_mount(self, address: Address<Self>, config: Self::Configuration) -> (mounted: Self);

    /// Lets the actor begin its work.
    fn on_start(self) -> (started: (Completion<Self>, Self::Startup))
        requires
            self.startable(),
    ;
}

/// Handling of fire-and-forget messages of type `M`.
pub trait NotificationHandler<M>: Sized {
    /// What the handler sends on to other actors. Whoever dispatched the
    /// notification routes it.
    type Outbox;

    /// Whether the actor is in a state to take `message`. An actor that
    /// says nothing takes every message.
    open spec fn accepts_notification(&self, message: &M) -> bool {
        true
    }

    fn on_notification(self, message: M) -> (handled: (Completion<Self>, Self::Outbox))
        requires
            self.accepts_notification(&message),
    ;
}

/// Handling of messages of type `M` that are answered with a value.
pub trait RequestHandler<M>: Sized {
    /// The answer that the requester waits for.
    type Response;

    /// Whether the actor is in a state to take `message`. An actor that
    /// says nothing takes every message.
    open spec fn accepts_request(&self, message: &M) -> bool {
        true
    }

    fn on_request(self, message: M) -> (response: Response<Self, Self::Response>)
        requires
            self.accepts_request(&message),
    ;
}

/// Wiring of an actor to a collaborator of type `OA` when the system is set up.
pub trait Bind<OA>: Sized {
    fn on_bind(self, address: Address<OA>) -> (bound: Self);
}

} // verus!
