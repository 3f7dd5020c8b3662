//! Addresses, and the messages that are sent through them.

use vstd::prelude::*;
use core::marker::PhantomData;
use crate::actor::ActorContext;
use crate::handler::{Bind, NotificationHandler, RequestHandler};

verus! {

/// A capability to send messages to one mounted actor of type `A`.
///
/// An address is nothing but the identity of the actor's context. It can be
/// copied freely and never keeps the context alive.
pub struct Address<A> {
    context: usize,
    actor: PhantomData<A>,
}

impl<A> Clone for Address<A> {
    fn clone(&self) -> (copy: Self)
        ensures
            copy == *self,
    {
        Address { context: self.context, actor: PhantomData }
    }
}

impl<A> Copy for Address<A> {}

/// A fire-and-forget message on its way to the actor at `destination`.
pub struct Notification<A, M> {
    pub destination: Address<A>,
    pub message: M,
}

/// A message on its way to the actor at `destination`, whose sender waits for
/// the answer.
pub struct Request<A, M> {
    pub destination: Address<A>,
    pub message: M,
}

/// The instruction to the actor at `destination` to take `peer` as a collaborator.
pub struct Binding<A, OA> {
    pub destination: Address<A>,
    pub peer: Address<OA>,
}

impl<A> Address<A> {
    /// The identity of the context that the address refers to.
    pub closed spec fn context(&self) -> usize {
        self.context
    }

    /// The address of the actor that `actor` holds.
    pub fn new(actor: &ActorContext<A>) -> (address: Self)
        ensures
            address.context() == actor.id(),
    {
        Address { context: actor.identity(), actor: PhantomData }
    }

    /// The identity of the context that the address refers to.
    pub fn identity(&self) -> (id: usize)
        ensures
            id == self.context(),
    {
        self.context
    }

    /// Wires the actor to the collaborator at `address`.
    pub fn bind<OA>(&self, address: &Address<OA>) -> (binding: Binding<A, OA>) where A: Bind<OA>
        ensures
            binding == (Binding { destination: *self, peer: *address }),
    {
        Binding { destination: *self, peer: *address }
    }

    /// Sends `message` without waiting for anything.
    pub fn notify<M>(&self, message: M) -> (notification: Notification<A, M>) where
        A: NotificationHandler<M>,

        ensures
            notification == (Notification { destination: *self, message }),
    {
        Notification { destination: *self, message }
    }

    /// Sends `message` to be answered.
    pub fn request<M>(&self, message: M) -> (request: Request<A, M>) where A: RequestHandler<M>
        ensures
            request == (Request { destination: *self, message }),
    {
        Request { destination: *self, message }
    }
}

} // verus!
