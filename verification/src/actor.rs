//! The holder of one actor, and the dispatch of messages to it.

use vstd::prelude::*;
use crate::address::{Address, Binding, Notification, Request};
use crate::handler::{Actor, Bind, Completion, NotificationHandler, RequestHandler, Response};

verus! {

/// Owns one actor for the life of the system.
///
/// The actor is moved out of the context for the length of a handler call and
/// moved back in when the handler returns it, so at any time exactly one
/// place holds the actor. A handler that defers leaves the context pending:
/// the actor is back, but takes no message until it is resumed.
pub struct ActorContext<A> {
    id: usize,
    actor: Option<A>,
    pending: bool,
}

impl<A> ActorContext<A> {
    /// The identity under which the actor is addressed.
    pub closed spec fn id(&self) -> usize {
        self.id
    }

    /// The actor as it stands between two messages.
    pub closed spec fn actor(&self) -> A
        recommends
            self.wf(),
    {
        self.actor->0
    }

    /// Whether the actor waits for an operation that a handler has deferred.
    pub closed spec fn pending(&self) -> bool {
        self.pending
    }

    /// The completion that left the actor as it stands: deferred if the
    /// actor is pending, immediate otherwise.
    pub open spec fn completion(&self) -> Completion<A> {
        if self.pending() {
            Completion::Deferred(self.actor())
        } else {
            Completion::Immediate(self.actor())
        }
    }

    /// The context holds its actor.
    pub closed spec fn wf(&self) -> bool {
        self.actor is Some
    }

    /// Puts `actor` under the identity `id`, ready for its first message.
    pub fn new(id: usize, actor: A) -> (context: Self)
        ensures
            context.wf(),
            context.id() == id,
            context.actor() == actor,
            !context.pending(),
    {
        ActorContext { id, actor: Some(actor), pending: false }
    }

    /// The identity under which the actor is addressed.
    pub fn identity(&self) -> (id: usize)
        ensures
            id == self.id(),
    {
        self.id
    }

    /// The address of the actor.
    pub fn address(&self) -> (address: Address<A>)
        ensures
            address.context() == self.id(),
    {
        Address::new(self)
    }

    /// Whether the actor can take a message now.
    pub fn is_idle(&self) -> (idle: bool)
        ensures
            idle == !self.pending(),
    {
        !self.pending
    }

    /// The actor, to look at between two messages.
    pub fn get(&self) -> (actor: &A)
        requires
            self.wf(),
        ensures
            *actor == self.actor(),
    {
        self.actor.as_ref().unwrap()
    }

    /// The actor, for what reaches it outside of any message, such as an
    /// interrupt: its context and its standing stay as they are.
    pub fn get_mut(&mut self) -> (actor: &mut A)
        requires
            old(self).wf(),
        ensures
            *actor == old(self).actor(),
            final(self).wf(),
            final(self).actor() == *final(actor),
            final(self).id() == old(self).id(),
            final(self).pending() == old(self).pending(),
    {
        self.actor.as_mut().unwrap()
    }

    /// Marks the operation that a handler deferred as finished: the actor
    /// takes messages again.
    pub fn resume(&mut self)
        requires
            old(self).wf(),
        ensures
            final(self).wf(),
            final(self).id() == old(self).id(),
            final(self).actor() == old(self).actor(),
            !final(self).pending(),
    {
        self.pending = false;
    }

    fn settle(&mut self, completion: Completion<A>)
        ensures
            final(self).wf(),
            final(self).id() == old(self).id(),
            final(self).completion() == completion,
    {
        match completion {
            Completion::Immediate(actor) => {
                self.actor = Some(actor);
                self.pending = false;
            },
            Completion::Deferred(actor) => {
                self.actor = Some(actor);
                self.pending = true;
            },
        }
    }

    /// Mounts the actor: it is told its own address and the collaborators in
    /// `config`. The result is the address under which it is reached from
    /// now on.
    pub fn mount(&mut self, config: A::Configuration) -> (address: Address<A>) where A: Actor
        requires
            old(self).wf(),
        ensures
            final(self).wf(),
            final(self).id() == old(self).id(),
            final(self).pending() == old(self).pending(),
            address.context() == old(self).id(),
            call_ensures(A::on_mount, (old(self).actor(), address, config), final(self).actor()),
    {
        let address = Address::new(self);
        let actor = self.actor.take().unwrap();
        self.actor = Some(actor.on_mount(address, config));
        address
    }

    /// Starts the mounted actor and keeps it as it returns itself. The
    /// result is what the actor sends on.
    pub fn start(&mut self) -> (startup: A::Startup) where A: Actor
        requires
            old(self).wf(),
            !old(self).pending(),
            old(self).actor().startable(),
        ensures
            final(self).wf(),
            final(self).id() == old(self).id(),
            call_ensures(A::on_start, (old(self).actor(),), (final(self).completion(), startup)),
    {
        let actor = self.actor.take().unwrap();
        let (completion, startup) = actor.on_start();
        self.settle(completion);
        startup
    }

    /// Wires the actor to the collaborator named in `binding`.
    pub fn bind<OA>(&mut self, binding: Binding<A, OA>) where A: Bind<OA>
        requires
            old(self).wf(),
            binding.destination.context() == old(self).id(),
        ensures
            final(self).wf(),
            final(self).id() == old(self).id(),
            final(self).pending() == old(self).pending(),
            call_ensures(A::on_bind, (old(self).actor(), binding.peer), final(self).actor()),
    {
        let actor = self.actor.take().unwrap();
        self.actor = Some(actor.on_bind(binding.peer));
    }

    /// Hands the message of `notification` to the actor's handler and keeps
    /// the actor as the handler returns it. The result is what the handler
    /// sends on.
    pub fn notify<M>(&mut self, notification: Notification<A, M>) -> (outbox: A::Outbox) where
        A: NotificationHandler<M>,

        requires
            old(self).wf(),
            !old(self).pending(),
            notification.destination.context() == old(self).id(),
            old(self).actor().accepts_notification(&notification.message),
        ensures
            final(self).wf(),
            final(self).id() == old(self).id(),
            call_ensures(
                A::on_notification,
                (old(self).actor(), notification.message),
                (final(self).completion(), outbox),
            ),
    {
        let actor = self.actor.take().unwrap();
        let (completion, outbox) = actor.on_notification(notification.message);
        self.settle(completion);
        outbox
    }

    /// Hands the message of `request` to the actor's handler, keeps the actor
    /// as the handler returns it, and returns the handler's answer.
    pub fn request<M>(&mut self, request: Request<A, M>) -> (value: A::Response) where
        A: RequestHandler<M>,

        requires
            old(self).wf(),
            !old(self).pending(),
            request.destination.context() == old(self).id(),
            old(self).actor().accepts_request(&request.message),
        ensures
            final(self).wf(),
            final(self).id() == old(self).id(),
            call_ensures(
                A::on_request,
                (old(self).actor(), request.message),
                Response { completion: final(self).completion(), value },
            ),
    {
        let actor = self.actor.take().unwrap();
        let response = actor.on_request(request.message);
        self.settle(response.completion);
        response.value
    }
}

} // verus!
