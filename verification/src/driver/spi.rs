//! A serial bus shared by many callers.

use vstd::prelude::*;
use crate::actor::ActorContext;
use crate::address::Address;
use crate::arbitrator::{Arbitrator, Event};
use crate::handler::{Actor, RequestHandler, Response};

verus! {

/// Why a transfer failed.
#[derive(Debug, Copy, Clone, PartialEq, Eq, Structural)]
pub enum SpiError {
    /// A word arrived before the last one was read.
    Overrun,
    /// Another master drove the bus.
    ModeFault,
    /// The checksum of the received words did not match.
    Crc,
    /// The peripheral reported a failure of another kind.
    Unknown,
}

/// One transaction: the words to send, in the buffer that takes the words
/// received in exchange.
pub struct SpiTransfer<'a, W>(pub &'a mut [W]);

/// An actor that performs one bus transaction at a time.
pub trait SpiBus: Sized {
    type Word;

    /// Sends the words of `transfer` and leaves the words received in
    /// exchange in their place. The answer is the failure that the peripheral
    /// reported, if any.
    fn transfer(self, transfer: SpiTransfer<'_, Self::Word>) -> Response<
        Self,
        Result<(), SpiError>,
    >;
}

impl<'a, B: SpiBus> RequestHandler<SpiTransfer<'a, B::Word>> for B {
    type Response = Result<(), SpiError>;

    open spec fn accepts_request(&self, message: &SpiTransfer<'a, B::Word>) -> bool {
        call_requires(B::transfer, (*self, *message))
    }

    fn on_request(self, message: SpiTransfer<'a, B::Word>) -> (response: Response<
        Self,
        Result<(), SpiError>,
    >)
        ensures
            call_ensures(B::transfer, (self, message), response),
    {
        self.transfer(message)
    }
}

/// A bus controller together with the arbitrator that guards it. Callers
/// reach the bus through the arbitrator, which is the primary actor of the
/// two.
pub struct Spi<'a, C: SpiBus> {
    pub arbitrator: ActorContext<Arbitrator<C, SpiTransfer<'a, C::Word>>>,
    pub controller: ActorContext<C>,
}

impl<'a, C: SpiBus> Spi<'a, C> {
    /// Puts `controller` under the identity `controller_id`, and an
    /// arbitrator with nothing taken under the identity `arbitrator_id`.
    /// Neither is mounted yet.
    pub fn new(arbitrator_id: usize, controller_id: usize, controller: C) -> (spi: Self)
        ensures
            spi.controller.wf(),
            spi.controller.id() == controller_id,
            spi.controller.actor() == controller,
            !spi.controller.pending(),
            spi.arbitrator.wf(),
            spi.arbitrator.id() == arbitrator_id,
            !spi.arbitrator.pending(),
            spi.arbitrator.actor().wf(),
            spi.arbitrator.actor().controller() is None,
            spi.arbitrator.actor().submitted() == Seq::<SpiTransfer<'a, C::Word>>::empty(),
            spi.arbitrator.actor().log() == Seq::<Event>::empty(),
    {
        Spi {
            arbitrator: ActorContext::new(arbitrator_id, Arbitrator::new()),
            controller: ActorContext::new(controller_id, controller),
        }
    }

    /// Mounts the controller, then the arbitrator with the controller's
    /// address. The result is the address of the arbitrator.
    pub fn mount(&mut self) -> (primary: Address<Arbitrator<C, SpiTransfer<'a, C::Word>>>) where
        C: Actor<Configuration = ()>,

        requires
            old(self).controller.wf(),
            old(self).arbitrator.wf(),
        ensures
            final(self).controller.wf(),
            final(self).controller.id() == old(self).controller.id(),
            final(self).controller.pending() == old(self).controller.pending(),
            final(self).arbitrator.wf(),
            final(self).arbitrator.id() == old(self).arbitrator.id(),
            final(self).arbitrator.pending() == old(self).arbitrator.pending(),
            primary.context() == old(self).arbitrator.id(),
            final(self).arbitrator.actor().controller() is Some,
            final(self).arbitrator.actor().controller()->0.context() == old(self).controller.id(),
            final(self).arbitrator.actor().submitted() == old(self).arbitrator.actor().submitted(),
            final(self).arbitrator.actor().log() == old(self).arbitrator.actor().log(),
            old(self).arbitrator.actor().wf() ==> final(self).arbitrator.actor().wf(),
    {
        let controller = self.controller.mount(());
        self.arbitrator.mount(controller)
    }

    /// The address of the arbitrator.
    pub fn primary(&self) -> (primary: Address<Arbitrator<C, SpiTransfer<'a, C::Word>>>)
        ensures
            primary.context() == self.arbitrator.id(),
    {
        self.arbitrator.address()
    }
}

} // verus!
