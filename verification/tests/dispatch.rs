use actor_runtime::actor::ActorContext;
use actor_runtime::address::Address;
use actor_runtime::driver::spi::{Spi, SpiBus, SpiError, SpiTransfer};
use actor_runtime::driver::timer::{Delay, NoCapacity, ScheduleDeadline, Timer};
use actor_runtime::hal::timer::SimulatedTimer;
use actor_runtime::arbitrator::Responded;
use actor_runtime::handler::{
    Actor, Bind, Completion, NotificationHandler, RequestHandler, Response,
};
use actor_runtime::time::Milliseconds;

struct Peer;

/// A bus that answers each transfer with its words reversed, fails on an
/// empty transfer, and defers after a transfer of one word.
struct Mirror {
    transfers: u32,
    peer: Option<Address<Peer>>,
}

impl SpiBus for Mirror {
    type Word = u8;

    fn transfer(mut self, transfer: SpiTransfer<'_, u8>) -> Response<Self, Result<(), SpiError>> {
        self.transfers += 1;
        let words = transfer.0;
        if words.is_empty() {
            return Response::immediate(self, Err(SpiError::Overrun));
        }
        words.reverse();
        if words.len() == 1 {
            Response::deferred(self, Ok(()))
        } else {
            Response::immediate(self, Ok(()))
        }
    }
}

impl Actor for Mirror {
    type Configuration = ();
    type Startup = ();

    fn on_mount(self, _address: Address<Self>, _config: ()) -> Self {
        self
    }

    fn on_start(self) -> (Completion<Self>, ()) {
        (Completion::immediate(self), ())
    }
}

impl Bind<Peer> for Mirror {
    fn on_bind(mut self, address: Address<Peer>) -> Self {
        self.peer = Some(address);
        self
    }
}

/// An actor that counts: a notification adds to the count and sends the new
/// count on, a request answers with the count before it is reset.
struct Tally {
    count: u32,
}

struct Reset;

impl NotificationHandler<u32> for Tally {
    type Outbox = u32;

    fn on_notification(mut self, message: u32) -> (Completion<Self>, u32) {
        self.count += message;
        let count = self.count;
        (Completion::immediate(self), count)
    }
}

impl RequestHandler<Reset> for Tally {
    type Response = u32;

    fn on_request(mut self, _message: Reset) -> Response<Self, u32> {
        let count = self.count;
        self.count = 0;
        Response::immediate(self, count)
    }
}

fn mirror() -> Mirror {
    Mirror { transfers: 0, peer: None }
}

#[test]
fn address_is_the_identity_of_its_context() {
    let context = ActorContext::new(17, Peer);
    assert_eq!(context.identity(), 17);
    let address = Address::new(&context);
    let copy = address;
    assert_eq!(address.identity(), 17);
    assert_eq!(copy.clone().identity(), 17);
    assert_eq!(context.address().identity(), 17);
}

#[test]
fn address_stamps_messages_with_their_destination() {
    let address = ActorContext::new(4, Tally { count: 0 }).address();
    let notification = address.notify(9u32);
    assert_eq!(notification.destination.identity(), 4);
    assert_eq!(notification.message, 9);
    let request = address.request(Reset);
    assert_eq!(request.destination.identity(), 4);
    assert!(matches!(request.message, Reset));
    let peer = ActorContext::new(5, Peer).address();
    let other = ActorContext::new(6, mirror()).address();
    let binding = other.bind(&peer);
    assert_eq!(binding.destination.identity(), 6);
    assert_eq!(binding.peer.identity(), 5);
}

#[test]
fn request_resolves_to_what_the_handler_returned() {
    let mut first = [1, 2, 3];
    let mut second: [u8; 0] = [];
    let mut third = [8, 9];
    {
        let mut context = ActorContext::new(2, mirror());
        let address = context.address();
        let answer = context.request(address.request(SpiTransfer(&mut first)));
        assert_eq!(answer, Ok(()));
        assert_eq!(context.get().transfers, 1);
        assert!(context.is_idle());
        let answer = context.request(address.request(SpiTransfer(&mut second)));
        assert_eq!(answer, Err(SpiError::Overrun));
        assert_eq!(context.get().transfers, 2);
        let answer = context.request(address.request(SpiTransfer(&mut third)));
        assert_eq!(answer, Ok(()));
        assert_eq!(context.get().transfers, 3);
    }
    assert_eq!(first, [3, 2, 1]);
    assert_eq!(third, [9, 8]);
}

#[test]
fn request_to_the_timer_resolves_to_the_awaitable_of_its_slot() {
    let mut context: ActorContext<Timer<SimulatedTimer, ScheduleDeadline<u8>>> =
        ActorContext::new(8, Timer::new(SimulatedTimer::new()));
    let address = context.address();
    let first = context.request(address.delay(Milliseconds(40))).unwrap();
    let second = context.request(address.request(Delay(Milliseconds(60)))).unwrap();
    assert_eq!(first.slot(), 0);
    assert_eq!(second.slot(), 1);
    assert!(!first.is_resolved());
    assert_eq!(context.get().current_deadline(), Some(Milliseconds(40)));
    assert_eq!(context.get().delay_time_left(1), Some(Milliseconds(60)));
    for _ in 2..16 {
        assert!(context.request(address.delay(Milliseconds(100))).is_ok());
    }
    assert!(matches!(context.request(address.delay(Milliseconds(1))), Err(NoCapacity)));
    assert_eq!(context.get().current_deadline(), Some(Milliseconds(40)));
}

#[test]
fn deferred_completion_holds_the_actor_back_until_resumed() {
    let mut one = [5];
    let mut two = [5, 6];
    let mut context = ActorContext::new(2, mirror());
    let address = context.address();
    let answer = context.request(address.request(SpiTransfer(&mut one)));
    assert_eq!(answer, Ok(()));
    assert!(!context.is_idle());
    assert_eq!(context.get().transfers, 1);
    context.resume();
    assert!(context.is_idle());
    assert_eq!(context.get().transfers, 1);
    let answer = context.request(address.request(SpiTransfer(&mut two)));
    assert_eq!(answer, Ok(()));
    assert!(context.is_idle());
    assert_eq!(two, [6, 5]);
}

#[test]
fn bind_hands_the_peer_to_the_actor() {
    let peer = ActorContext::new(30, Peer).address();
    let mut context = ActorContext::new(31, mirror());
    assert!(context.get().peer.is_none());
    let binding = context.address().bind(&peer);
    context.bind(binding);
    assert_eq!(context.get().peer.map(|address| address.identity()), Some(30));
    assert!(context.is_idle());
}

#[test]
fn completion_and_response_wrap_the_actor() {
    assert!(matches!(Completion::immediate(3u8), Completion::Immediate(3)));
    assert!(matches!(Completion::deferred(3u8), Completion::Deferred(3)));
    let response = Response::immediate(1u8, "done");
    assert!(matches!(response.completion, Completion::Immediate(1)));
    assert_eq!(response.value, "done");
    let response = Response::deferred(2u8, "later");
    assert!(matches!(response.completion, Completion::Deferred(2)));
    assert_eq!(response.value, "later");
}

#[test]
fn spi_package_serializes_transfers_to_its_controller() {
    let mut first = [1, 2];
    let mut second = [3, 4];
    {
        let mut spi = Spi::new(11, 12, mirror());
        assert_eq!(spi.arbitrator.identity(), 11);
        assert_eq!(spi.controller.identity(), 12);
        assert!(!spi.arbitrator.get().is_mounted());
        let primary = spi.mount();
        assert_eq!(primary.identity(), 11);
        assert_eq!(spi.primary().identity(), 11);
        assert!(spi.arbitrator.get().is_mounted());
        assert!(!spi.arbitrator.get().is_busy());

        let dispatch = spi.arbitrator.request(primary.request(SpiTransfer(&mut first)));
        let dispatch = dispatch.ok().unwrap().unwrap();
        let waits = spi.arbitrator.request(primary.request(SpiTransfer(&mut second)));
        assert!(matches!(waits, Ok(None)));
        assert_eq!(dispatch.destination.identity(), 12);
        assert_eq!(spi.controller.request(dispatch), Ok(()));
        assert_eq!(spi.controller.get().transfers, 1);

        let dispatch = spi.arbitrator.notify(primary.notify(Responded)).unwrap();
        assert_eq!(spi.controller.request(dispatch), Ok(()));
        assert_eq!(spi.controller.get().transfers, 2);
        assert!(spi.arbitrator.notify(primary.notify(Responded)).is_none());
        assert!(!spi.arbitrator.get().is_busy());
    }
    assert_eq!(first, [2, 1]);
    assert_eq!(second, [4, 3]);
}

#[test]
fn notifications_reach_the_handler_one_by_one_in_order() {
    let mut context = ActorContext::new(1, Tally { count: 0 });
    let address = context.address();
    assert_eq!(context.notify(address.notify(5u32)), 5);
    assert_eq!(context.notify(address.notify(7u32)), 12);
    assert_eq!(context.get().count, 12);
    assert_eq!(context.request(address.request(Reset)), 12);
    assert_eq!(context.get().count, 0);
    assert_eq!(context.request(address.request(Reset)), 0);
    assert_eq!(context.notify(address.notify(1u32)), 1);
}
