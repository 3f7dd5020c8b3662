use actor_runtime::actor::ActorContext;
use actor_runtime::address::Address;
use actor_runtime::arbitrator::{Arbitrator, Refused, Responded, BACKLOG};
use actor_runtime::handler::{RequestHandler, Response};

struct Controller;

impl RequestHandler<&'static str> for Controller {
    type Response = usize;

    fn on_request(self, message: &'static str) -> Response<Self, usize> {
        Response::immediate(self, message.len())
    }
}

impl RequestHandler<u32> for Controller {
    type Response = u32;

    fn on_request(self, message: u32) -> Response<Self, u32> {
        Response::immediate(self, message + 1)
    }
}

fn mounted<X>(controller: Address<Controller>) -> ActorContext<Arbitrator<Controller, X>>
where
    Controller: RequestHandler<X>,
{
    let mut arbitrator = ActorContext::new(40, Arbitrator::new());
    assert!(!arbitrator.get().is_mounted());
    let address = arbitrator.mount(controller);
    assert_eq!(address.identity(), 40);
    assert!(arbitrator.get().is_mounted());
    arbitrator
}

#[test]
fn first_transaction_is_dispatched_at_once() {
    let controller = ActorContext::new(5, Controller).address();
    let mut arbitrator = mounted::<&'static str>(controller);
    let arbitrator = arbitrator.get_mut();
    assert!(!arbitrator.is_busy());
    let dispatch = arbitrator.submit("a").ok().unwrap().unwrap();
    assert_eq!(dispatch.message, "a");
    assert_eq!(dispatch.destination.identity(), 5);
    assert!(arbitrator.is_busy());
    assert_eq!(arbitrator.waiting(), 0);
}

#[test]
fn second_transaction_waits_for_the_response_to_the_first() {
    let controller = ActorContext::new(5, Controller).address();
    let mut arbitrator = mounted::<&'static str>(controller);
    let arbitrator = arbitrator.get_mut();
    assert!(matches!(arbitrator.submit("a"), Ok(Some(_))));
    assert!(matches!(arbitrator.submit("b"), Ok(None)));
    assert!(arbitrator.is_busy());
    assert_eq!(arbitrator.waiting(), 1);
    let dispatch = arbitrator.complete().unwrap();
    assert_eq!(dispatch.message, "b");
    assert!(arbitrator.is_busy());
    assert_eq!(arbitrator.waiting(), 0);
    assert!(arbitrator.complete().is_none());
    assert!(!arbitrator.is_busy());
}

#[test]
fn controller_sees_one_transaction_at_a_time() {
    let mut controller = ActorContext::new(2, Controller);
    let mut arbitrator = mounted::<u32>(controller.address());
    let arbitrator = arbitrator.get_mut();
    let mut answers = Vec::new();
    let mut next = arbitrator.submit(1).ok().unwrap();
    assert!(matches!(arbitrator.submit(5), Ok(None)));
    assert!(matches!(arbitrator.submit(9), Ok(None)));
    while let Some(request) = next {
        assert!(arbitrator.is_busy());
        assert!(controller.is_idle());
        answers.push(controller.request(request));
        next = arbitrator.complete();
    }
    assert_eq!(answers, vec![2, 6, 10]);
    assert!(!arbitrator.is_busy());
    assert_eq!(arbitrator.waiting(), 0);
}

#[test]
fn transactions_are_served_in_the_order_of_submission() {
    let controller = ActorContext::new(1, Controller).address();
    let mut arbitrator = mounted::<u32>(controller);
    let arbitrator = arbitrator.get_mut();
    let mut served = Vec::new();
    served.push(arbitrator.submit(10).ok().unwrap().unwrap().message);
    for transaction in [20, 30, 40] {
        assert!(matches!(arbitrator.submit(transaction), Ok(None)));
    }
    assert_eq!(arbitrator.waiting(), 3);
    served.push(arbitrator.complete().unwrap().message);
    assert!(matches!(arbitrator.submit(50), Ok(None)));
    while let Some(dispatch) = arbitrator.complete() {
        served.push(dispatch.message);
    }
    assert_eq!(served, vec![10, 20, 30, 40, 50]);
    assert!(!arbitrator.is_busy());
    assert_eq!(arbitrator.submit(60).ok().unwrap().unwrap().message, 60);
}

#[test]
fn full_backlog_hands_the_transaction_back_and_changes_nothing() {
    let controller = ActorContext::new(1, Controller).address();
    let mut arbitrator = mounted::<u32>(controller);
    let arbitrator = arbitrator.get_mut();
    assert_eq!(BACKLOG, 16);
    assert!(matches!(arbitrator.submit(0), Ok(Some(_))));
    for transaction in 1..=16 {
        assert!(matches!(arbitrator.submit(transaction), Ok(None)));
    }
    assert_eq!(arbitrator.waiting(), 16);
    assert!(matches!(arbitrator.submit(99), Err(Refused(99))));
    assert!(matches!(arbitrator.submit(98), Err(Refused(98))));
    assert_eq!(arbitrator.waiting(), 16);
    assert!(arbitrator.is_busy());
    let mut served = Vec::new();
    while let Some(dispatch) = arbitrator.complete() {
        served.push(dispatch.message);
        if served.len() == 1 {
            assert!(matches!(arbitrator.submit(17), Ok(None)));
        }
    }
    assert_eq!(served, (1..=17).collect::<Vec<u32>>());
    assert!(!arbitrator.is_busy());
}

#[test]
fn arbitrator_is_reached_through_its_address() {
    let mut controller = ActorContext::new(7, Controller);
    let mut arbitrator = mounted::<u32>(controller.address());
    let primary = arbitrator.address();
    let first = arbitrator.request(primary.request(3)).ok().unwrap().unwrap();
    assert_eq!(first.destination.identity(), 7);
    assert!(matches!(arbitrator.request(primary.request(4)), Ok(None)));
    assert_eq!(controller.request(first), 4);
    let second = arbitrator.notify(primary.notify(Responded)).unwrap();
    assert_eq!(second.message, 4);
    assert_eq!(controller.request(second), 5);
    assert!(arbitrator.notify(primary.notify(Responded)).is_none());
    assert!(!arbitrator.get().is_busy());
    assert!(arbitrator.is_idle());
}
