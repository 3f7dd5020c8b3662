//! Serialized access to one shared controller.
//!
//! Many callers submit transactions; the controller works on one at a time.
//! The arbitrator forwards a transaction when the controller is free and
//! keeps the others back, in the order of their submission, until the
//! response to the one in flight has been observed.

use vstd::prelude::*;
use crate::address::{Address, Request};
use crate::handler::{Actor, Completion, NotificationHandler, RequestHandler, Response};

verus! {

/// The number of transactions that can wait for the controller.
pub const BACKLOG: usize = 16;

/// The answer to a transaction that found the controller at work and every
/// place in the backlog taken. The transaction is handed back.
pub struct Refused<X>(pub X);

/// The notification that the response to the transaction in flight has been
/// observed.
#[derive(Clone, Copy, Debug, PartialEq, Eq, Structural)]
pub struct Responded;

/// A step in the traffic between an arbitrator and its controller. The
/// number is the position of the transaction among all that were taken.
pub enum Event {
    /// The transaction was forwarded to the controller.
    Dispatched(nat),
    /// The controller's response to the transaction was observed.
    Responded(nat),
}

/// The traffic of a controller that is given one transaction at a time, in
/// the order of submission: transaction 0 is dispatched, its response is
/// observed, transaction 1 is dispatched, and so on.
pub open spec fn serialized(log: Seq<Event>) -> bool {
    forall|i: int|
        0 <= i < log.len() ==> #[trigger] log[i] == if i % 2 == 0 {
            Event::Dispatched((i / 2) as nat)
        } else {
            Event::Responded((i / 2) as nat)
        }
}

/// Queues transactions of type `X` for the controller actor `C`.
pub struct Arbitrator<C, X> {
    controller: Option<Address<C>>,
    busy: bool,
    backlog: [Option<X>; BACKLOG],
    waiting: usize,
    submitted: Ghost<Seq<X>>,
    log: Ghost<Seq<Event>>,
}

impl<C: RequestHandler<X>, X> Arbitrator<C, X> {
    /// The controller that transactions are forwarded to, once the
    /// arbitrator is mounted.
    pub closed spec fn controller(&self) -> Option<Address<C>> {
        self.controller
    }

    /// Every transaction taken so far, oldest first.
    pub closed spec fn submitted(&self) -> Seq<X> {
        self.submitted@
    }

    /// The traffic with the controller so far, oldest first.
    pub closed spec fn log(&self) -> Seq<Event> {
        self.log@
    }

    /// The number of transactions that were forwarded to the controller.
    pub open spec fn dispatched(&self) -> nat {
        ((self.log().len() + 1) / 2) as nat
    }

    /// Whether the controller works on a transaction.
    pub open spec fn in_flight(&self) -> bool {
        self.log().len() % 2 == 1
    }

    /// The transactions that wait for the controller, oldest first.
    pub open spec fn backlog(&self) -> Seq<X> {
        self.submitted().skip(self.dispatched() as int)
    }

    /// Whether a transaction would be handed back: the controller is at work
    /// and the backlog is full.
    pub open spec fn full(&self) -> bool {
        self.in_flight() && self.backlog().len() == BACKLOG
    }

    /// The traffic so far is serialized, only transactions that were taken
    /// were dispatched, no more wait than the backlog has room for, and none
    /// waits while the controller is free.
    pub closed spec fn wf(&self) -> bool {
        &&& serialized(self.log())
        &&& self.dispatched() <= self.submitted().len()
        &&& self.busy == self.in_flight()
        &&& self.waiting <= BACKLOG
        &&& self.waiting == self.backlog().len()
        &&& forall|i: int| 0 <= i < self.waiting ==> self.backlog[i] == Some(self.backlog()[i])
        &&& forall|i: int| self.waiting <= i < BACKLOG ==> self.backlog[i] is None
        &&& !self.busy ==> self.waiting == 0
    }

    /// What `wf` means for the model.
    pub proof fn lemma_wf(&self)
        requires
            self.wf(),
        ensures
            serialized(self.log()),
            self.dispatched() <= self.submitted().len(),
            self.backlog().len() <= BACKLOG,
            !self.in_flight() ==> self.backlog().len() == 0,
    {
    }

    /// An arbitrator with nothing taken, not mounted yet.
    pub fn new() -> (arbitrator: Self)
        ensures
            arbitrator.wf(),
            arbitrator.controller() is None,
            arbitrator.submitted() == Seq::<X>::empty(),
            arbitrator.log() == Seq::<Event>::empty(),
    {
        Arbitrator {
            controller: None,
            busy: false,
            backlog: [
                None, None, None, None, None, None, None, None,
                None, None, None, None, None, None, None, None,
            ],
            waiting: 0,
            submitted: Ghost(Seq::empty()),
            log: Ghost(Seq::empty()),
        }
    }

    /// Whether the arbitrator knows its controller.
    pub fn is_mounted(&self) -> (mounted: bool)
        ensures
            mounted == (self.controller() is Some),
    {
        self.controller.is_some()
    }

    /// Whether the controller works on a transaction.
    pub fn is_busy(&self) -> (busy: bool)
        requires
            self.wf(),
        ensures
            busy == self.in_flight(),
    {
        self.busy
    }

    /// The number of transactions that wait for the controller.
    pub fn waiting(&self) -> (waiting: usize)
        requires
            self.wf(),
        ensures
            waiting == self.backlog().len(),
    {
        self.waiting
    }

    /// Takes `transaction`. If the controller is free the transaction is
    /// dispatched at once: the result is the request to hand to the
    /// controller. If the controller is at work the transaction waits behind
    /// those taken before; if the backlog has no room for it, it is handed
    /// back and nothing changes.
    pub fn submit(&mut self, transaction: X) -> (outcome: Result<Option<Request<C, X>>, Refused<X>>)
        requires
            old(self).wf(),
            old(self).controller() is Some,
        ensures
            final(self).wf(),
            final(self).controller() == old(self).controller(),
            outcome == if old(self).full() {
                Err::<Option<Request<C, X>>, Refused<X>>(Refused(transaction))
            } else if old(self).in_flight() {
                Ok(None)
            } else {
                Ok(Some(Request { destination: old(self).controller()->0, message: transaction }))
            },
            final(self).submitted() == if old(self).full() {
                old(self).submitted()
            } else {
                old(self).submitted().push(transaction)
            },
            final(self).log() == if old(self).in_flight() {
                old(self).log()
            } else {
                old(self).log().push(Event::Dispatched(old(self).submitted().len()))
            },
    {
        if self.busy {
            if self.waiting == BACKLOG {
                return Err(Refused(transaction));
            }
            self.submitted = Ghost(self.submitted@.push(transaction));
            self.backlog[self.waiting] = Some(transaction);
            self.waiting = self.waiting + 1;
            Ok(None)
        } else {
            let ghost position = self.submitted@.len();
            self.submitted = Ghost(self.submitted@.push(transaction));
            self.busy = true;
            self.log = Ghost(self.log@.push(Event::Dispatched(position)));
            Ok(Some(self.controller.unwrap().request(transaction)))
        }
    }

    /// Takes note that the response to the transaction in flight has been
    /// observed. If transactions wait, the oldest is dispatched: the result is
    /// the request to hand to the controller. Otherwise the controller is free.
    pub fn complete(&mut self) -> (dispatch: Option<Request<C, X>>)
        requires
            old(self).wf(),
            old(self).controller() is Some,
            old(self).in_flight(),
        ensures
            final(self).wf(),
            final(self).controller() == old(self).controller(),
            final(self).submitted() == old(self).submitted(),
            dispatch == if old(self).backlog().len() == 0 {
                None
            } else {
                Some(
                    Request {
                        destination: old(self).controller()->0,
                        message: old(self).backlog()[0],
                    },
                )
            },
            final(self).log() == if old(self).backlog().len() == 0 {
                old(self).log().push(Event::Responded((old(self).dispatched() - 1) as nat))
            } else {
                old(self).log().push(Event::Responded((old(self).dispatched() - 1) as nat)).push(
                    Event::Dispatched(old(self).dispatched()),
                )
            },
    {
        let ghost done = (self.dispatched() - 1) as nat;
        let ghost waited = self.backlog();
        self.log = Ghost(self.log@.push(Event::Responded(done)));
        if self.waiting == 0 {
            self.busy = false;
            return None;
        }
        let first = self.backlog[0].take();
        let mut i: usize = 1;
        while i < self.waiting
            invariant
                1 <= i <= self.waiting <= BACKLOG,
                self.waiting == waited.len(),
                self.waiting == old(self).waiting,
                self.controller == old(self).controller,
                self.busy == old(self).busy,
                self.submitted@ == old(self).submitted@,
                self.log@ == old(self).log@.push(Event::Responded(done)),
                forall|j: int| 0 <= j < i - 1 ==> self.backlog[j] == Some(waited[j + 1]),
                self.backlog[i - 1] is None,
                forall|j: int| i <= j < self.waiting ==> self.backlog[j] == Some(waited[j]),
                forall|j: int| self.waiting <= j < BACKLOG ==> self.backlog[j] is None,
            decreases self.waiting - i,
        {
            let next = self.backlog[i].take();
            self.backlog[i - 1] = next;
            i += 1;
        }
        self.waiting = self.waiting - 1;
        self.log = Ghost(self.log@.push(Event::Dispatched(done + 1)));
        proof {
            assert(self.backlog() == waited.skip(1));
        }
        match first {
            Some(transaction) => Some(self.controller.unwrap().request(transaction)),
            None => None,
        }
    }
}

impl<C: RequestHandler<X>, X> Actor for Arbitrator<C, X> {
    type Configuration = Address<C>;

    type Startup = ();

    /// Tells the arbitrator the controller that it guards.
    fn on_mount(self, address: Address<Self>, config: Address<C>) -> (mounted: Self)
        ensures
            mounted.controller() == Some(config),
            mounted.submitted() == self.submitted(),
            mounted.log() == self.log(),
            self.wf() ==> mounted.wf(),
    {
        let mut arbitrator = self;
        arbitrator.controller = Some(config);
        arbitrator
    }

    fn on_start(self) -> (started: (Completion<Self>, ()))
        ensures
            started.0 == Completion::Immediate(self),
    {
        (Completion::immediate(self), ())
    }
}

impl<C: RequestHandler<X>, X> RequestHandler<X> for Arbitrator<C, X> {
    /// The request to hand to the controller, if the transaction is
    /// dispatched at once, or the transaction itself if it is handed back.
    type Response = Result<Option<Request<C, X>>, Refused<X>>;

    open spec fn accepts_request(&self, message: &X) -> bool {
        self.wf() && self.controller() is Some
    }

    /// Takes the transaction in `message`, as `submit` does.
    fn on_request(self, message: X) -> (response: Response<
        Self,
        Result<Option<Request<C, X>>, Refused<X>>,
    >)
        ensures
            response.completion is Immediate,
            response.completion.actor().wf(),
            response.completion.actor().controller() == self.controller(),
            response.value == if self.full() {
                Err::<Option<Request<C, X>>, Refused<X>>(Refused(message))
            } else if self.in_flight() {
                Ok(None)
            } else {
                Ok(Some(Request { destination: self.controller()->0, message }))
            },
            response.completion.actor().submitted() == if self.full() {
                self.submitted()
            } else {
                self.submitted().push(message)
            },
            response.completion.actor().log() == if self.in_flight() {
                self.log()
            } else {
                self.log().push(Event::Dispatched(self.submitted().len()))
            },
    {
        let mut arbitrator = self;
        let outcome = arbitrator.submit(message);
        Response::immediate(arbitrator, outcome)
    }
}

impl<C: RequestHandler<X>, X> NotificationHandler<Responded> for Arbitrator<C, X> {
    /// The request to hand to the controller next, if a transaction waited.
    type Outbox = Option<Request<C, X>>;

    open spec fn accepts_notification(&self, message: &Responded) -> bool {
        self.wf() && self.controller() is Some && self.in_flight()
    }

    /// Takes note of the response to the transaction in flight, as
    /// `complete` does.
    fn on_notification(self, message: Responded) -> (handled: (
        Completion<Self>,
        Option<Request<C, X>>,
    ))
        ensures
            handled.0 is Immediate,
            handled.0.actor().wf(),
            handled.0.actor().controller() == self.controller(),
            handled.0.actor().submitted() == self.submitted(),
            handled.1 == if self.backlog().len() == 0 {
                None
            } else {
                Some(Request { destination: self.controller()->0, message: self.backlog()[0] })
            },
            handled.0.actor().log() == if self.backlog().len() == 0 {
                self.log().push(Event::Responded((self.dispatched() - 1) as nat))
            } else {
                self.log().push(Event::Responded((self.dispatched() - 1) as nat)).push(
                    Event::Dispatched(self.dispatched()),
                )
            },
    {
        let mut arbitrator = self;
        let dispatch = arbitrator.complete();
        (Completion::immediate(arbitrator), dispatch)
    }
}

/// The controller never works on two transactions at once: between any two
/// dispatches lies the response to the first of them.
pub proof fn lemma_one_in_flight(log: Seq<Event>, first: int, second: int)
    requires
        serialized(log),
        0 <= first < second < log.len(),
        log[first] is Dispatched,
        log[second] is Dispatched,
    ensures
        first + 1 < second,
        log[first + 1] == Event::Responded(log[first]->Dispatched_0),
{
    assert(first % 2 == 0);
    assert(second % 2 == 0);
}

/// Transactions are served in the order of submission: when a transaction is
/// dispatched, the response to every transaction taken before it has been
/// observed.
pub proof fn lemma_submission_order(log: Seq<Event>, at: int, earlier: nat)
    requires
        serialized(log),
        0 <= at < log.len(),
        log[at] is Dispatched,
        earlier < log[at]->Dispatched_0,
    ensures
        2 * earlier + 1 < at,
        log[2 * earlier as int + 1] == Event::Responded(earlier),
{
    assert(at % 2 == 0);
    assert(log[2 * earlier as int + 1] == Event::Responded(((2 * earlier as int + 1) / 2) as nat));
}

} // verus!
