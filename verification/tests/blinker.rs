use actor_runtime::actor::ActorContext;
use actor_runtime::address::Address;
use actor_runtime::driver::led::blinker::{Blinker, State};
use actor_runtime::driver::led::Switch;
use actor_runtime::driver::timer::{ScheduleDeadline, Timer};
use actor_runtime::hal::timer::{Command, SimulatedTimer};
use actor_runtime::handler::{Actor, Completion, NotificationHandler};
use actor_runtime::time::Milliseconds;

struct Led;

impl NotificationHandler<Switch> for Led {
    type Outbox = ();

    fn on_notification(self, _message: Switch) -> (Completion<Self>, ()) {
        (Completion::immediate(self), ())
    }
}

type Clock = Timer<SimulatedTimer, ScheduleDeadline<State>>;
type Lamp = Blinker<Led, Clock>;

fn mounted(delay: u32) -> (ActorContext<Lamp>, ActorContext<Clock>, Address<Led>) {
    let led = ActorContext::new(1, Led).address();
    let mut clock: ActorContext<Clock> = ActorContext::new(2, Timer::new(SimulatedTimer::new()));
    let mut lamp: ActorContext<Lamp> = ActorContext::new(3, Blinker::new(Milliseconds(delay)));
    let to_clock = clock.mount(());
    let to_lamp = lamp.mount((led, to_clock));
    assert_eq!(to_clock.identity(), 2);
    assert_eq!(to_lamp.identity(), 3);
    (lamp, clock, led)
}

#[test]
fn new_blinker_keeps_its_delay() {
    let blinker: Blinker<Led, Clock> = Blinker::new(Milliseconds(250));
    assert_eq!(blinker.period(), Milliseconds(250));
    assert!(!blinker.is_mounted());
    let (lamp, _, _) = mounted(250);
    assert!(lamp.get().is_mounted());
    assert_eq!(lamp.get().period(), Milliseconds(250));
}

#[test]
fn start_asks_the_timer_for_the_on_event() {
    let (lamp, clock, led) = mounted(10);
    let blinker: Lamp = Blinker::new(Milliseconds(10));
    let blinker = blinker.on_mount(lamp.address(), (led, clock.address()));
    let (completion, wakeup) = blinker.on_start();
    assert!(matches!(completion, Completion::Immediate(_)));
    assert_eq!(wakeup.destination.identity(), 2);
    assert_eq!(wakeup.message.delay, Milliseconds(10));
    assert_eq!(wakeup.message.event, State::On);
    assert_eq!(wakeup.message.address.identity(), 3);
}

#[test]
fn on_switches_the_light_on_and_schedules_off() {
    let (mut lamp, _, _) = mounted(10);
    let to_lamp = lamp.address().notify(State::On);
    let blink = lamp.notify(to_lamp);
    assert_eq!(blink.led.destination.identity(), 1);
    assert_eq!(blink.led.message, Switch::On);
    assert_eq!(blink.timer.destination.identity(), 2);
    assert_eq!(blink.timer.message.delay, Milliseconds(10));
    assert_eq!(blink.timer.message.event, State::Off);
    assert_eq!(blink.timer.message.address.identity(), 3);
    assert!(lamp.is_idle());
}

#[test]
fn off_switches_the_light_off_and_schedules_on() {
    let (mut lamp, _, _) = mounted(10);
    let to_lamp = lamp.address().notify(State::Off);
    let blink = lamp.notify(to_lamp);
    assert_eq!(blink.led.message, Switch::Off);
    assert_eq!(blink.timer.message.event, State::On);
    assert_eq!(blink.timer.message.delay, Milliseconds(10));
}

#[test]
fn schedule_for_on_makes_an_alternating_stream() {
    let (mut lamp, mut clock, _) = mounted(10);
    clock.start();
    let first = lamp.start();
    assert_eq!(first.message.event, State::On);
    assert_eq!(first.message.delay, Milliseconds(10));
    assert!(lamp.is_idle());
    assert_eq!(clock.notify(first), Ok(()));

    let mut light = Vec::new();
    let mut elapsed = Vec::new();
    let mut now = 0;
    for _ in 0..8 {
        let Milliseconds(step) = clock.get().current_deadline().unwrap();
        now += step;
        let fired = clock.get_mut().on_interrupt();
        assert_eq!(fired.iter().flatten().count(), 1);
        for due in fired.into_iter().flatten() {
            assert_eq!(due.destination, lamp.identity());
            let blink = lamp.notify(lamp.address().notify(due.event));
            light.push(blink.led.message);
            elapsed.push(now);
            assert_eq!(clock.notify(blink.timer), Ok(()));
        }
    }
    assert_eq!(
        light,
        vec![
            Switch::On,
            Switch::Off,
            Switch::On,
            Switch::Off,
            Switch::On,
            Switch::Off,
            Switch::On,
            Switch::Off
        ]
    );
    assert_eq!(elapsed, vec![10, 20, 30, 40, 50, 60, 70, 80]);
    assert_eq!(clock.get().current_deadline(), Some(Milliseconds(10)));
    let starts = clock
        .get()
        .peripheral()
        .log()
        .iter()
        .filter(|command| matches!(command, Command::Start(Milliseconds(10))))
        .count();
    assert_eq!(starts, 9);
    assert_eq!(clock.get().peripheral().log().len(), 17);
}

#[test]
fn adjusted_delay_is_used_from_the_next_schedule_on() {
    let (mut lamp, _, _) = mounted(10);
    let adjust = lamp.address().adjust_delay(Milliseconds(25));
    assert_eq!(adjust.destination.identity(), 3);
    assert_eq!((adjust.message.0).0, 25);
    lamp.notify(adjust);
    assert_eq!(lamp.get().period(), Milliseconds(25));
    let to_lamp = lamp.address().notify(State::On);
    let blink = lamp.notify(to_lamp);
    assert_eq!(blink.timer.message.delay, Milliseconds(25));
    assert_eq!(blink.timer.message.event, State::Off);
    assert_eq!(blink.led.destination.identity(), 1);
}

#[test]
fn light_is_told_to_switch_through_its_address() {
    let led = ActorContext::new(1, Led).address();
    let on = led.turn_on();
    assert_eq!(on.destination.identity(), 1);
    assert_eq!(on.message, Switch::On);
    let off = led.turn_off();
    assert_eq!(off.destination.identity(), 1);
    assert_eq!(off.message, Switch::Off);
}

#[test]
fn schedule_through_the_timer_address_reaches_the_blinker() {
    let (lamp, mut clock, _) = mounted(10);
    let first = clock.address().schedule(Milliseconds(30), State::Off, lamp.address());
    assert_eq!(clock.notify(first), Ok(()));
    assert_eq!(clock.get().current_deadline(), Some(Milliseconds(30)));
    let fired = clock.get_mut().on_interrupt();
    let due = fired.into_iter().flatten().next().unwrap();
    assert_eq!(due.destination, lamp.identity());
    assert_eq!(due.event, State::Off);
}
