use actor_runtime::hal::timer::{Command, SimulatedTimer, Timer};
use actor_runtime::time::Milliseconds;

#[test]
fn simulated_timer_records_commands_in_order() {
    let mut timer = SimulatedTimer::new();
    assert!(timer.log().is_empty());
    assert_eq!(timer.armed(), None);
    timer.clear_update_interrupt_flag();
    assert_eq!(timer.armed(), None);
    timer.start(Milliseconds(5));
    timer.start(Milliseconds(9));
    timer.clear_update_interrupt_flag();
    assert_eq!(
        timer.log().as_slice(),
        &[
            Command::ClearUpdateInterruptFlag,
            Command::Start(Milliseconds(5)),
            Command::Start(Milliseconds(9)),
            Command::ClearUpdateInterruptFlag,
        ]
    );
    assert_eq!(timer.armed(), Some(Milliseconds(9)));
}
