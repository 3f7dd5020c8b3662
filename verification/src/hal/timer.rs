//! The one-shot countdown peripheral that the timer driver multiplexes.

use vstd::prelude::*;
use crate::time::Milliseconds;

verus! {

/// A command that a countdown peripheral has been given.
#[derive(Clone, Copy, Debug, PartialEq, Eq, Structural)]
pub enum Command {
    /// Arm a one-shot countdown of the given length.
    Start(Milliseconds),
    /// Acknowledge the interrupt raised by an elapsed countdown.
    ClearUpdateInterruptFlag,
}

/// A hardware countdown timer. An elapsed countdown raises the update
/// interrupt, on which the owner of the peripheral reconciles its deadlines.
///
/// The driver never reads the peripheral back, so all that it needs to know
/// of an implementation is the sequence of commands that it was given:
/// `commands` is that sequence, and each method appends its own command.
pub trait Timer {
    /// Every command that the peripheral was given, oldest first.
    spec fn commands(&self) -> Seq<Command>;

    /// Arms a one-shot countdown that raises the update interrupt after `duration`.
    fn start(&mut self, duration: Milliseconds)
        ensures
            final(self).commands() == old(self).commands().push(Command::Start(duration)),
    ;

    /// Clears the pending update interrupt.
    fn clear_update_interrupt_flag(&mut self)
        ensures
            final(self).commands() == old(self).commands().push(
                Command::ClearUpdateInterruptFlag,
            ),
    ;
}

/// A countdown peripheral without hardware behind it: it records the commands
/// it is given, so that a host program can replay what the driver asked for.
pub struct SimulatedTimer {
    log: Vec<Command>,
}

impl SimulatedTimer {
    /// A peripheral that was given no command yet.
    pub fn new() -> (timer: Self)
        ensures
            timer.commands() == Seq::<Command>::empty(),
    {
        SimulatedTimer { log: Vec::new() }
    }

    /// The commands that the peripheral was given, oldest first.
    pub fn log(&self) -> (log: &Vec<Command>)
        ensures
            log@ == self.commands(),
    {
        &self.log
    }

    /// The countdown that is armed: the length given to the latest `start`,
    /// or `None` if the peripheral was never started.
    pub fn armed(&self) -> (armed: Option<Milliseconds>)
        ensures
            armed == last_started(self.commands()),
    {
        let mut armed: Option<Milliseconds> = None;
        let mut i: usize = 0;
        while i < self.log.len()
            invariant
                i <= self.log.len(),
                armed == last_started(self.log@.take(i as int)),
            decreases self.log.len() - i,
        {
            proof {
                assert(self.log@.take(i + 1).drop_last() == self.log@.take(i as int));
            }
            match self.log[i] {
                Command::Start(duration) => {
                    armed = Some(duration);
                },
                Command::ClearUpdateInterruptFlag => {},
            }
            i += 1;
        }
        proof {
            assert(self.log@.take(i as int) == self.log@);
        }
        armed
    }
}

/// The length of the latest countdown in `commands`, if any was started.
pub open spec fn last_started(commands: Seq<Command>) -> Option<Milliseconds>
    decreases commands.len(),
{
    if commands.len() == 0 {
        None
    } else {
        match commands.last() {
            Command::Start(duration) => Some(duration),
            Command::ClearUpdateInterruptFlag => last_started(commands.drop_last()),
        }
    }
}

impl Timer for SimulatedTimer {
    closed spec fn commands(&self) -> Seq<Command> {
        self.log@
    }

    fn start(&mut self, duration: Milliseconds) {
        self.log.push(Command::Start(duration));
    }

    fn clear_update_interrupt_flag(&mut self) {
        self.log.push(Command::ClearUpdateInterruptFlag);
    }
}

} // verus!
