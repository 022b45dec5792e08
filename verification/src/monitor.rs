//! The fault monitor: poll both fault status registers, report every
//! condition that is set, rest, and start over. It never ends.

use crate::codec::{spec_decode, Register};
use crate::drv8323rs::{
    lemma_idle_plays_nothing, lemma_snapshot_plays, read_frame, snapshot_script, Job, DRV8232RS,
};
use crate::faults::{
    decode_faults, lemma_clear_word_reports_nothing, spec_decode_faults, Fault, Status,
};
use crate::link::{spec_response, Action, Event, POLL_PERIOD_MICROS};
use crate::messages::{pending_after, Commands, Console};
use crate::sequencer::DriverState;
use vstd::prelude::*;

verus! {

/// The fault monitor.
#[derive(Clone, Copy, Debug, PartialEq, Eq, Structural)]
pub struct FaultMonitor {
    /// The register protocol driver.
    pub drv: DRV8232RS,
    /// What the chip had been brought to when the monitor took over.
    pub operating: DriverState,
    /// Whether the last snapshot reported any condition.
    pub faulted: bool,
}

/// Whether `commands` carries the names of `faults`, one for one.
pub open spec fn carries(commands: Seq<Commands>, faults: Seq<Fault>) -> bool {
    &&& commands.len() == faults.len()
    &&& forall|i: int| 0 <= i < faults.len() ==> (#[trigger] commands[i])@ == faults[i].spec_bytes()
}

/// Whether a slot that held `before` holds `after` once the names of `faults`
/// have been published into it, one after the other.
pub open spec fn reported(
    before: Option<Commands>,
    after: Option<Commands>,
    faults: Seq<Fault>,
) -> bool {
    exists|commands: Seq<Commands>| #[trigger]
        carries(commands, faults) && after == pending_after(before, commands)
}

/// Publishes the name of each of `faults`, in order, through the console
/// slot. The slot keeps the last name only; with no fault it is left as it
/// was.
pub fn publish_faults(console: &mut Console, faults: &Vec<Fault>)
    ensures
        reported(old(console).pending(), final(console).pending(), faults@),
        faults@.len() == 0 ==> final(console).pending() == old(console).pending(),
        faults@.len() > 0 ==> (final(console).pending() matches Some(command) && command@
            == faults@.last().spec_bytes()),
{
    let ghost before = console.pending();
    let ghost mut sent: Seq<Commands> = Seq::empty();
    let mut i: usize = 0;
    while i < faults.len()
        invariant
            i <= faults.len(),
            carries(sent, faults@.take(i as int)),
            console.pending() == pending_after(before, sent),
        decreases faults.len() - i,
    {
        let command = faults[i].command();
        let ghost sending = command;
        console.publish(command);
        proof {
            sent = sent.push(sending);
            assert forall|k: int| 0 <= k < i + 1 implies (#[trigger] sent[k])@ == faults@.take(
                i + 1,
            )[k].spec_bytes() by {}
        }
        i = i + 1;
    }
    assert(faults@.take(i as int) =~= faults@);
}

impl FaultMonitor {
    /// What the chip is in: faulted after a snapshot that reported a
    /// condition, otherwise what it had been brought to.
    pub open spec fn spec_state(self) -> DriverState {
        if self.faulted {
            DriverState::Faulted
        } else {
            self.operating
        }
    }

    /// The driver with a snapshot begun where the link was free.
    pub open spec fn spec_armed(self) -> DRV8232RS {
        self.drv.spec_begin(Job::Faults, read_frame(Register::Fsr1))
    }

    /// The conditions that this step reports: those of the snapshot that it
    /// completes, none where it completes no snapshot.
    pub open spec fn spec_found(self, event: Event) -> Seq<Fault> {
        let (drv, action) = self.spec_armed().spec_poll(event);
        if action is None && self.drv.job is Faults {
            spec_decode_faults(drv.fsr1, drv.fsr2)
        } else {
            Seq::empty()
        }
    }

    /// One step of the monitor: the state it moves to and the action it
    /// hands out.
    pub open spec fn spec_step(self, event: Event) -> (FaultMonitor, Action) {
        let (drv, action) = self.spec_armed().spec_poll(event);
        match action {
            Some(action) => (FaultMonitor { drv, ..self }, action),
            None => (
                FaultMonitor {
                    drv,
                    faulted: if self.drv.job is Faults {
                        self.spec_found(event).len() > 0
                    } else {
                        self.faulted
                    },
                    ..self
                },
                Action::Wait(POLL_PERIOD_MICROS),
            ),
        }
    }

    /// The monitor stepped once for each of `events`: the state it ends in
    /// and the actions it hands out on the way.
    pub open spec fn spec_run(self, events: Seq<Event>) -> (FaultMonitor, Seq<Action>)
        decreases events.len(),
    {
        if events.len() == 0 {
            (self, Seq::empty())
        } else {
            let (next, action) = self.spec_step(events.first());
            let (end, rest) = next.spec_run(events.drop_first());
            (end, seq![action] + rest)
        }
    }

    /// A monitor that takes the chip over in `operating`, through `drv`.
    pub fn new(drv: DRV8232RS, operating: DriverState) -> (monitor: FaultMonitor)
        ensures
            monitor == (FaultMonitor { drv, operating, faulted: false }),
    {
        FaultMonitor { drv, operating, faulted: false }
    }

    /// What the chip is in.
    pub fn state(&self) -> (state: DriverState)
        ensures
            state == self.spec_state(),
    {
        if self.faulted {
            DriverState::Faulted
        } else {
            self.operating
        }
    }

    /// Moves the monitor one action on. `event` tells how the action handed
    /// out last went. With the link free a new snapshot begins; when a
    /// snapshot is complete its conditions are published through `console`
    /// and the rest period is handed out. A failed transfer reads as zero, so
    /// it reports nothing and delays nothing. No step ever hands out `Halt`.
    pub fn step(&mut self, event: Event, console: &mut Console) -> (action: Action)
        ensures
            (*final(self), action) == old(self).spec_step(event),
            reported(
                old(console).pending(),
                final(console).pending(),
                old(self).spec_found(event),
            ),
            old(self).spec_found(event).len() == 0 ==> final(console).pending() == old(
                console,
            ).pending(),
            old(self).spec_found(event).len() > 0 ==> (final(console).pending() matches Some(
                command,
            ) && command@ == old(self).spec_found(event).last().spec_bytes()),
            !(action is Halt),
    {
        let snapshot = match self.drv.job {
            Job::Faults => true,
            _ => false,
        };
        self.drv.print_faults();
        match self.drv.poll(event) {
            Some(action) => {
                assert(carries(Seq::empty(), Seq::empty()));
                action
            },
            None => {
                if snapshot {
                    let faults = decode_faults(self.drv.fsr1, self.drv.fsr2);
                    self.faulted = faults.len() > 0;
                    publish_faults(console, &faults);
                }
                Action::Wait(POLL_PERIOD_MICROS)
            },
        }
    }
}

/// Number of steps from the start of one poll to the start of the next.
pub open spec fn cycle_len() -> int {
    19
}

/// What one cycle of the monitor hands out: the snapshot, then the rest
/// period.
pub open spec fn cycle_script() -> Seq<Action> {
    snapshot_script() + seq![Action::Wait(POLL_PERIOD_MICROS)]
}

/// While the driver is busy, the monitor hands out what the driver hands
/// out; when the driver is through, the monitor hands out the rest period.
proof fn lemma_monitor_mirrors(monitor: FaultMonitor, events: Seq<Event>)
    requires
        !monitor.drv.is_idle(),
        events.len() > 0,
        monitor.drv.spec_play(events).1.len() == events.len() - 1,
    ensures
        monitor.spec_run(events) == ({
            let (drv, actions) = monitor.drv.spec_play(events);
            (
                FaultMonitor {
                    drv,
                    faulted: if monitor.drv.job is Faults {
                        spec_decode_faults(drv.fsr1, drv.fsr2).len() > 0
                    } else {
                        monitor.faulted
                    },
                    ..monitor
                },
                actions + seq![Action::Wait(POLL_PERIOD_MICROS)],
            )
        }),
    decreases events.len(),
{
    let (next, action) = monitor.drv.spec_poll(events.first());
    let rest = events.drop_first();
    let after = monitor.spec_step(events.first()).0;
    match action {
        None => {
            lemma_idle_plays_nothing(next, rest);
            assert(after.spec_run(rest) == (after, Seq::<Action>::empty()));
        },
        Some(action) => {
            lemma_monitor_mirrors(after, rest);
        },
    }
}

/// The monitor never stops and never stalls. From any state with the link
/// free, whatever the caller reports back, nineteen steps hand out one whole
/// cycle (the snapshot and the rest period) and leave the link free again, so
/// that the next step begins the next poll. The snapshot that is decoded
/// holds what the second transfer of each read brought in.
pub proof fn lemma_monitor_cycles(monitor: FaultMonitor, events: Seq<Event>)
    requires
        monitor.drv.is_idle(),
        events.len() == cycle_len(),
    ensures
        monitor.spec_run(events).1 == cycle_script(),
        monitor.spec_run(events).0.drv.is_idle(),
        monitor.spec_run(events).0.operating == monitor.operating,
        monitor.spec_run(events).0.drv.fsr1 == spec_decode(spec_response(events[7])),
        monitor.spec_run(events).0.drv.fsr2 == spec_decode(spec_response(events[16])),
        monitor.spec_run(events).0.faulted == (spec_decode_faults(
            spec_decode(spec_response(events[7])) as u16,
            spec_decode(spec_response(events[16])) as u16,
        ).len() > 0),
{
    let armed = FaultMonitor { drv: monitor.spec_armed(), ..monitor };
    lemma_snapshot_plays(monitor.drv, events);
    lemma_monitor_mirrors(armed, events);
}

/// Transport failure changes nothing in the rhythm of the monitor: where
/// both answers of a poll fail to arrive, the cycle is handed out all the
/// same, both status words read as zero, and nothing is found to report.
pub proof fn lemma_failed_poll_reports_nothing(monitor: FaultMonitor, events: Seq<Event>)
    requires
        monitor.drv.is_idle(),
        events.len() == cycle_len(),
        events[7] is Failed,
        events[16] is Failed,
    ensures
        monitor.spec_run(events).1 == cycle_script(),
        monitor.spec_run(events).0.drv.is_idle(),
        monitor.spec_run(events).0.drv.fsr1 == 0,
        monitor.spec_run(events).0.drv.fsr2 == 0,
        !monitor.spec_run(events).0.faulted,
        spec_decode_faults(0, 0) == Seq::<Fault>::empty(),
{
    lemma_monitor_cycles(monitor, events);
    assert(0u16 & 0x7FF == 0) by (bit_vector);
    lemma_clear_word_reports_nothing(Status::First, 0);
    lemma_clear_word_reports_nothing(Status::Second, 0);
}

} // verus!
