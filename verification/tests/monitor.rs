use cawfoc::drv8323rs::DRV8232RS;
use cawfoc::link::{Action, Event};
use cawfoc::messages::{Commands, Console};
use cawfoc::monitor::FaultMonitor;
use cawfoc::sequencer::DriverState;

/// Steps the monitor through one cycle, answering the transfers from
/// `answers` in turn (`None` is a failed transfer).
fn cycle(
    monitor: &mut FaultMonitor,
    console: &mut Console,
    answers: [Option<u16>; 4],
) -> Vec<Action> {
    let mut actions = Vec::new();
    let mut transfers = 0;
    let mut event = Event::Done;
    for _ in 0..19 {
        let action = monitor.step(event, console);
        event = match action {
            Action::Transfer(_) => {
                let answer = answers[transfers];
                transfers += 1;
                match answer {
                    Some(frame) => Event::Received(frame),
                    None => Event::Failed,
                }
            }
            _ => Event::Done,
        };
        actions.push(action);
    }
    actions
}

fn transaction(frame: u16) -> Vec<Action> {
    vec![Action::Select, Action::Wait(10), Action::Transfer(frame), Action::Release]
}

fn cycle_script() -> Vec<Action> {
    [
        transaction(0x8000),
        transaction(0x8000),
        vec![Action::Wait(10)],
        transaction(0x8800),
        transaction(0x8800),
        vec![Action::Wait(10)],
        vec![Action::Wait(1_000_000)],
    ]
    .concat()
}

fn monitor() -> FaultMonitor {
    FaultMonitor::new(DRV8232RS::new(), DriverState::GateDrivingEnabled)
}

#[test]
fn a_cycle_is_a_snapshot_and_a_rest_of_one_second() {
    let mut monitor = monitor();
    let mut console = Console::new();
    let actions = cycle(&mut monitor, &mut console, [Some(0); 4]);
    assert_eq!(actions, cycle_script());
    assert_eq!(console.take(), None);
    assert_eq!(monitor.state(), DriverState::GateDrivingEnabled);
}

#[test]
fn the_monitor_reports_the_lowest_set_bit_last() {
    let mut monitor = monitor();
    let mut console = Console::new();
    let word = (1 << 10) | (1 << 7) | 1;
    cycle(&mut monitor, &mut console, [Some(0), Some(word), Some(0), Some(0)]);
    assert_eq!(console.take(), Some(Commands::UsartTxBuf("VDS_LC".as_bytes())));
    assert_eq!(monitor.state(), DriverState::Faulted);
    assert_eq!(monitor.drv.fsr1, word);
    assert_eq!(monitor.drv.fsr2, 0);
}

#[test]
fn faults_of_the_second_register_come_after_those_of_the_first() {
    let mut monitor = monitor();
    let mut console = Console::new();
    cycle(&mut monitor, &mut console, [Some(0), Some(1 << 10), Some(0), Some(1 << 7)]);
    assert_eq!(console.take(), Some(Commands::UsartTxBuf("OTW".as_bytes())));
}

#[test]
fn a_persistent_fault_is_reported_anew_every_cycle() {
    let mut monitor = monitor();
    let mut console = Console::new();
    for _ in 0..3 {
        cycle(&mut monitor, &mut console, [Some(0), Some(1 << 8), Some(0), Some(0)]);
        assert_eq!(console.take(), Some(Commands::UsartTxBuf("GDF".as_bytes())));
        assert_eq!(console.take(), None);
    }
}

#[test]
fn a_clean_snapshot_after_a_fault_restores_the_state() {
    let mut monitor = FaultMonitor::new(DRV8232RS::new(), DriverState::ConfiguredDisabled);
    let mut console = Console::new();
    cycle(&mut monitor, &mut console, [Some(0), Some(0), Some(0), Some(1)]);
    assert_eq!(monitor.state(), DriverState::Faulted);
    assert_eq!(console.take(), Some(Commands::UsartTxBuf("VGS_LC".as_bytes())));
    cycle(&mut monitor, &mut console, [Some(0); 4]);
    assert_eq!(monitor.state(), DriverState::ConfiguredDisabled);
    assert_eq!(console.take(), None);
}

#[test]
fn the_monitor_keeps_polling_when_every_transfer_fails() {
    let mut monitor = monitor();
    let mut console = Console::new();
    console.publish(Commands::UsartTxBuf("earlier".as_bytes()));
    for _ in 0..5 {
        let actions = cycle(&mut monitor, &mut console, [None; 4]);
        assert_eq!(actions, cycle_script());
        assert!(monitor.drv.idle());
        assert_eq!(monitor.drv.fsr1, 0);
        assert_eq!(monitor.drv.fsr2, 0);
        assert_eq!(monitor.state(), DriverState::GateDrivingEnabled);
    }
    // Nothing was reported, so the slot still holds what it held.
    assert_eq!(console.take(), Some(Commands::UsartTxBuf("earlier".as_bytes())));
}

#[test]
fn the_monitor_never_halts() {
    let mut monitor = monitor();
    let mut console = Console::new();
    for step in 0..1000u32 {
        let event = match step % 3 {
            0 => Event::Done,
            1 => Event::Failed,
            _ => Event::Received(0xFFFF),
        };
        assert_ne!(monitor.step(event, &mut console), Action::Halt);
    }
}

#[test]
fn the_monitor_finishes_an_operation_it_finds_under_way() {
    let mut drv = DRV8232RS::new();
    assert!(drv.disable_gd());
    let mut monitor = FaultMonitor::new(drv, DriverState::ConfiguredDisabled);
    let mut console = Console::new();
    let mut actions = Vec::new();
    for _ in 0..13 {
        actions.push(monitor.step(Event::Received(0x0021), &mut console));
    }
    assert_eq!(actions[10], Action::Transfer(0x1025));
    assert_eq!(actions[12], Action::Wait(1_000_000));
    assert_eq!(console.take(), None);
    assert_eq!(monitor.step(Event::Done, &mut console), Action::Select);
}
