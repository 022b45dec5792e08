use cawfoc::codec::Register;
use cawfoc::codes::{LOCK_OFF, TDRIVE_4000NS};
use cawfoc::drv8323rs::DRV8232RS;
use cawfoc::link::{Action, Event};

/// Polls until the operation is over, answering every transfer from
/// `answers` in turn (`None` is a failed transfer).
fn play(drv: &mut DRV8232RS, answers: &[Option<u16>]) -> Vec<Action> {
    let mut actions = Vec::new();
    let mut transfers = 0;
    let mut event = Event::Done;
    while let Some(action) = drv.poll(event) {
        event = match action {
            Action::Transfer(_) => {
                let answer = answers[transfers];
                transfers += 1;
                match answer {
                    Some(frame) => Event::Received(frame),
                    None => Event::Failed,
                }
            }
            _ => Event::Done,
        };
        actions.push(action);
    }
    actions
}

fn transaction(frame: u16) -> Vec<Action> {
    vec![Action::Select, Action::Wait(10), Action::Transfer(frame), Action::Release]
}

#[test]
fn a_new_driver_is_idle_and_hands_out_nothing() {
    let mut drv = DRV8232RS::new();
    assert!(drv.idle());
    assert_eq!(drv.poll(Event::Done), None);
    assert_eq!(drv.poll(Event::Received(0x7FF)), None);
    assert_eq!(drv, DRV8232RS::new());
}

#[test]
fn a_write_is_one_transaction_on_one_frame() {
    let mut drv = DRV8232RS::new();
    assert!(drv.write_register(Register::Dcr, 0x021));
    assert!(!drv.idle());
    assert_eq!(play(&mut drv, &[Some(0)]), transaction(0x1021));
    assert!(drv.idle());
}

#[test]
fn a_busy_driver_takes_no_second_operation() {
    let mut drv = DRV8232RS::new();
    assert!(drv.write_register(Register::Dcr, 0x021));
    assert_eq!(drv.poll(Event::Done), Some(Action::Select));
    let before = drv;
    assert!(!drv.write_register(Register::Hsr, 0x3FF));
    assert!(!drv.read_fsr1());
    assert!(!drv.enable_gd());
    assert!(!drv.print_faults());
    assert_eq!(drv, before);
    assert_eq!(drv.poll(Event::Done), Some(Action::Wait(10)));
    assert_eq!(drv.poll(Event::Done), Some(Action::Transfer(0x1021)));
}

#[test]
fn grouped_writes_build_their_frame() {
    let mut drv = DRV8232RS::new();
    assert!(drv.write_hsr(LOCK_OFF, 15, 15));
    assert_eq!(play(&mut drv, &[Some(0)]), transaction(0x1BFF));
    assert!(drv.write_lsr(1, TDRIVE_4000NS, 15, 15));
    assert_eq!(play(&mut drv, &[Some(0)]), transaction(0x27FF));
    assert!(drv.write_ocpcr(1, 0, 3, 3, 15));
    assert_eq!(play(&mut drv, &[Some(0)]), transaction(0x2CFF));
    assert!(drv.write_csacr(0, 1, 0, 3, 1, 0, 0, 0, 3));
    assert_eq!(play(&mut drv, &[Some(0)]), transaction(0x32E3));
    assert!(drv.write_dcr(0, 0, 0, 1, 0, 0, 0, 0, 1));
    assert_eq!(play(&mut drv, &[Some(0)]), transaction(0x1021));
}

#[test]
fn calibrate_sets_the_three_calibration_bits_only() {
    let mut drv = DRV8232RS::new();
    assert!(drv.calibrate());
    assert_eq!(play(&mut drv, &[Some(0)]), transaction(0x301C));
}

#[test]
fn a_read_takes_two_transactions_and_keeps_the_second_answer() {
    let mut drv = DRV8232RS::new();
    assert!(drv.read_register(Register::Ocpcr));
    let actions = play(&mut drv, &[Some(0x0123), Some(0xA8FF)]);
    assert_eq!(actions, [transaction(0xA800), transaction(0xA800)].concat());
    // Only the eleven payload bits of the answer are kept.
    assert_eq!(drv.value, 0x00FF);
    assert!(drv.idle());
}

#[test]
fn status_reads_address_their_register() {
    let mut drv = DRV8232RS::new();
    assert!(drv.read_fsr1());
    let actions = play(&mut drv, &[Some(0), Some(0x0400)]);
    assert_eq!(actions, [transaction(0x8000), transaction(0x8000)].concat());
    assert_eq!(drv.value, 0x0400);
    assert!(drv.read_fsr2());
    let actions = play(&mut drv, &[Some(0), Some(0x0001)]);
    assert_eq!(actions, [transaction(0x8800), transaction(0x8800)].concat());
    assert_eq!(drv.value, 0x0001);
}

#[test]
fn a_failed_transfer_reads_as_zero_and_still_releases_chip_select() {
    let mut drv = DRV8232RS::new();
    assert!(drv.read_register(Register::Dcr));
    let actions = play(&mut drv, &[Some(0x0021), None]);
    assert_eq!(actions, [transaction(0x9000), transaction(0x9000)].concat());
    assert_eq!(drv.value, 0);
    assert!(drv.idle());

    assert!(drv.write_register(Register::Dcr, 0x021));
    let actions = play(&mut drv, &[None]);
    assert_eq!(actions.last(), Some(&Action::Release));
    assert!(drv.idle());
}

#[test]
fn enabling_gate_drive_clears_the_coast_bit_and_keeps_the_rest() {
    let mut drv = DRV8232RS::new();
    assert!(drv.enable_gd());
    let actions = play(&mut drv, &[Some(0), Some(0x0125), Some(0)]);
    assert_eq!(
        actions,
        [transaction(0x9000), transaction(0x9000), transaction(0x1121)].concat()
    );
    assert_eq!(drv.value, 0x0125);
    assert!(drv.idle());
}

#[test]
fn disabling_gate_drive_sets_the_coast_bit_and_keeps_the_rest() {
    let mut drv = DRV8232RS::new();
    assert!(drv.disable_gd());
    let actions = play(&mut drv, &[Some(0), Some(0x0021), Some(0)]);
    assert_eq!(
        actions,
        [transaction(0x9000), transaction(0x9000), transaction(0x1025)].concat()
    );
}

#[test]
fn a_snapshot_reads_both_status_registers_with_a_gap_after_each() {
    let mut drv = DRV8232RS::new();
    assert!(drv.print_faults());
    let actions = play(&mut drv, &[Some(0), Some(0x0481), Some(0), Some(0x0040)]);
    let expected = [
        transaction(0x8000),
        transaction(0x8000),
        vec![Action::Wait(10)],
        transaction(0x8800),
        transaction(0x8800),
        vec![Action::Wait(10)],
    ]
    .concat();
    assert_eq!(actions, expected);
    assert_eq!(drv.fsr1, 0x0481);
    assert_eq!(drv.fsr2, 0x0040);
    assert!(drv.idle());
}

#[test]
fn chip_select_is_released_after_every_transfer_whatever_is_reported() {
    for event in [Event::Done, Event::Failed, Event::Received(0xFFFF)] {
        let mut drv = DRV8232RS::new();
        assert!(drv.print_faults());
        let mut selected = false;
        let mut polls = 0;
        while let Some(action) = drv.poll(event) {
            match action {
                Action::Select => {
                    assert!(!selected);
                    selected = true;
                }
                Action::Release => {
                    assert!(selected);
                    selected = false;
                }
                Action::Transfer(_) => assert!(selected),
                _ => {}
            }
            polls += 1;
            assert!(polls <= 18);
        }
        assert_eq!(polls, 18);
        assert!(!selected);
    }
}
