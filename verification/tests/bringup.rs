use cawfoc::codec::{decode, frame_direction, frame_register, Direction, Register};
use cawfoc::link::{duty_for, Action, Event};
use cawfoc::sequencer::{DriverState, PwmInputs, Sequencer, Stage};

/// A stand-in for the chip and the board around it.
struct Board {
    registers: [u16; 7],
    /// What the chip answers on the next transfer: the outcome of the one
    /// before.
    answer: u16,
    enable: bool,
    calibrate: bool,
    selected: bool,
    pwm_enabled: bool,
    duty_zeroed: bool,
    half_duty: bool,
    /// Whether every transfer fails.
    link_down: bool,
    /// Every (register, payload) written, in order.
    writes: Vec<(Register, u16)>,
}

impl Board {
    fn new() -> Board {
        Board {
            registers: [0; 7],
            answer: 0,
            enable: false,
            calibrate: true,
            selected: false,
            pwm_enabled: false,
            duty_zeroed: false,
            half_duty: false,
            link_down: false,
            writes: Vec::new(),
        }
    }

    fn perform(&mut self, action: Action) -> Event {
        match action {
            Action::Select => self.selected = true,
            Action::Release => self.selected = false,
            Action::Wait(_) => {}
            Action::SetPins { enable, calibrate } => {
                self.enable = enable;
                self.calibrate = calibrate;
            }
            Action::ZeroDuty => self.duty_zeroed = true,
            Action::EnablePwm => self.pwm_enabled = true,
            Action::HalfDuty => self.half_duty = true,
            Action::Halt => {}
            Action::Transfer(frame) => {
                assert!(self.selected);
                if self.link_down {
                    return Event::Failed;
                }
                let answer = self.answer;
                let register = frame_register(frame).unwrap();
                let index = register.address() as usize;
                match frame_direction(frame) {
                    Direction::Read => self.answer = self.registers[index],
                    Direction::Write => {
                        self.registers[index] = decode(frame);
                        self.writes.push((register, decode(frame)));
                        self.answer = 0;
                    }
                }
                return Event::Received(answer);
            }
        }
        Event::Done
    }

    fn register(&self, register: Register) -> u16 {
        self.registers[register.address() as usize]
    }
}

/// Runs the bring-up to its end and returns what it handed out.
fn bring_up(board: &mut Board, seq: &mut Sequencer) -> Vec<Action> {
    let mut actions = Vec::new();
    let mut event = Event::Done;
    loop {
        let action = seq.step(event);
        if action == Action::Halt {
            return actions;
        }
        actions.push(action);
        event = board.perform(action);
        assert!(actions.len() <= 45);
    }
}

#[test]
fn bring_up_leaves_the_fixed_configuration_in_the_chip() {
    let mut board = Board::new();
    let mut seq = Sequencer::new(PwmInputs::Three, false);
    assert_eq!(seq.state(), DriverState::Uninitialized);
    bring_up(&mut board, &mut seq);

    assert_eq!(
        board.writes,
        vec![
            (Register::Csacr, 0x01C),
            (Register::Dcr, 0x021),
            (Register::Csacr, 0x2DF),
            (Register::Csacr, 0x2E3),
            (Register::Ocpcr, 0x4FF),
            (Register::Dcr, 0x021),
        ]
    );
    assert_eq!(board.register(Register::Dcr), 0x021);
    assert_eq!(board.register(Register::Csacr), 0x2E3);
    assert_eq!(board.register(Register::Ocpcr), 0x4FF);
    assert_eq!(board.register(Register::Dcr) & (1 << 2), 0);
    assert!(board.enable);
    assert!(!board.calibrate);
    assert!(!board.selected);
    assert!(board.duty_zeroed);
    assert!(board.pwm_enabled);
    assert!(!board.half_duty);
    assert!(seq.done());
    assert_eq!(seq.state(), DriverState::GateDrivingEnabled);
}

#[test]
fn six_input_boards_get_the_six_input_pwm_mode() {
    let mut board = Board::new();
    let mut seq = Sequencer::new(PwmInputs::Six, false);
    bring_up(&mut board, &mut seq);
    assert_eq!(board.register(Register::Dcr), 0x001);
    assert_eq!(board.register(Register::Csacr), 0x2E3);
    assert_eq!(board.register(Register::Ocpcr), 0x4FF);
}

#[test]
fn bring_up_hands_out_its_script() {
    let mut board = Board::new();
    let mut seq = Sequencer::new(PwmInputs::Three, false);
    let actions = bring_up(&mut board, &mut seq);
    let settle = Action::Wait(100);
    let write = |frame: u16| {
        vec![Action::Select, Action::Wait(10), Action::Transfer(frame), Action::Release, settle]
    };
    let read = vec![Action::Select, Action::Wait(10), Action::Transfer(0x9000), Action::Release];
    let expected = [
        vec![
            Action::ZeroDuty,
            Action::SetPins { enable: false, calibrate: true },
            settle,
            Action::SetPins { enable: true, calibrate: false },
            settle,
        ],
        write(0x301C),
        write(0x1021),
        write(0x32DF),
        write(0x32E3),
        write(0x2CFF),
        read.clone(),
        read,
        vec![
            Action::Select,
            Action::Wait(10),
            Action::Transfer(0x1021),
            Action::Release,
            Action::EnablePwm,
        ],
    ]
    .concat();
    assert_eq!(actions.len(), 43);
    assert_eq!(actions, expected);
}

#[test]
fn pwm_is_enabled_right_after_the_coast_bit_is_written_clear() {
    for link_down in [false, true] {
        let mut board = Board::new();
        board.link_down = link_down;
        let mut seq = Sequencer::new(PwmInputs::Three, true);
        let actions = bring_up(&mut board, &mut seq);
        let pwm = actions.iter().position(|a| *a == Action::EnablePwm).unwrap();
        assert_eq!(pwm, 42);
        match actions[40] {
            Action::Transfer(frame) => {
                assert_eq!(frame_register(frame), Some(Register::Dcr));
                assert_eq!(frame_direction(frame), Direction::Write);
                assert_eq!(decode(frame) & (1 << 2), 0);
            }
            other => panic!("unexpected action {:?}", other),
        }
        // Nothing stands between the end of the write and the PWM enable.
        assert_eq!(actions[41], Action::Release);
        assert_eq!(actions.iter().filter(|a| **a == Action::EnablePwm).count(), 1);
    }
}

#[test]
fn the_smoke_test_sets_half_duty_after_pwm_is_on() {
    let mut board = Board::new();
    let mut seq = Sequencer::new(PwmInputs::Three, true);
    let actions = bring_up(&mut board, &mut seq);
    assert_eq!(actions.len(), 44);
    assert_eq!(actions[42], Action::EnablePwm);
    assert_eq!(actions[43], Action::HalfDuty);
    assert!(board.half_duty);
}

#[test]
fn the_chip_is_not_touched_again_before_a_change_has_settled() {
    let mut board = Board::new();
    let mut seq = Sequencer::new(PwmInputs::Six, false);
    let actions = bring_up(&mut board, &mut seq);
    let mut changes = 0;
    for (at, action) in actions.iter().enumerate() {
        let changed = match action {
            Action::SetPins { .. } => true,
            Action::Release => match actions[at - 1] {
                Action::Transfer(frame) => frame_direction(frame) == Direction::Write,
                _ => false,
            },
            _ => false,
        };
        if changed {
            changes += 1;
            // The write that clears the coast bit is the last time the chip
            // is touched: the PWM enable follows it at once.
            let expected = if at == 41 { Action::EnablePwm } else { Action::Wait(100) };
            assert_eq!(actions[at + 1], expected);
        }
    }
    assert_eq!(changes, 8);
}

#[test]
fn the_driver_state_follows_the_stages() {
    let mut board = Board::new();
    let mut seq = Sequencer::new(PwmInputs::Three, false);
    let mut event = Event::Done;
    let mut seen = vec![seq.state()];
    while !seq.done() {
        let action = seq.step(event);
        event = board.perform(action);
        if *seen.last().unwrap() != seq.state() {
            seen.push(seq.state());
        }
        if action == Action::EnablePwm {
            assert_eq!(seq.state(), DriverState::GateDrivingEnabled);
        }
    }
    assert_eq!(
        seen,
        vec![
            DriverState::Uninitialized,
            DriverState::Calibrating,
            DriverState::ConfiguredDisabled,
            DriverState::GateDrivingEnabled,
        ]
    );
    assert_eq!(seq.stage, Stage::Running);
    assert_eq!(seq.step(Event::Done), Action::Halt);
    assert_eq!(seq.step(Event::Failed), Action::Halt);
    assert!(seq.release().idle());
}

#[test]
fn a_dead_link_does_not_stop_the_bring_up() {
    let mut board = Board::new();
    board.link_down = true;
    let mut seq = Sequencer::new(PwmInputs::Three, false);
    let actions = bring_up(&mut board, &mut seq);
    assert_eq!(actions.len(), 43);
    assert!(seq.done());
    assert!(!board.selected);
}

#[test]
fn duties_are_zero_or_half_of_the_maximum() {
    assert_eq!(duty_for(Action::ZeroDuty, 1000), Some(0));
    assert_eq!(duty_for(Action::HalfDuty, 1000), Some(500));
    assert_eq!(duty_for(Action::HalfDuty, 1601), Some(800));
    assert_eq!(duty_for(Action::HalfDuty, u32::MAX), Some(u32::MAX / 2));
    assert_eq!(duty_for(Action::EnablePwm, 1000), None);
    assert_eq!(duty_for(Action::Wait(100), 1000), None);
}
