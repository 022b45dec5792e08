//! The bring-up of the chip: a fixed, timed sequence of pin changes and
//! register writes that ends with gate driving enabled and the PWM
//! channels switched on.
//!
//! Every change of a pin and every register write is followed by a settle
//! delay before the chip is touched again. The last write clears the coast
//! bit; the PWM channels are switched on by the very step that finds this
//! write over, with nothing in between.

use crate::codec::{spec_decode, Register};
use crate::codes::{
    CSA_GAIN_40, DEADTIME_50NS, DIS_GDF_EN, OCP_DEG_8US, OCP_NONE, PWM_MODE_3X, PWM_MODE_6X,
    SEN_LVL_1_0, TRETRY_50US, VDS_LVL_1_88, VREF_DIV_2,
};
use crate::drv8323rs::{
    coast_frame, lemma_coast_plays, lemma_idle_plays_nothing, lemma_write_plays, read_frame,
    spec_calibrate_payload, write_frame, Job, DRV8232RS,
};
use crate::fields::{spec_csacr_payload, spec_dcr_payload, spec_ocpcr_payload};
use crate::link::{spec_response, transaction, Action, Event, SETTLE_MICROS};
use vstd::prelude::*;

verus! {

/// How many PWM inputs the bridge is driven through.
#[derive(Clone, Copy, Debug, PartialEq, Eq, Structural)]
pub enum PwmInputs {
    /// One input per leg; the chip derives the low side itself.
    Three,
    /// One input per switch.
    Six,
}

/// What the chip has been brought to.
#[derive(Clone, Copy, Debug, PartialEq, Eq, Structural)]
pub enum DriverState {
    /// Nothing has been done to the chip yet.
    Uninitialized,
    /// The control lines are being driven and the registers written.
    Calibrating,
    /// Every register is written; the bridge still coasts.
    ConfiguredDisabled,
    /// The coast bit is cleared: the gates follow the PWM inputs.
    GateDrivingEnabled,
    /// The chip reports a fault.
    Faulted,
}

/// The step of the bring-up that comes next.
#[derive(Clone, Copy, Debug, PartialEq, Eq, Structural)]
pub enum Stage {
    /// Set all duties to zero.
    ZeroDuty,
    /// Drive enable low and calibrate high.
    AssertCalibrate,
    /// Let the offsets settle.
    SettleCalibrate,
    /// Drive calibrate low and enable high.
    AssertEnable,
    /// Let the chip power up.
    SettleEnable,
    /// Short the three sense amplifier inputs, then settle.
    Calibrate,
    /// Write the drive control fields, then settle.
    DriveControl,
    /// Write the sense amplifier fields with calibration on, then settle.
    SenseZero,
    /// Write the sense amplifier fields with calibration off, then settle.
    SenseNormal,
    /// Write the overcurrent protection fields, then settle.
    Overcurrent,
    /// Clear the coast bit, then switch the PWM channels on at once.
    EnableGateDrive,
    /// Set all duties to one half.
    SmokeTest,
    /// The bring-up is over.
    Running,
}

/// The bring-up state machine.
#[derive(Clone, Copy, Debug, PartialEq, Eq, Structural)]
pub struct Sequencer {
    /// The PWM topology of the board.
    pub inputs: PwmInputs,
    /// Whether the bring-up ends with all duties at one half.
    pub smoke_test: bool,
    /// The step that comes next.
    pub stage: Stage,
    /// The register protocol driver.
    pub drv: DRV8232RS,
}

impl PwmInputs {
    /// The code of the PWM mode field for this topology.
    pub open spec fn spec_mode(self) -> u16 {
        match self {
            PwmInputs::Three => PWM_MODE_3X,
            PwmInputs::Six => PWM_MODE_6X,
        }
    }

    /// The code of the PWM mode field for this topology.
    pub fn mode(self) -> (code: u16)
        ensures
            code == self.spec_mode(),
    {
        match self {
            PwmInputs::Three => PWM_MODE_3X,
            PwmInputs::Six => PWM_MODE_6X,
        }
    }
}

impl Stage {
    /// Whether the step is a register operation.
    pub open spec fn is_register(self) -> bool {
        self is Calibrate || self is DriveControl || self is SenseZero || self is SenseNormal
            || self is Overcurrent || self is EnableGateDrive
    }

    /// What is handed out when the register operation of the step is over:
    /// the PWM enable after the clearing of the coast bit, the settle delay
    /// after any other operation.
    pub open spec fn spec_closing(self) -> Action {
        if self is EnableGateDrive {
            Action::EnablePwm
        } else {
            Action::Wait(SETTLE_MICROS)
        }
    }

    /// The step that follows this one.
    pub open spec fn spec_next(self, smoke_test: bool) -> Stage {
        match self {
            Stage::ZeroDuty => Stage::AssertCalibrate,
            Stage::AssertCalibrate => Stage::SettleCalibrate,
            Stage::SettleCalibrate => Stage::AssertEnable,
            Stage::AssertEnable => Stage::SettleEnable,
            Stage::SettleEnable => Stage::Calibrate,
            Stage::Calibrate => Stage::DriveControl,
            Stage::DriveControl => Stage::SenseZero,
            Stage::SenseZero => Stage::SenseNormal,
            Stage::SenseNormal => Stage::Overcurrent,
            Stage::Overcurrent => Stage::EnableGateDrive,
            Stage::EnableGateDrive => if smoke_test {
                Stage::SmokeTest
            } else {
                Stage::Running
            },
            Stage::SmokeTest => Stage::Running,
            Stage::Running => Stage::Running,
        }
    }

    /// What the chip has been brought to when this step comes next.
    pub open spec fn spec_state(self) -> DriverState {
        match self {
            Stage::ZeroDuty | Stage::AssertCalibrate => DriverState::Uninitialized,
            Stage::SettleCalibrate
            | Stage::AssertEnable
            | Stage::SettleEnable
            | Stage::Calibrate
            | Stage::DriveControl
            | Stage::SenseZero
            | Stage::SenseNormal
            | Stage::Overcurrent => DriverState::Calibrating,
            Stage::EnableGateDrive => DriverState::ConfiguredDisabled,
            Stage::SmokeTest | Stage::Running => DriverState::GateDrivingEnabled,
        }
    }

    /// What is handed out when the register operation of the step is over.
    pub fn closing(self) -> (action: Action)
        ensures
            action == self.spec_closing(),
    {
        match self {
            Stage::EnableGateDrive => Action::EnablePwm,
            _ => Action::Wait(SETTLE_MICROS),
        }
    }

    /// The step that follows this one.
    pub fn next(self, smoke_test: bool) -> (stage: Stage)
        ensures
            stage == self.spec_next(smoke_test),
    {
        match self {
            Stage::ZeroDuty => Stage::AssertCalibrate,
            Stage::AssertCalibrate => Stage::SettleCalibrate,
            Stage::SettleCalibrate => Stage::AssertEnable,
            Stage::AssertEnable => Stage::SettleEnable,
            Stage::SettleEnable => Stage::Calibrate,
            Stage::Calibrate => Stage::DriveControl,
            Stage::DriveControl => Stage::SenseZero,
            Stage::SenseZero => Stage::SenseNormal,
            Stage::SenseNormal => Stage::Overcurrent,
            Stage::Overcurrent => Stage::EnableGateDrive,
            Stage::EnableGateDrive => if smoke_test {
                Stage::SmokeTest
            } else {
                Stage::Running
            },
            Stage::SmokeTest => Stage::Running,
            Stage::Running => Stage::Running,
        }
    }

    /// What the chip has been brought to when this step comes next.
    pub fn state(self) -> (state: DriverState)
        ensures
            state == self.spec_state(),
    {
        match self {
            Stage::ZeroDuty | Stage::AssertCalibrate => DriverState::Uninitialized,
            Stage::SettleCalibrate
            | Stage::AssertEnable
            | Stage::SettleEnable
            | Stage::Calibrate
            | Stage::DriveControl
            | Stage::SenseZero
            | Stage::SenseNormal
            | Stage::Overcurrent => DriverState::Calibrating,
            Stage::EnableGateDrive => DriverState::ConfiguredDisabled,
            Stage::SmokeTest | Stage::Running => DriverState::GateDrivingEnabled,
        }
    }
}

/// The payload that the bring-up writes into the drive control register:
/// gate-drive faults reported, the PWM mode of the board, faults cleared.
pub open spec fn drive_control_payload(inputs: PwmInputs) -> int {
    spec_dcr_payload(0, DIS_GDF_EN, 0, inputs.spec_mode(), 0, 0, 0, 0, 1)
}

/// The payload that the bring-up writes into the sense amplifier control
/// register while the amplifier inputs are shorted: halved reference, gain
/// 40, highest sense overcurrent level, sense overcurrent reported.
pub open spec fn sense_zero_payload() -> int {
    spec_csacr_payload(0, VREF_DIV_2, 0, CSA_GAIN_40, 0, 1, 1, 1, SEN_LVL_1_0)
}

/// The payload that the bring-up leaves in the sense amplifier control
/// register: as [`sense_zero_payload`], with the inputs no longer shorted and
/// the sense overcurrent fault silenced.
pub open spec fn sense_normal_payload() -> int {
    spec_csacr_payload(0, VREF_DIV_2, 0, CSA_GAIN_40, 1, 0, 0, 0, SEN_LVL_1_0)
}

/// The payload that the bring-up writes into the overcurrent protection
/// control register: protection off, 50 us retry, 50 ns dead time, 8 us
/// deglitch, highest trip level.
pub open spec fn overcurrent_payload() -> int {
    spec_ocpcr_payload(TRETRY_50US, DEADTIME_50NS, OCP_NONE, OCP_DEG_8US, VDS_LVL_1_88)
}

/// The driver with the register operation of `stage` begun, where the link
/// was free and the step is a register operation; unchanged otherwise.
pub open spec fn spec_begin_stage(drv: DRV8232RS, stage: Stage, inputs: PwmInputs) -> DRV8232RS {
    match stage {
        Stage::Calibrate => drv.spec_begin(
            Job::Write,
            write_frame(Register::Csacr, spec_calibrate_payload() as u16),
        ),
        Stage::DriveControl => drv.spec_begin(
            Job::Write,
            write_frame(Register::Dcr, drive_control_payload(inputs) as u16),
        ),
        Stage::SenseZero => drv.spec_begin(
            Job::Write,
            write_frame(Register::Csacr, sense_zero_payload() as u16),
        ),
        Stage::SenseNormal => drv.spec_begin(
            Job::Write,
            write_frame(Register::Csacr, sense_normal_payload() as u16),
        ),
        Stage::Overcurrent => drv.spec_begin(
            Job::Write,
            write_frame(Register::Ocpcr, overcurrent_payload() as u16),
        ),
        Stage::EnableGateDrive => drv.spec_begin(Job::ClearCoast, read_frame(Register::Dcr)),
        _ => drv,
    }
}

impl Sequencer {
    /// What the chip has been brought to.
    pub open spec fn spec_state(self) -> DriverState {
        self.stage.spec_state()
    }

    /// Whether the bring-up is over.
    pub open spec fn is_done(self) -> bool {
        self.stage is Running
    }

    /// One step of the bring-up: the state it moves to and the action it
    /// hands out.
    pub open spec fn spec_step(self, event: Event) -> (Sequencer, Action) {
        let onward = Sequencer { stage: self.stage.spec_next(self.smoke_test), ..self };
        match self.stage {
            Stage::ZeroDuty => (onward, Action::ZeroDuty),
            Stage::AssertCalibrate => (
                onward,
                Action::SetPins { enable: false, calibrate: true },
            ),
            Stage::AssertEnable => (onward, Action::SetPins { enable: true, calibrate: false }),
            Stage::SettleCalibrate | Stage::SettleEnable => (onward, Action::Wait(SETTLE_MICROS)),
            Stage::SmokeTest => (onward, Action::HalfDuty),
            Stage::Running => (self, Action::Halt),
            _ => {
                let (drv, action) = spec_begin_stage(self.drv, self.stage, self.inputs).spec_poll(
                    event,
                );
                match action {
                    Some(action) => (Sequencer { drv, ..self }, action),
                    None => (Sequencer { drv, ..onward }, self.stage.spec_closing()),
                }
            },
        }
    }

    /// The bring-up stepped once for each of `events`: the state it ends in
    /// and the actions it hands out on the way.
    pub open spec fn spec_run(self, events: Seq<Event>) -> (Sequencer, Seq<Action>)
        decreases events.len(),
    {
        if events.len() == 0 {
            (self, Seq::empty())
        } else {
            let (next, action) = self.spec_step(events.first());
            let (end, rest) = next.spec_run(events.drop_first());
            (end, seq![action] + rest)
        }
    }

    /// A bring-up that has not begun, for a board with the given PWM
    /// topology.
    pub fn new(inputs: PwmInputs, smoke_test: bool) -> (seq: Sequencer)
        ensures
            seq == (Sequencer {
                inputs,
                smoke_test,
                stage: Stage::ZeroDuty,
                drv: DRV8232RS::spec_new(),
            }),
            seq.drv.is_idle(),
            seq.spec_state() is Uninitialized,
    {
        Sequencer { inputs, smoke_test, stage: Stage::ZeroDuty, drv: DRV8232RS::new() }
    }

    /// What the chip has been brought to.
    pub fn state(&self) -> (state: DriverState)
        ensures
            state == self.spec_state(),
    {
        self.stage.state()
    }

    /// Whether the bring-up is over.
    pub fn done(&self) -> (done: bool)
        ensures
            done == self.is_done(),
    {
        match self.stage {
            Stage::Running => true,
            _ => false,
        }
    }

    /// Gives up the register protocol driver, for whoever drives the chip
    /// next.
    pub fn release(self) -> (drv: DRV8232RS)
        ensures
            drv == self.drv,
    {
        self.drv
    }

    /// Begins the register operation of the step that comes next, where the
    /// link is free.
    fn begin_stage(&mut self)
        ensures
            *final(self) == (Sequencer {
                drv: spec_begin_stage(old(self).drv, old(self).stage, old(self).inputs),
                ..*old(self)
            }),
    {
        match self.stage {
            Stage::Calibrate => {
                self.drv.calibrate();
            },
            Stage::DriveControl => {
                self.drv.write_dcr(0, DIS_GDF_EN, 0, self.inputs.mode(), 0, 0, 0, 0, 1);
            },
            Stage::SenseZero => {
                self.drv.write_csacr(0, VREF_DIV_2, 0, CSA_GAIN_40, 0, 1, 1, 1, SEN_LVL_1_0);
            },
            Stage::SenseNormal => {
                self.drv.write_csacr(0, VREF_DIV_2, 0, CSA_GAIN_40, 1, 0, 0, 0, SEN_LVL_1_0);
            },
            Stage::Overcurrent => {
                self.drv.write_ocpcr(
                    TRETRY_50US,
                    DEADTIME_50NS,
                    OCP_NONE,
                    OCP_DEG_8US,
                    VDS_LVL_1_88,
                );
            },
            Stage::EnableGateDrive => {
                self.drv.enable_gd();
            },
            _ => {},
        }
    }

    /// Moves the bring-up one action on. `event` tells how the action handed
    /// out last went. Once the bring-up is over, every step hands out `Halt`.
    ///
    /// The PWM channels are switched on by the step that finds the clearing of
    /// the coast bit over, and by no other: no wait and no transfer stands
    /// between the end of that write and the PWM enable.
    pub fn step(&mut self, event: Event) -> (action: Action)
        ensures
            (*final(self), action) == old(self).spec_step(event),
            action is EnablePwm <==> final(self).spec_state() is GateDrivingEnabled && !(old(
                self,
            ).spec_state() is GateDrivingEnabled),
            action is EnablePwm ==> old(self).stage is EnableGateDrive && !old(
                self,
            ).drv.is_idle() && final(self).drv.is_idle(),
            action is Halt <==> old(self).is_done(),
            old(self).is_done() ==> *final(self) == *old(self),
    {
        let onward = self.stage.next(self.smoke_test);
        match self.stage {
            Stage::ZeroDuty => {
                self.stage = onward;
                Action::ZeroDuty
            },
            Stage::AssertCalibrate => {
                self.stage = onward;
                Action::SetPins { enable: false, calibrate: true }
            },
            Stage::AssertEnable => {
                self.stage = onward;
                Action::SetPins { enable: true, calibrate: false }
            },
            Stage::SettleCalibrate | Stage::SettleEnable => {
                self.stage = onward;
                Action::Wait(SETTLE_MICROS)
            },
            Stage::SmokeTest => {
                self.stage = onward;
                Action::HalfDuty
            },
            Stage::Running => Action::Halt,
            _ => {
                self.begin_stage();
                match self.drv.poll(event) {
                    Some(action) => action,
                    None => {
                        let closing = self.stage.closing();
                        self.stage = onward;
                        closing
                    },
                }
            },
        }
    }
}

/// An action followed by the settle delay.
pub open spec fn settled(actions: Seq<Action>) -> Seq<Action> {
    actions + seq![Action::Wait(SETTLE_MICROS)]
}

/// The frame that a register step of the bring-up writes.
pub open spec fn stage_frame(stage: Stage, inputs: PwmInputs) -> u16 {
    match stage {
        Stage::Calibrate => write_frame(Register::Csacr, spec_calibrate_payload() as u16),
        Stage::DriveControl => write_frame(Register::Dcr, drive_control_payload(inputs) as u16),
        Stage::SenseZero => write_frame(Register::Csacr, sense_zero_payload() as u16),
        Stage::SenseNormal => write_frame(Register::Csacr, sense_normal_payload() as u16),
        _ => write_frame(Register::Ocpcr, overcurrent_payload() as u16),
    }
}

/// Everything that the bring-up hands out before it is over, in order, where
/// `answer` is what the read of the drive control register delivers.
pub open spec fn bringup_script(inputs: PwmInputs, answer: u16) -> Seq<Action> {
    preamble_script() + settled(transaction(stage_frame(Stage::Calibrate, inputs))) + settled(
        transaction(stage_frame(Stage::DriveControl, inputs)),
    ) + settled(transaction(stage_frame(Stage::SenseZero, inputs))) + settled(
        transaction(stage_frame(Stage::SenseNormal, inputs)),
    ) + settled(transaction(stage_frame(Stage::Overcurrent, inputs))) + enable_script(answer)
}

/// The number of actions in [`bringup_script`].
pub open spec fn bringup_len() -> int {
    43
}

/// The frames of the bring-up as numbers. The calibration write sets bits 4,
/// 3 and 2 of the sense amplifier control register and nothing else.
pub proof fn lemma_stage_frames(inputs: PwmInputs)
    ensures
        stage_frame(Stage::Calibrate, inputs) == 0x301C,
        stage_frame(Stage::DriveControl, inputs) == match inputs {
            PwmInputs::Three => 0x1021u16,
            PwmInputs::Six => 0x1001u16,
        },
        stage_frame(Stage::SenseZero, inputs) == 0x32DF,
        stage_frame(Stage::SenseNormal, inputs) == 0x32E3,
        stage_frame(Stage::Overcurrent, inputs) == 0x2CFF,
        read_frame(Register::Dcr) == 0x9000,
{
}

/// A run of steps is its first part followed by its second part.
proof fn lemma_run_split(seq: Sequencer, events: Seq<Event>, n: int)
    requires
        0 <= n <= events.len(),
    ensures
        seq.spec_run(events) == ({
            let (middle, head) = seq.spec_run(events.take(n));
            let (end, tail) = middle.spec_run(events.skip(n));
            (end, head + tail)
        }),
        seq.spec_run(events.take(n)).1.len() == n,
    decreases n,
{
    if n == 0 {
        assert(events.skip(0) =~= events);
    } else {
        let next = seq.spec_step(events.first()).0;
        lemma_run_split(next, events.drop_first(), n - 1);
        assert(events.take(n).drop_first() =~= events.drop_first().take(n - 1));
        assert(events.drop_first().skip(n - 1) =~= events.skip(n));
    }
}

/// While the driver is busy with the operation of a register step, the
/// bring-up hands out what the driver hands out; the step that finds the
/// driver through hands out what closes the operation and moves on.
proof fn lemma_stage_mirrors(seq: Sequencer, events: Seq<Event>)
    requires
        seq.stage.is_register(),
        !seq.drv.is_idle(),
        events.len() > 0,
        seq.drv.spec_play(events).1.len() == events.len() - 1,
    ensures
        seq.spec_run(events) == (
            Sequencer {
                drv: seq.drv.spec_play(events).0,
                stage: seq.stage.spec_next(seq.smoke_test),
                ..seq
            },
            seq.drv.spec_play(events).1 + seq![seq.stage.spec_closing()],
        ),
    decreases events.len(),
{
    let (next, action) = seq.drv.spec_poll(events.first());
    let rest = events.drop_first();
    let after = seq.spec_step(events.first()).0;
    match action {
        None => {
            lemma_idle_plays_nothing(next, rest);
        },
        Some(action) => {
            lemma_stage_mirrors(after, rest);
        },
    }
}

/// A register step from its start: the operation is begun, played to its
/// end, and closed.
proof fn lemma_stage_plays(seq: Sequencer, events: Seq<Event>)
    requires
        seq.stage.is_register(),
        seq.drv.is_idle(),
        events.len() > 0,
        spec_begin_stage(seq.drv, seq.stage, seq.inputs).spec_play(events).1.len() == events.len()
            - 1,
    ensures
        seq.spec_run(events) == ({
            let (drv, actions) = spec_begin_stage(seq.drv, seq.stage, seq.inputs).spec_play(
                events,
            );
            (
                Sequencer { drv, stage: seq.stage.spec_next(seq.smoke_test), ..seq },
                actions + seq![seq.stage.spec_closing()],
            )
        }),
{
    let begun = Sequencer { drv: spec_begin_stage(seq.drv, seq.stage, seq.inputs), ..seq };
    lemma_stage_mirrors(begun, events);
}

/// A step of the bring-up that writes one register hands out exactly one
/// transaction on the frame of that register, then the settle delay.
proof fn lemma_write_stage_plays(seq: Sequencer, events: Seq<Event>)
    requires
        seq.stage.is_register(),
        !(seq.stage is EnableGateDrive),
        seq.drv.is_idle(),
        events.len() == 5,
    ensures
        seq.spec_run(events).1 == settled(transaction(stage_frame(seq.stage, seq.inputs))),
        seq.spec_run(events).0.stage == seq.stage.spec_next(seq.smoke_test),
        seq.spec_run(events).0.inputs == seq.inputs,
        seq.spec_run(events).0.smoke_test == seq.smoke_test,
        seq.spec_run(events).0.drv.is_idle(),
{
    lemma_write_plays(seq.drv, stage_frame(seq.stage, seq.inputs), events);
    lemma_stage_plays(seq, events);
}

/// What the last step of the bring-up hands out: the read of the drive
/// control register, the write of what was read with the coast bit cleared,
/// and the PWM enable right behind the release that ends that write.
pub open spec fn enable_script(answer: u16) -> Seq<Action> {
    transaction(read_frame(Register::Dcr)) + transaction(read_frame(Register::Dcr)) + transaction(
        coast_frame(answer, false),
    ) + seq![Action::EnablePwm]
}

/// The step that enables gate driving hands out [`enable_script`]: no wait
/// and no transfer stands between the end of the write and the PWM enable.
proof fn lemma_enable_stage_plays(seq: Sequencer, events: Seq<Event>)
    requires
        seq.stage is EnableGateDrive,
        seq.drv.is_idle(),
        events.len() == 13,
    ensures
        seq.spec_run(events).1 == enable_script(spec_decode(spec_response(events[7])) as u16),
        seq.spec_run(events).0.stage == Stage::EnableGateDrive.spec_next(seq.smoke_test),
        seq.spec_run(events).0.inputs == seq.inputs,
        seq.spec_run(events).0.smoke_test == seq.smoke_test,
        seq.spec_run(events).0.drv.is_idle(),
{
    lemma_coast_plays(seq.drv, false, events);
    lemma_stage_plays(seq, events);
}

/// What the bring-up hands out before it writes the first register: duties
/// to zero, calibrate asserted with enable low, a settle delay, enable
/// asserted with calibrate low, a settle delay.
pub open spec fn preamble_script() -> Seq<Action> {
    seq![
        Action::ZeroDuty,
        Action::SetPins { enable: false, calibrate: true },
        Action::Wait(SETTLE_MICROS),
        Action::SetPins { enable: true, calibrate: false },
        Action::Wait(SETTLE_MICROS),
    ]
}

/// The five steps before the first register is written hand out
/// [`preamble_script`].
proof fn lemma_preamble_plays(seq: Sequencer, events: Seq<Event>)
    requires
        seq.stage is ZeroDuty,
        events.len() == 5,
    ensures
        seq.spec_run(events) == (Sequencer { stage: Stage::Calibrate, ..seq }, preamble_script()),
{
    let e1 = events.drop_first();
    let e2 = e1.drop_first();
    let e3 = e2.drop_first();
    let e4 = e3.drop_first();
    let e5 = e4.drop_first();
    let s1 = seq.spec_step(events.first()).0;
    let s2 = s1.spec_step(e1.first()).0;
    let s3 = s2.spec_step(e2.first()).0;
    let s4 = s3.spec_step(e3.first()).0;
    let s5 = s4.spec_step(e4.first()).0;
    assert(s5.spec_run(e5) == (s5, Seq::<Action>::empty()));
    assert(s4.spec_run(e4).1 =~= preamble_script().skip(4));
    assert(s3.spec_run(e3).1 =~= preamble_script().skip(3));
    assert(s2.spec_run(e2).1 =~= preamble_script().skip(2));
    assert(s1.spec_run(e1).1 =~= preamble_script().skip(1));
}

/// The whole bring-up is fixed. From its start, whatever the caller reports
/// back, the first 43 steps hand out exactly [`bringup_script`], where the
/// payload written back into the drive control register is the one that the
/// second transfer of its read brought in (zero where that transfer failed).
/// After them the chip drives the gates and only the smoke test or `Halt` is
/// left.
pub proof fn lemma_bringup_plays(seq: Sequencer, events: Seq<Event>)
    requires
        seq.stage is ZeroDuty,
        seq.drv.is_idle(),
        events.len() == bringup_len(),
    ensures
        seq.spec_run(events).1 == bringup_script(
            seq.inputs,
            spec_decode(spec_response(events[37])) as u16,
        ),
        seq.spec_run(events).0.stage == Stage::EnableGateDrive.spec_next(seq.smoke_test),
        seq.spec_run(events).0.spec_state() is GateDrivingEnabled,
        seq.spec_run(events).0.drv.is_idle(),
{
    lemma_run_split(seq, events, 5);
    lemma_preamble_plays(seq, events.take(5));
    let s5 = seq.spec_run(events.take(5)).0;
    let r5 = events.skip(5);

    lemma_run_split(s5, r5, 5);
    lemma_write_stage_plays(s5, r5.take(5));
    let s10 = s5.spec_run(r5.take(5)).0;
    let r10 = r5.skip(5);

    lemma_run_split(s10, r10, 5);
    lemma_write_stage_plays(s10, r10.take(5));
    let s15 = s10.spec_run(r10.take(5)).0;
    let r15 = r10.skip(5);

    lemma_run_split(s15, r15, 5);
    lemma_write_stage_plays(s15, r15.take(5));
    let s20 = s15.spec_run(r15.take(5)).0;
    let r20 = r15.skip(5);

    lemma_run_split(s20, r20, 5);
    lemma_write_stage_plays(s20, r20.take(5));
    let s25 = s20.spec_run(r20.take(5)).0;
    let r25 = r20.skip(5);

    lemma_run_split(s25, r25, 5);
    lemma_write_stage_plays(s25, r25.take(5));
    let s30 = s25.spec_run(r25.take(5)).0;
    let r30 = r25.skip(5);

    lemma_enable_stage_plays(s30, r30);
}

/// In the script the PWM channels are switched on last, right behind the
/// write that clears the coast bit and the release of chip select that ends
/// it.
pub proof fn lemma_script_enables_pwm_last(inputs: PwmInputs, answer: u16)
    ensures
        bringup_script(inputs, answer).len() == bringup_len(),
        forall|i: int|
            0 <= i < 42 ==> !(#[trigger] bringup_script(inputs, answer)[i] is EnablePwm),
        bringup_script(inputs, answer)[40] == Action::Transfer(coast_frame(answer, false)),
        bringup_script(inputs, answer)[41] == Action::Release,
        bringup_script(inputs, answer)[42] == Action::EnablePwm,
{
    let script = bringup_script(inputs, answer);
    assert forall|i: int| 0 <= i < 42 implies !(#[trigger] script[i] is EnablePwm) by {}
}

/// Once the PWM channels are on, no step switches them on again.
pub proof fn lemma_pwm_enabled_once(seq: Sequencer, events: Seq<Event>, i: int)
    requires
        seq.stage is SmokeTest || seq.stage is Running,
        0 <= i < events.len(),
    ensures
        seq.spec_run(events).1.len() == events.len(),
        !(seq.spec_run(events).1[i] is EnablePwm),
    decreases events.len(),
{
    let next = seq.spec_step(events.first()).0;
    lemma_run_split(seq, events, events.len() as int);
    if i > 0 {
        lemma_pwm_enabled_once(next, events.drop_first(), i - 1);
    }
}

/// The PWM channels are never switched on before gate driving is enabled,
/// and nothing stands between the two. Whatever the caller reports back and
/// however long the bring-up is run from its start: where step `i` hands out
/// the PWM enable, it is step 42, and the two steps before it handed out the
/// frame that writes the drive control register back with the coast bit
/// cleared and the release of chip select that completes that write.
pub proof fn lemma_pwm_after_gate_drive(seq: Sequencer, events: Seq<Event>, i: int)
    requires
        seq.stage is ZeroDuty,
        seq.drv.is_idle(),
        0 <= i < events.len(),
        seq.spec_run(events).1[i] is EnablePwm,
    ensures
        i == 42,
        seq.spec_run(events).1[40] == Action::Transfer(
            coast_frame(spec_decode(spec_response(events[37])) as u16, false),
        ),
        seq.spec_run(events).1[41] == Action::Release,
{
    let n = events.len() as int;
    let trace = seq.spec_run(events).1;
    lemma_run_split(seq, events, n);
    if n >= 43 {
        let answer = spec_decode(spec_response(events[37])) as u16;
        lemma_run_split(seq, events, 43);
        lemma_bringup_plays(seq, events.take(43));
        lemma_script_enables_pwm_last(seq.inputs, answer);
        let middle = seq.spec_run(events.take(43)).0;
        if i >= 43 {
            lemma_pwm_enabled_once(middle, events.skip(43), i - 43);
        }
    } else {
        let padded = events + Seq::new((43 - n) as nat, |k: int| Event::Done);
        let answer = spec_decode(spec_response(padded[37])) as u16;
        let script = bringup_script(seq.inputs, answer);
        lemma_bringup_plays(seq, padded);
        lemma_script_enables_pwm_last(seq.inputs, answer);
        lemma_run_split(seq, padded, n);
        assert(padded.take(n) =~= events);
        assert(script[i] == trace[i]);
    }
}

} // verus!
