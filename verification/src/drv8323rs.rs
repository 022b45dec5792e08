//! The register protocol driver.
//!
//! [`DRV8232RS`] turns a register operation into chip-select-scoped
//! transactions and plays them out one action per [`DRV8232RS::poll`]. The
//! chip answers a read on the transfer that follows it, so a read takes two
//! transactions. A failed transfer counts as an answer of zero: the operation
//! goes on, and chip select is released as after any other transfer.

use crate::codec::{
    decode, encode, lemma_round_trip, spec_decode, spec_encode, spec_frame_address,
    spec_frame_direction, Direction, Register, PAYLOAD_MAX,
};
use crate::fields::{
    csacr_payload, dcr_payload, held, hsr_payload, lsr_payload, ocpcr_payload, spec_csacr_payload,
    spec_dcr_payload, spec_hsr_payload, spec_lsr_payload, spec_ocpcr_payload, spec_with_coast,
    with_coast,
};
use crate::link::{response, spec_response, transaction, Action, Event, SELECT_SETUP_MICROS};
use vstd::prelude::*;

verus! {

/// The operation that the driver is carrying out.
#[derive(Clone, Copy, Debug, PartialEq, Eq, Structural)]
pub enum Job {
    /// Nothing; the link is free.
    Idle,
    /// One write: a single transaction.
    Write,
    /// One read: the request, then the transaction that fetches the answer.
    Read,
    /// Read the drive control register, clear its coast bit, write it back.
    ClearCoast,
    /// Read the drive control register, set its coast bit, write it back.
    SetCoast,
    /// Read both fault status registers, with a short gap after each.
    Faults,
}

/// Where the driver stands inside the transaction in progress.
#[derive(Clone, Copy, Debug, PartialEq, Eq, Structural)]
pub enum Phase {
    /// Nothing handed out yet.
    Start,
    /// Chip select asserted.
    Selected,
    /// Setup time handed out.
    Settled,
    /// Frame handed out for transfer.
    Shifting,
    /// Chip select released.
    Released,
    /// In the gap after a status read.
    Gap,
}

/// The register protocol driver: the operation in progress and how far it
/// has got.
#[derive(Clone, Copy, Debug, PartialEq, Eq, Structural)]
pub struct DRV8232RS {
    /// The operation in progress.
    pub job: Job,
    /// The position inside the transaction in progress.
    pub phase: Phase,
    /// The number of transactions of this operation that are complete.
    pub turn: u8,
    /// The frame of the transaction in progress.
    pub frame: u16,
    /// What the last transfer brought in; zero where it failed.
    pub response: u16,
    /// The payload that the last read delivered.
    pub value: u16,
    /// The last snapshot of fault status register 1.
    pub fsr1: u16,
    /// The last snapshot of fault status register 2.
    pub fsr2: u16,
}

/// The frame that asks for `register`.
pub open spec fn read_frame(register: Register) -> u16 {
    spec_encode(Direction::Read, register, 0) as u16
}

/// The frame that stores `payload` into `register`.
pub open spec fn write_frame(register: Register, payload: u16) -> u16 {
    spec_encode(Direction::Write, register, payload) as u16
}

/// The payload that shorts the three sense amplifier inputs: the three
/// calibration fields set and every other field zero.
pub open spec fn spec_calibrate_payload() -> int {
    spec_csacr_payload(0, 0, 0, 0, 0, 1, 1, 1, 0)
}

impl DRV8232RS {
    /// Whether the link is free for a new operation.
    pub open spec fn is_idle(self) -> bool {
        self.job is Idle
    }

    /// Whether chip select is asserted: from the moment `Select` is handed
    /// out until `Release` is.
    pub open spec fn selected(self) -> bool {
        !self.is_idle() && (self.phase is Selected || self.phase is Settled
            || self.phase is Shifting)
    }

    /// The driver with `job` begun on `frame`, where the link was free;
    /// unchanged where it was not.
    pub open spec fn spec_begin(self, job: Job, frame: u16) -> DRV8232RS {
        if self.is_idle() {
            DRV8232RS { job, phase: Phase::Start, turn: 0, frame, ..self }
        } else {
            self
        }
    }

    /// The driver with its operation over.
    pub open spec fn spec_finish(self) -> DRV8232RS {
        DRV8232RS { job: Job::Idle, phase: Phase::Start, turn: 0, ..self }
    }

    /// The driver at the start of one more transaction, on `frame`, with
    /// `turn` transactions behind it. Chip select goes out at once.
    pub open spec fn spec_again(self, turn: u8, frame: u16) -> DRV8232RS {
        DRV8232RS { phase: Phase::Selected, turn, frame, ..self }
    }

    /// What follows a released transaction: the next transaction of the
    /// operation, the gap after a status read, or the end of the operation.
    pub open spec fn spec_proceed(self) -> (DRV8232RS, Option<Action>) {
        let answer = spec_decode(self.response) as u16;
        match self.job {
            Job::Idle | Job::Write => (self.spec_finish(), None),
            Job::Read => if self.turn == 0 {
                (self.spec_again(1, self.frame), Some(Action::Select))
            } else {
                (DRV8232RS { value: answer, ..self }.spec_finish(), None)
            },
            Job::ClearCoast | Job::SetCoast => if self.turn == 0 {
                (self.spec_again(1, self.frame), Some(Action::Select))
            } else if self.turn == 1 {
                (
                    DRV8232RS { value: answer, ..self }.spec_again(
                        2,
                        write_frame(
                            Register::Dcr,
                            spec_with_coast(answer, self.job is SetCoast) as u16,
                        ),
                    ),
                    Some(Action::Select),
                )
            } else {
                (self.spec_finish(), None)
            },
            Job::Faults => if self.turn == 0 {
                (self.spec_again(1, self.frame), Some(Action::Select))
            } else if self.turn == 1 {
                (
                    DRV8232RS { fsr1: answer, phase: Phase::Gap, turn: 2, ..self },
                    Some(Action::Wait(SELECT_SETUP_MICROS)),
                )
            } else if self.turn == 2 {
                (self.spec_again(3, self.frame), Some(Action::Select))
            } else {
                (
                    DRV8232RS { fsr2: answer, phase: Phase::Gap, turn: 4, ..self },
                    Some(Action::Wait(SELECT_SETUP_MICROS)),
                )
            },
        }
    }

    /// One step of the driver: the state it moves to and the action it hands
    /// out, `None` once the operation is over.
    pub open spec fn spec_poll(self, event: Event) -> (DRV8232RS, Option<Action>) {
        if self.is_idle() {
            (self, None)
        } else {
            match self.phase {
                Phase::Start => (
                    DRV8232RS { phase: Phase::Selected, ..self },
                    Some(Action::Select),
                ),
                Phase::Selected => (
                    DRV8232RS { phase: Phase::Settled, ..self },
                    Some(Action::Wait(SELECT_SETUP_MICROS)),
                ),
                Phase::Settled => (
                    DRV8232RS { phase: Phase::Shifting, ..self },
                    Some(Action::Transfer(self.frame)),
                ),
                Phase::Shifting => (
                    DRV8232RS { phase: Phase::Released, response: spec_response(event), ..self },
                    Some(Action::Release),
                ),
                Phase::Released => self.spec_proceed(),
                Phase::Gap => if self.job is Faults && self.turn == 2 {
                    (self.spec_again(2, read_frame(Register::Fsr2)), Some(Action::Select))
                } else {
                    (self.spec_finish(), None)
                },
            }
        }
    }

    /// The driver polled once for each of `events`: the state it ends in and
    /// the actions it hands out on the way.
    pub open spec fn spec_play(self, events: Seq<Event>) -> (DRV8232RS, Seq<Action>)
        decreases events.len(),
    {
        if events.len() == 0 {
            (self, Seq::empty())
        } else {
            let (next, action) = self.spec_poll(events.first());
            let (end, rest) = next.spec_play(events.drop_first());
            (
                end,
                match action {
                    Some(action) => seq![action] + rest,
                    None => rest,
                },
            )
        }
    }

    /// A driver with the link free and nothing read yet.
    pub open spec fn spec_new() -> DRV8232RS {
        DRV8232RS {
            job: Job::Idle,
            phase: Phase::Start,
            turn: 0,
            frame: 0,
            response: 0,
            value: 0,
            fsr1: 0,
            fsr2: 0,
        }
    }

    /// A driver with the link free and nothing read yet.
    pub fn new() -> (drv: DRV8232RS)
        ensures
            drv == DRV8232RS::spec_new(),
            drv.is_idle(),
            !drv.selected(),
    {
        DRV8232RS {
            job: Job::Idle,
            phase: Phase::Start,
            turn: 0,
            frame: 0,
            response: 0,
            value: 0,
            fsr1: 0,
            fsr2: 0,
        }
    }

    /// Whether the link is free for a new operation.
    pub fn idle(&self) -> (free: bool)
        ensures
            free == self.is_idle(),
    {
        match self.job {
            Job::Idle => true,
            _ => false,
        }
    }

    /// Begins `job` on `frame` where the link is free, and says whether it
    /// did. An operation in progress is never disturbed.
    fn begin(&mut self, job: Job, frame: u16) -> (accepted: bool)
        ensures
            accepted == old(self).is_idle(),
            *final(self) == old(self).spec_begin(job, frame),
    {
        if self.idle() {
            self.job = job;
            self.phase = Phase::Start;
            self.turn = 0;
            self.frame = frame;
            true
        } else {
            false
        }
    }

    /// Begins a read of fault status register 1.
    pub fn read_fsr1(&mut self) -> (accepted: bool)
        ensures
            accepted == old(self).is_idle(),
            *final(self) == old(self).spec_begin(Job::Read, read_frame(Register::Fsr1)),
    {
        self.read_register(Register::Fsr1)
    }

    /// Begins a read of fault status register 2.
    pub fn read_fsr2(&mut self) -> (accepted: bool)
        ensures
            accepted == old(self).is_idle(),
            *final(self) == old(self).spec_begin(Job::Read, read_frame(Register::Fsr2)),
    {
        self.read_register(Register::Fsr2)
    }

    /// Begins a read of `reg`. Once the operation is over, `value` holds the
    /// eleven bits that the chip returned.
    pub fn read_register(&mut self, reg: Register) -> (accepted: bool)
        ensures
            accepted == old(self).is_idle(),
            *final(self) == old(self).spec_begin(Job::Read, read_frame(reg)),
    {
        let frame = encode(Direction::Read, reg, 0);
        self.begin(Job::Read, frame)
    }

    /// Begins a write of `val` into `reg`: one transaction, one frame.
    pub fn write_register(&mut self, reg: Register, val: u16) -> (accepted: bool)
        ensures
            accepted == old(self).is_idle(),
            *final(self) == old(self).spec_begin(Job::Write, write_frame(reg, val)),
    {
        let frame = encode(Direction::Write, reg, val);
        self.begin(Job::Write, frame)
    }

    /// Begins a write of the drive control register with all its fields.
    pub fn write_dcr(
        &mut self,
        dis_cpuv: u16,
        dis_gdf: u16,
        otw_rep: u16,
        pwm_mode: u16,
        pwm_com: u16,
        pwm_dir: u16,
        coast: u16,
        brake: u16,
        clr_flt: u16,
    ) -> (accepted: bool)
        ensures
            accepted == old(self).is_idle(),
            *final(self) == old(self).spec_begin(
                Job::Write,
                write_frame(
                    Register::Dcr,
                    spec_dcr_payload(
                        dis_cpuv,
                        dis_gdf,
                        otw_rep,
                        pwm_mode,
                        pwm_com,
                        pwm_dir,
                        coast,
                        brake,
                        clr_flt,
                    ) as u16,
                ),
            ),
    {
        let val = dcr_payload(
            dis_cpuv,
            dis_gdf,
            otw_rep,
            pwm_mode,
            pwm_com,
            pwm_dir,
            coast,
            brake,
            clr_flt,
        );
        self.write_register(Register::Dcr, val)
    }

    /// Begins a write of the high-side gate drive register with all its
    /// fields.
    pub fn write_hsr(&mut self, lock: u16, idrivep_hs: u16, idriven_hs: u16) -> (accepted: bool)
        ensures
            accepted == old(self).is_idle(),
            *final(self) == old(self).spec_begin(
                Job::Write,
                write_frame(Register::Hsr, spec_hsr_payload(lock, idrivep_hs, idriven_hs) as u16),
            ),
    {
        let val = hsr_payload(lock, idrivep_hs, idriven_hs);
        self.write_register(Register::Hsr, val)
    }

    /// Begins a write of the low-side gate drive register with all its
    /// fields.
    pub fn write_lsr(&mut self, cbc: u16, tdrive: u16, idrivep_ls: u16, idriven_ls: u16) -> (accepted:
        bool)
        ensures
            accepted == old(self).is_idle(),
            *final(self) == old(self).spec_begin(
                Job::Write,
                write_frame(
                    Register::Lsr,
                    spec_lsr_payload(cbc, tdrive, idrivep_ls, idriven_ls) as u16,
                ),
            ),
    {
        let val = lsr_payload(cbc, tdrive, idrivep_ls, idriven_ls);
        self.write_register(Register::Lsr, val)
    }

    /// Begins a write of the overcurrent protection control register with all
    /// its fields.
    pub fn write_ocpcr(
        &mut self,
        tretry: u16,
        dead_time: u16,
        ocp_mode: u16,
        ocp_deg: u16,
        vds_lvl: u16,
    ) -> (accepted: bool)
        ensures
            accepted == old(self).is_idle(),
            *final(self) == old(self).spec_begin(
                Job::Write,
                write_frame(
                    Register::Ocpcr,
                    spec_ocpcr_payload(tretry, dead_time, ocp_mode, ocp_deg, vds_lvl) as u16,
                ),
            ),
    {
        let val = ocpcr_payload(tretry, dead_time, ocp_mode, ocp_deg, vds_lvl);
        self.write_register(Register::Ocpcr, val)
    }

    /// Begins a write of the current-sense amplifier control register with
    /// all its fields.
    pub fn write_csacr(
        &mut self,
        csa_fet: u16,
        vref_div: u16,
        ls_ref: u16,
        csa_gain: u16,
        dis_sen: u16,
        csa_cal_a: u16,
        csa_cal_b: u16,
        csa_cal_c: u16,
        sen_lvl: u16,
    ) -> (accepted: bool)
        ensures
            accepted == old(self).is_idle(),
            *final(self) == old(self).spec_begin(
                Job::Write,
                write_frame(
                    Register::Csacr,
                    spec_csacr_payload(
                        csa_fet,
                        vref_div,
                        ls_ref,
                        csa_gain,
                        dis_sen,
                        csa_cal_a,
                        csa_cal_b,
                        csa_cal_c,
                        sen_lvl,
                    ) as u16,
                ),
            ),
    {
        let val = csacr_payload(
            csa_fet,
            vref_div,
            ls_ref,
            csa_gain,
            dis_sen,
            csa_cal_a,
            csa_cal_b,
            csa_cal_c,
            sen_lvl,
        );
        self.write_register(Register::Csacr, val)
    }

    /// Begins a snapshot of both fault status registers. Once the operation
    /// is over, `fsr1` and `fsr2` hold what the chip returned.
    pub fn print_faults(&mut self) -> (accepted: bool)
        ensures
            accepted == old(self).is_idle(),
            *final(self) == old(self).spec_begin(Job::Faults, read_frame(Register::Fsr1)),
    {
        let frame = encode(Direction::Read, Register::Fsr1, 0);
        self.begin(Job::Faults, frame)
    }

    /// Begins to enable gate driving: the coast bit of the drive control
    /// register is cleared and its other bits are written back as read.
    pub fn enable_gd(&mut self) -> (accepted: bool)
        ensures
            accepted == old(self).is_idle(),
            *final(self) == old(self).spec_begin(Job::ClearCoast, read_frame(Register::Dcr)),
    {
        let frame = encode(Direction::Read, Register::Dcr, 0);
        self.begin(Job::ClearCoast, frame)
    }

    /// Begins to disable gate driving: the coast bit of the drive control
    /// register is set and its other bits are written back as read.
    pub fn disable_gd(&mut self) -> (accepted: bool)
        ensures
            accepted == old(self).is_idle(),
            *final(self) == old(self).spec_begin(Job::SetCoast, read_frame(Register::Dcr)),
    {
        let frame = encode(Direction::Read, Register::Dcr, 0);
        self.begin(Job::SetCoast, frame)
    }

    /// Begins the calibration write: the three calibration fields of the
    /// current-sense amplifier control register are set in one frame.
    pub fn calibrate(&mut self) -> (accepted: bool)
        ensures
            accepted == old(self).is_idle(),
            *final(self) == old(self).spec_begin(
                Job::Write,
                write_frame(Register::Csacr, spec_calibrate_payload() as u16),
            ),
            spec_calibrate_payload() == 0x1C,
    {
        let val = csacr_payload(0, 0, 0, 0, 0, 1, 1, 1, 0);
        self.write_register(Register::Csacr, val)
    }

    fn finish(&mut self)
        ensures
            *final(self) == old(self).spec_finish(),
    {
        self.job = Job::Idle;
        self.phase = Phase::Start;
        self.turn = 0;
    }

    fn again(&mut self, turn: u8, frame: u16) -> (action: Option<Action>)
        ensures
            *final(self) == old(self).spec_again(turn, frame),
            action == Some(Action::Select),
    {
        self.phase = Phase::Selected;
        self.turn = turn;
        self.frame = frame;
        Some(Action::Select)
    }

    fn gap(&mut self, turn: u8) -> (action: Option<Action>)
        ensures
            *final(self) == (DRV8232RS { phase: Phase::Gap, turn, ..*old(self) }),
            action == Some(Action::Wait(SELECT_SETUP_MICROS)),
    {
        self.phase = Phase::Gap;
        self.turn = turn;
        Some(Action::Wait(SELECT_SETUP_MICROS))
    }

    fn proceed(&mut self) -> (action: Option<Action>)
        ensures
            (*final(self), action) == old(self).spec_proceed(),
    {
        let answer = decode(self.response);
        match self.job {
            Job::Idle | Job::Write => {
                self.finish();
                None
            },
            Job::Read => {
                if self.turn == 0 {
                    self.again(1, self.frame)
                } else {
                    self.value = answer;
                    self.finish();
                    None
                }
            },
            Job::ClearCoast | Job::SetCoast => {
                if self.turn == 0 {
                    self.again(1, self.frame)
                } else if self.turn == 1 {
                    let set = match self.job {
                        Job::SetCoast => true,
                        _ => false,
                    };
                    self.value = answer;
                    let frame = encode(Direction::Write, Register::Dcr, with_coast(answer, set));
                    self.again(2, frame)
                } else {
                    self.finish();
                    None
                }
            },
            Job::Faults => {
                if self.turn == 0 {
                    self.again(1, self.frame)
                } else if self.turn == 1 {
                    self.fsr1 = answer;
                    self.gap(2)
                } else if self.turn == 2 {
                    self.again(3, self.frame)
                } else {
                    self.fsr2 = answer;
                    self.gap(4)
                }
            },
        }
    }

    /// Moves the operation in progress one action on. `event` tells how the
    /// action handed out last went; only the outcome of a transfer is looked
    /// at. Returns `None` once the operation is over and the link is free.
    pub fn poll(&mut self, event: Event) -> (action: Option<Action>)
        ensures
            (*final(self), action) == old(self).spec_poll(event),
            action is None <==> final(self).is_idle(),
            action == Some(Action::Select) ==> final(self).selected(),
            action == Some(Action::Release) ==> old(self).selected() && !final(self).selected(),
            action matches Some(Action::Transfer(frame)) ==> old(self).selected() && frame == old(
                self,
            ).frame,
            final(self).is_idle() ==> !final(self).selected(),
    {
        if self.idle() {
            return None;
        }
        match self.phase {
            Phase::Start => {
                self.phase = Phase::Selected;
                Some(Action::Select)
            },
            Phase::Selected => {
                self.phase = Phase::Settled;
                Some(Action::Wait(SELECT_SETUP_MICROS))
            },
            Phase::Settled => {
                self.phase = Phase::Shifting;
                Some(Action::Transfer(self.frame))
            },
            Phase::Shifting => {
                self.response = response(event);
                self.phase = Phase::Released;
                Some(Action::Release)
            },
            Phase::Released => self.proceed(),
            Phase::Gap => {
                let second = match self.job {
                    Job::Faults => self.turn == 2,
                    _ => false,
                };
                if second {
                    let frame = encode(Direction::Read, Register::Fsr2, 0);
                    self.again(2, frame)
                } else {
                    self.finish();
                    None
                }
            },
        }
    }
}

/// A run of polls is its first part followed by its second part.
proof fn lemma_play_split(drv: DRV8232RS, events: Seq<Event>, n: int)
    requires
        0 <= n <= events.len(),
    ensures
        drv.spec_play(events) == ({
            let (middle, head) = drv.spec_play(events.take(n));
            let (end, tail) = middle.spec_play(events.skip(n));
            (end, head + tail)
        }),
    decreases n,
{
    if n == 0 {
        assert(events.skip(0) =~= events);
    } else {
        let next = drv.spec_poll(events.first()).0;
        lemma_play_split(next, events.drop_first(), n - 1);
        assert(events.take(n).drop_first() =~= events.drop_first().take(n - 1));
        assert(events.drop_first().skip(n - 1) =~= events.skip(n));
    }
}

/// Once chip select is asserted, the next three polls hand out the setup
/// time, the frame and the release, whatever the events say; the outcome of
/// the transfer is what the third event tells.
proof fn lemma_transaction_rest(drv: DRV8232RS, events: Seq<Event>)
    requires
        !drv.is_idle(),
        drv.phase is Selected,
        events.len() == 3,
    ensures
        drv.spec_play(events) == (
            DRV8232RS { phase: Phase::Released, response: spec_response(events[2]), ..drv },
            transaction(drv.frame).skip(1),
        ),
{
    let e1 = events.drop_first();
    let e2 = e1.drop_first();
    let e3 = e2.drop_first();
    let s1 = drv.spec_poll(events.first()).0;
    let s2 = s1.spec_poll(e1.first()).0;
    let s3 = s2.spec_poll(e2.first()).0;
    assert(s3.spec_play(e3) == (s3, Seq::<Action>::empty()));
    assert(s2.spec_play(e2).1 =~= seq![Action::Release]);
    assert(s1.spec_play(e1).1 =~= seq![Action::Transfer(drv.frame), Action::Release]);
}

/// A transaction from its start: four polls hand out select, setup time,
/// frame and release, whatever the events say.
pub proof fn lemma_transaction(drv: DRV8232RS, events: Seq<Event>)
    requires
        !drv.is_idle(),
        drv.phase is Start,
        events.len() == 4,
    ensures
        drv.spec_play(events) == (
            DRV8232RS { phase: Phase::Released, response: spec_response(events[3]), ..drv },
            transaction(drv.frame),
        ),
{
    let s1 = drv.spec_poll(events.first()).0;
    lemma_transaction_rest(s1, events.drop_first());
}

/// Exactly one frame for a write: from the moment a write is begun, five
/// polls hand out one transaction on the frame of the write and nothing
/// else, and leave the link free, whatever the events say.
pub proof fn lemma_write_plays(drv: DRV8232RS, frame: u16, events: Seq<Event>)
    requires
        drv.is_idle(),
        events.len() == 5,
    ensures
        drv.spec_begin(Job::Write, frame).spec_play(events) == (
            DRV8232RS {
                frame,
                response: spec_response(events[3]),
                ..drv
            }.spec_finish(),
            transaction(frame),
        ),
{
    let begun = drv.spec_begin(Job::Write, frame);
    lemma_play_split(begun, events, 4);
    lemma_transaction(begun, events.take(4));
    let middle = begun.spec_play(events.take(4)).0;
    let last = events.skip(4);
    let end = middle.spec_poll(last.first()).0;
    assert(end.spec_play(last.drop_first()) == (end, Seq::<Action>::empty()));
}

/// A write of a payload of eleven bits, grouped or not, reaches the chip as
/// exactly one frame: a write frame that addresses the register and carries
/// the payload unchanged.
pub proof fn lemma_write_is_one_frame(
    drv: DRV8232RS,
    register: Register,
    payload: u16,
    events: Seq<Event>,
)
    requires
        drv.is_idle(),
        payload <= PAYLOAD_MAX,
        events.len() == 5,
    ensures
        drv.spec_begin(Job::Write, write_frame(register, payload)).spec_play(events).1
            == transaction(write_frame(register, payload)),
        drv.spec_begin(Job::Write, write_frame(register, payload)).spec_play(events).0.is_idle(),
        spec_frame_direction(write_frame(register, payload)) == Direction::Write,
        Register::spec_from_address(spec_frame_address(write_frame(register, payload))) == Some(
            register,
        ),
        spec_decode(write_frame(register, payload)) == payload,
{
    lemma_write_plays(drv, write_frame(register, payload), events);
    lemma_round_trip(Direction::Write, register, payload);
}

/// A read takes two transactions on the same frame, and delivers the eleven
/// payload bits that the second transfer brought in: zero where that
/// transfer failed.
pub proof fn lemma_read_plays(drv: DRV8232RS, register: Register, events: Seq<Event>)
    requires
        drv.is_idle(),
        events.len() == 9,
    ensures
        drv.spec_begin(Job::Read, read_frame(register)).spec_play(events) == (
            DRV8232RS {
                frame: read_frame(register),
                response: spec_response(events[7]),
                value: spec_decode(spec_response(events[7])) as u16,
                ..drv
            }.spec_finish(),
            transaction(read_frame(register)) + transaction(read_frame(register)),
        ),
{
    let frame = read_frame(register);
    let begun = drv.spec_begin(Job::Read, frame);
    lemma_play_split(begun, events, 4);
    lemma_transaction(begun, events.take(4));
    let s4 = begun.spec_play(events.take(4)).0;
    let rest = events.skip(4);
    let s5 = s4.spec_poll(rest.first()).0;
    let rest5 = rest.drop_first();
    lemma_play_split(s5, rest5, 3);
    lemma_transaction_rest(s5, rest5.take(3));
    let s8 = s5.spec_play(rest5.take(3)).0;
    let last = rest5.skip(3);
    let s9 = s8.spec_poll(last.first()).0;
    assert(s9.spec_play(last.drop_first()) == (s9, Seq::<Action>::empty()));
}

/// A transaction that follows another: the poll that finds the earlier one
/// released hands out select at once, and three more polls finish the new
/// transaction.
proof fn lemma_transaction_follows(drv: DRV8232RS, next: DRV8232RS, events: Seq<Event>)
    requires
        !drv.is_idle(),
        events.len() == 4,
        drv.spec_poll(events[0]) == (next, Some(Action::Select)),
        !next.is_idle(),
        next.phase is Selected,
    ensures
        drv.spec_play(events) == (
            DRV8232RS { phase: Phase::Released, response: spec_response(events[3]), ..next },
            transaction(next.frame),
        ),
{
    lemma_transaction_rest(next, events.drop_first());
}

/// The payload that goes back into the drive control register when the coast
/// bit is changed: what the read delivered, with the coast bit as asked.
pub open spec fn coast_frame(answer: u16, coast: bool) -> u16 {
    write_frame(Register::Dcr, spec_with_coast(answer, coast) as u16)
}

/// The frame that changes the coast bit is a write to the drive control
/// register; its payload has the coast bit as asked and every other bit as
/// it was read.
pub proof fn lemma_coast_frame_changes_coast_only(answer: u16, coast: bool)
    requires
        answer <= PAYLOAD_MAX,
    ensures
        spec_frame_direction(coast_frame(answer, coast)) == Direction::Write,
        Register::spec_from_address(spec_frame_address(coast_frame(answer, coast))) == Some(
            Register::Dcr,
        ),
        held(spec_decode(coast_frame(answer, coast)) as u16, 4, 2) == if coast {
            1int
        } else {
            0int
        },
        spec_decode(coast_frame(answer, coast)) % 4 == answer % 4,
        spec_decode(coast_frame(answer, coast)) / 8 == answer / 8,
{
}

/// Changing the coast bit takes three transactions: two for the read of the
/// drive control register, then one write of what was read with the coast
/// bit as asked and every other bit untouched.
pub proof fn lemma_coast_plays(drv: DRV8232RS, coast: bool, events: Seq<Event>)
    requires
        drv.is_idle(),
        events.len() == 13,
    ensures
        ({
            let job = if coast {
                Job::SetCoast
            } else {
                Job::ClearCoast
            };
            let read = read_frame(Register::Dcr);
            let answer = spec_decode(spec_response(events[7])) as u16;
            drv.spec_begin(job, read).spec_play(events) == (
                DRV8232RS {
                    frame: coast_frame(answer, coast),
                    response: spec_response(events[11]),
                    value: answer,
                    ..drv
                }.spec_finish(),
                transaction(read) + transaction(read) + transaction(coast_frame(answer, coast)),
            )
        }),
{
    let job = if coast {
        Job::SetCoast
    } else {
        Job::ClearCoast
    };
    let read = read_frame(Register::Dcr);
    let answer = spec_decode(spec_response(events[7])) as u16;
    let write = coast_frame(answer, coast);
    let begun = drv.spec_begin(job, read);

    lemma_play_split(begun, events, 4);
    lemma_transaction(begun, events.take(4));
    let s4 = begun.spec_play(events.take(4)).0;
    let rest4 = events.skip(4);

    lemma_play_split(s4, rest4, 4);
    lemma_transaction_follows(s4, s4.spec_again(1, read), rest4.take(4));
    let s8 = s4.spec_play(rest4.take(4)).0;
    let rest8 = rest4.skip(4);

    lemma_play_split(s8, rest8, 4);
    let next = DRV8232RS { value: answer, ..s8 }.spec_again(2, write);
    lemma_transaction_follows(s8, next, rest8.take(4));
    let s12 = s8.spec_play(rest8.take(4)).0;
    let last = rest8.skip(4);

    let s13 = s12.spec_poll(last.first()).0;
    assert(s13.spec_play(last.drop_first()) == (s13, Seq::<Action>::empty()));
}

/// What a snapshot of the fault status registers hands out: each register is
/// read with two transactions and followed by a short gap.
pub open spec fn snapshot_script() -> Seq<Action> {
    transaction(read_frame(Register::Fsr1)) + transaction(read_frame(Register::Fsr1)) + seq![
        Action::Wait(SELECT_SETUP_MICROS),
    ] + transaction(read_frame(Register::Fsr2)) + transaction(read_frame(Register::Fsr2)) + seq![
        Action::Wait(SELECT_SETUP_MICROS),
    ]
}

/// A snapshot always runs to its end: nineteen polls hand out the whole
/// script and leave the link free, whatever the events say. Each status word
/// is the payload that the second transfer of its read brought in, zero
/// where that transfer failed.
pub proof fn lemma_snapshot_plays(drv: DRV8232RS, events: Seq<Event>)
    requires
        drv.is_idle(),
        events.len() == 19,
    ensures
        drv.spec_begin(Job::Faults, read_frame(Register::Fsr1)).spec_play(events) == (
            DRV8232RS {
                frame: read_frame(Register::Fsr2),
                response: spec_response(events[16]),
                fsr1: spec_decode(spec_response(events[7])) as u16,
                fsr2: spec_decode(spec_response(events[16])) as u16,
                ..drv
            }.spec_finish(),
            snapshot_script(),
        ),
{
    let first = read_frame(Register::Fsr1);
    let second = read_frame(Register::Fsr2);
    let begun = drv.spec_begin(Job::Faults, first);

    lemma_play_split(begun, events, 4);
    lemma_transaction(begun, events.take(4));
    let s4 = begun.spec_play(events.take(4)).0;
    let rest4 = events.skip(4);

    lemma_play_split(s4, rest4, 4);
    lemma_transaction_follows(s4, s4.spec_again(1, first), rest4.take(4));
    let s8 = s4.spec_play(rest4.take(4)).0;
    let rest8 = rest4.skip(4);

    // The gap after the first register.
    let s9 = s8.spec_poll(rest8.first()).0;
    let rest9 = rest8.drop_first();

    lemma_play_split(s9, rest9, 4);
    lemma_transaction_follows(s9, s9.spec_again(2, second), rest9.take(4));
    let s13 = s9.spec_play(rest9.take(4)).0;
    let rest13 = rest9.skip(4);

    lemma_play_split(s13, rest13, 4);
    lemma_transaction_follows(s13, s13.spec_again(3, second), rest13.take(4));
    let s17 = s13.spec_play(rest13.take(4)).0;
    let rest17 = rest13.skip(4);

    // The gap after the second register, and the end.
    let s18 = s17.spec_poll(rest17.first()).0;
    let rest18 = rest17.drop_first();
    let s19 = s18.spec_poll(rest18.first()).0;
    assert(s19.spec_play(rest18.drop_first()) == (s19, Seq::<Action>::empty()));
    assert(s18.spec_play(rest18).1 =~= Seq::<Action>::empty());
}

/// With the link free, polling hands out nothing and changes nothing.
pub proof fn lemma_idle_plays_nothing(drv: DRV8232RS, events: Seq<Event>)
    requires
        drv.is_idle(),
    ensures
        drv.spec_play(events) == (drv, Seq::<Action>::empty()),
    decreases events.len(),
{
    if events.len() > 0 {
        lemma_idle_plays_nothing(drv, events.drop_first());
    }
}

/// Chip select never stays asserted. From any state in which it is
/// asserted, whatever the caller reports back (a failed transfer included),
/// at most three polls later the release has been handed out.
pub proof fn lemma_chip_select_is_released(drv: DRV8232RS, events: Seq<Event>)
    requires
        drv.selected(),
        events.len() == 3,
    ensures
        exists|polls: int|
            1 <= polls <= 3 && !(#[trigger] drv.spec_play(events.take(polls))).0.selected()
                && drv.spec_play(events.take(polls)).1.last() == Action::Release,
{
    let polls: int = match drv.phase {
        Phase::Selected => 3,
        Phase::Settled => 2,
        _ => 1,
    };
    let run = events.take(polls);
    let e1 = run.drop_first();
    let s1 = drv.spec_poll(run.first()).0;
    if polls == 1 {
        assert(s1.spec_play(e1) == (s1, Seq::<Action>::empty()));
    } else {
        let e2 = e1.drop_first();
        let s2 = s1.spec_poll(e1.first()).0;
        if polls == 2 {
            assert(s2.spec_play(e2) == (s2, Seq::<Action>::empty()));
            assert(s1.spec_play(e1).1 =~= seq![Action::Release]);
            assert(drv.spec_play(run).1 =~= seq![Action::Transfer(drv.frame), Action::Release]);
        } else {
            assert(run =~= events);
            lemma_transaction_rest(drv, events);
        }
    }
}

} // verus!
