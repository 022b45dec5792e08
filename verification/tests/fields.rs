use cawfoc::codes::{
    CSA_GAIN_40, DEADTIME_50NS, DIS_GDF_DIS, DIS_GDF_EN, IDRIVEN_HS_2000MA, IDRIVEN_LS_120MA,
    IDRIVEP_HS_1000MA, IDRIVEP_LS_440MA, LOCK_OFF, LOCK_ON, OCP_DEG_8US, OCP_NONE, PWM_MODE_3X,
    PWM_MODE_6X, PWM_MODE_IND, SEN_LVL_1_0, TDRIVE_4000NS, TRETRY_50US, VDS_LVL_1_88, VREF_DIV_2,
};
use cawfoc::fields::{
    csacr_payload, dcr_payload, hsr_payload, lsr_payload, ocpcr_payload, with_coast,
};

#[test]
fn drive_control_fields_land_on_their_offsets() {
    assert_eq!(dcr_payload(0, DIS_GDF_EN, 0, PWM_MODE_3X, 0, 0, 0, 0, 1), 0x021);
    assert_eq!(dcr_payload(0, DIS_GDF_EN, 0, PWM_MODE_6X, 0, 0, 0, 0, 1), 0x001);
    assert_eq!(dcr_payload(0, DIS_GDF_DIS, 0, PWM_MODE_3X, 0, 0, 0, 0, 1), 0x121);
    assert_eq!(dcr_payload(1, 0, 0, 0, 0, 0, 0, 0, 0), 1 << 9);
    assert_eq!(dcr_payload(0, 1, 0, 0, 0, 0, 0, 0, 0), 1 << 8);
    assert_eq!(dcr_payload(0, 0, 1, 0, 0, 0, 0, 0, 0), 1 << 7);
    assert_eq!(dcr_payload(0, 0, 0, PWM_MODE_IND, 0, 0, 0, 0, 0), 3 << 5);
    assert_eq!(dcr_payload(0, 0, 0, 0, 1, 0, 0, 0, 0), 1 << 4);
    assert_eq!(dcr_payload(0, 0, 0, 0, 0, 1, 0, 0, 0), 1 << 3);
    assert_eq!(dcr_payload(0, 0, 0, 0, 0, 0, 1, 0, 0), 1 << 2);
    assert_eq!(dcr_payload(0, 0, 0, 0, 0, 0, 0, 1, 0), 1 << 1);
    assert_eq!(dcr_payload(0, 0, 0, 0, 0, 0, 0, 0, 1), 1);
    assert_eq!(dcr_payload(1, 1, 1, 3, 1, 1, 1, 1, 1), 0x3FF);
}

#[test]
fn gate_drive_fields_land_on_their_offsets() {
    assert_eq!(hsr_payload(LOCK_OFF, IDRIVEP_HS_1000MA, IDRIVEN_HS_2000MA), 0x3FF);
    assert_eq!(hsr_payload(LOCK_ON, 0, 0), 0x600);
    assert_eq!(hsr_payload(7, 15, 15), 0x7FF);
    assert_eq!(lsr_payload(0, TDRIVE_4000NS, IDRIVEP_LS_440MA, IDRIVEN_LS_120MA), 0x3B2);
    assert_eq!(lsr_payload(1, 0, 0, 0), 0x400);
    assert_eq!(lsr_payload(1, 3, 15, 15), 0x7FF);
}

#[test]
fn overcurrent_fields_land_on_their_offsets() {
    assert_eq!(
        ocpcr_payload(TRETRY_50US, DEADTIME_50NS, OCP_NONE, OCP_DEG_8US, VDS_LVL_1_88),
        0x4FF
    );
    assert_eq!(ocpcr_payload(0, 3, 0, 0, 0), 3 << 8);
    assert_eq!(ocpcr_payload(0, 0, 1, 0, 0), 1 << 6);
    assert_eq!(ocpcr_payload(0, 0, 0, 2, 0), 2 << 4);
    assert_eq!(ocpcr_payload(0, 0, 0, 0, 9), 9);
}

#[test]
fn sense_amplifier_fields_land_on_their_offsets() {
    assert_eq!(csacr_payload(0, 0, 0, 0, 0, 1, 1, 1, 0), 0x01C);
    assert_eq!(
        csacr_payload(0, VREF_DIV_2, 0, CSA_GAIN_40, 0, 1, 1, 1, SEN_LVL_1_0),
        0x2DF
    );
    assert_eq!(
        csacr_payload(0, VREF_DIV_2, 0, CSA_GAIN_40, 1, 0, 0, 0, SEN_LVL_1_0),
        0x2E3
    );
    assert_eq!(csacr_payload(1, 0, 0, 0, 0, 0, 0, 0, 0), 1 << 10);
    assert_eq!(csacr_payload(0, 0, 1, 0, 0, 0, 0, 0, 0), 1 << 8);
    assert_eq!(csacr_payload(1, 1, 1, 3, 1, 1, 1, 1, 3), 0x7FF);
}

#[test]
fn a_code_wider_than_its_field_never_reaches_a_sibling() {
    // 0xFFFF in one field fills that field and nothing else.
    assert_eq!(dcr_payload(0, 0, 0, 0xFFFF, 0, 0, 0, 0, 0), 3 << 5);
    assert_eq!(dcr_payload(0, 0, 0, 0, 0, 0, 0xFFFF, 0, 0), 1 << 2);
    assert_eq!(hsr_payload(0, 0xFFFF, 0), 0x0F0);
    assert_eq!(lsr_payload(0, 4, 0, 0), 0);
    assert_eq!(ocpcr_payload(2, 0, 0, 0, 0x10), 0);
    assert_eq!(csacr_payload(0, 0, 0, 0, 0, 0, 0, 0, 0xFFFF), 3);
}

#[test]
fn every_legal_gate_drive_combination_reads_back() {
    for lock in 0..8u16 {
        for p in 0..16u16 {
            for n in 0..16u16 {
                let payload = hsr_payload(lock, p, n);
                assert_eq!(payload, (lock << 8) | (p << 4) | n);
                assert_eq!((payload >> 8) & 7, lock);
                assert_eq!((payload >> 4) & 15, p);
                assert_eq!(payload & 15, n);
            }
        }
    }
}

#[test]
fn coast_bit_changes_alone() {
    assert_eq!(with_coast(0x025, false), 0x021);
    assert_eq!(with_coast(0x021, false), 0x021);
    assert_eq!(with_coast(0x021, true), 0x025);
    assert_eq!(with_coast(0x7FF, false), 0x7FB);
    assert_eq!(with_coast(0, true), 4);
    for payload in 0..0x800u16 {
        assert_eq!(with_coast(payload, false), payload & !4);
        assert_eq!(with_coast(payload, true), payload | 4);
    }
}

#[test]
fn every_legal_drive_control_combination_is_the_bitwise_combination() {
    for n in 0..1024u16 {
        let (a, b, c) = (n & 1, (n >> 1) & 1, (n >> 2) & 1);
        let (mode, com, dir) = ((n >> 3) & 3, (n >> 5) & 1, (n >> 6) & 1);
        let (coast, brake, clr) = ((n >> 7) & 1, (n >> 8) & 1, (n >> 9) & 1);
        let payload = dcr_payload(a, b, c, mode, com, dir, coast, brake, clr);
        let expected = (a << 9)
            | (b << 8)
            | (c << 7)
            | (mode << 5)
            | (com << 4)
            | (dir << 3)
            | (coast << 2)
            | (brake << 1)
            | clr;
        assert_eq!(payload, expected);
        assert_eq!(
            payload as u32,
            512 * a as u32
                + 256 * b as u32
                + 128 * c as u32
                + 32 * mode as u32
                + 16 * com as u32
                + 8 * dir as u32
                + 4 * coast as u32
                + 2 * brake as u32
                + clr as u32
        );
    }
}

#[test]
fn every_legal_overcurrent_combination_reads_back() {
    for tretry in 0..2u16 {
        for dead_time in 0..4u16 {
            for mode in 0..4u16 {
                for deg in 0..4u16 {
                    for vds in 0..16u16 {
                        let payload = ocpcr_payload(tretry, dead_time, mode, deg, vds);
                        assert_eq!(payload >> 10, tretry);
                        assert_eq!((payload >> 8) & 3, dead_time);
                        assert_eq!((payload >> 6) & 3, mode);
                        assert_eq!((payload >> 4) & 3, deg);
                        assert_eq!(payload & 15, vds);
                    }
                }
            }
        }
    }
}
