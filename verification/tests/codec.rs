use cawfoc::codec::{
    decode, encode, frame_direction, frame_register, Direction, Register, PAYLOAD_MAX,
};

const REGISTERS: [Register; 7] = [
    Register::Fsr1,
    Register::Fsr2,
    Register::Dcr,
    Register::Hsr,
    Register::Lsr,
    Register::Ocpcr,
    Register::Csacr,
];

#[test]
fn write_frame_round_trips() {
    let frame = encode(Direction::Write, Register::Dcr, 0x021);
    assert_eq!(frame, 0x1021);
    assert_eq!(decode(frame), 0x021);
    assert_eq!(frame_register(frame), Some(Register::Dcr));
    assert_eq!(frame_direction(frame), Direction::Write);
}

#[test]
fn read_frames_have_the_direction_bit_and_the_address() {
    assert_eq!(encode(Direction::Read, Register::Fsr1, 0), 0x8000);
    assert_eq!(encode(Direction::Read, Register::Fsr2, 0), 0x8800);
    assert_eq!(encode(Direction::Read, Register::Dcr, 0), 0x9000);
    assert_eq!(encode(Direction::Read, Register::Csacr, 0), 0xB000);
}

#[test]
fn every_register_and_payload_round_trips() {
    for register in REGISTERS {
        for direction in [Direction::Write, Direction::Read] {
            for payload in 0..=PAYLOAD_MAX {
                let frame = encode(direction, register, payload);
                assert_eq!(decode(frame), payload);
                assert_eq!(frame_register(frame), Some(register));
                assert_eq!(frame_direction(frame), direction);
            }
        }
    }
}

#[test]
fn payload_is_cut_to_eleven_bits() {
    assert_eq!(encode(Direction::Write, Register::Hsr, 0x0FFF), 0x1FFF);
    assert_eq!(encode(Direction::Write, Register::Fsr1, 0xFFFF), 0x07FF);
    assert_eq!(encode(Direction::Write, Register::Csacr, 0x0800), 0x3000);
    assert_eq!(decode(0xFFFF), 0x07FF);
}

#[test]
fn addresses_run_from_zero_to_six() {
    for (address, register) in REGISTERS.iter().enumerate() {
        assert_eq!(register.address() as usize, address);
        assert_eq!(Register::from_address(address as u16), Some(*register));
    }
    assert_eq!(Register::from_address(7), None);
    assert_eq!(Register::from_address(15), None);
    assert_eq!(frame_register(0x3800), None);
    assert_eq!(Direction::Write.bit(), 0);
    assert_eq!(Direction::Read.bit(), 1);
}
