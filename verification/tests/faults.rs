use cawfoc::faults::{decode_faults, fault_at, status_faults, Fault, Status};
use cawfoc::messages::Commands;

fn names(faults: &[Fault]) -> Vec<&'static str> {
    faults.iter().map(|fault| fault.name()).collect()
}

#[test]
fn three_set_bits_give_three_names_from_the_highest_bit_down() {
    let word = (1 << 10) | (1 << 7) | 1;
    let found = decode_faults(word, 0);
    assert_eq!(found, vec![Fault::Fault, Fault::Uvlo, Fault::VdsLc]);
    assert_eq!(names(&found), vec!["FAULT", "UVLO", "VDS_LC"]);
}

#[test]
fn clear_words_give_nothing() {
    assert_eq!(decode_faults(0, 0), Vec::<Fault>::new());
    // Only the low eleven bits count.
    assert_eq!(decode_faults(0xF800, 0xF800), Vec::<Fault>::new());
}

#[test]
fn every_bit_has_its_name() {
    let first = decode_faults(0x7FF, 0);
    assert_eq!(
        names(&first),
        vec![
            "FAULT", "VDS_OCP", "GDF", "UVLO", "OTSD", "VDS_HA", "VDS_LA", "VDS_HB", "VDS_LB",
            "VDS_HC", "VDS_LC"
        ]
    );
    let second = decode_faults(0, 0x7FF);
    assert_eq!(
        names(&second),
        vec![
            "SA_OC", "SB_OC", "SC_OC", "OTW", "CPUV", "VGS_HA", "VGS_LA", "VGS_HB", "VGS_LB",
            "VGS_HC", "VGS_LC"
        ]
    );
}

#[test]
fn first_register_comes_before_the_second() {
    let found = decode_faults(1 << 8, (1 << 10) | (1 << 6));
    assert_eq!(names(&found), vec!["GDF", "SA_OC", "CPUV"]);
}

#[test]
fn single_bits_decode_to_the_condition_at_that_bit() {
    for status in [Status::First, Status::Second] {
        for bit in 0..11u16 {
            let mut found = Vec::new();
            status_faults(status, 1 << bit, &mut found);
            assert_eq!(found, vec![fault_at(status, bit).unwrap()]);
            assert_eq!(found[0].bit(), bit);
            assert_eq!(found[0].status(), status);
        }
    }
}

#[test]
fn bits_above_ten_stand_for_nothing() {
    for status in [Status::First, Status::Second] {
        for bit in 11..=16u16 {
            assert_eq!(fault_at(status, bit), None);
        }
        assert_eq!(fault_at(status, u16::MAX), None);
    }
    assert_eq!(fault_at(Status::First, 10), Some(Fault::Fault));
    assert_eq!(fault_at(Status::Second, 0), Some(Fault::VgsLc));
}

#[test]
fn status_faults_appends() {
    let mut found = vec![Fault::Otw];
    status_faults(Status::First, 0b110, &mut found);
    assert_eq!(found, vec![Fault::Otw, Fault::VdsLb, Fault::VdsHc]);
}

#[test]
fn commands_carry_the_name_as_bytes() {
    assert_eq!(Fault::VdsOcp.command(), Commands::UsartTxBuf("VDS_OCP".as_bytes()));
    assert_eq!(Fault::VgsLc.command(), Commands::UsartTxBuf(&[b'V', b'G', b'S', b'_', b'L', b'C']));
}
