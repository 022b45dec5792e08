use cawfoc::faults::{decode_faults, Fault};
use cawfoc::messages::{Commands, Console, Events};
use cawfoc::monitor::publish_faults;

#[test]
fn a_new_slot_is_empty() {
    let mut console = Console::new();
    assert_eq!(console.take(), None);
}

#[test]
fn the_latest_value_wins() {
    let mut console = Console::new();
    console.publish(Commands::UsartTxBuf("first".as_bytes()));
    console.publish(Commands::UsartTxBuf("second".as_bytes()));
    assert_eq!(console.take(), Some(Commands::UsartTxBuf("second".as_bytes())));
    assert_eq!(console.take(), None);
}

#[test]
fn a_taken_value_is_gone() {
    let mut console = Console::new();
    console.publish(Commands::UsartTxBuf("once".as_bytes()));
    assert_eq!(console.take(), Some(Commands::UsartTxBuf("once".as_bytes())));
    assert_eq!(console.take(), None);
    console.publish(Commands::UsartTxBuf("again".as_bytes()));
    assert_eq!(console.take(), Some(Commands::UsartTxBuf("again".as_bytes())));
}

#[test]
fn of_several_faults_the_slot_keeps_the_last() {
    let mut console = Console::new();
    let found = decode_faults((1 << 10) | (1 << 7) | 1, 0);
    publish_faults(&mut console, &found);
    assert_eq!(console.take(), Some(Commands::UsartTxBuf("VDS_LC".as_bytes())));
    assert_eq!(console.take(), None);
}

#[test]
fn no_fault_leaves_the_slot_alone() {
    let mut console = Console::new();
    console.publish(Commands::UsartTxBuf("kept".as_bytes()));
    publish_faults(&mut console, &Vec::<Fault>::new());
    assert_eq!(console.take(), Some(Commands::UsartTxBuf("kept".as_bytes())));
}

#[test]
fn events_compare_by_the_condition_they_carry() {
    assert_eq!(Events::Fault(Fault::Uvlo), Events::Fault(Fault::Uvlo));
    assert_ne!(Events::Fault(Fault::Uvlo), Events::Fault(Fault::Otw));
}
