use embedded_can_bus::spi::{Action, DeviceError, Event, NoDelay, OperationKind, Stage, Transaction};
use embedded_hal::spi::ErrorKind;

fn finish_of(a: Action<u8, char>) -> Option<Result<(), DeviceError<u8, char>>> {
    match a {
        Action::Finish(r) => Some(r),
        _ => None,
    }
}

#[test]
fn kind_of_bus_error_is_kept() {
    let e: DeviceError<ErrorKind, ()> = DeviceError::Spi(ErrorKind::Overrun);
    assert_eq!(e.kind(), ErrorKind::Overrun);
    let e: DeviceError<ErrorKind, ()> = DeviceError::Spi(ErrorKind::Other);
    assert_eq!(e.kind(), ErrorKind::Other);
}

#[test]
fn kind_of_cs_error_is_chip_select_fault() {
    let e: DeviceError<ErrorKind, u32> = DeviceError::Cs(7);
    assert_eq!(e.kind(), ErrorKind::ChipSelectFault);
}

#[test]
fn no_delay_is_a_plain_value() {
    assert_eq!(NoDelay, NoDelay);
}

#[test]
fn successful_transaction_runs_all_and_deselects() {
    let ops = vec![OperationKind::Write, OperationKind::Read];
    let (t, a) = Transaction::<u8, char>::begin(ops, false);
    assert!(matches!(a, Action::AssertCs));
    let (t, a) = t.step(Event::CsAsserted(Ok(())));
    assert!(matches!(a, Action::Run(0)));
    let (t, a) = t.step(Event::OperationDone(Ok(())));
    assert!(matches!(a, Action::Run(1)));
    let (t, a) = t.step(Event::OperationDone(Ok(())));
    assert!(matches!(a, Action::DeassertCs));
    let (t, a) = t.step(Event::CsDeasserted(Ok(())));
    assert_eq!(finish_of(a), Some(Ok(())));
    assert_eq!(t.stage, Stage::Finished);
}

#[test]
fn empty_transaction_only_toggles_cs() {
    let (t, _) = Transaction::<u8, char>::begin(vec![], false);
    let (t, a) = t.step(Event::CsAsserted(Ok(())));
    assert!(matches!(a, Action::DeassertCs));
    let (_, a) = t.step(Event::CsDeasserted(Ok(())));
    assert_eq!(finish_of(a), Some(Ok(())));
}

#[test]
fn failed_operation_skips_rest_and_deselects_once() {
    let ops = vec![OperationKind::Write, OperationKind::Transfer, OperationKind::Read];
    let (t, _) = Transaction::<u8, char>::begin(ops, true);
    let (t, _) = t.step(Event::CsAsserted(Ok(())));
    let (t, a) = t.step(Event::OperationDone(Ok(())));
    assert!(matches!(a, Action::Run(1)));
    let (t, a) = t.step(Event::OperationDone(Err(9)));
    assert!(matches!(a, Action::DeassertCs));
    assert_eq!(t.stage, Stage::Deselecting);
    let (t, a) = t.step(Event::CsDeasserted(Ok(())));
    assert_eq!(finish_of(a), Some(Err(DeviceError::Spi(9))));
    assert!(!t.awaits(&Event::CsDeasserted(Ok(()))));
}

#[test]
fn bus_error_wins_over_deselect_error() {
    let (t, _) = Transaction::<u8, char>::begin(vec![OperationKind::Write], true);
    let (t, _) = t.step(Event::CsAsserted(Ok(())));
    let (t, _) = t.step(Event::OperationDone(Err(3)));
    let (_, a) = t.step(Event::CsDeasserted(Err('x')));
    assert_eq!(finish_of(a), Some(Err(DeviceError::Spi(3))));
}

#[test]
fn deselect_error_reported_after_success() {
    let (t, _) = Transaction::<u8, char>::begin(vec![OperationKind::TransferInPlace], true);
    let (t, _) = t.step(Event::CsAsserted(Ok(())));
    let (t, _) = t.step(Event::OperationDone(Ok(())));
    let (_, a) = t.step(Event::CsDeasserted(Err('d')));
    assert_eq!(finish_of(a), Some(Err(DeviceError::Cs('d'))));
}

#[test]
fn failed_select_ends_without_operations() {
    let (t, _) = Transaction::<u8, char>::begin(vec![OperationKind::Write], true);
    let (t, a) = t.step(Event::CsAsserted(Err('s')));
    assert_eq!(finish_of(a), Some(Err(DeviceError::Cs('s'))));
    assert_eq!(t.stage, Stage::Finished);
}

#[test]
fn delay_without_provider_is_misconfigured() {
    let ops = vec![OperationKind::Write, OperationKind::Delay];
    let (t, _) = Transaction::<u8, char>::begin(ops.clone(), false);
    let (t, _) = t.step(Event::CsAsserted(Ok(())));
    let (t, a) = t.step(Event::OperationDone(Ok(())));
    assert!(matches!(a, Action::Misconfigured));
    assert_eq!(t.stage, Stage::Misconfigured);

    let (t, _) = Transaction::<u8, char>::begin(ops, true);
    let (t, _) = t.step(Event::CsAsserted(Ok(())));
    let (_, a) = t.step(Event::OperationDone(Ok(())));
    assert!(matches!(a, Action::Run(1)));
}

#[test]
fn awaits_matches_stage() {
    let (t, _) = Transaction::<u8, char>::begin(vec![OperationKind::Read], true);
    assert!(t.awaits(&Event::CsAsserted(Ok(()))));
    assert!(!t.awaits(&Event::OperationDone(Ok(()))));
    let (t, _) = t.step(Event::CsAsserted(Ok(())));
    assert!(t.awaits(&Event::OperationDone(Ok(()))));
    assert!(!t.awaits(&Event::CsDeasserted(Ok(()))));
}
