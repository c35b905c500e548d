use sev_launch::error::{dispatch_error, DispatchFailure, Error, SevError};
use sev_launch::launch::{Command, Sev, State, FIRMWARE_ADDR, KERNEL_ADDR, MEASUREMENT_LEN, POLICY_ES, POLICY_NOBDG};
use sev_launch::region::{align_region, AlignedRegion};

fn ok() -> Result<(), DispatchFailure> {
    Ok(())
}

fn submit(sev: &mut Sev, cmd: Option<Command>) {
    let cmd = cmd.expect("a command is due");
    assert_eq!(sev.complete(cmd, ok()), Ok(()));
}

fn launched_to_update(policy: u32) -> Sev {
    let mut sev = Sev::new(false, true, policy, 0);
    let c = sev.sev_init().unwrap();
    submit(&mut sev, c);
    let c = sev.sev_launch_start(None, None).unwrap();
    let c = match c {
        Some(Command::LaunchStart { policy, dh_cert, session, .. }) => {
            Command::LaunchStart { policy, handle: 7, dh_cert, session }
        }
        other => panic!("unexpected {:?}", other),
    };
    assert_eq!(sev.complete(c, ok()), Ok(()));
    sev
}

#[test]
fn status_codes_map_to_kinds() {
    assert_eq!(SevError::from(0x07u32), SevError::PolicyFailure);
    assert_eq!(SevError::from(0x1Fu32), SevError::RbModeExited);
    assert_eq!(SevError::from(0x27u32), SevError::InvalidKey);
    assert_eq!(SevError::from(0xFFu32), SevError::InvalidErrorCode);
    assert_eq!(SevError::from(0x01u32), SevError::InvalidPlatformState);
    assert_eq!(SevError::from(0x13u32), SevError::HwerrorPlatform);
    assert_eq!(SevError::from(0x14u32), SevError::HwerrorUnsafe);
    assert_eq!(SevError::from(0x12u32), SevError::InvalidErrorCode);
    assert_eq!(SevError::from(0x1Eu32), SevError::InvalidErrorCode);
    assert_eq!(SevError::from(0x28u32), SevError::InvalidErrorCode);
    assert_eq!(SevError::from(0u32), SevError::InvalidErrorCode);
}

#[test]
fn dispatch_prefers_platform_status() {
    assert_eq!(dispatch_error(DispatchFailure { errno: 5, status: 0x07 }), SevError::PolicyFailure);
    assert_eq!(dispatch_error(DispatchFailure { errno: 22, status: 0 }), SevError::Errno(22));
}

#[test]
fn aligned_request_is_unchanged() {
    let r = align_region(1024, 32).unwrap();
    assert_eq!(r, AlignedRegion { addr: 1024, len: 32, lead: 0, trail: 0 });
}

#[test]
fn unaligned_request_is_widened() {
    let r = align_region(1000, 20).unwrap();
    assert_eq!(r, AlignedRegion { addr: 992, len: 32, lead: 8, trail: 4 });
    assert!(r.addr < 1000 && 1020 < r.addr + r.len as u64);
}

#[test]
fn aligned_start_unaligned_length() {
    let r = align_region(1024, 20).unwrap();
    assert_eq!(r, AlignedRegion { addr: 1024, len: 32, lead: 0, trail: 12 });
    let r = align_region(1000, 24).unwrap();
    assert_eq!(r, AlignedRegion { addr: 992, len: 32, lead: 8, trail: 0 });
}

#[test]
fn alignment_overflow_is_refused() {
    assert_eq!(align_region(1, u32::MAX), None);
    assert_eq!(align_region(u64::MAX - 3, 2), None);
    assert!(align_region(0, u32::MAX - 15).is_some());
}

#[test]
fn new_context_derives_flags() {
    let sev = Sev::new(true, true, POLICY_ES | POLICY_NOBDG, 0xffff_ffb3);
    assert_eq!(sev.cbitpos(), 0x33);
    assert!(sev.es());
    assert!(sev.snp());
    assert!(sev.encryption());
    assert_eq!(sev.policy(), POLICY_ES | POLICY_NOBDG);
    assert_eq!(sev.state(), State::UnInit);
    assert_eq!(sev.handle(), 0);
    assert_eq!(sev.measurement(), [0u8; MEASUREMENT_LEN]);
    let plain = Sev::new(false, true, POLICY_NOBDG, 47);
    assert!(!plain.es());
    assert_eq!(plain.cbitpos(), 47);
}

#[test]
fn bypass_when_encryption_is_off() {
    let mut sev = Sev::new(false, false, POLICY_ES, 47);
    assert_eq!(sev.snp_init().unwrap().is_none(), true);
    assert!(sev.sev_init().unwrap().is_none());
    assert!(sev.sev_launch_start(Some(vec![1, 2]), None).unwrap().is_none());
    assert!(sev.launch_update_data(1000, 20).unwrap().is_none());
    assert!(sev.launch_update_vmsa().unwrap().is_none());
    assert!(sev.get_launch_measurement().unwrap().is_none());
    assert!(sev.sev_launch_finish().unwrap().is_none());
    assert!(sev.load_firmware(0x7f00_0000_0000, 4096).unwrap().is_none());
    let failed = Err(DispatchFailure { errno: 5, status: 7 });
    assert_eq!(sev.complete(Command::LaunchFinish { handle: 3 }, failed), Ok(()));
    assert_eq!(sev.complete(Command::LaunchMeasure { measure: [9u8; 48] }, ok()), Ok(()));
    assert_eq!(sev.state(), State::UnInit);
    assert_eq!(sev.handle(), 0);
    assert_eq!(sev.measurement(), [0u8; 48]);
}

#[test]
fn data_encryption_before_init_is_refused() {
    let mut sev = Sev::new(false, true, 0, 47);
    assert_eq!(sev.launch_update_data(1024, 32).unwrap_err(), SevError::InvalidPlatformState);
    let region = AlignedRegion { addr: 1024, len: 32, lead: 0, trail: 0 };
    assert_eq!(
        sev.complete(Command::LaunchUpdateData { region }, ok()),
        Err(SevError::InvalidPlatformState)
    );
    assert_eq!(sev.state(), State::UnInit);
    assert_eq!(sev.get_launch_measurement().unwrap_err(), SevError::InvalidPlatformState);
    assert_eq!(sev.sev_launch_finish().unwrap_err(), SevError::InvalidPlatformState);
    assert_eq!(sev.sev_launch_start(None, None).unwrap_err(), SevError::InvalidPlatformState);
}

#[test]
fn nominal_sequence_visits_each_state_once() {
    let mut sev = Sev::new(false, true, POLICY_ES, 47);
    let mut seen = vec![sev.state()];
    let c = sev.sev_init().unwrap();
    assert!(matches!(c, Some(Command::EsInit)));
    submit(&mut sev, c);
    seen.push(sev.state());
    assert_eq!(sev.sev_init().unwrap_err(), SevError::InvalidPlatformState);
    let c = sev.sev_launch_start(Some(vec![1, 2, 3]), Some(vec![4])).unwrap();
    let c = match c {
        Some(Command::LaunchStart { policy, handle, dh_cert, session }) => {
            assert_eq!(policy, POLICY_ES);
            assert_eq!(handle, 0);
            assert_eq!(dh_cert, Some(vec![4]));
            assert_eq!(session, Some(vec![1, 2, 3]));
            Command::LaunchStart { policy, handle: 11, dh_cert, session }
        }
        other => panic!("unexpected {:?}", other),
    };
    assert_eq!(sev.complete(c, ok()), Ok(()));
    seen.push(sev.state());
    let c = sev.launch_update_data(1000, 20).unwrap();
    assert!(matches!(
        c,
        Some(Command::LaunchUpdateData { region: AlignedRegion { addr: 992, len: 32, .. } })
    ));
    submit(&mut sev, c);
    let c = sev.launch_update_vmsa().unwrap();
    assert!(matches!(c, Some(Command::LaunchUpdateVmsa)));
    submit(&mut sev, c);
    assert_eq!(sev.state(), State::LaunchUpdate);
    let c = match sev.get_launch_measurement().unwrap() {
        Some(Command::LaunchMeasure { measure }) => {
            assert_eq!(measure, [0u8; 48]);
            Command::LaunchMeasure { measure: [0xabu8; 48] }
        }
        other => panic!("unexpected {:?}", other),
    };
    assert_eq!(sev.complete(c, ok()), Ok(()));
    seen.push(sev.state());
    let c = sev.sev_launch_finish().unwrap();
    assert!(matches!(c, Some(Command::LaunchFinish { handle: 11 })));
    submit(&mut sev, c);
    seen.push(sev.state());
    assert_eq!(
        seen,
        vec![State::UnInit, State::Init, State::LaunchUpdate, State::LaunchSecret, State::Running]
    );
    assert_eq!(sev.handle(), 11);
    assert_eq!(sev.measurement(), [0xabu8; 48]);
}

#[test]
fn snp_init_moves_to_init() {
    let mut sev = Sev::new(true, true, 0, 47);
    let c = sev.snp_init().unwrap();
    assert!(matches!(c, Some(Command::SnpInit)));
    submit(&mut sev, c);
    assert_eq!(sev.state(), State::Init);
    assert_eq!(sev.snp_init().unwrap_err(), SevError::InvalidPlatformState);
}

#[test]
fn plain_policy_uses_plain_init_and_skips_vmsa() {
    let sev = launched_to_update(POLICY_NOBDG);
    assert!(sev.launch_update_vmsa().unwrap().is_none());
    let fresh = Sev::new(false, true, POLICY_NOBDG, 47);
    assert!(matches!(fresh.sev_init().unwrap(), Some(Command::Init)));
}

#[test]
fn guest_handle_is_kept_after_launch_start() {
    let mut sev = Sev::new(false, true, 0, 47);
    assert_eq!(sev.handle(), 0);
    let c = sev.sev_init().unwrap();
    submit(&mut sev, c);
    assert_eq!(sev.handle(), 0);
    let c = Command::LaunchStart { policy: 0, handle: 42, dh_cert: None, session: None };
    assert_eq!(sev.complete(c, ok()), Ok(()));
    assert_eq!(sev.handle(), 42);
    let again = Command::LaunchStart { policy: 0, handle: 99, dh_cert: None, session: None };
    assert_eq!(sev.complete(again, ok()), Err(SevError::InvalidPlatformState));
    let c = Command::LaunchMeasure { measure: [1u8; 48] };
    assert_eq!(sev.complete(c, ok()), Ok(()));
    submit(&mut sev, Some(Command::LaunchFinish { handle: 42 }));
    assert_eq!(sev.handle(), 42);
}

#[test]
fn failed_command_changes_nothing() {
    let mut sev = launched_to_update(0);
    let c = Command::LaunchMeasure { measure: [5u8; 48] };
    let r = sev.complete(c, Err(DispatchFailure { errno: 5, status: 0x0b }));
    assert_eq!(r, Err(SevError::BadMeasurement));
    assert_eq!(sev.state(), State::LaunchUpdate);
    assert_eq!(sev.measurement(), [0u8; 48]);
    let c = Command::LaunchMeasure { measure: [5u8; 48] };
    let r = sev.complete(c, Err(DispatchFailure { errno: 16, status: 0 }));
    assert_eq!(r, Err(SevError::Errno(16)));
    assert_eq!(sev.measurement().len(), MEASUREMENT_LEN);
}

#[test]
fn launch_update_data_refuses_uncoverable_range() {
    let sev = launched_to_update(0);
    assert_eq!(sev.launch_update_data(1, u32::MAX).unwrap_err(), SevError::InvalidLength);
}

#[test]
fn firmware_encryption_covers_image() {
    let sev = launched_to_update(0);
    let host: u64 = 0x7f12_3456_7008;
    let c = sev.load_firmware(host, 1000).unwrap();
    match c {
        Some(Command::LaunchUpdateData { region }) => {
            assert_eq!(region.addr, 0x7f12_3456_7000);
            assert_eq!(region.len, 1008);
            assert!(region.addr <= host && host + 1000 <= region.addr + region.len as u64);
        }
        other => panic!("unexpected {:?}", other),
    }
    assert_eq!(sev.load_firmware(host, 1u64 << 33).unwrap_err(), SevError::InvalidLength);
    assert_eq!(FIRMWARE_ADDR, 0x100000);
    assert_eq!(KERNEL_ADDR, 0x1000000);
}

#[test]
fn firmware_load_before_launch_start_is_refused() {
    let sev = Sev::new(false, true, 0, 47);
    assert_eq!(sev.load_firmware(0x1000, 64).unwrap_err(), SevError::InvalidPlatformState);
    assert_eq!(Error::FirmwareLoad, Error::FirmwareLoad);
}
