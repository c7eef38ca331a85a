use astra_emu_cmvs::error::CmvsError;
use astra_emu_cmvs::session::{check_resident_scripts, CmvsAdvance, CmvsHostEvent, CmvsSessionClock, MAX_SCRIPT_RESIDENT};
use astra_emu_cmvs::vm::CmvsPs2aVmState;

#[test]
fn elapsed_time_runs_sixty_ticks_per_second() {
    let mut clock = CmvsSessionClock::new();
    let mut vm = CmvsPs2aVmState::new(0);
    assert_eq!(clock.advance(&mut vm, 16_666_667, &[]), Ok(CmvsAdvance::Run { ticks: 1 }));
    assert_eq!(clock.phase, 20);
    assert_eq!(clock.advance(&mut vm, 0, &[]), Ok(CmvsAdvance::Run { ticks: 0 }));
    assert_eq!(clock.advance(&mut vm, 8_000_000, &[]), Ok(CmvsAdvance::Run { ticks: 0 }));
    assert_eq!(clock.phase, 480_000_020);
    assert_eq!(clock.advance(&mut vm, 1_000_000_000, &[]), Ok(CmvsAdvance::Run { ticks: 60 }));
    assert_eq!(clock.phase, 480_000_020);
}

#[test]
fn suspension_resets_the_clock() {
    let mut clock = CmvsSessionClock::new();
    let mut vm = CmvsPs2aVmState::new(0);
    clock.advance(&mut vm, 10_000_000, &[]).unwrap();
    assert_eq!(clock.phase, 600_000_000);
    let suspend = [CmvsHostEvent::WindowSuspended { suspended: true }];
    assert_eq!(clock.advance(&mut vm, 5_000_000_000, &suspend), Ok(CmvsAdvance::ResetClock));
    assert!(clock.suspended);
    assert_eq!(clock.phase, 0);
    assert_eq!(clock.advance(&mut vm, 1_000_000_000, &[]), Ok(CmvsAdvance::ResetClock));
    let resume = [CmvsHostEvent::WindowSuspended { suspended: false }];
    assert_eq!(clock.advance(&mut vm, 1_000_000_000, &resume), Ok(CmvsAdvance::ResetClock));
    assert!(!clock.suspended);
    assert_eq!(clock.advance(&mut vm, 1_000_000_000, &resume), Ok(CmvsAdvance::Run { ticks: 60 }));
}

#[test]
fn pointer_moves_and_close_requests() {
    let mut clock = CmvsSessionClock::new();
    let mut vm = CmvsPs2aVmState::new(7);
    let events = [
        CmvsHostEvent::PointerMove { x: 5, y: -6 },
        CmvsHostEvent::Other,
        CmvsHostEvent::WindowCloseRequested,
        CmvsHostEvent::PointerMove { x: 9, y: 9 },
        CmvsHostEvent::Input,
    ];
    assert_eq!(clock.advance(&mut vm, 1_000_000_000, &events), Ok(CmvsAdvance::Finished));
    assert_eq!((vm.pointer_x, vm.pointer_y), (5, -6));
    assert_eq!(clock.phase, 0);
    assert_eq!(vm.program_counter, 7);
}

#[test]
fn input_and_oversized_advances_are_refused() {
    let mut clock = CmvsSessionClock::new();
    let mut vm = CmvsPs2aVmState::new(0);
    assert_eq!(
        clock.advance(&mut vm, 0, &[CmvsHostEvent::Input]).unwrap_err().code(),
        "ASTRA_EMU_CMVS_INPUT_UNBOUND"
    );
    assert_eq!(clock.advance(&mut vm, 10_000_000_000, &[]), Ok(CmvsAdvance::Run { ticks: 600 }));
    assert_eq!(clock.advance(&mut vm, 10_016_666_667, &[]), Err(CmvsError::Time));
    let mut clock = CmvsSessionClock::new();
    assert_eq!(clock.advance(&mut vm, u64::MAX, &[]).unwrap_err().code(), "ASTRA_EMU_CMVS_TIME");
    assert_eq!(clock.phase, 0);
}

#[test]
fn resident_scripts_stay_within_the_byte_limit() {
    let limit = MAX_SCRIPT_RESIDENT as u32;
    assert_eq!(check_resident_scripts(&[], 0, limit), Ok(()));
    assert_eq!(check_resident_scripts(&[], 0, limit + 1), Err(CmvsError::ScriptBound));
    // The script being replaced does not count.
    assert_eq!(check_resident_scripts(&[(0, limit), (1, 10)], 0, limit - 10), Ok(()));
    assert_eq!(check_resident_scripts(&[(0, limit), (1, 10)], 0, limit - 9), Err(CmvsError::ScriptBound));
    assert_eq!(check_resident_scripts(&[(0, 5), (2, 6)], 1, limit - 11), Ok(()));
    assert_eq!(check_resident_scripts(&[(0, u32::MAX), (2, u32::MAX)], 1, 0), Err(CmvsError::ScriptBound));
}
