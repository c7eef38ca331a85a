use astra_emu_cmvs::error::CmvsError;
use astra_emu_cmvs::input::{CmvsInputEvent, CmvsKeyCode, CmvsKeyState, CmvsPointerButton, InputState};
use astra_emu_cmvs::vm::CmvsPs2aVmState;
use std::collections::BTreeMap;

fn key(code: CmvsKeyCode, state: CmvsKeyState) -> CmvsInputEvent {
    CmvsInputEvent::Key { code, state }
}

#[test]
fn release_between_ticks_survives_until_native_consume() {
    let mut input = InputState::default();
    let mut vm = CmvsPs2aVmState::new(0);
    input.event(&mut vm, &key(CmvsKeyCode::Enter, CmvsKeyState::Pressed));
    input.event(&mut vm, &key(CmvsKeyCode::Enter, CmvsKeyState::Released));
    assert!(vm.input_advance_release);
    assert!(!vm.input_confirm_held);
    input.event(&mut vm, &key(CmvsKeyCode::Enter, CmvsKeyState::Repeated));
    assert!(vm.input_advance_release);
}

#[test]
fn independent_buttons_and_focus_loss_do_not_advance() {
    let mut input = InputState::default();
    let mut vm = CmvsPs2aVmState::new(0);
    input.event(&mut vm, &key(CmvsKeyCode::Enter, CmvsKeyState::Pressed));
    input.event(&mut vm, &key(CmvsKeyCode::Space, CmvsKeyState::Pressed));
    input.event(&mut vm, &key(CmvsKeyCode::Space, CmvsKeyState::Released));
    assert!(vm.input_confirm_held);
    assert!(!vm.input_advance_release);
    input.event(&mut vm, &CmvsInputEvent::WindowFocused { focused: false });
    assert!(!vm.input_confirm_held);
    assert!(!vm.input_advance_release);
    assert!(!vm.input_advance_press);
}

#[test]
fn pointer_press_latches_an_advance_and_suspension_cancels_it() {
    let mut input = InputState::new();
    let mut vm = CmvsPs2aVmState::new(7);
    input.event(&mut vm, &CmvsInputEvent::PointerButton { button: CmvsPointerButton::Primary, state: CmvsKeyState::Pressed });
    assert!(vm.input_confirm_held);
    assert!(vm.input_advance_press);
    input.event(&mut vm, &CmvsInputEvent::PointerButton { button: CmvsPointerButton::Other, state: CmvsKeyState::Released });
    assert!(vm.input_confirm_held);
    input.event(&mut vm, &key(CmvsKeyCode::Other, CmvsKeyState::Released));
    assert!(vm.input_confirm_held);
    input.event(&mut vm, &CmvsInputEvent::WindowSuspended { suspended: true });
    assert!(!vm.input_confirm_held && !vm.input_advance_press && !vm.input_advance_release);
    assert_eq!(vm.program_counter, 7);
}

#[test]
fn replacing_script_data_clears_old_words_and_preserves_other_frames() {
    let mut vm = CmvsPs2aVmState::new(0);
    vm.install_script_data(0, &[1, 0, 0, 0, 2, 0, 0, 0]).unwrap();
    vm.install_script_data(1, &[3, 0, 0, 0]).unwrap();
    vm.install_script_data(0, &[0; 4]).unwrap();
    assert_eq!(vm.script_data_segment_sizes[&0], 4);
    assert!(!vm.script_data_segment_words.contains_key(&0));
    assert_eq!(vm.script_data_segment_words[&1][&0], 3);
    vm.install_script_data(0, &[]).unwrap();
    assert_eq!(vm.script_data_segment_sizes[&0], 0);
    assert!(!vm.script_data_segment_words.contains_key(&0));
}

#[test]
fn script_memory_keeps_little_endian_words_and_exact_byte_size() {
    let mut vm = CmvsPs2aVmState::new(0);
    vm.install_script_data(2, &[1, 2, 3, 4, 0, 0, 0, 0, 255]).unwrap();
    assert_eq!(vm.script_data_segment_sizes[&2], 9);
    assert_eq!(vm.script_data_segment_words[&2], BTreeMap::from([(0, 0x04030201)]));
}

#[test]
fn script_memory_rejects_frames_past_the_engine_limit() {
    let mut vm = CmvsPs2aVmState::new(0);
    assert_eq!(vm.install_script_data(4, &[1, 0, 0, 0]).unwrap_err(), CmvsError::ScriptFrame);
    assert!(vm.script_data_segment_sizes.is_empty());
    vm.install_script_data(3, &[0, 0, 0, 0, 9, 0, 0, 0]).unwrap();
    assert_eq!(vm.script_data_segment_words[&3], BTreeMap::from([(4, 9)]));
}
