//! The confirm button: Enter, Space, keypad Enter and the primary pointer
//! button each hold it independently; releasing one must not release
//! another.
use vstd::prelude::*;
use crate::vm::CmvsPs2aVmState;

verus! {

/// The keys the interpreter distinguishes.
#[derive(Debug, Clone, Copy, PartialEq, Eq, Structural)]
pub enum CmvsKeyCode {
    Enter,
    Space,
    NumpadEnter,
    Other,
}

/// A key or button transition.
#[derive(Debug, Clone, Copy, PartialEq, Eq, Structural)]
pub enum CmvsKeyState {
    Pressed,
    Released,
    Repeated,
}

/// The pointer buttons the interpreter distinguishes.
#[derive(Debug, Clone, Copy, PartialEq, Eq, Structural)]
pub enum CmvsPointerButton {
    Primary,
    Other,
}

/// A host input event, reduced to what the interpreter reads.
#[derive(Debug, Clone, Copy, PartialEq, Eq, Structural)]
pub enum CmvsInputEvent {
    Key { code: CmvsKeyCode, state: CmvsKeyState },
    PointerButton { button: CmvsPointerButton, state: CmvsKeyState },
    WindowFocused { focused: bool },
    WindowSuspended { suspended: bool },
    Other,
}

/// The bit an event's button holds in the confirm mask, with the
/// transition, or `None` for other events.
pub open spec fn spec_binding(event: CmvsInputEvent) -> Option<(u8, CmvsKeyState)> {
    match event {
        CmvsInputEvent::Key { code: CmvsKeyCode::Enter, state } => Some((1u8, state)),
        CmvsInputEvent::Key { code: CmvsKeyCode::Space, state } => Some((2u8, state)),
        CmvsInputEvent::Key { code: CmvsKeyCode::NumpadEnter, state } => Some((4u8, state)),
        CmvsInputEvent::PointerButton { button: CmvsPointerButton::Primary, state } => Some((8u8, state)),
        _ => None,
    }
}

/// The window lost focus or was suspended.
pub open spec fn is_focus_loss(event: CmvsInputEvent) -> bool {
    event == CmvsInputEvent::WindowFocused { focused: false } || event == CmvsInputEvent::WindowSuspended { suspended: true }
}

/// The confirm mask and the three interpreter flags after an event:
/// `(mask, held, advance_press, advance_release)`.
pub open spec fn spec_input_step(mask: u8, held: bool, press: bool, release: bool, event: CmvsInputEvent)
    -> (u8, bool, bool, bool)
{
    match spec_binding(event) {
        Some((bit, state)) => match state {
            CmvsKeyState::Repeated => (mask, held, press, release),
            _ => {
                let was_held = mask != 0;
                let next = if state == CmvsKeyState::Pressed { mask | bit } else { mask & !bit };
                let now_held = next != 0;
                (next, now_held, press || (!was_held && now_held), release || (was_held && !now_held))
            },
        },
        None => if is_focus_loss(event) {
            (0u8, false, false, false)
        } else {
            (mask, held, press, release)
        },
    }
}

/// Which confirm buttons are down.
#[derive(Debug, Default)]
pub struct InputState {
    confirm: u8,
}

impl InputState {
    /// The mask of confirm buttons held.
    pub closed spec fn mask(&self) -> u8 {
        self.confirm
    }

    /// No button is held.
    pub fn new() -> (r: Self)
        ensures
            r.mask() == 0,
    {
        InputState { confirm: 0 }
    }

    /// Applies an input event: a confirm button press or release updates
    /// the held flag and latches an advance press or release edge; a
    /// repeat changes nothing; losing focus cancels everything without
    /// latching an advance.
    pub fn event(&mut self, vm: &mut CmvsPs2aVmState, event: &CmvsInputEvent)
        ensures
            (final(self).mask(), final(vm).input_confirm_held, final(vm).input_advance_press, final(vm).input_advance_release)
                == spec_input_step(old(self).mask(), old(vm).input_confirm_held, old(vm).input_advance_press,
                    old(vm).input_advance_release, *event),
            final(vm).program_counter == old(vm).program_counter,
            final(vm).script_data_segment_sizes == old(vm).script_data_segment_sizes,
            final(vm).script_data_segment_words == old(vm).script_data_segment_words,
            final(vm).script_frames == old(vm).script_frames,
            final(vm).script_name_indices == old(vm).script_name_indices,
            final(vm).frame_string_lengths == old(vm).frame_string_lengths,
            final(vm).texture_parents == old(vm).texture_parents,
            final(vm).texture_children == old(vm).texture_children,
            final(vm).pointer_x == old(vm).pointer_x,
            final(vm).pointer_y == old(vm).pointer_y,
    {
        let binding: Option<(u8, CmvsKeyState)> = match *event {
            CmvsInputEvent::Key { code: CmvsKeyCode::Enter, state } => Some((1, state)),
            CmvsInputEvent::Key { code: CmvsKeyCode::Space, state } => Some((2, state)),
            CmvsInputEvent::Key { code: CmvsKeyCode::NumpadEnter, state } => Some((4, state)),
            CmvsInputEvent::PointerButton { button: CmvsPointerButton::Primary, state } => Some((8, state)),
            _ => None,
        };
        if let Some((bit, state)) = binding {
            let was_held = self.confirm != 0;
            match state {
                CmvsKeyState::Pressed => self.confirm = self.confirm | bit,
                CmvsKeyState::Released => self.confirm = self.confirm & !bit,
                CmvsKeyState::Repeated => return,
            }
            vm.input_confirm_held = self.confirm != 0;
            vm.input_advance_press = vm.input_advance_press || (!was_held && vm.input_confirm_held);
            vm.input_advance_release = vm.input_advance_release || (was_held && !vm.input_confirm_held);
        }
        let focus_lost = match *event {
            CmvsInputEvent::WindowFocused { focused } => !focused,
            CmvsInputEvent::WindowSuspended { suspended } => suspended,
            _ => false,
        };
        if focus_lost {
            self.confirm = 0;
            vm.input_confirm_held = false;
            vm.input_advance_press = false;
            vm.input_advance_release = false;
        }
    }
}

/// Releasing one confirm button while another is down keeps the confirm
/// held and latches no release.
pub proof fn lemma_release_keeps_other_button(mask: u8, held: bool, press: bool, release: bool, other: u8,
    event: CmvsInputEvent)
    requires
        spec_binding(event) matches Some((bit, state)) && state == CmvsKeyState::Released && bit != other,
        other == 1 || other == 2 || other == 4 || other == 8,
        mask & other != 0,
    ensures
        ({
            let (next, now_held, _p, now_release) = spec_input_step(mask, held, press, release, event);
            &&& next & other != 0
            &&& now_held
            &&& now_release == release
        }),
{
    let (bit, state) = spec_binding(event)->Some_0;
    assert(bit == 1 || bit == 2 || bit == 4 || bit == 8);
    assert((mask & !bit) & other != 0 && (mask & !bit) != 0 && mask != 0) by (bit_vector)
        requires
            mask & other != 0,
            bit != other,
            bit == 1 || bit == 2 || bit == 4 || bit == 8,
            other == 1 || other == 2 || other == 4 || other == 8;
}

/// Losing focus never latches an advance, whatever was held.
pub proof fn lemma_focus_loss_cancels(mask: u8, held: bool, press: bool, release: bool, event: CmvsInputEvent)
    requires
        is_focus_loss(event),
    ensures
        spec_input_step(mask, held, press, release, event) == (0u8, false, false, false),
{
}

} // verus!
