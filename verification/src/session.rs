//! The session clock: how a host advance turns into interpreter ticks. The
//! interpreter runs at 60 ticks per second; elapsed host time accumulates
//! as nanoseconds times 60 until a whole tick (10^9 units) is due.
use vstd::prelude::*;
use crate::error::CmvsError;
use crate::vm::CmvsPs2aVmState;

verus! {

/// Clock units of one interpreter tick: nanoseconds times the tick rate.
pub const TICK_UNITS: u64 = 1_000_000_000;

/// The interpreter's tick rate, per second.
pub const TICKS_PER_SECOND: u64 = 60;

/// The most ticks one advance may owe before it is refused.
pub const MAX_TICKS_PER_ADVANCE: u64 = 600;

/// The most instructions one tick may run before it stops dispatching.
pub const MAX_INSTRUCTIONS: u32 = 1_048_576;

/// The most decoded script bytes that may be resident at once.
pub const MAX_SCRIPT_RESIDENT: u64 = 0x1000_0000;

/// A host event, reduced to what the session clock reads. A pointer
/// position is given in whole stage pixels.
#[derive(Debug, Clone, Copy, PartialEq, Eq, Structural)]
pub enum CmvsHostEvent {
    WindowCloseRequested,
    WindowSuspended { suspended: bool },
    PointerMove { x: i32, y: i32 },
    /// A key, pointer button, wheel or text event, which this session does
    /// not take.
    Input,
    /// Any other window event, which changes nothing.
    Other,
}

/// What an advance asks of the session.
#[derive(Debug, Clone, Copy, PartialEq, Eq, Structural)]
pub enum CmvsAdvance {
    /// The host asked to close the window.
    Finished,
    /// The session is suspended or its suspension changed: the host restarts
    /// its clock and no tick runs.
    ResetClock,
    /// Run this many interpreter ticks.
    Run { ticks: u64 },
}

/// How a scan of a tick's events ended.
#[derive(Debug, Clone, Copy, PartialEq, Eq, Structural)]
pub enum CmvsEventScanEnd {
    Finished,
    Refused,
    Completed { changed: bool },
}

/// Scans events in order from a suspension flag, a changed flag and a
/// pointer position: a close request ends the scan as finished, an input
/// event ends it as refused, a suspension event sets the flag (marking a
/// change when it differs), a pointer move moves the pointer. Returns the
/// end and the flag and pointer reached.
pub open spec fn spec_scan_events(events: Seq<CmvsHostEvent>, suspended: bool, changed: bool, x: i32, y: i32)
    -> (CmvsEventScanEnd, bool, i32, i32)
    decreases events.len(),
{
    if events.len() == 0 {
        (CmvsEventScanEnd::Completed { changed }, suspended, x, y)
    } else {
        let rest = events.drop_first();
        match events[0] {
            CmvsHostEvent::WindowCloseRequested => (CmvsEventScanEnd::Finished, suspended, x, y),
            CmvsHostEvent::Input => (CmvsEventScanEnd::Refused, suspended, x, y),
            CmvsHostEvent::WindowSuspended { suspended: s } =>
                spec_scan_events(rest, s, changed || suspended != s, x, y),
            CmvsHostEvent::PointerMove { x: nx, y: ny } => spec_scan_events(rest, suspended, changed, nx, ny),
            CmvsHostEvent::Other => spec_scan_events(rest, suspended, changed, x, y),
        }
    }
}

/// The clock of one session.
pub struct CmvsSessionClock {
    /// Accumulated clock units not yet spent on ticks.
    pub phase: u64,
    pub suspended: bool,
}

impl CmvsSessionClock {
    /// A running clock with nothing accumulated.
    pub fn new() -> (r: Self)
        ensures
            r.phase == 0,
            !r.suspended,
    {
        CmvsSessionClock { phase: 0, suspended: false }
    }

    /// Takes a host advance of `elapsed_ns` nanoseconds with its events.
    /// Events are read in order: a close request finishes the session, an
    /// input event is refused, suspension and pointer events update the
    /// session. A suspended session, or one whose suspension changed, resets
    /// the host clock and drops its accumulated time. Otherwise the elapsed
    /// time is accumulated and every whole tick it completes is run; an
    /// advance that overflows the clock, or owes more than the tick limit,
    /// is refused.
    pub fn advance(&mut self, vm: &mut CmvsPs2aVmState, elapsed_ns: u64, events: &[CmvsHostEvent])
        -> (r: Result<CmvsAdvance, CmvsError>)
        ensures
            ({
                let (end, suspended, x, y) = spec_scan_events(events@, old(self).suspended, false,
                    old(vm).pointer_x, old(vm).pointer_y);
                let units = old(self).phase + elapsed_ns * TICKS_PER_SECOND;
                &&& final(self).suspended == suspended
                &&& final(vm).pointer_x == x
                &&& final(vm).pointer_y == y
                &&& final(vm).program_counter == old(vm).program_counter
                &&& final(vm).script_data_segment_sizes == old(vm).script_data_segment_sizes
                &&& final(vm).script_data_segment_words == old(vm).script_data_segment_words
                &&& final(vm).script_frames == old(vm).script_frames
                &&& final(vm).script_name_indices == old(vm).script_name_indices
                &&& final(vm).frame_string_lengths == old(vm).frame_string_lengths
                &&& final(vm).texture_parents == old(vm).texture_parents
                &&& final(vm).texture_children == old(vm).texture_children
                &&& final(vm).input_confirm_held == old(vm).input_confirm_held
                &&& final(vm).input_advance_press == old(vm).input_advance_press
                &&& final(vm).input_advance_release == old(vm).input_advance_release
                &&& match end {
                    CmvsEventScanEnd::Finished => r == Ok::<CmvsAdvance, CmvsError>(CmvsAdvance::Finished)
                        && final(self).phase == old(self).phase,
                    CmvsEventScanEnd::Refused => r == Err::<CmvsAdvance, CmvsError>(CmvsError::InputUnbound)
                        && final(self).phase == old(self).phase,
                    CmvsEventScanEnd::Completed { changed } => if suspended || changed {
                        r == Ok::<CmvsAdvance, CmvsError>(CmvsAdvance::ResetClock) && final(self).phase == 0
                    } else if units > u64::MAX {
                        r == Err::<CmvsAdvance, CmvsError>(CmvsError::Time) && final(self).phase == old(self).phase
                    } else if units / (TICK_UNITS as int) > MAX_TICKS_PER_ADVANCE {
                        r == Err::<CmvsAdvance, CmvsError>(CmvsError::Time) && final(self).phase == units
                    } else {
                        r == Ok::<CmvsAdvance, CmvsError>(CmvsAdvance::Run { ticks: (units / (TICK_UNITS as int)) as u64 })
                            && final(self).phase == units % (TICK_UNITS as int)
                    },
                }
            }),
    {
        let ghost s0 = old(self).suspended;
        let ghost x0 = old(vm).pointer_x;
        let ghost y0 = old(vm).pointer_y;
        let mut changed = false;
        let mut stop: u8 = 0;
        let mut i: usize = 0;
        assert(events@.subrange(0, events@.len() as int) == events@);
        while i < events.len() && stop == 0
            invariant
                i <= events@.len(),
                stop <= 2,
                stop == 0 ==> spec_scan_events(events@.subrange(i as int, events@.len() as int), self.suspended,
                    changed, vm.pointer_x, vm.pointer_y) == spec_scan_events(events@, s0, false, x0, y0),
                stop == 1 ==> spec_scan_events(events@, s0, false, x0, y0)
                    == (CmvsEventScanEnd::Finished, self.suspended, vm.pointer_x, vm.pointer_y),
                stop == 2 ==> spec_scan_events(events@, s0, false, x0, y0)
                    == (CmvsEventScanEnd::Refused, self.suspended, vm.pointer_x, vm.pointer_y),
                self.phase == old(self).phase,
                vm.program_counter == old(vm).program_counter,
                vm.script_data_segment_sizes == old(vm).script_data_segment_sizes,
                vm.script_data_segment_words == old(vm).script_data_segment_words,
                vm.script_frames == old(vm).script_frames,
                vm.script_name_indices == old(vm).script_name_indices,
                vm.frame_string_lengths == old(vm).frame_string_lengths,
                vm.texture_parents == old(vm).texture_parents,
                vm.texture_children == old(vm).texture_children,
                vm.input_confirm_held == old(vm).input_confirm_held,
                vm.input_advance_press == old(vm).input_advance_press,
                vm.input_advance_release == old(vm).input_advance_release,
            decreases events@.len() - i,
        {
            let ghost rest = events@.subrange(i as int, events@.len() as int);
            assert(rest[0] == events@[i as int]);
            assert(rest.drop_first() == events@.subrange(i + 1, events@.len() as int));
            match events[i] {
                CmvsHostEvent::WindowCloseRequested => {
                    stop = 1;
                },
                CmvsHostEvent::Input => {
                    stop = 2;
                },
                CmvsHostEvent::WindowSuspended { suspended } => {
                    changed = changed || self.suspended != suspended;
                    self.suspended = suspended;
                },
                CmvsHostEvent::PointerMove { x, y } => {
                    vm.pointer_x = x;
                    vm.pointer_y = y;
                },
                CmvsHostEvent::Other => {},
            }
            i = i + 1;
        }
        if stop == 1 {
            return Ok(CmvsAdvance::Finished);
        }
        if stop == 2 {
            return Err(CmvsError::InputUnbound);
        }
        assert(events@.subrange(events@.len() as int, events@.len() as int) == Seq::<CmvsHostEvent>::empty());
        if self.suspended || changed {
            self.phase = 0;
            return Ok(CmvsAdvance::ResetClock);
        }
        let scaled = match elapsed_ns.checked_mul(TICKS_PER_SECOND) {
            Some(v) => v,
            None => return Err(CmvsError::Time),
        };
        let units = match self.phase.checked_add(scaled) {
            Some(v) => v,
            None => return Err(CmvsError::Time),
        };
        self.phase = units;
        if units / TICK_UNITS > MAX_TICKS_PER_ADVANCE {
            return Err(CmvsError::Time);
        }
        self.phase = units % TICK_UNITS;
        Ok(CmvsAdvance::Run { ticks: units / TICK_UNITS })
    }
}

/// The decoded bytes of the resident scripts other than the one in `frame`.
pub open spec fn other_resident_bytes(resident: Seq<(u16, u32)>, frame: u16) -> int
    decreases resident.len(),
{
    if resident.len() == 0 {
        0
    } else {
        let (f, size) = resident.last();
        other_resident_bytes(resident.drop_last(), frame) + if f == frame { 0 } else { size as int }
    }
}

proof fn lemma_other_resident_bound(resident: Seq<(u16, u32)>, frame: u16)
    ensures
        0 <= other_resident_bytes(resident, frame) <= resident.len() * 0x1_0000_0000,
    decreases resident.len(),
{
    if resident.len() > 0 {
        lemma_other_resident_bound(resident.drop_last(), frame);
    }
}

/// Checks that loading a script of `decoded_size` bytes into `frame` keeps
/// the resident scripts within the byte limit; `resident` lists each loaded
/// frame with its script's decoded size, and the script now in `frame`, if
/// any, is the one replaced.
pub fn check_resident_scripts(resident: &[(u16, u32)], frame: u16, decoded_size: u32) -> (r: Result<(), CmvsError>)
    ensures
        r is Ok <==> other_resident_bytes(resident@, frame) + decoded_size <= MAX_SCRIPT_RESIDENT,
        r is Err ==> r == Err::<(), CmvsError>(CmvsError::ScriptBound),
{
    let mut total: u128 = 0;
    let mut i: usize = 0;
    while i < resident.len()
        invariant
            i <= resident@.len(),
            total == other_resident_bytes(resident@.subrange(0, i as int), frame),
        decreases resident@.len() - i,
    {
        assert(resident@.subrange(0, i + 1).drop_last() == resident@.subrange(0, i as int));
        proof { lemma_other_resident_bound(resident@.subrange(0, i as int), frame); }
        assert(i * 0x1_0000_0000 <= usize::MAX * 0x1_0000_0000) by (nonlinear_arith)
            requires i <= usize::MAX;
        let (f, size) = resident[i];
        if f != frame {
            total = total + size as u128;
        }
        i = i + 1;
    }
    assert(resident@.subrange(0, resident@.len() as int) == resident@);
    proof { lemma_other_resident_bound(resident@, frame); }
    assert(resident@.len() * 0x1_0000_0000 <= usize::MAX * 0x1_0000_0000) by (nonlinear_arith)
        requires resident@.len() <= usize::MAX;
    if total + decoded_size as u128 > MAX_SCRIPT_RESIDENT as u128 {
        return Err(CmvsError::ScriptBound);
    }
    Ok(())
}

} // verus!
