//! Framing of the runtime's host-event stream. A polled batch holds `count`
//! events back to back; each is a 24-byte header (kind word at byte 4,
//! payload length at byte 16, auxiliary word at byte 20) followed by its
//! payload, and the events fill exactly the bytes the poll wrote.
use vstd::prelude::*;
use crate::bytes::{spec_le_u32, read_le_u32};
use super::ArtemisError;

verus! {

/// The byte length of an event header.
pub const EVENT_HEADER_BYTES: usize = 24;

/// The largest event batch accepted, in bytes.
pub const MAX_EVENT_BATCH_BYTES: usize = 0x40_0000;

/// One framed event: its kind, its auxiliary word and where its payload
/// lies in the batch.
#[derive(Debug, Clone, Copy, PartialEq, Eq, Structural)]
pub struct ArtemisEventFrame {
    pub kind: u32,
    pub aux: u32,
    pub payload_offset: usize,
    pub payload_len: usize,
}

/// The event framed at `offset`, and the offset after it; `None` when its
/// header or payload runs past the buffer, or its payload past the written
/// bytes.
pub open spec fn spec_frame_at(bytes: Seq<u8>, written: int, offset: int) -> Option<(ArtemisEventFrame, int)> {
    if offset + 24 > bytes.len() {
        None
    } else {
        let kind = spec_le_u32(bytes, offset + 4);
        let len = spec_le_u32(bytes, offset + 16);
        let aux = spec_le_u32(bytes, offset + 20);
        let start = offset + 24;
        if start + len > bytes.len() || start + len > written {
            None
        } else {
            Some((ArtemisEventFrame { kind, aux, payload_offset: start as usize, payload_len: len as usize }, start + len))
        }
    }
}

/// The events framed from `offset` on, `count` of them at most, stopping at
/// the first that cannot be framed; and whether all `count` were framed and
/// end exactly at `written`.
pub open spec fn spec_frames_from(bytes: Seq<u8>, written: int, offset: int, count: nat) -> (Seq<ArtemisEventFrame>, bool)
    decreases count,
{
    if count == 0 {
        (Seq::empty(), offset == written)
    } else {
        match spec_frame_at(bytes, written, offset) {
            None => (Seq::empty(), false),
            Some((frame, next)) => {
                let rest = spec_frames_from(bytes, written, next, (count - 1) as nat);
                (seq![frame] + rest.0, rest.1)
            },
        }
    }
}

/// The events of a polled batch in order, up to the first that cannot be
/// framed, and whether the whole batch is well formed. A poll that wrote
/// nothing, wrote past the buffer or reported no event frames nothing.
pub open spec fn spec_event_batch(bytes: Seq<u8>, written: int, count: nat) -> (Seq<ArtemisEventFrame>, bool) {
    if written == 0 || written > bytes.len() || count == 0 {
        (Seq::empty(), false)
    } else {
        spec_frames_from(bytes, written, 0, count)
    }
}

proof fn lemma_frames_step(bytes: Seq<u8>, written: int, offset: int, count: nat)
    requires
        count > 0,
        spec_frame_at(bytes, written, offset) is Some,
    ensures
        ({
            let (frame, next) = spec_frame_at(bytes, written, offset)->0;
            let rest = spec_frames_from(bytes, written, next, (count - 1) as nat);
            spec_frames_from(bytes, written, offset, count) == (seq![frame] + rest.0, rest.1)
        }),
{
}

/// Frames a polled batch: `written` bytes of `bytes` holding `count`
/// events. Returns the events that could be framed, in order, and the error
/// the batch fails with, if it does; the caller handles the returned events
/// before reporting that error.
pub fn parse_event_batch(bytes: &[u8], written: usize, count: usize) -> (r: (Vec<ArtemisEventFrame>, Option<ArtemisError>))
    ensures
        r.0@ == spec_event_batch(bytes@, written as int, count as nat).0,
        r.1 is None <==> spec_event_batch(bytes@, written as int, count as nat).1,
        r.1 is Some ==> r.1 == Some(ArtemisError::MediaCommand),
{
    let mut frames: Vec<ArtemisEventFrame> = Vec::new();
    if written == 0 || written > bytes.len() || count == 0 {
        return (frames, Some(ArtemisError::MediaCommand));
    }
    let mut offset: usize = 0;
    let mut k: usize = 0;
    while k < count
        invariant
            0 < written <= bytes@.len(),
            k <= count,
            offset <= written,
            frames@ + spec_frames_from(bytes@, written as int, offset as int, (count - k) as nat).0
                == spec_frames_from(bytes@, written as int, 0, count as nat).0,
            spec_frames_from(bytes@, written as int, offset as int, (count - k) as nat).1
                == spec_frames_from(bytes@, written as int, 0, count as nat).1,
        decreases count - k,
    {
        let ghost remaining = (count - k) as nat;
        if offset > bytes.len() || bytes.len() - offset < EVENT_HEADER_BYTES {
            assert(spec_frame_at(bytes@, written as int, offset as int) is None);
            assert(spec_frames_from(bytes@, written as int, offset as int, remaining).0 == Seq::<ArtemisEventFrame>::empty());
            assert(frames@ + Seq::<ArtemisEventFrame>::empty() == frames@);
            return (frames, Some(ArtemisError::MediaCommand));
        }
        let kind = match read_le_u32(bytes, offset + 4) { Some(w) => w, None => 0 };
        let len = match read_le_u32(bytes, offset + 16) { Some(w) => w, None => 0 };
        let aux = match read_le_u32(bytes, offset + 20) { Some(w) => w, None => 0 };
        let start = offset + EVENT_HEADER_BYTES;
        if (len as u64) > (bytes.len() - start) as u64 || start > written || (len as u64) > (written - start) as u64 {
            assert(spec_frame_at(bytes@, written as int, offset as int) is None);
            assert(frames@ + Seq::<ArtemisEventFrame>::empty() == frames@);
            return (frames, Some(ArtemisError::MediaCommand));
        }
        let frame = ArtemisEventFrame { kind, aux, payload_offset: start, payload_len: len as usize };
        proof {
            lemma_frames_step(bytes@, written as int, offset as int, remaining);
            assert(spec_frame_at(bytes@, written as int, offset as int) == Some((frame, start + len as int)));
        }
        let ghost before = frames@;
        frames.push(frame);
        assert(frames@ == before + seq![frame]);
        assert(before + (seq![frame] + spec_frames_from(bytes@, written as int, start + len as int, (remaining - 1) as nat).0)
            == frames@ + spec_frames_from(bytes@, written as int, start + len as int, (remaining - 1) as nat).0);
        offset = start + len as usize;
        k = k + 1;
    }
    assert(frames@ + Seq::<ArtemisEventFrame>::empty() == frames@);
    if offset != written {
        return (frames, Some(ArtemisError::MediaCommand));
    }
    (frames, None)
}

/// Checks the announced byte size of the next batch before it is polled.
pub fn check_batch_size(next: usize) -> (r: Result<(), ArtemisError>)
    ensures
        r is Ok <==> next <= MAX_EVENT_BATCH_BYTES,
        r is Err ==> r == Err::<(), ArtemisError>(ArtemisError::MediaCommand),
{
    if next > MAX_EVENT_BATCH_BYTES {
        return Err(ArtemisError::MediaCommand);
    }
    Ok(())
}

/// The severity of an engine log event, by the character in its auxiliary
/// word.
#[derive(Debug, Clone, Copy, PartialEq, Eq, Structural)]
pub enum ArtemisLogLevel {
    Error,
    Warn,
    Debug,
    Trace,
    Info,
}

/// `E`, `W`, `D` and `T` select error, warning, debug and trace; anything
/// else is informational.
pub open spec fn spec_log_level(aux: u32) -> ArtemisLogLevel {
    if aux == 0x45 {
        ArtemisLogLevel::Error
    } else if aux == 0x57 {
        ArtemisLogLevel::Warn
    } else if aux == 0x44 {
        ArtemisLogLevel::Debug
    } else if aux == 0x54 {
        ArtemisLogLevel::Trace
    } else {
        ArtemisLogLevel::Info
    }
}

/// The severity of an engine log event. An error-level event ends the
/// drain with the engine error.
pub fn log_level_of(aux: u32) -> (r: ArtemisLogLevel)
    ensures
        r == spec_log_level(aux),
{
    if aux == 0x45 {
        ArtemisLogLevel::Error
    } else if aux == 0x57 {
        ArtemisLogLevel::Warn
    } else if aux == 0x44 {
        ArtemisLogLevel::Debug
    } else if aux == 0x54 {
        ArtemisLogLevel::Trace
    } else {
        ArtemisLogLevel::Info
    }
}

} // verus!
