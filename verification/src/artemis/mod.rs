//! The Artemis family adapter's own logic: host input translation, the
//! framing of the runtime's host-event stream, media command kinds, base
//! archive selection and session bookkeeping.
pub mod input;
pub mod events;
pub mod media;
pub mod archive;
pub mod mixer;

use vstd::prelude::*;
use crate::text::{push_decimal, decimal_chars, chars_of, string_of};

verus! {

/// Stable diagnostic of a rejected Artemis input or operation.
#[derive(Debug, Clone, Copy, PartialEq, Eq, Structural)]
pub enum ArtemisError {
    Archive,
    ArchiveAmbiguous,
    AudioMixer,
    Engine,
    FrameEmpty,
    FrameSize,
    MediaCommand,
    MediaUnsupported,
    SessionId,
    UiUnsupported,
}

/// The stable string code of each Artemis error.
pub open spec fn artemis_error_code(e: ArtemisError) -> &'static str {
    match e {
        ArtemisError::Archive => "ASTRA_EMU_ARTEMIS_ARCHIVE",
        ArtemisError::ArchiveAmbiguous => "ASTRA_EMU_ARTEMIS_ARCHIVE_AMBIGUOUS",
        ArtemisError::AudioMixer => "ASTRA_EMU_ARTEMIS_AUDIO_MIXER",
        ArtemisError::Engine => "ASTRA_EMU_ARTEMIS_ENGINE",
        ArtemisError::FrameEmpty => "ASTRA_EMU_ARTEMIS_FRAME_EMPTY",
        ArtemisError::FrameSize => "ASTRA_EMU_ARTEMIS_FRAME_SIZE",
        ArtemisError::MediaCommand => "ASTRA_EMU_ARTEMIS_MEDIA_COMMAND",
        ArtemisError::MediaUnsupported => "ASTRA_EMU_ARTEMIS_MEDIA_UNSUPPORTED",
        ArtemisError::SessionId => "ASTRA_EMU_ARTEMIS_SESSION_ID",
        ArtemisError::UiUnsupported => "ASTRA_EMU_ARTEMIS_UI_UNSUPPORTED",
    }
}

impl ArtemisError {
    /// The stable string code of the error.
    pub fn code(&self) -> (r: &'static str)
        ensures
            r == artemis_error_code(*self),
    {
        match self {
            ArtemisError::Archive => "ASTRA_EMU_ARTEMIS_ARCHIVE",
            ArtemisError::ArchiveAmbiguous => "ASTRA_EMU_ARTEMIS_ARCHIVE_AMBIGUOUS",
            ArtemisError::AudioMixer => "ASTRA_EMU_ARTEMIS_AUDIO_MIXER",
            ArtemisError::Engine => "ASTRA_EMU_ARTEMIS_ENGINE",
            ArtemisError::FrameEmpty => "ASTRA_EMU_ARTEMIS_FRAME_EMPTY",
            ArtemisError::FrameSize => "ASTRA_EMU_ARTEMIS_FRAME_SIZE",
            ArtemisError::MediaCommand => "ASTRA_EMU_ARTEMIS_MEDIA_COMMAND",
            ArtemisError::MediaUnsupported => "ASTRA_EMU_ARTEMIS_MEDIA_UNSUPPORTED",
            ArtemisError::SessionId => "ASTRA_EMU_ARTEMIS_SESSION_ID",
            ArtemisError::UiUnsupported => "ASTRA_EMU_ARTEMIS_UI_UNSUPPORTED",
        }
    }
}

/// Output sample rate of the family's audio, in Hz.
pub const SAMPLE_RATE: u32 = 48_000;
/// Output channels of the family's audio.
pub const CHANNELS: u16 = 2;
/// Stereo frames per sink write: 10 ms at the output rate.
pub const CHUNK_FRAMES: usize = 480;
/// Frames the engine may take to compose its first frame during boot.
pub const FIRST_FRAME_SETTLE_FRAMES: u32 = 600;
/// The tick interval used while booting, in milliseconds.
pub const FRAME_INTERVAL_MS: u64 = 16;
/// The boot configuration entry of a base archive.
pub const PROJECT_INI: &'static str = "system.ini";

/// The family provider: it numbers the sessions it opens.
pub struct ArtemisProvider {
    next_session_id: u64,
}

impl View for ArtemisProvider {
    /// The number the next session will get.
    type V = u64;

    closed spec fn view(&self) -> u64 {
        self.next_session_id
    }
}

impl Default for ArtemisProvider {
    fn default() -> (r: Self)
        ensures
            r@ == 0,
    {
        ArtemisProvider { next_session_id: 0 }
    }
}

impl ArtemisProvider {
    /// A provider whose first session is number 0.
    pub fn new() -> (r: Self)
        ensures
            r@ == 0,
    {
        ArtemisProvider { next_session_id: 0 }
    }

    /// Takes the next session number; once every number is used, fails and
    /// keeps the provider as it was.
    pub fn allocate_session_id(&mut self) -> (r: Result<u64, ArtemisError>)
        ensures
            old(self)@ < u64::MAX ==> r == Ok::<u64, ArtemisError>(old(self)@) && final(self)@ == old(self)@ + 1,
            old(self)@ == u64::MAX ==> r == Err::<u64, ArtemisError>(ArtemisError::SessionId)
                && final(self)@ == old(self)@,
    {
        let id = self.next_session_id;
        match id.checked_add(1) {
            Some(next) => {
                self.next_session_id = next;
                Ok(id)
            },
            None => Err(ArtemisError::SessionId),
        }
    }
}

/// The host-visible name of session `id`.
pub open spec fn spec_session_name(id: u64) -> Seq<char> {
    "artemis-"@ + decimal_chars(id as nat)
}

/// The host-visible name of session `id`.
pub fn session_name(id: u64) -> (r: String)
    ensures
        r@ == spec_session_name(id),
{
    let mut s = String::from_str("artemis-");
    push_decimal(&mut s, id);
    s
}

/// The shape of the frames a session presents: opaque RGBA8 sRGB rows of
/// `stride` bytes.
#[derive(Debug, Clone, Copy, PartialEq, Eq, Structural)]
pub struct ArtemisFrameInfo {
    pub width: u32,
    pub height: u32,
    pub stride: u32,
}

/// The frame shape of a stage of `width` by `height` pixels; an empty stage
/// and a row too long for 32 bits fail.
pub fn frame_info_of(width: u32, height: u32) -> (r: Result<ArtemisFrameInfo, ArtemisError>)
    ensures
        (width == 0 || height == 0) ==> r == Err::<ArtemisFrameInfo, ArtemisError>(ArtemisError::FrameEmpty),
        width != 0 && height != 0 && width * 4 > u32::MAX
            ==> r == Err::<ArtemisFrameInfo, ArtemisError>(ArtemisError::FrameSize),
        width != 0 && height != 0 && width * 4 <= u32::MAX ==> r == Ok::<ArtemisFrameInfo, ArtemisError>(
            ArtemisFrameInfo { width, height, stride: (width * 4) as u32 }),
{
    if width == 0 || height == 0 {
        return Err(ArtemisError::FrameEmpty);
    }
    match width.checked_mul(4) {
        Some(stride) => Ok(ArtemisFrameInfo { width, height, stride }),
        None => Err(ArtemisError::FrameSize),
    }
}

/// The whole milliseconds of a host tick, rounded to nearest and kept
/// within 1 to 1000.
pub open spec fn spec_elapsed_ms(elapsed_ns: u64) -> int {
    let ms = (elapsed_ns + 500_000) / 1_000_000;
    if ms < 1 { 1 } else if ms > 1000 { 1000 } else { ms }
}

/// The engine step of a host tick of `elapsed_ns` nanoseconds.
pub fn elapsed_ms(elapsed_ns: u64) -> (r: u64)
    requires
        elapsed_ns + 500_000 <= u64::MAX,
    ensures
        r == spec_elapsed_ms(elapsed_ns),
{
    let ms = (elapsed_ns + 500_000) / 1_000_000;
    if ms < 1 {
        1
    } else if ms > 1000 {
        1000
    } else {
        ms
    }
}

/// The characters of `s` before its first line feed.
pub open spec fn before_line_feed(s: Seq<char>) -> Seq<char>
    decreases s.len(),
{
    if s.len() == 0 || s[0] == '\n' {
        Seq::empty()
    } else {
        seq![s[0]] + before_line_feed(s.drop_first())
    }
}

/// The first line of `s` as text lines are read: up to the first line feed,
/// without a carriage return just before it; a text without a line feed is
/// one line. An empty text has no line.
pub open spec fn first_line(s: Seq<char>) -> Option<Seq<char>> {
    let head = before_line_feed(s);
    if s.len() == 0 {
        None
    } else if head.len() < s.len() && head.len() > 0 && head.last() == '\r' {
        Some(head.drop_last())
    } else {
        Some(head)
    }
}

/// The message kept of an engine error: its first line, or a fixed text
/// when the error has none. Later lines may hold game-internal details.
pub open spec fn spec_engine_message(error: Seq<char>) -> Seq<char> {
    match first_line(error) {
        Some(line) => line,
        None => "the Artemis engine failed without a message"@,
    }
}

proof fn lemma_before_line_feed(s: Seq<char>, k: int)
    requires
        0 <= k <= s.len(),
        k == s.len() || s[k] == '\n',
        forall|j: int| 0 <= j < k ==> #[trigger] s[j] != '\n',
    ensures
        before_line_feed(s) == s.subrange(0, k),
    decreases s.len(),
{
    if s.len() == 0 || k == 0 {
        assert(s.subrange(0, k) =~= Seq::<char>::empty());
    } else {
        lemma_before_line_feed(s.drop_first(), k - 1);
        assert(s.subrange(0, k) =~= seq![s[0]] + s.drop_first().subrange(0, k - 1));
    }
}

/// The message kept of an engine error.
pub fn engine_message(error: &str) -> (r: String)
    ensures
        r@ == spec_engine_message(error@),
{
    let chars = chars_of(error);
    if chars.len() == 0 {
        return String::from_str("the Artemis engine failed without a message");
    }
    let mut k: usize = 0;
    while k < chars.len() && chars[k] != '\n'
        invariant
            k <= chars@.len(),
            forall|j: int| 0 <= j < k ==> #[trigger] chars@[j] != '\n',
        decreases chars@.len() - k,
    {
        k = k + 1;
    }
    proof { lemma_before_line_feed(chars@, k as int); }
    let end = if k < chars.len() && k > 0 && chars[k - 1] == '\r' { k - 1 } else { k };
    let mut line: Vec<char> = Vec::new();
    let mut i: usize = 0;
    while i < end
        invariant
            end <= k <= chars@.len(),
            i <= end,
            line@ == chars@.subrange(0, i as int),
        decreases end - i,
    {
        line.push(chars[i]);
        i = i + 1;
        assert(line@ =~= chars@.subrange(0, i as int));
    }
    proof {
        if k > 0 {
            assert(chars@.subrange(0, k as int).drop_last() =~= chars@.subrange(0, k - 1));
        }
    }
    string_of(&line)
}

} // verus!
