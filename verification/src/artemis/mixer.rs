//! The mixer's voice table: which voices a command reaches, how much
//! decoded audio a new voice may take, and which voices report a natural
//! end. The audio engine itself plays and stops the voices; this table
//! keeps one row per voice, in start order.
use vstd::prelude::*;
use crate::text::str_eq;
use super::ArtemisError;
use super::media::ArtemisChannel;

verus! {

/// The most voices the mixer keeps at once.
pub const MAX_VOICES: usize = 64;

/// The decoded stereo frames all voices may hold together.
pub const FRAME_BUDGET: usize = 0x200_0000;

/// The largest audio source read, in bytes.
pub const MAX_SOURCE_BYTES: u64 = 0x400_0000;

/// A voice id, by its characters.
pub open spec fn id_view(id: Option<String>) -> Option<Seq<char>> {
    match id {
        Some(s) => Some(s@),
        None => None,
    }
}

/// One voice: its id, bus, decoded frames and whether its natural end is
/// still to be reported.
pub type ArtemisVoiceView = (Option<Seq<char>>, ArtemisChannel, usize, bool);

/// The voice table, one row per voice in start order.
pub struct ArtemisVoiceTable {
    ids: Vec<Option<String>>,
    channels: Vec<ArtemisChannel>,
    frames: Vec<usize>,
    notify: Vec<bool>,
}

impl View for ArtemisVoiceTable {
    type V = Seq<ArtemisVoiceView>;

    closed spec fn view(&self) -> Seq<ArtemisVoiceView> {
        Seq::new(self.ids@.len(), |i: int| (id_view(self.ids@[i]), self.channels@[i], self.frames@[i], self.notify@[i]))
    }
}

/// The voice is the one a command names: same id, and same bus where the
/// command names one.
pub open spec fn voice_matches(voice: ArtemisVoiceView, id: Option<Seq<char>>, channel: Option<ArtemisChannel>) -> bool {
    voice.0 == id && match channel {
        Some(c) => voice.1 == c,
        None => true,
    }
}

/// The positions of the voices a command names, in table order.
pub open spec fn matching_positions(voices: Seq<ArtemisVoiceView>, id: Option<Seq<char>>, channel: Option<ArtemisChannel>) -> Seq<usize>
    decreases voices.len(),
{
    if voices.len() == 0 {
        Seq::empty()
    } else {
        let earlier = matching_positions(voices.drop_last(), id, channel);
        if voice_matches(voices.last(), id, channel) {
            earlier.push((voices.len() - 1) as usize)
        } else {
            earlier
        }
    }
}

/// The decoded frames all voices hold.
pub open spec fn frames_used(voices: Seq<ArtemisVoiceView>) -> int
    decreases voices.len(),
{
    if voices.len() == 0 {
        0
    } else {
        frames_used(voices.drop_last()) + voices.last().2
    }
}

/// What is left of the frame budget after `used` frames.
pub open spec fn budget_left(used: int) -> int {
    if used >= FRAME_BUDGET { 0 } else { FRAME_BUDGET - used }
}

/// The rows whose voice has not stopped, in order.
pub open spec fn kept_voices(voices: Seq<ArtemisVoiceView>, stopped: Seq<bool>) -> Seq<ArtemisVoiceView>
    decreases voices.len(),
{
    if voices.len() == 0 {
        Seq::empty()
    } else {
        let earlier = kept_voices(voices.drop_last(), stopped);
        if stopped[voices.len() - 1] { earlier } else { earlier.push(voices.last()) }
    }
}

/// The ids of the stopped voices whose end is still to be reported, in
/// order.
pub open spec fn finished_ids(voices: Seq<ArtemisVoiceView>, stopped: Seq<bool>) -> Seq<Option<Seq<char>>>
    decreases voices.len(),
{
    if voices.len() == 0 {
        Seq::empty()
    } else {
        let earlier = finished_ids(voices.drop_last(), stopped);
        if stopped[voices.len() - 1] && voices.last().3 { earlier.push(voices.last().0) } else { earlier }
    }
}

/// Whether two voice ids are the same.
fn same_id(a: &Option<String>, b: &Option<String>) -> (r: bool)
    ensures
        r == (id_view(*a) == id_view(*b)),
{
    match (a, b) {
        (Some(x), Some(y)) => str_eq(x.as_str(), y.as_str()),
        (None, None) => true,
        _ => false,
    }
}

proof fn lemma_frames_used_bound(voices: Seq<ArtemisVoiceView>)
    ensures
        0 <= frames_used(voices) <= voices.len() * usize::MAX,
    decreases voices.len(),
{
    if voices.len() > 0 {
        lemma_frames_used_bound(voices.drop_last());
        let n = voices.len() as int;
        assert((n - 1) * usize::MAX + usize::MAX == n * usize::MAX) by (nonlinear_arith);
    }
}

/// The rows of the table, column by column.
proof fn lemma_rows(t: &ArtemisVoiceTable)
    ensures
        t@.len() == t.ids@.len(),
        forall|k: int| 0 <= k < t.ids@.len() ==> #[trigger] t@[k]
            == (id_view(t.ids@[k]), t.channels@[k], t.frames@[k], t.notify@[k]),
{
}

impl ArtemisVoiceTable {
    /// The four columns have one row per voice.
    pub closed spec fn wf(&self) -> bool {
        &&& self.channels@.len() == self.ids@.len()
        &&& self.frames@.len() == self.ids@.len()
        &&& self.notify@.len() == self.ids@.len()
    }

    /// An empty table.
    pub fn new() -> (r: Self)
        ensures
            r.wf(),
            r@ == Seq::<ArtemisVoiceView>::empty(),
    {
        let r = ArtemisVoiceTable { ids: Vec::new(), channels: Vec::new(), frames: Vec::new(), notify: Vec::new() };
        assert(r@ =~= Seq::<ArtemisVoiceView>::empty());
        r
    }

    /// The number of voices.
    pub fn len(&self) -> (r: usize)
        requires
            self.wf(),
        ensures
            r == self@.len(),
    {
        self.ids.len()
    }

    /// The positions of the voices named by `id` (and by `channel`, where
    /// given), in table order.
    pub fn matching(&self, id: &Option<String>, channel: Option<ArtemisChannel>) -> (r: Vec<usize>)
        requires
            self.wf(),
        ensures
            r@ == matching_positions(self@, id_view(*id), channel),
    {
        let mut out: Vec<usize> = Vec::new();
        let mut i: usize = 0;
        while i < self.ids.len()
            invariant
                self.wf(),
                i <= self@.len(),
                out@ == matching_positions(self@.subrange(0, i as int), id_view(*id), channel),
            decreases self@.len() - i,
        {
            let ghost prefix = self@.subrange(0, i as int);
            assert(self@.subrange(0, i + 1).drop_last() == prefix);
            assert(self@.subrange(0, i + 1).last() == self@[i as int]);
            let hit = same_id(&self.ids[i], id) && match channel {
                Some(c) => self.channels[i] == c,
                None => true,
            };
            if hit {
                out.push(i);
            }
            i = i + 1;
        }
        assert(self@.subrange(0, self@.len() as int) == self@);
        out
    }

    /// Stops the voices named by `id` (and by `channel`, where given): their
    /// end is no longer reported. Returns their positions, for the engine
    /// to stop them.
    pub fn stop_matching(&mut self, id: &Option<String>, channel: Option<ArtemisChannel>) -> (r: Vec<usize>)
        requires
            old(self).wf(),
        ensures
            final(self).wf(),
            r@ == matching_positions(old(self)@, id_view(*id), channel),
            final(self)@.len() == old(self)@.len(),
            forall|k: int| 0 <= k < old(self)@.len() ==> #[trigger] final(self)@[k] == (
                old(self)@[k].0, old(self)@[k].1, old(self)@[k].2,
                old(self)@[k].3 && !voice_matches(old(self)@[k], id_view(*id), channel)),
    {
        let positions = self.matching(id, channel);
        let ghost before = self@;
        let ghost ids0 = self.ids@;
        let ghost channels0 = self.channels@;
        let ghost frames0 = self.frames@;
        let ghost notify0 = self.notify@;
        proof { lemma_rows(self); }
        let mut i: usize = 0;
        while i < self.notify.len()
            invariant
                self.wf(),
                self.ids@ == ids0,
                self.channels@ == channels0,
                self.frames@ == frames0,
                self.notify@.len() == notify0.len(),
                ids0.len() == before.len(),
                forall|k: int| 0 <= k < before.len() ==> #[trigger] before[k]
                    == (id_view(ids0[k]), channels0[k], frames0[k], notify0[k]),
                i <= ids0.len(),
                forall|k: int| 0 <= k < i ==> #[trigger] self.notify@[k]
                    == (notify0[k] && !voice_matches(before[k], id_view(*id), channel)),
                forall|k: int| i <= k < notify0.len() ==> #[trigger] self.notify@[k] == notify0[k],
            decreases ids0.len() - i,
        {
            let hit = same_id(&self.ids[i], id) && match channel {
                Some(c) => self.channels[i] == c,
                None => true,
            };
            assert(before[i as int] == (id_view(ids0[i as int]), channels0[i as int], frames0[i as int], notify0[i as int]));
            assert(hit == voice_matches(before[i as int], id_view(*id), channel));
            if hit {
                self.notify.set(i, false);
            }
            i = i + 1;
        }
        proof { lemma_rows(self); }
        positions
    }

    /// Stops every voice: no end is reported any more. Returns the number
    /// of voices, all of which the engine stops.
    pub fn stop_all(&mut self) -> (r: usize)
        requires
            old(self).wf(),
        ensures
            final(self).wf(),
            r == old(self)@.len(),
            final(self)@.len() == old(self)@.len(),
            forall|k: int| 0 <= k < old(self)@.len() ==> #[trigger] final(self)@[k] == (
                old(self)@[k].0, old(self)@[k].1, old(self)@[k].2, false),
    {
        let ghost notify0 = self.notify@;
        let ghost ids0 = self.ids@;
        let ghost channels0 = self.channels@;
        let ghost frames0 = self.frames@;
        proof { lemma_rows(self); }
        let mut i: usize = 0;
        while i < self.notify.len()
            invariant
                self.wf(),
                self.ids@ == ids0,
                self.channels@ == channels0,
                self.frames@ == frames0,
                self.notify@.len() == notify0.len(),
                i <= notify0.len(),
                forall|k: int| 0 <= k < i ==> !#[trigger] self.notify@[k],
            decreases notify0.len() - i,
        {
            self.notify.set(i, false);
            i = i + 1;
        }
        proof { lemma_rows(self); }
        self.ids.len()
    }

    /// The decoded frames the voices hold together.
    fn used_frames(&self) -> (r: u128)
        requires
            self.wf(),
            self@.len() <= MAX_VOICES,
        ensures
            r == frames_used(self@),
    {
        let mut used: u128 = 0;
        let mut i: usize = 0;
        while i < self.frames.len()
            invariant
                self.wf(),
                self@.len() <= MAX_VOICES,
                i <= self@.len(),
                used == frames_used(self@.subrange(0, i as int)),
            decreases self@.len() - i,
        {
            assert(self@.subrange(0, i + 1).drop_last() == self@.subrange(0, i as int));
            proof { lemma_frames_used_bound(self@.subrange(0, i as int)); }
            assert(i * usize::MAX <= 64 * usize::MAX) by (nonlinear_arith)
                requires i <= 64;
            used = used + self.frames[i] as u128;
            i = i + 1;
        }
        assert(self@.subrange(0, self@.len() as int) == self@);
        used
    }

    /// The frame budget a new voice's source may decode into, once the
    /// voices it replaces are stopped; a full table refuses the voice.
    pub fn play_budget(&self) -> (r: Result<usize, ArtemisError>)
        requires
            self.wf(),
        ensures
            self@.len() >= MAX_VOICES ==> r == Err::<usize, ArtemisError>(ArtemisError::AudioMixer),
            self@.len() < MAX_VOICES ==> r == Ok::<usize, ArtemisError>(budget_left(frames_used(self@)) as usize),
    {
        if self.ids.len() >= MAX_VOICES {
            return Err(ArtemisError::AudioMixer);
        }
        let used = self.used_frames();
        if used >= FRAME_BUDGET as u128 {
            Ok(0)
        } else {
            Ok(FRAME_BUDGET - used as usize)
        }
    }

    /// The frame budget left for a voice's loop segment once its intro has
    /// taken `intro_frames`.
    pub fn loop_budget(&self, intro_frames: usize) -> (r: usize)
        requires
            self.wf(),
            self@.len() < MAX_VOICES,
        ensures
            r == budget_left(frames_used(self@) + intro_frames),
    {
        proof { lemma_frames_used_bound(self@); }
        assert(self@.len() * usize::MAX <= 64 * usize::MAX) by (nonlinear_arith)
            requires self@.len() <= 64;
        let used = self.used_frames() + intro_frames as u128;
        if used >= FRAME_BUDGET as u128 {
            0
        } else {
            FRAME_BUDGET - used as usize
        }
    }

    /// Adds a started voice, whose end is to be reported.
    pub fn push(&mut self, id: Option<String>, channel: ArtemisChannel, frames: usize)
        requires
            old(self).wf(),
        ensures
            final(self).wf(),
            final(self)@ == old(self)@.push((id_view(id), channel, frames, true)),
    {
        let ghost entry = (id_view(id), channel, frames, true);
        self.ids.push(id);
        self.channels.push(channel);
        self.frames.push(frames);
        self.notify.push(true);
        assert(self@ =~= old(self)@.push(entry));
    }

    /// Drops the voices that have stopped (`stopped` holds one flag per
    /// voice, in table order) and returns the ids whose natural end is to
    /// be reported, in order.
    pub fn retire(&mut self, stopped: &[bool]) -> (r: Vec<Option<String>>)
        requires
            old(self).wf(),
            stopped@.len() == old(self)@.len(),
        ensures
            final(self).wf(),
            final(self)@ == kept_voices(old(self)@, stopped@),
            r@.map_values(|id: Option<String>| id_view(id)) == finished_ids(old(self)@, stopped@),
    {
        let ghost before = self@;
        let mut ids: Vec<Option<String>> = Vec::new();
        let mut channels: Vec<ArtemisChannel> = Vec::new();
        let mut frames: Vec<usize> = Vec::new();
        let mut notify: Vec<bool> = Vec::new();
        let mut finished: Vec<Option<String>> = Vec::new();
        let mut i: usize = 0;
        while self.ids.len() > 0
            invariant
                self.wf(),
                i <= before.len(),
                self@ == before.subrange(i as int, before.len() as int),
                stopped@.len() == before.len(),
                channels@.len() == ids@.len(),
                frames@.len() == ids@.len(),
                notify@.len() == ids@.len(),
                Seq::new(ids@.len(), |k: int| (id_view(ids@[k]), channels@[k], frames@[k], notify@[k]))
                    == kept_voices(before.subrange(0, i as int), stopped@),
                finished@.map_values(|id: Option<String>| id_view(id)) == finished_ids(before.subrange(0, i as int), stopped@),
            decreases self@.len(),
        {
            proof { lemma_rows(self); }
            let ghost row = self@[0];
            let ghost rest = self@.drop_first();
            assert(row == before[i as int]);
            assert(rest =~= before.subrange(i + 1, before.len() as int));
            let id = self.ids.remove(0);
            let channel = self.channels.remove(0);
            let count = self.frames.remove(0);
            let report = self.notify.remove(0);
            proof { lemma_rows(self); }
            assert(self@ =~= rest);
            let ghost prefix = before.subrange(0, i as int);
            assert(before.subrange(0, i + 1).drop_last() == prefix);
            assert(before.subrange(0, i + 1).last() == row);
            let ghost kept_old = Seq::new(ids@.len(), |k: int| (id_view(ids@[k]), channels@[k], frames@[k], notify@[k]));
            let ghost finished_old = finished@;
            if stopped[i] {
                if report {
                    finished.push(id);
                    assert(finished@.map_values(|id: Option<String>| id_view(id))
                        =~= finished_old.map_values(|id: Option<String>| id_view(id)).push(row.0));
                } else {
                    assert(finished@.map_values(|id: Option<String>| id_view(id))
                        =~= finished_old.map_values(|id: Option<String>| id_view(id)));
                }
            } else {
                ids.push(id);
                channels.push(channel);
                frames.push(count);
                notify.push(report);
                assert(Seq::new(ids@.len(), |k: int| (id_view(ids@[k]), channels@[k], frames@[k], notify@[k]))
                    =~= kept_old.push(row));
            }
            i = i + 1;
        }
        assert(before.subrange(0, i as int) == before);
        self.ids = ids;
        self.channels = channels;
        self.frames = frames;
        self.notify = notify;
        finished
    }
}

} // verus!
