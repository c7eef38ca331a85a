//! Interpreter state for PS2A scripts: the per-frame script memory and the
//! confirm-button state the interpreter polls.
use vstd::prelude::*;
use std::collections::BTreeMap;
use crate::error::CmvsError;
use crate::bytes::{spec_le_u32, read_le_u32};
use crate::archive::{is_archive_uri, check_archive_uri};
use crate::mount::spec_mount_prefix;
use crate::ps2a::CmvsScript;
use crate::ps2a::strings::{spec_length_table, spec_pool_start};

verus! {

/// The highest script call frame the engine addresses.
pub const CMVS_MAX_SCRIPT_CALL_INDEX: u32 = 3;

/// The largest script accepted, in bytes.
pub const MAX_SCRIPT_BYTES: usize = 0x400_0000;

/// What the interpreter recorded of a parent texture surface: whether the
/// surface was initialised, its source rectangle, its stage position and
/// its depth word.
#[derive(Clone, Copy, Debug, Default, PartialEq, Eq)]
pub struct CmvsTextureParentState {
    pub surface_initialized: bool,
    pub rect_words: Option<[u32; 4]>,
    pub position_words: Option<[u32; 2]>,
    pub auxiliary_word: Option<u32>,
}

/// What the interpreter recorded of a child texture surface, with the same
/// fields as a parent surface.
#[derive(Clone, Copy, Debug, Default, PartialEq, Eq)]
pub struct CmvsTextureChildState {
    pub surface_initialized: bool,
    pub rect_words: Option<[u32; 4]>,
    pub position_words: Option<[u32; 2]>,
    pub auxiliary_word: Option<u32>,
}

/// Which script a call frame runs: its URI and the SHA-256 of its bytes.
#[derive(Clone, Debug, PartialEq, Eq)]
pub struct CmvsScriptFrameIdentity {
    pub script_uri: String,
    pub script_hash: [u8; 32],
}

/// The interpreter state: program counter, script memory and lookup tables
/// of each call frame, the texture surfaces and the confirm-button flags.
#[derive(Clone, Debug, PartialEq, Eq)]
pub struct CmvsPs2aVmState {
    pub program_counter: u32,
    /// The script each frame runs.
    pub script_frames: BTreeMap<u16, CmvsScriptFrameIdentity>,
    /// The name-index table of each frame's script.
    pub script_name_indices: BTreeMap<u16, Vec<u32>>,
    /// The byte length of each string of each frame's script, by its
    /// offset in the string pool.
    pub frame_string_lengths: BTreeMap<u16, BTreeMap<u32, u32>>,
    /// The byte size of each frame's initial data segment.
    pub script_data_segment_sizes: BTreeMap<u16, u32>,
    /// The non-zero dwords of each frame's data segment, by byte offset;
    /// frames whose segment is all zero have no entry.
    pub script_data_segment_words: BTreeMap<u16, BTreeMap<u32, u32>>,
    /// The parent texture surfaces, by parent slot.
    pub texture_parents: BTreeMap<u8, CmvsTextureParentState>,
    /// The child texture surfaces, by parent slot and then child slot.
    pub texture_children: BTreeMap<u8, BTreeMap<u16, CmvsTextureChildState>>,
    /// The last pointer position, in whole stage pixels.
    pub pointer_x: i32,
    pub pointer_y: i32,
    pub input_confirm_held: bool,
    pub input_advance_press: bool,
    pub input_advance_release: bool,
}

/// The non-zero whole dwords of `bytes`, keyed by byte offset; a partial
/// trailing dword is left out.
pub open spec fn spec_script_words(bytes: Seq<u8>) -> Map<u32, u32> {
    Map::new(
        |k: u32| k % 4 == 0 && k + 4 <= bytes.len() && spec_le_u32(bytes, k as int) != 0,
        |k: u32| spec_le_u32(bytes, k as int),
    )
}

/// `frame` is a call frame the engine addresses.
pub open spec fn frame_in_range(frame: u16) -> bool {
    frame as u32 <= CMVS_MAX_SCRIPT_CALL_INDEX
}

/// The integer keys of the script maps order as integers do.
spec fn keys_ordered() -> bool {
    vstd::laws_cmp::obeys_cmp::<u32>() && vstd::laws_cmp::obeys_cmp::<u16>()
}

proof fn lemma_script_keys_ordered()
    ensures
        keys_ordered(),
{
    broadcast use vstd::laws_cmp::group_laws_cmp;
}

/// The integer keys of the texture maps order as integers do.
pub open spec fn texture_keys_ordered() -> bool {
    vstd::laws_cmp::obeys_cmp::<u8>() && vstd::laws_cmp::obeys_cmp::<u16>()
}

pub proof fn lemma_texture_keys_ordered()
    ensures
        texture_keys_ordered(),
{
    broadcast use vstd::laws_cmp::group_laws_cmp;
}

/// Checks that `frame` is one the engine addresses.
pub fn validate_frame(frame: u16) -> (r: Result<(), CmvsError>)
    ensures
        r is Ok <==> frame_in_range(frame),
        r is Err ==> r == Err::<(), CmvsError>(CmvsError::ScriptFrame),
{
    if frame as u32 > CMVS_MAX_SCRIPT_CALL_INDEX {
        return Err(CmvsError::ScriptFrame);
    }
    Ok(())
}

/// The dword map of a data segment.
fn script_words(bytes: &[u8]) -> (r: BTreeMap<u32, u32>)
    requires
        bytes@.len() <= MAX_SCRIPT_BYTES,
    ensures
        r@ == spec_script_words(bytes@),
{
    proof { lemma_script_keys_ordered(); }
    let mut words: BTreeMap<u32, u32> = BTreeMap::new();
    let count = bytes.len() / 4;
    let mut index: usize = 0;
    while index < count
        invariant
            count == bytes@.len() / 4,
            bytes@.len() <= MAX_SCRIPT_BYTES,
            index <= count,
            keys_ordered(),
            forall|k: u32| #[trigger] words@.contains_key(k) <==> (k % 4 == 0 && k < 4 * index
                && spec_le_u32(bytes@, k as int) != 0),
            forall|k: u32| words@.contains_key(k) ==> #[trigger] words@[k] == spec_le_u32(bytes@, k as int),
        decreases count - index,
    {
        let offset = index * 4;
        let word = match read_le_u32(bytes, offset) {
            Some(w) => w,
            None => 0,
        };
        if word != 0 {
            words.insert(offset as u32, word);
        }
        index = index + 1;
    }
    proof {
        assert forall|k: u32| #[trigger] words@.contains_key(k) <==> spec_script_words(bytes@).dom().contains(k) by {
            if k % 4 == 0 && k + 4 <= bytes@.len() {
                assert(k < 4 * count);
            }
        }
    }
    assert(words@ =~= spec_script_words(bytes@));
    words
}

/// `new` holds `bytes` as the initial script memory of `frame`: its size,
/// and its non-zero dwords, or no words at all for an all-zero segment;
/// every other frame keeps its memory.
pub open spec fn script_memory_replaced(old: CmvsPs2aVmState, new: CmvsPs2aVmState, frame: u16, bytes: Seq<u8>) -> bool {
    &&& new.script_data_segment_sizes@ == old.script_data_segment_sizes@.insert(frame, bytes.len() as u32)
    &&& (spec_script_words(bytes).dom().is_empty() ==> new.script_data_segment_words@
        == old.script_data_segment_words@.remove(frame))
    &&& (!spec_script_words(bytes).dom().is_empty() ==> {
        &&& new.script_data_segment_words@.dom() == old.script_data_segment_words@.dom().insert(frame)
        &&& new.script_data_segment_words@[frame]@ == spec_script_words(bytes)
        &&& forall|f: u16| f != frame && #[trigger] old.script_data_segment_words@.contains_key(f)
            ==> new.script_data_segment_words@[f] == old.script_data_segment_words@[f]
    })
}

/// `new` keeps the texture surfaces, the pointer and the input flags of `old`.
pub open spec fn other_state_kept(old: CmvsPs2aVmState, new: CmvsPs2aVmState) -> bool {
    &&& new.texture_parents == old.texture_parents
    &&& new.texture_children == old.texture_children
    &&& new.pointer_x == old.pointer_x
    &&& new.pointer_y == old.pointer_y
    &&& new.input_confirm_held == old.input_confirm_held
    &&& new.input_advance_press == old.input_advance_press
    &&& new.input_advance_release == old.input_advance_release
}

impl CmvsPs2aVmState {
    /// A state with no script memory, starting at `program_counter`.
    pub fn new(program_counter: u32) -> (r: Self)
        ensures
            r.program_counter == program_counter,
            r.script_frames@ == Map::<u16, CmvsScriptFrameIdentity>::empty(),
            r.script_name_indices@ == Map::<u16, Vec<u32>>::empty(),
            r.frame_string_lengths@ == Map::<u16, BTreeMap<u32, u32>>::empty(),
            r.script_data_segment_sizes@ == Map::<u16, u32>::empty(),
            r.script_data_segment_words@ == Map::<u16, BTreeMap<u32, u32>>::empty(),
            r.texture_parents@ == Map::<u8, CmvsTextureParentState>::empty(),
            r.texture_children@ == Map::<u8, BTreeMap<u16, CmvsTextureChildState>>::empty(),
            r.pointer_x == 0 && r.pointer_y == 0,
            !r.input_confirm_held && !r.input_advance_press && !r.input_advance_release,
    {
        CmvsPs2aVmState {
            program_counter,
            script_frames: BTreeMap::new(),
            script_name_indices: BTreeMap::new(),
            frame_string_lengths: BTreeMap::new(),
            script_data_segment_sizes: BTreeMap::new(),
            script_data_segment_words: BTreeMap::new(),
            texture_parents: BTreeMap::new(),
            texture_children: BTreeMap::new(),
            pointer_x: 0,
            pointer_y: 0,
            input_confirm_held: false,
            input_advance_press: false,
            input_advance_release: false,
        }
    }

    /// Replaces a frame's initial script memory, dropping the words of the
    /// segment it had before; other frames keep theirs. A frame past the
    /// engine limit or a segment over the byte limit changes nothing.
    pub fn install_script_data(&mut self, frame: u16, bytes: &[u8]) -> (r: Result<(), CmvsError>)
        ensures
            r is Ok <==> frame_in_range(frame) && bytes@.len() <= MAX_SCRIPT_BYTES,
            !frame_in_range(frame) ==> r == Err::<(), CmvsError>(CmvsError::ScriptFrame),
            frame_in_range(frame) && bytes@.len() > MAX_SCRIPT_BYTES ==> r == Err::<(), CmvsError>(CmvsError::ScriptBound),
            r is Err ==> *final(self) == *old(self),
            r is Ok ==> script_memory_replaced(*old(self), *final(self), frame, bytes@),
            r is Ok ==> {
                &&& final(self).program_counter == old(self).program_counter
                &&& final(self).script_frames == old(self).script_frames
                &&& final(self).script_name_indices == old(self).script_name_indices
                &&& final(self).frame_string_lengths == old(self).frame_string_lengths
                &&& other_state_kept(*old(self), *final(self))
            },
    {
        proof { lemma_script_keys_ordered(); }
        validate_frame(frame)?;
        if bytes.len() > MAX_SCRIPT_BYTES {
            return Err(CmvsError::ScriptBound);
        }
        let words = script_words(bytes);
        self.script_data_segment_sizes.insert(frame, bytes.len() as u32);
        if words.is_empty() {
            self.script_data_segment_words.remove(&frame);
        } else {
            self.script_data_segment_words.insert(frame, words);
        }
        Ok(())
    }

    /// Installs a fully decoded script in `frame` as one step: its data
    /// segment as `install_script_data` does, the frame's identity, its
    /// name-index table and its string-length table, and the program counter
    /// at the script's first instruction. A frame past the engine limit, a
    /// URI outside `cmvs:/` or a data segment over the byte limit changes
    /// nothing.
    pub fn install_script_frame(&mut self, frame: u16, uri: &str, hash: [u8; 32], script: &CmvsScript)
        -> (r: Result<(), CmvsError>)
        ensures
            r is Ok <==> frame_in_range(frame) && is_archive_uri(spec_mount_prefix(), uri@)
                && script.data_segment@.len() <= MAX_SCRIPT_BYTES,
            !frame_in_range(frame) ==> r == Err::<(), CmvsError>(CmvsError::ScriptFrame),
            frame_in_range(frame) && !is_archive_uri(spec_mount_prefix(), uri@)
                ==> r == Err::<(), CmvsError>(CmvsError::VfsUri),
            frame_in_range(frame) && is_archive_uri(spec_mount_prefix(), uri@)
                && script.data_segment@.len() > MAX_SCRIPT_BYTES ==> r == Err::<(), CmvsError>(CmvsError::ScriptBound),
            r is Err ==> *final(self) == *old(self),
            r is Ok ==> script_memory_replaced(*old(self), *final(self), frame, script.data_segment@),
            r is Ok ==> {
                &&& final(self).script_frames@.remove(frame) == old(self).script_frames@.remove(frame)
                &&& final(self).script_frames@.contains_key(frame)
                &&& final(self).script_frames@[frame].script_uri@ == uri@
                &&& final(self).script_frames@[frame].script_hash@ == hash@
                &&& final(self).script_name_indices@.remove(frame) == old(self).script_name_indices@.remove(frame)
                &&& final(self).script_name_indices@.contains_key(frame)
                &&& final(self).script_name_indices@[frame]@ == script.name_index@
                &&& final(self).frame_string_lengths@.remove(frame) == old(self).frame_string_lengths@.remove(frame)
                &&& final(self).frame_string_lengths@.contains_key(frame)
                &&& final(self).frame_string_lengths@[frame]@
                    == spec_length_table(script@.strings, spec_pool_start(script@), script.strings@.len())
                &&& final(self).program_counter == script.header.initial_pc
                &&& other_state_kept(*old(self), *final(self))
            },
    {
        proof { lemma_script_keys_ordered(); }
        validate_frame(frame)?;
        check_archive_uri("cmvs:/", uri)?;
        let name_index = vstd::slice::slice_to_vec(script.name_index.as_slice());
        let string_lengths = script.private_string_length_table();
        self.install_script_data(frame, script.data_segment.as_slice())?;
        let mut script_uri = String::new();
        let chars = crate::text::chars_of(uri);
        let mut i: usize = 0;
        while i < chars.len()
            invariant
                i <= chars@.len(),
                chars@ == uri@,
                script_uri@ == chars@.subrange(0, i as int),
            decreases chars@.len() - i,
        {
            crate::text::push_char(&mut script_uri, chars[i]);
            i = i + 1;
            assert(script_uri@ =~= chars@.subrange(0, i as int));
        }
        assert(chars@.subrange(0, chars@.len() as int) =~= uri@);
        let ghost frames0 = self.script_frames@;
        let ghost names0 = self.script_name_indices@;
        let ghost lengths0 = self.frame_string_lengths@;
        self.script_frames.insert(frame, CmvsScriptFrameIdentity { script_uri, script_hash: hash });
        self.script_name_indices.insert(frame, name_index);
        self.frame_string_lengths.insert(frame, string_lengths);
        self.program_counter = script.header.initial_pc;
        assert(self.script_frames@.remove(frame) =~= frames0.remove(frame));
        assert(self.script_name_indices@.remove(frame) =~= names0.remove(frame));
        assert(self.frame_string_lengths@.remove(frame) =~= lengths0.remove(frame));
        Ok(())
    }
}

} // verus!
