//! Layer geometry of the parent/child texture stage: which texture slots take
//! part in a frame, where each one lands, and in which order they are drawn.
use vstd::prelude::*;
use crate::error::CmvsError;
use crate::vm::{CmvsPs2aVmState, texture_keys_ordered, lemma_texture_keys_ordered};
use crate::text::{push_char, push_decimal, decimal_chars};

verus! {

broadcast use {vstd::seq_lib::to_multiset_insert, vstd::seq_lib::to_multiset_build};

/// The largest right or bottom edge a stage layer may reach.
pub const MAX_STAGE_EXTENT: u32 = 16384;

/// A texture slot: a parent surface, or a child surface of a parent.
#[derive(Clone, Copy, Debug, PartialEq, Eq, Structural, PartialOrd, Ord, Hash)]
pub enum CmvsTextureSlot {
    Parent(u8),
    Child { parent: u8, child: u16 },
}

/// Where a layer lands on the stage.
#[derive(Clone, Copy, Debug, PartialEq, Eq, Structural)]
pub struct CmvsStageRect {
    pub x: i32,
    pub y: i32,
    pub width: u32,
    pub height: u32,
}

/// What the interpreter recorded of a slot: surface initialised, source
/// rectangle words, position words and depth word.
pub type CmvsSlotState = (bool, Option<[u32; 4]>, Option<[u32; 2]>, Option<u32>);

/// A staged layer: its slot, its destination and its depth.
pub type CmvsStageLayer = (CmvsTextureSlot, CmvsStageRect, u32);

/// The recorded state of `slot`, if the interpreter has one.
pub open spec fn spec_slot_state(vm: &CmvsPs2aVmState, slot: CmvsTextureSlot) -> Option<CmvsSlotState> {
    match slot {
        CmvsTextureSlot::Parent(parent) => {
            if vm.texture_parents@.contains_key(parent) {
                let s = vm.texture_parents@[parent];
                Some((s.surface_initialized, s.rect_words, s.position_words, s.auxiliary_word))
            } else {
                None
            }
        },
        CmvsTextureSlot::Child { parent, child } => {
            if vm.texture_children@.contains_key(parent)
                && vm.texture_children@[parent]@.contains_key(child) {
                let s = vm.texture_children@[parent]@[child];
                Some((s.surface_initialized, s.rect_words, s.position_words, s.auxiliary_word))
            } else {
                None
            }
        },
    }
}

/// A slot state takes part in the stage: its surface is initialised and it
/// has a rectangle, a position and a depth.
pub open spec fn is_staged(st: Option<CmvsSlotState>) -> bool {
    match st {
        Some((initialized, Some(_), Some(_), Some(_))) => initialized,
        _ => false,
    }
}

/// The left, top, right and bottom stage edges of a rectangle placed at a
/// position.
pub open spec fn stage_edges(rect: [u32; 4], position: [u32; 2]) -> (int, int, int, int) {
    (rect[0] + position[0], rect[1] + position[1], rect[2] + position[0], rect[3] + position[1])
}

/// The placed rectangle is not empty, ends within the stage and the depth
/// fits a signed 32-bit word.
pub open spec fn layer_fits(rect: [u32; 4], position: [u32; 2], z: u32) -> bool {
    let (x0, y0, x1, y1) = stage_edges(rect, position);
    &&& x0 < x1 <= MAX_STAGE_EXTENT
    &&& y0 < y1 <= MAX_STAGE_EXTENT
    &&& z <= i32::MAX
}

/// A staged slot whose geometry fits, or a slot that is not staged.
pub open spec fn slot_fits(vm: &CmvsPs2aVmState, slot: CmvsTextureSlot) -> bool {
    match spec_slot_state(vm, slot) {
        Some((true, Some(rect), Some(position), Some(z))) => layer_fits(rect, position, z),
        _ => true,
    }
}

/// The layer of a staged slot.
pub open spec fn spec_layer(slot: CmvsTextureSlot, rect: [u32; 4], position: [u32; 2], z: u32) -> CmvsStageLayer {
    let (x0, y0, x1, y1) = stage_edges(rect, position);
    (slot, CmvsStageRect { x: x0 as i32, y: y0 as i32, width: (x1 - x0) as u32, height: (y1 - y0) as u32 }, z)
}

/// The layers of the staged slots among `slots`, in slot order.
pub open spec fn spec_staged_layers(vm: &CmvsPs2aVmState, slots: Seq<CmvsTextureSlot>) -> Seq<CmvsStageLayer>
    decreases slots.len(),
{
    if slots.len() == 0 {
        Seq::empty()
    } else {
        let earlier = spec_staged_layers(vm, slots.drop_last());
        let slot = slots.last();
        match spec_slot_state(vm, slot) {
            Some((true, Some(rect), Some(position), Some(z))) => earlier.push(spec_layer(slot, rect, position, z)),
            _ => earlier,
        }
    }
}

/// The place of a slot in slot order: parents by number, then children by
/// parent and child number.
pub open spec fn slot_rank(slot: CmvsTextureSlot) -> int {
    match slot {
        CmvsTextureSlot::Parent(parent) => parent as int,
        CmvsTextureSlot::Child { parent, child } => 256 + parent * 65536 + child,
    }
}

/// `a` is drawn no later than `b`: lower depth first, then slot order.
pub open spec fn layer_le(a: CmvsStageLayer, b: CmvsStageLayer) -> bool {
    a.2 < b.2 || (a.2 == b.2 && slot_rank(a.0) <= slot_rank(b.0))
}

/// The layers are in drawing order.
pub open spec fn layers_sorted(layers: Seq<CmvsStageLayer>) -> bool {
    forall|i: int, j: int| 0 <= i < j < layers.len() ==> layer_le(#[trigger] layers[i], #[trigger] layers[j])
}

/// The requested slot is among `slots` and staged.
pub open spec fn is_presented(vm: &CmvsPs2aVmState, slots: Seq<CmvsTextureSlot>, requested: CmvsTextureSlot) -> bool {
    slots.contains(requested) && is_staged(spec_slot_state(vm, requested))
}

/// The recorded state of `slot`.
pub fn slot_state(vm: &CmvsPs2aVmState, slot: CmvsTextureSlot) -> (r: Option<CmvsSlotState>)
    ensures
        r == spec_slot_state(vm, slot),
{
    proof { lemma_texture_keys_ordered(); }
    assert(texture_keys_ordered());
    match slot {
        CmvsTextureSlot::Parent(parent) => match vm.texture_parents.get(&parent) {
            Some(s) => Some((s.surface_initialized, s.rect_words, s.position_words, s.auxiliary_word)),
            None => None,
        },
        CmvsTextureSlot::Child { parent, child } => match vm.texture_children.get(&parent) {
            Some(children) => match children.get(&child) {
                Some(s) => Some((s.surface_initialized, s.rect_words, s.position_words, s.auxiliary_word)),
                None => None,
            },
            None => None,
        },
    }
}

/// The slot order place of `slot`, as a number.
fn slot_rank_exec(slot: CmvsTextureSlot) -> (r: u64)
    ensures
        r == slot_rank(slot),
{
    match slot {
        CmvsTextureSlot::Parent(parent) => parent as u64,
        CmvsTextureSlot::Child { parent, child } => 256 + (parent as u64) * 65536 + child as u64,
    }
}

/// Whether `a` is drawn no later than `b`.
fn layer_le_exec(a: &CmvsStageLayer, b: &CmvsStageLayer) -> (r: bool)
    ensures
        r == layer_le(*a, *b),
{
    a.2 < b.2 || (a.2 == b.2 && slot_rank_exec(a.0) <= slot_rank_exec(b.0))
}

/// Inserts `layer` into the ordered `layers` after every layer drawn no
/// later than it.
fn insert_layer(layers: &mut Vec<CmvsStageLayer>, layer: CmvsStageLayer)
    requires
        layers_sorted(old(layers)@),
    ensures
        layers_sorted(final(layers)@),
        final(layers)@.to_multiset() == old(layers)@.to_multiset().insert(layer),
{
    let mut index: usize = 0;
    while index < layers.len() && layer_le_exec(&layers[index], &layer)
        invariant
            index <= layers@.len(),
            layers_sorted(layers@),
            forall|k: int| 0 <= k < index ==> layer_le(#[trigger] layers@[k], layer),
        decreases layers@.len() - index,
    {
        index = index + 1;
    }
    let ghost before = layers@;
    proof {
        assert forall|k: int| index <= k < before.len() implies layer_le(layer, #[trigger] before[k]) by {
            assert(!layer_le(before[index as int], layer));
            if k > index {
                assert(layer_le(before[index as int], before[k]));
            }
        }
    }
    layers.insert(index, layer);
    assert(layers@ == before.insert(index as int, layer));
    assert forall|i: int, j: int| 0 <= i < j < layers@.len() implies layer_le(#[trigger] layers@[i], #[trigger] layers@[j]) by {
        if j < index {
            assert(layers@[i] == before[i] && layers@[j] == before[j]);
        } else if j == index {
            assert(layers@[i] == before[i]);
        } else if i < index {
            assert(layers@[i] == before[i] && layers@[j] == before[j - 1]);
            assert(layer_le(before[i], before[j - 1]));
        } else if i == index {
            assert(layers@[j] == before[j - 1]);
        } else {
            assert(layers@[i] == before[i - 1] && layers@[j] == before[j - 1]);
        }
    }
}

/// The stage layers of the staged slots among `slots`, in drawing order:
/// lower depth first, then slot order. A staged slot whose placed rectangle
/// overflows, is empty, ends past the stage or has a depth beyond a signed
/// 32-bit word fails the whole stage; so does a requested slot that is not
/// staged.
pub fn stage_geometry(
    vm: &CmvsPs2aVmState,
    slots: &[CmvsTextureSlot],
    requested: CmvsTextureSlot,
) -> (r: Result<Vec<CmvsStageLayer>, CmvsError>)
    ensures
        r is Ok <==> (forall|i: int| 0 <= i < slots@.len() ==> slot_fits(vm, #[trigger] slots@[i]))
            && is_presented(vm, slots@, requested),
        !(forall|i: int| 0 <= i < slots@.len() ==> slot_fits(vm, #[trigger] slots@[i]))
            ==> r == Err::<Vec<CmvsStageLayer>, CmvsError>(CmvsError::TextureGeometry),
        (forall|i: int| 0 <= i < slots@.len() ==> slot_fits(vm, #[trigger] slots@[i]))
            && !is_presented(vm, slots@, requested)
            ==> r == Err::<Vec<CmvsStageLayer>, CmvsError>(CmvsError::TexturePresentationState),
        r matches Ok(layers) ==> layers_sorted(layers@)
            && layers@.to_multiset() == spec_staged_layers(vm, slots@).to_multiset(),
{
    let mut layers: Vec<CmvsStageLayer> = Vec::new();
    let mut presented = false;
    let mut i: usize = 0;
    while i < slots.len()
        invariant
            i <= slots@.len(),
            layers_sorted(layers@),
            layers@.to_multiset() == spec_staged_layers(vm, slots@.subrange(0, i as int)).to_multiset(),
            forall|k: int| 0 <= k < i ==> slot_fits(vm, #[trigger] slots@[k]),
            presented <==> slots@.subrange(0, i as int).contains(requested)
                && is_staged(spec_slot_state(vm, requested)),
        decreases slots@.len() - i,
    {
        let slot = slots[i];
        let ghost prefix = slots@.subrange(0, i as int);
        assert(slots@.subrange(0, i + 1).drop_last() == prefix);
        assert(slots@.subrange(0, i + 1).last() == slot);
        assert(slots@.subrange(0, i + 1) == prefix.push(slot));
        assert(prefix.push(slot).drop_last() == prefix);
        match slot_state(vm, slot) {
            Some((true, Some(rect), Some(position), Some(z))) => {
                let x0 = rect[0].checked_add(position[0]);
                let y0 = rect[1].checked_add(position[1]);
                let x1 = rect[2].checked_add(position[0]);
                let y1 = rect[3].checked_add(position[1]);
                let (x0, y0, x1, y1) = match (x0, y0, x1, y1) {
                    (Some(x0), Some(y0), Some(x1), Some(y1)) => (x0, y0, x1, y1),
                    _ => {
                        assert(!slot_fits(vm, slots@[i as int]));
                        return Err(CmvsError::TextureGeometry);
                    },
                };
                if x1 <= x0 || y1 <= y0 || x1 > MAX_STAGE_EXTENT || y1 > MAX_STAGE_EXTENT || z > 0x7fff_ffff {
                    assert(!slot_fits(vm, slots@[i as int]));
                    return Err(CmvsError::TextureGeometry);
                }
                let layer = (
                    slot,
                    CmvsStageRect { x: x0 as i32, y: y0 as i32, width: x1 - x0, height: y1 - y0 },
                    z,
                );
                assert(layer == spec_layer(slot, rect, position, z));
                insert_layer(&mut layers, layer);
                assert(spec_staged_layers(vm, prefix.push(slot)) == spec_staged_layers(vm, prefix).push(layer));
                if slot == requested {
                    presented = true;
                }
            },
            _ => {
                assert(spec_staged_layers(vm, prefix.push(slot)) == spec_staged_layers(vm, prefix));
            },
        }
        i = i + 1;
        proof {
            assert(prefix.push(slot).contains(requested) <==> prefix.contains(requested) || slot == requested) by {
                if prefix.push(slot).contains(requested) {
                    let k = choose|k: int| 0 <= k < prefix.len() + 1 && prefix.push(slot)[k] == requested;
                    if k < prefix.len() {
                        assert(prefix[k] == requested);
                    }
                }
                if prefix.contains(requested) {
                    let k = choose|k: int| 0 <= k < prefix.len() && prefix[k] == requested;
                    assert(prefix.push(slot)[k] == requested);
                }
                if slot == requested {
                    assert(prefix.push(slot)[prefix.len() as int] == requested);
                }
            }
        }
    }
    assert(slots@.subrange(0, slots@.len() as int) == slots@);
    if !presented {
        return Err(CmvsError::TexturePresentationState);
    }
    Ok(layers)
}

/// The scene identifier of a slot's texture.
pub open spec fn spec_slot_id(slot: CmvsTextureSlot) -> Seq<char> {
    match slot {
        CmvsTextureSlot::Parent(parent) => "cmvs.texture.parent."@ + decimal_chars(parent as nat),
        CmvsTextureSlot::Child { parent, child } => "cmvs.texture.child."@ + decimal_chars(parent as nat)
            + seq!['.'] + decimal_chars(child as nat),
    }
}

/// The scene identifier of a slot's texture.
pub fn slot_id(slot: CmvsTextureSlot) -> (r: String)
    ensures
        r@ == spec_slot_id(slot),
{
    match slot {
        CmvsTextureSlot::Parent(parent) => {
            let mut s = String::from_str("cmvs.texture.parent.");
            push_decimal(&mut s, parent as u64);
            s
        },
        CmvsTextureSlot::Child { parent, child } => {
            let mut s = String::from_str("cmvs.texture.child.");
            push_decimal(&mut s, parent as u64);
            push_char(&mut s, '.');
            push_decimal(&mut s, child as u64);
            assert(s@ =~= spec_slot_id(slot));
            s
        },
    }
}

/// A layer lies at non-negative stage coordinates and its far edges fit a
/// 32-bit word.
pub open spec fn layer_placed(layer: CmvsStageLayer) -> bool {
    &&& 0 <= layer.1.x && 0 <= layer.1.y
    &&& layer.1.x + layer.1.width <= u32::MAX
    &&& layer.1.y + layer.1.height <= u32::MAX
}

/// The width and height of the smallest stage, anchored at the origin,
/// that holds every layer.
pub open spec fn spec_stage_extent(layers: Seq<CmvsStageLayer>) -> (int, int)
    decreases layers.len(),
{
    if layers.len() == 0 {
        (0, 0)
    } else {
        let (w, h) = spec_stage_extent(layers.drop_last());
        let last = layers.last();
        let right = last.1.x + last.1.width;
        let bottom = last.1.y + last.1.height;
        (if right > w { right } else { w }, if bottom > h { bottom } else { h })
    }
}

/// The frame size a composition of `layers` is drawn at: the furthest
/// right and bottom layer edges.
pub fn stage_extent(layers: &[CmvsStageLayer]) -> (r: (u32, u32))
    requires
        layers@.len() > 0,
        forall|i: int| 0 <= i < layers@.len() ==> layer_placed(#[trigger] layers@[i]),
    ensures
        (r.0 as int, r.1 as int) == spec_stage_extent(layers@),
{
    let mut width: u32 = 0;
    let mut height: u32 = 0;
    let mut i: usize = 0;
    while i < layers.len()
        invariant
            i <= layers@.len(),
            forall|k: int| 0 <= k < layers@.len() ==> layer_placed(#[trigger] layers@[k]),
            (width as int, height as int) == spec_stage_extent(layers@.subrange(0, i as int)),
        decreases layers@.len() - i,
    {
        assert(layers@.subrange(0, i + 1).drop_last() == layers@.subrange(0, i as int));
        let rect = layers[i].1;
        assert(layer_placed(layers@[i as int]));
        let right = rect.x as u32 + rect.width;
        let bottom = rect.y as u32 + rect.height;
        if right > width {
            width = right;
        }
        if bottom > height {
            height = bottom;
        }
        i = i + 1;
    }
    assert(layers@.subrange(0, layers@.len() as int) == layers@);
    (width, height)
}

} // verus!
