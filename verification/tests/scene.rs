use astra_emu_cmvs::error::CmvsError;
use astra_emu_cmvs::scene::{slot_id, slot_state, stage_extent, stage_geometry, CmvsStageRect, CmvsTextureSlot};
use astra_emu_cmvs::vm::{CmvsPs2aVmState, CmvsTextureChildState, CmvsTextureParentState};
use std::collections::BTreeMap;

fn state() -> CmvsPs2aVmState {
    let mut vm = CmvsPs2aVmState::new(0);
    for (slot, z) in [(0u8, 2u32), (1, 1)] {
        vm.texture_parents.insert(
            slot,
            CmvsTextureParentState {
                surface_initialized: true,
                rect_words: Some([0, 0, 2, 2]),
                position_words: Some([0, 0]),
                auxiliary_word: Some(z),
            },
        );
    }
    vm
}

fn child(rect: [u32; 4], position: [u32; 2], z: u32) -> CmvsTextureChildState {
    CmvsTextureChildState {
        surface_initialized: true,
        rect_words: Some(rect),
        position_words: Some(position),
        auxiliary_word: Some(z),
    }
}

#[test]
fn recovered_geometry_orders_layers_and_rejects_missing_or_overflowing_state() {
    let mut vm = state();
    let slots = [CmvsTextureSlot::Parent(0), CmvsTextureSlot::Parent(1)];
    let geometry = stage_geometry(&vm, &slots, slots[0]).unwrap();
    assert_eq!(geometry[0].0, slots[1]);
    vm.texture_parents.get_mut(&0).unwrap().position_words = Some([u32::MAX, 0]);
    assert_eq!(
        stage_geometry(&vm, &slots, slots[0]).unwrap_err().code(),
        "ASTRA_EMU_CMVS_TEXTURE_GEOMETRY"
    );
    vm.texture_parents.get_mut(&0).unwrap().position_words = None;
    assert_eq!(
        stage_geometry(&vm, &slots, slots[0]).unwrap_err().code(),
        "ASTRA_EMU_CMVS_TEXTURE_PRESENTATION_STATE"
    );
}

#[test]
fn stage_places_rectangles_at_their_positions() {
    let mut vm = CmvsPs2aVmState::new(0);
    vm.texture_parents.insert(
        3,
        CmvsTextureParentState {
            surface_initialized: true,
            rect_words: Some([10, 20, 110, 70]),
            position_words: Some([5, 7]),
            auxiliary_word: Some(4),
        },
    );
    let geometry = stage_geometry(&vm, &[CmvsTextureSlot::Parent(3)], CmvsTextureSlot::Parent(3)).unwrap();
    assert_eq!(
        geometry,
        vec![(
            CmvsTextureSlot::Parent(3),
            CmvsStageRect { x: 15, y: 27, width: 100, height: 50 },
            4
        )]
    );
}

#[test]
fn equal_depths_draw_parents_before_children_in_slot_order() {
    let mut vm = state();
    for (_, s) in vm.texture_parents.iter_mut() {
        s.auxiliary_word = Some(5);
    }
    let mut children = BTreeMap::new();
    children.insert(9u16, child([0, 0, 1, 1], [0, 0], 5));
    children.insert(2u16, child([0, 0, 1, 1], [0, 0], 5));
    vm.texture_children.insert(0, children);
    let slots = [
        CmvsTextureSlot::Child { parent: 0, child: 9 },
        CmvsTextureSlot::Parent(1),
        CmvsTextureSlot::Child { parent: 0, child: 2 },
        CmvsTextureSlot::Parent(0),
    ];
    let geometry = stage_geometry(&vm, &slots, slots[0]).unwrap();
    let order: Vec<CmvsTextureSlot> = geometry.iter().map(|layer| layer.0).collect();
    assert_eq!(
        order,
        vec![
            CmvsTextureSlot::Parent(0),
            CmvsTextureSlot::Parent(1),
            CmvsTextureSlot::Child { parent: 0, child: 2 },
            CmvsTextureSlot::Child { parent: 0, child: 9 },
        ]
    );
}

#[test]
fn unstaged_slots_are_left_out_and_bad_extents_fail() {
    let mut vm = state();
    vm.texture_parents.get_mut(&1).unwrap().surface_initialized = false;
    let slots = [CmvsTextureSlot::Parent(0), CmvsTextureSlot::Parent(1), CmvsTextureSlot::Parent(7)];
    let geometry = stage_geometry(&vm, &slots, slots[0]).unwrap();
    assert_eq!(geometry.len(), 1);
    assert_eq!(
        stage_geometry(&vm, &slots, slots[1]),
        Err(CmvsError::TexturePresentationState)
    );

    vm.texture_parents.get_mut(&0).unwrap().rect_words = Some([2, 0, 2, 2]);
    assert_eq!(stage_geometry(&vm, &slots, slots[0]), Err(CmvsError::TextureGeometry));
    vm.texture_parents.get_mut(&0).unwrap().rect_words = Some([0, 0, 16385, 2]);
    assert_eq!(stage_geometry(&vm, &slots, slots[0]), Err(CmvsError::TextureGeometry));
    vm.texture_parents.get_mut(&0).unwrap().rect_words = Some([0, 0, 16384, 16384]);
    assert!(stage_geometry(&vm, &slots, slots[0]).is_ok());
    vm.texture_parents.get_mut(&0).unwrap().auxiliary_word = Some(0x8000_0000);
    assert_eq!(stage_geometry(&vm, &slots, slots[0]), Err(CmvsError::TextureGeometry));
}

#[test]
fn slot_state_reads_parent_and_child_surfaces() {
    let mut vm = state();
    let mut children = BTreeMap::new();
    children.insert(4u16, child([1, 2, 3, 4], [5, 6], 7));
    vm.texture_children.insert(1, children);
    assert_eq!(
        slot_state(&vm, CmvsTextureSlot::Child { parent: 1, child: 4 }),
        Some((true, Some([1, 2, 3, 4]), Some([5, 6]), Some(7)))
    );
    assert_eq!(slot_state(&vm, CmvsTextureSlot::Child { parent: 1, child: 5 }), None);
    assert_eq!(slot_state(&vm, CmvsTextureSlot::Child { parent: 0, child: 4 }), None);
    assert_eq!(
        slot_state(&vm, CmvsTextureSlot::Parent(1)),
        Some((true, Some([0, 0, 2, 2]), Some([0, 0]), Some(1)))
    );
    assert_eq!(slot_state(&vm, CmvsTextureSlot::Parent(2)), None);
}

#[test]
fn slot_ids_name_parents_and_children() {
    assert_eq!(slot_id(CmvsTextureSlot::Parent(0)), "cmvs.texture.parent.0");
    assert_eq!(slot_id(CmvsTextureSlot::Parent(255)), "cmvs.texture.parent.255");
    assert_eq!(
        slot_id(CmvsTextureSlot::Child { parent: 12, child: 65535 }),
        "cmvs.texture.child.12.65535"
    );
}

#[test]
fn the_frame_spans_the_furthest_layer_edges() {
    let mut vm = state();
    vm.texture_parents.get_mut(&1).unwrap().position_words = Some([30, 1]);
    let slots = [CmvsTextureSlot::Parent(0), CmvsTextureSlot::Parent(1)];
    let geometry = stage_geometry(&vm, &slots, slots[0]).unwrap();
    assert_eq!(stage_extent(&geometry), (32, 3));
    let single = [(CmvsTextureSlot::Parent(3), CmvsStageRect { x: 15, y: 27, width: 100, height: 50 }, 4)];
    assert_eq!(stage_extent(&single), (115, 77));
}
