//! The inventory: stacking, totals, deduction and the cursor.

use voxel_core::blocks::BlockType;
use voxel_core::direction::MapDirection;
use voxel_core::inventory::Inventory;

#[test]
fn adding_fills_the_first_empty_slot() {
    let mut inv = Inventory::new(3);
    assert!(inv.add_resource(BlockType::Stone, 4));
    assert_eq!(inv.slots[0].resource_type, Some(BlockType::Stone));
    assert_eq!(inv.slots[0].quantity, 4);
    assert!(inv.slots[1].resource_type.is_none());
}

#[test]
fn adding_stacks_onto_matching_slots() {
    let mut inv = Inventory::new(3);
    assert!(inv.add_resource(BlockType::Stone, 4));
    assert!(inv.add_resource(BlockType::Coal, 2));
    assert!(inv.add_resource(BlockType::Stone, 5));
    assert_eq!(inv.slots[0].quantity, 9);
    assert_eq!(inv.slots[1].quantity, 2);
    assert!(inv.slots[2].resource_type.is_none());
}

#[test]
fn directional_blocks_stack_payload_blind() {
    let mut inv = Inventory::new(2);
    assert!(inv.add_resource(BlockType::Piston(MapDirection::Up), 1));
    assert!(inv.add_resource(BlockType::Piston(MapDirection::Down), 1));
    assert_eq!(inv.slots[0].quantity, 2);
    assert!(inv.slots[1].resource_type.is_none());
}

#[test]
fn a_full_inventory_rejects_new_kinds() {
    let mut inv = Inventory::new(2);
    assert!(inv.add_resource(BlockType::Stone, 1));
    assert!(inv.add_resource(BlockType::Coal, 1));
    assert!(!inv.add_resource(BlockType::Sand, 1));
    // Stacking onto an existing kind still works.
    assert!(inv.add_resource(BlockType::Coal, 3));
    assert_eq!(inv.slots[1].quantity, 4);
}

#[test]
fn totals_span_every_matching_slot() {
    let mut inv = Inventory::new(4);
    inv.slots[0].resource_type = Some(BlockType::Stone);
    inv.slots[0].quantity = 3;
    inv.slots[2].resource_type = Some(BlockType::Stone);
    inv.slots[2].quantity = 5;
    inv.slots[3].resource_type = Some(BlockType::Coal);
    inv.slots[3].quantity = 7;
    assert_eq!(inv.get_total_resource(BlockType::Stone), 8);
    assert_eq!(inv.get_total_resource(BlockType::Coal), 7);
    assert_eq!(inv.get_total_resource(BlockType::Sand), 0);
}

#[test]
fn deduction_takes_from_front_slots_first() {
    let mut inv = Inventory::new(4);
    inv.slots[0].resource_type = Some(BlockType::Stone);
    inv.slots[0].quantity = 3;
    inv.slots[2].resource_type = Some(BlockType::Stone);
    inv.slots[2].quantity = 5;
    assert!(inv.check_and_deduct_resources(&[(BlockType::Stone, 4)]));
    // The first slot was drained and emptied, the rest came off the second.
    assert_eq!(inv.slots[0].resource_type, None);
    assert_eq!(inv.slots[0].quantity, 0);
    assert_eq!(inv.slots[2].resource_type, Some(BlockType::Stone));
    assert_eq!(inv.slots[2].quantity, 4);
}

#[test]
fn deduction_fails_without_enough_and_changes_nothing() {
    let mut inv = Inventory::new(2);
    inv.add_resource(BlockType::Stone, 3);
    assert!(!inv.check_and_deduct_resources(&[(BlockType::Stone, 4)]));
    assert_eq!(inv.slots[0].quantity, 3);
    assert!(!inv.check_and_deduct_resources(&[(BlockType::Stone, 2), (BlockType::Coal, 1)]));
    assert_eq!(inv.slots[0].quantity, 3);
}

#[test]
fn deduction_empties_exactly_drained_slots() {
    let mut inv = Inventory::new(2);
    inv.add_resource(BlockType::Glass, 2);
    assert!(inv.check_and_deduct_resources(&[(BlockType::Glass, 2)]));
    assert_eq!(inv.slots[0].resource_type, None);
    assert_eq!(inv.slots[0].quantity, 0);
}

#[test]
fn multiple_requirements_deduct_in_order() {
    let mut inv = Inventory::new(4);
    inv.add_resource(BlockType::Stone, 5);
    inv.add_resource(BlockType::Coal, 2);
    assert!(inv.check_and_deduct_resources(&[(BlockType::Stone, 1), (BlockType::Coal, 2)]));
    assert_eq!(inv.slots[0].quantity, 4);
    assert_eq!(inv.slots[1].resource_type, None);
}

#[test]
fn clear_resets_everything() {
    let mut inv = Inventory::new(3);
    inv.add_resource(BlockType::Stone, 5);
    inv.selected_row = 2;
    inv.select_slot(4);
    inv.clear();
    assert_eq!(inv.selected_slot, 0);
    assert_eq!(inv.selected_row, 0);
    for slot in &inv.slots {
        assert!(slot.resource_type.is_none());
        assert_eq!(slot.quantity, 0);
    }
}

#[test]
fn selection_points_into_the_selected_row() {
    let mut inv = Inventory::new(60);
    inv.selected_row = 2;
    inv.select_slot(4);
    assert_eq!(inv.selected_slot, 24);
    // Columns past the hotbar are ignored.
    inv.select_slot(10);
    assert_eq!(inv.selected_slot, 24);
}

#[test]
fn row_cycling_wraps_around_six_rows() {
    let mut inv = Inventory::new(60);
    inv.next_row();
    assert_eq!((inv.selected_row, inv.selected_slot), (5, 50));
    inv.prev_row();
    assert_eq!((inv.selected_row, inv.selected_slot), (0, 0));
    inv.prev_row();
    assert_eq!((inv.selected_row, inv.selected_slot), (1, 10));
    inv.select_row(3);
    assert_eq!((inv.selected_row, inv.selected_slot), (3, 30));
}

#[test]
fn selected_block_reads_the_cursor_slot() {
    let mut inv = Inventory::new(60);
    assert_eq!(inv.get_selected_block(), None);
    inv.add_resource(BlockType::Sand, 1);
    assert_eq!(inv.get_selected_block(), Some(BlockType::Sand));
}
