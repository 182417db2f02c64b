use pumpkin_core::blocks::{
    can_sleep, composter_comparator_output, composter_schedules_ready_tick,
    composter_should_increase, composter_use_clears, entity_prevents_sleep,
    lamp_neighbor_update_action, lamp_scheduled_tick_turns_off, melee_can_mine,
    BlockActionResult, ComposterLikeProperties, ComposterPropertiesEx, LampAction,
};
use pumpkin_core::blocks::{bars_side_connected, bed_use_outcome, BedUseOutcome};
use pumpkin_core::command::{init_command_tree, op_new_level, op_promotion_applies};
use pumpkin_core::item::{GameMode, Item, ItemStack};

#[test]
fn test_consumes_action() {
    assert!(BlockActionResult::Success.consumes_action());
    assert!(BlockActionResult::SuccessServer.consumes_action());
    assert!(BlockActionResult::Consume.consumes_action());
    assert!(!BlockActionResult::Fail.consumes_action());
    assert!(!BlockActionResult::Pass.consumes_action());
    assert!(!BlockActionResult::PassToDefaultBlockAction.consumes_action());
}

#[test]
fn test_melee_can_mine() {
    assert!(!melee_can_mine(GameMode::Creative));
    assert!(melee_can_mine(GameMode::Survival));
    assert!(melee_can_mine(GameMode::Adventure));
}

#[test]
fn test_entity_prevents_sleep_membership() {
    let ids: Vec<u16> = vec![51, 54, 90];
    assert!(entity_prevents_sleep(&ids, 54));
    assert!(!entity_prevents_sleep(&ids, 55));
    assert!(!entity_prevents_sleep(&Vec::new(), 54));
}

#[test]
fn test_can_sleep_windows() {
    // Thunder allows sleep at any time.
    assert!(can_sleep(true, false, 0));
    // Rain widens the window.
    assert!(can_sleep(false, true, 12011));
    assert!(!can_sleep(false, true, 12010));
    assert!(can_sleep(false, true, 23990));
    assert!(!can_sleep(false, true, 23991));
    // Clear weather allows sleep only at night.
    assert!(!can_sleep(false, false, 12542));
    assert!(can_sleep(false, false, 12543));
    assert!(can_sleep(false, false, 23458));
    assert!(!can_sleep(false, false, 23459));
}

#[test]
fn test_lamp_actions() {
    assert_eq!(lamp_neighbor_update_action(false, true), LampAction::TurnOn);
    assert_eq!(lamp_neighbor_update_action(true, false), LampAction::ScheduleTurnOff);
    assert_eq!(lamp_neighbor_update_action(true, true), LampAction::Keep);
    assert_eq!(lamp_neighbor_update_action(false, false), LampAction::Keep);
    assert!(lamp_scheduled_tick_turns_off(true, false));
    assert!(!lamp_scheduled_tick_turns_off(true, true));
    assert!(!lamp_scheduled_tick_turns_off(false, false));
}

#[test]
fn test_composter_rules() {
    // The first layer always lands; later layers need the roll.
    assert!(composter_should_increase(0, true, false));
    assert!(composter_should_increase(3, true, true));
    assert!(!composter_should_increase(3, true, false));
    assert!(!composter_should_increase(7, true, true));
    assert!(!composter_should_increase(2, false, true));
    assert!(composter_schedules_ready_tick(7));
    assert!(!composter_schedules_ready_tick(6));
    assert!(composter_use_clears(8));
    assert!(!composter_use_clears(7));
    let mut props = ComposterLikeProperties { level: 0 };
    props.set_level(5);
    assert_eq!(props.get_level(), 5);
    assert_eq!(composter_comparator_output(&props), 5);
}

#[test]
fn test_item_stack_counting() {
    let dirt = Item { id: 9, max_stack_size: 64 };
    let mut stack = ItemStack::new(10, dirt);
    assert!(!stack.is_empty());
    assert!(stack.is_stackable());
    assert_eq!(stack.get_max_stack_size(), 64);

    let taken = stack.split(3);
    assert_eq!(taken.item_count, 3);
    assert_eq!(stack.item_count, 7);

    // Splitting more than remains takes everything.
    let rest = stack.split(100);
    assert_eq!(rest.item_count, 7);
    assert_eq!(stack.item_count, 0);
    assert!(stack.is_empty());
    assert_eq!(stack.get_item().id, 0);

    stack.set_count(5);
    stack.increment(2);
    assert_eq!(stack.item_count, 7);
    stack.decrement(10);
    assert_eq!(stack.item_count, 0);

    let mut creative = ItemStack::new(8, dirt);
    let taken = creative.split_unless_creative(GameMode::Creative, 2);
    assert_eq!(taken.item_count, 2);
    assert_eq!(creative.item_count, 8);
    let taken = creative.split_unless_creative(GameMode::Survival, 2);
    assert_eq!(taken.item_count, 2);
    assert_eq!(creative.item_count, 6);

    let other = ItemStack::new(6, dirt);
    assert!(creative.are_equal(&other));
    assert!(creative.are_items_and_components_equal(&taken));
    assert!(!creative.are_equal(&taken));
}

#[test]
fn test_op_command_tree() {
    let tree = init_command_tree();
    assert_eq!(tree.names.len(), 1);
    assert_eq!(tree.names[0].as_str(), "op");
    assert_eq!(tree.description.as_str(), "Grants operator status to a player.");
    assert_eq!(tree.arguments.len(), 1);
    assert_eq!(tree.arguments[0].name.as_str(), "targets");
    assert!(tree.arguments[0].has_executor);
}

#[test]
fn test_op_levels() {
    assert_eq!(op_new_level(4, 2), 2);
    assert_eq!(op_new_level(2, 4), 2);
    assert!(op_promotion_applies(0, 2));
    assert!(!op_promotion_applies(2, 2));
}

#[test]
fn test_bed_use_outcomes() {
    assert_eq!(
        bed_use_outcome(false, false, false, true, true, false),
        BedUseOutcome::Explodes
    );
    assert_eq!(
        bed_use_outcome(true, true, false, true, true, false),
        BedUseOutcome::Obstructed
    );
    assert_eq!(
        bed_use_outcome(true, false, true, true, true, false),
        BedUseOutcome::Occupied
    );
    assert_eq!(
        bed_use_outcome(true, false, false, false, true, false),
        BedUseOutcome::TooFarAway
    );
    assert_eq!(
        bed_use_outcome(true, false, false, true, false, false),
        BedUseOutcome::NoSleep
    );
    assert_eq!(
        bed_use_outcome(true, false, false, true, true, true),
        BedUseOutcome::NotSafe
    );
    assert_eq!(bed_use_outcome(true, false, false, true, true, false), BedUseOutcome::Sleep);
}

#[test]
fn test_bars_side_connected() {
    assert!(bars_side_connected(true, false, false, false));
    assert!(bars_side_connected(false, true, false, false));
    assert!(bars_side_connected(false, false, true, false));
    assert!(bars_side_connected(false, false, false, true));
    assert!(!bars_side_connected(false, false, false, false));
}
