use game_item::Hand;
use game_item::ItemBuilder;
use game_item::Location;
use game_item::Noop;
use game_item::SetDescriptionOnUpdate;
use game_item::SetDescriptionOnUse;
use game_item::Target;

#[test]
fn defaults_from_bare_builder() {
    let item = ItemBuilder::new("core".to_string(), 42).build();
    assert_eq!(item.namespace, "core");
    assert_eq!(item.id, 42);
    assert_eq!(item.description, "");
}

#[test]
fn default_hooks_do_nothing() {
    let mut item = ItemBuilder::new("core".to_string(), 42).build();
    item.on_use(Target::Air, Hand::MainHand);
    item.on_use(Target::Block, Hand::OffHand);
    item.on_use(Target::Entity, Hand::MainHand);
    item.on_update(Location::Inventory);
    item.on_update(Location::Hotbar);
    item.on_update(Location::Hand(Hand::MainHand));
    item.on_update(Location::Hand(Hand::OffHand));
    item.on_use(Target::Air, Hand::OffHand);
    assert_eq!(item.namespace, "core");
    assert_eq!(item.id, 42);
    assert_eq!(item.description, "");
}

#[test]
fn description_scenario() {
    let mut item = ItemBuilder::new("core".to_string(), 1)
        .description("Sword".to_string())
        .build();
    assert_eq!(item.namespace, "core");
    assert_eq!(item.id, 1);
    assert_eq!(item.description, "Sword");
    item.on_use(Target::Entity, Hand::MainHand);
    assert_eq!(item.description, "Sword");
}

#[test]
fn use_hook_scenario() {
    let mut item = ItemBuilder::new("core".to_string(), 1)
        .on_use(SetDescriptionOnUse { text: "used".to_string() })
        .build();
    assert_eq!(item.description, "");
    item.on_use(Target::Block, Hand::MainHand);
    assert_eq!(item.description, "used");
    assert_eq!(item.namespace, "core");
    assert_eq!(item.id, 1);
}

#[test]
fn update_hook_scenario() {
    let mut item = ItemBuilder::new("pack".to_string(), 9)
        .on_update(SetDescriptionOnUpdate { text: "ticked".to_string() })
        .build();
    item.on_update(Location::Hand(Hand::OffHand));
    assert_eq!(item.description, "ticked");
    assert_eq!(item.namespace, "pack");
    assert_eq!(item.id, 9);
}

#[test]
fn last_use_hook_wins() {
    let mut item = ItemBuilder::new("core".to_string(), 3)
        .on_use(SetDescriptionOnUse { text: "first".to_string() })
        .on_use(SetDescriptionOnUse { text: "second".to_string() })
        .build();
    item.on_use(Target::Air, Hand::MainHand);
    assert_eq!(item.description, "second");
}

#[test]
fn last_use_hook_wins_when_noop_is_last() {
    let mut item = ItemBuilder::new("core".to_string(), 3)
        .description("kept".to_string())
        .on_use(SetDescriptionOnUse { text: "first".to_string() })
        .on_use(Noop)
        .build();
    item.on_use(Target::Air, Hand::MainHand);
    assert_eq!(item.description, "kept");
}

#[test]
fn last_update_hook_wins() {
    let mut item = ItemBuilder::new("core".to_string(), 3)
        .on_update(SetDescriptionOnUpdate { text: "first".to_string() })
        .on_update(SetDescriptionOnUpdate { text: "second".to_string() })
        .build();
    item.on_update(Location::Inventory);
    assert_eq!(item.description, "second");
}

#[test]
fn last_description_wins() {
    let item = ItemBuilder::new("core".to_string(), 3)
        .description("first".to_string())
        .description("second".to_string())
        .build();
    assert_eq!(item.description, "second");
}

#[test]
fn no_validation_at_this_layer() {
    let item = ItemBuilder::new("".to_string(), 0).build();
    assert_eq!(item.namespace, "");
    assert_eq!(item.id, 0);
    let item = ItemBuilder::new("core".to_string(), u32::MAX).build();
    assert_eq!(item.id, u32::MAX);
}

#[test]
fn setters_leave_other_slots_alone() {
    let mut item = ItemBuilder::new("core".to_string(), 5)
        .on_use(SetDescriptionOnUse { text: "used".to_string() })
        .description("fresh".to_string())
        .on_update(SetDescriptionOnUpdate { text: "ticked".to_string() })
        .build();
    assert_eq!(item.namespace, "core");
    assert_eq!(item.id, 5);
    assert_eq!(item.description, "fresh");
    item.on_use(Target::Entity, Hand::OffHand);
    assert_eq!(item.description, "used");
    item.on_update(Location::Hotbar);
    assert_eq!(item.description, "ticked");
}
