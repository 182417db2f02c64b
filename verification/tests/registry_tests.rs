use pumpkin_core::digest::hash_seed;
use pumpkin_core::registry::{
    ChatType, Registry, RegistryEntry, SyncedRegistry, VanillaDimensionType,
};

#[test]
fn test_hash_seed() {
    let hashed_seed = hash_seed(0);
    assert_eq!(8794265229978523055, hashed_seed);

    let hashed_seed = hash_seed((-777i64) as u64);
    assert_eq!(-1087248400229165450, hashed_seed);
}

#[test]
fn test_dimension_resource_locations() {
    assert_eq!(
        VanillaDimensionType::Overworld.resource_location().path.as_str(),
        "overworld"
    );
    assert_eq!(
        VanillaDimensionType::TheNether.resource_location().namespace.as_str(),
        "minecraft"
    );
    assert_eq!(
        VanillaDimensionType::from_resource_location_string("minecraft:the_end"),
        Some(VanillaDimensionType::TheEnd)
    );
    assert_eq!(
        VanillaDimensionType::from_resource_location_string("minecraft:the_moon"),
        None
    );
}

fn entry(key: &str) -> RegistryEntry {
    RegistryEntry { key: key.to_string(), payload: vec![1, 2, 3] }
}

#[test]
fn test_get_synced_shape() {
    let synced = SyncedRegistry {
        biome: vec![entry("plains"), entry("desert")],
        chat_type: vec![entry("chat")],
        wolf_variant: vec![],
        painting_variant: vec![],
        dimension_type: vec![entry("overworld")],
        damage_type: vec![],
        cat_variant: vec![],
        chicken_variant: vec![],
        cow_variant: vec![],
        frog_variant: vec![],
        pig_variant: vec![],
        wolf_sound_variant: vec![],
        banner_pattern: vec![],
        jukebox_song: vec![],
    };
    let registries = Registry::get_synced(&synced);
    assert_eq!(registries.len(), 14);
    assert_eq!(registries[5].registry_id.path.as_str(), "worldgen/biome");
    assert_eq!(registries[5].registry_entries.len(), 2);
    assert_eq!(registries[5].registry_entries[0].key.as_str(), "plains");
    // The chat types carry the synthetic raw entry at the end.
    assert_eq!(registries[6].registry_id.path.as_str(), "chat_type");
    assert_eq!(registries[6].registry_entries.len(), 2);
    assert_eq!(registries[6].registry_entries[1].key.as_str(), "raw");
    for registry in registries.iter() {
        assert_eq!(registry.registry_id.namespace.as_str(), "minecraft");
    }
}

#[test]
fn test_raw_chat_type_decorations() {
    let raw = ChatType::raw();
    assert_eq!(raw.chat.translation_key.as_str(), "%s");
    assert_eq!(raw.chat.parameters.len(), 1);
    assert_eq!(raw.chat.parameters[0].as_str(), "content");
    assert_eq!(raw.narration.translation_key.as_str(), "%s says %s");
    assert_eq!(raw.narration.parameters.len(), 2);
    assert_eq!(raw.narration.parameters[0].as_str(), "sender");
    assert_eq!(raw.narration.parameters[1].as_str(), "content");
}
