//! Registry values synchronized to clients at configuration time.
//!
//! The synchronized registries are data-driven: their entry payloads are
//! compiled from asset data by the surrounding layers. This module owns the
//! fixed shape of the synchronization: which registries go out, under which
//! vanilla identifiers, in which order, and the one synthetic "raw" chat
//! type appended so custom chat formatting bypasses the vanilla sender
//! decoration.

use vstd::prelude::*;
use vstd::string::StringExecFns;

use crate::strutil::str_eq;
use crate::text::Style;

verus! {

/// A namespaced identifier.
pub struct ResourceLocation {
    pub namespace: String,
    pub path: String,
}

impl ResourceLocation {
    /// An identifier in the vanilla namespace.
    pub fn vanilla(path: &str) -> (r: ResourceLocation)
        ensures
            r.namespace@ == "minecraft"@,
            r.path@ == path@,
    {
        ResourceLocation {
            namespace: String::from_str("minecraft"),
            path: String::from_str(path),
        }
    }
}

/// The four built-in dimension types.
#[derive(Clone, Copy, Debug, PartialEq, Eq, Structural)]
pub enum VanillaDimensionType {
    Overworld,
    OverworldCaves,
    TheEnd,
    TheNether,
}

/// The vanilla-namespace path of a dimension type.
pub open spec fn spec_dimension_path(d: VanillaDimensionType) -> Seq<char> {
    match d {
        VanillaDimensionType::Overworld => "overworld"@,
        VanillaDimensionType::OverworldCaves => "overworld_caves"@,
        VanillaDimensionType::TheEnd => "the_end"@,
        VanillaDimensionType::TheNether => "the_nether"@,
    }
}

impl VanillaDimensionType {
    /// The namespaced identifier of this dimension type.
    pub fn resource_location(&self) -> (r: ResourceLocation)
        ensures
            r.namespace@ == "minecraft"@,
            r.path@ == spec_dimension_path(*self),
    {
        match self {
            VanillaDimensionType::Overworld => ResourceLocation::vanilla("overworld"),
            VanillaDimensionType::OverworldCaves => ResourceLocation::vanilla("overworld_caves"),
            VanillaDimensionType::TheEnd => ResourceLocation::vanilla("the_end"),
            VanillaDimensionType::TheNether => ResourceLocation::vanilla("the_nether"),
        }
    }

    /// Parses a fully qualified dimension identifier; anything but the four
    /// vanilla ones yields nothing.
    pub fn from_resource_location_string(resource_location: &str) -> (r: Option<
        VanillaDimensionType,
    >)
        ensures
            ({
                let s = resource_location@;
                &&& s == "minecraft:overworld"@ ==> r == Option::Some(
                    VanillaDimensionType::Overworld,
                )
                &&& s == "minecraft:overworld_caves"@ ==> r == Option::Some(
                    VanillaDimensionType::OverworldCaves,
                )
                &&& s == "minecraft:the_end"@ ==> r == Option::Some(VanillaDimensionType::TheEnd)
                &&& s == "minecraft:the_nether"@ ==> r == Option::Some(
                    VanillaDimensionType::TheNether,
                )
                &&& s != "minecraft:overworld"@ && s != "minecraft:overworld_caves"@ && s
                    != "minecraft:the_end"@ && s != "minecraft:the_nether"@ ==> r is None
            }),
    {
        proof {
            broadcast use vstd::string::group_string_axioms;

            reveal_strlit("minecraft:overworld");
            reveal_strlit("minecraft:overworld_caves");
            reveal_strlit("minecraft:the_end");
            reveal_strlit("minecraft:the_nether");
            assert("minecraft:overworld"@.len() == 19);
            assert("minecraft:overworld_caves"@.len() == 25);
            assert("minecraft:the_end"@.len() == 17);
            assert("minecraft:the_nether"@.len() == 20);
        }
        if str_eq(resource_location, "minecraft:overworld") {
            Option::Some(VanillaDimensionType::Overworld)
        } else if str_eq(resource_location, "minecraft:overworld_caves") {
            Option::Some(VanillaDimensionType::OverworldCaves)
        } else if str_eq(resource_location, "minecraft:the_end") {
            Option::Some(VanillaDimensionType::TheEnd)
        } else if str_eq(resource_location, "minecraft:the_nether") {
            Option::Some(VanillaDimensionType::TheNether)
        } else {
            Option::None
        }
    }
}

/// One named entry of a synchronized registry; the payload bytes are
/// compiled by the asset layer and carried through untouched.
pub struct RegistryEntry {
    pub key: String,
    pub payload: Vec<u8>,
}

/// One registry as synchronized to a client.
pub struct Registry {
    pub registry_id: ResourceLocation,
    pub registry_entries: Vec<RegistryEntry>,
}

/// One decoration of a chat type: a translation key and its parameters.
pub struct Decoration {
    pub translation_key: String,
    pub parameters: Vec<String>,
    pub style: Option<Style>,
}

/// How chat messages are decorated for display and narration.
pub struct ChatType {
    pub chat: Decoration,
    pub narration: Decoration,
}

impl ChatType {
    /// The synthetic raw chat type: the message passes through verbatim,
    /// which leaves formatting to the server.
    pub fn raw() -> (r: ChatType)
        ensures
            r.chat.translation_key@ == "%s"@,
            r.chat.parameters@.len() == 1 && r.chat.parameters@[0]@ == "content"@,
            r.chat.style is None,
            r.narration.translation_key@ == "%s says %s"@,
            r.narration.parameters@.len() == 2 && r.narration.parameters@[0]@ == "sender"@
                && r.narration.parameters@[1]@ == "content"@,
            r.narration.style is None,
    {
        let mut chat_params: Vec<String> = Vec::new();
        chat_params.push(String::from_str("content"));
        let mut narration_params: Vec<String> = Vec::new();
        narration_params.push(String::from_str("sender"));
        narration_params.push(String::from_str("content"));
        ChatType {
            chat: Decoration {
                translation_key: String::from_str("%s"),
                parameters: chat_params,
                style: Option::None,
            },
            narration: Decoration {
                translation_key: String::from_str("%s says %s"),
                parameters: narration_params,
                style: Option::None,
            },
        }
    }
}

/// The categories of synchronized registry data, each a list of entries in
/// asset order.
pub struct SyncedRegistry {
    pub biome: Vec<RegistryEntry>,
    pub chat_type: Vec<RegistryEntry>,
    pub wolf_variant: Vec<RegistryEntry>,
    pub painting_variant: Vec<RegistryEntry>,
    pub dimension_type: Vec<RegistryEntry>,
    pub damage_type: Vec<RegistryEntry>,
    pub cat_variant: Vec<RegistryEntry>,
    pub chicken_variant: Vec<RegistryEntry>,
    pub cow_variant: Vec<RegistryEntry>,
    pub frog_variant: Vec<RegistryEntry>,
    pub pig_variant: Vec<RegistryEntry>,
    pub wolf_sound_variant: Vec<RegistryEntry>,
    pub banner_pattern: Vec<RegistryEntry>,
    pub jukebox_song: Vec<RegistryEntry>,
}

/// The outgoing entries mirror the source category, key and payload alike.
pub open spec fn spec_entries_match(out: Seq<RegistryEntry>, src: Seq<RegistryEntry>) -> bool {
    &&& out.len() == src.len()
    &&& forall|t: int|
        0 <= t < src.len() ==> (#[trigger] out[t]).key@ == src[t].key@ && out[t].payload@
            == src[t].payload@
}

fn clone_entries(entries: &Vec<RegistryEntry>) -> (r: Vec<RegistryEntry>)
    ensures
        r@.len() == entries@.len(),
        forall|t: int|
            0 <= t < entries@.len() ==> (#[trigger] r@[t]).key@ == entries@[t].key@ && r@[t].payload@
                == entries@[t].payload@,
{
    let n: usize = entries.len();
    let mut out: Vec<RegistryEntry> = Vec::new();
    let mut i: usize = 0;
    while i < n
        invariant
            i <= n,
            n == entries@.len(),
            out@.len() == i,
            forall|t: int|
                0 <= t < i ==> (#[trigger] out@[t]).key@ == entries@[t].key@ && out@[t].payload@
                    == entries@[t].payload@,
        decreases n - i,
    {
        let key: String = entries[i].key.clone();
        let payload: Vec<u8> = clone_bytes(&entries[i].payload);
        out.push(RegistryEntry { key, payload });
        i = i + 1;
    }
    out
}

fn clone_bytes(v: &Vec<u8>) -> (r: Vec<u8>)
    ensures
        r@ == v@,
{
    let n: usize = v.len();
    let mut out: Vec<u8> = Vec::new();
    let mut i: usize = 0;
    while i < n
        invariant
            i <= n,
            n == v@.len(),
            out@ =~= v@.take(i as int),
        decreases n - i,
    {
        out.push(v[i]);
        proof {
            assert(out@ =~= v@.take(i + 1));
        }
        i = i + 1;
    }
    proof {
        assert(v@.take(n as int) =~= v@);
    }
    out
}

impl Registry {
    /// Builds the synchronized registries in the fixed wire order, each
    /// under its vanilla identifier, with the raw chat type appended to the
    /// chat types.
    pub fn get_synced(synced: &SyncedRegistry) -> (r: Vec<Registry>)
        ensures
            r@.len() == 14,
            r@[0].registry_id.path@ == "cat_variant"@,
            r@[1].registry_id.path@ == "chicken_variant"@,
            r@[2].registry_id.path@ == "cow_variant"@,
            r@[3].registry_id.path@ == "frog_variant"@,
            r@[4].registry_id.path@ == "pig_variant"@,
            r@[5].registry_id.path@ == "worldgen/biome"@,
            r@[6].registry_id.path@ == "chat_type"@,
            r@[7].registry_id.path@ == "wolf_variant"@,
            r@[8].registry_id.path@ == "painting_variant"@,
            r@[9].registry_id.path@ == "wolf_sound_variant"@,
            r@[10].registry_id.path@ == "dimension_type"@,
            r@[11].registry_id.path@ == "damage_type"@,
            r@[12].registry_id.path@ == "banner_pattern"@,
            r@[13].registry_id.path@ == "jukebox_song"@,
            forall|t: int| 0 <= t < 14 ==> (#[trigger] r@[t]).registry_id.namespace@
                == "minecraft"@,
            spec_entries_match(r@[0].registry_entries@, synced.cat_variant@),
            spec_entries_match(r@[1].registry_entries@, synced.chicken_variant@),
            spec_entries_match(r@[2].registry_entries@, synced.cow_variant@),
            spec_entries_match(r@[3].registry_entries@, synced.frog_variant@),
            spec_entries_match(r@[4].registry_entries@, synced.pig_variant@),
            spec_entries_match(r@[5].registry_entries@, synced.biome@),
            r@[6].registry_entries@.len() == synced.chat_type@.len() + 1,
            spec_entries_match(r@[6].registry_entries@.drop_last(), synced.chat_type@),
            r@[6].registry_entries@.last().key@ == "raw"@,
            r@[6].registry_entries@.last().payload@ == Seq::<u8>::empty(),
            spec_entries_match(r@[7].registry_entries@, synced.wolf_variant@),
            spec_entries_match(r@[8].registry_entries@, synced.painting_variant@),
            spec_entries_match(r@[9].registry_entries@, synced.wolf_sound_variant@),
            spec_entries_match(r@[10].registry_entries@, synced.dimension_type@),
            spec_entries_match(r@[11].registry_entries@, synced.damage_type@),
            spec_entries_match(r@[12].registry_entries@, synced.banner_pattern@),
            spec_entries_match(r@[13].registry_entries@, synced.jukebox_song@),
    {
        let mut chat_entries: Vec<RegistryEntry> = clone_entries(&synced.chat_type);
        let ghost cloned_chat = chat_entries@;
        // The raw chat type carries no compiled payload of its own; the
        // protocol layer encodes `ChatType::raw()` when it goes out.
        chat_entries.push(RegistryEntry { key: String::from_str("raw"), payload: Vec::new() });
        proof {
            assert(chat_entries@.drop_last() =~= cloned_chat);
        }

        let mut out: Vec<Registry> = Vec::new();
        out.push(
            Registry {
                registry_id: ResourceLocation::vanilla("cat_variant"),
                registry_entries: clone_entries(&synced.cat_variant),
            },
        );
        out.push(
            Registry {
                registry_id: ResourceLocation::vanilla("chicken_variant"),
                registry_entries: clone_entries(&synced.chicken_variant),
            },
        );
        out.push(
            Registry {
                registry_id: ResourceLocation::vanilla("cow_variant"),
                registry_entries: clone_entries(&synced.cow_variant),
            },
        );
        out.push(
            Registry {
                registry_id: ResourceLocation::vanilla("frog_variant"),
                registry_entries: clone_entries(&synced.frog_variant),
            },
        );
        out.push(
            Registry {
                registry_id: ResourceLocation::vanilla("pig_variant"),
                registry_entries: clone_entries(&synced.pig_variant),
            },
        );
        out.push(
            Registry {
                registry_id: ResourceLocation::vanilla("worldgen/biome"),
                registry_entries: clone_entries(&synced.biome),
            },
        );
        out.push(
            Registry {
                registry_id: ResourceLocation::vanilla("chat_type"),
                registry_entries: chat_entries,
            },
        );
        out.push(
            Registry {
                registry_id: ResourceLocation::vanilla("wolf_variant"),
                registry_entries: clone_entries(&synced.wolf_variant),
            },
        );
        out.push(
            Registry {
                registry_id: ResourceLocation::vanilla("painting_variant"),
                registry_entries: clone_entries(&synced.painting_variant),
            },
        );
        out.push(
            Registry {
                registry_id: ResourceLocation::vanilla("wolf_sound_variant"),
                registry_entries: clone_entries(&synced.wolf_sound_variant),
            },
        );
        out.push(
            Registry {
                registry_id: ResourceLocation::vanilla("dimension_type"),
                registry_entries: clone_entries(&synced.dimension_type),
            },
        );
        out.push(
            Registry {
                registry_id: ResourceLocation::vanilla("damage_type"),
                registry_entries: clone_entries(&synced.damage_type),
            },
        );
        out.push(
            Registry {
                registry_id: ResourceLocation::vanilla("banner_pattern"),
                registry_entries: clone_entries(&synced.banner_pattern),
            },
        );
        out.push(
            Registry {
                registry_id: ResourceLocation::vanilla("jukebox_song"),
                registry_entries: clone_entries(&synced.jukebox_song),
            },
        );
        out
    }
}

} // verus!
