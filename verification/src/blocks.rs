//! Block and item behaviour carriers, and the pure decision rules their
//! asynchronous handlers evaluate: what a use action reports back, when a
//! lamp toggles, how a composter level moves, when a bed may be slept in,
//! and which items refuse to mine in creative mode.

use vstd::prelude::*;

use crate::item::GameMode;

verus! {

/// The outcome of a block use action.
pub enum BlockActionResult {
    /// Action was successful.
    Success,
    /// Action was successful and the server swings the hand.
    SuccessServer,
    /// Block other actions from being executed.
    Consume,
    /// Allow other actions to be executed, but indicate it failed.
    Fail,
    /// Allow other actions to be executed.
    Pass,
    /// Use the block's default action.
    PassToDefaultBlockAction,
}

impl BlockActionResult {
    /// Whether the action ends the interaction.
    pub fn consumes_action(&self) -> (r: bool)
        ensures
            r == (*self is Consume || *self is Success || *self is SuccessServer),
    {
        matches!(
            self,
            BlockActionResult::Consume | BlockActionResult::Success
                | BlockActionResult::SuccessServer
        )
    }
}

/// Behaviour carrier for beds.
pub struct BedBlock;

/// Behaviour carrier for composters.
pub struct ComposterBlock;

/// Behaviour carrier for iron bars.
pub struct IronBarsBlock;

/// Whether iron bars (or a pane-like block) connect toward a neighbor: to
/// another block of the same kind, to a solid facing side, or to anything
/// tagged as a glass pane or a wall.
pub fn bars_side_connected(
    same_block: bool,
    side_solid: bool,
    glass_pane_tagged: bool,
    wall_tagged: bool,
) -> (r: bool)
    ensures
        r == (same_block || side_solid || glass_pane_tagged || wall_tagged),
{
    same_block || side_solid || glass_pane_tagged || wall_tagged
}

/// Behaviour carrier for detector rails.
pub struct DetectorRailBlock;

/// Behaviour carrier for redstone lamps.
pub struct RedstoneLamp;

/// Behaviour carrier for redstone wire.
pub struct RedstoneWireBlock;

/// Behaviour carrier for fire charges.
pub struct FireChargeItem;

/// Behaviour carrier for maces.
pub struct MaceItem;

/// Behaviour carrier for snowballs.
pub struct SnowBallItem;

/// Behaviour carrier for swords.
pub struct SwordItem;

/// Behaviour carrier for tridents.
pub struct TridentItem;

/// Melee tools refuse to mine for creative-mode players, so a swing does
/// not break blocks.
pub fn melee_can_mine(gamemode: GameMode) -> (r: bool)
    ensures
        r == (gamemode != GameMode::Creative),
{
    !matches!(gamemode, GameMode::Creative)
}

/// Whether an entity type keeps players from sleeping; the identifier list
/// comes from the data layer.
pub fn entity_prevents_sleep(no_sleep_ids: &Vec<u16>, entity_type_id: u16) -> (r: bool)
    ensures
        r == no_sleep_ids@.contains(entity_type_id),
{
    let n: usize = no_sleep_ids.len();
    let mut i: usize = 0;
    while i < n
        invariant
            i <= n,
            n == no_sleep_ids@.len(),
            forall|t: int| 0 <= t < i ==> no_sleep_ids@[t] != entity_type_id,
        decreases n - i,
    {
        if no_sleep_ids[i] == entity_type_id {
            return true;
        }
        i = i + 1;
    }
    false
}

/// Whether the time of day and the weather allow sleeping: always in a
/// thunderstorm, earlier in the evening when raining, and at night
/// otherwise.
pub fn can_sleep(thundering: bool, raining: bool, time_of_day: u32) -> (r: bool)
    ensures
        r == if thundering {
            true
        } else if raining {
            12010 < time_of_day < 23991
        } else {
            12542 < time_of_day < 23459
        },
{
    if thundering {
        true
    } else if raining {
        time_of_day > 12010 && time_of_day < 23991
    } else {
        time_of_day > 12542 && time_of_day < 23459
    }
}

/// What a redstone lamp does when a neighbor changes.
#[derive(Clone, Copy, Debug, PartialEq, Eq, Structural)]
pub enum LampAction {
    /// Light up immediately.
    TurnOn,
    /// Schedule the delayed turn-off tick.
    ScheduleTurnOff,
    /// Leave the lamp as it is.
    Keep,
}

/// The lamp's neighbor-update rule: an unlit lamp receiving power lights
/// immediately; a lit lamp losing power turns off only after a scheduled
/// delay.
pub fn lamp_neighbor_update_action(lit: bool, receiving_power: bool) -> (r: LampAction)
    ensures
        lit == receiving_power ==> r == LampAction::Keep,
        !lit && receiving_power ==> r == LampAction::TurnOn,
        lit && !receiving_power ==> r == LampAction::ScheduleTurnOff,
{
    if lit != receiving_power {
        if lit {
            LampAction::ScheduleTurnOff
        } else {
            LampAction::TurnOn
        }
    } else {
        LampAction::Keep
    }
}

/// The lamp's scheduled-tick rule: it goes dark only when still unpowered
/// when the delayed tick fires.
pub fn lamp_scheduled_tick_turns_off(lit: bool, receiving_power: bool) -> (r: bool)
    ensures
        r == (lit && !receiving_power),
{
    lit && !receiving_power
}

/// The packed property set of a composter: its fill level.
#[derive(Clone, Copy, Debug, PartialEq, Eq, Structural)]
pub struct ComposterLikeProperties {
    pub level: u8,
}

/// Access to a composter's fill level as a plain number.
pub trait ComposterPropertiesEx {
    fn get_level(&self) -> (r: u8);

    fn set_level(&mut self, level: u8);
}

impl ComposterPropertiesEx for ComposterLikeProperties {
    fn get_level(&self) -> (r: u8)
        ensures
            r == self.level,
    {
        self.level
    }

    fn set_level(&mut self, level: u8)
        ensures
            final(self).level == level,
    {
        self.level = level;
    }
}

/// Whether feeding an item raises the composter level: never at the ready
/// level or above, always on the first layer, and otherwise only when the
/// compost chance roll succeeded.
pub fn composter_should_increase(level: u8, compostable: bool, roll_succeeded: bool) -> (r: bool)
    ensures
        r == (level < 7 && compostable && (level == 0 || roll_succeeded)),
{
    level < 7 && compostable && (level == 0 || roll_succeeded)
}

/// Whether raising the composter to `level` schedules the ripening tick.
pub fn composter_schedules_ready_tick(level: u8) -> (r: bool)
    ensures
        r == (level == 7),
{
    level == 7
}

/// The comparator signal a composter emits: its fill level.
pub fn composter_comparator_output(props: &ComposterLikeProperties) -> (r: u8)
    ensures
        r == props.level,
{
    props.level
}

/// Whether a use action empties the composter: only when full of compost.
pub fn composter_use_clears(level: u8) -> (r: bool)
    ensures
        r == (level == 8),
{
    level == 8
}


/// How a click on a bed resolves, checked in the game's fixed order: beds
/// explode outside the overworld, then obstruction, occupancy, reach, the
/// time-and-weather window, and nearby monsters each turn the attempt away
/// before the player finally sleeps.
#[derive(Clone, Copy, Debug, PartialEq, Eq, Structural)]
pub enum BedUseOutcome {
    /// Outside the overworld the bed is destroyed and explodes.
    Explodes,
    /// The block above the head is solid.
    Obstructed,
    /// Someone already sleeps here.
    Occupied,
    /// The player stands too far from either half.
    TooFarAway,
    /// The time of day or the weather forbids sleep.
    NoSleep,
    /// A monster prowls near the bed.
    NotSafe,
    /// The player lies down and the bed becomes occupied.
    Sleep,
}

/// The decision chain of a bed use; the world checks feed in as plain
/// findings, in the order the game evaluates them.
pub fn bed_use_outcome(
    in_overworld: bool,
    head_obstructed: bool,
    occupied: bool,
    within_reach: bool,
    sleep_allowed: bool,
    monsters_nearby: bool,
) -> (r: BedUseOutcome)
    ensures
        r == if !in_overworld {
            BedUseOutcome::Explodes
        } else if head_obstructed {
            BedUseOutcome::Obstructed
        } else if occupied {
            BedUseOutcome::Occupied
        } else if !within_reach {
            BedUseOutcome::TooFarAway
        } else if !sleep_allowed {
            BedUseOutcome::NoSleep
        } else if monsters_nearby {
            BedUseOutcome::NotSafe
        } else {
            BedUseOutcome::Sleep
        },
{
    if !in_overworld {
        BedUseOutcome::Explodes
    } else if head_obstructed {
        BedUseOutcome::Obstructed
    } else if occupied {
        BedUseOutcome::Occupied
    } else if !within_reach {
        BedUseOutcome::TooFarAway
    } else if !sleep_allowed {
        BedUseOutcome::NoSleep
    } else if monsters_nearby {
        BedUseOutcome::NotSafe
    } else {
        BedUseOutcome::Sleep
    }
}

} // verus!
