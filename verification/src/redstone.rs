//! Redstone power queries.
//!
//! Pure read-only functions over the block grid: weak and strong power of a
//! cell toward a face, the maxima over the six neighbors, and the wire power
//! computation with its one-level diagonal reach and one-point attenuation
//! per hop. Every function is pinned to a specification mirror, so the
//! attenuation law below speaks about the same semantics the executable
//! engine has.

use vstd::prelude::*;

use crate::world::{
    spec_direction_at, spec_offset, spec_pos_in_bounds, Block, BlockPos, Direction, World,
};

verus! {

/// A slightly wider admission than [`spec_pos_in_bounds`]: positions one
/// step out from an engine query still allow their own neighbor offsets.
pub open spec fn spec_pos_near_bounds(p: BlockPos) -> bool {
    &&& -0x7FFF_FFFA <= p.x <= 0x7FFF_FFFA
    &&& -0x7FFF_FFFA <= p.y <= 0x7FFF_FFFA
    &&& -0x7FFF_FFFA <= p.z <= 0x7FFF_FFFA
}

/// Whether a block can emit power toward the cell that queries with `d`
/// at all: a capability of the block kind and its orientation, independent
/// of its current power. `d` points from the consumer to the emitter, so a
/// directional block emits when its facing points back along `d`.
pub open spec fn spec_emits(b: Block, d: Direction) -> bool {
    match b {
        Block::RedstoneWire(_) => true,
        Block::RedstoneBlock => true,
        Block::Repeater { facing, .. } => facing == d.spec_opposite(),
        Block::Observer { facing, .. } => facing == d.spec_opposite(),
        _ => false,
    }
}

/// The weak power a block yields toward `d` from its own state: wire feeds
/// upward and into its connected sides, directional blocks feed their
/// facing at full strength when powered, a power block feeds every side.
pub open spec fn spec_block_weak(b: Block, d: Direction) -> u8 {
    match b {
        Block::RedstoneWire(w) => {
            if d is Up || w.spec_connection(d.spec_opposite()).spec_is_connected() {
                w.power
            } else {
                0
            }
        },
        Block::RedstoneBlock => 15,
        Block::Repeater { facing, powered } => {
            if powered && facing == d.spec_opposite() {
                15
            } else {
                0
            }
        },
        Block::Observer { facing, powered } => {
            if powered && facing == d.spec_opposite() {
                15
            } else {
                0
            }
        },
        _ => 0,
    }
}

/// The strong power a block drives through a solid face toward `d`: as the
/// weak power, except that a power block activates only direct listeners.
pub open spec fn spec_block_strong(b: Block, d: Direction) -> u8 {
    match b {
        Block::RedstoneBlock => 0,
        _ => spec_block_weak(b, d),
    }
}

/// Weak power of the cell at `pos` toward `d`; with `dust_power` false, wire
/// contributes nothing, which keeps wire from feeding itself during shape
/// and power recomputation.
pub open spec fn spec_weak_power(w: World, pos: BlockPos, d: Direction, dust_power: bool) -> u8 {
    let b = w.spec_at(pos);
    if !dust_power && b is RedstoneWire {
        0
    } else {
        spec_block_weak(b, d)
    }
}

/// Strong power of the cell at `pos` toward `d`, with the same wire gate.
pub open spec fn spec_strong_power(w: World, pos: BlockPos, d: Direction, dust_power: bool) -> u8 {
    let b = w.spec_at(pos);
    if !dust_power && b is RedstoneWire {
        0
    } else {
        spec_block_strong(b, d)
    }
}

pub open spec fn spec_max_u8(a: u8, b: u8) -> u8 {
    if a > b {
        a
    } else {
        b
    }
}

/// Greatest strong power any of the first `n` canonical neighbors drives
/// into `pos`.
pub open spec fn spec_max_strong_upto(w: World, pos: BlockPos, dust_power: bool, n: int) -> u8
    decreases n,
{
    if n <= 0 {
        0
    } else {
        let d = spec_direction_at(n - 1);
        spec_max_u8(
            spec_max_strong_upto(w, pos, dust_power, n - 1),
            spec_strong_power(w, spec_offset(pos, d), d, dust_power),
        )
    }
}

/// Greatest weak power any of the first `n` canonical neighbors drives
/// into `pos`.
pub open spec fn spec_max_weak_upto(w: World, pos: BlockPos, dust_power: bool, n: int) -> u8
    decreases n,
{
    if n <= 0 {
        0
    } else {
        let d = spec_direction_at(n - 1);
        spec_max_u8(
            spec_max_weak_upto(w, pos, dust_power, n - 1),
            spec_weak_power(w, spec_offset(pos, d), d, dust_power),
        )
    }
}

/// Power readable at `pos` toward `facing`: a solid cell relays the
/// strongest strong power its neighbors drive into it, combined with its
/// own weak power; a non-solid cell yields its weak power alone.
pub open spec fn spec_redstone_power(
    w: World,
    pos: BlockPos,
    facing: Direction,
    dust_power: bool,
) -> u8 {
    if w.spec_at(pos).spec_is_solid() {
        spec_max_u8(
            spec_max_strong_upto(w, pos, dust_power, 6),
            spec_weak_power(w, pos, facing, dust_power),
        )
    } else {
        spec_weak_power(w, pos, facing, dust_power)
    }
}

/// The power level of a wire cell, or zero for any other block.
pub open spec fn spec_wire_level(w: World, pos: BlockPos) -> u8 {
    match w.spec_at(pos) {
        Block::RedstoneWire(props) => props.power,
        _ => 0,
    }
}

/// Greatest non-dust power any of the first `n` canonical neighbors feeds
/// into a wire at `pos`.
pub open spec fn spec_calc_block_upto(w: World, pos: BlockPos, n: int) -> u8
    decreases n,
{
    if n <= 0 {
        0
    } else {
        let d = spec_direction_at(n - 1);
        spec_max_u8(
            spec_calc_block_upto(w, pos, n - 1),
            spec_redstone_power(w, spec_offset(pos, d), d, false),
        )
    }
}

/// Wire power reaching a wire at `pos` from one canonical direction: the
/// neighbor wire itself, the wire diagonally up around a non-solid top, and
/// the wire diagonally down past a non-solid neighbor.
pub open spec fn spec_calc_wire_from(w: World, pos: BlockPos, d: Direction) -> u8 {
    let neighbor = spec_offset(pos, d);
    let direct = spec_wire_level(w, neighbor);
    if d.spec_is_horizontal() {
        let up_open = !w.spec_at(spec_offset(pos, Direction::Up)).spec_is_solid();
        let above = if up_open {
            spec_wire_level(w, spec_offset(neighbor, Direction::Up))
        } else {
            0
        };
        let neighbor_open = !w.spec_at(neighbor).spec_is_solid();
        let below = if neighbor_open {
            spec_wire_level(w, spec_offset(neighbor, Direction::Down))
        } else {
            0
        };
        spec_max_u8(direct, spec_max_u8(above, below))
    } else {
        direct
    }
}

/// Greatest wire power reaching a wire at `pos` from the first `n`
/// canonical directions.
pub open spec fn spec_calc_wire_upto(w: World, pos: BlockPos, n: int) -> u8
    decreases n,
{
    if n <= 0 {
        0
    } else {
        spec_max_u8(
            spec_calc_wire_upto(w, pos, n - 1),
            spec_calc_wire_from(w, pos, spec_direction_at(n - 1)),
        )
    }
}

pub open spec fn spec_sat_sub_one(x: u8) -> u8 {
    if x == 0 {
        0
    } else {
        (x - 1) as u8
    }
}

/// The power a wire at `pos` settles at: the strongest non-dust neighbor
/// power, or the strongest neighboring wire level less one hop, whichever
/// is greater.
pub open spec fn spec_calculate_power(w: World, pos: BlockPos) -> u8 {
    spec_max_u8(
        spec_calc_block_upto(w, pos, 6),
        spec_sat_sub_one(spec_calc_wire_upto(w, pos, 6)),
    )
}

/// Weak power of the cell at `pos` toward `d`.
pub fn get_weak_power(world: &World, pos: BlockPos, d: Direction, dust_power: bool) -> (r: u8)
    ensures
        r == spec_weak_power(*world, pos, d, dust_power),
{
    let b: Block = world.get_block(pos);
    if !dust_power && matches!(b, Block::RedstoneWire(_)) {
        return 0;
    }
    match b {
        Block::RedstoneWire(props) => {
            if matches!(d, Direction::Up) || props.is_side_connected(d.opposite()) {
                props.power
            } else {
                0
            }
        },
        Block::RedstoneBlock => 15,
        Block::Repeater { facing, powered } => {
            if powered && facing == d.opposite() {
                15
            } else {
                0
            }
        },
        Block::Observer { facing, powered } => {
            if powered && facing == d.opposite() {
                15
            } else {
                0
            }
        },
        _ => 0,
    }
}

/// Strong power of the cell at `pos` toward `d`.
pub fn get_strong_power(world: &World, pos: BlockPos, d: Direction, dust_power: bool) -> (r: u8)
    ensures
        r == spec_strong_power(*world, pos, d, dust_power),
{
    let b: Block = world.get_block(pos);
    if matches!(b, Block::RedstoneBlock) {
        return 0;
    }
    get_weak_power(world, pos, d, dust_power)
}

/// Greatest strong power any neighbor drives into `pos`.
pub fn get_max_strong_power(world: &World, pos: BlockPos, dust_power: bool) -> (r: u8)
    requires
        spec_pos_near_bounds(pos),
    ensures
        r == spec_max_strong_upto(*world, pos, dust_power, 6),
{
    let mut max_power: u8 = 0;
    let mut i: usize = 0;
    while i < 6
        invariant
            i <= 6,
            spec_pos_near_bounds(pos),
            max_power == spec_max_strong_upto(*world, pos, dust_power, i as int),
        decreases 6 - i,
    {
        let side: Direction = Direction::from_index(i);
        let p: u8 = get_strong_power(world, pos.offset(side), side, dust_power);
        if p > max_power {
            max_power = p;
        }
        i = i + 1;
    }
    max_power
}

/// Greatest weak power any neighbor drives into `pos`.
pub fn get_max_weak_power(world: &World, pos: BlockPos, dust_power: bool) -> (r: u8)
    requires
        spec_pos_near_bounds(pos),
    ensures
        r == spec_max_weak_upto(*world, pos, dust_power, 6),
{
    let mut max_power: u8 = 0;
    let mut i: usize = 0;
    while i < 6
        invariant
            i <= 6,
            spec_pos_near_bounds(pos),
            max_power == spec_max_weak_upto(*world, pos, dust_power, i as int),
        decreases 6 - i,
    {
        let side: Direction = Direction::from_index(i);
        let p: u8 = get_weak_power(world, pos.offset(side), side, dust_power);
        if p > max_power {
            max_power = p;
        }
        i = i + 1;
    }
    max_power
}

/// Power readable at `pos` toward `facing`, wire contributions included.
pub fn get_redstone_power(world: &World, pos: BlockPos, facing: Direction) -> (r: u8)
    requires
        spec_pos_near_bounds(pos),
    ensures
        r == spec_redstone_power(*world, pos, facing, true),
{
    let b: Block = world.get_block(pos);
    if b.is_solid() {
        let strong: u8 = get_max_strong_power(world, pos, true);
        let weak: u8 = get_weak_power(world, pos, facing, true);
        if strong > weak {
            return strong;
        }
        return weak;
    }
    get_weak_power(world, pos, facing, true)
}

/// Power readable at `pos` toward `facing` with wire contributions gated
/// out.
pub fn get_redstone_power_no_dust(world: &World, pos: BlockPos, facing: Direction) -> (r: u8)
    requires
        spec_pos_near_bounds(pos),
    ensures
        r == spec_redstone_power(*world, pos, facing, false),
{
    let b: Block = world.get_block(pos);
    if b.is_solid() {
        let strong: u8 = get_max_strong_power(world, pos, false);
        let weak: u8 = get_weak_power(world, pos, facing, false);
        if strong > weak {
            return strong;
        }
        return weak;
    }
    get_weak_power(world, pos, facing, false)
}

/// Whether the cell at `pos` currently emits any power toward `facing`.
pub fn is_emitting_redstone_power(world: &World, pos: BlockPos, facing: Direction) -> (r: bool)
    requires
        spec_pos_near_bounds(pos),
    ensures
        r == (spec_redstone_power(*world, pos, facing, true) > 0),
{
    get_redstone_power(world, pos, facing) > 0
}

/// Whether any neighbor feeds power into `pos`.
pub fn block_receives_redstone_power(world: &World, pos: BlockPos) -> (r: bool)
    requires
        spec_pos_in_bounds(pos),
    ensures
        r == exists|i: int|
            0 <= i < 6 && spec_redstone_power(
                *world,
                spec_offset(pos, #[trigger] spec_direction_at(i)),
                spec_direction_at(i),
                true,
            ) > 0,
{
    let mut i: usize = 0;
    while i < 6
        invariant
            i <= 6,
            spec_pos_in_bounds(pos),
            forall|k: int|
                0 <= k < i ==> spec_redstone_power(
                    *world,
                    spec_offset(pos, #[trigger] spec_direction_at(k)),
                    spec_direction_at(k),
                    true,
                ) == 0,
        decreases 6 - i,
    {
        let facing: Direction = Direction::from_index(i);
        let neighbor: BlockPos = pos.offset(facing);
        if is_emitting_redstone_power(world, neighbor, facing) {
            return true;
        }
        i = i + 1;
    }
    false
}

/// Whether the block is a diode-style gate. The closed block set models
/// the repeater only; a comparator variant would join this test when the
/// model grows one.
pub fn is_diode(b: &Block) -> (r: bool)
    ensures
        r == (*b is Repeater),
{
    matches!(b, Block::Repeater { .. })
}

/// Input strength a diode at `pos` reads from the cell behind it: the plain
/// power there, or the strongest weak neighbor power when the input cell is
/// an unpowered solid.
pub fn diode_get_input_strength(world: &World, pos: BlockPos, facing: Direction) -> (r: u8)
    requires
        spec_pos_in_bounds(pos),
        spec_pos_in_bounds(spec_offset(pos, facing)),
    ensures
        ({
            let input = spec_offset(pos, facing);
            let power = spec_redstone_power(*world, input, facing, true);
            if power == 0 && world.spec_at(input).spec_is_solid() {
                r == spec_max_weak_upto(*world, input, true, 6)
            } else {
                r == power
            }
        }),
{
    let input_pos: BlockPos = pos.offset(facing);
    let power: u8 = get_redstone_power(world, input_pos, facing);
    if power == 0 && world.get_block(input_pos).is_solid() {
        return get_max_weak_power(world, input_pos, true);
    }
    power
}

/// The power level a wire at `pos` recomputes for itself.
pub fn calculate_power(world: &World, pos: BlockPos) -> (r: u8)
    requires
        spec_pos_in_bounds(pos),
    ensures
        r == spec_calculate_power(*world, pos),
{
    let mut block_power: u8 = 0;
    let mut wire_power: u8 = 0;

    let up_pos: BlockPos = pos.offset(Direction::Up);
    let up_solid: bool = world.get_block(up_pos).is_solid();

    let mut i: usize = 0;
    while i < 6
        invariant
            i <= 6,
            spec_pos_in_bounds(pos),
            up_solid == world.spec_at(spec_offset(pos, Direction::Up)).spec_is_solid(),
            block_power == spec_calc_block_upto(*world, pos, i as int),
            wire_power == spec_calc_wire_upto(*world, pos, i as int),
        decreases 6 - i,
    {
        let side: Direction = Direction::from_index(i);
        let neighbor_pos: BlockPos = pos.offset(side);

        let direct: u8 = wire_level(world, neighbor_pos);
        if direct > wire_power {
            wire_power = direct;
        }

        let bp: u8 = get_redstone_power_no_dust(world, neighbor_pos, side);
        if bp > block_power {
            block_power = bp;
        }

        if side.is_horizontal() {
            if !up_solid {
                let above: u8 = wire_level(world, neighbor_pos.offset(Direction::Up));
                if above > wire_power {
                    wire_power = above;
                }
            }
            if !world.get_block(neighbor_pos).is_solid() {
                let below: u8 = wire_level(world, neighbor_pos.offset(Direction::Down));
                if below > wire_power {
                    wire_power = below;
                }
            }
        }
        i = i + 1;
    }

    let attenuated: u8 = wire_power.saturating_sub(1);
    if block_power > attenuated {
        block_power
    } else {
        attenuated
    }
}

/// The power level of a wire cell, or zero otherwise.
fn wire_level(world: &World, pos: BlockPos) -> (r: u8)
    ensures
        r == spec_wire_level(*world, pos),
{
    match world.get_block(pos) {
        Block::RedstoneWire(props) => props.power,
        _ => 0,
    }
}


/// The cell `i` steps east of `origin`.
pub open spec fn spec_line_pos(origin: BlockPos, i: int) -> BlockPos {
    BlockPos { x: (origin.x + i) as i32, y: origin.y, z: origin.z }
}

/// Whether `q` lies on the eastward line of length `n + 1` from `origin`.
pub open spec fn spec_on_line(origin: BlockPos, n: int, q: BlockPos) -> bool {
    &&& q.y == origin.y
    &&& q.z == origin.z
    &&& origin.x <= q.x <= origin.x + n
}

/// The settled power of the wire `i` hops from a full-strength source.
pub open spec fn spec_line_power(i: int) -> u8 {
    if i >= 15 {
        0
    } else if i <= 0 {
        15
    } else {
        (15 - i) as u8
    }
}

/// Power attenuation along a straight wire line: with the cell at the
/// origin held at full strength and each cell `i` hops away at
/// `max(0, 15 - i)`, recomputing any interior cell reproduces exactly its
/// held level, one point lower per hop and clamped at zero. The settled
/// line is a fixpoint of the power computation.
pub proof fn lemma_wire_line_attenuation(w: World, origin: BlockPos, n: int, d: int)
    requires
        w.wf(),
        1 <= d <= n,
        spec_pos_in_bounds(origin),
        origin.x + n + 1 <= 0x7FFF_FFF0,
        // The world holds the line and nothing else: wire with the settled
        // level on the line, air everywhere off it.
        forall|q: BlockPos|
            spec_on_line(origin, n, q) ==> ((#[trigger] w.spec_at(q)) matches
            Block::RedstoneWire(p) && p.power == spec_line_power(q.x - origin.x)),
        forall|q: BlockPos|
            !spec_on_line(origin, n, q) ==> (#[trigger] w.spec_at(q)) == Block::Air,
    ensures
        spec_calculate_power(w, spec_line_pos(origin, d)) == spec_line_power(d),
{
    let pos = spec_line_pos(origin, d);
    let east = spec_offset(pos, Direction::East);
    let west = spec_offset(pos, Direction::West);
    let north = spec_offset(pos, Direction::North);
    let south = spec_offset(pos, Direction::South);
    let up = spec_offset(pos, Direction::Up);
    let down = spec_offset(pos, Direction::Down);

    assert(east == spec_line_pos(origin, d + 1));
    assert(west == spec_line_pos(origin, d - 1));
    assert(spec_on_line(origin, n, west));
    assert(!spec_on_line(origin, n, north));
    assert(!spec_on_line(origin, n, south));
    assert(!spec_on_line(origin, n, up));
    assert(!spec_on_line(origin, n, down));

    // Block levels read by the walk.
    assert(w.spec_at(north) == Block::Air);
    assert(w.spec_at(south) == Block::Air);
    assert(w.spec_at(up) == Block::Air);
    assert(w.spec_at(down) == Block::Air);
    assert(w.spec_at(west) is RedstoneWire);
    assert(spec_wire_level(w, west) == spec_line_power(d - 1));
    if d < n {
        assert(spec_on_line(origin, n, east));
        assert(spec_wire_level(w, east) == spec_line_power(d + 1));
    } else {
        assert(!spec_on_line(origin, n, east));
        assert(w.spec_at(east) == Block::Air);
        assert(spec_wire_level(w, east) == 0);
    }

    // No neighbor feeds non-dust power into the line: every neighbor is
    // air or wire, neither of which is solid or emits with dust gated out.
    assert forall|k: int| 0 <= k < 6 implies spec_redstone_power(
        w,
        spec_offset(pos, #[trigger] spec_direction_at(k)),
        spec_direction_at(k),
        false,
    ) == 0 by {
        let dir = spec_direction_at(k);
        let nb = spec_offset(pos, dir);
        assert(nb == north || nb == south || nb == east || nb == west || nb == up || nb == down);
        assert(!w.spec_at(nb).spec_is_solid());
        assert(spec_weak_power(w, nb, dir, false) == 0);
    }
    assert(spec_calc_block_upto(w, pos, 0) == 0);
    assert(spec_calc_block_upto(w, pos, 1) == 0);
    assert(spec_calc_block_upto(w, pos, 2) == 0);
    assert(spec_calc_block_upto(w, pos, 3) == 0);
    assert(spec_calc_block_upto(w, pos, 4) == 0);
    assert(spec_calc_block_upto(w, pos, 5) == 0);
    assert(spec_calc_block_upto(w, pos, 6) == 0);

    // Wire power reaching the cell: only the two line neighbors matter;
    // every diagonal cell is off the line and reads as air.
    assert forall|k: int| 0 <= k < 6 implies spec_calc_wire_from(
        w,
        pos,
        #[trigger] spec_direction_at(k),
    ) == spec_line_level_from(w, origin, n, d, spec_direction_at(k)) by {
        let dir = spec_direction_at(k);
        let nb = spec_offset(pos, dir);
        if dir.spec_is_horizontal() {
            assert(!spec_on_line(origin, n, spec_offset(nb, Direction::Up)));
            assert(!spec_on_line(origin, n, spec_offset(nb, Direction::Down)));
            assert(spec_wire_level(w, spec_offset(nb, Direction::Up)) == 0);
            assert(spec_wire_level(w, spec_offset(nb, Direction::Down)) == 0);
        }
    }
    assert(spec_calc_wire_upto(w, pos, 0) == 0);
    assert(spec_calc_wire_from(w, pos, spec_direction_at(0)) == 0);
    assert(spec_calc_wire_upto(w, pos, 1) == 0);
    assert(spec_calc_wire_upto(w, pos, 2) == 0);
    assert(spec_calc_wire_upto(w, pos, 3) == 0);
    assert(spec_calc_wire_upto(w, pos, 4) == 0);
    assert(spec_calc_wire_upto(w, pos, 5) == spec_line_power(d - 1));
    assert(spec_calc_wire_upto(w, pos, 6) == spec_max_u8(
        spec_line_power(d - 1),
        spec_wire_level(w, east),
    ));
    assert(spec_calc_wire_upto(w, pos, 6) == spec_line_power(d - 1));
    assert(spec_sat_sub_one(spec_line_power(d - 1)) == spec_line_power(d));
}

/// The wire level one canonical direction contributes on the line world:
/// the west and east line neighbors, nothing elsewhere.
pub open spec fn spec_line_level_from(
    w: World,
    origin: BlockPos,
    n: int,
    d: int,
    dir: Direction,
) -> u8 {
    if dir is West {
        spec_line_power(d - 1)
    } else if dir is East {
        spec_wire_level(w, spec_offset(spec_line_pos(origin, d), Direction::East))
    } else {
        0
    }
}

} // verus!
