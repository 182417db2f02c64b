//! Redstone wire shape regulation and neighbor updates.
//!
//! A wire's four horizontal connections are recomputed from its
//! neighborhood: a side connects to blocks that accept connections, or
//! diagonally around a non-solid corner. The isolated-axis rule then forces
//! a straight-through look when exactly one axis is disconnected, and a
//! fully isolated wire is placed as a full cross rather than a dot.

use vstd::prelude::*;

use crate::redstone::{calculate_power, spec_calculate_power, spec_emits};
use crate::world::{
    spec_direction_at, spec_offset, spec_pos_in_bounds, Block, BlockPos, Direction, WireConnection,
    WireProperties, World,
};

verus! {

/// Whether a wire may connect sideways into this block when looking in
/// direction `side`: anything that can emit toward the wire, a diode on
/// either end of its axis, an observer whose output face meets the wire,
/// or another wire.
pub open spec fn spec_can_connect_to(b: Block, side: Direction) -> bool {
    ||| spec_emits(b, side)
    ||| match b {
        Block::Repeater { facing, .. } => facing == side || facing == side.spec_opposite(),
        Block::Observer { facing, .. } => facing == side.spec_opposite(),
        Block::RedstoneWire(_) => true,
        _ => false,
    }
}

/// Whether a wire may connect diagonally into this block.
pub open spec fn spec_can_connect_diagonal_to(b: Block) -> bool {
    b is RedstoneWire
}

/// The connection a wire at `pos` forms on `side`: directly into the
/// neighbor, upward around a non-solid top corner, or sideways down past a
/// non-solid neighbor.
pub open spec fn spec_get_side(w: World, pos: BlockPos, side: Direction) -> WireConnection {
    let neighbor = spec_offset(pos, side);
    let nb = w.spec_at(neighbor);
    if spec_can_connect_to(nb, side) {
        WireConnection::Side
    } else if !w.spec_at(spec_offset(pos, Direction::Up)).spec_is_solid()
        && spec_can_connect_diagonal_to(w.spec_at(spec_offset(neighbor, Direction::Up))) {
        WireConnection::Up
    } else if !nb.spec_is_solid() && spec_can_connect_diagonal_to(
        w.spec_at(spec_offset(neighbor, Direction::Down)),
    ) {
        WireConnection::Side
    } else {
        WireConnection::Unconnected
    }
}

/// All four connections recomputed from the neighborhood; power kept.
pub open spec fn spec_all_sides(w: World, pos: BlockPos, wire: WireProperties) -> WireProperties {
    WireProperties {
        north: spec_get_side(w, pos, Direction::North),
        south: spec_get_side(w, pos, Direction::South),
        east: spec_get_side(w, pos, Direction::East),
        west: spec_get_side(w, pos, Direction::West),
        power: wire.power,
    }
}

pub open spec fn spec_is_dot(wire: WireProperties) -> bool {
    &&& wire.north is Unconnected
    &&& wire.south is Unconnected
    &&& wire.east is Unconnected
    &&& wire.west is Unconnected
}

pub open spec fn spec_is_cross(wire: WireProperties) -> bool {
    &&& wire.north is Side
    &&& wire.south is Side
    &&& wire.east is Side
    &&& wire.west is Side
}

pub open spec fn spec_make_cross(power: u8) -> WireProperties {
    WireProperties {
        north: WireConnection::Side,
        south: WireConnection::Side,
        east: WireConnection::Side,
        west: WireConnection::Side,
        power,
    }
}

/// The isolated-axis rule: when one horizontal axis is entirely
/// disconnected, both of its ends are forced to side connections, so a
/// mid-line wire renders straight through instead of as a dot.
pub open spec fn spec_force_isolated_axes(s: WireProperties) -> WireProperties {
    let north_none = !s.north.spec_is_connected();
    let south_none = !s.south.spec_is_connected();
    let east_none = !s.east.spec_is_connected();
    let west_none = !s.west.spec_is_connected();
    let ns_none = north_none && south_none;
    let ew_none = east_none && west_none;
    WireProperties {
        north: if north_none && ew_none {
            WireConnection::Side
        } else {
            s.north
        },
        south: if south_none && ew_none {
            WireConnection::Side
        } else {
            s.south
        },
        east: if east_none && ns_none {
            WireConnection::Side
        } else {
            s.east
        },
        west: if west_none && ns_none {
            WireConnection::Side
        } else {
            s.west
        },
        power: s.power,
    }
}

/// The regulated shape: sides recomputed from the world, then, unless the
/// wire was and stays a dot, the isolated-axis rule applied.
pub open spec fn spec_regulated_sides(w: World, pos: BlockPos, wire: WireProperties)
    -> WireProperties {
    let s = spec_all_sides(w, pos, wire);
    if spec_is_dot(wire) && spec_is_dot(s) {
        s
    } else {
        spec_force_isolated_axes(s)
    }
}

/// The state a freshly placed wire takes: recomputed power, regulated
/// sides, and a full cross whenever regulation leaves it a dot.
pub open spec fn spec_placement_state(w: World, pos: BlockPos) -> WireProperties {
    let power = spec_calculate_power(w, pos);
    let wire = WireProperties {
        north: WireConnection::Unconnected,
        south: WireConnection::Unconnected,
        east: WireConnection::Unconnected,
        west: WireConnection::Unconnected,
        power,
    };
    let regulated = spec_regulated_sides(w, pos, wire);
    if spec_is_dot(regulated) {
        spec_make_cross(power)
    } else {
        regulated
    }
}

/// Whether a wire can sit at `pos`: the floor below must have a solid top.
pub fn can_place_at(world: &World, pos: BlockPos) -> (r: bool)
    requires
        spec_pos_in_bounds(pos),
    ensures
        r == world.spec_at(spec_offset(pos, Direction::Down)).spec_is_side_solid(Direction::Up),
{
    let floor: Block = world.get_block(pos.down());
    floor.is_side_solid(Direction::Up)
}

/// A full cross of the given power.
pub fn make_cross(power: u8) -> (r: WireProperties)
    ensures
        r == spec_make_cross(power),
        spec_is_cross(r),
{
    WireProperties {
        north: WireConnection::Side,
        south: WireConnection::Side,
        east: WireConnection::Side,
        west: WireConnection::Side,
        power,
    }
}

/// Whether all four connections are absent.
pub fn is_dot(wire: WireProperties) -> (r: bool)
    ensures
        r == spec_is_dot(wire),
{
    wire.north.is_none() && wire.south.is_none() && wire.east.is_none() && wire.west.is_none()
}

/// Whether all four connections are side connections.
pub fn is_cross(wire: WireProperties) -> (r: bool)
    ensures
        r == spec_is_cross(wire),
{
    matches!(wire.north, WireConnection::Side) && matches!(wire.south, WireConnection::Side)
        && matches!(wire.east, WireConnection::Side) && matches!(wire.west, WireConnection::Side)
}

fn can_connect_to(b: &Block, side: Direction) -> (r: bool)
    ensures
        r == spec_can_connect_to(*b, side),
{
    match b {
        Block::RedstoneWire(_) => true,
        Block::RedstoneBlock => true,
        Block::Repeater { facing, .. } => *facing == side || *facing == side.opposite(),
        Block::Observer { facing, .. } => *facing == side.opposite(),
        _ => false,
    }
}

fn can_connect_diagonal_to(b: &Block) -> (r: bool)
    ensures
        r == spec_can_connect_diagonal_to(*b),
{
    matches!(b, Block::RedstoneWire(_))
}

/// The connection a wire at `pos` forms on `side`.
pub fn get_side(world: &World, pos: BlockPos, side: Direction) -> (r: WireConnection)
    requires
        spec_pos_in_bounds(pos),
    ensures
        r == spec_get_side(*world, pos, side),
{
    let neighbor_pos: BlockPos = pos.offset(side);
    let neighbor: Block = world.get_block(neighbor_pos);

    if can_connect_to(&neighbor, side) {
        return WireConnection::Side;
    }

    let up_state: Block = world.get_block(pos.offset(Direction::Up));
    if !up_state.is_solid() && can_connect_diagonal_to(
        &world.get_block(neighbor_pos.offset(Direction::Up)),
    ) {
        WireConnection::Up
    } else if !neighbor.is_solid() && can_connect_diagonal_to(
        &world.get_block(neighbor_pos.offset(Direction::Down)),
    ) {
        WireConnection::Side
    } else {
        WireConnection::Unconnected
    }
}

/// All four connections recomputed from the world.
pub fn get_all_sides(wire: WireProperties, world: &World, pos: BlockPos) -> (r: WireProperties)
    requires
        spec_pos_in_bounds(pos),
    ensures
        r == spec_all_sides(*world, pos, wire),
{
    WireProperties {
        north: get_side(world, pos, Direction::North),
        south: get_side(world, pos, Direction::South),
        east: get_side(world, pos, Direction::East),
        west: get_side(world, pos, Direction::West),
        power: wire.power,
    }
}

/// The regulated shape of a wire at `pos`.
pub fn get_regulated_sides(wire: WireProperties, world: &World, pos: BlockPos) -> (r:
    WireProperties)
    requires
        spec_pos_in_bounds(pos),
    ensures
        r == spec_regulated_sides(*world, pos, wire),
        r.power == wire.power,
{
    let state: WireProperties = get_all_sides(wire, world, pos);
    if is_dot(wire) && is_dot(state) {
        return state;
    }
    let north_none: bool = state.north.is_none();
    let south_none: bool = state.south.is_none();
    let east_none: bool = state.east.is_none();
    let west_none: bool = state.west.is_none();
    let north_south_none: bool = north_none && south_none;
    let east_west_none: bool = east_none && west_none;
    let mut out: WireProperties = state;
    if north_none && east_west_none {
        out.north = WireConnection::Side;
    }
    if south_none && east_west_none {
        out.south = WireConnection::Side;
    }
    if east_none && north_south_none {
        out.east = WireConnection::Side;
    }
    if west_none && north_south_none {
        out.west = WireConnection::Side;
    }
    out
}

/// The state a freshly placed wire takes at `pos`.
pub fn wire_state_for_placement(world: &World, pos: BlockPos) -> (r: WireProperties)
    requires
        world.wf(),
        spec_pos_in_bounds(pos),
    ensures
        r == spec_placement_state(*world, pos),
        !spec_is_dot(r),
        r.wf(),
{
    let power: u8 = calculate_power(world, pos);
    proof {
        lemma_calculate_power_bounded(*world, pos);
    }
    let wire: WireProperties = WireProperties::with_power(power);
    let regulated: WireProperties = get_regulated_sides(wire, world, pos);
    if is_dot(regulated) {
        make_cross(power)
    } else {
        regulated
    }
}

/// The wire state after a neighbor update arrives from `direction`: above,
/// nothing changes; below, the shape is re-regulated; sideways, the touched
/// side is recomputed, the shape re-regulated, and the dot and cross rules
/// applied as on placement.
pub fn get_state_for_neighbor_update(
    world: &World,
    pos: BlockPos,
    wire: WireProperties,
    direction: Direction,
) -> (r: WireProperties)
    requires
        spec_pos_in_bounds(pos),
    ensures
        r == spec_neighbor_update_state(*world, pos, wire, direction),
        r.power == wire.power,
{
    match direction {
        Direction::Up => wire,
        Direction::Down => get_regulated_sides(wire, world, pos),
        _ => {
            let side: WireConnection = get_side(world, pos, direction);
            let mut touched: WireProperties = wire;
            match direction {
                Direction::North => touched.north = side,
                Direction::South => touched.south = side,
                Direction::East => touched.east = side,
                Direction::West => touched.west = side,
                _ => {},
            }
            let regulated: WireProperties = get_regulated_sides(touched, world, pos);
            if is_cross(wire) && side.is_none() {
                return regulated;
            }
            if !is_dot(wire) && is_dot(regulated) {
                return make_cross(regulated.power);
            }
            regulated
        },
    }
}

/// Specification mirror of [`get_state_for_neighbor_update`].
pub open spec fn spec_neighbor_update_state(
    w: World,
    pos: BlockPos,
    wire: WireProperties,
    direction: Direction,
) -> WireProperties {
    match direction {
        Direction::Up => wire,
        Direction::Down => spec_regulated_sides(w, pos, wire),
        _ => {
            let side = spec_get_side(w, pos, direction);
            let touched = match direction {
                Direction::North => WireProperties { north: side, ..wire },
                Direction::South => WireProperties { south: side, ..wire },
                Direction::East => WireProperties { east: side, ..wire },
                _ => WireProperties { west: side, ..wire },
            };
            let regulated = spec_regulated_sides(w, pos, touched);
            if spec_is_cross(wire) && !side.spec_is_connected() {
                regulated
            } else if !spec_is_dot(wire) && spec_is_dot(regulated) {
                spec_make_cross(regulated.power)
            } else {
                regulated
            }
        },
    }
}

/// A recomputed wire level never exceeds the redstone maximum.
pub proof fn lemma_calculate_power_bounded(w: World, pos: BlockPos)
    requires
        w.wf(),
    ensures
        spec_calculate_power(w, pos) <= 15,
{
    lemma_calc_block_upto_bounded(w, pos, 6);
    lemma_calc_wire_upto_bounded(w, pos, 6);
}

proof fn lemma_block_weak_bounded(w: World, pos: BlockPos, d: Direction)
    requires
        w.wf(),
    ensures
        crate::redstone::spec_block_weak(w.spec_at(pos), d) <= 15,
        crate::redstone::spec_block_strong(w.spec_at(pos), d) <= 15,
{
    lemma_at_wf(w, pos);
}

/// Every block read from a well-formed world is itself well-formed; absent
/// cells read as air, which is trivially well-formed.
pub proof fn lemma_at_wf(w: World, pos: BlockPos)
    requires
        w.wf(),
    ensures
        w.spec_at(pos).wf(),
{
    lemma_lookup_wf(w.cells@, pos);
}

proof fn lemma_lookup_wf(cells: Seq<(BlockPos, Block)>, pos: BlockPos)
    requires
        forall|i: int| 0 <= i < cells.len() ==> (#[trigger] cells[i]).1.wf(),
    ensures
        crate::world::spec_lookup(cells, pos).wf(),
    decreases cells.len(),
{
    if cells.len() > 0 {
        assert(cells[0] == cells.first());
        if cells.first().0 != pos {
            assert(forall|i: int|
                0 <= i < cells.drop_first().len() ==> (#[trigger] cells.drop_first()[i]).1.wf());
            lemma_lookup_wf(cells.drop_first(), pos);
        }
    }
}

proof fn lemma_strong_weak_bounded(w: World, pos: BlockPos, d: Direction, dust: bool)
    requires
        w.wf(),
    ensures
        crate::redstone::spec_weak_power(w, pos, d, dust) <= 15,
        crate::redstone::spec_strong_power(w, pos, d, dust) <= 15,
{
    lemma_block_weak_bounded(w, pos, d);
}

proof fn lemma_max_strong_upto_bounded(w: World, pos: BlockPos, dust: bool, n: int)
    requires
        w.wf(),
        n <= 6,
    ensures
        crate::redstone::spec_max_strong_upto(w, pos, dust, n) <= 15,
    decreases n,
{
    if n > 0 {
        lemma_max_strong_upto_bounded(w, pos, dust, n - 1);
        lemma_strong_weak_bounded(
            w,
            spec_offset(pos, crate::world::spec_direction_at(n - 1)),
            crate::world::spec_direction_at(n - 1),
            dust,
        );
    }
}

proof fn lemma_redstone_power_bounded(w: World, pos: BlockPos, d: Direction, dust: bool)
    requires
        w.wf(),
    ensures
        crate::redstone::spec_redstone_power(w, pos, d, dust) <= 15,
{
    lemma_max_strong_upto_bounded(w, pos, dust, 6);
    lemma_strong_weak_bounded(w, pos, d, dust);
}

proof fn lemma_wire_level_bounded(w: World, pos: BlockPos)
    requires
        w.wf(),
    ensures
        crate::redstone::spec_wire_level(w, pos) <= 15,
{
    lemma_at_wf(w, pos);
}

proof fn lemma_calc_block_upto_bounded(w: World, pos: BlockPos, n: int)
    requires
        w.wf(),
        n <= 6,
    ensures
        crate::redstone::spec_calc_block_upto(w, pos, n) <= 15,
    decreases n,
{
    if n > 0 {
        lemma_calc_block_upto_bounded(w, pos, n - 1);
        lemma_redstone_power_bounded(
            w,
            spec_offset(pos, crate::world::spec_direction_at(n - 1)),
            crate::world::spec_direction_at(n - 1),
            false,
        );
    }
}

proof fn lemma_calc_wire_upto_bounded(w: World, pos: BlockPos, n: int)
    requires
        w.wf(),
        n <= 6,
    ensures
        crate::redstone::spec_calc_wire_upto(w, pos, n) <= 15,
    decreases n,
{
    if n > 0 {
        lemma_calc_wire_upto_bounded(w, pos, n - 1);
        let d = crate::world::spec_direction_at(n - 1);
        let neighbor = spec_offset(pos, d);
        lemma_wire_level_bounded(w, neighbor);
        lemma_wire_level_bounded(w, spec_offset(neighbor, Direction::Up));
        lemma_wire_level_bounded(w, spec_offset(neighbor, Direction::Down));
    }
}

/// Wire shape regulation is idempotent: regulating an already regulated
/// shape changes nothing, because the sides are recomputed from the same
/// neighborhood and the forcing rule is stable on its own output.
pub proof fn lemma_regulated_sides_idempotent(w: World, pos: BlockPos, wire: WireProperties)
    ensures
        spec_regulated_sides(w, pos, spec_regulated_sides(w, pos, wire)) == spec_regulated_sides(
            w,
            pos,
            wire,
        ),
{
    let s = spec_all_sides(w, pos, wire);
    let r1 = spec_regulated_sides(w, pos, wire);
    assert(spec_all_sides(w, pos, r1) == WireProperties { power: r1.power, ..s });
}

/// An isolated wire never resolves to a dot: when regulation leaves no
/// connection at all, placement forces the full cross.
pub proof fn lemma_isolated_wire_forces_cross(w: World, pos: BlockPos)
    ensures
        !spec_is_dot(spec_placement_state(w, pos)),
        spec_is_dot(
            spec_regulated_sides(
                w,
                pos,
                WireProperties {
                    north: WireConnection::Unconnected,
                    south: WireConnection::Unconnected,
                    east: WireConnection::Unconnected,
                    west: WireConnection::Unconnected,
                    power: spec_calculate_power(w, pos),
                },
            ),
        ) ==> spec_is_cross(spec_placement_state(w, pos)),
{
}


/// What a wire at `pos` does when a neighbor changes: break off its floor,
/// hold its state, or settle on a recomputed power.
pub open spec fn spec_wire_update_block(w: World, pos: BlockPos) -> Block {
    match w.spec_at(pos) {
        Block::RedstoneWire(props) => {
            if w.spec_at(spec_offset(pos, Direction::Down)).spec_is_side_solid(Direction::Up) {
                Block::RedstoneWire(
                    WireProperties { power: spec_calculate_power(w, pos), ..props },
                )
            } else {
                Block::Air
            }
        },
        b => b,
    }
}

/// A wire reacting to a neighbor change: it breaks when its floor support
/// is gone, and otherwise recomputes its power level; any other block is
/// left alone. Returns whether the grid changed, which is when the
/// surroundings must be notified further.
pub fn wire_on_neighbor_update(world: &mut World, pos: BlockPos) -> (changed: bool)
    requires
        old(world).wf(),
        spec_pos_in_bounds(pos),
    ensures
        final(world).wf(),
        forall|q: BlockPos| q != pos ==> final(world).spec_at(q) == old(world).spec_at(q),
        final(world).spec_at(pos) == spec_wire_update_block(*old(world), pos),
        changed == (old(world).spec_at(pos) != spec_wire_update_block(*old(world), pos)),
{
    let b: Block = world.get_block(pos);
    match b {
        Block::RedstoneWire(props) => {
            if can_place_at(world, pos) {
                let new_power: u8 = calculate_power(world, pos);
                proof {
                    lemma_calculate_power_bounded(*world, pos);
                }
                if new_power != props.power {
                    let updated: WireProperties = WireProperties { power: new_power, ..props };
                    world.set_block(pos, Block::RedstoneWire(updated));
                    true
                } else {
                    false
                }
            } else {
                world.set_block(pos, Block::Air);
                true
            }
        },
        _ => false,
    }
}

/// Positions a notification wave starts from keep an extra margin, so the
/// whole two-step neighborhood stays within the engine's position bounds.
pub open spec fn spec_pos_update_bounds(p: BlockPos) -> bool {
    &&& -0x7FFF_FFE0 <= p.x <= 0x7FFF_FFE0
    &&& -0x7FFF_FFE0 <= p.y <= 0x7FFF_FFE0
    &&& -0x7FFF_FFE0 <= p.z <= 0x7FFF_FFE0
}

/// Membership of the two-step neighborhood a wire mutation notifies.
pub open spec fn spec_in_two_ring(center: BlockPos, q: BlockPos) -> bool {
    exists|d1: int|
        #![trigger spec_direction_at(d1)]
        0 <= d1 < 6 && {
            let first = spec_offset(center, spec_direction_at(d1));
            q == first || exists|d2: int|
                #![trigger spec_direction_at(d2)]
                0 <= d2 < 6 && q == spec_offset(first, spec_direction_at(d2))
        }
}

/// Pointwise equality of two grids.
pub open spec fn spec_same_world(a: World, b: World) -> bool {
    forall|q: BlockPos| a.spec_at(q) == b.spec_at(q)
}

/// The grid `b` is `a` with exactly the cell `p` holding `blk`.
pub open spec fn spec_world_put(a: World, b: World, p: BlockPos, blk: Block) -> bool {
    &&& forall|q: BlockPos| q != p ==> b.spec_at(q) == a.spec_at(q)
    &&& b.spec_at(p) == blk
}

/// The cell the notification wave visits at step `t`: step `7 i` is the
/// neighbor in canonical direction `i`, and the six steps after it are that
/// neighbor's own neighbors in canonical order.
pub open spec fn spec_ring_target(center: BlockPos, t: int) -> BlockPos {
    let first = spec_offset(center, spec_direction_at(t / 7));
    if t % 7 == 0 {
        first
    } else {
        spec_offset(first, spec_direction_at(t % 7 - 1))
    }
}

/// One step of the wave: the visited cell reacts as a wire neighbor update,
/// every other cell stands.
pub open spec fn spec_wave_step(a: World, b: World, p: BlockPos) -> bool {
    spec_world_put(a, b, p, spec_wire_update_block(a, p))
}

/// A full wave record: 43 grid states, starting at `w0`, each following
/// from its predecessor by the step at the canonical wave position.
pub open spec fn spec_wave_trace(w0: World, center: BlockPos, trace: Seq<World>) -> bool {
    &&& trace.len() == 43
    &&& trace[0] == w0
    &&& forall|t: int|
        #![trigger spec_ring_target(center, t)]
        0 <= t < 42 ==> spec_wave_step(trace[t], trace[t + 1], spec_ring_target(center, t))
}

/// The cells the wave's steps changed, in visit order, from step `t` on.
pub open spec fn spec_trace_changes(trace: Seq<World>, center: BlockPos, t: int) -> Seq<BlockPos>
    decreases trace.len() - t,
{
    if t < 0 || t + 1 >= trace.len() || t >= 42 {
        Seq::empty()
    } else {
        let p = spec_ring_target(center, t);
        let rest = spec_trace_changes(trace, center, t + 1);
        if trace[t + 1].spec_at(p) != trace[t].spec_at(p) {
            seq![p] + rest
        } else {
            rest
        }
    }
}

/// The wave relation: a full trace of per-cell updates leads from `w0` to
/// `w1`, and `changed` lists exactly the cells the steps moved. Since every
/// step is a function of its predecessor, the trace — and with it `w1` and
/// `changed` — is determined by `w0`.
pub open spec fn spec_wave_reaches(
    w0: World,
    center: BlockPos,
    w1: World,
    changed: Seq<BlockPos>,
) -> bool {
    exists|trace: Seq<World>|
        #![trigger spec_wave_trace(w0, center, trace)]
        {
            &&& spec_wave_trace(w0, center, trace)
            &&& trace[42] == w1
            &&& changed == spec_trace_changes(trace, center, 0)
        }
}

/// Appending the next grid to a partial trace appends that step's changed
/// cell, if it moved, to the collected cells.
proof fn lemma_trace_changes_push(trace: Seq<World>, center: BlockPos, w: World, t: int)
    requires
        0 <= t < trace.len(),
        trace.len() <= 42,
    ensures
        ({
            let p_last = spec_ring_target(center, trace.len() - 1);
            spec_trace_changes(trace.push(w), center, t) == spec_trace_changes(trace, center, t)
                + (if w.spec_at(p_last) != trace.last().spec_at(p_last) {
                seq![p_last]
            } else {
                Seq::<BlockPos>::empty()
            })
        }),
    decreases trace.len() - t,
{
    let tr2 = trace.push(w);
    let p_last = spec_ring_target(center, trace.len() - 1);
    let tail: Seq<BlockPos> = if w.spec_at(p_last) != trace.last().spec_at(p_last) {
        seq![p_last]
    } else {
        Seq::<BlockPos>::empty()
    };
    if t + 1 < trace.len() {
        lemma_trace_changes_push(trace, center, w, t + 1);
        let p = spec_ring_target(center, t);
        assert(tr2[t] == trace[t] && tr2[t + 1] == trace[t + 1]);
        if trace[t + 1].spec_at(p) != trace[t].spec_at(p) {
            assert(seq![p] + (spec_trace_changes(trace, center, t + 1) + tail) =~= (seq![p]
                + spec_trace_changes(trace, center, t + 1)) + tail);
        }
    } else {
        assert(t + 1 == trace.len());
        assert(spec_trace_changes(trace, center, t) =~= Seq::<BlockPos>::empty());
        assert(tr2[t] == trace[t] && tr2[t + 1] == w);
        assert(trace[t] == trace.last());
        assert(spec_trace_changes(tr2, center, t + 1) =~= Seq::<BlockPos>::empty());
        assert(spec_trace_changes(tr2, center, t) =~= tail);
        assert(Seq::<BlockPos>::empty() + tail =~= tail);
    }
}

/// Over-notification after a wire event at `pos`: every direct neighbor and
/// each of their neighbors reacts once, in canonical order; the positions
/// whose state actually changed come back so the caller can continue the
/// propagation wave. The whole wave is pinned: the final grid and the
/// reported cells are exactly those of the 42-step update trace, and cells
/// outside the two-step neighborhood never move.
pub fn update_wire_neighbors(world: &mut World, pos: BlockPos) -> (changed: Vec<BlockPos>)
    requires
        old(world).wf(),
        spec_pos_update_bounds(pos),
    ensures
        final(world).wf(),
        spec_wave_reaches(*old(world), pos, *final(world), changed@),
        forall|q: BlockPos|
            !spec_in_two_ring(pos, q) ==> final(world).spec_at(q) == old(world).spec_at(q),
        forall|t: int| 0 <= t < changed@.len() ==> spec_in_two_ring(pos, #[trigger] changed@[t]),
{
    let mut changed: Vec<BlockPos> = Vec::new();
    let ghost mut trace: Seq<World> = seq![*old(world)];
    let mut i: usize = 0;
    while i < 6
        invariant
            i <= 6,
            world.wf(),
            spec_pos_update_bounds(pos),
            trace.len() == i * 7 + 1,
            trace[0] == *old(world),
            trace.last() == *world,
            forall|t: int|
                #![trigger spec_ring_target(pos, t)]
                0 <= t < trace.len() - 1 ==> spec_wave_step(
                    trace[t],
                    trace[t + 1],
                    spec_ring_target(pos, t),
                ),
            changed@ == spec_trace_changes(trace, pos, 0),
            forall|q: BlockPos|
                !spec_in_two_ring(pos, q) ==> world.spec_at(q) == old(world).spec_at(q),
            forall|t: int|
                0 <= t < changed@.len() ==> spec_in_two_ring(pos, #[trigger] changed@[t]),
        decreases 6 - i,
    {
        let direction: Direction = Direction::from_index(i);
        let neighbor_pos: BlockPos = pos.offset(direction);
        proof {
            assert(spec_in_two_ring(pos, neighbor_pos)) by {
                assert(spec_direction_at(i as int) == direction);
            }
            assert((i * 7) / 7 == i && (i * 7) % 7 == 0) by (nonlinear_arith)
                requires
                    i < 6,
            ;
            assert(spec_ring_target(pos, i * 7) == neighbor_pos);
        }
        let ghost prev_world = *world;
        if wire_on_neighbor_update(world, neighbor_pos) {
            changed.push(neighbor_pos);
        }
        proof {
            lemma_trace_changes_push(trace, pos, *world, 0);
            trace = trace.push(*world);
            assert(changed@ == spec_trace_changes(trace, pos, 0));
        }
        let mut j: usize = 0;
        while j < 6
            invariant
                i < 6,
                j <= 6,
                world.wf(),
                spec_pos_update_bounds(pos),
                direction == spec_direction_at(i as int),
                neighbor_pos == spec_offset(pos, spec_direction_at(i as int)),
                trace.len() == i * 7 + 2 + j,
                trace[0] == *old(world),
                trace.last() == *world,
                forall|t: int|
                    #![trigger spec_ring_target(pos, t)]
                    0 <= t < trace.len() - 1 ==> spec_wave_step(
                        trace[t],
                        trace[t + 1],
                        spec_ring_target(pos, t),
                    ),
                changed@ == spec_trace_changes(trace, pos, 0),
                forall|q: BlockPos|
                    !spec_in_two_ring(pos, q) ==> world.spec_at(q) == old(world).spec_at(q),
                forall|t: int|
                    0 <= t < changed@.len() ==> spec_in_two_ring(pos, #[trigger] changed@[t]),
            decreases 6 - j,
        {
            let n_direction: Direction = Direction::from_index(j);
            let n_neighbor_pos: BlockPos = neighbor_pos.offset(n_direction);
            proof {
                assert(spec_in_two_ring(pos, n_neighbor_pos)) by {
                    assert(spec_direction_at(i as int) == direction);
                    assert(spec_direction_at(j as int) == n_direction);
                    assert(n_neighbor_pos == spec_offset(
                        spec_offset(pos, spec_direction_at(i as int)),
                        spec_direction_at(j as int),
                    ));
                }
                assert((i * 7 + 1 + j) / 7 == i && (i * 7 + 1 + j) % 7 == 1 + j)
                    by (nonlinear_arith)
                    requires
                        i < 6,
                        j < 6,
                ;
                assert(spec_ring_target(pos, i * 7 + 1 + j) == n_neighbor_pos);
            }
            if wire_on_neighbor_update(world, n_neighbor_pos) {
                changed.push(n_neighbor_pos);
            }
            proof {
                lemma_trace_changes_push(trace, pos, *world, 0);
                trace = trace.push(*world);
                assert(changed@ == spec_trace_changes(trace, pos, 0));
            }
            j = j + 1;
        }
        i = i + 1;
    }
    proof {
        assert(spec_wave_trace(*old(world), pos, trace));
        assert(trace[42] == *world);
    }
    changed
}

/// The shape a click toggles a wire into: a cross collapses toward the dot
/// and a dot expands to the cross, then the result is re-regulated against
/// the neighborhood.
pub open spec fn spec_on_use_target(w: World, pos: BlockPos, props: WireProperties)
    -> WireProperties {
    let base = if spec_is_cross(props) {
        WireProperties {
            north: WireConnection::Unconnected,
            south: WireConnection::Unconnected,
            east: WireConnection::Unconnected,
            west: WireConnection::Unconnected,
            power: props.power,
        }
    } else {
        spec_make_cross(props.power)
    };
    spec_regulated_sides(w, pos, base)
}

/// Whether a click changes anything: the cell holds a cross- or dot-shaped
/// wire whose toggled shape differs from what it already has.
pub open spec fn spec_on_use_applies(w: World, pos: BlockPos) -> bool {
    match w.spec_at(pos) {
        Block::RedstoneWire(props) => (spec_is_cross(props) || spec_is_dot(props)) && props
            != spec_on_use_target(w, pos, props),
        _ => false,
    }
}

/// A click on a wire toggles a cross into a dot shape and a dot into a
/// cross, re-regulated against the neighborhood; when that actually changes
/// the state, the toggled wire is written and the notification wave runs.
/// Returns whether anything happened.
pub fn on_use(world: &mut World, pos: BlockPos) -> (r: bool)
    requires
        old(world).wf(),
        spec_pos_update_bounds(pos),
    ensures
        final(world).wf(),
        r == spec_on_use_applies(*old(world), pos),
        !r ==> *final(world) == *old(world),
        r ==> ({
            let b0 = old(world).spec_at(pos);
            b0 matches Block::RedstoneWire(props) && exists|mid: World, ch: Seq<BlockPos>|
                #![trigger spec_wave_reaches(mid, pos, *final(world), ch)]
                {
                    &&& spec_world_put(
                        *old(world),
                        mid,
                        pos,
                        Block::RedstoneWire(spec_on_use_target(*old(world), pos, props)),
                    )
                    &&& spec_wave_reaches(mid, pos, *final(world), ch)
                }
        }),
        forall|q: BlockPos|
            !spec_in_two_ring(pos, q) && q != pos ==> final(world).spec_at(q) == old(
                world,
            ).spec_at(q),
{
    let b: Block = world.get_block(pos);
    match b {
        Block::RedstoneWire(props) => {
            if is_cross(props) || is_dot(props) {
                proof {
                    lemma_at_wf(*world, pos);
                }
                let base: WireProperties = if is_cross(props) {
                    WireProperties::with_power(props.power)
                } else {
                    make_cross(props.power)
                };
                let new_wire: WireProperties = get_regulated_sides(base, world, pos);
                if props != new_wire {
                    proof {
                        lemma_at_wf(*world, pos);
                    }
                    world.set_block(pos, Block::RedstoneWire(new_wire));
                    let ghost mid = *world;
                    let wave_changes: Vec<BlockPos> = update_wire_neighbors(world, pos);
                    proof {
                        assert(spec_world_put(
                            *old(world),
                            mid,
                            pos,
                            Block::RedstoneWire(spec_on_use_target(*old(world), pos, props)),
                        ));
                        assert(spec_wave_reaches(mid, pos, *world, wave_changes@));
                    }
                    return true;
                }
                false
            } else {
                false
            }
        },
        _ => false,
    }
}

/// The block a shape re-derivation leaves at `p`: a wire re-derives its
/// shape toward `dir`, any other block stands.
pub open spec fn spec_replaced_block(w: World, p: BlockPos, dir: Direction) -> Block {
    match w.spec_at(p) {
        Block::RedstoneWire(props) => Block::RedstoneWire(
            spec_neighbor_update_state(w, p, props, dir),
        ),
        b => b,
    }
}

/// One preparation step: for a connected side whose neighbor is not wire,
/// the wires diagonally above and below that neighbor re-derive their
/// shapes toward this wire, upper first; otherwise nothing moves.
pub open spec fn spec_prepare_dir(
    a: World,
    b: World,
    pos: BlockPos,
    props: WireProperties,
    d: Direction,
) -> bool {
    let other = spec_offset(pos, d);
    let up = spec_offset(other, Direction::Up);
    let down = spec_offset(other, Direction::Down);
    if props.spec_connection(d).spec_is_connected() && !(a.spec_at(other) is RedstoneWire) {
        exists|mid: World|
            #![trigger spec_world_put(a, mid, up, spec_replaced_block(a, up, d.spec_opposite()))]
            {
                &&& spec_world_put(a, mid, up, spec_replaced_block(a, up, d.spec_opposite()))
                &&& spec_world_put(
                    mid,
                    b,
                    down,
                    spec_replaced_block(mid, down, d.spec_opposite()),
                )
            }
    } else {
        spec_same_world(b, a)
    }
}

/// A full preparation record: five grid states, one step per horizontal
/// direction in canonical order.
pub open spec fn spec_prepare_trace(
    w0: World,
    pos: BlockPos,
    props: WireProperties,
    trace: Seq<World>,
) -> bool {
    &&& trace.len() == 5
    &&& trace[0] == w0
    &&& forall|k: int|
        #![trigger spec_direction_at(k + 2)]
        0 <= k < 4 ==> spec_prepare_dir(trace[k], trace[k + 1], pos, props, spec_direction_at(k + 2))
}

/// The preparation relation: the four horizontal steps lead from `w0` to
/// `w1`. Each step is a function of its predecessor, so `w1` is pinned.
pub open spec fn spec_prepare_reaches(
    w0: World,
    pos: BlockPos,
    props: WireProperties,
    w1: World,
) -> bool {
    exists|trace: Seq<World>|
        #![trigger spec_prepare_trace(w0, pos, props, trace)]
        spec_prepare_trace(w0, pos, props, trace) && trace[4] == w1
}

/// After a wire's own shape changed, the diagonal wires around each
/// connected side re-derive their shape toward this wire, exactly as a
/// sideways neighbor update would; the whole pass is pinned step for step.
pub fn prepare(world: &mut World, pos: BlockPos, props: WireProperties)
    requires
        old(world).wf(),
        spec_pos_update_bounds(pos),
    ensures
        final(world).wf(),
        spec_prepare_reaches(*old(world), pos, props, *final(world)),
        forall|q: BlockPos|
            !spec_in_two_ring(pos, q) ==> final(world).spec_at(q) == old(world).spec_at(q),
{
    let ghost mut trace: Seq<World> = seq![*old(world)];
    let mut i: usize = 2;
    while i < 6
        invariant
            2 <= i <= 6,
            world.wf(),
            spec_pos_update_bounds(pos),
            trace.len() == i - 1,
            trace[0] == *old(world),
            trace.last() == *world,
            forall|k: int|
                #![trigger spec_direction_at(k + 2)]
                0 <= k < trace.len() - 1 ==> spec_prepare_dir(
                    trace[k],
                    trace[k + 1],
                    pos,
                    props,
                    spec_direction_at(k + 2),
                ),
            forall|q: BlockPos|
                !spec_in_two_ring(pos, q) ==> world.spec_at(q) == old(world).spec_at(q),
        decreases 6 - i,
    {
        let ghost before = *world;
        let direction: Direction = Direction::from_index(i);
        let other_pos: BlockPos = pos.offset(direction);
        let other_block: Block = world.get_block(other_pos);
        if props.is_side_connected(direction) && !matches!(other_block, Block::RedstoneWire(_)) {
            let up_pos: BlockPos = other_pos.up();
            proof {
                assert(spec_in_two_ring(pos, up_pos)) by {
                    assert(spec_direction_at(i as int) == direction);
                    assert(spec_direction_at(1) == Direction::Up);
                    assert(up_pos == spec_offset(
                        spec_offset(pos, spec_direction_at(i as int)),
                        spec_direction_at(1),
                    ));
                }
            }
            replace_wire_for_neighbor_update(world, up_pos, direction.opposite());
            let ghost mid = *world;
            let down_pos: BlockPos = other_pos.down();
            proof {
                assert(spec_in_two_ring(pos, down_pos)) by {
                    assert(spec_direction_at(i as int) == direction);
                    assert(spec_direction_at(0) == Direction::Down);
                    assert(down_pos == spec_offset(
                        spec_offset(pos, spec_direction_at(i as int)),
                        spec_direction_at(0),
                    ));
                }
            }
            replace_wire_for_neighbor_update(world, down_pos, direction.opposite());
            proof {
                assert(spec_prepare_dir(before, *world, pos, props, direction)) by {
                    assert(spec_world_put(
                        before,
                        mid,
                        spec_offset(spec_offset(pos, direction), Direction::Up),
                        spec_replaced_block(
                            before,
                            spec_offset(spec_offset(pos, direction), Direction::Up),
                            direction.spec_opposite(),
                        ),
                    ));
                }
            }
        } else {
            proof {
                assert(spec_prepare_dir(before, *world, pos, props, direction)) by {
                    assert(spec_same_world(*world, before));
                }
            }
        }
        proof {
            trace = trace.push(*world);
            assert(spec_direction_at(i as int) == direction);
        }
        i = i + 1;
    }
    proof {
        assert(spec_prepare_trace(*old(world), pos, props, trace));
        assert(trace[4] == *world);
    }
}

/// Re-derives the shape of the wire at `pos` for an update arriving from
/// `direction`, writing it back; any other block is left alone.
fn replace_wire_for_neighbor_update(world: &mut World, pos: BlockPos, direction: Direction)
    requires
        old(world).wf(),
        spec_pos_in_bounds(pos),
    ensures
        final(world).wf(),
        spec_world_put(*old(world), *final(world), pos, spec_replaced_block(
            *old(world),
            pos,
            direction,
        )),
{
    let b: Block = world.get_block(pos);
    match b {
        Block::RedstoneWire(props) => {
            proof {
                lemma_at_wf(*world, pos);
            }
            let updated: WireProperties = get_state_for_neighbor_update(
                world,
                pos,
                props,
                direction,
            );
            world.set_block(pos, Block::RedstoneWire(updated));
        },
        _ => {},
    }
}

} // verus!
