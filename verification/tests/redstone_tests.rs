use pumpkin_core::redstone::{
    block_receives_redstone_power, calculate_power, diode_get_input_strength, get_redstone_power,
    is_diode,
};
use pumpkin_core::wire::{
    get_regulated_sides, get_side, get_state_for_neighbor_update, is_cross, is_dot, make_cross,
    on_use, prepare, update_wire_neighbors, wire_on_neighbor_update, wire_state_for_placement,
};
use pumpkin_core::world::{
    Block, BlockPos, Direction, WireConnection, WireProperties, World,
};

fn pos(x: i32, y: i32, z: i32) -> BlockPos {
    BlockPos { x, y, z }
}

fn wire(power: u8) -> Block {
    Block::RedstoneWire(WireProperties {
        north: WireConnection::Side,
        south: WireConnection::Side,
        east: WireConnection::Side,
        west: WireConnection::Side,
        power,
    })
}

/// A straight wire line along the east axis on a stone floor, the cell at
/// the origin held at full strength.
fn wire_line(n: i32) -> World {
    let mut world = World::new();
    for i in 0..=n {
        let level = if i < 15 { (15 - i) as u8 } else { 0 };
        world.set_block(pos(i, 1, 0), wire(level));
        world.set_block(pos(i, 0, 0), Block::Stone);
    }
    world
}

#[test]
fn test_power_attenuates_one_point_per_hop() {
    // In the settled line, recomputing any wire reproduces max(0, 15 - d).
    let n = 20;
    let world = wire_line(n);
    for d in 1..=n {
        let expected = if d < 15 { (15 - d) as u8 } else { 0 };
        assert_eq!(calculate_power(&world, pos(d, 1, 0)), expected);
    }
}

#[test]
fn test_isolated_wire_becomes_cross() {
    // Placing a wire with no connectable neighborhood forces a full cross.
    let mut world = World::new();
    world.set_block(pos(0, 0, 0), Block::Stone);
    let placed = wire_state_for_placement(&world, pos(0, 1, 0));
    assert!(is_cross(placed));
    assert!(!is_dot(placed));
    assert_eq!(placed.power, 0);
}

#[test]
fn test_make_cross_is_cross() {
    let crossed = make_cross(9);
    assert!(is_cross(crossed));
    assert!(!is_dot(crossed));
    assert_eq!(crossed.power, 9);
}

#[test]
fn test_regulated_sides_repeatable() {
    // Repeated regulation on the same input returns the same output, and
    // regulating its own output changes nothing.
    let mut world = World::new();
    world.set_block(pos(1, 1, 0), wire(3));
    let input = WireProperties {
        north: WireConnection::Unconnected,
        south: WireConnection::Unconnected,
        east: WireConnection::Unconnected,
        west: WireConnection::Unconnected,
        power: 3,
    };
    let once = get_regulated_sides(input, &world, pos(0, 1, 0));
    let twice = get_regulated_sides(input, &world, pos(0, 1, 0));
    assert_eq!(once, twice);
    let again = get_regulated_sides(once, &world, pos(0, 1, 0));
    assert_eq!(again, once);
}

#[test]
fn test_straight_line_forces_side_ends() {
    // A wire between two east-west wires keeps the disconnected axis
    // forced to sides: the straight-through look, not a dot.
    let mut world = World::new();
    world.set_block(pos(-1, 1, 0), wire(5));
    world.set_block(pos(1, 1, 0), wire(5));
    let shape = wire_state_for_placement(&world, pos(0, 1, 0));
    assert_eq!(shape.east, WireConnection::Side);
    assert_eq!(shape.west, WireConnection::Side);
    // The disconnected axis stays open: a mid-line wire renders straight
    // through, not as a cross.
    assert_eq!(shape.north, WireConnection::Unconnected);
    assert_eq!(shape.south, WireConnection::Unconnected);
    // A wire at the end of the line keeps its axis forced through.
    let end = wire_state_for_placement(&world, pos(2, 1, 0));
    assert_eq!(end.west, WireConnection::Side);
    assert_eq!(end.east, WireConnection::Side);
}

#[test]
fn test_get_side_direct_and_diagonal() {
    let mut world = World::new();
    // Direct wire neighbor to the east.
    world.set_block(pos(1, 1, 0), wire(5));
    assert_eq!(get_side(&world, pos(0, 1, 0), Direction::East), WireConnection::Side);
    // Nothing to the north.
    assert_eq!(
        get_side(&world, pos(0, 1, 0), Direction::North),
        WireConnection::Unconnected
    );
    // A wire one block up across an open corner connects upward.
    world.set_block(pos(0, 1, 1), Block::Stone);
    world.set_block(pos(0, 2, 1), wire(5));
    assert_eq!(get_side(&world, pos(0, 1, 0), Direction::South), WireConnection::Up);
    // A wire one block down past a non-solid neighbor connects as a side.
    world.set_block(pos(-1, 0, 0), wire(5));
    assert_eq!(get_side(&world, pos(0, 1, 0), Direction::West), WireConnection::Side);
}

#[test]
fn test_repeater_and_observer_connections() {
    let mut world = World::new();
    world.set_block(
        pos(1, 1, 0),
        Block::Repeater { facing: Direction::East, powered: false },
    );
    // A repeater along the queried axis connects.
    assert_eq!(get_side(&world, pos(0, 1, 0), Direction::East), WireConnection::Side);
    world.set_block(
        pos(0, 1, 1),
        Block::Observer { facing: Direction::North, powered: false },
    );
    // The observer's output face points north, at this wire: it connects.
    assert_eq!(get_side(&world, pos(0, 1, 0), Direction::South), WireConnection::Side);
    // From the observer's front there is no connection.
    assert_eq!(
        get_side(&world, pos(0, 1, 2), Direction::North),
        WireConnection::Unconnected
    );
}

#[test]
fn test_redstone_block_powers_wire() {
    let mut world = World::new();
    world.set_block(pos(1, 1, 0), Block::RedstoneBlock);
    assert_eq!(calculate_power(&world, pos(0, 1, 0)), 15);
    assert!(block_receives_redstone_power(&world, pos(0, 1, 0)));
    assert!(!block_receives_redstone_power(&world, pos(10, 1, 0)));
}

#[test]
fn test_powered_repeater_feeds_full_strength() {
    let mut world = World::new();
    // The repeater's output faces east, into the wire cell beside it.
    world.set_block(
        pos(0, 1, 0),
        Block::Repeater { facing: Direction::East, powered: true },
    );
    // The consumer east of the repeater queries looking west.
    assert_eq!(get_redstone_power(&world, pos(0, 1, 0), Direction::West), 15);
    assert_eq!(get_redstone_power(&world, pos(0, 1, 0), Direction::East), 0);
    assert_eq!(calculate_power(&world, pos(1, 1, 0)), 15);
}

#[test]
fn test_is_diode() {
    assert!(is_diode(&Block::Repeater { facing: Direction::East, powered: false }));
    assert!(!is_diode(&Block::Stone));
    assert!(!is_diode(&Block::RedstoneBlock));
}

#[test]
fn test_diode_input_strength() {
    let mut world = World::new();
    // Input cell to the east of the diode holds a powered wire.
    world.set_block(pos(1, 1, 0), wire(13));
    let strength = diode_get_input_strength(&world, pos(0, 1, 0), Direction::East);
    assert_eq!(strength, 13);
}

#[test]
fn test_wire_breaks_without_floor() {
    let mut world = World::new();
    world.set_block(pos(0, 1, 0), wire(4));
    // No floor below: the neighbor update breaks the wire.
    let changed = wire_on_neighbor_update(&mut world, pos(0, 1, 0));
    assert!(changed);
    assert_eq!(world.get_block(pos(0, 1, 0)), Block::Air);
}

#[test]
fn test_wire_settles_power_on_update() {
    let mut world = World::new();
    world.set_block(pos(0, 0, 0), Block::Stone);
    world.set_block(pos(0, 1, 0), wire(0));
    world.set_block(pos(1, 1, 0), Block::RedstoneBlock);
    let changed = wire_on_neighbor_update(&mut world, pos(0, 1, 0));
    assert!(changed);
    match world.get_block(pos(0, 1, 0)) {
        Block::RedstoneWire(props) => assert_eq!(props.power, 15),
        other => panic!("expected wire, found {:?}", other_kind(&other)),
    }
    // A second update changes nothing further.
    let changed = wire_on_neighbor_update(&mut world, pos(0, 1, 0));
    assert!(!changed);
}

fn other_kind(b: &Block) -> &'static str {
    match b {
        Block::Air => "air",
        Block::Stone => "stone",
        Block::Glass => "glass",
        Block::RedstoneWire(_) => "wire",
        Block::Repeater { .. } => "repeater",
        Block::Observer { .. } => "observer",
        Block::RedstoneBlock => "redstone block",
        Block::RedstoneLamp { .. } => "lamp",
    }
}

#[test]
fn test_update_wire_neighbors_settles_pair() {
    let mut world = World::new();
    world.set_block(pos(0, 0, 0), Block::Stone);
    world.set_block(pos(1, 0, 0), Block::Stone);
    world.set_block(pos(0, 1, 0), wire(0));
    world.set_block(pos(1, 1, 0), wire(0));
    world.set_block(pos(2, 1, 0), Block::RedstoneBlock);
    // Notify around the power block: the adjacent wire picks up power.
    let changed = update_wire_neighbors(&mut world, pos(2, 1, 0));
    assert!(!changed.is_empty());
    match world.get_block(pos(1, 1, 0)) {
        Block::RedstoneWire(props) => assert_eq!(props.power, 15),
        _ => panic!("expected wire"),
    }
}

#[test]
fn test_on_use_toggles_cross_to_dot_shape() {
    let mut world = World::new();
    world.set_block(pos(0, 0, 0), Block::Stone);
    world.set_block(pos(0, 1, 0), wire(0));
    // Clicking an isolated cross collapses it to the dot shape.
    let used = on_use(&mut world, pos(0, 1, 0));
    assert!(used);
    match world.get_block(pos(0, 1, 0)) {
        Block::RedstoneWire(props) => {
            assert_eq!(props.north, WireConnection::Unconnected);
            assert_eq!(props.south, WireConnection::Unconnected);
            assert_eq!(props.east, WireConnection::Unconnected);
            assert_eq!(props.west, WireConnection::Unconnected);
        }
        _ => panic!("expected wire"),
    }
    // Clicking the dot turns it back into the cross.
    let used = on_use(&mut world, pos(0, 1, 0));
    assert!(used);
    match world.get_block(pos(0, 1, 0)) {
        Block::RedstoneWire(props) => assert!(is_cross(props)),
        _ => panic!("expected wire"),
    }
}

#[test]
fn test_neighbor_update_from_above_keeps_state() {
    let world = World::new();
    let props = make_cross(7);
    let updated = get_state_for_neighbor_update(&world, pos(0, 1, 0), props, Direction::Up);
    assert_eq!(updated, props);
}

#[test]
fn test_prepare_rederives_diagonal_wire() {
    let mut world = World::new();
    // A wire on stone, connected east toward a solid block with a stale
    // cross-shaped wire on top of that block.
    world.set_block(pos(0, 0, 0), Block::Stone);
    world.set_block(pos(1, 1, 0), Block::Stone);
    world.set_block(pos(1, 2, 0), wire(7));
    let props = WireProperties {
        north: WireConnection::Unconnected,
        south: WireConnection::Unconnected,
        east: WireConnection::Side,
        west: WireConnection::Unconnected,
        power: 7,
    };
    world.set_block(pos(0, 1, 0), Block::RedstoneWire(props));
    prepare(&mut world, pos(0, 1, 0), props);
    // The diagonal wire re-derived its shape toward this wire: a straight
    // east-west run, its stale north/south sides dropped.
    match world.get_block(pos(1, 2, 0)) {
        Block::RedstoneWire(updated) => {
            assert_eq!(updated.power, 7);
            assert_eq!(updated.west, WireConnection::Side);
            assert_eq!(updated.east, WireConnection::Side);
            assert_eq!(updated.north, WireConnection::Unconnected);
            assert_eq!(updated.south, WireConnection::Unconnected);
        }
        _ => panic!("expected wire"),
    }
}
