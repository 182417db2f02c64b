//! The block-state world model the redstone engine reads and mutates.
//!
//! Block behaviour is a closed set of tagged variants (wire, diodes,
//! observers, power blocks, plain solids), looked up by variant rather than
//! by dynamic dispatch. The grid is an association list from positions to
//! blocks; absent positions read as air, matching the collaborator contract
//! that unloaded neighbors behave as default state.

use vstd::prelude::*;

verus! {

/// The six block faces, in the canonical update order.
#[derive(Clone, Copy, Debug, PartialEq, Eq, Structural)]
pub enum Direction {
    Down,
    Up,
    North,
    South,
    West,
    East,
}

/// The canonical enumeration of the six directions.
pub open spec fn spec_direction_at(i: int) -> Direction {
    if i == 0 {
        Direction::Down
    } else if i == 1 {
        Direction::Up
    } else if i == 2 {
        Direction::North
    } else if i == 3 {
        Direction::South
    } else if i == 4 {
        Direction::West
    } else {
        Direction::East
    }
}

impl Direction {
    /// The direction at position `i` of the canonical order.
    pub fn from_index(i: usize) -> (r: Direction)
        requires
            i < 6,
        ensures
            r == spec_direction_at(i as int),
    {
        if i == 0 {
            Direction::Down
        } else if i == 1 {
            Direction::Up
        } else if i == 2 {
            Direction::North
        } else if i == 3 {
            Direction::South
        } else if i == 4 {
            Direction::West
        } else {
            Direction::East
        }
    }

    pub open spec fn spec_opposite(self) -> Direction {
        match self {
            Direction::Down => Direction::Up,
            Direction::Up => Direction::Down,
            Direction::North => Direction::South,
            Direction::South => Direction::North,
            Direction::West => Direction::East,
            Direction::East => Direction::West,
        }
    }

    pub fn opposite(self) -> (r: Direction)
        ensures
            r == self.spec_opposite(),
    {
        match self {
            Direction::Down => Direction::Up,
            Direction::Up => Direction::Down,
            Direction::North => Direction::South,
            Direction::South => Direction::North,
            Direction::West => Direction::East,
            Direction::East => Direction::West,
        }
    }

    pub open spec fn spec_is_horizontal(self) -> bool {
        !(self is Up || self is Down)
    }

    pub fn is_horizontal(self) -> (r: bool)
        ensures
            r == self.spec_is_horizontal(),
    {
        match self {
            Direction::Down => false,
            Direction::Up => false,
            _ => true,
        }
    }
}

/// A block position on the grid.
#[derive(Clone, Copy, Debug, PartialEq, Eq, Structural)]
pub struct BlockPos {
    pub x: i32,
    pub y: i32,
    pub z: i32,
}

/// Positions the engine touches stay a margin away from the coordinate
/// limits, so chains of neighbor offsets never overflow.
pub open spec fn spec_pos_in_bounds(p: BlockPos) -> bool {
    &&& -0x7FFF_FFF0 <= p.x <= 0x7FFF_FFF0
    &&& -0x7FFF_FFF0 <= p.y <= 0x7FFF_FFF0
    &&& -0x7FFF_FFF0 <= p.z <= 0x7FFF_FFF0
}

/// A single offset step stays representable from here.
pub open spec fn spec_pos_offsettable(p: BlockPos) -> bool {
    &&& -0x7FFF_FFFE <= p.x <= 0x7FFF_FFFE
    &&& -0x7FFF_FFFE <= p.y <= 0x7FFF_FFFE
    &&& -0x7FFF_FFFE <= p.z <= 0x7FFF_FFFE
}

/// The neighbor position one step in a direction.
pub open spec fn spec_offset(p: BlockPos, d: Direction) -> BlockPos
    recommends
        spec_pos_offsettable(p),
{
    match d {
        Direction::Down => BlockPos { x: p.x, y: (p.y - 1) as i32, z: p.z },
        Direction::Up => BlockPos { x: p.x, y: (p.y + 1) as i32, z: p.z },
        Direction::North => BlockPos { x: p.x, y: p.y, z: (p.z - 1) as i32 },
        Direction::South => BlockPos { x: p.x, y: p.y, z: (p.z + 1) as i32 },
        Direction::West => BlockPos { x: (p.x - 1) as i32, y: p.y, z: p.z },
        Direction::East => BlockPos { x: (p.x + 1) as i32, y: p.y, z: p.z },
    }
}

impl BlockPos {
    /// The neighbor position one step in `d`.
    pub fn offset(self, d: Direction) -> (r: BlockPos)
        requires
            spec_pos_offsettable(self),
        ensures
            r == spec_offset(self, d),
    {
        match d {
            Direction::Down => BlockPos { x: self.x, y: self.y - 1, z: self.z },
            Direction::Up => BlockPos { x: self.x, y: self.y + 1, z: self.z },
            Direction::North => BlockPos { x: self.x, y: self.y, z: self.z - 1 },
            Direction::South => BlockPos { x: self.x, y: self.y, z: self.z + 1 },
            Direction::West => BlockPos { x: self.x - 1, y: self.y, z: self.z },
            Direction::East => BlockPos { x: self.x + 1, y: self.y, z: self.z },
        }
    }

    pub fn up(self) -> (r: BlockPos)
        requires
            spec_pos_offsettable(self),
        ensures
            r == spec_offset(self, Direction::Up),
    {
        self.offset(Direction::Up)
    }

    pub fn down(self) -> (r: BlockPos)
        requires
            spec_pos_offsettable(self),
        ensures
            r == spec_offset(self, Direction::Down),
    {
        self.offset(Direction::Down)
    }
}

/// One of a wire's four horizontal connections.
#[derive(Clone, Copy, Debug, PartialEq, Eq, Structural)]
pub enum WireConnection {
    Up,
    Side,
    Unconnected,
}

impl WireConnection {
    pub open spec fn spec_is_connected(self) -> bool {
        !(self is Unconnected)
    }

    /// Whether this side attaches to anything.
    pub fn is_connected(self) -> (r: bool)
        ensures
            r == self.spec_is_connected(),
    {
        !(matches!(self, WireConnection::Unconnected))
    }

    /// Whether this side is unattached.
    pub fn is_none(self) -> (r: bool)
        ensures
            r == !self.spec_is_connected(),
    {
        matches!(self, WireConnection::Unconnected)
    }
}

/// The packed property set of a wire cell: four directional connections and
/// a power level.
#[derive(Clone, Copy, Debug, PartialEq, Eq, Structural)]
pub struct WireProperties {
    pub north: WireConnection,
    pub south: WireConnection,
    pub east: WireConnection,
    pub west: WireConnection,
    pub power: u8,
}

impl WireProperties {
    pub open spec fn wf(self) -> bool {
        self.power <= 15
    }

    /// The connection on a horizontal side; vertical queries never connect.
    pub open spec fn spec_connection(self, d: Direction) -> WireConnection {
        match d {
            Direction::North => self.north,
            Direction::South => self.south,
            Direction::East => self.east,
            Direction::West => self.west,
            _ => WireConnection::Unconnected,
        }
    }

    /// Whether the wire attaches on `d`.
    pub fn is_side_connected(&self, d: Direction) -> (r: bool)
        ensures
            r == self.spec_connection(d).spec_is_connected(),
    {
        match d {
            Direction::North => self.north.is_connected(),
            Direction::South => self.south.is_connected(),
            Direction::East => self.east.is_connected(),
            Direction::West => self.west.is_connected(),
            _ => false,
        }
    }

    /// The unconnected wire of a given power, the default placement state.
    pub fn with_power(power: u8) -> (r: WireProperties)
        requires
            power <= 15,
        ensures
            r == (WireProperties {
                north: WireConnection::Unconnected,
                south: WireConnection::Unconnected,
                east: WireConnection::Unconnected,
                west: WireConnection::Unconnected,
                power,
            }),
    {
        WireProperties {
            north: WireConnection::Unconnected,
            south: WireConnection::Unconnected,
            east: WireConnection::Unconnected,
            west: WireConnection::Unconnected,
            power,
        }
    }
}

/// The closed set of block kinds the engine distinguishes.
#[derive(Clone, Copy, Debug, PartialEq, Eq, Structural)]
pub enum Block {
    /// Empty space; also what unloaded positions read as.
    Air,
    /// A plain opaque solid block.
    Stone,
    /// A transparent non-solid block, for diagonal-corner cases.
    Glass,
    /// Redstone dust with its connection/power properties.
    RedstoneWire(WireProperties),
    /// A diode: emits on its facing when powered.
    Repeater { facing: Direction, powered: bool },
    /// An observer: emits on its facing when powered.
    Observer { facing: Direction, powered: bool },
    /// A constant power source on every side.
    RedstoneBlock,
    /// A lamp, lit or dark; a plain solid for power purposes.
    RedstoneLamp { lit: bool },
}

impl Block {
    pub open spec fn wf(self) -> bool {
        match self {
            Block::RedstoneWire(w) => w.wf(),
            _ => true,
        }
    }

    /// Whether the block is a full solid cube.
    pub open spec fn spec_is_solid(self) -> bool {
        match self {
            Block::Stone => true,
            Block::RedstoneBlock => true,
            Block::RedstoneLamp { .. } => true,
            Block::Observer { .. } => true,
            _ => false,
        }
    }

    pub fn is_solid(&self) -> (r: bool)
        ensures
            r == self.spec_is_solid(),
    {
        match self {
            Block::Stone => true,
            Block::RedstoneBlock => true,
            Block::RedstoneLamp { .. } => true,
            Block::Observer { .. } => true,
            _ => false,
        }
    }

    /// Whether the face toward `_d` is solid; these blocks are full cubes,
    /// so every face answers like the block itself.
    pub open spec fn spec_is_side_solid(self, _d: Direction) -> bool {
        self.spec_is_solid()
    }

    pub fn is_side_solid(&self, d: Direction) -> (r: bool)
        ensures
            r == self.spec_is_side_solid(d),
    {
        self.is_solid()
    }
}

/// First-match lookup in an association list; absent positions read as air.
pub open spec fn spec_lookup(cells: Seq<(BlockPos, Block)>, pos: BlockPos) -> Block
    decreases cells.len(),
{
    if cells.len() == 0 {
        Block::Air
    } else if cells.first().0 == pos {
        cells.first().1
    } else {
        spec_lookup(cells.drop_first(), pos)
    }
}

/// The mutable block-state grid.
pub struct World {
    pub cells: Vec<(BlockPos, Block)>,
}

impl World {
    /// Every stored block is internally valid.
    pub open spec fn wf(self) -> bool {
        forall|i: int| 0 <= i < self.cells@.len() ==> (#[trigger] self.cells@[i]).1.wf()
    }

    /// The block at a position.
    pub open spec fn spec_at(self, pos: BlockPos) -> Block {
        spec_lookup(self.cells@, pos)
    }

    pub fn new() -> (r: World)
        ensures
            r.wf(),
            forall|q: BlockPos| r.spec_at(q) == Block::Air,
    {
        World { cells: Vec::new() }
    }

    /// Reads the block at `pos`; unset positions read as air.
    pub fn get_block(&self, pos: BlockPos) -> (r: Block)
        ensures
            r == self.spec_at(pos),
    {
        let n: usize = self.cells.len();
        let mut i: usize = 0;
        proof {
            assert(self.cells@.skip(0) =~= self.cells@);
        }
        while i < n
            invariant
                i <= n,
                n == self.cells@.len(),
                spec_lookup(self.cells@, pos) == spec_lookup(self.cells@.skip(i as int), pos),
            decreases n - i,
        {
            let entry: (BlockPos, Block) = self.cells[i];
            proof {
                assert(self.cells@.skip(i as int).first() == self.cells@[i as int]);
                assert(self.cells@.skip(i as int).drop_first() =~= self.cells@.skip(i + 1));
            }
            if entry.0 == pos {
                return entry.1;
            }
            i = i + 1;
        }
        proof {
            assert(self.cells@.skip(n as int) =~= Seq::<(BlockPos, Block)>::empty());
        }
        Block::Air
    }

    /// Writes `block` at `pos`, leaving every other position unchanged.
    pub fn set_block(&mut self, pos: BlockPos, block: Block)
        requires
            old(self).wf(),
            block.wf(),
        ensures
            final(self).wf(),
            final(self).spec_at(pos) == block,
            forall|q: BlockPos| q != pos ==> final(self).spec_at(q) == old(self).spec_at(q),
    {
        let n: usize = self.cells.len();
        let mut i: usize = 0;
        while i < n
            invariant
                i <= n,
                n == self.cells@.len(),
                self.wf(),
                block.wf(),
                *self == *old(self),
                forall|k: int| 0 <= k < i ==> (#[trigger] self.cells@[k]).0 != pos,
            decreases n - i,
        {
            let entry: (BlockPos, Block) = self.cells[i];
            if entry.0 == pos {
                let ghost before = self.cells@;
                vstd::pervasive::VecAdditionalExecFns::set(&mut self.cells, i, (pos, block));
                proof {
                    lemma_lookup_update(before, i as int, pos, block);
                }
                return ;
            }
            i = i + 1;
        }
        let ghost before = self.cells@;
        self.cells.push((pos, block));
        proof {
            lemma_lookup_push(before, pos, block);
            assert forall|k: int| 0 <= k < before.len() implies (#[trigger] before[k]).0
                != pos by {}
        }
    }
}

/// Replacing the first matching entry changes exactly that key's lookup.
proof fn lemma_lookup_update(cells: Seq<(BlockPos, Block)>, i: int, pos: BlockPos, block: Block)
    requires
        0 <= i < cells.len(),
        cells[i].0 == pos,
        forall|k: int| 0 <= k < i ==> (#[trigger] cells[k]).0 != pos,
    ensures
        spec_lookup(cells.update(i, (pos, block)), pos) == block,
        forall|q: BlockPos|
            q != pos ==> spec_lookup(cells.update(i, (pos, block)), q) == spec_lookup(cells, q),
    decreases cells.len(),
{
    let updated = cells.update(i, (pos, block));
    if i == 0 {
        assert(updated.first() == (pos, block));
        assert forall|q: BlockPos| q != pos implies spec_lookup(updated, q) == spec_lookup(
            cells,
            q,
        ) by {
            assert(updated.drop_first() =~= cells.drop_first());
        }
    } else {
        assert(updated.first() == cells.first());
        assert(updated.drop_first() =~= cells.drop_first().update(i - 1, (pos, block)));
        lemma_lookup_update(cells.drop_first(), i - 1, pos, block);
        assert forall|q: BlockPos| q != pos implies spec_lookup(updated, q) == spec_lookup(
            cells,
            q,
        ) by {
            if cells.first().0 != q {
                assert(spec_lookup(updated, q) == spec_lookup(updated.drop_first(), q));
                assert(spec_lookup(cells, q) == spec_lookup(cells.drop_first(), q));
            }
        }
    }
}

/// Appending a fresh key changes exactly that key's lookup.
proof fn lemma_lookup_push(cells: Seq<(BlockPos, Block)>, pos: BlockPos, block: Block)
    requires
        forall|k: int| 0 <= k < cells.len() ==> (#[trigger] cells[k]).0 != pos,
    ensures
        spec_lookup(cells.push((pos, block)), pos) == block,
        forall|q: BlockPos|
            q != pos ==> spec_lookup(cells.push((pos, block)), q) == spec_lookup(cells, q),
    decreases cells.len(),
{
    let appended = cells.push((pos, block));
    if cells.len() == 0 {
        assert(appended.first() == (pos, block));
        assert forall|q: BlockPos| q != pos implies spec_lookup(appended, q) == spec_lookup(
            cells,
            q,
        ) by {
            assert(appended.drop_first() =~= Seq::<(BlockPos, Block)>::empty());
            assert(spec_lookup(appended.drop_first(), q) == Block::Air);
            assert(spec_lookup(cells, q) == Block::Air);
        }
    } else {
        assert(appended.first() == cells.first());
        assert(appended.drop_first() =~= cells.drop_first().push((pos, block)));
        lemma_lookup_push(cells.drop_first(), pos, block);
        assert forall|q: BlockPos| q != pos implies spec_lookup(appended, q) == spec_lookup(
            cells,
            q,
        ) by {
            if cells.first().0 != q {
                assert(spec_lookup(appended, q) == spec_lookup(appended.drop_first(), q));
                assert(spec_lookup(cells, q) == spec_lookup(cells.drop_first(), q));
            }
        }
    }
}

} // verus!
