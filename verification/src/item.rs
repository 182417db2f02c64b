//! Item stacks, modeled over the data the stack bookkeeping actually
//! reads: an item's registry identifier and its maximum stack size. The
//! full data-component machinery lives in the data layer; the counting
//! rules here are what inventory code relies on.

use vstd::prelude::*;

verus! {

/// Item rarity tiers.
#[derive(Clone, Copy, Debug, PartialEq, Eq, Structural)]
pub enum Rarity {
    Common,
    UnCommon,
    Rare,
    Epic,
}

/// The player game modes the stack rules distinguish.
#[derive(Clone, Copy, Debug, PartialEq, Eq, Structural)]
pub enum GameMode {
    Survival,
    Creative,
    Adventure,
    Spectator,
}

/// The data of an item kind that stack bookkeeping reads.
#[derive(Clone, Copy, Debug, PartialEq, Eq, Structural)]
pub struct Item {
    /// Registry identifier; zero is air.
    pub id: u16,
    /// Largest count one stack of this item may hold.
    pub max_stack_size: u8,
}

impl Item {
    /// The empty item.
    pub fn air() -> (r: Item)
        ensures
            r.id == 0,
            r.max_stack_size == 64,
    {
        Item { id: 0, max_stack_size: 64 }
    }
}

/// A counted stack of one item kind.
#[derive(Clone, Copy, Debug, PartialEq, Eq, Structural)]
pub struct ItemStack {
    pub item_count: u8,
    pub item: Item,
}

impl ItemStack {
    pub fn new(item_count: u8, item: Item) -> (r: ItemStack)
        ensures
            r.item_count == item_count,
            r.item == item,
    {
        ItemStack { item_count, item }
    }

    /// Largest count this stack may hold.
    pub fn get_max_stack_size(&self) -> (r: u8)
        ensures
            r == self.item.max_stack_size,
    {
        self.item.max_stack_size
    }

    /// The stack's item, or air for an empty stack.
    pub fn get_item(&self) -> (r: Item)
        ensures
            self.spec_is_empty() ==> r.id == 0,
            !self.spec_is_empty() ==> r == self.item,
    {
        if self.is_empty() {
            Item::air()
        } else {
            self.item
        }
    }

    /// Whether more than one of the item fits in a stack.
    pub fn is_stackable(&self) -> (r: bool)
        ensures
            r == (self.item.max_stack_size > 1),
    {
        self.get_max_stack_size() > 1
    }

    pub open spec fn spec_is_empty(self) -> bool {
        self.item_count == 0 || self.item.id == 0
    }

    /// Whether the stack holds nothing.
    pub fn is_empty(&self) -> (r: bool)
        ensures
            r == self.spec_is_empty(),
    {
        self.item_count == 0 || self.item.id == 0
    }

    /// Takes up to `amount` off this stack and returns it as a new stack.
    pub fn split(&mut self, amount: u8) -> (r: ItemStack)
        ensures
            ({
                let taken = if amount < old(self).item_count {
                    amount
                } else {
                    old(self).item_count
                };
                &&& r.item_count == taken
                &&& r.item == old(self).item
                &&& final(self).item == old(self).item
                &&& final(self).item_count == old(self).item_count - taken
            }),
    {
        let min: u8 = if amount < self.item_count {
            amount
        } else {
            self.item_count
        };
        let stack: ItemStack = self.copy_with_count(min);
        self.decrement(min);
        stack
    }

    /// As [`Self::split`], but a creative-mode player pays nothing.
    pub fn split_unless_creative(&mut self, gamemode: GameMode, amount: u8) -> (r: ItemStack)
        ensures
            ({
                let taken = if amount < old(self).item_count {
                    amount
                } else {
                    old(self).item_count
                };
                &&& r.item_count == taken
                &&& r.item == old(self).item
                &&& final(self).item == old(self).item
                &&& gamemode != GameMode::Creative ==> final(self).item_count == old(
                    self,
                ).item_count - taken
                &&& gamemode == GameMode::Creative ==> final(self).item_count == old(
                    self,
                ).item_count
            }),
    {
        let min: u8 = if amount < self.item_count {
            amount
        } else {
            self.item_count
        };
        let stack: ItemStack = self.copy_with_count(min);
        if !matches!(gamemode, GameMode::Creative) {
            self.decrement(min);
        }
        stack
    }

    /// The same item with another count.
    pub fn copy_with_count(&self, count: u8) -> (r: ItemStack)
        ensures
            r.item == self.item,
            r.item_count == count,
    {
        ItemStack { item_count: count, item: self.item }
    }

    pub fn set_count(&mut self, count: u8)
        ensures
            final(self).item == old(self).item,
            final(self).item_count == count,
    {
        self.item_count = count;
    }

    /// Removes up to `amount`, stopping at empty.
    pub fn decrement(&mut self, amount: u8)
        ensures
            final(self).item == old(self).item,
            final(self).item_count == if amount <= old(self).item_count {
                (old(self).item_count - amount) as u8
            } else {
                0u8
            },
    {
        self.item_count = self.item_count.saturating_sub(amount);
    }

    /// Adds up to `amount`, stopping at the numeric ceiling.
    pub fn increment(&mut self, amount: u8)
        ensures
            final(self).item == old(self).item,
            final(self).item_count == if old(self).item_count + amount <= 255 {
                (old(self).item_count + amount) as u8
            } else {
                255u8
            },
    {
        self.item_count = self.item_count.saturating_add(amount);
    }

    /// Whether two stacks hold the same item kind.
    pub fn are_items_and_components_equal(&self, other: &ItemStack) -> (r: bool)
        ensures
            r == (self.item == other.item),
    {
        self.item.id == other.item.id && self.item.max_stack_size == other.item.max_stack_size
    }

    /// Whether two stacks are equal in kind and count.
    pub fn are_equal(&self, other: &ItemStack) -> (r: bool)
        ensures
            r == (self.item == other.item && self.item_count == other.item_count),
    {
        self.item_count == other.item_count && self.are_items_and_components_equal(other)
    }
}

} // verus!
