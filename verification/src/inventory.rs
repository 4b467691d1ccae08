use vstd::prelude::*;

verus! {

/// Team members and items that an inventory can hold.
#[derive(Clone, Copy, Debug, PartialEq, Eq, Structural)]
pub enum InventoryItem {
    Thief,
    Diplomat,
    Researcher,
    PromoLootBox,
}

impl InventoryItem {
    /// Only thieves can be recruited for now.
    pub open spec fn spec_is_allowed(&self) -> bool {
        *self == InventoryItem::Thief
    }

    #[verifier::when_used_as_spec(spec_is_allowed)]
    pub fn is_allowed(&self) -> (b: bool)
        ensures
            b == self.spec_is_allowed(),
    {
        match self {
            InventoryItem::Thief => true,
            _ => false,
        }
    }
}

/// A player's inventory account.
pub struct Inventory {
    pub is_initialized: bool,
    pub owner: [u8; 32],
    pub items: Vec<InventoryItem>,
}

/// The mathematical model of an inventory.
pub struct InventoryView {
    pub is_initialized: bool,
    pub owner: [u8; 32],
    pub items: Seq<InventoryItem>,
}

impl View for Inventory {
    type V = InventoryView;

    open spec fn view(&self) -> InventoryView {
        InventoryView { is_initialized: self.is_initialized, owner: self.owner, items: self.items@ }
    }
}

impl Inventory {
    /// Whether `member` is already in the inventory.
    pub fn has_team_member(&self, member: InventoryItem) -> (b: bool)
        ensures
            b == self.items@.contains(member),
    {
        let n = self.items.len();
        for i in 0..n
            invariant
                n == self.items.len(),
                forall|j: int| 0 <= j < i ==> self.items@[j] != member,
        {
            if self.items[i] == member {
                return true;
            }
        }
        false
    }

    /// Adds `member` at the end of the inventory.
    pub fn add_team_member(&mut self, member: InventoryItem)
        ensures
            final(self)@ == (InventoryView { items: old(self)@.items.push(member), ..old(self)@ }),
    {
        self.items.push(member);
    }
}

} // verus!
