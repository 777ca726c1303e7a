//! The things that live on a floor: the player, the bugs, the items and the
//! people, each held by the values the game's rules read.
use vstd::prelude::*;

verus! {

/// The kinds of items lying around a floor.
#[derive(Clone, Copy, PartialEq, Eq, Debug)]
pub enum ItemKind {
    Cookie,
    Coffee,
    USBKey,
}

/// The kinds of bugs that roam a floor.
#[derive(Clone, Copy, PartialEq, Eq, Debug)]
pub enum BugType {
    NullPointer,
    MemoryLeak,
    RaceCondition,
}

/// The people the player may meet.
#[derive(Clone, Copy, PartialEq, Eq, Debug)]
pub enum NpcRole {
    Sysadmin,
    Tester,
    PM,
}

/// The last surviving developer: what the rules track of them besides
/// where they stand and how fast they walk.
#[derive(Debug)]
pub struct Player {
    pub health: i32,
    pub inventory: Vec<ItemKind>,
}

/// A bug: its kind and its numbers. Where it is and where it heads are kept
/// by the world that draws it.
#[derive(Clone, Copy, PartialEq, Eq, Debug)]
pub struct Enemy {
    pub bug_type: BugType,
    pub health: i32,
    pub damage: i32,
}

/// An item that can be picked up.
#[derive(Clone, Copy, PartialEq, Eq, Debug)]
pub struct Item {
    pub kind: ItemKind,
}

/// A person on the floor, with the lines they say.
#[derive(Debug)]
pub struct Npc {
    pub role: NpcRole,
    pub dialog: Vec<String>,
    pub recruited: bool,
}

/// Marks the camera that follows the player.
#[derive(Clone, Copy, PartialEq, Eq, Debug)]
pub struct MainCamera;

/// The name of an item kind, as `{:?}` writes it.
pub open spec fn item_kind_name(kind: ItemKind) -> Seq<char> {
    match kind {
        ItemKind::Cookie => "Cookie"@,
        ItemKind::Coffee => "Coffee"@,
        ItemKind::USBKey => "USBKey"@,
    }
}

/// The name of a role, as `{:?}` writes it.
pub open spec fn npc_role_name(role: NpcRole) -> Seq<char> {
    match role {
        NpcRole::Sysadmin => "Sysadmin"@,
        NpcRole::Tester => "Tester"@,
        NpcRole::PM => "PM"@,
    }
}

impl ItemKind {
    /// The name of this kind, as `{:?}` writes it.
    pub fn name(&self) -> (s: &'static str)
        ensures
            s@ == item_kind_name(*self),
    {
        match self {
            ItemKind::Cookie => "Cookie",
            ItemKind::Coffee => "Coffee",
            ItemKind::USBKey => "USBKey",
        }
    }
}

impl NpcRole {
    /// The name of this role, as `{:?}` writes it.
    pub fn name(&self) -> (s: &'static str)
        ensures
            s@ == npc_role_name(*self),
    {
        match self {
            NpcRole::Sysadmin => "Sysadmin",
            NpcRole::Tester => "Tester",
            NpcRole::PM => "PM",
        }
    }
}

} // verus!
