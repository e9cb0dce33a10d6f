//! Object categories and scaling attributes named by metadata records.

use vstd::prelude::*;

verus! {

/// The category an asset path belongs to.
#[derive(Debug, Clone, Copy, PartialEq, Eq, Structural)]
pub enum ObjectType {
    Unknown,
    Vfx,
    DemiHuman,
    Accessory,
    World,
    Housing,
    Monster,
    Icon,
    LoadingScreen,
    GameMap,
    Interface,
    Equipment,
    Character,
    Weapon,
    Font,
}

impl Default for ObjectType {
    /// The default category is `Unknown`.
    fn default() -> (r: Self)
        ensures
            r == ObjectType::Unknown,
    {
        ObjectType::Unknown
    }
}

/// One racial-scaling attribute of a subrace.
#[derive(Debug, Clone, Copy, PartialEq, Eq, Structural)]
pub enum RspAttribute {
    MaleMinSize,
    MaleMaxSize,
    MaleMinTail,
    MaleMaxTail,
    FemaleMinSize,
    FemaleMaxSize,
    FemaleMinTail,
    FemaleMaxTail,
    BustMinX,
    BustMinY,
    BustMinZ,
    BustMaxX,
    BustMaxY,
    BustMaxZ,
    NumAttributes,
}

} // verus!
