//! Equipment and body slots, and the bit positions each equipment slot owns
//! in the parameter and deformation tables.

use vstd::prelude::*;

verus! {

/// A gear slot on a character.
#[derive(Debug, Clone, Copy, PartialEq, Eq, Structural)]
pub enum EquipSlot {
    Unknown,
    MainHand,
    OffHand,
    Head,
    Body,
    Hands,
    Belt,
    Legs,
    Feet,
    Ears,
    Neck,
    Wrists,
    RFinger,
    BothHand,
    LFinger,
    HeadBody,
    BodyHandsLegsFeet,
    SoulCrystal,
    LegsFeet,
    FullBody,
    BodyHands,
    BodyLegsFeet,
    ChestHands,
    Nothing,
    All,
}

impl EquipSlot {
    /// The slots that carry an equipment-parameter entry.
    pub open spec fn spec_is_equipment(self) -> bool {
        self == EquipSlot::Head || self == EquipSlot::Body || self == EquipSlot::Hands
            || self == EquipSlot::Legs || self == EquipSlot::Feet
    }

    /// The accessory slots.
    pub open spec fn spec_is_accessory(self) -> bool {
        self == EquipSlot::Ears || self == EquipSlot::Neck || self == EquipSlot::Wrists
            || self == EquipSlot::LFinger || self == EquipSlot::RFinger
    }

    /// The three-letter file suffix of a slot, `"unk"` for slots that have
    /// none.
    pub open spec fn spec_suffix(self) -> Seq<char> {
        if self == EquipSlot::Head {
            "met"@
        } else if self == EquipSlot::Hands {
            "glv"@
        } else if self == EquipSlot::Legs {
            "dwn"@
        } else if self == EquipSlot::Feet {
            "sho"@
        } else if self == EquipSlot::Body {
            "top"@
        } else if self == EquipSlot::Ears {
            "ear"@
        } else if self == EquipSlot::Neck {
            "nek"@
        } else if self == EquipSlot::RFinger {
            "rir"@
        } else if self == EquipSlot::LFinger {
            "ril"@
        } else if self == EquipSlot::Wrists {
            "wrs"@
        } else {
            "unk"@
        }
    }

    /// The slot a three-letter file suffix names, `Unknown` for any other
    /// string.
    pub open spec fn spec_from_suffix(s: Seq<char>) -> EquipSlot {
        if s == "met"@ {
            EquipSlot::Head
        } else if s == "glv"@ {
            EquipSlot::Hands
        } else if s == "dwn"@ {
            EquipSlot::Legs
        } else if s == "sho"@ {
            EquipSlot::Feet
        } else if s == "top"@ {
            EquipSlot::Body
        } else if s == "ear"@ {
            EquipSlot::Ears
        } else if s == "nek"@ {
            EquipSlot::Neck
        } else if s == "rir"@ {
            EquipSlot::RFinger
        } else if s == "ril"@ {
            EquipSlot::LFinger
        } else if s == "wrs"@ {
            EquipSlot::Wrists
        } else {
            EquipSlot::Unknown
        }
    }

    /// The file suffix of this slot.
    pub fn to_suffix(self) -> (r: &'static str)
        ensures
            r@ == self.spec_suffix(),
    {
        match self {
            EquipSlot::Head => "met",
            EquipSlot::Hands => "glv",
            EquipSlot::Legs => "dwn",
            EquipSlot::Feet => "sho",
            EquipSlot::Body => "top",
            EquipSlot::Ears => "ear",
            EquipSlot::Neck => "nek",
            EquipSlot::RFinger => "rir",
            EquipSlot::LFinger => "ril",
            EquipSlot::Wrists => "wrs",
            _ => "unk",
        }
    }

    /// The slot named by a file suffix.
    pub fn from_suffix(st: &str) -> (r: EquipSlot)
        ensures
            r == Self::spec_from_suffix(st@),
    {
        let s = st.to_owned();
        if s == "met".to_owned() {
            EquipSlot::Head
        } else if s == "glv".to_owned() {
            EquipSlot::Hands
        } else if s == "dwn".to_owned() {
            EquipSlot::Legs
        } else if s == "sho".to_owned() {
            EquipSlot::Feet
        } else if s == "top".to_owned() {
            EquipSlot::Body
        } else if s == "ear".to_owned() {
            EquipSlot::Ears
        } else if s == "nek".to_owned() {
            EquipSlot::Neck
        } else if s == "rir".to_owned() {
            EquipSlot::RFinger
        } else if s == "ril".to_owned() {
            EquipSlot::LFinger
        } else if s == "wrs".to_owned() {
            EquipSlot::Wrists
        } else {
            EquipSlot::Unknown
        }
    }

    /// The byte count and byte offset of this slot's field in one
    /// equipment-parameter row.
    pub fn eqp_bytes_offset(self) -> (r: (u32, u32))
        requires
            self.spec_is_equipment(),
        ensures
            self == EquipSlot::Body ==> r == (2u32, 0u32),
            self == EquipSlot::Legs ==> r == (1u32, 2u32),
            self == EquipSlot::Hands ==> r == (1u32, 3u32),
            self == EquipSlot::Feet ==> r == (1u32, 4u32),
            self == EquipSlot::Head ==> r == (3u32, 5u32),
    {
        match self {
            EquipSlot::Body => (2, 0),
            EquipSlot::Legs => (1, 2),
            EquipSlot::Hands => (1, 3),
            EquipSlot::Feet => (1, 4),
            _ => (3, 5),
        }
    }

    /// The bit mask this slot owns in one equipment-parameter row.
    pub fn eqp_mask(self) -> (r: u64)
        requires
            self.spec_is_equipment(),
        ensures
            self == EquipSlot::Body ==> r == 0xFFFF,
            self == EquipSlot::Legs ==> r == 0xFF0000,
            self == EquipSlot::Hands ==> r == 0xFF000000,
            self == EquipSlot::Feet ==> r == 0xFF00000000,
            self == EquipSlot::Head ==> r == 0xFF0000000000,
    {
        match self {
            EquipSlot::Body => 0xFFFF,
            EquipSlot::Legs => 0xFF0000,
            EquipSlot::Hands => 0xFF000000,
            EquipSlot::Feet => 0xFF00000000,
            _ => 0xFF0000000000,
        }
    }

    /// The two-bit mask this slot owns in one deformation-parameter entry.
    pub fn eqdp_mask(self) -> (r: u8)
        requires
            self.spec_is_equipment() || self.spec_is_accessory(),
        ensures
            self == EquipSlot::Head || self == EquipSlot::Ears ==> r == 0b00000011,
            self == EquipSlot::Body || self == EquipSlot::Neck ==> r == 0b00001100,
            self == EquipSlot::Hands || self == EquipSlot::Wrists ==> r == 0b00110000,
            self == EquipSlot::Legs || self == EquipSlot::RFinger ==> r == 0b11000000,
            self == EquipSlot::Feet || self == EquipSlot::LFinger ==> r == 0b11000000,
    {
        match self {
            EquipSlot::Head | EquipSlot::Ears => 0b00000011,
            EquipSlot::Body | EquipSlot::Neck => 0b00001100,
            EquipSlot::Hands | EquipSlot::Wrists => 0b00110000,
            _ => 0b11000000,
        }
    }

    /// The bit offset of this slot's field in one deformation-parameter
    /// entry.
    pub fn eqdp_bytes_offset(self) -> (r: u64)
        requires
            self.spec_is_equipment() || self.spec_is_accessory(),
        ensures
            self == EquipSlot::Head || self == EquipSlot::Ears ==> r == 0,
            self == EquipSlot::Body || self == EquipSlot::Neck ==> r == 2,
            self == EquipSlot::Hands || self == EquipSlot::Wrists ==> r == 4,
            self == EquipSlot::Legs || self == EquipSlot::RFinger ==> r == 6,
            self == EquipSlot::Feet || self == EquipSlot::LFinger ==> r == 8,
    {
        match self {
            EquipSlot::Head | EquipSlot::Ears => 0,
            EquipSlot::Body | EquipSlot::Neck => 2,
            EquipSlot::Hands | EquipSlot::Wrists => 4,
            EquipSlot::Legs | EquipSlot::RFinger => 6,
            _ => 8,
        }
    }

    /// Whether this slot is an accessory slot.
    pub fn is_accessory(self) -> (r: bool)
        ensures
            r == self.spec_is_accessory(),
    {
        match self {
            EquipSlot::Ears => true,
            EquipSlot::Neck => true,
            EquipSlot::Wrists => true,
            EquipSlot::LFinger => true,
            EquipSlot::RFinger => true,
            _ => false,
        }
    }

    /// Whether this slot is one of the five equipment slots.
    pub fn is_equipment(self) -> (r: bool)
        ensures
            r == self.spec_is_equipment(),
    {
        match self {
            EquipSlot::Head => true,
            EquipSlot::Legs => true,
            EquipSlot::Feet => true,
            EquipSlot::Hands => true,
            EquipSlot::Body => true,
            _ => false,
        }
    }
}

/// A body-part slot of a character model.
#[derive(Debug, Clone, Copy, PartialEq, Eq, Structural)]
pub enum BodySlot {
    Unknown,
    Hair,
    Face,
    Tail,
    Body,
    Zear,
}

} // verus!
