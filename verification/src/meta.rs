//! The metadata manipulation records carried inside standard entries: one
//! plain record type per table (equipment parameters, deformation parameters,
//! gimmick parameters, extra-skeleton entries, variant entries), and the
//! bit-level constructors that build a record from its raw on-disk fields.

use vstd::prelude::*;
use crate::equipslots::{BodySlot, EquipSlot};
use crate::gamedata::{Gender, ModelRace};
use crate::interop::ObjectType;

verus! {

/// One deformation-parameter manipulation.
#[derive(Debug, Clone, Copy, PartialEq, Eq, Structural)]
pub struct EqdpJson {
    pub entry: u8,
    pub gender: Gender,
    pub race: ModelRace,
    pub slot: EquipSlot,
    pub set_id: u16,
}

/// One equipment-parameter manipulation.
#[derive(Debug, Clone, Copy, PartialEq, Eq, Structural)]
pub struct EqpJson {
    pub slot: EquipSlot,
    pub set_id: u16,
    pub entry: u64,
}

/// The raw bytes of one equipment-parameter field, as stored on disk.
#[derive(Debug, Clone, PartialEq, Eq)]
pub struct EqpEntry {
    pub data: Vec<u8>,
}

/// The table an extra-skeleton entry belongs to.
#[derive(Debug, Clone, Copy, PartialEq, Eq, Structural)]
pub enum EstType {
    Hair,
    Face,
    Body,
    Head,
}

/// One extra-skeleton entry as stored on disk: a gender-race code, a set id,
/// and a skeleton id.
#[derive(Debug, Clone, Copy, PartialEq, Eq, Structural)]
pub struct EstEntry {
    pub gr: u16,
    pub id: u16,
    pub val: u16,
}

/// One extra-skeleton manipulation.
#[derive(Debug, Clone, Copy, PartialEq, Eq, Structural)]
pub struct EstJson {
    pub slot: EstType,
    pub gender: Gender,
    pub race: ModelRace,
    pub entry: u16,
    pub set_id: u16,
}

/// One gimmick-parameter entry, with its packed fields unpacked.
#[derive(Debug, Clone, Copy, PartialEq, Eq, Structural)]
pub struct GmpEntry {
    pub unknown_total: u8,
    pub enabled: bool,
    pub animated: bool,
    pub value: u64,
    pub rotation_a: u16,
    pub rotation_b: u16,
    pub rotation_c: u16,
    pub unknown_a: u8,
    pub unknown_b: u8,
}

impl GmpEntry {
    /// Unpacks a gimmick-parameter entry from its raw on-disk fields: a
    /// 32-bit packed value and a trailing byte. Bit 0 is the enabled flag;
    /// the animated flag tests bit 1 against the value one and so is always
    /// false, kept as the format reader has always computed it; three 10-bit
    /// rotations follow from bit 2; the trailing byte carries two 4-bit
    /// fields and replaces bits 32..40 of the combined value.
    pub fn from_raw(val: u32, unknown_total: u8) -> (r: GmpEntry)
        ensures
            r.unknown_total == unknown_total,
            r.enabled == ((val & 1) == 1),
            r.animated == ((val & 2) == 1),
            r.value == (val as u64 & !0xFF00000000u64) | ((unknown_total as u64 & 0xFF) << 32),
            r.rotation_a == ((val >> 2) & 0x3FF) as u16,
            r.rotation_b == ((val >> 12) & 0x3FF) as u16,
            r.rotation_c == ((val >> 22) & 0x3FF) as u16,
            r.unknown_a == (unknown_total & 0x0F),
            r.unknown_b == ((unknown_total >> 4) & 0x0F),
    {
        assert((val >> 2) & 0x3FF < 0x10000 && (val >> 12) & 0x3FF < 0x10000 && (val >> 22)
            & 0x3FF < 0x10000) by (bit_vector);
        GmpEntry {
            unknown_total,
            enabled: (val & 1) == 1,
            animated: (val & 2) == 1,
            value: (val as u64 & !0xFF00000000u64) | ((unknown_total as u64 & 0xFF) << 32),
            rotation_a: ((val >> 2) & 0x3FF) as u16,
            rotation_b: ((val >> 12) & 0x3FF) as u16,
            rotation_c: ((val >> 22) & 0x3FF) as u16,
            unknown_a: unknown_total & 0x0F,
            unknown_b: (unknown_total >> 4) & 0x0F,
        }
    }
}

/// One gimmick-parameter manipulation.
#[derive(Debug, Clone, Copy, PartialEq, Eq, Structural)]
pub struct GmpJson {
    pub entry: GmpEntry,
    pub set_id: u16,
}

/// One variant entry, with its packed attribute-and-sound field unpacked.
#[derive(Debug, Clone, Copy, PartialEq, Eq, Structural)]
pub struct ImcEntry {
    pub material_id: u8,
    pub decal_id: u8,
    pub vfx_id: u8,
    pub material_animation_id: u8,
    pub attribute_mask: u16,
    pub sound_id: u8,
}

impl ImcEntry {
    /// Unpacks a variant entry from its raw on-disk fields: the packed
    /// 16-bit field carries a 10-bit attribute mask and a 6-bit sound id.
    pub fn from_raw(
        material_id: u8,
        decal_id: u8,
        attribute_and_sound: u16,
        vfx_id: u8,
        material_animation_id: u8,
    ) -> (r: ImcEntry)
        ensures
            r.material_id == material_id,
            r.decal_id == decal_id,
            r.vfx_id == vfx_id,
            r.material_animation_id == material_animation_id,
            r.attribute_mask == attribute_and_sound & 0x3FF,
            r.sound_id == (attribute_and_sound >> 10) as u8,
    {
        assert((attribute_and_sound >> 10) < 0x100) by (bit_vector);
        ImcEntry {
            material_id,
            decal_id,
            vfx_id,
            material_animation_id,
            attribute_mask: attribute_and_sound & 0x3FF,
            sound_id: (attribute_and_sound >> 10) as u8,
        }
    }
}

/// One variant manipulation.
#[derive(Debug, Clone, Copy, PartialEq, Eq, Structural)]
pub struct ImcJson {
    pub primary_id: u32,
    pub variant: u32,
    pub secondary_id: u32,
    pub object_type: ObjectType,
    pub equip_slot: EquipSlot,
    pub body_slot: BodySlot,
    pub entry: ImcEntry,
}

/// One metadata manipulation of any table.
#[derive(Debug, Clone, Copy, PartialEq, Eq, Structural)]
pub enum MetaManipulation {
    Eqdp(EqdpJson),
    Eqp(EqpJson),
    Gmp(GmpJson),
    Est(EstJson),
    Imc(ImcJson),
}

} // verus!
