//! Tests of the plain record types and their bit-level constructors, the
//! texture container bookkeeping, and the slot tables.

use sqdat::dat::shared::{CompressionMode, FileType};
use sqdat::equipslots::{BodySlot, EquipSlot};
use sqdat::gamedata::{Gender, GenderRace, ModelRace, Race, Subrace};
use sqdat::interop::{ObjectType, RspAttribute};
use sqdat::meta::{EstEntry, GmpEntry, ImcEntry, MetaManipulation, EqpJson};
use sqdat::modpack::{SelectType, SimpleMod};
use sqdat::texfile::{
    blank_matching_pixels, TexFile, TexHeader, TextureFormat, FIRST_MIP_OFFSET, TEXTURE_TYPE_2D,
};

#[test]
fn compression_mode_sentinel() {
    // The sentinel always means uncompressed, whatever the second field is.
    assert_eq!(
        CompressionMode::classify(32000, 0),
        CompressionMode::Uncompressed { file_size: 0 }
    );
    assert_eq!(
        CompressionMode::classify(32000, 0xFFFF_FFFF),
        CompressionMode::Uncompressed { file_size: 0xFFFF_FFFF }
    );
    // Any other first field always means compressed.
    assert_eq!(
        CompressionMode::classify(31999, 64),
        CompressionMode::Compressed { compressed_length: 31999, decompressed_length: 64 }
    );
    assert_eq!(
        CompressionMode::classify(32001, 64),
        CompressionMode::Compressed { compressed_length: 32001, decompressed_length: 64 }
    );
}

#[test]
fn file_type_codes() {
    assert_eq!(FileType::from_code(1), Some(FileType::Empty));
    assert_eq!(FileType::from_code(2), Some(FileType::Standard));
    assert_eq!(FileType::from_code(3), Some(FileType::Model));
    assert_eq!(FileType::from_code(4), Some(FileType::Texture));
    assert_eq!(FileType::from_code(0), None);
    assert_eq!(FileType::from_code(5), None);
    assert_eq!(FileType::Texture.code(), 4);
}

#[test]
fn equip_slot_suffixes() {
    assert_eq!(EquipSlot::Head.to_suffix(), "met");
    assert_eq!(EquipSlot::Body.to_suffix(), "top");
    assert_eq!(EquipSlot::MainHand.to_suffix(), "unk");
    assert_eq!(EquipSlot::from_suffix("met"), EquipSlot::Head);
    assert_eq!(EquipSlot::from_suffix("glv"), EquipSlot::Hands);
    assert_eq!(EquipSlot::from_suffix("dwn"), EquipSlot::Legs);
    assert_eq!(EquipSlot::from_suffix("sho"), EquipSlot::Feet);
    assert_eq!(EquipSlot::from_suffix("top"), EquipSlot::Body);
    assert_eq!(EquipSlot::from_suffix("ear"), EquipSlot::Ears);
    assert_eq!(EquipSlot::from_suffix("nek"), EquipSlot::Neck);
    assert_eq!(EquipSlot::from_suffix("rir"), EquipSlot::RFinger);
    assert_eq!(EquipSlot::from_suffix("ril"), EquipSlot::LFinger);
    assert_eq!(EquipSlot::from_suffix("wrs"), EquipSlot::Wrists);
    assert_eq!(EquipSlot::from_suffix("xyz"), EquipSlot::Unknown);
}

#[test]
fn equip_slot_eqp_tables() {
    assert_eq!(EquipSlot::Body.eqp_bytes_offset(), (2, 0));
    assert_eq!(EquipSlot::Legs.eqp_bytes_offset(), (1, 2));
    assert_eq!(EquipSlot::Hands.eqp_bytes_offset(), (1, 3));
    assert_eq!(EquipSlot::Feet.eqp_bytes_offset(), (1, 4));
    assert_eq!(EquipSlot::Head.eqp_bytes_offset(), (3, 5));
    assert_eq!(EquipSlot::Body.eqp_mask(), 0xFFFF);
    assert_eq!(EquipSlot::Legs.eqp_mask(), 0xFF << 16);
    assert_eq!(EquipSlot::Hands.eqp_mask(), 0xFF << 24);
    assert_eq!(EquipSlot::Feet.eqp_mask(), 0xFF << 32);
    assert_eq!(EquipSlot::Head.eqp_mask(), 0xFF << 40);
}

#[test]
fn equip_slot_eqdp_tables() {
    assert_eq!(EquipSlot::Head.eqdp_mask(), 0b0000_0011);
    assert_eq!(EquipSlot::Body.eqdp_mask(), 0b0000_1100);
    assert_eq!(EquipSlot::Wrists.eqdp_mask(), 0b0011_0000);
    assert_eq!(EquipSlot::RFinger.eqdp_mask(), 0b1100_0000);
    assert_eq!(EquipSlot::LFinger.eqdp_mask(), 0b1100_0000);
    assert_eq!(EquipSlot::Head.eqdp_bytes_offset(), 0);
    assert_eq!(EquipSlot::Neck.eqdp_bytes_offset(), 2);
    assert_eq!(EquipSlot::Hands.eqdp_bytes_offset(), 4);
    assert_eq!(EquipSlot::Legs.eqdp_bytes_offset(), 6);
    assert_eq!(EquipSlot::Feet.eqdp_bytes_offset(), 8);
}

#[test]
fn equip_slot_classes() {
    assert!(EquipSlot::Ears.is_accessory());
    assert!(!EquipSlot::Body.is_accessory());
    assert!(EquipSlot::Body.is_equipment());
    assert!(!EquipSlot::Neck.is_equipment());
    assert!(!EquipSlot::SoulCrystal.is_equipment());
    assert_eq!(BodySlot::Zear, BodySlot::Zear);
}

#[test]
fn gender_race_split() {
    assert_eq!(
        GenderRace::HyurMidlanderMale.split(),
        (Gender::Male, ModelRace::Midlander)
    );
    assert_eq!(
        GenderRace::HyurHighlanderFemale.split(),
        (Gender::Female, ModelRace::Highlander)
    );
    assert_eq!(GenderRace::VieraMale.split(), (Gender::Male, ModelRace::Viera));
    assert_eq!(
        GenderRace::LalafellFemale.split(),
        (Gender::Female, ModelRace::Lalafell)
    );
}

#[test]
fn gender_race_ids() {
    assert_eq!(GenderRace::from_id(101), Some(GenderRace::HyurMidlanderMale));
    assert_eq!(GenderRace::from_id(1001), Some(GenderRace::RoegadynFemale));
    assert_eq!(GenderRace::from_id(1801), Some(GenderRace::VieraFemale));
    assert_eq!(GenderRace::from_id(102), None);
    // The enums travel together in records.
    assert_eq!(Race::Hyur, Race::Hyur);
    assert_eq!(Subrace::Dunesfolk, Subrace::Dunesfolk);
}

#[test]
fn object_type_default() {
    assert_eq!(ObjectType::default(), ObjectType::Unknown);
    assert_eq!(RspAttribute::BustMaxZ, RspAttribute::BustMaxZ);
}

#[test]
fn gmp_entry_unpacking() {
    // val = 1 | (rotation 5 << 2) | (rotation 9 << 12) | (rotation 1023 << 22)
    let val: u32 = 1 | (5 << 2) | (9 << 12) | (1023 << 22);
    let e = GmpEntry::from_raw(val, 0xAB);
    assert!(e.enabled);
    assert!(!e.animated); // the flag's test compares bit one against one
    assert_eq!(e.rotation_a, 5);
    assert_eq!(e.rotation_b, 9);
    assert_eq!(e.rotation_c, 1023);
    assert_eq!(e.unknown_a, 0x0B);
    assert_eq!(e.unknown_b, 0x0A);
    assert_eq!(
        e.value,
        (val as u64 & !0xFF_0000_0000u64) | ((0xABu64) << 32)
    );
}

#[test]
fn imc_entry_unpacking() {
    let e = ImcEntry::from_raw(3, 4, (2 << 10) | 0x155, 5, 6);
    assert_eq!(e.material_id, 3);
    assert_eq!(e.decal_id, 4);
    assert_eq!(e.vfx_id, 5);
    assert_eq!(e.material_animation_id, 6);
    assert_eq!(e.attribute_mask, 0x155);
    assert_eq!(e.sound_id, 2);
}

#[test]
fn meta_records_hold_their_fields() {
    let est = EstEntry { gr: 101, id: 7, val: 9 };
    assert_eq!(est.val, 9);
    let m = MetaManipulation::Eqp(EqpJson {
        slot: EquipSlot::Body,
        set_id: 21,
        entry: 0xFFFF,
    });
    match m {
        MetaManipulation::Eqp(e) => {
            assert_eq!(e.set_id, 21);
            assert_eq!(e.entry, 0xFFFF);
        }
        _ => unreachable!(),
    }
    let sm = SimpleMod {
        name: String::from("a"),
        category: String::from("b"),
        full_path: String::from("c"),
        dat_file: String::from("d"),
        mod_offset: 1,
        mod_size: 2,
    };
    assert_eq!(sm.mod_size, 2);
    assert_eq!(SelectType::Single, SelectType::Single);
}

#[test]
fn tex_file_new_defaults() {
    let t = TexFile::new(64, 32, 20);
    assert_eq!(t.header.attribute, TEXTURE_TYPE_2D);
    assert_eq!(t.header.format, TextureFormat::B8G8R8A8);
    assert_eq!(t.header.width, 64);
    assert_eq!(t.header.height, 32);
    assert_eq!(t.header.depth, 1);
    assert_eq!(t.header.mip_levels, 13); // clamped
    assert_eq!(t.header.lod_offsets, [0, 1, 2]);
    assert_eq!(t.header.offset_to_surface, [0u32; 13]);
    assert_eq!(t.meta.colorbytes, 4);
    assert!(t.textures.is_empty());
}

#[test]
fn push_tex_records_offsets() {
    let mut t = TexFile::new(4, 4, 3);
    let mip0 = vec![1u8; 64]; // 4 * 4 * 4 bytes
    let mip1 = vec![2u8; 16];
    let mip2 = vec![3u8; 4];
    t.push_tex(&mip0);
    t.push_tex(&mip1);
    t.push_tex(&mip2);
    assert_eq!(t.textures.len(), 3);
    assert_eq!(t.textures[0].rgba, mip0);
    assert_eq!(t.textures[2].rgba, mip2);
    assert_eq!(t.header.offset_to_surface[0], FIRST_MIP_OFFSET);
    assert_eq!(t.header.offset_to_surface[1], 80 + 64);
    assert_eq!(t.header.offset_to_surface[2], 80 + 64 + 16);
}

#[test]
fn tex_header_bytes_roundtrip() {
    let mut t = TexFile::new(8, 4, 2);
    t.header.offset_to_surface[0] = 80;
    t.header.offset_to_surface[1] = 208;
    let bytes = t.header.to_bytes();
    assert_eq!(bytes.len(), 80);
    assert_eq!(&bytes[0..4], &TEXTURE_TYPE_2D.to_le_bytes());
    assert_eq!(&bytes[4..8], &0x1450u32.to_le_bytes());
    assert_eq!(&bytes[8..10], &8u16.to_le_bytes());
    assert_eq!(&bytes[10..12], &4u16.to_le_bytes());
    let parsed = TexHeader::from_bytes(&bytes).unwrap();
    assert_eq!(parsed, t.header);
}

#[test]
fn tex_header_rejects_short_or_unknown() {
    assert_eq!(TexHeader::from_bytes(&[0u8; 40]), None);
    let mut bad = TexFile::new(8, 4, 2).header.to_bytes();
    bad[4] = 0xFF; // no format has this code
    bad[5] = 0xFF;
    assert_eq!(TexHeader::from_bytes(&bad), None);
}

#[test]
fn mip_data_sizes_from_offsets() {
    let mut t = TexFile::new(8, 8, 3);
    t.header.offset_to_surface[0] = 80;
    t.header.offset_to_surface[1] = 80 + 256;
    t.header.offset_to_surface[2] = 80 + 256 + 64;
    let sizes = t.header.mip_data_sizes(80 + 256 + 64 + 16).unwrap();
    assert_eq!(sizes, vec![256, 64, 16]);
    // Decreasing offsets have no consistent sizes.
    t.header.offset_to_surface[1] = 40;
    assert_eq!(t.header.mip_data_sizes(1000), None);
}

#[test]
fn texture_format_codes() {
    assert_eq!(TextureFormat::BC1.code(), 0x3420);
    assert_eq!(TextureFormat::from_code(0x3431), Some(TextureFormat::BC3));
    assert_eq!(TextureFormat::from_code(0x6230), Some(TextureFormat::BC5));
    assert_eq!(TextureFormat::from_code(0x1451), Some(TextureFormat::X8R8G8B8));
    assert_eq!(TextureFormat::from_code(0x9999), None);
}

#[test]
fn blank_matching_pixel_groups() {
    let mut upper = vec![1, 2, 3, 4, 9, 9, 9, 9, 5, 6, 7, 8];
    let lower = vec![1, 2, 3, 4, 0, 0, 0, 0, 5, 6, 7, 8, 13, 14];
    blank_matching_pixels(&mut upper, &lower);
    // Groups one and three matched and were blanked; group two differed and
    // stayed.
    assert_eq!(upper, vec![0, 0, 0, 0, 9, 9, 9, 9, 0, 0, 0, 0]);
}
