//! Mod-pack descriptions: the plain records a pack file carries to say which
//! archive entries it replaces and how its options are grouped.

use vstd::prelude::*;

verus! {

/// Whether a group offers one choice or several.
#[derive(Debug, Clone, Copy, PartialEq, Eq, Structural)]
pub enum SelectType {
    Single,
    Multi,
}

/// One replaced file: where it lives in the pack's data file and the game
/// path it replaces.
#[derive(Debug, Clone)]
pub struct SimpleMod {
    pub name: String,
    pub category: String,
    pub full_path: String,
    pub dat_file: String,
    pub mod_offset: u32,
    pub mod_size: u32,
}

/// One selectable option of a group.
#[derive(Debug, Clone)]
pub struct OptionList {
    pub name: String,
    pub description: Option<String>,
    pub image_path: String,
    pub mods_jsons: Vec<SimpleMod>,
    pub group_name: String,
    pub is_checked: bool,
}

/// One option group of a pack page.
#[derive(Debug, Clone)]
pub struct ModGroup {
    pub group_name: String,
    pub selection_type: SelectType,
    pub option_list: Vec<OptionList>,
}

/// One page of an extended pack.
#[derive(Debug, Clone)]
pub struct ModPackPage {
    pub page_index: i32,
    pub mod_groups: Vec<ModGroup>,
}

/// An extended pack: named pages of option groups, or a flat mod list.
#[derive(Debug, Clone)]
pub struct ExtendedModPack {
    pub name: String,
    pub author: Option<String>,
    pub description: Option<String>,
    pub mod_pack_pages: Option<Vec<ModPackPage>>,
    pub simple_mods_list: Option<Vec<SimpleMod>>,
}

/// A simple pack: one flat list of replaced files.
#[derive(Debug, Clone)]
pub struct SimpleModPack {
    pub ttmp_version: String,
    pub name: String,
    pub author: String,
    pub version: String,
    pub description: String,
    pub simple_mods_list: Option<Vec<SimpleMod>>,
}

} // verus!
