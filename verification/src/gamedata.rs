//! Character races, genders and the combined gender-race codes used by model
//! paths and metadata records.

use vstd::prelude::*;

verus! {

/// The race a model is built for. Hyur models split into the two Hyur
/// subraces; every other race has one model line.
#[derive(Debug, Clone, Copy, PartialEq, Eq, Structural)]
pub enum ModelRace {
    Unknown,
    Midlander,
    Highlander,
    Elezen,
    Lalafell,
    Miqote,
    Roegadyn,
    AuRa,
    Hrothgar,
    Viera,
}

/// Gender of the character.
#[derive(Debug, Clone, Copy, PartialEq, Eq, Structural)]
pub enum Gender {
    Male,
    Female,
}

/// The race's "subrace". Each race has two subraces, which are identical
/// with the exception of Hyurs, whose two subraces are really two separate
/// races.
#[derive(Debug, Clone, Copy, PartialEq, Eq, Structural)]
pub enum Subrace {
    Midlander,
    Highlander,
    Wildwood,
    Duskwight,
    Plainsfolk,
    Dunesfolk,
    Seeker,
    Keeper,
    SeaWolf,
    Hellsguard,
    Raen,
    Xaela,
    Hellion,
    Lost,
    Rava,
    Veena,
}

/// The major playable races.
#[derive(Debug, Clone, Copy, PartialEq, Eq, Structural)]
pub enum Race {
    Hyur,
    Elezen,
    Lalafell,
    Miqote,
    Roegadyn,
    AuRa,
    Hrothgar,
    Viera,
}

/// One combined gender-and-race code, as stored in model paths and metadata
/// records.
#[derive(Debug, Clone, Copy, PartialEq, Eq, Structural)]
pub enum GenderRace {
    HyurMidlanderMale,
    HyurMidlanderFemale,
    HyurHighlanderMale,
    HyurHighlanderFemale,
    ElezenMale,
    ElezenFemale,
    MiqoteMale,
    MiqoteFemale,
    RoegadynMale,
    RoegadynFemale,
    LalafellMale,
    LalafellFemale,
    AuRaMale,
    AuRaFemale,
    HrothgarMale,
    HrothgarFemale,
    VieraMale,
    VieraFemale,
}

impl GenderRace {
    /// The gender and model race a combined code splits into.
    pub open spec fn spec_split(self) -> (Gender, ModelRace) {
        match self {
            GenderRace::HyurMidlanderMale => (Gender::Male, ModelRace::Midlander),
            GenderRace::HyurMidlanderFemale => (Gender::Female, ModelRace::Midlander),
            GenderRace::HyurHighlanderMale => (Gender::Male, ModelRace::Highlander),
            GenderRace::HyurHighlanderFemale => (Gender::Female, ModelRace::Highlander),
            GenderRace::ElezenMale => (Gender::Male, ModelRace::Elezen),
            GenderRace::ElezenFemale => (Gender::Female, ModelRace::Elezen),
            GenderRace::LalafellMale => (Gender::Male, ModelRace::Lalafell),
            GenderRace::LalafellFemale => (Gender::Female, ModelRace::Lalafell),
            GenderRace::MiqoteMale => (Gender::Male, ModelRace::Miqote),
            GenderRace::MiqoteFemale => (Gender::Female, ModelRace::Miqote),
            GenderRace::RoegadynMale => (Gender::Male, ModelRace::Roegadyn),
            GenderRace::RoegadynFemale => (Gender::Female, ModelRace::Roegadyn),
            GenderRace::AuRaMale => (Gender::Male, ModelRace::AuRa),
            GenderRace::AuRaFemale => (Gender::Female, ModelRace::AuRa),
            GenderRace::HrothgarMale => (Gender::Male, ModelRace::Hrothgar),
            GenderRace::HrothgarFemale => (Gender::Female, ModelRace::Hrothgar),
            GenderRace::VieraMale => (Gender::Male, ModelRace::Viera),
            GenderRace::VieraFemale => (Gender::Female, ModelRace::Viera),
        }
    }

    /// The numeric code of this gender-race combination, as stored on disk.
    pub open spec fn spec_id(self) -> u16 {
        match self {
            GenderRace::HyurMidlanderMale => 101,
            GenderRace::HyurMidlanderFemale => 201,
            GenderRace::HyurHighlanderMale => 301,
            GenderRace::HyurHighlanderFemale => 401,
            GenderRace::ElezenMale => 501,
            GenderRace::ElezenFemale => 601,
            GenderRace::MiqoteMale => 701,
            GenderRace::MiqoteFemale => 801,
            GenderRace::RoegadynMale => 901,
            GenderRace::RoegadynFemale => 1001,
            GenderRace::LalafellMale => 1101,
            GenderRace::LalafellFemale => 1201,
            GenderRace::AuRaMale => 1301,
            GenderRace::AuRaFemale => 1401,
            GenderRace::HrothgarMale => 1501,
            GenderRace::HrothgarFemale => 1601,
            GenderRace::VieraMale => 1701,
            GenderRace::VieraFemale => 1801,
        }
    }

    /// Splits a combined code into its gender and model race.
    pub fn split(self) -> (r: (Gender, ModelRace))
        ensures
            r == self.spec_split(),
    {
        match self {
            GenderRace::HyurMidlanderMale => (Gender::Male, ModelRace::Midlander),
            GenderRace::HyurMidlanderFemale => (Gender::Female, ModelRace::Midlander),
            GenderRace::HyurHighlanderMale => (Gender::Male, ModelRace::Highlander),
            GenderRace::HyurHighlanderFemale => (Gender::Female, ModelRace::Highlander),
            GenderRace::ElezenMale => (Gender::Male, ModelRace::Elezen),
            GenderRace::ElezenFemale => (Gender::Female, ModelRace::Elezen),
            GenderRace::LalafellMale => (Gender::Male, ModelRace::Lalafell),
            GenderRace::LalafellFemale => (Gender::Female, ModelRace::Lalafell),
            GenderRace::MiqoteMale => (Gender::Male, ModelRace::Miqote),
            GenderRace::MiqoteFemale => (Gender::Female, ModelRace::Miqote),
            GenderRace::RoegadynMale => (Gender::Male, ModelRace::Roegadyn),
            GenderRace::RoegadynFemale => (Gender::Female, ModelRace::Roegadyn),
            GenderRace::AuRaMale => (Gender::Male, ModelRace::AuRa),
            GenderRace::AuRaFemale => (Gender::Female, ModelRace::AuRa),
            GenderRace::HrothgarMale => (Gender::Male, ModelRace::Hrothgar),
            GenderRace::HrothgarFemale => (Gender::Female, ModelRace::Hrothgar),
            GenderRace::VieraMale => (Gender::Male, ModelRace::Viera),
            GenderRace::VieraFemale => (Gender::Female, ModelRace::Viera),
        }
    }

    /// The combined code a stored numeric id denotes, if any.
    pub fn from_id(id: u16) -> (r: Option<GenderRace>)
        ensures
            r matches Some(g) ==> g.spec_id() == id,
            r is None ==> forall|g: GenderRace| g.spec_id() != id,
    {
        match id {
            101u16 => Some(GenderRace::HyurMidlanderMale),
            201u16 => Some(GenderRace::HyurMidlanderFemale),
            301u16 => Some(GenderRace::HyurHighlanderMale),
            401u16 => Some(GenderRace::HyurHighlanderFemale),
            501u16 => Some(GenderRace::ElezenMale),
            601u16 => Some(GenderRace::ElezenFemale),
            701u16 => Some(GenderRace::MiqoteMale),
            801u16 => Some(GenderRace::MiqoteFemale),
            901u16 => Some(GenderRace::RoegadynMale),
            1001u16 => Some(GenderRace::RoegadynFemale),
            1101u16 => Some(GenderRace::LalafellMale),
            1201u16 => Some(GenderRace::LalafellFemale),
            1301u16 => Some(GenderRace::AuRaMale),
            1401u16 => Some(GenderRace::AuRaFemale),
            1501u16 => Some(GenderRace::HrothgarMale),
            1601u16 => Some(GenderRace::HrothgarFemale),
            1701u16 => Some(GenderRace::VieraMale),
            1801u16 => Some(GenderRace::VieraFemale),
            _ => None,
        }
    }
}

} // verus!
