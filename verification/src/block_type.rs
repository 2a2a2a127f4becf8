use crate::error::BhError;
use vstd::prelude::*;

verus! {

/// The material of a block's foreground or background layer.
///
/// Each kind is bound to one byte of the save format. The numbering has
/// gaps (0, 21 to 23, 66, and everything from 78 on): those bytes name no
/// kind.
#[derive(Debug, Clone, Copy, PartialEq, Eq, Hash, Structural)]
pub enum BlockType {
    Stone,
    Air,
    Water,
    Ice,
    Snow,
    Dirt,
    MinedSand,
    Sand,
    Wood,
    MinedStone,
    RedBrick,
    Limestone,
    MinedLimestone,
    Marble,
    MinedMarble,
    TimeCrystal,
    SandStone,
    MinedSandStone,
    RedMarble,
    MinedRedMarble,
    Glass,
    SpawnPortalBase,
    GoldBlock,
    GrassDirt,
    SnowDirt,
    LapisLazuli,
    MinedLapisLazuli,
    Lava,
    ReinforcedPlatform,
    SpawnPortalBaseAmethyst,
    SpawnPortalBaseSapphire,
    SpawnPortalBaseEmerald,
    SpawnPortalBaseRuby,
    SpawnPortalBaseDiamond,
    NorthPole,
    SouthPole,
    WestPole,
    EastPole,
    PortalBase,
    PortalBaseAmethyst,
    PortalBaseSapphire,
    PortalBaseEmerald,
    PortalBaseRuby,
    PortalBaseDiamond,
    Compost,
    GrassCompost,
    SnowCompost,
    Basalt,
    MinedBasalt,
    CopperBlock,
    TinBlock,
    BronzeBlock,
    IronBlock,
    SteelBlock,
    BlackSand,
    BlackGlass,
    TradePortalBase,
    TradePortalBaseAmethyst,
    TradePortalBaseSapphire,
    TradePortalBaseEmerald,
    TradePortalBaseRuby,
    TradePortalBaseDiamond,
    PlatinumBlock,
    TitaniumBlock,
    CarbonFiberBlock,
    Gravel,
    AmethystBlock,
    SapphireBlock,
    EmeraldBlock,
    RubyBlock,
    DiamondBlock,
    Plaster,
    LuminousPlaster,
}

impl BlockType {
    /// The byte that the save format binds to this kind.
    pub open spec fn code(self) -> u8 {
        match self {
            BlockType::Stone => 1,
            BlockType::Air => 2,
            BlockType::Water => 3,
            BlockType::Ice => 4,
            BlockType::Snow => 5,
            BlockType::Dirt => 6,
            BlockType::MinedSand => 7,
            BlockType::Sand => 8,
            BlockType::Wood => 9,
            BlockType::MinedStone => 10,
            BlockType::RedBrick => 11,
            BlockType::Limestone => 12,
            BlockType::MinedLimestone => 13,
            BlockType::Marble => 14,
            BlockType::MinedMarble => 15,
            BlockType::TimeCrystal => 16,
            BlockType::SandStone => 17,
            BlockType::MinedSandStone => 18,
            BlockType::RedMarble => 19,
            BlockType::MinedRedMarble => 20,
            BlockType::Glass => 24,
            BlockType::SpawnPortalBase => 25,
            BlockType::GoldBlock => 26,
            BlockType::GrassDirt => 27,
            BlockType::SnowDirt => 28,
            BlockType::LapisLazuli => 29,
            BlockType::MinedLapisLazuli => 30,
            BlockType::Lava => 31,
            BlockType::ReinforcedPlatform => 32,
            BlockType::SpawnPortalBaseAmethyst => 33,
            BlockType::SpawnPortalBaseSapphire => 34,
            BlockType::SpawnPortalBaseEmerald => 35,
            BlockType::SpawnPortalBaseRuby => 36,
            BlockType::SpawnPortalBaseDiamond => 37,
            BlockType::NorthPole => 38,
            BlockType::SouthPole => 39,
            BlockType::WestPole => 40,
            BlockType::EastPole => 41,
            BlockType::PortalBase => 42,
            BlockType::PortalBaseAmethyst => 43,
            BlockType::PortalBaseSapphire => 44,
            BlockType::PortalBaseEmerald => 45,
            BlockType::PortalBaseRuby => 46,
            BlockType::PortalBaseDiamond => 47,
            BlockType::Compost => 48,
            BlockType::GrassCompost => 49,
            BlockType::SnowCompost => 50,
            BlockType::Basalt => 51,
            BlockType::MinedBasalt => 52,
            BlockType::CopperBlock => 53,
            BlockType::TinBlock => 54,
            BlockType::BronzeBlock => 55,
            BlockType::IronBlock => 56,
            BlockType::SteelBlock => 57,
            BlockType::BlackSand => 58,
            BlockType::BlackGlass => 59,
            BlockType::TradePortalBase => 60,
            BlockType::TradePortalBaseAmethyst => 61,
            BlockType::TradePortalBaseSapphire => 62,
            BlockType::TradePortalBaseEmerald => 63,
            BlockType::TradePortalBaseRuby => 64,
            BlockType::TradePortalBaseDiamond => 65,
            BlockType::PlatinumBlock => 67,
            BlockType::TitaniumBlock => 68,
            BlockType::CarbonFiberBlock => 69,
            BlockType::Gravel => 70,
            BlockType::AmethystBlock => 71,
            BlockType::SapphireBlock => 72,
            BlockType::EmeraldBlock => 73,
            BlockType::RubyBlock => 74,
            BlockType::DiamondBlock => 75,
            BlockType::Plaster => 76,
            BlockType::LuminousPlaster => 77,
        }
    }

    /// The kind that a byte of the save format names, if it names one.
    pub open spec fn decode(value: u8) -> Option<BlockType> {
        match value {
            1 => Some(BlockType::Stone),
            2 => Some(BlockType::Air),
            3 => Some(BlockType::Water),
            4 => Some(BlockType::Ice),
            5 => Some(BlockType::Snow),
            6 => Some(BlockType::Dirt),
            7 => Some(BlockType::MinedSand),
            8 => Some(BlockType::Sand),
            9 => Some(BlockType::Wood),
            10 => Some(BlockType::MinedStone),
            11 => Some(BlockType::RedBrick),
            12 => Some(BlockType::Limestone),
            13 => Some(BlockType::MinedLimestone),
            14 => Some(BlockType::Marble),
            15 => Some(BlockType::MinedMarble),
            16 => Some(BlockType::TimeCrystal),
            17 => Some(BlockType::SandStone),
            18 => Some(BlockType::MinedSandStone),
            19 => Some(BlockType::RedMarble),
            20 => Some(BlockType::MinedRedMarble),
            24 => Some(BlockType::Glass),
            25 => Some(BlockType::SpawnPortalBase),
            26 => Some(BlockType::GoldBlock),
            27 => Some(BlockType::GrassDirt),
            28 => Some(BlockType::SnowDirt),
            29 => Some(BlockType::LapisLazuli),
            30 => Some(BlockType::MinedLapisLazuli),
            31 => Some(BlockType::Lava),
            32 => Some(BlockType::ReinforcedPlatform),
            33 => Some(BlockType::SpawnPortalBaseAmethyst),
            34 => Some(BlockType::SpawnPortalBaseSapphire),
            35 => Some(BlockType::SpawnPortalBaseEmerald),
            36 => Some(BlockType::SpawnPortalBaseRuby),
            37 => Some(BlockType::SpawnPortalBaseDiamond),
            38 => Some(BlockType::NorthPole),
            39 => Some(BlockType::SouthPole),
            40 => Some(BlockType::WestPole),
            41 => Some(BlockType::EastPole),
            42 => Some(BlockType::PortalBase),
            43 => Some(BlockType::PortalBaseAmethyst),
            44 => Some(BlockType::PortalBaseSapphire),
            45 => Some(BlockType::PortalBaseEmerald),
            46 => Some(BlockType::PortalBaseRuby),
            47 => Some(BlockType::PortalBaseDiamond),
            48 => Some(BlockType::Compost),
            49 => Some(BlockType::GrassCompost),
            50 => Some(BlockType::SnowCompost),
            51 => Some(BlockType::Basalt),
            52 => Some(BlockType::MinedBasalt),
            53 => Some(BlockType::CopperBlock),
            54 => Some(BlockType::TinBlock),
            55 => Some(BlockType::BronzeBlock),
            56 => Some(BlockType::IronBlock),
            57 => Some(BlockType::SteelBlock),
            58 => Some(BlockType::BlackSand),
            59 => Some(BlockType::BlackGlass),
            60 => Some(BlockType::TradePortalBase),
            61 => Some(BlockType::TradePortalBaseAmethyst),
            62 => Some(BlockType::TradePortalBaseSapphire),
            63 => Some(BlockType::TradePortalBaseEmerald),
            64 => Some(BlockType::TradePortalBaseRuby),
            65 => Some(BlockType::TradePortalBaseDiamond),
            67 => Some(BlockType::PlatinumBlock),
            68 => Some(BlockType::TitaniumBlock),
            69 => Some(BlockType::CarbonFiberBlock),
            70 => Some(BlockType::Gravel),
            71 => Some(BlockType::AmethystBlock),
            72 => Some(BlockType::SapphireBlock),
            73 => Some(BlockType::EmeraldBlock),
            74 => Some(BlockType::RubyBlock),
            75 => Some(BlockType::DiamondBlock),
            76 => Some(BlockType::Plaster),
            77 => Some(BlockType::LuminousPlaster),
            _ => None,
        }
    }

    /// The name under which this kind is shown.
    pub open spec fn name(self) -> Seq<char> {
        match self {
            BlockType::Stone => "Stone"@,
            BlockType::Air => "Air"@,
            BlockType::Water => "Water"@,
            BlockType::Ice => "Ice"@,
            BlockType::Snow => "Snow"@,
            BlockType::Dirt => "Dirt"@,
            BlockType::MinedSand => "MinedSand"@,
            BlockType::Sand => "Sand"@,
            BlockType::Wood => "Wood"@,
            BlockType::MinedStone => "MinedStone"@,
            BlockType::RedBrick => "RedBrick"@,
            BlockType::Limestone => "Limestone"@,
            BlockType::MinedLimestone => "MinedLimestone"@,
            BlockType::Marble => "Marble"@,
            BlockType::MinedMarble => "MinedMarble"@,
            BlockType::TimeCrystal => "TimeCrystal"@,
            BlockType::SandStone => "SandStone"@,
            BlockType::MinedSandStone => "MinedSandStone"@,
            BlockType::RedMarble => "RedMarble"@,
            BlockType::MinedRedMarble => "MinedRedMarble"@,
            BlockType::Glass => "Glass"@,
            BlockType::SpawnPortalBase => "SpawnPortalBase"@,
            BlockType::GoldBlock => "GoldBlock"@,
            BlockType::GrassDirt => "GrassDirt"@,
            BlockType::SnowDirt => "SnowDirt"@,
            BlockType::LapisLazuli => "LapisLazuli"@,
            BlockType::MinedLapisLazuli => "MinedLapisLazuli"@,
            BlockType::Lava => "Lava"@,
            BlockType::ReinforcedPlatform => "ReinforcedPlatform"@,
            BlockType::SpawnPortalBaseAmethyst => "SpawnPortalBaseAmethyst"@,
            BlockType::SpawnPortalBaseSapphire => "SpawnPortalBaseSapphire"@,
            BlockType::SpawnPortalBaseEmerald => "SpawnPortalBaseEmerald"@,
            BlockType::SpawnPortalBaseRuby => "SpawnPortalBaseRuby"@,
            BlockType::SpawnPortalBaseDiamond => "SpawnPortalBaseDiamond"@,
            BlockType::NorthPole => "NorthPole"@,
            BlockType::SouthPole => "SouthPole"@,
            BlockType::WestPole => "WestPole"@,
            BlockType::EastPole => "EastPole"@,
            BlockType::PortalBase => "PortalBase"@,
            BlockType::PortalBaseAmethyst => "PortalBaseAmethyst"@,
            BlockType::PortalBaseSapphire => "PortalBaseSapphire"@,
            BlockType::PortalBaseEmerald => "PortalBaseEmerald"@,
            BlockType::PortalBaseRuby => "PortalBaseRuby"@,
            BlockType::PortalBaseDiamond => "PortalBaseDiamond"@,
            BlockType::Compost => "Compost"@,
            BlockType::GrassCompost => "GrassCompost"@,
            BlockType::SnowCompost => "SnowCompost"@,
            BlockType::Basalt => "Basalt"@,
            BlockType::MinedBasalt => "MinedBasalt"@,
            BlockType::CopperBlock => "CopperBlock"@,
            BlockType::TinBlock => "TinBlock"@,
            BlockType::BronzeBlock => "BronzeBlock"@,
            BlockType::IronBlock => "IronBlock"@,
            BlockType::SteelBlock => "SteelBlock"@,
            BlockType::BlackSand => "BlackSand"@,
            BlockType::BlackGlass => "BlackGlass"@,
            BlockType::TradePortalBase => "TradePortalBase"@,
            BlockType::TradePortalBaseAmethyst => "TradePortalBaseAmethyst"@,
            BlockType::TradePortalBaseSapphire => "TradePortalBaseSapphire"@,
            BlockType::TradePortalBaseEmerald => "TradePortalBaseEmerald"@,
            BlockType::TradePortalBaseRuby => "TradePortalBaseRuby"@,
            BlockType::TradePortalBaseDiamond => "TradePortalBaseDiamond"@,
            BlockType::PlatinumBlock => "PlatinumBlock"@,
            BlockType::TitaniumBlock => "TitaniumBlock"@,
            BlockType::CarbonFiberBlock => "CarbonFiberBlock"@,
            BlockType::Gravel => "Gravel"@,
            BlockType::AmethystBlock => "AmethystBlock"@,
            BlockType::SapphireBlock => "SapphireBlock"@,
            BlockType::EmeraldBlock => "EmeraldBlock"@,
            BlockType::RubyBlock => "RubyBlock"@,
            BlockType::DiamondBlock => "DiamondBlock"@,
            BlockType::Plaster => "Plaster"@,
            BlockType::LuminousPlaster => "LuminousPlaster"@,
        }
    }

    /// Reads a kind from its byte. A byte in a gap of the numbering is an
    /// error that carries the byte; no kind stands in for it.
    pub fn try_from_u8(value: u8) -> (r: Result<Self, BhError>)
        ensures
            match r {
                Ok(kind) => Self::decode(value) == Some(kind),
                Err(e) => Self::decode(value) is None && e == BhError::InvalidBlockIdError(value),
            },
    {
        match value {
            1 => Ok(BlockType::Stone),
            2 => Ok(BlockType::Air),
            3 => Ok(BlockType::Water),
            4 => Ok(BlockType::Ice),
            5 => Ok(BlockType::Snow),
            6 => Ok(BlockType::Dirt),
            7 => Ok(BlockType::MinedSand),
            8 => Ok(BlockType::Sand),
            9 => Ok(BlockType::Wood),
            10 => Ok(BlockType::MinedStone),
            11 => Ok(BlockType::RedBrick),
            12 => Ok(BlockType::Limestone),
            13 => Ok(BlockType::MinedLimestone),
            14 => Ok(BlockType::Marble),
            15 => Ok(BlockType::MinedMarble),
            16 => Ok(BlockType::TimeCrystal),
            17 => Ok(BlockType::SandStone),
            18 => Ok(BlockType::MinedSandStone),
            19 => Ok(BlockType::RedMarble),
            20 => Ok(BlockType::MinedRedMarble),
            24 => Ok(BlockType::Glass),
            25 => Ok(BlockType::SpawnPortalBase),
            26 => Ok(BlockType::GoldBlock),
            27 => Ok(BlockType::GrassDirt),
            28 => Ok(BlockType::SnowDirt),
            29 => Ok(BlockType::LapisLazuli),
            30 => Ok(BlockType::MinedLapisLazuli),
            31 => Ok(BlockType::Lava),
            32 => Ok(BlockType::ReinforcedPlatform),
            33 => Ok(BlockType::SpawnPortalBaseAmethyst),
            34 => Ok(BlockType::SpawnPortalBaseSapphire),
            35 => Ok(BlockType::SpawnPortalBaseEmerald),
            36 => Ok(BlockType::SpawnPortalBaseRuby),
            37 => Ok(BlockType::SpawnPortalBaseDiamond),
            38 => Ok(BlockType::NorthPole),
            39 => Ok(BlockType::SouthPole),
            40 => Ok(BlockType::WestPole),
            41 => Ok(BlockType::EastPole),
            42 => Ok(BlockType::PortalBase),
            43 => Ok(BlockType::PortalBaseAmethyst),
            44 => Ok(BlockType::PortalBaseSapphire),
            45 => Ok(BlockType::PortalBaseEmerald),
            46 => Ok(BlockType::PortalBaseRuby),
            47 => Ok(BlockType::PortalBaseDiamond),
            48 => Ok(BlockType::Compost),
            49 => Ok(BlockType::GrassCompost),
            50 => Ok(BlockType::SnowCompost),
            51 => Ok(BlockType::Basalt),
            52 => Ok(BlockType::MinedBasalt),
            53 => Ok(BlockType::CopperBlock),
            54 => Ok(BlockType::TinBlock),
            55 => Ok(BlockType::BronzeBlock),
            56 => Ok(BlockType::IronBlock),
            57 => Ok(BlockType::SteelBlock),
            58 => Ok(BlockType::BlackSand),
            59 => Ok(BlockType::BlackGlass),
            60 => Ok(BlockType::TradePortalBase),
            61 => Ok(BlockType::TradePortalBaseAmethyst),
            62 => Ok(BlockType::TradePortalBaseSapphire),
            63 => Ok(BlockType::TradePortalBaseEmerald),
            64 => Ok(BlockType::TradePortalBaseRuby),
            65 => Ok(BlockType::TradePortalBaseDiamond),
            67 => Ok(BlockType::PlatinumBlock),
            68 => Ok(BlockType::TitaniumBlock),
            69 => Ok(BlockType::CarbonFiberBlock),
            70 => Ok(BlockType::Gravel),
            71 => Ok(BlockType::AmethystBlock),
            72 => Ok(BlockType::SapphireBlock),
            73 => Ok(BlockType::EmeraldBlock),
            74 => Ok(BlockType::RubyBlock),
            75 => Ok(BlockType::DiamondBlock),
            76 => Ok(BlockType::Plaster),
            77 => Ok(BlockType::LuminousPlaster),
            _ => Err(BhError::InvalidBlockIdError(value)),
        }
    }

    /// The byte of this kind, for writing it into a record.
    pub fn to_u8(&self) -> (b: u8)
        ensures
            b == self.code(),
    {
        match self {
            BlockType::Stone => 1,
            BlockType::Air => 2,
            BlockType::Water => 3,
            BlockType::Ice => 4,
            BlockType::Snow => 5,
            BlockType::Dirt => 6,
            BlockType::MinedSand => 7,
            BlockType::Sand => 8,
            BlockType::Wood => 9,
            BlockType::MinedStone => 10,
            BlockType::RedBrick => 11,
            BlockType::Limestone => 12,
            BlockType::MinedLimestone => 13,
            BlockType::Marble => 14,
            BlockType::MinedMarble => 15,
            BlockType::TimeCrystal => 16,
            BlockType::SandStone => 17,
            BlockType::MinedSandStone => 18,
            BlockType::RedMarble => 19,
            BlockType::MinedRedMarble => 20,
            BlockType::Glass => 24,
            BlockType::SpawnPortalBase => 25,
            BlockType::GoldBlock => 26,
            BlockType::GrassDirt => 27,
            BlockType::SnowDirt => 28,
            BlockType::LapisLazuli => 29,
            BlockType::MinedLapisLazuli => 30,
            BlockType::Lava => 31,
            BlockType::ReinforcedPlatform => 32,
            BlockType::SpawnPortalBaseAmethyst => 33,
            BlockType::SpawnPortalBaseSapphire => 34,
            BlockType::SpawnPortalBaseEmerald => 35,
            BlockType::SpawnPortalBaseRuby => 36,
            BlockType::SpawnPortalBaseDiamond => 37,
            BlockType::NorthPole => 38,
            BlockType::SouthPole => 39,
            BlockType::WestPole => 40,
            BlockType::EastPole => 41,
            BlockType::PortalBase => 42,
            BlockType::PortalBaseAmethyst => 43,
            BlockType::PortalBaseSapphire => 44,
            BlockType::PortalBaseEmerald => 45,
            BlockType::PortalBaseRuby => 46,
            BlockType::PortalBaseDiamond => 47,
            BlockType::Compost => 48,
            BlockType::GrassCompost => 49,
            BlockType::SnowCompost => 50,
            BlockType::Basalt => 51,
            BlockType::MinedBasalt => 52,
            BlockType::CopperBlock => 53,
            BlockType::TinBlock => 54,
            BlockType::BronzeBlock => 55,
            BlockType::IronBlock => 56,
            BlockType::SteelBlock => 57,
            BlockType::BlackSand => 58,
            BlockType::BlackGlass => 59,
            BlockType::TradePortalBase => 60,
            BlockType::TradePortalBaseAmethyst => 61,
            BlockType::TradePortalBaseSapphire => 62,
            BlockType::TradePortalBaseEmerald => 63,
            BlockType::TradePortalBaseRuby => 64,
            BlockType::TradePortalBaseDiamond => 65,
            BlockType::PlatinumBlock => 67,
            BlockType::TitaniumBlock => 68,
            BlockType::CarbonFiberBlock => 69,
            BlockType::Gravel => 70,
            BlockType::AmethystBlock => 71,
            BlockType::SapphireBlock => 72,
            BlockType::EmeraldBlock => 73,
            BlockType::RubyBlock => 74,
            BlockType::DiamondBlock => 75,
            BlockType::Plaster => 76,
            BlockType::LuminousPlaster => 77,
        }
    }

    /// The display name of this kind.
    pub fn as_str(&self) -> (s: &'static str)
        ensures
            s@ == self.name(),
    {
        match self {
            BlockType::Stone => "Stone",
            BlockType::Air => "Air",
            BlockType::Water => "Water",
            BlockType::Ice => "Ice",
            BlockType::Snow => "Snow",
            BlockType::Dirt => "Dirt",
            BlockType::MinedSand => "MinedSand",
            BlockType::Sand => "Sand",
            BlockType::Wood => "Wood",
            BlockType::MinedStone => "MinedStone",
            BlockType::RedBrick => "RedBrick",
            BlockType::Limestone => "Limestone",
            BlockType::MinedLimestone => "MinedLimestone",
            BlockType::Marble => "Marble",
            BlockType::MinedMarble => "MinedMarble",
            BlockType::TimeCrystal => "TimeCrystal",
            BlockType::SandStone => "SandStone",
            BlockType::MinedSandStone => "MinedSandStone",
            BlockType::RedMarble => "RedMarble",
            BlockType::MinedRedMarble => "MinedRedMarble",
            BlockType::Glass => "Glass",
            BlockType::SpawnPortalBase => "SpawnPortalBase",
            BlockType::GoldBlock => "GoldBlock",
            BlockType::GrassDirt => "GrassDirt",
            BlockType::SnowDirt => "SnowDirt",
            BlockType::LapisLazuli => "LapisLazuli",
            BlockType::MinedLapisLazuli => "MinedLapisLazuli",
            BlockType::Lava => "Lava",
            BlockType::ReinforcedPlatform => "ReinforcedPlatform",
            BlockType::SpawnPortalBaseAmethyst => "SpawnPortalBaseAmethyst",
            BlockType::SpawnPortalBaseSapphire => "SpawnPortalBaseSapphire",
            BlockType::SpawnPortalBaseEmerald => "SpawnPortalBaseEmerald",
            BlockType::SpawnPortalBaseRuby => "SpawnPortalBaseRuby",
            BlockType::SpawnPortalBaseDiamond => "SpawnPortalBaseDiamond",
            BlockType::NorthPole => "NorthPole",
            BlockType::SouthPole => "SouthPole",
            BlockType::WestPole => "WestPole",
            BlockType::EastPole => "EastPole",
            BlockType::PortalBase => "PortalBase",
            BlockType::PortalBaseAmethyst => "PortalBaseAmethyst",
            BlockType::PortalBaseSapphire => "PortalBaseSapphire",
            BlockType::PortalBaseEmerald => "PortalBaseEmerald",
            BlockType::PortalBaseRuby => "PortalBaseRuby",
            BlockType::PortalBaseDiamond => "PortalBaseDiamond",
            BlockType::Compost => "Compost",
            BlockType::GrassCompost => "GrassCompost",
            BlockType::SnowCompost => "SnowCompost",
            BlockType::Basalt => "Basalt",
            BlockType::MinedBasalt => "MinedBasalt",
            BlockType::CopperBlock => "CopperBlock",
            BlockType::TinBlock => "TinBlock",
            BlockType::BronzeBlock => "BronzeBlock",
            BlockType::IronBlock => "IronBlock",
            BlockType::SteelBlock => "SteelBlock",
            BlockType::BlackSand => "BlackSand",
            BlockType::BlackGlass => "BlackGlass",
            BlockType::TradePortalBase => "TradePortalBase",
            BlockType::TradePortalBaseAmethyst => "TradePortalBaseAmethyst",
            BlockType::TradePortalBaseSapphire => "TradePortalBaseSapphire",
            BlockType::TradePortalBaseEmerald => "TradePortalBaseEmerald",
            BlockType::TradePortalBaseRuby => "TradePortalBaseRuby",
            BlockType::TradePortalBaseDiamond => "TradePortalBaseDiamond",
            BlockType::PlatinumBlock => "PlatinumBlock",
            BlockType::TitaniumBlock => "TitaniumBlock",
            BlockType::CarbonFiberBlock => "CarbonFiberBlock",
            BlockType::Gravel => "Gravel",
            BlockType::AmethystBlock => "AmethystBlock",
            BlockType::SapphireBlock => "SapphireBlock",
            BlockType::EmeraldBlock => "EmeraldBlock",
            BlockType::RubyBlock => "RubyBlock",
            BlockType::DiamondBlock => "DiamondBlock",
            BlockType::Plaster => "Plaster",
            BlockType::LuminousPlaster => "LuminousPlaster",
        }
    }
}

impl From<BlockType> for u8 {
    fn from(kind: BlockType) -> (b: u8) {
        kind.to_u8()
    }
}

impl vstd::std_specs::convert::FromSpecImpl<BlockType> for u8 {
    open spec fn obeys_from_spec() -> bool {
        true
    }

    open spec fn from_spec(kind: BlockType) -> u8 {
        kind.code()
    }
}

/// Writing a kind and reading it back gives the same kind, and a byte that
/// names a kind is the byte that the kind is written as.
pub proof fn lemma_block_type_round_trip(kind: BlockType, value: u8)
    ensures
        BlockType::decode(kind.code()) == Some(kind),
        BlockType::decode(value) == Some(kind) ==> kind.code() == value,
{
}

/// The bytes that name a kind are 1 to 20, 24 to 65 and 67 to 77.
pub proof fn lemma_block_type_codes(value: u8)
    ensures
        BlockType::decode(value) is Some <==> (1 <= value <= 20 || 24 <= value <= 65 || 67
            <= value <= 77),
{
}

/// Every display name is plain ASCII of 3 to 23 characters.
pub proof fn lemma_block_type_names(kind: BlockType)
    ensures
        vstd::utf8::is_ascii_chars(kind.name()),
        3 <= kind.name().len() <= 23,
{
    reveal_strlit("Stone");
    reveal_strlit("Air");
    reveal_strlit("Water");
    reveal_strlit("Ice");
    reveal_strlit("Snow");
    reveal_strlit("Dirt");
    reveal_strlit("MinedSand");
    reveal_strlit("Sand");
    reveal_strlit("Wood");
    reveal_strlit("MinedStone");
    reveal_strlit("RedBrick");
    reveal_strlit("Limestone");
    reveal_strlit("MinedLimestone");
    reveal_strlit("Marble");
    reveal_strlit("MinedMarble");
    reveal_strlit("TimeCrystal");
    reveal_strlit("SandStone");
    reveal_strlit("MinedSandStone");
    reveal_strlit("RedMarble");
    reveal_strlit("MinedRedMarble");
    reveal_strlit("Glass");
    reveal_strlit("SpawnPortalBase");
    reveal_strlit("GoldBlock");
    reveal_strlit("GrassDirt");
    reveal_strlit("SnowDirt");
    reveal_strlit("LapisLazuli");
    reveal_strlit("MinedLapisLazuli");
    reveal_strlit("Lava");
    reveal_strlit("ReinforcedPlatform");
    reveal_strlit("SpawnPortalBaseAmethyst");
    reveal_strlit("SpawnPortalBaseSapphire");
    reveal_strlit("SpawnPortalBaseEmerald");
    reveal_strlit("SpawnPortalBaseRuby");
    reveal_strlit("SpawnPortalBaseDiamond");
    reveal_strlit("NorthPole");
    reveal_strlit("SouthPole");
    reveal_strlit("WestPole");
    reveal_strlit("EastPole");
    reveal_strlit("PortalBase");
    reveal_strlit("PortalBaseAmethyst");
    reveal_strlit("PortalBaseSapphire");
    reveal_strlit("PortalBaseEmerald");
    reveal_strlit("PortalBaseRuby");
    reveal_strlit("PortalBaseDiamond");
    reveal_strlit("Compost");
    reveal_strlit("GrassCompost");
    reveal_strlit("SnowCompost");
    reveal_strlit("Basalt");
    reveal_strlit("MinedBasalt");
    reveal_strlit("CopperBlock");
    reveal_strlit("TinBlock");
    reveal_strlit("BronzeBlock");
    reveal_strlit("IronBlock");
    reveal_strlit("SteelBlock");
    reveal_strlit("BlackSand");
    reveal_strlit("BlackGlass");
    reveal_strlit("TradePortalBase");
    reveal_strlit("TradePortalBaseAmethyst");
    reveal_strlit("TradePortalBaseSapphire");
    reveal_strlit("TradePortalBaseEmerald");
    reveal_strlit("TradePortalBaseRuby");
    reveal_strlit("TradePortalBaseDiamond");
    reveal_strlit("PlatinumBlock");
    reveal_strlit("TitaniumBlock");
    reveal_strlit("CarbonFiberBlock");
    reveal_strlit("Gravel");
    reveal_strlit("AmethystBlock");
    reveal_strlit("SapphireBlock");
    reveal_strlit("EmeraldBlock");
    reveal_strlit("RubyBlock");
    reveal_strlit("DiamondBlock");
    reveal_strlit("Plaster");
    reveal_strlit("LuminousPlaster");
}

/// What a block holds besides its material: an ore, a tool, nothing.
///
/// The bytes of this numbering are apart from those of [`BlockType`].
#[derive(Debug, Clone, Copy, PartialEq, Eq, Hash, Structural)]
pub enum BlockContent {
    Empty,
    Flint,
    Clay,
    Workbench,
    PortalGate,
    CopperOre,
    TinOre,
    IronOre,
    Oil,
    Coal,
    GoldNuggets,
    PlatinumOre,
    TitaniumOre,
}

impl BlockContent {
    /// The byte that the save format binds to this content: the byte that
    /// reads as it.
    pub open spec fn code(self) -> u8 {
        match self {
            BlockContent::Empty => 0,
            BlockContent::Flint => 1,
            BlockContent::Clay => 2,
            BlockContent::Workbench => 46,
            BlockContent::PortalGate => 47,
            BlockContent::CopperOre => 61,
            BlockContent::TinOre => 62,
            BlockContent::IronOre => 63,
            BlockContent::Oil => 64,
            BlockContent::Coal => 65,
            BlockContent::GoldNuggets => 66,
            BlockContent::PlatinumOre => 67,
            BlockContent::TitaniumOre => 68,
        }
    }

    /// The content that a byte of the save format names, if it names one.
    pub open spec fn decode(value: u8) -> Option<BlockContent> {
        match value {
            0 => Some(BlockContent::Empty),
            1 => Some(BlockContent::Flint),
            2 => Some(BlockContent::Clay),
            46 => Some(BlockContent::Workbench),
            47 => Some(BlockContent::PortalGate),
            61 => Some(BlockContent::CopperOre),
            62 => Some(BlockContent::TinOre),
            63 => Some(BlockContent::IronOre),
            64 => Some(BlockContent::Oil),
            65 => Some(BlockContent::Coal),
            66 => Some(BlockContent::GoldNuggets),
            67 => Some(BlockContent::PlatinumOre),
            68 => Some(BlockContent::TitaniumOre),
            _ => None,
        }
    }

    /// Reads a content from its byte. Any byte that names none is an error
    /// that carries the byte.
    pub fn try_from_u8(value: u8) -> (r: Result<Self, BhError>)
        ensures
            match r {
                Ok(content) => Self::decode(value) == Some(content),
                Err(e) => Self::decode(value) is None && e == BhError::InvalidBlockContentIdError(
                    value,
                ),
            },
    {
        match value {
            0 => Ok(BlockContent::Empty),
            1 => Ok(BlockContent::Flint),
            2 => Ok(BlockContent::Clay),
            46 => Ok(BlockContent::Workbench),
            47 => Ok(BlockContent::PortalGate),
            61 => Ok(BlockContent::CopperOre),
            62 => Ok(BlockContent::TinOre),
            63 => Ok(BlockContent::IronOre),
            64 => Ok(BlockContent::Oil),
            65 => Ok(BlockContent::Coal),
            66 => Ok(BlockContent::GoldNuggets),
            67 => Ok(BlockContent::PlatinumOre),
            68 => Ok(BlockContent::TitaniumOre),
            _ => Err(BhError::InvalidBlockContentIdError(value)),
        }
    }

    /// The byte of this content, for writing it into a record.
    pub fn to_u8(&self) -> (b: u8)
        ensures
            b == self.code(),
    {
        match self {
            BlockContent::Empty => 0,
            BlockContent::Flint => 1,
            BlockContent::Clay => 2,
            BlockContent::Workbench => 46,
            BlockContent::PortalGate => 47,
            BlockContent::CopperOre => 61,
            BlockContent::TinOre => 62,
            BlockContent::IronOre => 63,
            BlockContent::Oil => 64,
            BlockContent::Coal => 65,
            BlockContent::GoldNuggets => 66,
            BlockContent::PlatinumOre => 67,
            BlockContent::TitaniumOre => 68,
        }
    }
}

impl From<BlockContent> for u8 {
    fn from(content: BlockContent) -> (b: u8) {
        content.to_u8()
    }
}

impl vstd::std_specs::convert::FromSpecImpl<BlockContent> for u8 {
    open spec fn obeys_from_spec() -> bool {
        true
    }

    open spec fn from_spec(content: BlockContent) -> u8 {
        content.code()
    }
}

/// Writing a content and reading it back gives the same content, and a
/// byte that names a content is the byte that the content is written as.
pub proof fn lemma_block_content_round_trip(content: BlockContent, value: u8)
    ensures
        BlockContent::decode(content.code()) == Some(content),
        BlockContent::decode(value) == Some(content) ==> content.code() == value,
{
}

/// The bytes that name a content are 0 to 2, 46, 47 and 61 to 68, and no two
/// of them name the same one.
pub proof fn lemma_block_content_codes(a: u8, b: u8)
    ensures
        BlockContent::decode(a) is Some <==> (a <= 2 || a == 46 || a == 47 || 61 <= a <= 68),
        BlockContent::decode(a) is Some && BlockContent::decode(a) == BlockContent::decode(b) ==> a
            == b,
{
}

} // verus!
