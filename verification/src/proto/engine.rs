//! The messages that the server and the rule engine exchange.

use vstd::prelude::*;

use crate::collections::{opt_view, views};

verus! {

/// A seat, in the rule engine's vocabulary.
#[derive(Clone, Copy, Debug, PartialEq, Eq, Structural)]
pub enum Seat {
    Unspecified,
    East,
    South,
    West,
    North,
}

impl Seat {
    /// The number that stands for the value on the wire.
    pub open spec fn code(self) -> i32 {
        match self {
            Seat::Unspecified => 0,
            Seat::East => 1,
            Seat::South => 2,
            Seat::West => 3,
            Seat::North => 4,
        }
    }

    /// The value that a number stands for, if any.
    pub open spec fn decode(code: i32) -> Option<Seat> {
        if code == 0 {
            Some(Seat::Unspecified)
        } else if code == 1 {
            Some(Seat::East)
        } else if code == 2 {
            Some(Seat::South)
        } else if code == 3 {
            Some(Seat::West)
        } else if code == 4 {
            Some(Seat::North)
        } else {
            None
        }
    }

    /// The value's name in the protocol.
    pub open spec fn name(self) -> Seq<char> {
        match self {
            Seat::Unspecified => "SEAT_UNSPECIFIED"@,
            Seat::East => "SEAT_EAST"@,
            Seat::South => "SEAT_SOUTH"@,
            Seat::West => "SEAT_WEST"@,
            Seat::North => "SEAT_NORTH"@,
        }
    }

    pub fn as_i32(self) -> (r: i32)
        ensures
            r == self.code(),
    {
        match self {
            Seat::Unspecified => 0,
            Seat::East => 1,
            Seat::South => 2,
            Seat::West => 3,
            Seat::North => 4,
        }
    }

    pub fn from_i32(code: i32) -> (r: Option<Seat>)
        ensures
            r == Seat::decode(code),
    {
        match code {
            0 => Some(Seat::Unspecified),
            1 => Some(Seat::East),
            2 => Some(Seat::South),
            3 => Some(Seat::West),
            4 => Some(Seat::North),
            _ => None,
        }
    }

    pub fn as_str_name(self) -> (r: &'static str)
        ensures
            r@ == self.name(),
    {
        match self {
            Seat::Unspecified => "SEAT_UNSPECIFIED",
            Seat::East => "SEAT_EAST",
            Seat::South => "SEAT_SOUTH",
            Seat::West => "SEAT_WEST",
            Seat::North => "SEAT_NORTH",
        }
    }
}

/// Every Seat survives the trip over the wire, and no other number is accepted for it.
pub proof fn law_seat_codes(value: Seat, code: i32)
    ensures
        Seat::decode(value.code()) == Some(value),
        Seat::decode(code) == Some(value) ==> value.code() == code,
{
}

/// A tile face, in the rule engine's vocabulary.
#[derive(Clone, Copy, Debug, PartialEq, Eq, Structural)]
pub enum Tile {
    Unspecified,
    Character1,
    Character2,
    Character3,
    Character4,
    Character5,
    Character6,
    Character7,
    Character8,
    Character9,
    Bamboo1,
    Bamboo2,
    Bamboo3,
    Bamboo4,
    Bamboo5,
    Bamboo6,
    Bamboo7,
    Bamboo8,
    Bamboo9,
    Dot1,
    Dot2,
    Dot3,
    Dot4,
    Dot5,
    Dot6,
    Dot7,
    Dot8,
    Dot9,
    EastWind,
    SouthWind,
    WestWind,
    NorthWind,
    RedDragon,
    GreenDragon,
    WhiteDragon,
    FlowerPlum,
    FlowerOrchid,
    FlowerBamboo,
    FlowerChrysanthemum,
    SeasonSpring,
    SeasonSummer,
    SeasonAutumn,
    SeasonWinter,
}

impl Tile {
    /// The number that stands for the value on the wire.
    pub open spec fn code(self) -> i32 {
        match self {
            Tile::Unspecified => 0,
            Tile::Character1 => 1,
            Tile::Character2 => 2,
            Tile::Character3 => 3,
            Tile::Character4 => 4,
            Tile::Character5 => 5,
            Tile::Character6 => 6,
            Tile::Character7 => 7,
            Tile::Character8 => 8,
            Tile::Character9 => 9,
            Tile::Bamboo1 => 10,
            Tile::Bamboo2 => 11,
            Tile::Bamboo3 => 12,
            Tile::Bamboo4 => 13,
            Tile::Bamboo5 => 14,
            Tile::Bamboo6 => 15,
            Tile::Bamboo7 => 16,
            Tile::Bamboo8 => 17,
            Tile::Bamboo9 => 18,
            Tile::Dot1 => 19,
            Tile::Dot2 => 20,
            Tile::Dot3 => 21,
            Tile::Dot4 => 22,
            Tile::Dot5 => 23,
            Tile::Dot6 => 24,
            Tile::Dot7 => 25,
            Tile::Dot8 => 26,
            Tile::Dot9 => 27,
            Tile::EastWind => 28,
            Tile::SouthWind => 29,
            Tile::WestWind => 30,
            Tile::NorthWind => 31,
            Tile::RedDragon => 32,
            Tile::GreenDragon => 33,
            Tile::WhiteDragon => 34,
            Tile::FlowerPlum => 35,
            Tile::FlowerOrchid => 36,
            Tile::FlowerBamboo => 37,
            Tile::FlowerChrysanthemum => 38,
            Tile::SeasonSpring => 39,
            Tile::SeasonSummer => 40,
            Tile::SeasonAutumn => 41,
            Tile::SeasonWinter => 42,
        }
    }

    /// The value that a number stands for, if any.
    pub open spec fn decode(code: i32) -> Option<Tile> {
        if code == 0 {
            Some(Tile::Unspecified)
        } else if code == 1 {
            Some(Tile::Character1)
        } else if code == 2 {
            Some(Tile::Character2)
        } else if code == 3 {
            Some(Tile::Character3)
        } else if code == 4 {
            Some(Tile::Character4)
        } else if code == 5 {
            Some(Tile::Character5)
        } else if code == 6 {
            Some(Tile::Character6)
        } else if code == 7 {
            Some(Tile::Character7)
        } else if code == 8 {
            Some(Tile::Character8)
        } else if code == 9 {
            Some(Tile::Character9)
        } else if code == 10 {
            Some(Tile::Bamboo1)
        } else if code == 11 {
            Some(Tile::Bamboo2)
        } else if code == 12 {
            Some(Tile::Bamboo3)
        } else if code == 13 {
            Some(Tile::Bamboo4)
        } else if code == 14 {
            Some(Tile::Bamboo5)
        } else if code == 15 {
            Some(Tile::Bamboo6)
        } else if code == 16 {
            Some(Tile::Bamboo7)
        } else if code == 17 {
            Some(Tile::Bamboo8)
        } else if code == 18 {
            Some(Tile::Bamboo9)
        } else if code == 19 {
            Some(Tile::Dot1)
        } else if code == 20 {
            Some(Tile::Dot2)
        } else if code == 21 {
            Some(Tile::Dot3)
        } else if code == 22 {
            Some(Tile::Dot4)
        } else if code == 23 {
            Some(Tile::Dot5)
        } else if code == 24 {
            Some(Tile::Dot6)
        } else if code == 25 {
            Some(Tile::Dot7)
        } else if code == 26 {
            Some(Tile::Dot8)
        } else if code == 27 {
            Some(Tile::Dot9)
        } else if code == 28 {
            Some(Tile::EastWind)
        } else if code == 29 {
            Some(Tile::SouthWind)
        } else if code == 30 {
            Some(Tile::WestWind)
        } else if code == 31 {
            Some(Tile::NorthWind)
        } else if code == 32 {
            Some(Tile::RedDragon)
        } else if code == 33 {
            Some(Tile::GreenDragon)
        } else if code == 34 {
            Some(Tile::WhiteDragon)
        } else if code == 35 {
            Some(Tile::FlowerPlum)
        } else if code == 36 {
            Some(Tile::FlowerOrchid)
        } else if code == 37 {
            Some(Tile::FlowerBamboo)
        } else if code == 38 {
            Some(Tile::FlowerChrysanthemum)
        } else if code == 39 {
            Some(Tile::SeasonSpring)
        } else if code == 40 {
            Some(Tile::SeasonSummer)
        } else if code == 41 {
            Some(Tile::SeasonAutumn)
        } else if code == 42 {
            Some(Tile::SeasonWinter)
        } else {
            None
        }
    }

    /// The value's name in the protocol.
    pub open spec fn name(self) -> Seq<char> {
        match self {
            Tile::Unspecified => "TILE_UNSPECIFIED"@,
            Tile::Character1 => "TILE_CHARACTER_1"@,
            Tile::Character2 => "TILE_CHARACTER_2"@,
            Tile::Character3 => "TILE_CHARACTER_3"@,
            Tile::Character4 => "TILE_CHARACTER_4"@,
            Tile::Character5 => "TILE_CHARACTER_5"@,
            Tile::Character6 => "TILE_CHARACTER_6"@,
            Tile::Character7 => "TILE_CHARACTER_7"@,
            Tile::Character8 => "TILE_CHARACTER_8"@,
            Tile::Character9 => "TILE_CHARACTER_9"@,
            Tile::Bamboo1 => "TILE_BAMBOO_1"@,
            Tile::Bamboo2 => "TILE_BAMBOO_2"@,
            Tile::Bamboo3 => "TILE_BAMBOO_3"@,
            Tile::Bamboo4 => "TILE_BAMBOO_4"@,
            Tile::Bamboo5 => "TILE_BAMBOO_5"@,
            Tile::Bamboo6 => "TILE_BAMBOO_6"@,
            Tile::Bamboo7 => "TILE_BAMBOO_7"@,
            Tile::Bamboo8 => "TILE_BAMBOO_8"@,
            Tile::Bamboo9 => "TILE_BAMBOO_9"@,
            Tile::Dot1 => "TILE_DOT_1"@,
            Tile::Dot2 => "TILE_DOT_2"@,
            Tile::Dot3 => "TILE_DOT_3"@,
            Tile::Dot4 => "TILE_DOT_4"@,
            Tile::Dot5 => "TILE_DOT_5"@,
            Tile::Dot6 => "TILE_DOT_6"@,
            Tile::Dot7 => "TILE_DOT_7"@,
            Tile::Dot8 => "TILE_DOT_8"@,
            Tile::Dot9 => "TILE_DOT_9"@,
            Tile::EastWind => "TILE_EAST_WIND"@,
            Tile::SouthWind => "TILE_SOUTH_WIND"@,
            Tile::WestWind => "TILE_WEST_WIND"@,
            Tile::NorthWind => "TILE_NORTH_WIND"@,
            Tile::RedDragon => "TILE_RED_DRAGON"@,
            Tile::GreenDragon => "TILE_GREEN_DRAGON"@,
            Tile::WhiteDragon => "TILE_WHITE_DRAGON"@,
            Tile::FlowerPlum => "TILE_FLOWER_PLUM"@,
            Tile::FlowerOrchid => "TILE_FLOWER_ORCHID"@,
            Tile::FlowerBamboo => "TILE_FLOWER_BAMBOO"@,
            Tile::FlowerChrysanthemum => "TILE_FLOWER_CHRYSANTHEMUM"@,
            Tile::SeasonSpring => "TILE_SEASON_SPRING"@,
            Tile::SeasonSummer => "TILE_SEASON_SUMMER"@,
            Tile::SeasonAutumn => "TILE_SEASON_AUTUMN"@,
            Tile::SeasonWinter => "TILE_SEASON_WINTER"@,
        }
    }

    pub fn as_i32(self) -> (r: i32)
        ensures
            r == self.code(),
    {
        match self {
            Tile::Unspecified => 0,
            Tile::Character1 => 1,
            Tile::Character2 => 2,
            Tile::Character3 => 3,
            Tile::Character4 => 4,
            Tile::Character5 => 5,
            Tile::Character6 => 6,
            Tile::Character7 => 7,
            Tile::Character8 => 8,
            Tile::Character9 => 9,
            Tile::Bamboo1 => 10,
            Tile::Bamboo2 => 11,
            Tile::Bamboo3 => 12,
            Tile::Bamboo4 => 13,
            Tile::Bamboo5 => 14,
            Tile::Bamboo6 => 15,
            Tile::Bamboo7 => 16,
            Tile::Bamboo8 => 17,
            Tile::Bamboo9 => 18,
            Tile::Dot1 => 19,
            Tile::Dot2 => 20,
            Tile::Dot3 => 21,
            Tile::Dot4 => 22,
            Tile::Dot5 => 23,
            Tile::Dot6 => 24,
            Tile::Dot7 => 25,
            Tile::Dot8 => 26,
            Tile::Dot9 => 27,
            Tile::EastWind => 28,
            Tile::SouthWind => 29,
            Tile::WestWind => 30,
            Tile::NorthWind => 31,
            Tile::RedDragon => 32,
            Tile::GreenDragon => 33,
            Tile::WhiteDragon => 34,
            Tile::FlowerPlum => 35,
            Tile::FlowerOrchid => 36,
            Tile::FlowerBamboo => 37,
            Tile::FlowerChrysanthemum => 38,
            Tile::SeasonSpring => 39,
            Tile::SeasonSummer => 40,
            Tile::SeasonAutumn => 41,
            Tile::SeasonWinter => 42,
        }
    }

    pub fn from_i32(code: i32) -> (r: Option<Tile>)
        ensures
            r == Tile::decode(code),
    {
        match code {
            0 => Some(Tile::Unspecified),
            1 => Some(Tile::Character1),
            2 => Some(Tile::Character2),
            3 => Some(Tile::Character3),
            4 => Some(Tile::Character4),
            5 => Some(Tile::Character5),
            6 => Some(Tile::Character6),
            7 => Some(Tile::Character7),
            8 => Some(Tile::Character8),
            9 => Some(Tile::Character9),
            10 => Some(Tile::Bamboo1),
            11 => Some(Tile::Bamboo2),
            12 => Some(Tile::Bamboo3),
            13 => Some(Tile::Bamboo4),
            14 => Some(Tile::Bamboo5),
            15 => Some(Tile::Bamboo6),
            16 => Some(Tile::Bamboo7),
            17 => Some(Tile::Bamboo8),
            18 => Some(Tile::Bamboo9),
            19 => Some(Tile::Dot1),
            20 => Some(Tile::Dot2),
            21 => Some(Tile::Dot3),
            22 => Some(Tile::Dot4),
            23 => Some(Tile::Dot5),
            24 => Some(Tile::Dot6),
            25 => Some(Tile::Dot7),
            26 => Some(Tile::Dot8),
            27 => Some(Tile::Dot9),
            28 => Some(Tile::EastWind),
            29 => Some(Tile::SouthWind),
            30 => Some(Tile::WestWind),
            31 => Some(Tile::NorthWind),
            32 => Some(Tile::RedDragon),
            33 => Some(Tile::GreenDragon),
            34 => Some(Tile::WhiteDragon),
            35 => Some(Tile::FlowerPlum),
            36 => Some(Tile::FlowerOrchid),
            37 => Some(Tile::FlowerBamboo),
            38 => Some(Tile::FlowerChrysanthemum),
            39 => Some(Tile::SeasonSpring),
            40 => Some(Tile::SeasonSummer),
            41 => Some(Tile::SeasonAutumn),
            42 => Some(Tile::SeasonWinter),
            _ => None,
        }
    }

    pub fn as_str_name(self) -> (r: &'static str)
        ensures
            r@ == self.name(),
    {
        match self {
            Tile::Unspecified => "TILE_UNSPECIFIED",
            Tile::Character1 => "TILE_CHARACTER_1",
            Tile::Character2 => "TILE_CHARACTER_2",
            Tile::Character3 => "TILE_CHARACTER_3",
            Tile::Character4 => "TILE_CHARACTER_4",
            Tile::Character5 => "TILE_CHARACTER_5",
            Tile::Character6 => "TILE_CHARACTER_6",
            Tile::Character7 => "TILE_CHARACTER_7",
            Tile::Character8 => "TILE_CHARACTER_8",
            Tile::Character9 => "TILE_CHARACTER_9",
            Tile::Bamboo1 => "TILE_BAMBOO_1",
            Tile::Bamboo2 => "TILE_BAMBOO_2",
            Tile::Bamboo3 => "TILE_BAMBOO_3",
            Tile::Bamboo4 => "TILE_BAMBOO_4",
            Tile::Bamboo5 => "TILE_BAMBOO_5",
            Tile::Bamboo6 => "TILE_BAMBOO_6",
            Tile::Bamboo7 => "TILE_BAMBOO_7",
            Tile::Bamboo8 => "TILE_BAMBOO_8",
            Tile::Bamboo9 => "TILE_BAMBOO_9",
            Tile::Dot1 => "TILE_DOT_1",
            Tile::Dot2 => "TILE_DOT_2",
            Tile::Dot3 => "TILE_DOT_3",
            Tile::Dot4 => "TILE_DOT_4",
            Tile::Dot5 => "TILE_DOT_5",
            Tile::Dot6 => "TILE_DOT_6",
            Tile::Dot7 => "TILE_DOT_7",
            Tile::Dot8 => "TILE_DOT_8",
            Tile::Dot9 => "TILE_DOT_9",
            Tile::EastWind => "TILE_EAST_WIND",
            Tile::SouthWind => "TILE_SOUTH_WIND",
            Tile::WestWind => "TILE_WEST_WIND",
            Tile::NorthWind => "TILE_NORTH_WIND",
            Tile::RedDragon => "TILE_RED_DRAGON",
            Tile::GreenDragon => "TILE_GREEN_DRAGON",
            Tile::WhiteDragon => "TILE_WHITE_DRAGON",
            Tile::FlowerPlum => "TILE_FLOWER_PLUM",
            Tile::FlowerOrchid => "TILE_FLOWER_ORCHID",
            Tile::FlowerBamboo => "TILE_FLOWER_BAMBOO",
            Tile::FlowerChrysanthemum => "TILE_FLOWER_CHRYSANTHEMUM",
            Tile::SeasonSpring => "TILE_SEASON_SPRING",
            Tile::SeasonSummer => "TILE_SEASON_SUMMER",
            Tile::SeasonAutumn => "TILE_SEASON_AUTUMN",
            Tile::SeasonWinter => "TILE_SEASON_WINTER",
        }
    }
}

/// Every Tile survives the trip over the wire, and no other number is accepted for it.
pub proof fn law_tile_codes(value: Tile, code: i32)
    ensures
        Tile::decode(value.code()) == Some(value),
        Tile::decode(code) == Some(value) ==> value.code() == code,
{
}

/// The kind of an action, in the rule engine's vocabulary.
#[derive(Clone, Copy, Debug, PartialEq, Eq, Structural)]
pub enum ActionKind {
    Unspecified,
    Draw,
    Discard,
    Chi,
    Peng,
    ExposedKong,
    SupplementalKong,
    DeclareWin,
    Pass,
}

impl ActionKind {
    /// The number that stands for the value on the wire.
    pub open spec fn code(self) -> i32 {
        match self {
            ActionKind::Unspecified => 0,
            ActionKind::Draw => 1,
            ActionKind::Discard => 2,
            ActionKind::Chi => 3,
            ActionKind::Peng => 4,
            ActionKind::ExposedKong => 5,
            ActionKind::SupplementalKong => 6,
            ActionKind::DeclareWin => 7,
            ActionKind::Pass => 8,
        }
    }

    /// The value that a number stands for, if any.
    pub open spec fn decode(code: i32) -> Option<ActionKind> {
        if code == 0 {
            Some(ActionKind::Unspecified)
        } else if code == 1 {
            Some(ActionKind::Draw)
        } else if code == 2 {
            Some(ActionKind::Discard)
        } else if code == 3 {
            Some(ActionKind::Chi)
        } else if code == 4 {
            Some(ActionKind::Peng)
        } else if code == 5 {
            Some(ActionKind::ExposedKong)
        } else if code == 6 {
            Some(ActionKind::SupplementalKong)
        } else if code == 7 {
            Some(ActionKind::DeclareWin)
        } else if code == 8 {
            Some(ActionKind::Pass)
        } else {
            None
        }
    }

    /// The value's name in the protocol.
    pub open spec fn name(self) -> Seq<char> {
        match self {
            ActionKind::Unspecified => "ACTION_KIND_UNSPECIFIED"@,
            ActionKind::Draw => "ACTION_KIND_DRAW"@,
            ActionKind::Discard => "ACTION_KIND_DISCARD"@,
            ActionKind::Chi => "ACTION_KIND_CHI"@,
            ActionKind::Peng => "ACTION_KIND_PENG"@,
            ActionKind::ExposedKong => "ACTION_KIND_EXPOSED_KONG"@,
            ActionKind::SupplementalKong => "ACTION_KIND_SUPPLEMENTAL_KONG"@,
            ActionKind::DeclareWin => "ACTION_KIND_DECLARE_WIN"@,
            ActionKind::Pass => "ACTION_KIND_PASS"@,
        }
    }

    pub fn as_i32(self) -> (r: i32)
        ensures
            r == self.code(),
    {
        match self {
            ActionKind::Unspecified => 0,
            ActionKind::Draw => 1,
            ActionKind::Discard => 2,
            ActionKind::Chi => 3,
            ActionKind::Peng => 4,
            ActionKind::ExposedKong => 5,
            ActionKind::SupplementalKong => 6,
            ActionKind::DeclareWin => 7,
            ActionKind::Pass => 8,
        }
    }

    pub fn from_i32(code: i32) -> (r: Option<ActionKind>)
        ensures
            r == ActionKind::decode(code),
    {
        match code {
            0 => Some(ActionKind::Unspecified),
            1 => Some(ActionKind::Draw),
            2 => Some(ActionKind::Discard),
            3 => Some(ActionKind::Chi),
            4 => Some(ActionKind::Peng),
            5 => Some(ActionKind::ExposedKong),
            6 => Some(ActionKind::SupplementalKong),
            7 => Some(ActionKind::DeclareWin),
            8 => Some(ActionKind::Pass),
            _ => None,
        }
    }

    pub fn as_str_name(self) -> (r: &'static str)
        ensures
            r@ == self.name(),
    {
        match self {
            ActionKind::Unspecified => "ACTION_KIND_UNSPECIFIED",
            ActionKind::Draw => "ACTION_KIND_DRAW",
            ActionKind::Discard => "ACTION_KIND_DISCARD",
            ActionKind::Chi => "ACTION_KIND_CHI",
            ActionKind::Peng => "ACTION_KIND_PENG",
            ActionKind::ExposedKong => "ACTION_KIND_EXPOSED_KONG",
            ActionKind::SupplementalKong => "ACTION_KIND_SUPPLEMENTAL_KONG",
            ActionKind::DeclareWin => "ACTION_KIND_DECLARE_WIN",
            ActionKind::Pass => "ACTION_KIND_PASS",
        }
    }
}

/// Every ActionKind survives the trip over the wire, and no other number is accepted for it.
pub proof fn law_action_kind_codes(value: ActionKind, code: i32)
    ensures
        ActionKind::decode(value.code()) == Some(value),
        ActionKind::decode(code) == Some(value) ==> value.code() == code,
{
}

/// The kind of a claim, in the rule engine's vocabulary.
#[derive(Clone, Copy, Debug, PartialEq, Eq, Structural)]
pub enum ClaimKind {
    Unspecified,
    Chi,
    Peng,
    ExposedKong,
    DiscardWin,
    RobKongWin,
}

impl ClaimKind {
    /// The number that stands for the value on the wire.
    pub open spec fn code(self) -> i32 {
        match self {
            ClaimKind::Unspecified => 0,
            ClaimKind::Chi => 1,
            ClaimKind::Peng => 2,
            ClaimKind::ExposedKong => 3,
            ClaimKind::DiscardWin => 4,
            ClaimKind::RobKongWin => 5,
        }
    }

    /// The value that a number stands for, if any.
    pub open spec fn decode(code: i32) -> Option<ClaimKind> {
        if code == 0 {
            Some(ClaimKind::Unspecified)
        } else if code == 1 {
            Some(ClaimKind::Chi)
        } else if code == 2 {
            Some(ClaimKind::Peng)
        } else if code == 3 {
            Some(ClaimKind::ExposedKong)
        } else if code == 4 {
            Some(ClaimKind::DiscardWin)
        } else if code == 5 {
            Some(ClaimKind::RobKongWin)
        } else {
            None
        }
    }

    /// The value's name in the protocol.
    pub open spec fn name(self) -> Seq<char> {
        match self {
            ClaimKind::Unspecified => "CLAIM_KIND_UNSPECIFIED"@,
            ClaimKind::Chi => "CLAIM_KIND_CHI"@,
            ClaimKind::Peng => "CLAIM_KIND_PENG"@,
            ClaimKind::ExposedKong => "CLAIM_KIND_EXPOSED_KONG"@,
            ClaimKind::DiscardWin => "CLAIM_KIND_DISCARD_WIN"@,
            ClaimKind::RobKongWin => "CLAIM_KIND_ROB_KONG_WIN"@,
        }
    }

    pub fn as_i32(self) -> (r: i32)
        ensures
            r == self.code(),
    {
        match self {
            ClaimKind::Unspecified => 0,
            ClaimKind::Chi => 1,
            ClaimKind::Peng => 2,
            ClaimKind::ExposedKong => 3,
            ClaimKind::DiscardWin => 4,
            ClaimKind::RobKongWin => 5,
        }
    }

    pub fn from_i32(code: i32) -> (r: Option<ClaimKind>)
        ensures
            r == ClaimKind::decode(code),
    {
        match code {
            0 => Some(ClaimKind::Unspecified),
            1 => Some(ClaimKind::Chi),
            2 => Some(ClaimKind::Peng),
            3 => Some(ClaimKind::ExposedKong),
            4 => Some(ClaimKind::DiscardWin),
            5 => Some(ClaimKind::RobKongWin),
            _ => None,
        }
    }

    pub fn as_str_name(self) -> (r: &'static str)
        ensures
            r@ == self.name(),
    {
        match self {
            ClaimKind::Unspecified => "CLAIM_KIND_UNSPECIFIED",
            ClaimKind::Chi => "CLAIM_KIND_CHI",
            ClaimKind::Peng => "CLAIM_KIND_PENG",
            ClaimKind::ExposedKong => "CLAIM_KIND_EXPOSED_KONG",
            ClaimKind::DiscardWin => "CLAIM_KIND_DISCARD_WIN",
            ClaimKind::RobKongWin => "CLAIM_KIND_ROB_KONG_WIN",
        }
    }
}

/// Every ClaimKind survives the trip over the wire, and no other number is accepted for it.
pub proof fn law_claim_kind_codes(value: ClaimKind, code: i32)
    ensures
        ClaimKind::decode(value.code()) == Some(value),
        ClaimKind::decode(code) == Some(value) ==> value.code() == code,
{
}

/// The kind of a meld, in the rule engine's vocabulary.
#[derive(Clone, Copy, Debug, PartialEq, Eq, Structural)]
pub enum MeldKind {
    Unspecified,
    Chi,
    Peng,
    ExposedKong,
    SupplementalKong,
}

impl MeldKind {
    /// The number that stands for the value on the wire.
    pub open spec fn code(self) -> i32 {
        match self {
            MeldKind::Unspecified => 0,
            MeldKind::Chi => 1,
            MeldKind::Peng => 2,
            MeldKind::ExposedKong => 3,
            MeldKind::SupplementalKong => 4,
        }
    }

    /// The value that a number stands for, if any.
    pub open spec fn decode(code: i32) -> Option<MeldKind> {
        if code == 0 {
            Some(MeldKind::Unspecified)
        } else if code == 1 {
            Some(MeldKind::Chi)
        } else if code == 2 {
            Some(MeldKind::Peng)
        } else if code == 3 {
            Some(MeldKind::ExposedKong)
        } else if code == 4 {
            Some(MeldKind::SupplementalKong)
        } else {
            None
        }
    }

    /// The value's name in the protocol.
    pub open spec fn name(self) -> Seq<char> {
        match self {
            MeldKind::Unspecified => "MELD_KIND_UNSPECIFIED"@,
            MeldKind::Chi => "MELD_KIND_CHI"@,
            MeldKind::Peng => "MELD_KIND_PENG"@,
            MeldKind::ExposedKong => "MELD_KIND_EXPOSED_KONG"@,
            MeldKind::SupplementalKong => "MELD_KIND_SUPPLEMENTAL_KONG"@,
        }
    }

    pub fn as_i32(self) -> (r: i32)
        ensures
            r == self.code(),
    {
        match self {
            MeldKind::Unspecified => 0,
            MeldKind::Chi => 1,
            MeldKind::Peng => 2,
            MeldKind::ExposedKong => 3,
            MeldKind::SupplementalKong => 4,
        }
    }

    pub fn from_i32(code: i32) -> (r: Option<MeldKind>)
        ensures
            r == MeldKind::decode(code),
    {
        match code {
            0 => Some(MeldKind::Unspecified),
            1 => Some(MeldKind::Chi),
            2 => Some(MeldKind::Peng),
            3 => Some(MeldKind::ExposedKong),
            4 => Some(MeldKind::SupplementalKong),
            _ => None,
        }
    }

    pub fn as_str_name(self) -> (r: &'static str)
        ensures
            r@ == self.name(),
    {
        match self {
            MeldKind::Unspecified => "MELD_KIND_UNSPECIFIED",
            MeldKind::Chi => "MELD_KIND_CHI",
            MeldKind::Peng => "MELD_KIND_PENG",
            MeldKind::ExposedKong => "MELD_KIND_EXPOSED_KONG",
            MeldKind::SupplementalKong => "MELD_KIND_SUPPLEMENTAL_KONG",
        }
    }
}

/// Every MeldKind survives the trip over the wire, and no other number is accepted for it.
pub proof fn law_meld_kind_codes(value: MeldKind, code: i32)
    ensures
        MeldKind::decode(value.code()) == Some(value),
        MeldKind::decode(code) == Some(value) ==> value.code() == code,
{
}

/// How a hand was won, in the rule engine's vocabulary.
#[derive(Clone, Copy, Debug, PartialEq, Eq, Structural)]
pub enum WinType {
    Unspecified,
    SelfDraw,
    Discard,
    RobKong,
    KongDraw,
}

impl WinType {
    /// The number that stands for the value on the wire.
    pub open spec fn code(self) -> i32 {
        match self {
            WinType::Unspecified => 0,
            WinType::SelfDraw => 1,
            WinType::Discard => 2,
            WinType::RobKong => 3,
            WinType::KongDraw => 4,
        }
    }

    /// The value that a number stands for, if any.
    pub open spec fn decode(code: i32) -> Option<WinType> {
        if code == 0 {
            Some(WinType::Unspecified)
        } else if code == 1 {
            Some(WinType::SelfDraw)
        } else if code == 2 {
            Some(WinType::Discard)
        } else if code == 3 {
            Some(WinType::RobKong)
        } else if code == 4 {
            Some(WinType::KongDraw)
        } else {
            None
        }
    }

    /// The value's name in the protocol.
    pub open spec fn name(self) -> Seq<char> {
        match self {
            WinType::Unspecified => "WIN_TYPE_UNSPECIFIED"@,
            WinType::SelfDraw => "WIN_TYPE_SELF_DRAW"@,
            WinType::Discard => "WIN_TYPE_DISCARD"@,
            WinType::RobKong => "WIN_TYPE_ROB_KONG"@,
            WinType::KongDraw => "WIN_TYPE_KONG_DRAW"@,
        }
    }

    pub fn as_i32(self) -> (r: i32)
        ensures
            r == self.code(),
    {
        match self {
            WinType::Unspecified => 0,
            WinType::SelfDraw => 1,
            WinType::Discard => 2,
            WinType::RobKong => 3,
            WinType::KongDraw => 4,
        }
    }

    pub fn from_i32(code: i32) -> (r: Option<WinType>)
        ensures
            r == WinType::decode(code),
    {
        match code {
            0 => Some(WinType::Unspecified),
            1 => Some(WinType::SelfDraw),
            2 => Some(WinType::Discard),
            3 => Some(WinType::RobKong),
            4 => Some(WinType::KongDraw),
            _ => None,
        }
    }

    pub fn as_str_name(self) -> (r: &'static str)
        ensures
            r@ == self.name(),
    {
        match self {
            WinType::Unspecified => "WIN_TYPE_UNSPECIFIED",
            WinType::SelfDraw => "WIN_TYPE_SELF_DRAW",
            WinType::Discard => "WIN_TYPE_DISCARD",
            WinType::RobKong => "WIN_TYPE_ROB_KONG",
            WinType::KongDraw => "WIN_TYPE_KONG_DRAW",
        }
    }
}

/// Every WinType survives the trip over the wire, and no other number is accepted for it.
pub proof fn law_win_type_codes(value: WinType, code: i32)
    ensures
        WinType::decode(value.code()) == Some(value),
        WinType::decode(code) == Some(value) ==> value.code() == code,
{
}

/// A circumstance of a settled hand, in the rule engine's vocabulary.
#[derive(Clone, Copy, Debug, PartialEq, Eq, Structural)]
pub enum SettlementFlag {
    Unspecified,
    SelfDraw,
    DiscardWin,
    RobKongWin,
    KongDrawWin,
    LastTileDraw,
    LastTileClaim,
}

impl SettlementFlag {
    /// The number that stands for the value on the wire.
    pub open spec fn code(self) -> i32 {
        match self {
            SettlementFlag::Unspecified => 0,
            SettlementFlag::SelfDraw => 1,
            SettlementFlag::DiscardWin => 2,
            SettlementFlag::RobKongWin => 3,
            SettlementFlag::KongDrawWin => 4,
            SettlementFlag::LastTileDraw => 5,
            SettlementFlag::LastTileClaim => 6,
        }
    }

    /// The value that a number stands for, if any.
    pub open spec fn decode(code: i32) -> Option<SettlementFlag> {
        if code == 0 {
            Some(SettlementFlag::Unspecified)
        } else if code == 1 {
            Some(SettlementFlag::SelfDraw)
        } else if code == 2 {
            Some(SettlementFlag::DiscardWin)
        } else if code == 3 {
            Some(SettlementFlag::RobKongWin)
        } else if code == 4 {
            Some(SettlementFlag::KongDrawWin)
        } else if code == 5 {
            Some(SettlementFlag::LastTileDraw)
        } else if code == 6 {
            Some(SettlementFlag::LastTileClaim)
        } else {
            None
        }
    }

    /// The value's name in the protocol.
    pub open spec fn name(self) -> Seq<char> {
        match self {
            SettlementFlag::Unspecified => "SETTLEMENT_FLAG_UNSPECIFIED"@,
            SettlementFlag::SelfDraw => "SETTLEMENT_FLAG_SELF_DRAW"@,
            SettlementFlag::DiscardWin => "SETTLEMENT_FLAG_DISCARD_WIN"@,
            SettlementFlag::RobKongWin => "SETTLEMENT_FLAG_ROB_KONG_WIN"@,
            SettlementFlag::KongDrawWin => "SETTLEMENT_FLAG_KONG_DRAW_WIN"@,
            SettlementFlag::LastTileDraw => "SETTLEMENT_FLAG_LAST_TILE_DRAW"@,
            SettlementFlag::LastTileClaim => "SETTLEMENT_FLAG_LAST_TILE_CLAIM"@,
        }
    }

    pub fn as_i32(self) -> (r: i32)
        ensures
            r == self.code(),
    {
        match self {
            SettlementFlag::Unspecified => 0,
            SettlementFlag::SelfDraw => 1,
            SettlementFlag::DiscardWin => 2,
            SettlementFlag::RobKongWin => 3,
            SettlementFlag::KongDrawWin => 4,
            SettlementFlag::LastTileDraw => 5,
            SettlementFlag::LastTileClaim => 6,
        }
    }

    pub fn from_i32(code: i32) -> (r: Option<SettlementFlag>)
        ensures
            r == SettlementFlag::decode(code),
    {
        match code {
            0 => Some(SettlementFlag::Unspecified),
            1 => Some(SettlementFlag::SelfDraw),
            2 => Some(SettlementFlag::DiscardWin),
            3 => Some(SettlementFlag::RobKongWin),
            4 => Some(SettlementFlag::KongDrawWin),
            5 => Some(SettlementFlag::LastTileDraw),
            6 => Some(SettlementFlag::LastTileClaim),
            _ => None,
        }
    }

    pub fn as_str_name(self) -> (r: &'static str)
        ensures
            r@ == self.name(),
    {
        match self {
            SettlementFlag::Unspecified => "SETTLEMENT_FLAG_UNSPECIFIED",
            SettlementFlag::SelfDraw => "SETTLEMENT_FLAG_SELF_DRAW",
            SettlementFlag::DiscardWin => "SETTLEMENT_FLAG_DISCARD_WIN",
            SettlementFlag::RobKongWin => "SETTLEMENT_FLAG_ROB_KONG_WIN",
            SettlementFlag::KongDrawWin => "SETTLEMENT_FLAG_KONG_DRAW_WIN",
            SettlementFlag::LastTileDraw => "SETTLEMENT_FLAG_LAST_TILE_DRAW",
            SettlementFlag::LastTileClaim => "SETTLEMENT_FLAG_LAST_TILE_CLAIM",
        }
    }
}

/// Every SettlementFlag survives the trip over the wire, and no other number is accepted for it.
pub proof fn law_settlement_flag_codes(value: SettlementFlag, code: i32)
    ensures
        SettlementFlag::decode(value.code()) == Some(value),
        SettlementFlag::decode(code) == Some(value) ==> value.code() == code,
{
}

/// Why the rule engine calls an action illegal.
#[derive(Clone, Copy, Debug, PartialEq, Eq, Structural)]
pub enum ValidationRejectCode {
    Unspecified,
    InvalidContext,
    TileNotOwned,
    TileNotAvailable,
    MeldNotFormable,
    HandNotComplete,
    RulesetViolation,
    ActionWindowMismatch,
    InternalError,
}

impl ValidationRejectCode {
    /// The number that stands for the value on the wire.
    pub open spec fn code(self) -> i32 {
        match self {
            ValidationRejectCode::Unspecified => 0,
            ValidationRejectCode::InvalidContext => 1,
            ValidationRejectCode::TileNotOwned => 2,
            ValidationRejectCode::TileNotAvailable => 3,
            ValidationRejectCode::MeldNotFormable => 4,
            ValidationRejectCode::HandNotComplete => 5,
            ValidationRejectCode::RulesetViolation => 6,
            ValidationRejectCode::ActionWindowMismatch => 7,
            ValidationRejectCode::InternalError => 8,
        }
    }

    /// The value that a number stands for, if any.
    pub open spec fn decode(code: i32) -> Option<ValidationRejectCode> {
        if code == 0 {
            Some(ValidationRejectCode::Unspecified)
        } else if code == 1 {
            Some(ValidationRejectCode::InvalidContext)
        } else if code == 2 {
            Some(ValidationRejectCode::TileNotOwned)
        } else if code == 3 {
            Some(ValidationRejectCode::TileNotAvailable)
        } else if code == 4 {
            Some(ValidationRejectCode::MeldNotFormable)
        } else if code == 5 {
            Some(ValidationRejectCode::HandNotComplete)
        } else if code == 6 {
            Some(ValidationRejectCode::RulesetViolation)
        } else if code == 7 {
            Some(ValidationRejectCode::ActionWindowMismatch)
        } else if code == 8 {
            Some(ValidationRejectCode::InternalError)
        } else {
            None
        }
    }

    /// The value's name in the protocol.
    pub open spec fn name(self) -> Seq<char> {
        match self {
            ValidationRejectCode::Unspecified => "VALIDATION_REJECT_CODE_UNSPECIFIED"@,
            ValidationRejectCode::InvalidContext => "VALIDATION_REJECT_CODE_INVALID_CONTEXT"@,
            ValidationRejectCode::TileNotOwned => "VALIDATION_REJECT_CODE_TILE_NOT_OWNED"@,
            ValidationRejectCode::TileNotAvailable => "VALIDATION_REJECT_CODE_TILE_NOT_AVAILABLE"@,
            ValidationRejectCode::MeldNotFormable => "VALIDATION_REJECT_CODE_MELD_NOT_FORMABLE"@,
            ValidationRejectCode::HandNotComplete => "VALIDATION_REJECT_CODE_HAND_NOT_COMPLETE"@,
            ValidationRejectCode::RulesetViolation => "VALIDATION_REJECT_CODE_RULESET_VIOLATION"@,
            ValidationRejectCode::ActionWindowMismatch => "VALIDATION_REJECT_CODE_ACTION_WINDOW_MISMATCH"@,
            ValidationRejectCode::InternalError => "VALIDATION_REJECT_CODE_INTERNAL_ERROR"@,
        }
    }

    pub fn as_i32(self) -> (r: i32)
        ensures
            r == self.code(),
    {
        match self {
            ValidationRejectCode::Unspecified => 0,
            ValidationRejectCode::InvalidContext => 1,
            ValidationRejectCode::TileNotOwned => 2,
            ValidationRejectCode::TileNotAvailable => 3,
            ValidationRejectCode::MeldNotFormable => 4,
            ValidationRejectCode::HandNotComplete => 5,
            ValidationRejectCode::RulesetViolation => 6,
            ValidationRejectCode::ActionWindowMismatch => 7,
            ValidationRejectCode::InternalError => 8,
        }
    }

    pub fn from_i32(code: i32) -> (r: Option<ValidationRejectCode>)
        ensures
            r == ValidationRejectCode::decode(code),
    {
        match code {
            0 => Some(ValidationRejectCode::Unspecified),
            1 => Some(ValidationRejectCode::InvalidContext),
            2 => Some(ValidationRejectCode::TileNotOwned),
            3 => Some(ValidationRejectCode::TileNotAvailable),
            4 => Some(ValidationRejectCode::MeldNotFormable),
            5 => Some(ValidationRejectCode::HandNotComplete),
            6 => Some(ValidationRejectCode::RulesetViolation),
            7 => Some(ValidationRejectCode::ActionWindowMismatch),
            8 => Some(ValidationRejectCode::InternalError),
            _ => None,
        }
    }

    pub fn as_str_name(self) -> (r: &'static str)
        ensures
            r@ == self.name(),
    {
        match self {
            ValidationRejectCode::Unspecified => "VALIDATION_REJECT_CODE_UNSPECIFIED",
            ValidationRejectCode::InvalidContext => "VALIDATION_REJECT_CODE_INVALID_CONTEXT",
            ValidationRejectCode::TileNotOwned => "VALIDATION_REJECT_CODE_TILE_NOT_OWNED",
            ValidationRejectCode::TileNotAvailable => "VALIDATION_REJECT_CODE_TILE_NOT_AVAILABLE",
            ValidationRejectCode::MeldNotFormable => "VALIDATION_REJECT_CODE_MELD_NOT_FORMABLE",
            ValidationRejectCode::HandNotComplete => "VALIDATION_REJECT_CODE_HAND_NOT_COMPLETE",
            ValidationRejectCode::RulesetViolation => "VALIDATION_REJECT_CODE_RULESET_VIOLATION",
            ValidationRejectCode::ActionWindowMismatch => "VALIDATION_REJECT_CODE_ACTION_WINDOW_MISMATCH",
            ValidationRejectCode::InternalError => "VALIDATION_REJECT_CODE_INTERNAL_ERROR",
        }
    }
}

/// Every ValidationRejectCode survives the trip over the wire, and no other number is accepted for it.
pub proof fn law_validation_reject_code_codes(value: ValidationRejectCode, code: i32)
    ensures
        ValidationRejectCode::decode(value.code()) == Some(value),
        ValidationRejectCode::decode(code) == Some(value) ==> value.code() == code,
{
}

/// The rules in force.
#[derive(Debug, PartialEq, Eq)]
pub struct RuleConfig {
    pub ruleset_id: String,
    pub seat_count: u32,
    pub enable_flower_tiles: bool,
    pub enable_robbing_kong: bool,
    pub enable_kong_draw: bool,
    pub enable_last_tile_bonus: bool,
    pub base_points: u32,
}

/// The contents of a [`RuleConfig`].
#[verifier::ext_equal]
pub struct RuleConfigModel {
    pub ruleset_id: Seq<char>,
    pub seat_count: u32,
    pub enable_flower_tiles: bool,
    pub enable_robbing_kong: bool,
    pub enable_kong_draw: bool,
    pub enable_last_tile_bonus: bool,
    pub base_points: u32,
}

impl View for RuleConfig {
    type V = RuleConfigModel;

    open spec fn view(&self) -> RuleConfigModel {
        RuleConfigModel {
            ruleset_id: self.ruleset_id@,
            seat_count: self.seat_count,
            enable_flower_tiles: self.enable_flower_tiles,
            enable_robbing_kong: self.enable_robbing_kong,
            enable_kong_draw: self.enable_kong_draw,
            enable_last_tile_bonus: self.enable_last_tile_bonus,
            base_points: self.base_points,
        }
    }
}

impl Clone for RuleConfig {
    fn clone(&self) -> (r: Self)
        ensures
            r@ == self@,
    {
        RuleConfig {
            ruleset_id: self.ruleset_id.clone(),
            seat_count: self.seat_count,
            enable_flower_tiles: self.enable_flower_tiles,
            enable_robbing_kong: self.enable_robbing_kong,
            enable_kong_draw: self.enable_kong_draw,
            enable_last_tile_bonus: self.enable_last_tile_bonus,
            base_points: self.base_points,
        }
    }
}

/// Where the hand stands.
#[derive(Clone, Copy, Debug, PartialEq, Eq, Structural)]
pub struct RoundContext {
    pub prevailing_wind: i32,
    pub dealer_seat: i32,
    pub current_turn_seat: i32,
    pub hand_number: u32,
    pub dealer_streak: u32,
    pub wall_tiles_remaining: u32,
    pub dead_wall_tiles_remaining: u32,
    pub replacement_draw_pending: bool,
    pub is_last_tile: bool,
}

/// A discard to be judged.
#[derive(Clone, Copy, Debug, PartialEq, Eq, Structural)]
pub struct DiscardAction {
    pub tile: i32,
    pub tsumogiri: bool,
}

/// A claim to be judged.
#[derive(Debug, PartialEq, Eq)]
pub struct ClaimAction {
    pub claim_kind: i32,
    pub target_tile: i32,
    pub consume_tiles: Vec<i32>,
    pub source_seat: i32,
    pub source_event_seq: u64,
}

/// The contents of a [`ClaimAction`].
#[verifier::ext_equal]
pub struct ClaimActionModel {
    pub claim_kind: i32,
    pub target_tile: i32,
    pub consume_tiles: Seq<i32>,
    pub source_seat: i32,
    pub source_event_seq: u64,
}

impl View for ClaimAction {
    type V = ClaimActionModel;

    open spec fn view(&self) -> ClaimActionModel {
        ClaimActionModel {
            claim_kind: self.claim_kind,
            target_tile: self.target_tile,
            consume_tiles: self.consume_tiles@,
            source_seat: self.source_seat,
            source_event_seq: self.source_event_seq,
        }
    }
}

impl Clone for ClaimAction {
    fn clone(&self) -> (r: Self)
        ensures
            r@ == self@,
    {
        ClaimAction {
            claim_kind: self.claim_kind,
            target_tile: self.target_tile,
            consume_tiles: self.consume_tiles.clone(),
            source_seat: self.source_seat,
            source_event_seq: self.source_event_seq,
        }
    }
}

/// A win to be judged.
#[derive(Clone, Copy, Debug, PartialEq, Eq, Structural)]
pub struct DeclareWinAction {
    pub win_type: i32,
    pub winning_tile: i32,
    pub source_seat: i32,
    pub source_event_seq: u64,
}

/// A pass to be judged.
#[derive(Clone, Copy, Debug, PartialEq, Eq, Structural)]
pub struct PassAction {
    pub source_event_seq: u64,
}

/// A kong to be judged.
#[derive(Debug, PartialEq, Eq)]
pub struct KongAction {
    pub kong_kind: i32,
    pub tile: i32,
    pub consume_tiles: Vec<i32>,
    pub source_seat: i32,
    pub source_event_seq: u64,
}

/// The contents of a [`KongAction`].
#[verifier::ext_equal]
pub struct KongActionModel {
    pub kong_kind: i32,
    pub tile: i32,
    pub consume_tiles: Seq<i32>,
    pub source_seat: i32,
    pub source_event_seq: u64,
}

impl View for KongAction {
    type V = KongActionModel;

    open spec fn view(&self) -> KongActionModel {
        KongActionModel {
            kong_kind: self.kong_kind,
            tile: self.tile,
            consume_tiles: self.consume_tiles@,
            source_seat: self.source_seat,
            source_event_seq: self.source_event_seq,
        }
    }
}

impl Clone for KongAction {
    fn clone(&self) -> (r: Self)
        ensures
            r@ == self@,
    {
        KongAction {
            kong_kind: self.kong_kind,
            tile: self.tile,
            consume_tiles: self.consume_tiles.clone(),
            source_seat: self.source_seat,
            source_event_seq: self.source_event_seq,
        }
    }
}

/// The action to be judged.
#[derive(Debug, PartialEq, Eq)]
pub enum CandidateAction {
    Discard(DiscardAction),
    Claim(ClaimAction),
    DeclareWin(DeclareWinAction),
    Pass(PassAction),
    Kong(KongAction),
}

/// The contents of a [`CandidateAction`].
#[verifier::ext_equal]
pub enum CandidateActionModel {
    Discard(DiscardAction),
    Claim(ClaimActionModel),
    DeclareWin(DeclareWinAction),
    Pass(PassAction),
    Kong(KongActionModel),
}

impl View for CandidateAction {
    type V = CandidateActionModel;

    open spec fn view(&self) -> CandidateActionModel {
        match self {
            CandidateAction::Discard(value) => CandidateActionModel::Discard(*value),
            CandidateAction::Claim(value) => CandidateActionModel::Claim(value@),
            CandidateAction::DeclareWin(value) => CandidateActionModel::DeclareWin(*value),
            CandidateAction::Pass(value) => CandidateActionModel::Pass(*value),
            CandidateAction::Kong(value) => CandidateActionModel::Kong(value@),
        }
    }
}

impl Clone for CandidateAction {
    fn clone(&self) -> (r: Self)
        ensures
            r@ == self@,
    {
        match self {
            CandidateAction::Discard(value) => CandidateAction::Discard(*value),
            CandidateAction::Claim(value) => CandidateAction::Claim(value.clone()),
            CandidateAction::DeclareWin(value) => CandidateAction::DeclareWin(*value),
            CandidateAction::Pass(value) => CandidateAction::Pass(*value),
            CandidateAction::Kong(value) => CandidateAction::Kong(value.clone()),
        }
    }
}

/// The action that came last.
#[derive(Clone, Copy, Debug, PartialEq, Eq, Structural)]
pub struct RecentActionContext {
    pub source_event_seq: u64,
    pub source_seat: i32,
    pub source_action_kind: i32,
    pub source_tile: i32,
    pub replacement_draw: bool,
    pub rob_kong_candidate: bool,
}

/// The open claim window.
#[derive(Debug, PartialEq, Eq)]
pub struct ClaimWindowContext {
    pub action_window_id: u64,
    pub source_event_seq: u64,
    pub source_seat: i32,
    pub target_tile: i32,
    pub trigger_action_kind: i32,
    pub eligible_seats: Vec<i32>,
}

/// The contents of a [`ClaimWindowContext`].
#[verifier::ext_equal]
pub struct ClaimWindowContextModel {
    pub action_window_id: u64,
    pub source_event_seq: u64,
    pub source_seat: i32,
    pub target_tile: i32,
    pub trigger_action_kind: i32,
    pub eligible_seats: Seq<i32>,
}

impl View for ClaimWindowContext {
    type V = ClaimWindowContextModel;

    open spec fn view(&self) -> ClaimWindowContextModel {
        ClaimWindowContextModel {
            action_window_id: self.action_window_id,
            source_event_seq: self.source_event_seq,
            source_seat: self.source_seat,
            target_tile: self.target_tile,
            trigger_action_kind: self.trigger_action_kind,
            eligible_seats: self.eligible_seats@,
        }
    }
}

impl Clone for ClaimWindowContext {
    fn clone(&self) -> (r: Self)
        ensures
            r@ == self@,
    {
        ClaimWindowContext {
            action_window_id: self.action_window_id,
            source_event_seq: self.source_event_seq,
            source_seat: self.source_seat,
            target_tile: self.target_tile,
            trigger_action_kind: self.trigger_action_kind,
            eligible_seats: self.eligible_seats.clone(),
        }
    }
}

/// A meld on the table.
#[derive(Debug, PartialEq, Eq)]
pub struct Meld {
    pub kind: i32,
    pub tiles: Vec<i32>,
    pub from_seat: i32,
    pub claimed_tile: i32,
    pub concealed: bool,
    pub source_event_seq: u64,
}

/// The contents of a [`Meld`].
#[verifier::ext_equal]
pub struct MeldModel {
    pub kind: i32,
    pub tiles: Seq<i32>,
    pub from_seat: i32,
    pub claimed_tile: i32,
    pub concealed: bool,
    pub source_event_seq: u64,
}

impl View for Meld {
    type V = MeldModel;

    open spec fn view(&self) -> MeldModel {
        MeldModel {
            kind: self.kind,
            tiles: self.tiles@,
            from_seat: self.from_seat,
            claimed_tile: self.claimed_tile,
            concealed: self.concealed,
            source_event_seq: self.source_event_seq,
        }
    }
}

impl Clone for Meld {
    fn clone(&self) -> (r: Self)
        ensures
            r@ == self@,
    {
        Meld {
            kind: self.kind,
            tiles: self.tiles.clone(),
            from_seat: self.from_seat,
            claimed_tile: self.claimed_tile,
            concealed: self.concealed,
            source_event_seq: self.source_event_seq,
        }
    }
}

/// A tile in a discard row.
#[derive(Clone, Copy, Debug, PartialEq, Eq, Structural)]
pub struct DiscardTile {
    pub tile: i32,
    pub turn_index: u32,
    pub claimed: bool,
    pub drawn_and_discarded: bool,
    pub source_event_seq: u64,
}

/// What the rule engine is told of each player.
#[derive(Debug, PartialEq, Eq)]
pub struct EnginePlayerState {
    pub seat: i32,
    pub current_score: i64,
    pub concealed_tile_count: u32,
    pub melds: Vec<Meld>,
    pub discards: Vec<DiscardTile>,
    pub flowers: Vec<i32>,
}

/// The contents of a [`EnginePlayerState`].
#[verifier::ext_equal]
pub struct EnginePlayerStateModel {
    pub seat: i32,
    pub current_score: i64,
    pub concealed_tile_count: u32,
    pub melds: Seq<MeldModel>,
    pub discards: Seq<DiscardTile>,
    pub flowers: Seq<i32>,
}

impl View for EnginePlayerState {
    type V = EnginePlayerStateModel;

    open spec fn view(&self) -> EnginePlayerStateModel {
        EnginePlayerStateModel {
            seat: self.seat,
            current_score: self.current_score,
            concealed_tile_count: self.concealed_tile_count,
            melds: views(self.melds@),
            discards: self.discards@,
            flowers: self.flowers@,
        }
    }
}

impl Clone for EnginePlayerState {
    fn clone(&self) -> (r: Self)
        ensures
            r@ == self@,
    {
        EnginePlayerState {
            seat: self.seat,
            current_score: self.current_score,
            concealed_tile_count: self.concealed_tile_count,
            melds: self.melds.clone(),
            discards: self.discards.clone(),
            flowers: self.flowers.clone(),
        }
    }
}

/// The acting player's hand.
#[derive(Debug, PartialEq, Eq)]
pub struct PrivateHandContext {
    pub concealed_tiles: Vec<i32>,
    pub drawn_tile: i32,
}

/// The contents of a [`PrivateHandContext`].
#[verifier::ext_equal]
pub struct PrivateHandContextModel {
    pub concealed_tiles: Seq<i32>,
    pub drawn_tile: i32,
}

impl View for PrivateHandContext {
    type V = PrivateHandContextModel;

    open spec fn view(&self) -> PrivateHandContextModel {
        PrivateHandContextModel {
            concealed_tiles: self.concealed_tiles@,
            drawn_tile: self.drawn_tile,
        }
    }
}

impl Clone for PrivateHandContext {
    fn clone(&self) -> (r: Self)
        ensures
            r@ == self@,
    {
        PrivateHandContext {
            concealed_tiles: self.concealed_tiles.clone(),
            drawn_tile: self.drawn_tile,
        }
    }
}

/// Asks whether an action is legal.
#[derive(Debug, PartialEq, Eq)]
pub struct ValidateActionRequest {
    pub room_id: String,
    pub match_id: String,
    pub round_id: String,
    pub server_event_seq: u64,
    pub rule_config: Option<RuleConfig>,
    pub round_context: Option<RoundContext>,
    pub actor_seat: i32,
    pub candidate_action: Option<CandidateAction>,
    pub recent_action: Option<RecentActionContext>,
    pub players: Vec<EnginePlayerState>,
    pub actor_private_hand: Option<PrivateHandContext>,
    pub claim_window: Option<ClaimWindowContext>,
}

/// The contents of a [`ValidateActionRequest`].
#[verifier::ext_equal]
pub struct ValidateActionRequestModel {
    pub room_id: Seq<char>,
    pub match_id: Seq<char>,
    pub round_id: Seq<char>,
    pub server_event_seq: u64,
    pub rule_config: Option<RuleConfigModel>,
    pub round_context: Option<RoundContext>,
    pub actor_seat: i32,
    pub candidate_action: Option<CandidateActionModel>,
    pub recent_action: Option<RecentActionContext>,
    pub players: Seq<EnginePlayerStateModel>,
    pub actor_private_hand: Option<PrivateHandContextModel>,
    pub claim_window: Option<ClaimWindowContextModel>,
}

impl View for ValidateActionRequest {
    type V = ValidateActionRequestModel;

    open spec fn view(&self) -> ValidateActionRequestModel {
        ValidateActionRequestModel {
            room_id: self.room_id@,
            match_id: self.match_id@,
            round_id: self.round_id@,
            server_event_seq: self.server_event_seq,
            rule_config: opt_view(self.rule_config),
            round_context: self.round_context,
            actor_seat: self.actor_seat,
            candidate_action: opt_view(self.candidate_action),
            recent_action: self.recent_action,
            players: views(self.players@),
            actor_private_hand: opt_view(self.actor_private_hand),
            claim_window: opt_view(self.claim_window),
        }
    }
}

impl Clone for ValidateActionRequest {
    fn clone(&self) -> (r: Self)
        ensures
            r@ == self@,
    {
        ValidateActionRequest {
            room_id: self.room_id.clone(),
            match_id: self.match_id.clone(),
            round_id: self.round_id.clone(),
            server_event_seq: self.server_event_seq,
            rule_config: self.rule_config.clone(),
            round_context: self.round_context,
            actor_seat: self.actor_seat,
            candidate_action: self.candidate_action.clone(),
            recent_action: self.recent_action,
            players: self.players.clone(),
            actor_private_hand: self.actor_private_hand.clone(),
            claim_window: self.claim_window.clone(),
        }
    }
}

/// One scoring element.
#[derive(Debug, PartialEq, Eq)]
pub struct FanDetail {
    pub fan_code: String,
    pub fan_name: String,
    pub fan_value: u32,
    pub count: u32,
    pub description: String,
}

/// The contents of a [`FanDetail`].
#[verifier::ext_equal]
pub struct FanDetailModel {
    pub fan_code: Seq<char>,
    pub fan_name: Seq<char>,
    pub fan_value: u32,
    pub count: u32,
    pub description: Seq<char>,
}

impl View for FanDetail {
    type V = FanDetailModel;

    open spec fn view(&self) -> FanDetailModel {
        FanDetailModel {
            fan_code: self.fan_code@,
            fan_name: self.fan_name@,
            fan_value: self.fan_value,
            count: self.count,
            description: self.description@,
        }
    }
}

impl Clone for FanDetail {
    fn clone(&self) -> (r: Self)
        ensures
            r@ == self@,
    {
        FanDetail {
            fan_code: self.fan_code.clone(),
            fan_name: self.fan_name.clone(),
            fan_value: self.fan_value,
            count: self.count,
            description: self.description.clone(),
        }
    }
}

/// What the rule engine found out about a winning hand.
#[derive(Debug, PartialEq, Eq)]
pub struct WinningContext {
    pub win_type: i32,
    pub winning_tile: i32,
    pub completes_standard_hand: bool,
    pub completes_seven_pairs: bool,
    pub completes_thirteen_orphans: bool,
    pub tentative_fan_details: Vec<FanDetail>,
    pub tentative_total_fan: u32,
}

/// The contents of a [`WinningContext`].
#[verifier::ext_equal]
pub struct WinningContextModel {
    pub win_type: i32,
    pub winning_tile: i32,
    pub completes_standard_hand: bool,
    pub completes_seven_pairs: bool,
    pub completes_thirteen_orphans: bool,
    pub tentative_fan_details: Seq<FanDetailModel>,
    pub tentative_total_fan: u32,
}

impl View for WinningContext {
    type V = WinningContextModel;

    open spec fn view(&self) -> WinningContextModel {
        WinningContextModel {
            win_type: self.win_type,
            winning_tile: self.winning_tile,
            completes_standard_hand: self.completes_standard_hand,
            completes_seven_pairs: self.completes_seven_pairs,
            completes_thirteen_orphans: self.completes_thirteen_orphans,
            tentative_fan_details: views(self.tentative_fan_details@),
            tentative_total_fan: self.tentative_total_fan,
        }
    }
}

impl Clone for WinningContext {
    fn clone(&self) -> (r: Self)
        ensures
            r@ == self@,
    {
        WinningContext {
            win_type: self.win_type,
            winning_tile: self.winning_tile,
            completes_standard_hand: self.completes_standard_hand,
            completes_seven_pairs: self.completes_seven_pairs,
            completes_thirteen_orphans: self.completes_thirteen_orphans,
            tentative_fan_details: self.tentative_fan_details.clone(),
            tentative_total_fan: self.tentative_total_fan,
        }
    }
}

/// The rule engine's verdict on an action.
#[derive(Debug, PartialEq, Eq)]
pub struct ValidateActionResponse {
    pub is_legal: bool,
    pub reject_code: i32,
    pub derived_action_type: i32,
    pub meld_result: Option<Meld>,
    pub winning_context: Option<WinningContext>,
    pub suggested_follow_ups: Vec<i32>,
    pub explanation: String,
}

/// The contents of a [`ValidateActionResponse`].
#[verifier::ext_equal]
pub struct ValidateActionResponseModel {
    pub is_legal: bool,
    pub reject_code: i32,
    pub derived_action_type: i32,
    pub meld_result: Option<MeldModel>,
    pub winning_context: Option<WinningContextModel>,
    pub suggested_follow_ups: Seq<i32>,
    pub explanation: Seq<char>,
}

impl View for ValidateActionResponse {
    type V = ValidateActionResponseModel;

    open spec fn view(&self) -> ValidateActionResponseModel {
        ValidateActionResponseModel {
            is_legal: self.is_legal,
            reject_code: self.reject_code,
            derived_action_type: self.derived_action_type,
            meld_result: opt_view(self.meld_result),
            winning_context: opt_view(self.winning_context),
            suggested_follow_ups: self.suggested_follow_ups@,
            explanation: self.explanation@,
        }
    }
}

impl Clone for ValidateActionResponse {
    fn clone(&self) -> (r: Self)
        ensures
            r@ == self@,
    {
        ValidateActionResponse {
            is_legal: self.is_legal,
            reject_code: self.reject_code,
            derived_action_type: self.derived_action_type,
            meld_result: self.meld_result.clone(),
            winning_context: self.winning_context.clone(),
            suggested_follow_ups: self.suggested_follow_ups.clone(),
            explanation: self.explanation.clone(),
        }
    }
}

/// A hand at the end of a round.
#[derive(Debug, PartialEq, Eq)]
pub struct HandSnapshot {
    pub seat: i32,
    pub concealed_tiles: Vec<i32>,
    pub melds: Vec<Meld>,
    pub flowers: Vec<i32>,
    pub current_score: i64,
    pub winner: bool,
    pub discarder: bool,
}

/// The contents of a [`HandSnapshot`].
#[verifier::ext_equal]
pub struct HandSnapshotModel {
    pub seat: i32,
    pub concealed_tiles: Seq<i32>,
    pub melds: Seq<MeldModel>,
    pub flowers: Seq<i32>,
    pub current_score: i64,
    pub winner: bool,
    pub discarder: bool,
}

impl View for HandSnapshot {
    type V = HandSnapshotModel;

    open spec fn view(&self) -> HandSnapshotModel {
        HandSnapshotModel {
            seat: self.seat,
            concealed_tiles: self.concealed_tiles@,
            melds: views(self.melds@),
            flowers: self.flowers@,
            current_score: self.current_score,
            winner: self.winner,
            discarder: self.discarder,
        }
    }
}

impl Clone for HandSnapshot {
    fn clone(&self) -> (r: Self)
        ensures
            r@ == self@,
    {
        HandSnapshot {
            seat: self.seat,
            concealed_tiles: self.concealed_tiles.clone(),
            melds: self.melds.clone(),
            flowers: self.flowers.clone(),
            current_score: self.current_score,
            winner: self.winner,
            discarder: self.discarder,
        }
    }
}

/// Asks for the score of a winning hand.
#[derive(Debug, PartialEq, Eq)]
pub struct CalculateScoreRequest {
    pub room_id: String,
    pub match_id: String,
    pub round_id: String,
    pub rule_config: Option<RuleConfig>,
    pub round_context: Option<RoundContext>,
    pub win_type: i32,
    pub winner_seat: i32,
    pub discarder_seat: i32,
    pub winning_tile: i32,
    pub hands: Vec<HandSnapshot>,
    pub settlement_flags: Vec<i32>,
    pub terminal_action: Option<RecentActionContext>,
}

/// The contents of a [`CalculateScoreRequest`].
#[verifier::ext_equal]
pub struct CalculateScoreRequestModel {
    pub room_id: Seq<char>,
    pub match_id: Seq<char>,
    pub round_id: Seq<char>,
    pub rule_config: Option<RuleConfigModel>,
    pub round_context: Option<RoundContext>,
    pub win_type: i32,
    pub winner_seat: i32,
    pub discarder_seat: i32,
    pub winning_tile: i32,
    pub hands: Seq<HandSnapshotModel>,
    pub settlement_flags: Seq<i32>,
    pub terminal_action: Option<RecentActionContext>,
}

impl View for CalculateScoreRequest {
    type V = CalculateScoreRequestModel;

    open spec fn view(&self) -> CalculateScoreRequestModel {
        CalculateScoreRequestModel {
            room_id: self.room_id@,
            match_id: self.match_id@,
            round_id: self.round_id@,
            rule_config: opt_view(self.rule_config),
            round_context: self.round_context,
            win_type: self.win_type,
            winner_seat: self.winner_seat,
            discarder_seat: self.discarder_seat,
            winning_tile: self.winning_tile,
            hands: views(self.hands@),
            settlement_flags: self.settlement_flags@,
            terminal_action: self.terminal_action,
        }
    }
}

impl Clone for CalculateScoreRequest {
    fn clone(&self) -> (r: Self)
        ensures
            r@ == self@,
    {
        CalculateScoreRequest {
            room_id: self.room_id.clone(),
            match_id: self.match_id.clone(),
            round_id: self.round_id.clone(),
            rule_config: self.rule_config.clone(),
            round_context: self.round_context,
            win_type: self.win_type,
            winner_seat: self.winner_seat,
            discarder_seat: self.discarder_seat,
            winning_tile: self.winning_tile,
            hands: self.hands.clone(),
            settlement_flags: self.settlement_flags.clone(),
            terminal_action: self.terminal_action,
        }
    }
}

/// One seat's change of score.
#[derive(Clone, Copy, Debug, PartialEq, Eq, Structural)]
pub struct SeatScoreDelta {
    pub seat: i32,
    pub delta: i64,
    pub final_total: i64,
}

/// The score of a winning hand.
#[derive(Debug, PartialEq, Eq)]
pub struct CalculateScoreResponse {
    pub total_fan: u32,
    pub fan_details: Vec<FanDetail>,
    pub score_delta_by_seat: Vec<SeatScoreDelta>,
    pub settlement_flags: Vec<i32>,
}

/// The contents of a [`CalculateScoreResponse`].
#[verifier::ext_equal]
pub struct CalculateScoreResponseModel {
    pub total_fan: u32,
    pub fan_details: Seq<FanDetailModel>,
    pub score_delta_by_seat: Seq<SeatScoreDelta>,
    pub settlement_flags: Seq<i32>,
}

impl View for CalculateScoreResponse {
    type V = CalculateScoreResponseModel;

    open spec fn view(&self) -> CalculateScoreResponseModel {
        CalculateScoreResponseModel {
            total_fan: self.total_fan,
            fan_details: views(self.fan_details@),
            score_delta_by_seat: self.score_delta_by_seat@,
            settlement_flags: self.settlement_flags@,
        }
    }
}

impl Clone for CalculateScoreResponse {
    fn clone(&self) -> (r: Self)
        ensures
            r@ == self@,
    {
        CalculateScoreResponse {
            total_fan: self.total_fan,
            fan_details: self.fan_details.clone(),
            score_delta_by_seat: self.score_delta_by_seat.clone(),
            settlement_flags: self.settlement_flags.clone(),
        }
    }
}

} // verus!
