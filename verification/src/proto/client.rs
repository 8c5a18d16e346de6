//! The messages that clients and the server exchange.

use vstd::prelude::*;

use crate::collections::{opt_view, views};

verus! {

/// A seat at the table.
#[derive(Clone, Copy, Debug, PartialEq, Eq, Structural)]
pub enum Seat {
    Unspecified,
    East,
    South,
    West,
    North,
}

impl Seat {
    /// The number that stands for the value on the wire.
    pub open spec fn code(self) -> i32 {
        match self {
            Seat::Unspecified => 0,
            Seat::East => 1,
            Seat::South => 2,
            Seat::West => 3,
            Seat::North => 4,
        }
    }

    /// The value that a number stands for, if any.
    pub open spec fn decode(code: i32) -> Option<Seat> {
        if code == 0 {
            Some(Seat::Unspecified)
        } else if code == 1 {
            Some(Seat::East)
        } else if code == 2 {
            Some(Seat::South)
        } else if code == 3 {
            Some(Seat::West)
        } else if code == 4 {
            Some(Seat::North)
        } else {
            None
        }
    }

    /// The value's name in the protocol.
    pub open spec fn name(self) -> Seq<char> {
        match self {
            Seat::Unspecified => "SEAT_UNSPECIFIED"@,
            Seat::East => "SEAT_EAST"@,
            Seat::South => "SEAT_SOUTH"@,
            Seat::West => "SEAT_WEST"@,
            Seat::North => "SEAT_NORTH"@,
        }
    }

    pub fn as_i32(self) -> (r: i32)
        ensures
            r == self.code(),
    {
        match self {
            Seat::Unspecified => 0,
            Seat::East => 1,
            Seat::South => 2,
            Seat::West => 3,
            Seat::North => 4,
        }
    }

    pub fn from_i32(code: i32) -> (r: Option<Seat>)
        ensures
            r == Seat::decode(code),
    {
        match code {
            0 => Some(Seat::Unspecified),
            1 => Some(Seat::East),
            2 => Some(Seat::South),
            3 => Some(Seat::West),
            4 => Some(Seat::North),
            _ => None,
        }
    }

    pub fn as_str_name(self) -> (r: &'static str)
        ensures
            r@ == self.name(),
    {
        match self {
            Seat::Unspecified => "SEAT_UNSPECIFIED",
            Seat::East => "SEAT_EAST",
            Seat::South => "SEAT_SOUTH",
            Seat::West => "SEAT_WEST",
            Seat::North => "SEAT_NORTH",
        }
    }
}

/// Every Seat survives the trip over the wire, and no other number is accepted for it.
pub proof fn law_seat_codes(value: Seat, code: i32)
    ensures
        Seat::decode(value.code()) == Some(value),
        Seat::decode(code) == Some(value) ==> value.code() == code,
{
}

/// A tile face: three suits of nine ranks, winds, dragons, flowers and seasons.
#[derive(Clone, Copy, Debug, PartialEq, Eq, Structural)]
pub enum Tile {
    Unspecified,
    Character1,
    Character2,
    Character3,
    Character4,
    Character5,
    Character6,
    Character7,
    Character8,
    Character9,
    Bamboo1,
    Bamboo2,
    Bamboo3,
    Bamboo4,
    Bamboo5,
    Bamboo6,
    Bamboo7,
    Bamboo8,
    Bamboo9,
    Dot1,
    Dot2,
    Dot3,
    Dot4,
    Dot5,
    Dot6,
    Dot7,
    Dot8,
    Dot9,
    EastWind,
    SouthWind,
    WestWind,
    NorthWind,
    RedDragon,
    GreenDragon,
    WhiteDragon,
    FlowerPlum,
    FlowerOrchid,
    FlowerBamboo,
    FlowerChrysanthemum,
    SeasonSpring,
    SeasonSummer,
    SeasonAutumn,
    SeasonWinter,
}

impl Tile {
    /// The number that stands for the value on the wire.
    pub open spec fn code(self) -> i32 {
        match self {
            Tile::Unspecified => 0,
            Tile::Character1 => 1,
            Tile::Character2 => 2,
            Tile::Character3 => 3,
            Tile::Character4 => 4,
            Tile::Character5 => 5,
            Tile::Character6 => 6,
            Tile::Character7 => 7,
            Tile::Character8 => 8,
            Tile::Character9 => 9,
            Tile::Bamboo1 => 10,
            Tile::Bamboo2 => 11,
            Tile::Bamboo3 => 12,
            Tile::Bamboo4 => 13,
            Tile::Bamboo5 => 14,
            Tile::Bamboo6 => 15,
            Tile::Bamboo7 => 16,
            Tile::Bamboo8 => 17,
            Tile::Bamboo9 => 18,
            Tile::Dot1 => 19,
            Tile::Dot2 => 20,
            Tile::Dot3 => 21,
            Tile::Dot4 => 22,
            Tile::Dot5 => 23,
            Tile::Dot6 => 24,
            Tile::Dot7 => 25,
            Tile::Dot8 => 26,
            Tile::Dot9 => 27,
            Tile::EastWind => 28,
            Tile::SouthWind => 29,
            Tile::WestWind => 30,
            Tile::NorthWind => 31,
            Tile::RedDragon => 32,
            Tile::GreenDragon => 33,
            Tile::WhiteDragon => 34,
            Tile::FlowerPlum => 35,
            Tile::FlowerOrchid => 36,
            Tile::FlowerBamboo => 37,
            Tile::FlowerChrysanthemum => 38,
            Tile::SeasonSpring => 39,
            Tile::SeasonSummer => 40,
            Tile::SeasonAutumn => 41,
            Tile::SeasonWinter => 42,
        }
    }

    /// The value that a number stands for, if any.
    pub open spec fn decode(code: i32) -> Option<Tile> {
        if code == 0 {
            Some(Tile::Unspecified)
        } else if code == 1 {
            Some(Tile::Character1)
        } else if code == 2 {
            Some(Tile::Character2)
        } else if code == 3 {
            Some(Tile::Character3)
        } else if code == 4 {
            Some(Tile::Character4)
        } else if code == 5 {
            Some(Tile::Character5)
        } else if code == 6 {
            Some(Tile::Character6)
        } else if code == 7 {
            Some(Tile::Character7)
        } else if code == 8 {
            Some(Tile::Character8)
        } else if code == 9 {
            Some(Tile::Character9)
        } else if code == 10 {
            Some(Tile::Bamboo1)
        } else if code == 11 {
            Some(Tile::Bamboo2)
        } else if code == 12 {
            Some(Tile::Bamboo3)
        } else if code == 13 {
            Some(Tile::Bamboo4)
        } else if code == 14 {
            Some(Tile::Bamboo5)
        } else if code == 15 {
            Some(Tile::Bamboo6)
        } else if code == 16 {
            Some(Tile::Bamboo7)
        } else if code == 17 {
            Some(Tile::Bamboo8)
        } else if code == 18 {
            Some(Tile::Bamboo9)
        } else if code == 19 {
            Some(Tile::Dot1)
        } else if code == 20 {
            Some(Tile::Dot2)
        } else if code == 21 {
            Some(Tile::Dot3)
        } else if code == 22 {
            Some(Tile::Dot4)
        } else if code == 23 {
            Some(Tile::Dot5)
        } else if code == 24 {
            Some(Tile::Dot6)
        } else if code == 25 {
            Some(Tile::Dot7)
        } else if code == 26 {
            Some(Tile::Dot8)
        } else if code == 27 {
            Some(Tile::Dot9)
        } else if code == 28 {
            Some(Tile::EastWind)
        } else if code == 29 {
            Some(Tile::SouthWind)
        } else if code == 30 {
            Some(Tile::WestWind)
        } else if code == 31 {
            Some(Tile::NorthWind)
        } else if code == 32 {
            Some(Tile::RedDragon)
        } else if code == 33 {
            Some(Tile::GreenDragon)
        } else if code == 34 {
            Some(Tile::WhiteDragon)
        } else if code == 35 {
            Some(Tile::FlowerPlum)
        } else if code == 36 {
            Some(Tile::FlowerOrchid)
        } else if code == 37 {
            Some(Tile::FlowerBamboo)
        } else if code == 38 {
            Some(Tile::FlowerChrysanthemum)
        } else if code == 39 {
            Some(Tile::SeasonSpring)
        } else if code == 40 {
            Some(Tile::SeasonSummer)
        } else if code == 41 {
            Some(Tile::SeasonAutumn)
        } else if code == 42 {
            Some(Tile::SeasonWinter)
        } else {
            None
        }
    }

    /// The value's name in the protocol.
    pub open spec fn name(self) -> Seq<char> {
        match self {
            Tile::Unspecified => "TILE_UNSPECIFIED"@,
            Tile::Character1 => "TILE_CHARACTER_1"@,
            Tile::Character2 => "TILE_CHARACTER_2"@,
            Tile::Character3 => "TILE_CHARACTER_3"@,
            Tile::Character4 => "TILE_CHARACTER_4"@,
            Tile::Character5 => "TILE_CHARACTER_5"@,
            Tile::Character6 => "TILE_CHARACTER_6"@,
            Tile::Character7 => "TILE_CHARACTER_7"@,
            Tile::Character8 => "TILE_CHARACTER_8"@,
            Tile::Character9 => "TILE_CHARACTER_9"@,
            Tile::Bamboo1 => "TILE_BAMBOO_1"@,
            Tile::Bamboo2 => "TILE_BAMBOO_2"@,
            Tile::Bamboo3 => "TILE_BAMBOO_3"@,
            Tile::Bamboo4 => "TILE_BAMBOO_4"@,
            Tile::Bamboo5 => "TILE_BAMBOO_5"@,
            Tile::Bamboo6 => "TILE_BAMBOO_6"@,
            Tile::Bamboo7 => "TILE_BAMBOO_7"@,
            Tile::Bamboo8 => "TILE_BAMBOO_8"@,
            Tile::Bamboo9 => "TILE_BAMBOO_9"@,
            Tile::Dot1 => "TILE_DOT_1"@,
            Tile::Dot2 => "TILE_DOT_2"@,
            Tile::Dot3 => "TILE_DOT_3"@,
            Tile::Dot4 => "TILE_DOT_4"@,
            Tile::Dot5 => "TILE_DOT_5"@,
            Tile::Dot6 => "TILE_DOT_6"@,
            Tile::Dot7 => "TILE_DOT_7"@,
            Tile::Dot8 => "TILE_DOT_8"@,
            Tile::Dot9 => "TILE_DOT_9"@,
            Tile::EastWind => "TILE_EAST_WIND"@,
            Tile::SouthWind => "TILE_SOUTH_WIND"@,
            Tile::WestWind => "TILE_WEST_WIND"@,
            Tile::NorthWind => "TILE_NORTH_WIND"@,
            Tile::RedDragon => "TILE_RED_DRAGON"@,
            Tile::GreenDragon => "TILE_GREEN_DRAGON"@,
            Tile::WhiteDragon => "TILE_WHITE_DRAGON"@,
            Tile::FlowerPlum => "TILE_FLOWER_PLUM"@,
            Tile::FlowerOrchid => "TILE_FLOWER_ORCHID"@,
            Tile::FlowerBamboo => "TILE_FLOWER_BAMBOO"@,
            Tile::FlowerChrysanthemum => "TILE_FLOWER_CHRYSANTHEMUM"@,
            Tile::SeasonSpring => "TILE_SEASON_SPRING"@,
            Tile::SeasonSummer => "TILE_SEASON_SUMMER"@,
            Tile::SeasonAutumn => "TILE_SEASON_AUTUMN"@,
            Tile::SeasonWinter => "TILE_SEASON_WINTER"@,
        }
    }

    pub fn as_i32(self) -> (r: i32)
        ensures
            r == self.code(),
    {
        match self {
            Tile::Unspecified => 0,
            Tile::Character1 => 1,
            Tile::Character2 => 2,
            Tile::Character3 => 3,
            Tile::Character4 => 4,
            Tile::Character5 => 5,
            Tile::Character6 => 6,
            Tile::Character7 => 7,
            Tile::Character8 => 8,
            Tile::Character9 => 9,
            Tile::Bamboo1 => 10,
            Tile::Bamboo2 => 11,
            Tile::Bamboo3 => 12,
            Tile::Bamboo4 => 13,
            Tile::Bamboo5 => 14,
            Tile::Bamboo6 => 15,
            Tile::Bamboo7 => 16,
            Tile::Bamboo8 => 17,
            Tile::Bamboo9 => 18,
            Tile::Dot1 => 19,
            Tile::Dot2 => 20,
            Tile::Dot3 => 21,
            Tile::Dot4 => 22,
            Tile::Dot5 => 23,
            Tile::Dot6 => 24,
            Tile::Dot7 => 25,
            Tile::Dot8 => 26,
            Tile::Dot9 => 27,
            Tile::EastWind => 28,
            Tile::SouthWind => 29,
            Tile::WestWind => 30,
            Tile::NorthWind => 31,
            Tile::RedDragon => 32,
            Tile::GreenDragon => 33,
            Tile::WhiteDragon => 34,
            Tile::FlowerPlum => 35,
            Tile::FlowerOrchid => 36,
            Tile::FlowerBamboo => 37,
            Tile::FlowerChrysanthemum => 38,
            Tile::SeasonSpring => 39,
            Tile::SeasonSummer => 40,
            Tile::SeasonAutumn => 41,
            Tile::SeasonWinter => 42,
        }
    }

    pub fn from_i32(code: i32) -> (r: Option<Tile>)
        ensures
            r == Tile::decode(code),
    {
        match code {
            0 => Some(Tile::Unspecified),
            1 => Some(Tile::Character1),
            2 => Some(Tile::Character2),
            3 => Some(Tile::Character3),
            4 => Some(Tile::Character4),
            5 => Some(Tile::Character5),
            6 => Some(Tile::Character6),
            7 => Some(Tile::Character7),
            8 => Some(Tile::Character8),
            9 => Some(Tile::Character9),
            10 => Some(Tile::Bamboo1),
            11 => Some(Tile::Bamboo2),
            12 => Some(Tile::Bamboo3),
            13 => Some(Tile::Bamboo4),
            14 => Some(Tile::Bamboo5),
            15 => Some(Tile::Bamboo6),
            16 => Some(Tile::Bamboo7),
            17 => Some(Tile::Bamboo8),
            18 => Some(Tile::Bamboo9),
            19 => Some(Tile::Dot1),
            20 => Some(Tile::Dot2),
            21 => Some(Tile::Dot3),
            22 => Some(Tile::Dot4),
            23 => Some(Tile::Dot5),
            24 => Some(Tile::Dot6),
            25 => Some(Tile::Dot7),
            26 => Some(Tile::Dot8),
            27 => Some(Tile::Dot9),
            28 => Some(Tile::EastWind),
            29 => Some(Tile::SouthWind),
            30 => Some(Tile::WestWind),
            31 => Some(Tile::NorthWind),
            32 => Some(Tile::RedDragon),
            33 => Some(Tile::GreenDragon),
            34 => Some(Tile::WhiteDragon),
            35 => Some(Tile::FlowerPlum),
            36 => Some(Tile::FlowerOrchid),
            37 => Some(Tile::FlowerBamboo),
            38 => Some(Tile::FlowerChrysanthemum),
            39 => Some(Tile::SeasonSpring),
            40 => Some(Tile::SeasonSummer),
            41 => Some(Tile::SeasonAutumn),
            42 => Some(Tile::SeasonWinter),
            _ => None,
        }
    }

    pub fn as_str_name(self) -> (r: &'static str)
        ensures
            r@ == self.name(),
    {
        match self {
            Tile::Unspecified => "TILE_UNSPECIFIED",
            Tile::Character1 => "TILE_CHARACTER_1",
            Tile::Character2 => "TILE_CHARACTER_2",
            Tile::Character3 => "TILE_CHARACTER_3",
            Tile::Character4 => "TILE_CHARACTER_4",
            Tile::Character5 => "TILE_CHARACTER_5",
            Tile::Character6 => "TILE_CHARACTER_6",
            Tile::Character7 => "TILE_CHARACTER_7",
            Tile::Character8 => "TILE_CHARACTER_8",
            Tile::Character9 => "TILE_CHARACTER_9",
            Tile::Bamboo1 => "TILE_BAMBOO_1",
            Tile::Bamboo2 => "TILE_BAMBOO_2",
            Tile::Bamboo3 => "TILE_BAMBOO_3",
            Tile::Bamboo4 => "TILE_BAMBOO_4",
            Tile::Bamboo5 => "TILE_BAMBOO_5",
            Tile::Bamboo6 => "TILE_BAMBOO_6",
            Tile::Bamboo7 => "TILE_BAMBOO_7",
            Tile::Bamboo8 => "TILE_BAMBOO_8",
            Tile::Bamboo9 => "TILE_BAMBOO_9",
            Tile::Dot1 => "TILE_DOT_1",
            Tile::Dot2 => "TILE_DOT_2",
            Tile::Dot3 => "TILE_DOT_3",
            Tile::Dot4 => "TILE_DOT_4",
            Tile::Dot5 => "TILE_DOT_5",
            Tile::Dot6 => "TILE_DOT_6",
            Tile::Dot7 => "TILE_DOT_7",
            Tile::Dot8 => "TILE_DOT_8",
            Tile::Dot9 => "TILE_DOT_9",
            Tile::EastWind => "TILE_EAST_WIND",
            Tile::SouthWind => "TILE_SOUTH_WIND",
            Tile::WestWind => "TILE_WEST_WIND",
            Tile::NorthWind => "TILE_NORTH_WIND",
            Tile::RedDragon => "TILE_RED_DRAGON",
            Tile::GreenDragon => "TILE_GREEN_DRAGON",
            Tile::WhiteDragon => "TILE_WHITE_DRAGON",
            Tile::FlowerPlum => "TILE_FLOWER_PLUM",
            Tile::FlowerOrchid => "TILE_FLOWER_ORCHID",
            Tile::FlowerBamboo => "TILE_FLOWER_BAMBOO",
            Tile::FlowerChrysanthemum => "TILE_FLOWER_CHRYSANTHEMUM",
            Tile::SeasonSpring => "TILE_SEASON_SPRING",
            Tile::SeasonSummer => "TILE_SEASON_SUMMER",
            Tile::SeasonAutumn => "TILE_SEASON_AUTUMN",
            Tile::SeasonWinter => "TILE_SEASON_WINTER",
        }
    }
}

/// Every Tile survives the trip over the wire, and no other number is accepted for it.
pub proof fn law_tile_codes(value: Tile, code: i32)
    ensures
        Tile::decode(value.code()) == Some(value),
        Tile::decode(code) == Some(value) ==> value.code() == code,
{
}

/// The phase a room is in.
#[derive(Clone, Copy, Debug, PartialEq, Eq, Structural)]
pub enum GamePhase {
    Unspecified,
    Lobby,
    Dealing,
    WaitingDiscard,
    WaitingClaim,
    ResolvingKong,
    RoundSettlement,
    MatchSettlement,
}

impl GamePhase {
    /// The number that stands for the value on the wire.
    pub open spec fn code(self) -> i32 {
        match self {
            GamePhase::Unspecified => 0,
            GamePhase::Lobby => 1,
            GamePhase::Dealing => 2,
            GamePhase::WaitingDiscard => 3,
            GamePhase::WaitingClaim => 4,
            GamePhase::ResolvingKong => 5,
            GamePhase::RoundSettlement => 6,
            GamePhase::MatchSettlement => 7,
        }
    }

    /// The value that a number stands for, if any.
    pub open spec fn decode(code: i32) -> Option<GamePhase> {
        if code == 0 {
            Some(GamePhase::Unspecified)
        } else if code == 1 {
            Some(GamePhase::Lobby)
        } else if code == 2 {
            Some(GamePhase::Dealing)
        } else if code == 3 {
            Some(GamePhase::WaitingDiscard)
        } else if code == 4 {
            Some(GamePhase::WaitingClaim)
        } else if code == 5 {
            Some(GamePhase::ResolvingKong)
        } else if code == 6 {
            Some(GamePhase::RoundSettlement)
        } else if code == 7 {
            Some(GamePhase::MatchSettlement)
        } else {
            None
        }
    }

    /// The value's name in the protocol.
    pub open spec fn name(self) -> Seq<char> {
        match self {
            GamePhase::Unspecified => "GAME_PHASE_UNSPECIFIED"@,
            GamePhase::Lobby => "GAME_PHASE_LOBBY"@,
            GamePhase::Dealing => "GAME_PHASE_DEALING"@,
            GamePhase::WaitingDiscard => "GAME_PHASE_WAITING_DISCARD"@,
            GamePhase::WaitingClaim => "GAME_PHASE_WAITING_CLAIM"@,
            GamePhase::ResolvingKong => "GAME_PHASE_RESOLVING_KONG"@,
            GamePhase::RoundSettlement => "GAME_PHASE_ROUND_SETTLEMENT"@,
            GamePhase::MatchSettlement => "GAME_PHASE_MATCH_SETTLEMENT"@,
        }
    }

    pub fn as_i32(self) -> (r: i32)
        ensures
            r == self.code(),
    {
        match self {
            GamePhase::Unspecified => 0,
            GamePhase::Lobby => 1,
            GamePhase::Dealing => 2,
            GamePhase::WaitingDiscard => 3,
            GamePhase::WaitingClaim => 4,
            GamePhase::ResolvingKong => 5,
            GamePhase::RoundSettlement => 6,
            GamePhase::MatchSettlement => 7,
        }
    }

    pub fn from_i32(code: i32) -> (r: Option<GamePhase>)
        ensures
            r == GamePhase::decode(code),
    {
        match code {
            0 => Some(GamePhase::Unspecified),
            1 => Some(GamePhase::Lobby),
            2 => Some(GamePhase::Dealing),
            3 => Some(GamePhase::WaitingDiscard),
            4 => Some(GamePhase::WaitingClaim),
            5 => Some(GamePhase::ResolvingKong),
            6 => Some(GamePhase::RoundSettlement),
            7 => Some(GamePhase::MatchSettlement),
            _ => None,
        }
    }

    pub fn as_str_name(self) -> (r: &'static str)
        ensures
            r@ == self.name(),
    {
        match self {
            GamePhase::Unspecified => "GAME_PHASE_UNSPECIFIED",
            GamePhase::Lobby => "GAME_PHASE_LOBBY",
            GamePhase::Dealing => "GAME_PHASE_DEALING",
            GamePhase::WaitingDiscard => "GAME_PHASE_WAITING_DISCARD",
            GamePhase::WaitingClaim => "GAME_PHASE_WAITING_CLAIM",
            GamePhase::ResolvingKong => "GAME_PHASE_RESOLVING_KONG",
            GamePhase::RoundSettlement => "GAME_PHASE_ROUND_SETTLEMENT",
            GamePhase::MatchSettlement => "GAME_PHASE_MATCH_SETTLEMENT",
        }
    }
}

/// Every GamePhase survives the trip over the wire, and no other number is accepted for it.
pub proof fn law_game_phase_codes(value: GamePhase, code: i32)
    ensures
        GamePhase::decode(value.code()) == Some(value),
        GamePhase::decode(code) == Some(value) ==> value.code() == code,
{
}

/// How far a seated player has come.
#[derive(Clone, Copy, Debug, PartialEq, Eq, Structural)]
pub enum PlayerStatus {
    Unspecified,
    Joined,
    Ready,
    Playing,
}

impl PlayerStatus {
    /// The number that stands for the value on the wire.
    pub open spec fn code(self) -> i32 {
        match self {
            PlayerStatus::Unspecified => 0,
            PlayerStatus::Joined => 1,
            PlayerStatus::Ready => 2,
            PlayerStatus::Playing => 3,
        }
    }

    /// The value that a number stands for, if any.
    pub open spec fn decode(code: i32) -> Option<PlayerStatus> {
        if code == 0 {
            Some(PlayerStatus::Unspecified)
        } else if code == 1 {
            Some(PlayerStatus::Joined)
        } else if code == 2 {
            Some(PlayerStatus::Ready)
        } else if code == 3 {
            Some(PlayerStatus::Playing)
        } else {
            None
        }
    }

    /// The value's name in the protocol.
    pub open spec fn name(self) -> Seq<char> {
        match self {
            PlayerStatus::Unspecified => "PLAYER_STATUS_UNSPECIFIED"@,
            PlayerStatus::Joined => "PLAYER_STATUS_JOINED"@,
            PlayerStatus::Ready => "PLAYER_STATUS_READY"@,
            PlayerStatus::Playing => "PLAYER_STATUS_PLAYING"@,
        }
    }

    pub fn as_i32(self) -> (r: i32)
        ensures
            r == self.code(),
    {
        match self {
            PlayerStatus::Unspecified => 0,
            PlayerStatus::Joined => 1,
            PlayerStatus::Ready => 2,
            PlayerStatus::Playing => 3,
        }
    }

    pub fn from_i32(code: i32) -> (r: Option<PlayerStatus>)
        ensures
            r == PlayerStatus::decode(code),
    {
        match code {
            0 => Some(PlayerStatus::Unspecified),
            1 => Some(PlayerStatus::Joined),
            2 => Some(PlayerStatus::Ready),
            3 => Some(PlayerStatus::Playing),
            _ => None,
        }
    }

    pub fn as_str_name(self) -> (r: &'static str)
        ensures
            r@ == self.name(),
    {
        match self {
            PlayerStatus::Unspecified => "PLAYER_STATUS_UNSPECIFIED",
            PlayerStatus::Joined => "PLAYER_STATUS_JOINED",
            PlayerStatus::Ready => "PLAYER_STATUS_READY",
            PlayerStatus::Playing => "PLAYER_STATUS_PLAYING",
        }
    }
}

/// Every PlayerStatus survives the trip over the wire, and no other number is accepted for it.
pub proof fn law_player_status_codes(value: PlayerStatus, code: i32)
    ensures
        PlayerStatus::decode(value.code()) == Some(value),
        PlayerStatus::decode(code) == Some(value) ==> value.code() == code,
{
}

/// The kind of an action at the table.
#[derive(Clone, Copy, Debug, PartialEq, Eq, Structural)]
pub enum ActionKind {
    Unspecified,
    Draw,
    Discard,
    Chi,
    Peng,
    ExposedKong,
    SupplementalKong,
    DeclareWin,
    Pass,
}

impl ActionKind {
    /// The number that stands for the value on the wire.
    pub open spec fn code(self) -> i32 {
        match self {
            ActionKind::Unspecified => 0,
            ActionKind::Draw => 1,
            ActionKind::Discard => 2,
            ActionKind::Chi => 3,
            ActionKind::Peng => 4,
            ActionKind::ExposedKong => 5,
            ActionKind::SupplementalKong => 6,
            ActionKind::DeclareWin => 7,
            ActionKind::Pass => 8,
        }
    }

    /// The value that a number stands for, if any.
    pub open spec fn decode(code: i32) -> Option<ActionKind> {
        if code == 0 {
            Some(ActionKind::Unspecified)
        } else if code == 1 {
            Some(ActionKind::Draw)
        } else if code == 2 {
            Some(ActionKind::Discard)
        } else if code == 3 {
            Some(ActionKind::Chi)
        } else if code == 4 {
            Some(ActionKind::Peng)
        } else if code == 5 {
            Some(ActionKind::ExposedKong)
        } else if code == 6 {
            Some(ActionKind::SupplementalKong)
        } else if code == 7 {
            Some(ActionKind::DeclareWin)
        } else if code == 8 {
            Some(ActionKind::Pass)
        } else {
            None
        }
    }

    /// The value's name in the protocol.
    pub open spec fn name(self) -> Seq<char> {
        match self {
            ActionKind::Unspecified => "ACTION_KIND_UNSPECIFIED"@,
            ActionKind::Draw => "ACTION_KIND_DRAW"@,
            ActionKind::Discard => "ACTION_KIND_DISCARD"@,
            ActionKind::Chi => "ACTION_KIND_CHI"@,
            ActionKind::Peng => "ACTION_KIND_PENG"@,
            ActionKind::ExposedKong => "ACTION_KIND_EXPOSED_KONG"@,
            ActionKind::SupplementalKong => "ACTION_KIND_SUPPLEMENTAL_KONG"@,
            ActionKind::DeclareWin => "ACTION_KIND_DECLARE_WIN"@,
            ActionKind::Pass => "ACTION_KIND_PASS"@,
        }
    }

    pub fn as_i32(self) -> (r: i32)
        ensures
            r == self.code(),
    {
        match self {
            ActionKind::Unspecified => 0,
            ActionKind::Draw => 1,
            ActionKind::Discard => 2,
            ActionKind::Chi => 3,
            ActionKind::Peng => 4,
            ActionKind::ExposedKong => 5,
            ActionKind::SupplementalKong => 6,
            ActionKind::DeclareWin => 7,
            ActionKind::Pass => 8,
        }
    }

    pub fn from_i32(code: i32) -> (r: Option<ActionKind>)
        ensures
            r == ActionKind::decode(code),
    {
        match code {
            0 => Some(ActionKind::Unspecified),
            1 => Some(ActionKind::Draw),
            2 => Some(ActionKind::Discard),
            3 => Some(ActionKind::Chi),
            4 => Some(ActionKind::Peng),
            5 => Some(ActionKind::ExposedKong),
            6 => Some(ActionKind::SupplementalKong),
            7 => Some(ActionKind::DeclareWin),
            8 => Some(ActionKind::Pass),
            _ => None,
        }
    }

    pub fn as_str_name(self) -> (r: &'static str)
        ensures
            r@ == self.name(),
    {
        match self {
            ActionKind::Unspecified => "ACTION_KIND_UNSPECIFIED",
            ActionKind::Draw => "ACTION_KIND_DRAW",
            ActionKind::Discard => "ACTION_KIND_DISCARD",
            ActionKind::Chi => "ACTION_KIND_CHI",
            ActionKind::Peng => "ACTION_KIND_PENG",
            ActionKind::ExposedKong => "ACTION_KIND_EXPOSED_KONG",
            ActionKind::SupplementalKong => "ACTION_KIND_SUPPLEMENTAL_KONG",
            ActionKind::DeclareWin => "ACTION_KIND_DECLARE_WIN",
            ActionKind::Pass => "ACTION_KIND_PASS",
        }
    }
}

/// Every ActionKind survives the trip over the wire, and no other number is accepted for it.
pub proof fn law_action_kind_codes(value: ActionKind, code: i32)
    ensures
        ActionKind::decode(value.code()) == Some(value),
        ActionKind::decode(code) == Some(value) ==> value.code() == code,
{
}

/// The kind of a claim on another player's tile.
#[derive(Clone, Copy, Debug, PartialEq, Eq, Structural)]
pub enum ClaimKind {
    Unspecified,
    Chi,
    Peng,
    ExposedKong,
    DiscardWin,
    RobKongWin,
}

impl ClaimKind {
    /// The number that stands for the value on the wire.
    pub open spec fn code(self) -> i32 {
        match self {
            ClaimKind::Unspecified => 0,
            ClaimKind::Chi => 1,
            ClaimKind::Peng => 2,
            ClaimKind::ExposedKong => 3,
            ClaimKind::DiscardWin => 4,
            ClaimKind::RobKongWin => 5,
        }
    }

    /// The value that a number stands for, if any.
    pub open spec fn decode(code: i32) -> Option<ClaimKind> {
        if code == 0 {
            Some(ClaimKind::Unspecified)
        } else if code == 1 {
            Some(ClaimKind::Chi)
        } else if code == 2 {
            Some(ClaimKind::Peng)
        } else if code == 3 {
            Some(ClaimKind::ExposedKong)
        } else if code == 4 {
            Some(ClaimKind::DiscardWin)
        } else if code == 5 {
            Some(ClaimKind::RobKongWin)
        } else {
            None
        }
    }

    /// The value's name in the protocol.
    pub open spec fn name(self) -> Seq<char> {
        match self {
            ClaimKind::Unspecified => "CLAIM_KIND_UNSPECIFIED"@,
            ClaimKind::Chi => "CLAIM_KIND_CHI"@,
            ClaimKind::Peng => "CLAIM_KIND_PENG"@,
            ClaimKind::ExposedKong => "CLAIM_KIND_EXPOSED_KONG"@,
            ClaimKind::DiscardWin => "CLAIM_KIND_DISCARD_WIN"@,
            ClaimKind::RobKongWin => "CLAIM_KIND_ROB_KONG_WIN"@,
        }
    }

    pub fn as_i32(self) -> (r: i32)
        ensures
            r == self.code(),
    {
        match self {
            ClaimKind::Unspecified => 0,
            ClaimKind::Chi => 1,
            ClaimKind::Peng => 2,
            ClaimKind::ExposedKong => 3,
            ClaimKind::DiscardWin => 4,
            ClaimKind::RobKongWin => 5,
        }
    }

    pub fn from_i32(code: i32) -> (r: Option<ClaimKind>)
        ensures
            r == ClaimKind::decode(code),
    {
        match code {
            0 => Some(ClaimKind::Unspecified),
            1 => Some(ClaimKind::Chi),
            2 => Some(ClaimKind::Peng),
            3 => Some(ClaimKind::ExposedKong),
            4 => Some(ClaimKind::DiscardWin),
            5 => Some(ClaimKind::RobKongWin),
            _ => None,
        }
    }

    pub fn as_str_name(self) -> (r: &'static str)
        ensures
            r@ == self.name(),
    {
        match self {
            ClaimKind::Unspecified => "CLAIM_KIND_UNSPECIFIED",
            ClaimKind::Chi => "CLAIM_KIND_CHI",
            ClaimKind::Peng => "CLAIM_KIND_PENG",
            ClaimKind::ExposedKong => "CLAIM_KIND_EXPOSED_KONG",
            ClaimKind::DiscardWin => "CLAIM_KIND_DISCARD_WIN",
            ClaimKind::RobKongWin => "CLAIM_KIND_ROB_KONG_WIN",
        }
    }
}

/// Every ClaimKind survives the trip over the wire, and no other number is accepted for it.
pub proof fn law_claim_kind_codes(value: ClaimKind, code: i32)
    ensures
        ClaimKind::decode(value.code()) == Some(value),
        ClaimKind::decode(code) == Some(value) ==> value.code() == code,
{
}

/// The kind of a meld.
#[derive(Clone, Copy, Debug, PartialEq, Eq, Structural)]
pub enum MeldKind {
    Unspecified,
    Chi,
    Peng,
    ExposedKong,
    SupplementalKong,
}

impl MeldKind {
    /// The number that stands for the value on the wire.
    pub open spec fn code(self) -> i32 {
        match self {
            MeldKind::Unspecified => 0,
            MeldKind::Chi => 1,
            MeldKind::Peng => 2,
            MeldKind::ExposedKong => 3,
            MeldKind::SupplementalKong => 4,
        }
    }

    /// The value that a number stands for, if any.
    pub open spec fn decode(code: i32) -> Option<MeldKind> {
        if code == 0 {
            Some(MeldKind::Unspecified)
        } else if code == 1 {
            Some(MeldKind::Chi)
        } else if code == 2 {
            Some(MeldKind::Peng)
        } else if code == 3 {
            Some(MeldKind::ExposedKong)
        } else if code == 4 {
            Some(MeldKind::SupplementalKong)
        } else {
            None
        }
    }

    /// The value's name in the protocol.
    pub open spec fn name(self) -> Seq<char> {
        match self {
            MeldKind::Unspecified => "MELD_KIND_UNSPECIFIED"@,
            MeldKind::Chi => "MELD_KIND_CHI"@,
            MeldKind::Peng => "MELD_KIND_PENG"@,
            MeldKind::ExposedKong => "MELD_KIND_EXPOSED_KONG"@,
            MeldKind::SupplementalKong => "MELD_KIND_SUPPLEMENTAL_KONG"@,
        }
    }

    pub fn as_i32(self) -> (r: i32)
        ensures
            r == self.code(),
    {
        match self {
            MeldKind::Unspecified => 0,
            MeldKind::Chi => 1,
            MeldKind::Peng => 2,
            MeldKind::ExposedKong => 3,
            MeldKind::SupplementalKong => 4,
        }
    }

    pub fn from_i32(code: i32) -> (r: Option<MeldKind>)
        ensures
            r == MeldKind::decode(code),
    {
        match code {
            0 => Some(MeldKind::Unspecified),
            1 => Some(MeldKind::Chi),
            2 => Some(MeldKind::Peng),
            3 => Some(MeldKind::ExposedKong),
            4 => Some(MeldKind::SupplementalKong),
            _ => None,
        }
    }

    pub fn as_str_name(self) -> (r: &'static str)
        ensures
            r@ == self.name(),
    {
        match self {
            MeldKind::Unspecified => "MELD_KIND_UNSPECIFIED",
            MeldKind::Chi => "MELD_KIND_CHI",
            MeldKind::Peng => "MELD_KIND_PENG",
            MeldKind::ExposedKong => "MELD_KIND_EXPOSED_KONG",
            MeldKind::SupplementalKong => "MELD_KIND_SUPPLEMENTAL_KONG",
        }
    }
}

/// Every MeldKind survives the trip over the wire, and no other number is accepted for it.
pub proof fn law_meld_kind_codes(value: MeldKind, code: i32)
    ensures
        MeldKind::decode(value.code()) == Some(value),
        MeldKind::decode(code) == Some(value) ==> value.code() == code,
{
}

/// How a hand was won.
#[derive(Clone, Copy, Debug, PartialEq, Eq, Structural)]
pub enum WinType {
    Unspecified,
    SelfDraw,
    Discard,
    RobKong,
    KongDraw,
}

impl WinType {
    /// The number that stands for the value on the wire.
    pub open spec fn code(self) -> i32 {
        match self {
            WinType::Unspecified => 0,
            WinType::SelfDraw => 1,
            WinType::Discard => 2,
            WinType::RobKong => 3,
            WinType::KongDraw => 4,
        }
    }

    /// The value that a number stands for, if any.
    pub open spec fn decode(code: i32) -> Option<WinType> {
        if code == 0 {
            Some(WinType::Unspecified)
        } else if code == 1 {
            Some(WinType::SelfDraw)
        } else if code == 2 {
            Some(WinType::Discard)
        } else if code == 3 {
            Some(WinType::RobKong)
        } else if code == 4 {
            Some(WinType::KongDraw)
        } else {
            None
        }
    }

    /// The value's name in the protocol.
    pub open spec fn name(self) -> Seq<char> {
        match self {
            WinType::Unspecified => "WIN_TYPE_UNSPECIFIED"@,
            WinType::SelfDraw => "WIN_TYPE_SELF_DRAW"@,
            WinType::Discard => "WIN_TYPE_DISCARD"@,
            WinType::RobKong => "WIN_TYPE_ROB_KONG"@,
            WinType::KongDraw => "WIN_TYPE_KONG_DRAW"@,
        }
    }

    pub fn as_i32(self) -> (r: i32)
        ensures
            r == self.code(),
    {
        match self {
            WinType::Unspecified => 0,
            WinType::SelfDraw => 1,
            WinType::Discard => 2,
            WinType::RobKong => 3,
            WinType::KongDraw => 4,
        }
    }

    pub fn from_i32(code: i32) -> (r: Option<WinType>)
        ensures
            r == WinType::decode(code),
    {
        match code {
            0 => Some(WinType::Unspecified),
            1 => Some(WinType::SelfDraw),
            2 => Some(WinType::Discard),
            3 => Some(WinType::RobKong),
            4 => Some(WinType::KongDraw),
            _ => None,
        }
    }

    pub fn as_str_name(self) -> (r: &'static str)
        ensures
            r@ == self.name(),
    {
        match self {
            WinType::Unspecified => "WIN_TYPE_UNSPECIFIED",
            WinType::SelfDraw => "WIN_TYPE_SELF_DRAW",
            WinType::Discard => "WIN_TYPE_DISCARD",
            WinType::RobKong => "WIN_TYPE_ROB_KONG",
            WinType::KongDraw => "WIN_TYPE_KONG_DRAW",
        }
    }
}

/// Every WinType survives the trip over the wire, and no other number is accepted for it.
pub proof fn law_win_type_codes(value: WinType, code: i32)
    ensures
        WinType::decode(value.code()) == Some(value),
        WinType::decode(code) == Some(value) ==> value.code() == code,
{
}

/// Why a request was turned down.
#[derive(Clone, Copy, Debug, PartialEq, Eq, Structural)]
pub enum RejectCode {
    Unspecified,
    InvalidRequest,
    AuthFailed,
    RoomNotFound,
    NotInRoom,
    AlreadyJoined,
    SeatUnavailable,
    PhaseMismatch,
    NotYourTurn,
    ActionNotAvailable,
    ActionWindowClosed,
    InvalidTile,
    StaleEventSeq,
    RuleValidationFailed,
    InternalError,
}

impl RejectCode {
    /// The number that stands for the value on the wire.
    pub open spec fn code(self) -> i32 {
        match self {
            RejectCode::Unspecified => 0,
            RejectCode::InvalidRequest => 1,
            RejectCode::AuthFailed => 2,
            RejectCode::RoomNotFound => 3,
            RejectCode::NotInRoom => 4,
            RejectCode::AlreadyJoined => 5,
            RejectCode::SeatUnavailable => 6,
            RejectCode::PhaseMismatch => 7,
            RejectCode::NotYourTurn => 8,
            RejectCode::ActionNotAvailable => 9,
            RejectCode::ActionWindowClosed => 10,
            RejectCode::InvalidTile => 11,
            RejectCode::StaleEventSeq => 12,
            RejectCode::RuleValidationFailed => 13,
            RejectCode::InternalError => 14,
        }
    }

    /// The value that a number stands for, if any.
    pub open spec fn decode(code: i32) -> Option<RejectCode> {
        if code == 0 {
            Some(RejectCode::Unspecified)
        } else if code == 1 {
            Some(RejectCode::InvalidRequest)
        } else if code == 2 {
            Some(RejectCode::AuthFailed)
        } else if code == 3 {
            Some(RejectCode::RoomNotFound)
        } else if code == 4 {
            Some(RejectCode::NotInRoom)
        } else if code == 5 {
            Some(RejectCode::AlreadyJoined)
        } else if code == 6 {
            Some(RejectCode::SeatUnavailable)
        } else if code == 7 {
            Some(RejectCode::PhaseMismatch)
        } else if code == 8 {
            Some(RejectCode::NotYourTurn)
        } else if code == 9 {
            Some(RejectCode::ActionNotAvailable)
        } else if code == 10 {
            Some(RejectCode::ActionWindowClosed)
        } else if code == 11 {
            Some(RejectCode::InvalidTile)
        } else if code == 12 {
            Some(RejectCode::StaleEventSeq)
        } else if code == 13 {
            Some(RejectCode::RuleValidationFailed)
        } else if code == 14 {
            Some(RejectCode::InternalError)
        } else {
            None
        }
    }

    /// The value's name in the protocol.
    pub open spec fn name(self) -> Seq<char> {
        match self {
            RejectCode::Unspecified => "REJECT_CODE_UNSPECIFIED"@,
            RejectCode::InvalidRequest => "REJECT_CODE_INVALID_REQUEST"@,
            RejectCode::AuthFailed => "REJECT_CODE_AUTH_FAILED"@,
            RejectCode::RoomNotFound => "REJECT_CODE_ROOM_NOT_FOUND"@,
            RejectCode::NotInRoom => "REJECT_CODE_NOT_IN_ROOM"@,
            RejectCode::AlreadyJoined => "REJECT_CODE_ALREADY_JOINED"@,
            RejectCode::SeatUnavailable => "REJECT_CODE_SEAT_UNAVAILABLE"@,
            RejectCode::PhaseMismatch => "REJECT_CODE_PHASE_MISMATCH"@,
            RejectCode::NotYourTurn => "REJECT_CODE_NOT_YOUR_TURN"@,
            RejectCode::ActionNotAvailable => "REJECT_CODE_ACTION_NOT_AVAILABLE"@,
            RejectCode::ActionWindowClosed => "REJECT_CODE_ACTION_WINDOW_CLOSED"@,
            RejectCode::InvalidTile => "REJECT_CODE_INVALID_TILE"@,
            RejectCode::StaleEventSeq => "REJECT_CODE_STALE_EVENT_SEQ"@,
            RejectCode::RuleValidationFailed => "REJECT_CODE_RULE_VALIDATION_FAILED"@,
            RejectCode::InternalError => "REJECT_CODE_INTERNAL_ERROR"@,
        }
    }

    pub fn as_i32(self) -> (r: i32)
        ensures
            r == self.code(),
    {
        match self {
            RejectCode::Unspecified => 0,
            RejectCode::InvalidRequest => 1,
            RejectCode::AuthFailed => 2,
            RejectCode::RoomNotFound => 3,
            RejectCode::NotInRoom => 4,
            RejectCode::AlreadyJoined => 5,
            RejectCode::SeatUnavailable => 6,
            RejectCode::PhaseMismatch => 7,
            RejectCode::NotYourTurn => 8,
            RejectCode::ActionNotAvailable => 9,
            RejectCode::ActionWindowClosed => 10,
            RejectCode::InvalidTile => 11,
            RejectCode::StaleEventSeq => 12,
            RejectCode::RuleValidationFailed => 13,
            RejectCode::InternalError => 14,
        }
    }

    pub fn from_i32(code: i32) -> (r: Option<RejectCode>)
        ensures
            r == RejectCode::decode(code),
    {
        match code {
            0 => Some(RejectCode::Unspecified),
            1 => Some(RejectCode::InvalidRequest),
            2 => Some(RejectCode::AuthFailed),
            3 => Some(RejectCode::RoomNotFound),
            4 => Some(RejectCode::NotInRoom),
            5 => Some(RejectCode::AlreadyJoined),
            6 => Some(RejectCode::SeatUnavailable),
            7 => Some(RejectCode::PhaseMismatch),
            8 => Some(RejectCode::NotYourTurn),
            9 => Some(RejectCode::ActionNotAvailable),
            10 => Some(RejectCode::ActionWindowClosed),
            11 => Some(RejectCode::InvalidTile),
            12 => Some(RejectCode::StaleEventSeq),
            13 => Some(RejectCode::RuleValidationFailed),
            14 => Some(RejectCode::InternalError),
            _ => None,
        }
    }

    pub fn as_str_name(self) -> (r: &'static str)
        ensures
            r@ == self.name(),
    {
        match self {
            RejectCode::Unspecified => "REJECT_CODE_UNSPECIFIED",
            RejectCode::InvalidRequest => "REJECT_CODE_INVALID_REQUEST",
            RejectCode::AuthFailed => "REJECT_CODE_AUTH_FAILED",
            RejectCode::RoomNotFound => "REJECT_CODE_ROOM_NOT_FOUND",
            RejectCode::NotInRoom => "REJECT_CODE_NOT_IN_ROOM",
            RejectCode::AlreadyJoined => "REJECT_CODE_ALREADY_JOINED",
            RejectCode::SeatUnavailable => "REJECT_CODE_SEAT_UNAVAILABLE",
            RejectCode::PhaseMismatch => "REJECT_CODE_PHASE_MISMATCH",
            RejectCode::NotYourTurn => "REJECT_CODE_NOT_YOUR_TURN",
            RejectCode::ActionNotAvailable => "REJECT_CODE_ACTION_NOT_AVAILABLE",
            RejectCode::ActionWindowClosed => "REJECT_CODE_ACTION_WINDOW_CLOSED",
            RejectCode::InvalidTile => "REJECT_CODE_INVALID_TILE",
            RejectCode::StaleEventSeq => "REJECT_CODE_STALE_EVENT_SEQ",
            RejectCode::RuleValidationFailed => "REJECT_CODE_RULE_VALIDATION_FAILED",
            RejectCode::InternalError => "REJECT_CODE_INTERNAL_ERROR",
        }
    }
}

/// Every RejectCode survives the trip over the wire, and no other number is accepted for it.
pub proof fn law_reject_code_codes(value: RejectCode, code: i32)
    ensures
        RejectCode::decode(value.code()) == Some(value),
        RejectCode::decode(code) == Some(value) ==> value.code() == code,
{
}

/// A circumstance of a settled hand.
#[derive(Clone, Copy, Debug, PartialEq, Eq, Structural)]
pub enum SettlementFlag {
    Unspecified,
    SelfDraw,
    DiscardWin,
    RobKongWin,
    KongDrawWin,
    LastTileDraw,
    LastTileClaim,
    DrawGame,
}

impl SettlementFlag {
    /// The number that stands for the value on the wire.
    pub open spec fn code(self) -> i32 {
        match self {
            SettlementFlag::Unspecified => 0,
            SettlementFlag::SelfDraw => 1,
            SettlementFlag::DiscardWin => 2,
            SettlementFlag::RobKongWin => 3,
            SettlementFlag::KongDrawWin => 4,
            SettlementFlag::LastTileDraw => 5,
            SettlementFlag::LastTileClaim => 6,
            SettlementFlag::DrawGame => 7,
        }
    }

    /// The value that a number stands for, if any.
    pub open spec fn decode(code: i32) -> Option<SettlementFlag> {
        if code == 0 {
            Some(SettlementFlag::Unspecified)
        } else if code == 1 {
            Some(SettlementFlag::SelfDraw)
        } else if code == 2 {
            Some(SettlementFlag::DiscardWin)
        } else if code == 3 {
            Some(SettlementFlag::RobKongWin)
        } else if code == 4 {
            Some(SettlementFlag::KongDrawWin)
        } else if code == 5 {
            Some(SettlementFlag::LastTileDraw)
        } else if code == 6 {
            Some(SettlementFlag::LastTileClaim)
        } else if code == 7 {
            Some(SettlementFlag::DrawGame)
        } else {
            None
        }
    }

    /// The value's name in the protocol.
    pub open spec fn name(self) -> Seq<char> {
        match self {
            SettlementFlag::Unspecified => "SETTLEMENT_FLAG_UNSPECIFIED"@,
            SettlementFlag::SelfDraw => "SETTLEMENT_FLAG_SELF_DRAW"@,
            SettlementFlag::DiscardWin => "SETTLEMENT_FLAG_DISCARD_WIN"@,
            SettlementFlag::RobKongWin => "SETTLEMENT_FLAG_ROB_KONG_WIN"@,
            SettlementFlag::KongDrawWin => "SETTLEMENT_FLAG_KONG_DRAW_WIN"@,
            SettlementFlag::LastTileDraw => "SETTLEMENT_FLAG_LAST_TILE_DRAW"@,
            SettlementFlag::LastTileClaim => "SETTLEMENT_FLAG_LAST_TILE_CLAIM"@,
            SettlementFlag::DrawGame => "SETTLEMENT_FLAG_DRAW_GAME"@,
        }
    }

    pub fn as_i32(self) -> (r: i32)
        ensures
            r == self.code(),
    {
        match self {
            SettlementFlag::Unspecified => 0,
            SettlementFlag::SelfDraw => 1,
            SettlementFlag::DiscardWin => 2,
            SettlementFlag::RobKongWin => 3,
            SettlementFlag::KongDrawWin => 4,
            SettlementFlag::LastTileDraw => 5,
            SettlementFlag::LastTileClaim => 6,
            SettlementFlag::DrawGame => 7,
        }
    }

    pub fn from_i32(code: i32) -> (r: Option<SettlementFlag>)
        ensures
            r == SettlementFlag::decode(code),
    {
        match code {
            0 => Some(SettlementFlag::Unspecified),
            1 => Some(SettlementFlag::SelfDraw),
            2 => Some(SettlementFlag::DiscardWin),
            3 => Some(SettlementFlag::RobKongWin),
            4 => Some(SettlementFlag::KongDrawWin),
            5 => Some(SettlementFlag::LastTileDraw),
            6 => Some(SettlementFlag::LastTileClaim),
            7 => Some(SettlementFlag::DrawGame),
            _ => None,
        }
    }

    pub fn as_str_name(self) -> (r: &'static str)
        ensures
            r@ == self.name(),
    {
        match self {
            SettlementFlag::Unspecified => "SETTLEMENT_FLAG_UNSPECIFIED",
            SettlementFlag::SelfDraw => "SETTLEMENT_FLAG_SELF_DRAW",
            SettlementFlag::DiscardWin => "SETTLEMENT_FLAG_DISCARD_WIN",
            SettlementFlag::RobKongWin => "SETTLEMENT_FLAG_ROB_KONG_WIN",
            SettlementFlag::KongDrawWin => "SETTLEMENT_FLAG_KONG_DRAW_WIN",
            SettlementFlag::LastTileDraw => "SETTLEMENT_FLAG_LAST_TILE_DRAW",
            SettlementFlag::LastTileClaim => "SETTLEMENT_FLAG_LAST_TILE_CLAIM",
            SettlementFlag::DrawGame => "SETTLEMENT_FLAG_DRAW_GAME",
        }
    }
}

/// Every SettlementFlag survives the trip over the wire, and no other number is accepted for it.
pub proof fn law_settlement_flag_codes(value: SettlementFlag, code: i32)
    ensures
        SettlementFlag::decode(value.code()) == Some(value),
        SettlementFlag::decode(code) == Some(value) ==> value.code() == code,
{
}

/// Why a full snapshot is sent.
#[derive(Clone, Copy, Debug, PartialEq, Eq, Structural)]
pub enum SyncReason {
    Unspecified,
    RoundStart,
    Reconnect,
    ServerResync,
}

impl SyncReason {
    /// The number that stands for the value on the wire.
    pub open spec fn code(self) -> i32 {
        match self {
            SyncReason::Unspecified => 0,
            SyncReason::RoundStart => 1,
            SyncReason::Reconnect => 2,
            SyncReason::ServerResync => 3,
        }
    }

    /// The value that a number stands for, if any.
    pub open spec fn decode(code: i32) -> Option<SyncReason> {
        if code == 0 {
            Some(SyncReason::Unspecified)
        } else if code == 1 {
            Some(SyncReason::RoundStart)
        } else if code == 2 {
            Some(SyncReason::Reconnect)
        } else if code == 3 {
            Some(SyncReason::ServerResync)
        } else {
            None
        }
    }

    /// The value's name in the protocol.
    pub open spec fn name(self) -> Seq<char> {
        match self {
            SyncReason::Unspecified => "SYNC_REASON_UNSPECIFIED"@,
            SyncReason::RoundStart => "SYNC_REASON_ROUND_START"@,
            SyncReason::Reconnect => "SYNC_REASON_RECONNECT"@,
            SyncReason::ServerResync => "SYNC_REASON_SERVER_RESYNC"@,
        }
    }

    pub fn as_i32(self) -> (r: i32)
        ensures
            r == self.code(),
    {
        match self {
            SyncReason::Unspecified => 0,
            SyncReason::RoundStart => 1,
            SyncReason::Reconnect => 2,
            SyncReason::ServerResync => 3,
        }
    }

    pub fn from_i32(code: i32) -> (r: Option<SyncReason>)
        ensures
            r == SyncReason::decode(code),
    {
        match code {
            0 => Some(SyncReason::Unspecified),
            1 => Some(SyncReason::RoundStart),
            2 => Some(SyncReason::Reconnect),
            3 => Some(SyncReason::ServerResync),
            _ => None,
        }
    }

    pub fn as_str_name(self) -> (r: &'static str)
        ensures
            r@ == self.name(),
    {
        match self {
            SyncReason::Unspecified => "SYNC_REASON_UNSPECIFIED",
            SyncReason::RoundStart => "SYNC_REASON_ROUND_START",
            SyncReason::Reconnect => "SYNC_REASON_RECONNECT",
            SyncReason::ServerResync => "SYNC_REASON_SERVER_RESYNC",
        }
    }
}

/// Every SyncReason survives the trip over the wire, and no other number is accepted for it.
pub proof fn law_sync_reason_codes(value: SyncReason, code: i32)
    ensures
        SyncReason::decode(value.code()) == Some(value),
        SyncReason::decode(code) == Some(value) ==> value.code() == code,
{
}

/// The settings of a room.
#[derive(Debug, PartialEq, Eq)]
pub struct RoomConfig {
    pub ruleset_id: String,
    pub seat_count: u32,
    pub enable_flower_tiles: bool,
    pub enable_robbing_kong: bool,
    pub enable_kong_draw: bool,
    pub reconnect_grace_seconds: u32,
    pub action_timeout_ms: u32,
}

/// The contents of a [`RoomConfig`].
#[verifier::ext_equal]
pub struct RoomConfigModel {
    pub ruleset_id: Seq<char>,
    pub seat_count: u32,
    pub enable_flower_tiles: bool,
    pub enable_robbing_kong: bool,
    pub enable_kong_draw: bool,
    pub reconnect_grace_seconds: u32,
    pub action_timeout_ms: u32,
}

impl View for RoomConfig {
    type V = RoomConfigModel;

    open spec fn view(&self) -> RoomConfigModel {
        RoomConfigModel {
            ruleset_id: self.ruleset_id@,
            seat_count: self.seat_count,
            enable_flower_tiles: self.enable_flower_tiles,
            enable_robbing_kong: self.enable_robbing_kong,
            enable_kong_draw: self.enable_kong_draw,
            reconnect_grace_seconds: self.reconnect_grace_seconds,
            action_timeout_ms: self.action_timeout_ms,
        }
    }
}

impl Clone for RoomConfig {
    fn clone(&self) -> (r: Self)
        ensures
            r@ == self@,
    {
        RoomConfig {
            ruleset_id: self.ruleset_id.clone(),
            seat_count: self.seat_count,
            enable_flower_tiles: self.enable_flower_tiles,
            enable_robbing_kong: self.enable_robbing_kong,
            enable_kong_draw: self.enable_kong_draw,
            reconnect_grace_seconds: self.reconnect_grace_seconds,
            action_timeout_ms: self.action_timeout_ms,
        }
    }
}

/// A liveness probe of a client.
#[derive(Clone, Copy, Debug, PartialEq, Eq, Structural)]
pub struct Heartbeat {
    pub client_time_ms: u64,
    pub last_received_event_seq: u64,
}

/// A request to take a seat in a room.
#[derive(Debug, PartialEq, Eq)]
pub struct JoinRoomRequest {
    pub room_id: String,
    pub user_id: String,
    pub session_token: String,
    pub display_name: String,
    pub client_version: String,
}

/// The contents of a [`JoinRoomRequest`].
#[verifier::ext_equal]
pub struct JoinRoomRequestModel {
    pub room_id: Seq<char>,
    pub user_id: Seq<char>,
    pub session_token: Seq<char>,
    pub display_name: Seq<char>,
    pub client_version: Seq<char>,
}

impl View for JoinRoomRequest {
    type V = JoinRoomRequestModel;

    open spec fn view(&self) -> JoinRoomRequestModel {
        JoinRoomRequestModel {
            room_id: self.room_id@,
            user_id: self.user_id@,
            session_token: self.session_token@,
            display_name: self.display_name@,
            client_version: self.client_version@,
        }
    }
}

impl Clone for JoinRoomRequest {
    fn clone(&self) -> (r: Self)
        ensures
            r@ == self@,
    {
        JoinRoomRequest {
            room_id: self.room_id.clone(),
            user_id: self.user_id.clone(),
            session_token: self.session_token.clone(),
            display_name: self.display_name.clone(),
            client_version: self.client_version.clone(),
        }
    }
}

/// A request to change the ready mark.
#[derive(Clone, Copy, Debug, PartialEq, Eq, Structural)]
pub struct ReadyRequest {
    pub ready: bool,
}

/// A request to take up a seat again on a new connection.
#[derive(Debug, PartialEq, Eq)]
pub struct ResumeSessionRequest {
    pub room_id: String,
    pub user_id: String,
    pub resume_token: String,
    pub last_received_event_seq: u64,
}

/// The contents of a [`ResumeSessionRequest`].
#[verifier::ext_equal]
pub struct ResumeSessionRequestModel {
    pub room_id: Seq<char>,
    pub user_id: Seq<char>,
    pub resume_token: Seq<char>,
    pub last_received_event_seq: u64,
}

impl View for ResumeSessionRequest {
    type V = ResumeSessionRequestModel;

    open spec fn view(&self) -> ResumeSessionRequestModel {
        ResumeSessionRequestModel {
            room_id: self.room_id@,
            user_id: self.user_id@,
            resume_token: self.resume_token@,
            last_received_event_seq: self.last_received_event_seq,
        }
    }
}

impl Clone for ResumeSessionRequest {
    fn clone(&self) -> (r: Self)
        ensures
            r@ == self@,
    {
        ResumeSessionRequest {
            room_id: self.room_id.clone(),
            user_id: self.user_id.clone(),
            resume_token: self.resume_token.clone(),
            last_received_event_seq: self.last_received_event_seq,
        }
    }
}

/// Discards one tile.
#[derive(Clone, Copy, Debug, PartialEq, Eq, Structural)]
pub struct DiscardAction {
    pub tile: i32,
    pub tsumogiri: bool,
}

/// Claims the tile of an open claim window.
#[derive(Debug, PartialEq, Eq)]
pub struct ClaimAction {
    pub claim_kind: i32,
    pub target_tile: i32,
    pub consume_tiles: Vec<i32>,
    pub source_seat: i32,
    pub source_event_seq: u64,
}

/// The contents of a [`ClaimAction`].
#[verifier::ext_equal]
pub struct ClaimActionModel {
    pub claim_kind: i32,
    pub target_tile: i32,
    pub consume_tiles: Seq<i32>,
    pub source_seat: i32,
    pub source_event_seq: u64,
}

impl View for ClaimAction {
    type V = ClaimActionModel;

    open spec fn view(&self) -> ClaimActionModel {
        ClaimActionModel {
            claim_kind: self.claim_kind,
            target_tile: self.target_tile,
            consume_tiles: self.consume_tiles@,
            source_seat: self.source_seat,
            source_event_seq: self.source_event_seq,
        }
    }
}

impl Clone for ClaimAction {
    fn clone(&self) -> (r: Self)
        ensures
            r@ == self@,
    {
        ClaimAction {
            claim_kind: self.claim_kind,
            target_tile: self.target_tile,
            consume_tiles: self.consume_tiles.clone(),
            source_seat: self.source_seat,
            source_event_seq: self.source_event_seq,
        }
    }
}

/// Declares a win.
#[derive(Clone, Copy, Debug, PartialEq, Eq, Structural)]
pub struct DeclareWinAction {
    pub win_type: i32,
    pub winning_tile: i32,
    pub source_seat: i32,
    pub source_event_seq: u64,
}

/// Declines the open claim window.
#[derive(Clone, Copy, Debug, PartialEq, Eq, Structural)]
pub struct PassAction {
    pub source_event_seq: u64,
}

/// Adds the fourth tile to an exposed peng.
#[derive(Clone, Copy, Debug, PartialEq, Eq, Structural)]
pub struct SupplementalKongAction {
    pub tile: i32,
}

/// Switches automatic play on or off.
#[derive(Clone, Copy, Debug, PartialEq, Eq, Structural)]
pub struct AutoPlayToggle {
    pub enabled: bool,
}

/// The action that a player asks for.
#[derive(Debug, PartialEq, Eq)]
pub enum PlayerAction {
    Discard(DiscardAction),
    Claim(ClaimAction),
    DeclareWin(DeclareWinAction),
    Pass(PassAction),
    SupplementalKong(SupplementalKongAction),
    AutoPlayToggle(AutoPlayToggle),
}

/// The contents of a [`PlayerAction`].
#[verifier::ext_equal]
pub enum PlayerActionModel {
    Discard(DiscardAction),
    Claim(ClaimActionModel),
    DeclareWin(DeclareWinAction),
    Pass(PassAction),
    SupplementalKong(SupplementalKongAction),
    AutoPlayToggle(AutoPlayToggle),
}

impl View for PlayerAction {
    type V = PlayerActionModel;

    open spec fn view(&self) -> PlayerActionModel {
        match self {
            PlayerAction::Discard(value) => PlayerActionModel::Discard(*value),
            PlayerAction::Claim(value) => PlayerActionModel::Claim(value@),
            PlayerAction::DeclareWin(value) => PlayerActionModel::DeclareWin(*value),
            PlayerAction::Pass(value) => PlayerActionModel::Pass(*value),
            PlayerAction::SupplementalKong(value) => PlayerActionModel::SupplementalKong(*value),
            PlayerAction::AutoPlayToggle(value) => PlayerActionModel::AutoPlayToggle(*value),
        }
    }
}

impl Clone for PlayerAction {
    fn clone(&self) -> (r: Self)
        ensures
            r@ == self@,
    {
        match self {
            PlayerAction::Discard(value) => PlayerAction::Discard(*value),
            PlayerAction::Claim(value) => PlayerAction::Claim(value.clone()),
            PlayerAction::DeclareWin(value) => PlayerAction::DeclareWin(*value),
            PlayerAction::Pass(value) => PlayerAction::Pass(*value),
            PlayerAction::SupplementalKong(value) => PlayerAction::SupplementalKong(*value),
            PlayerAction::AutoPlayToggle(value) => PlayerAction::AutoPlayToggle(*value),
        }
    }
}

/// An action together with the state it was decided on.
#[derive(Debug, PartialEq, Eq)]
pub struct PlayerActionRequest {
    pub room_id: String,
    pub match_id: String,
    pub round_id: String,
    pub expected_event_seq: u64,
    pub action_window_id: u64,
    pub action: Option<PlayerAction>,
}

/// The contents of a [`PlayerActionRequest`].
#[verifier::ext_equal]
pub struct PlayerActionRequestModel {
    pub room_id: Seq<char>,
    pub match_id: Seq<char>,
    pub round_id: Seq<char>,
    pub expected_event_seq: u64,
    pub action_window_id: u64,
    pub action: Option<PlayerActionModel>,
}

impl View for PlayerActionRequest {
    type V = PlayerActionRequestModel;

    open spec fn view(&self) -> PlayerActionRequestModel {
        PlayerActionRequestModel {
            room_id: self.room_id@,
            match_id: self.match_id@,
            round_id: self.round_id@,
            expected_event_seq: self.expected_event_seq,
            action_window_id: self.action_window_id,
            action: opt_view(self.action),
        }
    }
}

impl Clone for PlayerActionRequest {
    fn clone(&self) -> (r: Self)
        ensures
            r@ == self@,
    {
        PlayerActionRequest {
            room_id: self.room_id.clone(),
            match_id: self.match_id.clone(),
            round_id: self.round_id.clone(),
            expected_event_seq: self.expected_event_seq,
            action_window_id: self.action_window_id,
            action: self.action.clone(),
        }
    }
}

/// What a client frame carries.
#[derive(Debug, PartialEq, Eq)]
pub enum ClientPayload {
    Heartbeat(Heartbeat),
    JoinRoom(JoinRoomRequest),
    Ready(ReadyRequest),
    ResumeSession(ResumeSessionRequest),
    PlayerAction(PlayerActionRequest),
}

/// The contents of a [`ClientPayload`].
#[verifier::ext_equal]
pub enum ClientPayloadModel {
    Heartbeat(Heartbeat),
    JoinRoom(JoinRoomRequestModel),
    Ready(ReadyRequest),
    ResumeSession(ResumeSessionRequestModel),
    PlayerAction(PlayerActionRequestModel),
}

impl View for ClientPayload {
    type V = ClientPayloadModel;

    open spec fn view(&self) -> ClientPayloadModel {
        match self {
            ClientPayload::Heartbeat(value) => ClientPayloadModel::Heartbeat(*value),
            ClientPayload::JoinRoom(value) => ClientPayloadModel::JoinRoom(value@),
            ClientPayload::Ready(value) => ClientPayloadModel::Ready(*value),
            ClientPayload::ResumeSession(value) => ClientPayloadModel::ResumeSession(value@),
            ClientPayload::PlayerAction(value) => ClientPayloadModel::PlayerAction(value@),
        }
    }
}

impl Clone for ClientPayload {
    fn clone(&self) -> (r: Self)
        ensures
            r@ == self@,
    {
        match self {
            ClientPayload::Heartbeat(value) => ClientPayload::Heartbeat(*value),
            ClientPayload::JoinRoom(value) => ClientPayload::JoinRoom(value.clone()),
            ClientPayload::Ready(value) => ClientPayload::Ready(*value),
            ClientPayload::ResumeSession(value) => ClientPayload::ResumeSession(value.clone()),
            ClientPayload::PlayerAction(value) => ClientPayload::PlayerAction(value.clone()),
        }
    }
}

/// One frame from a client.
#[derive(Debug, PartialEq, Eq)]
pub struct ClientFrame {
    pub request_id: String,
    pub payload: Option<ClientPayload>,
}

/// The contents of a [`ClientFrame`].
#[verifier::ext_equal]
pub struct ClientFrameModel {
    pub request_id: Seq<char>,
    pub payload: Option<ClientPayloadModel>,
}

impl View for ClientFrame {
    type V = ClientFrameModel;

    open spec fn view(&self) -> ClientFrameModel {
        ClientFrameModel {
            request_id: self.request_id@,
            payload: opt_view(self.payload),
        }
    }
}

impl Clone for ClientFrame {
    fn clone(&self) -> (r: Self)
        ensures
            r@ == self@,
    {
        ClientFrame {
            request_id: self.request_id.clone(),
            payload: self.payload.clone(),
        }
    }
}

/// A meld on the table.
#[derive(Debug, PartialEq, Eq)]
pub struct Meld {
    pub kind: i32,
    pub tiles: Vec<i32>,
    pub from_seat: i32,
    pub claimed_tile: i32,
    pub concealed: bool,
    pub source_event_seq: u64,
}

/// The contents of a [`Meld`].
#[verifier::ext_equal]
pub struct MeldModel {
    pub kind: i32,
    pub tiles: Seq<i32>,
    pub from_seat: i32,
    pub claimed_tile: i32,
    pub concealed: bool,
    pub source_event_seq: u64,
}

impl View for Meld {
    type V = MeldModel;

    open spec fn view(&self) -> MeldModel {
        MeldModel {
            kind: self.kind,
            tiles: self.tiles@,
            from_seat: self.from_seat,
            claimed_tile: self.claimed_tile,
            concealed: self.concealed,
            source_event_seq: self.source_event_seq,
        }
    }
}

impl Clone for Meld {
    fn clone(&self) -> (r: Self)
        ensures
            r@ == self@,
    {
        Meld {
            kind: self.kind,
            tiles: self.tiles.clone(),
            from_seat: self.from_seat,
            claimed_tile: self.claimed_tile,
            concealed: self.concealed,
            source_event_seq: self.source_event_seq,
        }
    }
}

/// A tile in a discard row.
#[derive(Clone, Copy, Debug, PartialEq, Eq, Structural)]
pub struct DiscardTile {
    pub tile: i32,
    pub turn_index: u32,
    pub claimed: bool,
    pub drawn_and_discarded: bool,
    pub source_event_seq: u64,
}

/// One way to answer a claim window.
#[derive(Debug, PartialEq, Eq)]
pub struct PromptOption {
    pub option_id: String,
    pub action_kind: i32,
    pub claim_kind: i32,
    pub win_type: i32,
    pub candidate_tiles: Vec<i32>,
    pub consume_tiles: Vec<i32>,
}

/// The contents of a [`PromptOption`].
#[verifier::ext_equal]
pub struct PromptOptionModel {
    pub option_id: Seq<char>,
    pub action_kind: i32,
    pub claim_kind: i32,
    pub win_type: i32,
    pub candidate_tiles: Seq<i32>,
    pub consume_tiles: Seq<i32>,
}

impl View for PromptOption {
    type V = PromptOptionModel;

    open spec fn view(&self) -> PromptOptionModel {
        PromptOptionModel {
            option_id: self.option_id@,
            action_kind: self.action_kind,
            claim_kind: self.claim_kind,
            win_type: self.win_type,
            candidate_tiles: self.candidate_tiles@,
            consume_tiles: self.consume_tiles@,
        }
    }
}

impl Clone for PromptOption {
    fn clone(&self) -> (r: Self)
        ensures
            r@ == self@,
    {
        PromptOption {
            option_id: self.option_id.clone(),
            action_kind: self.action_kind,
            claim_kind: self.claim_kind,
            win_type: self.win_type,
            candidate_tiles: self.candidate_tiles.clone(),
            consume_tiles: self.consume_tiles.clone(),
        }
    }
}

/// What everybody may see of a player.
#[derive(Debug, PartialEq, Eq)]
pub struct PlayerState {
    pub user_id: String,
    pub display_name: String,
    pub seat: i32,
    pub status: i32,
    pub score: i64,
    pub is_dealer: bool,
    pub is_connected: bool,
    pub auto_play_enabled: bool,
    pub concealed_tile_count: u32,
    pub melds: Vec<Meld>,
    pub discards: Vec<DiscardTile>,
    pub flowers: Vec<i32>,
    pub replacement_draw_count: u32,
}

/// The contents of a [`PlayerState`].
#[verifier::ext_equal]
pub struct PlayerStateModel {
    pub user_id: Seq<char>,
    pub display_name: Seq<char>,
    pub seat: i32,
    pub status: i32,
    pub score: i64,
    pub is_dealer: bool,
    pub is_connected: bool,
    pub auto_play_enabled: bool,
    pub concealed_tile_count: u32,
    pub melds: Seq<MeldModel>,
    pub discards: Seq<DiscardTile>,
    pub flowers: Seq<i32>,
    pub replacement_draw_count: u32,
}

impl View for PlayerState {
    type V = PlayerStateModel;

    open spec fn view(&self) -> PlayerStateModel {
        PlayerStateModel {
            user_id: self.user_id@,
            display_name: self.display_name@,
            seat: self.seat,
            status: self.status,
            score: self.score,
            is_dealer: self.is_dealer,
            is_connected: self.is_connected,
            auto_play_enabled: self.auto_play_enabled,
            concealed_tile_count: self.concealed_tile_count,
            melds: views(self.melds@),
            discards: self.discards@,
            flowers: self.flowers@,
            replacement_draw_count: self.replacement_draw_count,
        }
    }
}

impl Clone for PlayerState {
    fn clone(&self) -> (r: Self)
        ensures
            r@ == self@,
    {
        PlayerState {
            user_id: self.user_id.clone(),
            display_name: self.display_name.clone(),
            seat: self.seat,
            status: self.status,
            score: self.score,
            is_dealer: self.is_dealer,
            is_connected: self.is_connected,
            auto_play_enabled: self.auto_play_enabled,
            concealed_tile_count: self.concealed_tile_count,
            melds: self.melds.clone(),
            discards: self.discards.clone(),
            flowers: self.flowers.clone(),
            replacement_draw_count: self.replacement_draw_count,
        }
    }
}

/// The recipient's own hand.
#[derive(Debug, PartialEq, Eq)]
pub struct SelfHandState {
    pub concealed_tiles: Vec<i32>,
    pub drawn_tile: i32,
}

/// The contents of a [`SelfHandState`].
#[verifier::ext_equal]
pub struct SelfHandStateModel {
    pub concealed_tiles: Seq<i32>,
    pub drawn_tile: i32,
}

impl View for SelfHandState {
    type V = SelfHandStateModel;

    open spec fn view(&self) -> SelfHandStateModel {
        SelfHandStateModel {
            concealed_tiles: self.concealed_tiles@,
            drawn_tile: self.drawn_tile,
        }
    }
}

impl Clone for SelfHandState {
    fn clone(&self) -> (r: Self)
        ensures
            r@ == self@,
    {
        SelfHandState {
            concealed_tiles: self.concealed_tiles.clone(),
            drawn_tile: self.drawn_tile,
        }
    }
}

/// The open claim window, with the recipient's own options.
#[derive(Debug, PartialEq, Eq)]
pub struct ClaimWindow {
    pub action_window_id: u64,
    pub source_event_seq: u64,
    pub source_seat: i32,
    pub target_tile: i32,
    pub trigger_action_kind: i32,
    pub eligible_seats: Vec<i32>,
    pub options: Vec<PromptOption>,
    pub deadline_unix_ms: u64,
}

/// The contents of a [`ClaimWindow`].
#[verifier::ext_equal]
pub struct ClaimWindowModel {
    pub action_window_id: u64,
    pub source_event_seq: u64,
    pub source_seat: i32,
    pub target_tile: i32,
    pub trigger_action_kind: i32,
    pub eligible_seats: Seq<i32>,
    pub options: Seq<PromptOptionModel>,
    pub deadline_unix_ms: u64,
}

impl View for ClaimWindow {
    type V = ClaimWindowModel;

    open spec fn view(&self) -> ClaimWindowModel {
        ClaimWindowModel {
            action_window_id: self.action_window_id,
            source_event_seq: self.source_event_seq,
            source_seat: self.source_seat,
            target_tile: self.target_tile,
            trigger_action_kind: self.trigger_action_kind,
            eligible_seats: self.eligible_seats@,
            options: views(self.options@),
            deadline_unix_ms: self.deadline_unix_ms,
        }
    }
}

impl Clone for ClaimWindow {
    fn clone(&self) -> (r: Self)
        ensures
            r@ == self@,
    {
        ClaimWindow {
            action_window_id: self.action_window_id,
            source_event_seq: self.source_event_seq,
            source_seat: self.source_seat,
            target_tile: self.target_tile,
            trigger_action_kind: self.trigger_action_kind,
            eligible_seats: self.eligible_seats.clone(),
            options: self.options.clone(),
            deadline_unix_ms: self.deadline_unix_ms,
        }
    }
}

/// The table as one recipient sees it.
#[derive(Debug, PartialEq, Eq)]
pub struct GameSnapshot {
    pub room_config: Option<RoomConfig>,
    pub phase: i32,
    pub self_seat: i32,
    pub prevailing_wind: i32,
    pub dealer_seat: i32,
    pub current_turn_seat: i32,
    pub hand_number: u32,
    pub dealer_streak: u32,
    pub wall_tiles_remaining: u32,
    pub dead_wall_tiles_remaining: u32,
    pub latest_event_seq: u64,
    pub players: Vec<PlayerState>,
    pub self_hand: Option<SelfHandState>,
    pub active_claim_window: Option<ClaimWindow>,
    pub action_deadline_unix_ms: u64,
}

/// The contents of a [`GameSnapshot`].
#[verifier::ext_equal]
pub struct GameSnapshotModel {
    pub room_config: Option<RoomConfigModel>,
    pub phase: i32,
    pub self_seat: i32,
    pub prevailing_wind: i32,
    pub dealer_seat: i32,
    pub current_turn_seat: i32,
    pub hand_number: u32,
    pub dealer_streak: u32,
    pub wall_tiles_remaining: u32,
    pub dead_wall_tiles_remaining: u32,
    pub latest_event_seq: u64,
    pub players: Seq<PlayerStateModel>,
    pub self_hand: Option<SelfHandStateModel>,
    pub active_claim_window: Option<ClaimWindowModel>,
    pub action_deadline_unix_ms: u64,
}

impl View for GameSnapshot {
    type V = GameSnapshotModel;

    open spec fn view(&self) -> GameSnapshotModel {
        GameSnapshotModel {
            room_config: opt_view(self.room_config),
            phase: self.phase,
            self_seat: self.self_seat,
            prevailing_wind: self.prevailing_wind,
            dealer_seat: self.dealer_seat,
            current_turn_seat: self.current_turn_seat,
            hand_number: self.hand_number,
            dealer_streak: self.dealer_streak,
            wall_tiles_remaining: self.wall_tiles_remaining,
            dead_wall_tiles_remaining: self.dead_wall_tiles_remaining,
            latest_event_seq: self.latest_event_seq,
            players: views(self.players@),
            self_hand: opt_view(self.self_hand),
            active_claim_window: opt_view(self.active_claim_window),
            action_deadline_unix_ms: self.action_deadline_unix_ms,
        }
    }
}

impl Clone for GameSnapshot {
    fn clone(&self) -> (r: Self)
        ensures
            r@ == self@,
    {
        GameSnapshot {
            room_config: self.room_config.clone(),
            phase: self.phase,
            self_seat: self.self_seat,
            prevailing_wind: self.prevailing_wind,
            dealer_seat: self.dealer_seat,
            current_turn_seat: self.current_turn_seat,
            hand_number: self.hand_number,
            dealer_streak: self.dealer_streak,
            wall_tiles_remaining: self.wall_tiles_remaining,
            dead_wall_tiles_remaining: self.dead_wall_tiles_remaining,
            latest_event_seq: self.latest_event_seq,
            players: self.players.clone(),
            self_hand: self.self_hand.clone(),
            active_claim_window: self.active_claim_window.clone(),
            action_deadline_unix_ms: self.action_deadline_unix_ms,
        }
    }
}

/// A full snapshot for one recipient.
#[derive(Debug, PartialEq, Eq)]
pub struct SyncState {
    pub room_id: String,
    pub match_id: String,
    pub round_id: String,
    pub reason: i32,
    pub server_time_ms: u64,
    pub snapshot: Option<GameSnapshot>,
}

/// The contents of a [`SyncState`].
#[verifier::ext_equal]
pub struct SyncStateModel {
    pub room_id: Seq<char>,
    pub match_id: Seq<char>,
    pub round_id: Seq<char>,
    pub reason: i32,
    pub server_time_ms: u64,
    pub snapshot: Option<GameSnapshotModel>,
}

impl View for SyncState {
    type V = SyncStateModel;

    open spec fn view(&self) -> SyncStateModel {
        SyncStateModel {
            room_id: self.room_id@,
            match_id: self.match_id@,
            round_id: self.round_id@,
            reason: self.reason,
            server_time_ms: self.server_time_ms,
            snapshot: opt_view(self.snapshot),
        }
    }
}

impl Clone for SyncState {
    fn clone(&self) -> (r: Self)
        ensures
            r@ == self@,
    {
        SyncState {
            room_id: self.room_id.clone(),
            match_id: self.match_id.clone(),
            round_id: self.round_id.clone(),
            reason: self.reason,
            server_time_ms: self.server_time_ms,
            snapshot: self.snapshot.clone(),
        }
    }
}

/// The details of a draw.
#[derive(Clone, Copy, Debug, PartialEq, Eq, Structural)]
pub struct DrawDetail {
    pub tile: i32,
    pub visible_to_recipient: bool,
    pub replacement_draw: bool,
}

/// The details of a claim that won its window.
#[derive(Debug, PartialEq, Eq)]
pub struct ResolvedClaim {
    pub claim_kind: i32,
    pub target_tile: i32,
    pub consume_tiles: Vec<i32>,
    pub source_seat: i32,
    pub resulting_meld: Option<Meld>,
}

/// The contents of a [`ResolvedClaim`].
#[verifier::ext_equal]
pub struct ResolvedClaimModel {
    pub claim_kind: i32,
    pub target_tile: i32,
    pub consume_tiles: Seq<i32>,
    pub source_seat: i32,
    pub resulting_meld: Option<MeldModel>,
}

impl View for ResolvedClaim {
    type V = ResolvedClaimModel;

    open spec fn view(&self) -> ResolvedClaimModel {
        ResolvedClaimModel {
            claim_kind: self.claim_kind,
            target_tile: self.target_tile,
            consume_tiles: self.consume_tiles@,
            source_seat: self.source_seat,
            resulting_meld: opt_view(self.resulting_meld),
        }
    }
}

impl Clone for ResolvedClaim {
    fn clone(&self) -> (r: Self)
        ensures
            r@ == self@,
    {
        ResolvedClaim {
            claim_kind: self.claim_kind,
            target_tile: self.target_tile,
            consume_tiles: self.consume_tiles.clone(),
            source_seat: self.source_seat,
            resulting_meld: self.resulting_meld.clone(),
        }
    }
}

/// What an action consisted of.
#[derive(Debug, PartialEq, Eq)]
pub enum ActionDetail {
    Discard(DiscardAction),
    Draw(DrawDetail),
    Claim(ResolvedClaim),
    SupplementalKong(SupplementalKongAction),
    DeclareWin(DeclareWinAction),
}

/// The contents of a [`ActionDetail`].
#[verifier::ext_equal]
pub enum ActionDetailModel {
    Discard(DiscardAction),
    Draw(DrawDetail),
    Claim(ResolvedClaimModel),
    SupplementalKong(SupplementalKongAction),
    DeclareWin(DeclareWinAction),
}

impl View for ActionDetail {
    type V = ActionDetailModel;

    open spec fn view(&self) -> ActionDetailModel {
        match self {
            ActionDetail::Discard(value) => ActionDetailModel::Discard(*value),
            ActionDetail::Draw(value) => ActionDetailModel::Draw(*value),
            ActionDetail::Claim(value) => ActionDetailModel::Claim(value@),
            ActionDetail::SupplementalKong(value) => ActionDetailModel::SupplementalKong(*value),
            ActionDetail::DeclareWin(value) => ActionDetailModel::DeclareWin(*value),
        }
    }
}

impl Clone for ActionDetail {
    fn clone(&self) -> (r: Self)
        ensures
            r@ == self@,
    {
        match self {
            ActionDetail::Discard(value) => ActionDetail::Discard(*value),
            ActionDetail::Draw(value) => ActionDetail::Draw(*value),
            ActionDetail::Claim(value) => ActionDetail::Claim(value.clone()),
            ActionDetail::SupplementalKong(value) => ActionDetail::SupplementalKong(*value),
            ActionDetail::DeclareWin(value) => ActionDetail::DeclareWin(*value),
        }
    }
}

/// A tile was added to a discard row.
#[derive(Clone, Copy, Debug, PartialEq, Eq, Structural)]
pub struct DiscardAdded {
    pub seat: i32,
    pub discard: Option<DiscardTile>,
}

/// A meld was laid down or extended.
#[derive(Debug, PartialEq, Eq)]
pub struct MeldAdded {
    pub seat: i32,
    pub meld: Option<Meld>,
}

/// The contents of a [`MeldAdded`].
#[verifier::ext_equal]
pub struct MeldAddedModel {
    pub seat: i32,
    pub meld: Option<MeldModel>,
}

impl View for MeldAdded {
    type V = MeldAddedModel;

    open spec fn view(&self) -> MeldAddedModel {
        MeldAddedModel {
            seat: self.seat,
            meld: opt_view(self.meld),
        }
    }
}

impl Clone for MeldAdded {
    fn clone(&self) -> (r: Self)
        ensures
            r@ == self@,
    {
        MeldAdded {
            seat: self.seat,
            meld: self.meld.clone(),
        }
    }
}

/// The turn moved on.
#[derive(Clone, Copy, Debug, PartialEq, Eq, Structural)]
pub struct TurnAdvanced {
    pub next_turn_seat: i32,
    pub resulting_phase: i32,
}

/// A direct effect of an action.
#[derive(Debug, PartialEq, Eq)]
pub enum ResultingEffect {
    DiscardAdded(DiscardAdded),
    MeldAdded(MeldAdded),
    TurnAdvanced(TurnAdvanced),
}

/// The contents of a [`ResultingEffect`].
#[verifier::ext_equal]
pub enum ResultingEffectModel {
    DiscardAdded(DiscardAdded),
    MeldAdded(MeldAddedModel),
    TurnAdvanced(TurnAdvanced),
}

impl View for ResultingEffect {
    type V = ResultingEffectModel;

    open spec fn view(&self) -> ResultingEffectModel {
        match self {
            ResultingEffect::DiscardAdded(value) => ResultingEffectModel::DiscardAdded(*value),
            ResultingEffect::MeldAdded(value) => ResultingEffectModel::MeldAdded(value@),
            ResultingEffect::TurnAdvanced(value) => ResultingEffectModel::TurnAdvanced(*value),
        }
    }
}

impl Clone for ResultingEffect {
    fn clone(&self) -> (r: Self)
        ensures
            r@ == self@,
    {
        match self {
            ResultingEffect::DiscardAdded(value) => ResultingEffect::DiscardAdded(*value),
            ResultingEffect::MeldAdded(value) => ResultingEffect::MeldAdded(value.clone()),
            ResultingEffect::TurnAdvanced(value) => ResultingEffect::TurnAdvanced(*value),
        }
    }
}

/// An action that took effect.
#[derive(Debug, PartialEq, Eq)]
pub struct ActionBroadcast {
    pub room_id: String,
    pub match_id: String,
    pub round_id: String,
    pub event_seq: u64,
    pub actor_seat: i32,
    pub action_kind: i32,
    pub action_detail: Option<ActionDetail>,
    pub resulting_effects: Vec<ResultingEffect>,
    pub resulting_phase: i32,
    pub next_turn_seat: i32,
    pub wall_tiles_remaining: u32,
    pub action_deadline_unix_ms: u64,
}

/// The contents of a [`ActionBroadcast`].
#[verifier::ext_equal]
pub struct ActionBroadcastModel {
    pub room_id: Seq<char>,
    pub match_id: Seq<char>,
    pub round_id: Seq<char>,
    pub event_seq: u64,
    pub actor_seat: i32,
    pub action_kind: i32,
    pub action_detail: Option<ActionDetailModel>,
    pub resulting_effects: Seq<ResultingEffectModel>,
    pub resulting_phase: i32,
    pub next_turn_seat: i32,
    pub wall_tiles_remaining: u32,
    pub action_deadline_unix_ms: u64,
}

impl View for ActionBroadcast {
    type V = ActionBroadcastModel;

    open spec fn view(&self) -> ActionBroadcastModel {
        ActionBroadcastModel {
            room_id: self.room_id@,
            match_id: self.match_id@,
            round_id: self.round_id@,
            event_seq: self.event_seq,
            actor_seat: self.actor_seat,
            action_kind: self.action_kind,
            action_detail: opt_view(self.action_detail),
            resulting_effects: views(self.resulting_effects@),
            resulting_phase: self.resulting_phase,
            next_turn_seat: self.next_turn_seat,
            wall_tiles_remaining: self.wall_tiles_remaining,
            action_deadline_unix_ms: self.action_deadline_unix_ms,
        }
    }
}

impl Clone for ActionBroadcast {
    fn clone(&self) -> (r: Self)
        ensures
            r@ == self@,
    {
        ActionBroadcast {
            room_id: self.room_id.clone(),
            match_id: self.match_id.clone(),
            round_id: self.round_id.clone(),
            event_seq: self.event_seq,
            actor_seat: self.actor_seat,
            action_kind: self.action_kind,
            action_detail: self.action_detail.clone(),
            resulting_effects: self.resulting_effects.clone(),
            resulting_phase: self.resulting_phase,
            next_turn_seat: self.next_turn_seat,
            wall_tiles_remaining: self.wall_tiles_remaining,
            action_deadline_unix_ms: self.action_deadline_unix_ms,
        }
    }
}

/// Asks one seat to answer a claim window.
#[derive(Debug, PartialEq, Eq)]
pub struct ActionPrompt {
    pub room_id: String,
    pub match_id: String,
    pub round_id: String,
    pub event_seq: u64,
    pub action_window_id: u64,
    pub actor_seat: i32,
    pub options: Vec<PromptOption>,
    pub deadline_unix_ms: u64,
}

/// The contents of a [`ActionPrompt`].
#[verifier::ext_equal]
pub struct ActionPromptModel {
    pub room_id: Seq<char>,
    pub match_id: Seq<char>,
    pub round_id: Seq<char>,
    pub event_seq: u64,
    pub action_window_id: u64,
    pub actor_seat: i32,
    pub options: Seq<PromptOptionModel>,
    pub deadline_unix_ms: u64,
}

impl View for ActionPrompt {
    type V = ActionPromptModel;

    open spec fn view(&self) -> ActionPromptModel {
        ActionPromptModel {
            room_id: self.room_id@,
            match_id: self.match_id@,
            round_id: self.round_id@,
            event_seq: self.event_seq,
            action_window_id: self.action_window_id,
            actor_seat: self.actor_seat,
            options: views(self.options@),
            deadline_unix_ms: self.deadline_unix_ms,
        }
    }
}

impl Clone for ActionPrompt {
    fn clone(&self) -> (r: Self)
        ensures
            r@ == self@,
    {
        ActionPrompt {
            room_id: self.room_id.clone(),
            match_id: self.match_id.clone(),
            round_id: self.round_id.clone(),
            event_seq: self.event_seq,
            action_window_id: self.action_window_id,
            actor_seat: self.actor_seat,
            options: self.options.clone(),
            deadline_unix_ms: self.deadline_unix_ms,
        }
    }
}

/// Tells a client that its request was turned down.
#[derive(Debug, PartialEq, Eq)]
pub struct ActionRejected {
    pub request_id: String,
    pub reject_code: i32,
    pub message: String,
    pub expected_event_seq: u64,
    pub actual_event_seq: u64,
    pub action_window_id: u64,
}

/// The contents of a [`ActionRejected`].
#[verifier::ext_equal]
pub struct ActionRejectedModel {
    pub request_id: Seq<char>,
    pub reject_code: i32,
    pub message: Seq<char>,
    pub expected_event_seq: u64,
    pub actual_event_seq: u64,
    pub action_window_id: u64,
}

impl View for ActionRejected {
    type V = ActionRejectedModel;

    open spec fn view(&self) -> ActionRejectedModel {
        ActionRejectedModel {
            request_id: self.request_id@,
            reject_code: self.reject_code,
            message: self.message@,
            expected_event_seq: self.expected_event_seq,
            actual_event_seq: self.actual_event_seq,
            action_window_id: self.action_window_id,
        }
    }
}

impl Clone for ActionRejected {
    fn clone(&self) -> (r: Self)
        ensures
            r@ == self@,
    {
        ActionRejected {
            request_id: self.request_id.clone(),
            reject_code: self.reject_code,
            message: self.message.clone(),
            expected_event_seq: self.expected_event_seq,
            actual_event_seq: self.actual_event_seq,
            action_window_id: self.action_window_id,
        }
    }
}

/// Answers a join request.
#[derive(Debug, PartialEq, Eq)]
pub struct JoinRoomResponse {
    pub request_id: String,
    pub accepted: bool,
    pub reject_code: i32,
    pub room_id: String,
    pub match_id: String,
    pub seat: i32,
    pub connection_id: String,
    pub resume_token: String,
    pub room_config: Option<RoomConfig>,
    pub message: String,
    pub latest_event_seq: u64,
}

/// The contents of a [`JoinRoomResponse`].
#[verifier::ext_equal]
pub struct JoinRoomResponseModel {
    pub request_id: Seq<char>,
    pub accepted: bool,
    pub reject_code: i32,
    pub room_id: Seq<char>,
    pub match_id: Seq<char>,
    pub seat: i32,
    pub connection_id: Seq<char>,
    pub resume_token: Seq<char>,
    pub room_config: Option<RoomConfigModel>,
    pub message: Seq<char>,
    pub latest_event_seq: u64,
}

impl View for JoinRoomResponse {
    type V = JoinRoomResponseModel;

    open spec fn view(&self) -> JoinRoomResponseModel {
        JoinRoomResponseModel {
            request_id: self.request_id@,
            accepted: self.accepted,
            reject_code: self.reject_code,
            room_id: self.room_id@,
            match_id: self.match_id@,
            seat: self.seat,
            connection_id: self.connection_id@,
            resume_token: self.resume_token@,
            room_config: opt_view(self.room_config),
            message: self.message@,
            latest_event_seq: self.latest_event_seq,
        }
    }
}

impl Clone for JoinRoomResponse {
    fn clone(&self) -> (r: Self)
        ensures
            r@ == self@,
    {
        JoinRoomResponse {
            request_id: self.request_id.clone(),
            accepted: self.accepted,
            reject_code: self.reject_code,
            room_id: self.room_id.clone(),
            match_id: self.match_id.clone(),
            seat: self.seat,
            connection_id: self.connection_id.clone(),
            resume_token: self.resume_token.clone(),
            room_config: self.room_config.clone(),
            message: self.message.clone(),
            latest_event_seq: self.latest_event_seq,
        }
    }
}

/// A player's connection came or went.
#[derive(Debug, PartialEq, Eq)]
pub struct PlayerConnectionChanged {
    pub room_id: String,
    pub match_id: String,
    pub user_id: String,
    pub seat: i32,
    pub status: i32,
    pub connected: bool,
    pub reconnect_deadline_unix_ms: u64,
}

/// The contents of a [`PlayerConnectionChanged`].
#[verifier::ext_equal]
pub struct PlayerConnectionChangedModel {
    pub room_id: Seq<char>,
    pub match_id: Seq<char>,
    pub user_id: Seq<char>,
    pub seat: i32,
    pub status: i32,
    pub connected: bool,
    pub reconnect_deadline_unix_ms: u64,
}

impl View for PlayerConnectionChanged {
    type V = PlayerConnectionChangedModel;

    open spec fn view(&self) -> PlayerConnectionChangedModel {
        PlayerConnectionChangedModel {
            room_id: self.room_id@,
            match_id: self.match_id@,
            user_id: self.user_id@,
            seat: self.seat,
            status: self.status,
            connected: self.connected,
            reconnect_deadline_unix_ms: self.reconnect_deadline_unix_ms,
        }
    }
}

impl Clone for PlayerConnectionChanged {
    fn clone(&self) -> (r: Self)
        ensures
            r@ == self@,
    {
        PlayerConnectionChanged {
            room_id: self.room_id.clone(),
            match_id: self.match_id.clone(),
            user_id: self.user_id.clone(),
            seat: self.seat,
            status: self.status,
            connected: self.connected,
            reconnect_deadline_unix_ms: self.reconnect_deadline_unix_ms,
        }
    }
}

/// Answers a heartbeat.
#[derive(Debug, PartialEq, Eq)]
pub struct Pong {
    pub request_id: String,
    pub server_time_ms: u64,
    pub echoed_client_time_ms: u64,
    pub latest_event_seq: u64,
}

/// The contents of a [`Pong`].
#[verifier::ext_equal]
pub struct PongModel {
    pub request_id: Seq<char>,
    pub server_time_ms: u64,
    pub echoed_client_time_ms: u64,
    pub latest_event_seq: u64,
}

impl View for Pong {
    type V = PongModel;

    open spec fn view(&self) -> PongModel {
        PongModel {
            request_id: self.request_id@,
            server_time_ms: self.server_time_ms,
            echoed_client_time_ms: self.echoed_client_time_ms,
            latest_event_seq: self.latest_event_seq,
        }
    }
}

impl Clone for Pong {
    fn clone(&self) -> (r: Self)
        ensures
            r@ == self@,
    {
        Pong {
            request_id: self.request_id.clone(),
            server_time_ms: self.server_time_ms,
            echoed_client_time_ms: self.echoed_client_time_ms,
            latest_event_seq: self.latest_event_seq,
        }
    }
}

/// One player's result of a hand.
#[derive(Clone, Copy, Debug, PartialEq, Eq, Structural)]
pub struct RoundPlayerResult {
    pub seat: i32,
    pub round_delta: i64,
    pub total_score_after: i64,
}

/// One scoring element of a winning hand.
#[derive(Debug, PartialEq, Eq)]
pub struct FanDetail {
    pub fan_code: String,
    pub fan_name: String,
    pub fan_value: u32,
    pub count: u32,
    pub description: String,
}

/// The contents of a [`FanDetail`].
#[verifier::ext_equal]
pub struct FanDetailModel {
    pub fan_code: Seq<char>,
    pub fan_name: Seq<char>,
    pub fan_value: u32,
    pub count: u32,
    pub description: Seq<char>,
}

impl View for FanDetail {
    type V = FanDetailModel;

    open spec fn view(&self) -> FanDetailModel {
        FanDetailModel {
            fan_code: self.fan_code@,
            fan_name: self.fan_name@,
            fan_value: self.fan_value,
            count: self.count,
            description: self.description@,
        }
    }
}

impl Clone for FanDetail {
    fn clone(&self) -> (r: Self)
        ensures
            r@ == self@,
    {
        FanDetail {
            fan_code: self.fan_code.clone(),
            fan_name: self.fan_name.clone(),
            fan_value: self.fan_value,
            count: self.count,
            description: self.description.clone(),
        }
    }
}

/// A hand shown at settlement.
#[derive(Debug, PartialEq, Eq)]
pub struct RevealedHand {
    pub seat: i32,
    pub concealed_tiles: Vec<i32>,
    pub melds: Vec<Meld>,
    pub flowers: Vec<i32>,
    pub winner: bool,
}

/// The contents of a [`RevealedHand`].
#[verifier::ext_equal]
pub struct RevealedHandModel {
    pub seat: i32,
    pub concealed_tiles: Seq<i32>,
    pub melds: Seq<MeldModel>,
    pub flowers: Seq<i32>,
    pub winner: bool,
}

impl View for RevealedHand {
    type V = RevealedHandModel;

    open spec fn view(&self) -> RevealedHandModel {
        RevealedHandModel {
            seat: self.seat,
            concealed_tiles: self.concealed_tiles@,
            melds: views(self.melds@),
            flowers: self.flowers@,
            winner: self.winner,
        }
    }
}

impl Clone for RevealedHand {
    fn clone(&self) -> (r: Self)
        ensures
            r@ == self@,
    {
        RevealedHand {
            seat: self.seat,
            concealed_tiles: self.concealed_tiles.clone(),
            melds: self.melds.clone(),
            flowers: self.flowers.clone(),
            winner: self.winner,
        }
    }
}

/// The settlement of a hand.
#[derive(Debug, PartialEq, Eq)]
pub struct RoundSettlement {
    pub room_id: String,
    pub match_id: String,
    pub round_id: String,
    pub prevailing_wind: i32,
    pub hand_number: u32,
    pub dealer_seat: i32,
    pub win_type: i32,
    pub winner_seat: i32,
    pub discarder_seat: i32,
    pub winning_tile: i32,
    pub player_results: Vec<RoundPlayerResult>,
    pub fan_details: Vec<FanDetail>,
    pub revealed_hands: Vec<RevealedHand>,
    pub settlement_flags: Vec<i32>,
    pub wall_tiles_remaining: u32,
}

/// The contents of a [`RoundSettlement`].
#[verifier::ext_equal]
pub struct RoundSettlementModel {
    pub room_id: Seq<char>,
    pub match_id: Seq<char>,
    pub round_id: Seq<char>,
    pub prevailing_wind: i32,
    pub hand_number: u32,
    pub dealer_seat: i32,
    pub win_type: i32,
    pub winner_seat: i32,
    pub discarder_seat: i32,
    pub winning_tile: i32,
    pub player_results: Seq<RoundPlayerResult>,
    pub fan_details: Seq<FanDetailModel>,
    pub revealed_hands: Seq<RevealedHandModel>,
    pub settlement_flags: Seq<i32>,
    pub wall_tiles_remaining: u32,
}

impl View for RoundSettlement {
    type V = RoundSettlementModel;

    open spec fn view(&self) -> RoundSettlementModel {
        RoundSettlementModel {
            room_id: self.room_id@,
            match_id: self.match_id@,
            round_id: self.round_id@,
            prevailing_wind: self.prevailing_wind,
            hand_number: self.hand_number,
            dealer_seat: self.dealer_seat,
            win_type: self.win_type,
            winner_seat: self.winner_seat,
            discarder_seat: self.discarder_seat,
            winning_tile: self.winning_tile,
            player_results: self.player_results@,
            fan_details: views(self.fan_details@),
            revealed_hands: views(self.revealed_hands@),
            settlement_flags: self.settlement_flags@,
            wall_tiles_remaining: self.wall_tiles_remaining,
        }
    }
}

impl Clone for RoundSettlement {
    fn clone(&self) -> (r: Self)
        ensures
            r@ == self@,
    {
        RoundSettlement {
            room_id: self.room_id.clone(),
            match_id: self.match_id.clone(),
            round_id: self.round_id.clone(),
            prevailing_wind: self.prevailing_wind,
            hand_number: self.hand_number,
            dealer_seat: self.dealer_seat,
            win_type: self.win_type,
            winner_seat: self.winner_seat,
            discarder_seat: self.discarder_seat,
            winning_tile: self.winning_tile,
            player_results: self.player_results.clone(),
            fan_details: self.fan_details.clone(),
            revealed_hands: self.revealed_hands.clone(),
            settlement_flags: self.settlement_flags.clone(),
            wall_tiles_remaining: self.wall_tiles_remaining,
        }
    }
}

/// One player's place at the end of a match.
#[derive(Debug, PartialEq, Eq)]
pub struct FinalStanding {
    pub seat: i32,
    pub user_id: String,
    pub display_name: String,
    pub final_score: i64,
    pub rank: u32,
    pub rounds_won: u32,
    pub self_draw_wins: u32,
}

/// The contents of a [`FinalStanding`].
#[verifier::ext_equal]
pub struct FinalStandingModel {
    pub seat: i32,
    pub user_id: Seq<char>,
    pub display_name: Seq<char>,
    pub final_score: i64,
    pub rank: u32,
    pub rounds_won: u32,
    pub self_draw_wins: u32,
}

impl View for FinalStanding {
    type V = FinalStandingModel;

    open spec fn view(&self) -> FinalStandingModel {
        FinalStandingModel {
            seat: self.seat,
            user_id: self.user_id@,
            display_name: self.display_name@,
            final_score: self.final_score,
            rank: self.rank,
            rounds_won: self.rounds_won,
            self_draw_wins: self.self_draw_wins,
        }
    }
}

impl Clone for FinalStanding {
    fn clone(&self) -> (r: Self)
        ensures
            r@ == self@,
    {
        FinalStanding {
            seat: self.seat,
            user_id: self.user_id.clone(),
            display_name: self.display_name.clone(),
            final_score: self.final_score,
            rank: self.rank,
            rounds_won: self.rounds_won,
            self_draw_wins: self.self_draw_wins,
        }
    }
}

/// The settlement of a match.
#[derive(Debug, PartialEq, Eq)]
pub struct MatchSettlement {
    pub room_id: String,
    pub match_id: String,
    pub standings: Vec<FinalStanding>,
    pub finished_at_unix_ms: u64,
}

/// The contents of a [`MatchSettlement`].
#[verifier::ext_equal]
pub struct MatchSettlementModel {
    pub room_id: Seq<char>,
    pub match_id: Seq<char>,
    pub standings: Seq<FinalStandingModel>,
    pub finished_at_unix_ms: u64,
}

impl View for MatchSettlement {
    type V = MatchSettlementModel;

    open spec fn view(&self) -> MatchSettlementModel {
        MatchSettlementModel {
            room_id: self.room_id@,
            match_id: self.match_id@,
            standings: views(self.standings@),
            finished_at_unix_ms: self.finished_at_unix_ms,
        }
    }
}

impl Clone for MatchSettlement {
    fn clone(&self) -> (r: Self)
        ensures
            r@ == self@,
    {
        MatchSettlement {
            room_id: self.room_id.clone(),
            match_id: self.match_id.clone(),
            standings: self.standings.clone(),
            finished_at_unix_ms: self.finished_at_unix_ms,
        }
    }
}

/// What a server frame carries.
#[derive(Debug, PartialEq, Eq)]
pub enum ServerPayload {
    JoinRoom(JoinRoomResponse),
    SyncState(SyncState),
    ActionBroadcast(ActionBroadcast),
    ActionPrompt(ActionPrompt),
    ActionRejected(ActionRejected),
    RoundSettlement(RoundSettlement),
    MatchSettlement(MatchSettlement),
    PlayerConnectionChanged(PlayerConnectionChanged),
    Pong(Pong),
}

/// The contents of a [`ServerPayload`].
#[verifier::ext_equal]
pub enum ServerPayloadModel {
    JoinRoom(JoinRoomResponseModel),
    SyncState(SyncStateModel),
    ActionBroadcast(ActionBroadcastModel),
    ActionPrompt(ActionPromptModel),
    ActionRejected(ActionRejectedModel),
    RoundSettlement(RoundSettlementModel),
    MatchSettlement(MatchSettlementModel),
    PlayerConnectionChanged(PlayerConnectionChangedModel),
    Pong(PongModel),
}

impl View for ServerPayload {
    type V = ServerPayloadModel;

    open spec fn view(&self) -> ServerPayloadModel {
        match self {
            ServerPayload::JoinRoom(value) => ServerPayloadModel::JoinRoom(value@),
            ServerPayload::SyncState(value) => ServerPayloadModel::SyncState(value@),
            ServerPayload::ActionBroadcast(value) => ServerPayloadModel::ActionBroadcast(value@),
            ServerPayload::ActionPrompt(value) => ServerPayloadModel::ActionPrompt(value@),
            ServerPayload::ActionRejected(value) => ServerPayloadModel::ActionRejected(value@),
            ServerPayload::RoundSettlement(value) => ServerPayloadModel::RoundSettlement(value@),
            ServerPayload::MatchSettlement(value) => ServerPayloadModel::MatchSettlement(value@),
            ServerPayload::PlayerConnectionChanged(value) => ServerPayloadModel::PlayerConnectionChanged(value@),
            ServerPayload::Pong(value) => ServerPayloadModel::Pong(value@),
        }
    }
}

impl Clone for ServerPayload {
    fn clone(&self) -> (r: Self)
        ensures
            r@ == self@,
    {
        match self {
            ServerPayload::JoinRoom(value) => ServerPayload::JoinRoom(value.clone()),
            ServerPayload::SyncState(value) => ServerPayload::SyncState(value.clone()),
            ServerPayload::ActionBroadcast(value) => ServerPayload::ActionBroadcast(value.clone()),
            ServerPayload::ActionPrompt(value) => ServerPayload::ActionPrompt(value.clone()),
            ServerPayload::ActionRejected(value) => ServerPayload::ActionRejected(value.clone()),
            ServerPayload::RoundSettlement(value) => ServerPayload::RoundSettlement(value.clone()),
            ServerPayload::MatchSettlement(value) => ServerPayload::MatchSettlement(value.clone()),
            ServerPayload::PlayerConnectionChanged(value) => ServerPayload::PlayerConnectionChanged(value.clone()),
            ServerPayload::Pong(value) => ServerPayload::Pong(value.clone()),
        }
    }
}

/// One frame to a client.
#[derive(Debug, PartialEq, Eq)]
pub struct ServerFrame {
    pub event_seq: u64,
    pub payload: Option<ServerPayload>,
}

/// The contents of a [`ServerFrame`].
#[verifier::ext_equal]
pub struct ServerFrameModel {
    pub event_seq: u64,
    pub payload: Option<ServerPayloadModel>,
}

impl View for ServerFrame {
    type V = ServerFrameModel;

    open spec fn view(&self) -> ServerFrameModel {
        ServerFrameModel {
            event_seq: self.event_seq,
            payload: opt_view(self.payload),
        }
    }
}

impl Clone for ServerFrame {
    fn clone(&self) -> (r: Self)
        ensures
            r@ == self@,
    {
        ServerFrame {
            event_seq: self.event_seq,
            payload: self.payload.clone(),
        }
    }
}

} // verus!
