//! Conversion between the client's vocabulary, the rule engine's vocabulary and wire numbers.

use vstd::prelude::*;

use crate::collections::views;
use crate::proto::client::{
    ActionKind, ClaimKind, DiscardTile, Meld, MeldKind, MeldModel, RejectCode, Seat, SettlementFlag,
    Tile, WinType,
};
use crate::proto::engine;
use crate::text::{concat, i32_to_text, signed_decimal};

verus! {

/// Why an action was not carried out.
#[derive(Debug, PartialEq, Eq)]
pub struct ActionValidationError {
    pub reject_code: RejectCode,
    pub message: String,
}

/// The contents of an [`ActionValidationError`].
#[verifier::ext_equal]
pub struct ActionValidationErrorModel {
    pub reject_code: RejectCode,
    pub message: Seq<char>,
}

impl View for ActionValidationError {
    type V = ActionValidationErrorModel;

    open spec fn view(&self) -> ActionValidationErrorModel {
        ActionValidationErrorModel { reject_code: self.reject_code, message: self.message@ }
    }
}

/// The error with the given code and message.
pub open spec fn failure(reject_code: RejectCode, message: Seq<char>) -> ActionValidationErrorModel {
    ActionValidationErrorModel { reject_code, message }
}

impl ActionValidationError {
    pub fn new(reject_code: RejectCode, message: &str) -> (r: ActionValidationError)
        ensures
            r@ == failure(reject_code, message@),
    {
        ActionValidationError { reject_code, message: String::from_str(message) }
    }
}

/// The view of a result whose success value is plain data.
pub open spec fn plain_result<T>(r: Result<T, ActionValidationError>) -> Result<
    T,
    ActionValidationErrorModel,
> {
    match r {
        Ok(value) => Ok(value),
        Err(error) => Err(error@),
    }
}

/// The rule engine's value of the same name.
pub open spec fn engine_seat(seat: Seat) -> engine::Seat {
    match seat {
        Seat::Unspecified => engine::Seat::Unspecified,
        Seat::East => engine::Seat::East,
        Seat::South => engine::Seat::South,
        Seat::West => engine::Seat::West,
        Seat::North => engine::Seat::North,
    }
}

pub fn map_seat_to_engine(seat: Seat) -> (r: engine::Seat)
    ensures
        r == engine_seat(seat),
        r.name() == seat.name(),
{
    match seat {
        Seat::Unspecified => engine::Seat::Unspecified,
        Seat::East => engine::Seat::East,
        Seat::South => engine::Seat::South,
        Seat::West => engine::Seat::West,
        Seat::North => engine::Seat::North,
    }
}

/// The rule engine's value of the same name.
pub open spec fn engine_tile(tile: Tile) -> engine::Tile {
    match tile {
        Tile::Unspecified => engine::Tile::Unspecified,
        Tile::Character1 => engine::Tile::Character1,
        Tile::Character2 => engine::Tile::Character2,
        Tile::Character3 => engine::Tile::Character3,
        Tile::Character4 => engine::Tile::Character4,
        Tile::Character5 => engine::Tile::Character5,
        Tile::Character6 => engine::Tile::Character6,
        Tile::Character7 => engine::Tile::Character7,
        Tile::Character8 => engine::Tile::Character8,
        Tile::Character9 => engine::Tile::Character9,
        Tile::Bamboo1 => engine::Tile::Bamboo1,
        Tile::Bamboo2 => engine::Tile::Bamboo2,
        Tile::Bamboo3 => engine::Tile::Bamboo3,
        Tile::Bamboo4 => engine::Tile::Bamboo4,
        Tile::Bamboo5 => engine::Tile::Bamboo5,
        Tile::Bamboo6 => engine::Tile::Bamboo6,
        Tile::Bamboo7 => engine::Tile::Bamboo7,
        Tile::Bamboo8 => engine::Tile::Bamboo8,
        Tile::Bamboo9 => engine::Tile::Bamboo9,
        Tile::Dot1 => engine::Tile::Dot1,
        Tile::Dot2 => engine::Tile::Dot2,
        Tile::Dot3 => engine::Tile::Dot3,
        Tile::Dot4 => engine::Tile::Dot4,
        Tile::Dot5 => engine::Tile::Dot5,
        Tile::Dot6 => engine::Tile::Dot6,
        Tile::Dot7 => engine::Tile::Dot7,
        Tile::Dot8 => engine::Tile::Dot8,
        Tile::Dot9 => engine::Tile::Dot9,
        Tile::EastWind => engine::Tile::EastWind,
        Tile::SouthWind => engine::Tile::SouthWind,
        Tile::WestWind => engine::Tile::WestWind,
        Tile::NorthWind => engine::Tile::NorthWind,
        Tile::RedDragon => engine::Tile::RedDragon,
        Tile::GreenDragon => engine::Tile::GreenDragon,
        Tile::WhiteDragon => engine::Tile::WhiteDragon,
        Tile::FlowerPlum => engine::Tile::FlowerPlum,
        Tile::FlowerOrchid => engine::Tile::FlowerOrchid,
        Tile::FlowerBamboo => engine::Tile::FlowerBamboo,
        Tile::FlowerChrysanthemum => engine::Tile::FlowerChrysanthemum,
        Tile::SeasonSpring => engine::Tile::SeasonSpring,
        Tile::SeasonSummer => engine::Tile::SeasonSummer,
        Tile::SeasonAutumn => engine::Tile::SeasonAutumn,
        Tile::SeasonWinter => engine::Tile::SeasonWinter,
    }
}

pub fn map_tile_to_engine(tile: Tile) -> (r: engine::Tile)
    ensures
        r == engine_tile(tile),
        r.name() == tile.name(),
{
    match tile {
        Tile::Unspecified => engine::Tile::Unspecified,
        Tile::Character1 => engine::Tile::Character1,
        Tile::Character2 => engine::Tile::Character2,
        Tile::Character3 => engine::Tile::Character3,
        Tile::Character4 => engine::Tile::Character4,
        Tile::Character5 => engine::Tile::Character5,
        Tile::Character6 => engine::Tile::Character6,
        Tile::Character7 => engine::Tile::Character7,
        Tile::Character8 => engine::Tile::Character8,
        Tile::Character9 => engine::Tile::Character9,
        Tile::Bamboo1 => engine::Tile::Bamboo1,
        Tile::Bamboo2 => engine::Tile::Bamboo2,
        Tile::Bamboo3 => engine::Tile::Bamboo3,
        Tile::Bamboo4 => engine::Tile::Bamboo4,
        Tile::Bamboo5 => engine::Tile::Bamboo5,
        Tile::Bamboo6 => engine::Tile::Bamboo6,
        Tile::Bamboo7 => engine::Tile::Bamboo7,
        Tile::Bamboo8 => engine::Tile::Bamboo8,
        Tile::Bamboo9 => engine::Tile::Bamboo9,
        Tile::Dot1 => engine::Tile::Dot1,
        Tile::Dot2 => engine::Tile::Dot2,
        Tile::Dot3 => engine::Tile::Dot3,
        Tile::Dot4 => engine::Tile::Dot4,
        Tile::Dot5 => engine::Tile::Dot5,
        Tile::Dot6 => engine::Tile::Dot6,
        Tile::Dot7 => engine::Tile::Dot7,
        Tile::Dot8 => engine::Tile::Dot8,
        Tile::Dot9 => engine::Tile::Dot9,
        Tile::EastWind => engine::Tile::EastWind,
        Tile::SouthWind => engine::Tile::SouthWind,
        Tile::WestWind => engine::Tile::WestWind,
        Tile::NorthWind => engine::Tile::NorthWind,
        Tile::RedDragon => engine::Tile::RedDragon,
        Tile::GreenDragon => engine::Tile::GreenDragon,
        Tile::WhiteDragon => engine::Tile::WhiteDragon,
        Tile::FlowerPlum => engine::Tile::FlowerPlum,
        Tile::FlowerOrchid => engine::Tile::FlowerOrchid,
        Tile::FlowerBamboo => engine::Tile::FlowerBamboo,
        Tile::FlowerChrysanthemum => engine::Tile::FlowerChrysanthemum,
        Tile::SeasonSpring => engine::Tile::SeasonSpring,
        Tile::SeasonSummer => engine::Tile::SeasonSummer,
        Tile::SeasonAutumn => engine::Tile::SeasonAutumn,
        Tile::SeasonWinter => engine::Tile::SeasonWinter,
    }
}

/// The rule engine's value of the same name.
pub open spec fn engine_action_kind(action_kind: ActionKind) -> engine::ActionKind {
    match action_kind {
        ActionKind::Unspecified => engine::ActionKind::Unspecified,
        ActionKind::Draw => engine::ActionKind::Draw,
        ActionKind::Discard => engine::ActionKind::Discard,
        ActionKind::Chi => engine::ActionKind::Chi,
        ActionKind::Peng => engine::ActionKind::Peng,
        ActionKind::ExposedKong => engine::ActionKind::ExposedKong,
        ActionKind::SupplementalKong => engine::ActionKind::SupplementalKong,
        ActionKind::DeclareWin => engine::ActionKind::DeclareWin,
        ActionKind::Pass => engine::ActionKind::Pass,
    }
}

pub fn map_action_kind_to_engine(action_kind: ActionKind) -> (r: engine::ActionKind)
    ensures
        r == engine_action_kind(action_kind),
        r.name() == action_kind.name(),
{
    match action_kind {
        ActionKind::Unspecified => engine::ActionKind::Unspecified,
        ActionKind::Draw => engine::ActionKind::Draw,
        ActionKind::Discard => engine::ActionKind::Discard,
        ActionKind::Chi => engine::ActionKind::Chi,
        ActionKind::Peng => engine::ActionKind::Peng,
        ActionKind::ExposedKong => engine::ActionKind::ExposedKong,
        ActionKind::SupplementalKong => engine::ActionKind::SupplementalKong,
        ActionKind::DeclareWin => engine::ActionKind::DeclareWin,
        ActionKind::Pass => engine::ActionKind::Pass,
    }
}

/// The rule engine's value of the same name.
pub open spec fn engine_claim_kind(claim_kind: ClaimKind) -> engine::ClaimKind {
    match claim_kind {
        ClaimKind::Unspecified => engine::ClaimKind::Unspecified,
        ClaimKind::Chi => engine::ClaimKind::Chi,
        ClaimKind::Peng => engine::ClaimKind::Peng,
        ClaimKind::ExposedKong => engine::ClaimKind::ExposedKong,
        ClaimKind::DiscardWin => engine::ClaimKind::DiscardWin,
        ClaimKind::RobKongWin => engine::ClaimKind::RobKongWin,
    }
}

pub fn map_claim_kind_to_engine(claim_kind: ClaimKind) -> (r: engine::ClaimKind)
    ensures
        r == engine_claim_kind(claim_kind),
        r.name() == claim_kind.name(),
{
    match claim_kind {
        ClaimKind::Unspecified => engine::ClaimKind::Unspecified,
        ClaimKind::Chi => engine::ClaimKind::Chi,
        ClaimKind::Peng => engine::ClaimKind::Peng,
        ClaimKind::ExposedKong => engine::ClaimKind::ExposedKong,
        ClaimKind::DiscardWin => engine::ClaimKind::DiscardWin,
        ClaimKind::RobKongWin => engine::ClaimKind::RobKongWin,
    }
}

/// The rule engine's value of the same name.
pub open spec fn engine_meld_kind(meld_kind: MeldKind) -> engine::MeldKind {
    match meld_kind {
        MeldKind::Unspecified => engine::MeldKind::Unspecified,
        MeldKind::Chi => engine::MeldKind::Chi,
        MeldKind::Peng => engine::MeldKind::Peng,
        MeldKind::ExposedKong => engine::MeldKind::ExposedKong,
        MeldKind::SupplementalKong => engine::MeldKind::SupplementalKong,
    }
}

pub fn map_meld_kind_to_engine(meld_kind: MeldKind) -> (r: engine::MeldKind)
    ensures
        r == engine_meld_kind(meld_kind),
        r.name() == meld_kind.name(),
{
    match meld_kind {
        MeldKind::Unspecified => engine::MeldKind::Unspecified,
        MeldKind::Chi => engine::MeldKind::Chi,
        MeldKind::Peng => engine::MeldKind::Peng,
        MeldKind::ExposedKong => engine::MeldKind::ExposedKong,
        MeldKind::SupplementalKong => engine::MeldKind::SupplementalKong,
    }
}

/// The rule engine's value of the same name.
pub open spec fn engine_win_type(win_type: WinType) -> engine::WinType {
    match win_type {
        WinType::Unspecified => engine::WinType::Unspecified,
        WinType::SelfDraw => engine::WinType::SelfDraw,
        WinType::Discard => engine::WinType::Discard,
        WinType::RobKong => engine::WinType::RobKong,
        WinType::KongDraw => engine::WinType::KongDraw,
    }
}

pub fn map_win_type_to_engine(win_type: WinType) -> (r: engine::WinType)
    ensures
        r == engine_win_type(win_type),
        r.name() == win_type.name(),
{
    match win_type {
        WinType::Unspecified => engine::WinType::Unspecified,
        WinType::SelfDraw => engine::WinType::SelfDraw,
        WinType::Discard => engine::WinType::Discard,
        WinType::RobKong => engine::WinType::RobKong,
        WinType::KongDraw => engine::WinType::KongDraw,
    }
}

/// The client's seat of the same name as a rule engine's number, if the number stands for one.
pub open spec fn client_seat_of(code: i32) -> Option<Seat> {
    match engine::Seat::decode(code) {
        Some(engine::Seat::Unspecified) => Some(Seat::Unspecified),
        Some(engine::Seat::East) => Some(Seat::East),
        Some(engine::Seat::South) => Some(Seat::South),
        Some(engine::Seat::West) => Some(Seat::West),
        Some(engine::Seat::North) => Some(Seat::North),
        None => None,
    }
}

pub fn map_engine_seat_to_client(code: i32) -> (r: Option<Seat>)
    ensures
        r == client_seat_of(code),
        r matches Some(value) ==> engine::Seat::decode(code) matches Some(source) && value.name() == source.name(),
{
    match engine::Seat::from_i32(code) {
        Some(engine::Seat::Unspecified) => Some(Seat::Unspecified),
        Some(engine::Seat::East) => Some(Seat::East),
        Some(engine::Seat::South) => Some(Seat::South),
        Some(engine::Seat::West) => Some(Seat::West),
        Some(engine::Seat::North) => Some(Seat::North),
        None => None,
    }
}

/// The client's settlement flag of the same name as a rule engine's number, if the number stands for one.
pub open spec fn client_settlement_flag_of(code: i32) -> Option<SettlementFlag> {
    match engine::SettlementFlag::decode(code) {
        Some(engine::SettlementFlag::Unspecified) => Some(SettlementFlag::Unspecified),
        Some(engine::SettlementFlag::SelfDraw) => Some(SettlementFlag::SelfDraw),
        Some(engine::SettlementFlag::DiscardWin) => Some(SettlementFlag::DiscardWin),
        Some(engine::SettlementFlag::RobKongWin) => Some(SettlementFlag::RobKongWin),
        Some(engine::SettlementFlag::KongDrawWin) => Some(SettlementFlag::KongDrawWin),
        Some(engine::SettlementFlag::LastTileDraw) => Some(SettlementFlag::LastTileDraw),
        Some(engine::SettlementFlag::LastTileClaim) => Some(SettlementFlag::LastTileClaim),
        None => None,
    }
}

pub fn map_engine_settlement_flag_to_client(code: i32) -> (r: Option<SettlementFlag>)
    ensures
        r == client_settlement_flag_of(code),
        r matches Some(value) ==> engine::SettlementFlag::decode(code) matches Some(source) && value.name() == source.name(),
{
    match engine::SettlementFlag::from_i32(code) {
        Some(engine::SettlementFlag::Unspecified) => Some(SettlementFlag::Unspecified),
        Some(engine::SettlementFlag::SelfDraw) => Some(SettlementFlag::SelfDraw),
        Some(engine::SettlementFlag::DiscardWin) => Some(SettlementFlag::DiscardWin),
        Some(engine::SettlementFlag::RobKongWin) => Some(SettlementFlag::RobKongWin),
        Some(engine::SettlementFlag::KongDrawWin) => Some(SettlementFlag::KongDrawWin),
        Some(engine::SettlementFlag::LastTileDraw) => Some(SettlementFlag::LastTileDraw),
        Some(engine::SettlementFlag::LastTileClaim) => Some(SettlementFlag::LastTileClaim),
        None => None,
    }
}

/// The seat that a client's number stands for, or why there is none.
pub open spec fn parsed_seat(seat: i32) -> Result<Seat, ActionValidationErrorModel> {
    match Seat::decode(seat) {
        Some(value) => Ok(value),
        None => Err(
            failure(
                RejectCode::InvalidRequest,
                "unknown seat enum value "@ + signed_decimal(seat as int),
            ),
        ),
    }
}

pub fn parse_client_seat(seat: i32) -> (r: Result<Seat, ActionValidationError>)
    ensures
        plain_result(r) == parsed_seat(seat),
{
    match Seat::from_i32(seat) {
        Some(value) => Ok(value),
        None => Err(
            ActionValidationError {
                reject_code: RejectCode::InvalidRequest,
                message: concat("unknown seat enum value ", i32_to_text(seat).as_str()),
            },
        ),
    }
}

/// The rule engine's number for a client's number.
pub open spec fn parsed_seat_value(seat: i32) -> Result<i32, ActionValidationErrorModel> {
    match parsed_seat(seat) {
        Ok(value) => Ok(engine_seat(value).code()),
        Err(error) => Err(error),
    }
}

pub fn parse_client_seat_value(seat: i32) -> (r: Result<i32, ActionValidationError>)
    ensures
        plain_result(r) == parsed_seat_value(seat),
{
    match parse_client_seat(seat) {
        Ok(value) => Ok(map_seat_to_engine(value).as_i32()),
        Err(error) => Err(error),
    }
}

/// The tile that a client's number stands for, or why there is none.
pub open spec fn parsed_tile(tile: i32) -> Result<Tile, ActionValidationErrorModel> {
    match Tile::decode(tile) {
        Some(value) => Ok(value),
        None => Err(
            failure(
                RejectCode::InvalidTile,
                "unknown tile enum value "@ + signed_decimal(tile as int),
            ),
        ),
    }
}

pub fn parse_client_tile(tile: i32) -> (r: Result<Tile, ActionValidationError>)
    ensures
        plain_result(r) == parsed_tile(tile),
{
    match Tile::from_i32(tile) {
        Some(value) => Ok(value),
        None => Err(
            ActionValidationError {
                reject_code: RejectCode::InvalidTile,
                message: concat("unknown tile enum value ", i32_to_text(tile).as_str()),
            },
        ),
    }
}

/// The rule engine's number for a client's number.
pub open spec fn parsed_tile_value(tile: i32) -> Result<i32, ActionValidationErrorModel> {
    match parsed_tile(tile) {
        Ok(value) => Ok(engine_tile(value).code()),
        Err(error) => Err(error),
    }
}

pub fn parse_client_tile_value(tile: i32) -> (r: Result<i32, ActionValidationError>)
    ensures
        plain_result(r) == parsed_tile_value(tile),
{
    match parse_client_tile(tile) {
        Ok(value) => Ok(map_tile_to_engine(value).as_i32()),
        Err(error) => Err(error),
    }
}

/// The claim kind that a client's number stands for, or why there is none.
pub open spec fn parsed_claim_kind(claim_kind: i32) -> Result<ClaimKind, ActionValidationErrorModel> {
    match ClaimKind::decode(claim_kind) {
        Some(value) => Ok(value),
        None => Err(
            failure(
                RejectCode::InvalidRequest,
                "unknown claim kind enum value "@ + signed_decimal(claim_kind as int),
            ),
        ),
    }
}

pub fn parse_client_claim_kind(claim_kind: i32) -> (r: Result<ClaimKind, ActionValidationError>)
    ensures
        plain_result(r) == parsed_claim_kind(claim_kind),
{
    match ClaimKind::from_i32(claim_kind) {
        Some(value) => Ok(value),
        None => Err(
            ActionValidationError {
                reject_code: RejectCode::InvalidRequest,
                message: concat("unknown claim kind enum value ", i32_to_text(claim_kind).as_str()),
            },
        ),
    }
}

/// The rule engine's number for a client's number.
pub open spec fn parsed_claim_kind_value(claim_kind: i32) -> Result<i32, ActionValidationErrorModel> {
    match parsed_claim_kind(claim_kind) {
        Ok(value) => Ok(engine_claim_kind(value).code()),
        Err(error) => Err(error),
    }
}

pub fn parse_client_claim_kind_value(claim_kind: i32) -> (r: Result<i32, ActionValidationError>)
    ensures
        plain_result(r) == parsed_claim_kind_value(claim_kind),
{
    match parse_client_claim_kind(claim_kind) {
        Ok(value) => Ok(map_claim_kind_to_engine(value).as_i32()),
        Err(error) => Err(error),
    }
}

/// The win type that a client's number stands for, or why there is none.
pub open spec fn parsed_win_type(win_type: i32) -> Result<WinType, ActionValidationErrorModel> {
    match WinType::decode(win_type) {
        Some(value) => Ok(value),
        None => Err(
            failure(
                RejectCode::InvalidRequest,
                "unknown win type enum value "@ + signed_decimal(win_type as int),
            ),
        ),
    }
}

pub fn parse_client_win_type(win_type: i32) -> (r: Result<WinType, ActionValidationError>)
    ensures
        plain_result(r) == parsed_win_type(win_type),
{
    match WinType::from_i32(win_type) {
        Some(value) => Ok(value),
        None => Err(
            ActionValidationError {
                reject_code: RejectCode::InvalidRequest,
                message: concat("unknown win type enum value ", i32_to_text(win_type).as_str()),
            },
        ),
    }
}

/// The rule engine's number for a client's number.
pub open spec fn parsed_win_type_value(win_type: i32) -> Result<i32, ActionValidationErrorModel> {
    match parsed_win_type(win_type) {
        Ok(value) => Ok(engine_win_type(value).code()),
        Err(error) => Err(error),
    }
}

pub fn parse_client_win_type_value(win_type: i32) -> (r: Result<i32, ActionValidationError>)
    ensures
        plain_result(r) == parsed_win_type_value(win_type),
{
    match parse_client_win_type(win_type) {
        Ok(value) => Ok(map_win_type_to_engine(value).as_i32()),
        Err(error) => Err(error),
    }
}

/// The reject code that a client is shown for the rule engine's one.
pub open spec fn validation_reject_code(reject_code: i32) -> RejectCode {
    match engine::ValidationRejectCode::decode(reject_code) {
        Some(engine::ValidationRejectCode::InvalidContext) => RejectCode::InvalidRequest,
        Some(engine::ValidationRejectCode::TileNotOwned) => RejectCode::InvalidTile,
        Some(engine::ValidationRejectCode::TileNotAvailable) => RejectCode::InvalidTile,
        Some(engine::ValidationRejectCode::ActionWindowMismatch) => RejectCode::ActionWindowClosed,
        Some(engine::ValidationRejectCode::InternalError) => RejectCode::InternalError,
        _ => RejectCode::RuleValidationFailed,
    }
}

pub fn map_validation_reject_code(reject_code: i32) -> (r: RejectCode)
    ensures
        r == validation_reject_code(reject_code),
{
    match engine::ValidationRejectCode::from_i32(reject_code) {
        Some(engine::ValidationRejectCode::InvalidContext) => RejectCode::InvalidRequest,
        Some(engine::ValidationRejectCode::TileNotOwned) => RejectCode::InvalidTile,
        Some(engine::ValidationRejectCode::TileNotAvailable) => RejectCode::InvalidTile,
        Some(engine::ValidationRejectCode::ActionWindowMismatch) => RejectCode::ActionWindowClosed,
        Some(engine::ValidationRejectCode::InternalError) => RejectCode::InternalError,
        _ => RejectCode::RuleValidationFailed,
    }
}

/// The action that a claim of a kind amounts to.
pub open spec fn claim_action(claim_kind: ClaimKind) -> ActionKind {
    match claim_kind {
        ClaimKind::Chi => ActionKind::Chi,
        ClaimKind::Peng => ActionKind::Peng,
        ClaimKind::ExposedKong => ActionKind::ExposedKong,
        ClaimKind::DiscardWin => ActionKind::DeclareWin,
        ClaimKind::RobKongWin => ActionKind::DeclareWin,
        ClaimKind::Unspecified => ActionKind::Unspecified,
    }
}

pub fn map_claim_kind_to_client_action(claim_kind: ClaimKind) -> (r: ActionKind)
    ensures
        r == claim_action(claim_kind),
{
    match claim_kind {
        ClaimKind::Chi => ActionKind::Chi,
        ClaimKind::Peng => ActionKind::Peng,
        ClaimKind::ExposedKong => ActionKind::ExposedKong,
        ClaimKind::DiscardWin => ActionKind::DeclareWin,
        ClaimKind::RobKongWin => ActionKind::DeclareWin,
        ClaimKind::Unspecified => ActionKind::Unspecified,
    }
}

/// The meld that a claim of a kind lays down.
pub open spec fn claim_meld(claim_kind: ClaimKind) -> MeldKind {
    match claim_kind {
        ClaimKind::Chi => MeldKind::Chi,
        ClaimKind::Peng => MeldKind::Peng,
        ClaimKind::ExposedKong => MeldKind::ExposedKong,
        _ => MeldKind::Unspecified,
    }
}

pub fn map_claim_kind_to_meld_kind(claim_kind: ClaimKind) -> (r: MeldKind)
    ensures
        r == claim_meld(claim_kind),
{
    match claim_kind {
        ClaimKind::Chi => MeldKind::Chi,
        ClaimKind::Peng => MeldKind::Peng,
        ClaimKind::ExposedKong => MeldKind::ExposedKong,
        _ => MeldKind::Unspecified,
    }
}

/// The number for "no value", where a result is an error.
pub open spec fn ok_or_zero(r: Result<i32, ActionValidationErrorModel>) -> i32 {
    match r {
        Ok(value) => value,
        Err(_) => 0,
    }
}

/// The rule engine's numbers for the client's tile numbers among `tiles`; other numbers are left
/// out.
pub open spec fn engine_tile_numbers(tiles: Seq<i32>) -> Seq<i32>
    decreases tiles.len(),
{
    if tiles.len() == 0 {
        Seq::empty()
    } else {
        let rest = engine_tile_numbers(tiles.drop_last());
        match parsed_tile_value(tiles.last()) {
            Ok(value) => rest.push(value),
            Err(_) => rest,
        }
    }
}

/// A client's meld in the rule engine's vocabulary.
pub open spec fn engine_meld(meld: MeldModel) -> engine::MeldModel {
    engine::MeldModel {
        kind: engine_meld_kind(
            match MeldKind::decode(meld.kind) {
                Some(kind) => kind,
                None => MeldKind::Unspecified,
            },
        ).code(),
        tiles: engine_tile_numbers(meld.tiles),
        from_seat: ok_or_zero(parsed_seat_value(meld.from_seat)),
        claimed_tile: ok_or_zero(parsed_tile_value(meld.claimed_tile)),
        concealed: meld.concealed,
        source_event_seq: meld.source_event_seq,
    }
}

pub fn map_client_meld_to_engine(meld: &Meld) -> (r: engine::Meld)
    ensures
        r@ == engine_meld(meld@),
{
    let kind = match MeldKind::from_i32(meld.kind) {
        Some(kind) => kind,
        None => MeldKind::Unspecified,
    };
    let mut tiles: Vec<i32> = Vec::new();
    let mut i: usize = 0;
    while i < meld.tiles.len()
        invariant
            i <= meld.tiles.len(),
            tiles@ == engine_tile_numbers(meld.tiles@.take(i as int)),
        decreases meld.tiles.len() - i,
    {
        assert(meld.tiles@.take(i + 1).drop_last() =~= meld.tiles@.take(i as int));
        if let Ok(value) = parse_client_tile_value(meld.tiles[i]) {
            tiles.push(value);
        }
        i = i + 1;
    }
    assert(meld.tiles@.take(i as int) =~= meld.tiles@);
    engine::Meld {
        kind: map_meld_kind_to_engine(kind).as_i32(),
        tiles,
        from_seat: match parse_client_seat_value(meld.from_seat) {
            Ok(value) => value,
            Err(_) => 0,
        },
        claimed_tile: match parse_client_tile_value(meld.claimed_tile) {
            Ok(value) => value,
            Err(_) => 0,
        },
        concealed: meld.concealed,
        source_event_seq: meld.source_event_seq,
    }
}

/// A client's discard in the rule engine's vocabulary.
pub open spec fn engine_discard(discard: DiscardTile) -> engine::DiscardTile {
    engine::DiscardTile {
        tile: ok_or_zero(parsed_tile_value(discard.tile)),
        turn_index: discard.turn_index,
        claimed: discard.claimed,
        drawn_and_discarded: discard.drawn_and_discarded,
        source_event_seq: discard.source_event_seq,
    }
}

pub fn map_client_discard_to_engine(discard: &DiscardTile) -> (r: engine::DiscardTile)
    ensures
        r == engine_discard(*discard),
{
    engine::DiscardTile {
        tile: match parse_client_tile_value(discard.tile) {
            Ok(value) => value,
            Err(_) => 0,
        },
        turn_index: discard.turn_index,
        claimed: discard.claimed,
        drawn_and_discarded: discard.drawn_and_discarded,
        source_event_seq: discard.source_event_seq,
    }
}

/// The melds of a player in the rule engine's vocabulary.
pub open spec fn engine_melds(melds: Seq<MeldModel>) -> Seq<engine::MeldModel> {
    Seq::new(melds.len(), |i: int| engine_meld(melds[i]))
}

pub fn map_client_melds_to_engine(melds: &Vec<Meld>) -> (r: Vec<engine::Meld>)
    ensures
        views(r@) == engine_melds(views(melds@)),
{
    let mut result: Vec<engine::Meld> = Vec::new();
    let mut i: usize = 0;
    while i < melds.len()
        invariant
            i <= melds.len(),
            result.len() == i,
            forall|j: int| 0 <= j < i ==> (#[trigger] result@[j])@ == engine_meld(melds@[j]@),
        decreases melds.len() - i,
    {
        result.push(map_client_meld_to_engine(&melds[i]));
        i = i + 1;
    }
    assert(views(result@) =~= engine_melds(views(melds@)));
    result
}

/// The discards of a player in the rule engine's vocabulary.
pub open spec fn engine_discards(discards: Seq<DiscardTile>) -> Seq<engine::DiscardTile> {
    Seq::new(discards.len(), |i: int| engine_discard(discards[i]))
}

pub fn map_client_discards_to_engine(discards: &Vec<DiscardTile>) -> (r: Vec<engine::DiscardTile>)
    ensures
        r@ == engine_discards(discards@),
{
    let mut result: Vec<engine::DiscardTile> = Vec::new();
    let mut i: usize = 0;
    while i < discards.len()
        invariant
            i <= discards.len(),
            result.len() == i,
            forall|j: int| 0 <= j < i ==> #[trigger] result@[j] == engine_discard(discards@[j]),
        decreases discards.len() - i,
    {
        result.push(map_client_discard_to_engine(&discards[i]));
        i = i + 1;
    }
    assert(result@ =~= engine_discards(discards@));
    result
}

/// The rule engine's numbers of some tiles.
pub open spec fn engine_tile_codes(tiles: Seq<Tile>) -> Seq<i32> {
    Seq::new(tiles.len(), |i: int| engine_tile(tiles[i]).code())
}

pub fn engine_codes_of(tiles: &Vec<Tile>) -> (r: Vec<i32>)
    ensures
        r@ == engine_tile_codes(tiles@),
{
    let mut codes: Vec<i32> = Vec::new();
    let mut i: usize = 0;
    while i < tiles.len()
        invariant
            i <= tiles.len(),
            codes.len() == i,
            forall|j: int| 0 <= j < i ==> #[trigger] codes@[j] == engine_tile(tiles@[j]).code(),
        decreases tiles.len() - i,
    {
        codes.push(map_tile_to_engine(tiles[i]).as_i32());
        i = i + 1;
    }
    assert(codes@ =~= engine_tile_codes(tiles@));
    codes
}

/// The view of a result whose success value is a message.
pub open spec fn message_result<T: View>(r: Result<T, ActionValidationError>) -> Result<
    T::V,
    ActionValidationErrorModel,
> {
    match r {
        Ok(value) => Ok(value@),
        Err(error) => Err(error@),
    }
}

/// The tiles that a client's numbers stand for, or why the first bad one stands for none.
pub open spec fn parsed_tiles(codes: Seq<i32>) -> Result<Seq<Tile>, ActionValidationErrorModel>
    decreases codes.len(),
{
    if codes.len() == 0 {
        Ok(Seq::empty())
    } else {
        match parsed_tiles(codes.drop_last()) {
            Err(error) => Err(error),
            Ok(tiles) => match parsed_tile(codes.last()) {
                Ok(tile) => Ok(tiles.push(tile)),
                Err(error) => Err(error),
            },
        }
    }
}

proof fn lemma_parsed_tiles_error(codes: Seq<i32>, upto: int)
    requires
        0 <= upto <= codes.len(),
        parsed_tiles(codes.take(upto)) is Err,
    ensures
        parsed_tiles(codes) == parsed_tiles(codes.take(upto)),
    decreases codes.len() - upto,
{
    if upto == codes.len() {
        assert(codes.take(upto) =~= codes);
    } else {
        assert(codes.take(upto + 1).drop_last() =~= codes.take(upto));
        lemma_parsed_tiles_error(codes, upto + 1);
    }
}

pub fn parse_client_tiles(codes: &Vec<i32>) -> (r: Result<Vec<Tile>, ActionValidationError>)
    ensures
        message_result(r) == parsed_tiles(codes@),
{
    let mut tiles: Vec<Tile> = Vec::new();
    let mut i: usize = 0;
    while i < codes.len()
        invariant
            i <= codes.len(),
            parsed_tiles(codes@.take(i as int)) == Ok::<Seq<Tile>, ActionValidationErrorModel>(
                tiles@,
            ),
        decreases codes.len() - i,
    {
        assert(codes@.take(i + 1).drop_last() =~= codes@.take(i as int));
        match parse_client_tile(codes[i]) {
            Ok(tile) => {
                tiles.push(tile);
            },
            Err(error) => {
                proof {
                    lemma_parsed_tiles_error(codes@, i + 1);
                }
                return Err(error);
            },
        }
        i = i + 1;
    }
    assert(codes@.take(i as int) =~= codes@);
    Ok(tiles)
}

/// A claim of tiles is an action and lays down a meld of the same name; a win lays down none and is
/// declared.
pub proof fn law_claims_keep_their_names(kind: ClaimKind)
    requires
        kind != ClaimKind::Unspecified,
    ensures
        kind == ClaimKind::DiscardWin || kind == ClaimKind::RobKongWin <==> claim_action(kind)
            == ActionKind::DeclareWin,
        kind == ClaimKind::DiscardWin || kind == ClaimKind::RobKongWin <==> claim_meld(kind)
            == MeldKind::Unspecified,
        claim_action(kind) != ActionKind::DeclareWin ==> {
            &&& claim_action(kind).name().skip(12) == kind.name().skip(11)
            &&& claim_meld(kind).name().skip(10) == kind.name().skip(11)
        },
{
    reveal_strlit("CLAIM_KIND_CHI");
    reveal_strlit("CLAIM_KIND_PENG");
    reveal_strlit("CLAIM_KIND_EXPOSED_KONG");
    reveal_strlit("ACTION_KIND_CHI");
    reveal_strlit("ACTION_KIND_PENG");
    reveal_strlit("ACTION_KIND_EXPOSED_KONG");
    reveal_strlit("MELD_KIND_CHI");
    reveal_strlit("MELD_KIND_PENG");
    reveal_strlit("MELD_KIND_EXPOSED_KONG");
    assert(claim_action(kind) != ActionKind::DeclareWin ==> claim_action(kind).name().skip(12)
        =~= kind.name().skip(11));
    assert(claim_action(kind) != ActionKind::DeclareWin ==> claim_meld(kind).name().skip(10)
        =~= kind.name().skip(11));
}

/// A refusal of the rule engine reaches the client by what is wrong: the request, the tile, the window
/// or the engine itself; any other refusal is one by the rules.
pub proof fn law_refusals_of_the_engine(code: i32)
    ensures
        ({
            let reason = engine::ValidationRejectCode::decode(code);
            let told = validation_reject_code(code);
            &&& told == RejectCode::InvalidRequest <==> reason == Some(
                engine::ValidationRejectCode::InvalidContext,
            )
            &&& told == RejectCode::InvalidTile <==> reason == Some(
                engine::ValidationRejectCode::TileNotOwned,
            ) || reason == Some(engine::ValidationRejectCode::TileNotAvailable)
            &&& told == RejectCode::ActionWindowClosed <==> reason == Some(
                engine::ValidationRejectCode::ActionWindowMismatch,
            )
            &&& told == RejectCode::InternalError <==> reason == Some(
                engine::ValidationRejectCode::InternalError,
            )
            &&& told == RejectCode::InvalidRequest || told == RejectCode::InvalidTile || told
                == RejectCode::ActionWindowClosed || told == RejectCode::InternalError || told
                == RejectCode::RuleValidationFailed
        }),
{
}

} // verus!
