//! The room as the rule engine is told of it.

use vstd::prelude::*;

use crate::collections::{group_seat_map, opt_view, views};
use crate::proto::client::{
    DeclareWinAction, PlayerAction, PlayerActionModel, PlayerActionRequest,
    PlayerActionRequestModel, RejectCode, Seat, Tile, WinType,
};
use crate::proto::engine;
use crate::room::basics::low_u32;
use crate::room::convert::{
    engine_action_kind, engine_codes_of, engine_discards, engine_melds, engine_seat, engine_tile,
    engine_tile_codes, engine_win_type, failure, map_action_kind_to_engine,
    map_client_discards_to_engine, map_client_melds_to_engine, map_seat_to_engine,
    map_tile_to_engine, map_win_type_to_engine, message_result, parse_client_claim_kind_value,
    parse_client_seat_value, parse_client_tile_value, parse_client_tiles,
    parse_client_win_type_value, parsed_claim_kind_value, parsed_seat_value, parsed_tile_value,
    parsed_tiles, parsed_win_type_value, ActionValidationError, ActionValidationErrorModel,
};
use crate::room::hand::{merged_private_tiles, private_count, private_tiles};
use crate::room::state::{ResolvedActionRecord, RoomState, RoomStateModel};
use crate::text::concat3;

verus! {

broadcast use group_seat_map;

/// The error for a seat that takes no part in the hand.
pub open spec fn seat_missing_error(seat: Seat) -> ActionValidationErrorModel {
    failure(RejectCode::NotInRoom, "seat "@ + seat.name() + " does not exist in round state"@)
}

pub(crate) fn seat_missing(seat: Seat) -> (r: ActionValidationError)
    ensures
        r@ == seat_missing_error(seat),
{
    ActionValidationError {
        reject_code: RejectCode::NotInRoom,
        message: concat3("seat ", seat.as_str_name(), " does not exist in round state"),
    }
}

/// An action that took effect, in the rule engine's vocabulary.
pub open spec fn action_context(action: ResolvedActionRecord) -> engine::RecentActionContext {
    engine::RecentActionContext {
        source_event_seq: action.event_seq,
        source_seat: engine_seat(action.actor_seat).code(),
        source_action_kind: engine_action_kind(action.action_kind).code(),
        source_tile: match action.tile {
            Some(tile) => engine_tile(tile).code(),
            None => engine::Tile::Unspecified.code(),
        },
        replacement_draw: action.replacement_draw,
        rob_kong_candidate: action.rob_kong_candidate,
    }
}

pub fn build_recent_action_context_from(action: &ResolvedActionRecord) -> (r:
    engine::RecentActionContext)
    ensures
        r == action_context(*action),
{
    engine::RecentActionContext {
        source_event_seq: action.event_seq,
        source_seat: map_seat_to_engine(action.actor_seat).as_i32(),
        source_action_kind: map_action_kind_to_engine(action.action_kind).as_i32(),
        source_tile: match action.tile {
            Some(tile) => map_tile_to_engine(tile).as_i32(),
            None => engine::Tile::Unspecified.as_i32(),
        },
        replacement_draw: action.replacement_draw,
        rob_kong_candidate: action.rob_kong_candidate,
    }
}

/// The rule engine's numbers of some seats.
pub open spec fn engine_seat_codes(seats: Seq<Seat>) -> Seq<i32> {
    Seq::new(seats.len(), |i: int| engine_seat(seats[i]).code())
}

impl RoomStateModel {
    /// The rules in force.
    pub open spec fn rule_config(self) -> engine::RuleConfigModel {
        engine::RuleConfigModel {
            ruleset_id: self.room_config.ruleset_id,
            seat_count: self.room_config.seat_count,
            enable_flower_tiles: self.room_config.enable_flower_tiles,
            enable_robbing_kong: self.room_config.enable_robbing_kong,
            enable_kong_draw: self.room_config.enable_kong_draw,
            enable_last_tile_bonus: true,
            base_points: 0,
        }
    }

    /// Where the hand stands. One tile in the wall makes the next draw the last one.
    pub open spec fn round_context(self) -> engine::RoundContext {
        engine::RoundContext {
            prevailing_wind: engine_seat(self.prevailing_wind).code(),
            dealer_seat: engine_seat(self.dealer_seat).code(),
            current_turn_seat: engine_seat(self.current_turn_seat).code(),
            hand_number: self.hand_number,
            dealer_streak: self.dealer_streak,
            wall_tiles_remaining: self.wall_tiles_remaining,
            dead_wall_tiles_remaining: self.dead_wall_tiles_remaining,
            replacement_draw_pending: match self.round_runtime {
                Some(runtime) => runtime.replacement_draw_pending,
                None => false,
            },
            is_last_tile: self.wall_tiles_remaining <= 1,
        }
    }

    /// The action that came last.
    pub open spec fn recent_action(self) -> Option<engine::RecentActionContext> {
        match self.round_runtime {
            Some(runtime) => match runtime.last_resolved_action {
                Some(action) => Some(action_context(action)),
                None => None,
            },
            None => None,
        }
    }

    /// The open claim window, if the given number is zero or its own.
    pub open spec fn window_context(self, action_window_id: u64) -> Option<
        engine::ClaimWindowContextModel,
    > {
        match self.window() {
            Some(window) => if action_window_id != 0 && action_window_id
                != window.action_window_id {
                None
            } else {
                Some(
                    engine::ClaimWindowContextModel {
                        action_window_id: window.action_window_id,
                        source_event_seq: window.source_event_seq,
                        source_seat: engine_seat(window.source_seat).code(),
                        target_tile: engine_tile(window.target_tile).code(),
                        trigger_action_kind: engine_action_kind(window.trigger_action_kind).code(),
                        eligible_seats: engine_seat_codes(window.eligible_seats),
                    },
                )
            },
            None => None,
        }
    }

    /// What the rule engine is told of the player of a seat, as a list: nothing of the hidden tiles
    /// but how many there are.
    pub open spec fn engine_player_at(self, seat: Seat) -> Seq<engine::EnginePlayerStateModel> {
        match (self.players_by_seat.at(seat), self.player_round_state.at(seat)) {
            (Some(player), Some(hand)) => seq![
                engine::EnginePlayerStateModel {
                    seat: engine_seat(player.seat).code(),
                    current_score: player.score,
                    concealed_tile_count: (private_count(hand) % 0x1_0000_0000) as u32,
                    melds: engine_melds(hand.melds),
                    discards: engine_discards(hand.discards),
                    flowers: engine_tile_codes(hand.flowers),
                },
            ],
            _ => Seq::empty(),
        }
    }

    /// What the rule engine is told of the players, in the order of play.
    pub open spec fn engine_players(self) -> Seq<engine::EnginePlayerStateModel> {
        self.engine_player_at(Seat::East) + self.engine_player_at(Seat::South)
            + self.engine_player_at(Seat::West) + self.engine_player_at(Seat::North)
    }

    /// The hand of the acting player.
    pub open spec fn actor_hand(self, seat: Seat) -> Result<
        engine::PrivateHandContextModel,
        ActionValidationErrorModel,
    > {
        match self.player_round_state.at(seat) {
            Some(hand) => Ok(
                engine::PrivateHandContextModel {
                    concealed_tiles: engine_tile_codes(hand.concealed_tiles),
                    drawn_tile: match hand.drawn_tile {
                        Some(tile) => engine_tile(tile).code(),
                        None => engine::Tile::Unspecified.code(),
                    },
                },
            ),
            None => Err(seat_missing_error(seat)),
        }
    }

    /// An action in the rule engine's vocabulary, or why it has no meaning there. Numbers are
    /// checked in the order in which the action lists them.
    pub open spec fn candidate(self, seat: Seat, action: PlayerActionModel) -> Result<
        engine::CandidateActionModel,
        ActionValidationErrorModel,
    > {
        match action {
            PlayerActionModel::Discard(discard) => match parsed_tile_value(discard.tile) {
                Err(error) => Err(error),
                Ok(tile) => Ok(
                    engine::CandidateActionModel::Discard(
                        engine::DiscardAction { tile, tsumogiri: discard.tsumogiri },
                    ),
                ),
            },
            PlayerActionModel::Claim(claim) => match parsed_claim_kind_value(claim.claim_kind) {
                Err(error) => Err(error),
                Ok(claim_kind) => match parsed_tile_value(claim.target_tile) {
                    Err(error) => Err(error),
                    Ok(target_tile) => match parsed_tiles(claim.consume_tiles) {
                        Err(error) => Err(error),
                        Ok(tiles) => match parsed_seat_value(claim.source_seat) {
                            Err(error) => Err(error),
                            Ok(source_seat) => Ok(
                                engine::CandidateActionModel::Claim(
                                    engine::ClaimActionModel {
                                        claim_kind,
                                        target_tile,
                                        consume_tiles: engine_tile_codes(tiles),
                                        source_seat,
                                        source_event_seq: claim.source_event_seq,
                                    },
                                ),
                            ),
                        },
                    },
                },
            },
            PlayerActionModel::DeclareWin(win) => match parsed_win_type_value(win.win_type) {
                Err(error) => Err(error),
                Ok(win_type) => match parsed_tile_value(win.winning_tile) {
                    Err(error) => Err(error),
                    Ok(winning_tile) => match parsed_seat_value(win.source_seat) {
                        Err(error) => Err(error),
                        Ok(source_seat) => Ok(
                            engine::CandidateActionModel::DeclareWin(
                                engine::DeclareWinAction {
                                    win_type,
                                    winning_tile,
                                    source_seat,
                                    source_event_seq: win.source_event_seq,
                                },
                            ),
                        ),
                    },
                },
            },
            PlayerActionModel::Pass(pass) => Ok(
                engine::CandidateActionModel::Pass(
                    engine::PassAction { source_event_seq: pass.source_event_seq },
                ),
            ),
            PlayerActionModel::SupplementalKong(kong) => match parsed_tile_value(kong.tile) {
                Err(error) => Err(error),
                Ok(tile) => Ok(
                    engine::CandidateActionModel::Kong(
                        engine::KongActionModel {
                            kong_kind: engine::ActionKind::SupplementalKong.code(),
                            tile,
                            consume_tiles: Seq::empty(),
                            source_seat: engine_seat(seat).code(),
                            source_event_seq: self.latest_event_seq(),
                        },
                    ),
                ),
            },
            PlayerActionModel::AutoPlayToggle(_) => Err(
                failure(
                    RejectCode::ActionNotAvailable,
                    "auto play toggles are handled locally and do not go through the rule engine"@,
                ),
            ),
        }
    }

    /// The request that has an action judged, or why it cannot be put.
    pub open spec fn judging_request(
        self,
        seat: Seat,
        action: PlayerActionModel,
        claim_window: Option<engine::ClaimWindowContextModel>,
    ) -> Result<engine::ValidateActionRequestModel, ActionValidationErrorModel> {
        match self.candidate(seat, action) {
            Err(error) => Err(error),
            Ok(candidate) => match self.actor_hand(seat) {
                Err(error) => Err(error),
                Ok(hand) => Ok(
                    engine::ValidateActionRequestModel {
                        room_id: self.room_id,
                        match_id: self.match_id,
                        round_id: self.current_round_id(),
                        server_event_seq: self.latest_event_seq(),
                        rule_config: Some(self.rule_config()),
                        round_context: Some(self.round_context()),
                        actor_seat: engine_seat(seat).code(),
                        candidate_action: Some(candidate),
                        recent_action: self.recent_action(),
                        players: self.engine_players(),
                        actor_private_hand: Some(hand),
                        claim_window,
                    },
                ),
            },
        }
    }

    /// The request that has a player's action judged.
    pub open spec fn validation_request(self, seat: Seat, request: PlayerActionRequestModel) -> Result<
        engine::ValidateActionRequestModel,
        ActionValidationErrorModel,
    > {
        match request.action {
            None => Err(
                failure(RejectCode::InvalidRequest, "player action payload must be set"@),
            ),
            Some(action) => self.judging_request(
                seat,
                action,
                self.window_context(request.action_window_id),
            ),
        }
    }

    /// The hand of a seat at the end of a round, as a list.
    pub open spec fn hand_snapshot_at(
        self,
        seat: Seat,
        winner_seat: Seat,
        discarder_seat: Option<Seat>,
    ) -> Seq<engine::HandSnapshotModel> {
        match (self.players_by_seat.at(seat), self.player_round_state.at(seat)) {
            (Some(player), Some(hand)) => seq![
                engine::HandSnapshotModel {
                    seat: engine_seat(seat).code(),
                    concealed_tiles: engine_tile_codes(private_tiles(hand)),
                    melds: engine_melds(hand.melds),
                    flowers: engine_tile_codes(hand.flowers),
                    current_score: player.score,
                    winner: seat == winner_seat,
                    discarder: Some(seat) == discarder_seat,
                },
            ],
            _ => Seq::empty(),
        }
    }

    /// The hands at the end of a round, in the order of play.
    pub open spec fn hand_snapshots(self, winner_seat: Seat, discarder_seat: Option<Seat>) -> Seq<
        engine::HandSnapshotModel,
    > {
        self.hand_snapshot_at(Seat::East, winner_seat, discarder_seat) + self.hand_snapshot_at(
            Seat::South,
            winner_seat,
            discarder_seat,
        ) + self.hand_snapshot_at(Seat::West, winner_seat, discarder_seat) + self.hand_snapshot_at(
            Seat::North,
            winner_seat,
            discarder_seat,
        )
    }

    /// The circumstances of a win: its type, and whether it was on the last tile.
    pub open spec fn win_flags(self, win_type: WinType) -> Seq<engine::SettlementFlag> {
        let first = match win_type {
            WinType::SelfDraw => engine::SettlementFlag::SelfDraw,
            WinType::Discard => engine::SettlementFlag::DiscardWin,
            WinType::RobKong => engine::SettlementFlag::RobKongWin,
            WinType::KongDraw => engine::SettlementFlag::KongDrawWin,
            WinType::Unspecified => engine::SettlementFlag::Unspecified,
        };
        let last = match win_type {
            WinType::SelfDraw => engine::SettlementFlag::LastTileDraw,
            WinType::KongDraw => engine::SettlementFlag::LastTileDraw,
            WinType::Discard => engine::SettlementFlag::LastTileClaim,
            WinType::RobKong => engine::SettlementFlag::LastTileClaim,
            WinType::Unspecified => engine::SettlementFlag::Unspecified,
        };
        if self.round_context().is_last_tile && last != engine::SettlementFlag::Unspecified {
            Seq::empty().push(first).push(last)
        } else {
            Seq::empty().push(first)
        }
    }

    /// The request that has a win scored.
    pub open spec fn scoring_request(
        self,
        winner_seat: Seat,
        discarder_seat: Option<Seat>,
        win_type: WinType,
        winning_tile: Tile,
        terminal_action: ResolvedActionRecord,
    ) -> engine::CalculateScoreRequestModel {
        engine::CalculateScoreRequestModel {
            room_id: self.room_id,
            match_id: self.match_id,
            round_id: self.current_round_id(),
            rule_config: Some(self.rule_config()),
            round_context: Some(self.round_context()),
            win_type: engine_win_type(win_type).code(),
            winner_seat: engine_seat(winner_seat).code(),
            discarder_seat: (match discarder_seat {
                Some(seat) => engine_seat(seat),
                None => engine::Seat::Unspecified,
            }).code(),
            winning_tile: engine_tile(winning_tile).code(),
            hands: self.hand_snapshots(winner_seat, discarder_seat),
            settlement_flags: engine_flag_codes(self.win_flags(win_type)),
            terminal_action: Some(action_context(terminal_action)),
        }
    }
}

/// The wire numbers of some of the rule engine's flags.
pub open spec fn engine_flag_codes(flags: Seq<engine::SettlementFlag>) -> Seq<i32> {
    Seq::new(flags.len(), |i: int| flags[i].code())
}

impl RoomState {
    pub fn build_engine_rule_config(&self) -> (r: engine::RuleConfig)
        ensures
            r@ == self@.rule_config(),
    {
        engine::RuleConfig {
            ruleset_id: self.room_config.ruleset_id.clone(),
            seat_count: self.room_config.seat_count,
            enable_flower_tiles: self.room_config.enable_flower_tiles,
            enable_robbing_kong: self.room_config.enable_robbing_kong,
            enable_kong_draw: self.room_config.enable_kong_draw,
            enable_last_tile_bonus: true,
            base_points: 0,
        }
    }

    pub fn build_engine_round_context(&self) -> (r: engine::RoundContext)
        ensures
            r == self@.round_context(),
    {
        let replacement_draw_pending: bool = match self.round_runtime.as_ref() {
            Some(runtime) => runtime.replacement_draw_pending,
            None => false,
        };
        engine::RoundContext {
            prevailing_wind: map_seat_to_engine(self.prevailing_wind).as_i32(),
            dealer_seat: map_seat_to_engine(self.dealer_seat).as_i32(),
            current_turn_seat: map_seat_to_engine(self.current_turn_seat).as_i32(),
            hand_number: self.hand_number,
            dealer_streak: self.dealer_streak,
            wall_tiles_remaining: self.wall_tiles_remaining,
            dead_wall_tiles_remaining: self.dead_wall_tiles_remaining,
            replacement_draw_pending,
            is_last_tile: self.wall_tiles_remaining <= 1,
        }
    }

    pub fn build_recent_action_context(&self) -> (r: Option<engine::RecentActionContext>)
        ensures
            r == self@.recent_action(),
    {
        match self.round_runtime.as_ref() {
            Some(runtime) => match runtime.last_resolved_action.as_ref() {
                Some(action) => Some(build_recent_action_context_from(action)),
                None => None,
            },
            None => None,
        }
    }

    pub fn build_claim_window_context(&self, action_window_id: u64) -> (r: Option<
        engine::ClaimWindowContext,
    >)
        ensures
            opt_view(r) == self@.window_context(action_window_id),
    {
        match self.round_runtime.as_ref() {
            None => None,
            Some(runtime) => match runtime.active_claim_window.as_ref() {
                None => None,
                Some(window) => {
                    if action_window_id != 0 && action_window_id != window.action_window_id {
                        return None;
                    }
                    let mut eligible_seats: Vec<i32> = Vec::new();
                    let mut i: usize = 0;
                    while i < window.eligible_seats.len()
                        invariant
                            i <= window.eligible_seats.len(),
                            eligible_seats.len() == i,
                            forall|j: int|
                                0 <= j < i ==> #[trigger] eligible_seats@[j] == engine_seat(
                                    window.eligible_seats@[j],
                                ).code(),
                        decreases window.eligible_seats.len() - i,
                    {
                        eligible_seats.push(map_seat_to_engine(window.eligible_seats[i]).as_i32());
                        i = i + 1;
                    }
                    assert(eligible_seats@ =~= engine_seat_codes(window.eligible_seats@));
                    Some(
                        engine::ClaimWindowContext {
                            action_window_id: window.action_window_id,
                            source_event_seq: window.source_event_seq,
                            source_seat: map_seat_to_engine(window.source_seat).as_i32(),
                            target_tile: map_tile_to_engine(window.target_tile).as_i32(),
                            trigger_action_kind: map_action_kind_to_engine(
                                window.trigger_action_kind,
                            ).as_i32(),
                            eligible_seats,
                        },
                    )
                },
            },
        }
    }

    fn push_engine_player(&self, players: &mut Vec<engine::EnginePlayerState>, seat: Seat)
        ensures
            views(final(players)@) == views(old(players)@) + self@.engine_player_at(seat),
    {
        let ghost before = players@;
        if let Some(player) = self.players_by_seat.get(seat) {
            if let Some(hand) = self.player_round_state.get(seat) {
                let concealed: u32 = low_u32(hand.concealed_tiles.len());
                players.push(
                    engine::EnginePlayerState {
                        seat: map_seat_to_engine(player.seat).as_i32(),
                        current_score: player.score,
                        concealed_tile_count: if hand.drawn_tile.is_some() {
                            concealed.wrapping_add(1)
                        } else {
                            concealed
                        },
                        melds: map_client_melds_to_engine(&hand.melds),
                        discards: map_client_discards_to_engine(&hand.discards),
                        flowers: engine_codes_of(&hand.flowers),
                    },
                );
            }
        }
        assert(views(players@) =~= views(before) + self@.engine_player_at(seat));
    }

    pub fn build_engine_player_states(&self) -> (r: Vec<engine::EnginePlayerState>)
        ensures
            views(r@) == self@.engine_players(),
    {
        let mut players: Vec<engine::EnginePlayerState> = Vec::new();
        self.push_engine_player(&mut players, Seat::East);
        self.push_engine_player(&mut players, Seat::South);
        self.push_engine_player(&mut players, Seat::West);
        self.push_engine_player(&mut players, Seat::North);
        assert(views(players@) =~= self@.engine_players());
        players
    }

    pub fn build_actor_private_hand(&self, actor_seat: Seat) -> (r: Result<
        engine::PrivateHandContext,
        ActionValidationError,
    >)
        ensures
            message_result(r) == self@.actor_hand(actor_seat),
    {
        match self.player_round_state.get(actor_seat) {
            Some(hand) => Ok(
                engine::PrivateHandContext {
                    concealed_tiles: engine_codes_of(&hand.concealed_tiles),
                    drawn_tile: match hand.drawn_tile {
                        Some(tile) => map_tile_to_engine(tile).as_i32(),
                        None => engine::Tile::Unspecified.as_i32(),
                    },
                },
            ),
            None => Err(seat_missing(actor_seat)),
        }
    }

    pub fn build_candidate_action(&self, actor_seat: Seat, action: &PlayerAction) -> (r: Result<
        engine::CandidateAction,
        ActionValidationError,
    >)
        ensures
            message_result(r) == self@.candidate(actor_seat, action@),
    {
        match action {
            PlayerAction::Discard(discard) => match parse_client_tile_value(discard.tile) {
                Err(error) => Err(error),
                Ok(tile) => Ok(
                    engine::CandidateAction::Discard(
                        engine::DiscardAction { tile, tsumogiri: discard.tsumogiri },
                    ),
                ),
            },
            PlayerAction::Claim(claim) => {
                let claim_kind: i32 = match parse_client_claim_kind_value(claim.claim_kind) {
                    Err(error) => {
                        return Err(error);
                    },
                    Ok(claim_kind) => claim_kind,
                };
                let target_tile: i32 = match parse_client_tile_value(claim.target_tile) {
                    Err(error) => {
                        return Err(error);
                    },
                    Ok(target_tile) => target_tile,
                };
                let tiles = match parse_client_tiles(&claim.consume_tiles) {
                    Err(error) => {
                        return Err(error);
                    },
                    Ok(tiles) => tiles,
                };
                match parse_client_seat_value(claim.source_seat) {
                    Err(error) => Err(error),
                    Ok(source_seat) => Ok(
                        engine::CandidateAction::Claim(
                            engine::ClaimAction {
                                claim_kind,
                                target_tile,
                                consume_tiles: engine_codes_of(&tiles),
                                source_seat,
                                source_event_seq: claim.source_event_seq,
                            },
                        ),
                    ),
                }
            },
            PlayerAction::DeclareWin(win) => {
                let win_type: i32 = match parse_client_win_type_value(win.win_type) {
                    Err(error) => {
                        return Err(error);
                    },
                    Ok(win_type) => win_type,
                };
                let winning_tile: i32 = match parse_client_tile_value(win.winning_tile) {
                    Err(error) => {
                        return Err(error);
                    },
                    Ok(winning_tile) => winning_tile,
                };
                match parse_client_seat_value(win.source_seat) {
                    Err(error) => Err(error),
                    Ok(source_seat) => Ok(
                        engine::CandidateAction::DeclareWin(
                            engine::DeclareWinAction {
                                win_type,
                                winning_tile,
                                source_seat,
                                source_event_seq: win.source_event_seq,
                            },
                        ),
                    ),
                }
            },
            PlayerAction::Pass(pass) => Ok(
                engine::CandidateAction::Pass(
                    engine::PassAction { source_event_seq: pass.source_event_seq },
                ),
            ),
            PlayerAction::SupplementalKong(kong) => match parse_client_tile_value(kong.tile) {
                Err(error) => Err(error),
                Ok(tile) => Ok(
                    engine::CandidateAction::Kong(
                        engine::KongAction {
                            kong_kind: engine::ActionKind::SupplementalKong.as_i32(),
                            tile,
                            consume_tiles: Vec::new(),
                            source_seat: map_seat_to_engine(actor_seat).as_i32(),
                            source_event_seq: self.current_event_seq(),
                        },
                    ),
                ),
            },
            PlayerAction::AutoPlayToggle(_) => Err(
                ActionValidationError::new(
                    RejectCode::ActionNotAvailable,
                    "auto play toggles are handled locally and do not go through the rule engine",
                ),
            ),
        }
    }

    fn judging_request_for(
        &self,
        actor_seat: Seat,
        action: &PlayerAction,
        claim_window: Option<engine::ClaimWindowContext>,
    ) -> (r: Result<engine::ValidateActionRequest, ActionValidationError>)
        ensures
            message_result(r) == self@.judging_request(actor_seat, action@, opt_view(claim_window)),
    {
        let candidate = match self.build_candidate_action(actor_seat, action) {
            Err(error) => {
                return Err(error);
            },
            Ok(candidate) => candidate,
        };
        let hand = match self.build_actor_private_hand(actor_seat) {
            Err(error) => {
                return Err(error);
            },
            Ok(hand) => hand,
        };
        Ok(
            engine::ValidateActionRequest {
                room_id: self.room_id.clone(),
                match_id: self.match_id.clone(),
                round_id: self.round_id(),
                server_event_seq: self.current_event_seq(),
                rule_config: Some(self.build_engine_rule_config()),
                round_context: Some(self.build_engine_round_context()),
                actor_seat: map_seat_to_engine(actor_seat).as_i32(),
                candidate_action: Some(candidate),
                recent_action: self.build_recent_action_context(),
                players: self.build_engine_player_states(),
                actor_private_hand: Some(hand),
                claim_window,
            },
        )
    }

    pub fn build_validate_action_request(
        &self,
        actor_seat: Seat,
        request: &PlayerActionRequest,
    ) -> (r: Result<engine::ValidateActionRequest, ActionValidationError>)
        ensures
            message_result(r) == self@.validation_request(actor_seat, request@),
    {
        match request.action.as_ref() {
            None => Err(
                ActionValidationError::new(
                    RejectCode::InvalidRequest,
                    "player action payload must be set",
                ),
            ),
            Some(action) => {
                let claim_window = self.build_claim_window_context(request.action_window_id);
                self.judging_request_for(actor_seat, action, claim_window)
            },
        }
    }

    pub fn build_validate_action_request_for_action(
        &self,
        actor_seat: Seat,
        action: &PlayerAction,
    ) -> (r: Result<engine::ValidateActionRequest, ActionValidationError>)
        ensures
            message_result(r) == self@.judging_request(actor_seat, action@, None),
    {
        self.judging_request_for(actor_seat, action, None)
    }

    fn push_hand_snapshot(
        &self,
        hands: &mut Vec<engine::HandSnapshot>,
        seat: Seat,
        winner_seat: Seat,
        discarder_seat: Option<Seat>,
    )
        ensures
            views(final(hands)@) == views(old(hands)@) + self@.hand_snapshot_at(
                seat,
                winner_seat,
                discarder_seat,
            ),
    {
        let ghost before = hands@;
        if let Some(player) = self.players_by_seat.get(seat) {
            if let Some(hand) = self.player_round_state.get(seat) {
                let merged = merged_private_tiles(hand);
                hands.push(
                    engine::HandSnapshot {
                        seat: map_seat_to_engine(seat).as_i32(),
                        concealed_tiles: engine_codes_of(&merged),
                        melds: map_client_melds_to_engine(&hand.melds),
                        flowers: engine_codes_of(&hand.flowers),
                        current_score: player.score,
                        winner: seat == winner_seat,
                        discarder: Some(seat) == discarder_seat,
                    },
                );
            }
        }
        assert(views(hands@) =~= views(before) + self@.hand_snapshot_at(
            seat,
            winner_seat,
            discarder_seat,
        ));
    }

    pub fn build_engine_hand_snapshots(&self, winner_seat: Seat, discarder_seat: Option<Seat>) -> (r:
        Vec<engine::HandSnapshot>)
        ensures
            views(r@) == self@.hand_snapshots(winner_seat, discarder_seat),
    {
        let mut hands: Vec<engine::HandSnapshot> = Vec::new();
        self.push_hand_snapshot(&mut hands, Seat::East, winner_seat, discarder_seat);
        self.push_hand_snapshot(&mut hands, Seat::South, winner_seat, discarder_seat);
        self.push_hand_snapshot(&mut hands, Seat::West, winner_seat, discarder_seat);
        self.push_hand_snapshot(&mut hands, Seat::North, winner_seat, discarder_seat);
        assert(views(hands@) =~= self@.hand_snapshots(winner_seat, discarder_seat));
        hands
    }

    pub fn build_engine_settlement_flags(&self, win_type: WinType) -> (r: Vec<
        engine::SettlementFlag,
    >)
        ensures
            r@ == self@.win_flags(win_type),
    {
        let mut flags: Vec<engine::SettlementFlag> = Vec::new();
        flags.push(
            match win_type {
                WinType::SelfDraw => engine::SettlementFlag::SelfDraw,
                WinType::Discard => engine::SettlementFlag::DiscardWin,
                WinType::RobKong => engine::SettlementFlag::RobKongWin,
                WinType::KongDraw => engine::SettlementFlag::KongDrawWin,
                WinType::Unspecified => engine::SettlementFlag::Unspecified,
            },
        );
        if self.build_engine_round_context().is_last_tile {
            let last_tile_flag = match win_type {
                WinType::SelfDraw => engine::SettlementFlag::LastTileDraw,
                WinType::KongDraw => engine::SettlementFlag::LastTileDraw,
                WinType::Discard => engine::SettlementFlag::LastTileClaim,
                WinType::RobKong => engine::SettlementFlag::LastTileClaim,
                WinType::Unspecified => engine::SettlementFlag::Unspecified,
            };
            if last_tile_flag != engine::SettlementFlag::Unspecified {
                flags.push(last_tile_flag);
            }
        }
        flags
    }

    pub fn build_calculate_score_request(
        &self,
        winner_seat: Seat,
        discarder_seat: Option<Seat>,
        win_type: WinType,
        winning_tile: Tile,
        terminal_action: &ResolvedActionRecord,
    ) -> (r: engine::CalculateScoreRequest)
        ensures
            r@ == self@.scoring_request(
                winner_seat,
                discarder_seat,
                win_type,
                winning_tile,
                *terminal_action,
            ),
    {
        let flags = self.build_engine_settlement_flags(win_type);
        let mut settlement_flags: Vec<i32> = Vec::new();
        let mut i: usize = 0;
        while i < flags.len()
            invariant
                i <= flags.len(),
                settlement_flags.len() == i,
                forall|j: int| 0 <= j < i ==> #[trigger] settlement_flags@[j] == flags@[j].code(),
            decreases flags.len() - i,
        {
            settlement_flags.push(flags[i].as_i32());
            i = i + 1;
        }
        assert(settlement_flags@ =~= engine_flag_codes(flags@));
        let discarder = match discarder_seat {
            Some(seat) => map_seat_to_engine(seat),
            None => engine::Seat::Unspecified,
        };
        engine::CalculateScoreRequest {
            room_id: self.room_id.clone(),
            match_id: self.match_id.clone(),
            round_id: self.round_id(),
            rule_config: Some(self.build_engine_rule_config()),
            round_context: Some(self.build_engine_round_context()),
            win_type: map_win_type_to_engine(win_type).as_i32(),
            winner_seat: map_seat_to_engine(winner_seat).as_i32(),
            discarder_seat: discarder.as_i32(),
            winning_tile: map_tile_to_engine(winning_tile).as_i32(),
            hands: self.build_engine_hand_snapshots(winner_seat, discarder_seat),
            settlement_flags,
            terminal_action: Some(build_recent_action_context_from(terminal_action)),
        }
    }
}

} // verus!
