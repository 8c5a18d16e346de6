//! The end of a hand.

use vstd::prelude::*;

use crate::collections::{group_seat_map, lemma_views_empty, views};
use crate::json::{json_int, json_items, json_text, no_members, Json, JsonModel, JsonObject};
use crate::proto::client::{
    FanDetail, FanDetailModel, GamePhase, RevealedHand, RevealedHandModel, RoundPlayerResult,
    RoundSettlement, RoundSettlementModel, Seat, ServerFrame, ServerFrameModel, ServerPayload,
    ServerPayloadModel, SettlementFlag, Tile, WinType,
};
use crate::proto::engine;
use crate::room::basics::no_wins;
use crate::room::convert::{
    client_seat_of, client_settlement_flag_of, map_engine_seat_to_client,
    map_engine_settlement_flag_to_client,
};
use crate::room::hand::{merged_private_tiles, private_tiles};
use crate::room::payloads::{opt_seat, opt_seat_json};
use crate::room::state::{
    MatchPlayerStats, MatchRuntimeStateModel, PlayerSlotModel, RoomOutput, RoomOutputModel,
    RoomRuntimeMode, RoomState, RoomStateModel, POST_ROUND_DELAY_MS,
};
use crate::tiles::{codes_of, tile_codes};

verus! {

broadcast use group_seat_map;

/// The players' results among the rule engine's score changes; those for no seat are left out.
pub open spec fn round_results(deltas: Seq<engine::SeatScoreDelta>) -> Seq<RoundPlayerResult>
    decreases deltas.len(),
{
    if deltas.len() == 0 {
        Seq::empty()
    } else {
        let rest = round_results(deltas.drop_last());
        match client_seat_of(deltas.last().seat) {
            Some(seat) => rest.push(
                RoundPlayerResult {
                    seat: seat.code(),
                    round_delta: deltas.last().delta,
                    total_score_after: deltas.last().final_total,
                },
            ),
            None => rest,
        }
    }
}

fn results_of(deltas: &Vec<engine::SeatScoreDelta>) -> (r: Vec<RoundPlayerResult>)
    ensures
        r@ == round_results(deltas@),
{
    let mut results: Vec<RoundPlayerResult> = Vec::new();
    let mut i: usize = 0;
    while i < deltas.len()
        invariant
            i <= deltas.len(),
            results@ == round_results(deltas@.take(i as int)),
        decreases deltas.len() - i,
    {
        assert(deltas@.take(i + 1).drop_last() =~= deltas@.take(i as int));
        if let Some(seat) = map_engine_seat_to_client(deltas[i].seat) {
            results.push(
                RoundPlayerResult {
                    seat: seat.as_i32(),
                    round_delta: deltas[i].delta,
                    total_score_after: deltas[i].final_total,
                },
            );
        }
        i = i + 1;
    }
    assert(deltas@.take(i as int) =~= deltas@);
    results
}

/// The name of a seat's wire number.
pub open spec fn result_payload(result: RoundPlayerResult) -> JsonModel {
    JsonModel::Object(
        no_members()
            .push(("seat"@, json_text(crate::room::payloads::seat_name(result.seat))))
            .push(("round_delta"@, json_int(result.round_delta as int)))
            .push(("total_score_after"@, json_int(result.total_score_after as int))),
    )
}

/// The players' results, as stored.
pub open spec fn results_payload(results: Seq<RoundPlayerResult>) -> JsonModel {
    JsonModel::Array(Seq::new(results.len(), |i: int| result_payload(results[i])))
}

fn results_json(results: &Vec<RoundPlayerResult>) -> (r: Json)
    ensures
        r@ == results_payload(results@),
{
    let mut items: Vec<Json> = Vec::new();
    let mut i: usize = 0;
    while i < results.len()
        invariant
            i <= results.len(),
            items.len() == i,
            forall|j: int| 0 <= j < i ==> (#[trigger] items@[j])@ == result_payload(results@[j]),
        decreases results.len() - i,
    {
        let result = results[i];
        let seat = match Seat::from_i32(result.seat) {
            Some(seat) => seat.as_str_name(),
            None => Seat::Unspecified.as_str_name(),
        };
        items.push(
            JsonObject::new()
                .with("seat", Json::text(seat))
                .with("round_delta", Json::integer(result.round_delta))
                .with("total_score_after", Json::integer(result.total_score_after))
                .build(),
        );
        i = i + 1;
    }
    assert(json_items(items@) =~= results_payload(results@)->Array_0);
    Json::list(items)
}

/// A scoring element in the client's vocabulary.
pub open spec fn client_fan(fan: engine::FanDetailModel) -> FanDetailModel {
    FanDetailModel {
        fan_code: fan.fan_code,
        fan_name: fan.fan_name,
        fan_value: fan.fan_value,
        count: fan.count,
        description: fan.description,
    }
}

/// The scoring elements in the client's vocabulary.
pub open spec fn client_fans(fans: Seq<engine::FanDetailModel>) -> Seq<FanDetailModel> {
    Seq::new(fans.len(), |i: int| client_fan(fans[i]))
}

fn fans_of(fans: &Vec<engine::FanDetail>) -> (r: Vec<FanDetail>)
    ensures
        views(r@) == client_fans(views(fans@)),
{
    let mut result: Vec<FanDetail> = Vec::new();
    let mut i: usize = 0;
    while i < fans.len()
        invariant
            i <= fans.len(),
            result.len() == i,
            forall|j: int| 0 <= j < i ==> (#[trigger] result@[j])@ == client_fan(fans@[j]@),
        decreases fans.len() - i,
    {
        let fan = &fans[i];
        result.push(
            FanDetail {
                fan_code: fan.fan_code.clone(),
                fan_name: fan.fan_name.clone(),
                fan_value: fan.fan_value,
                count: fan.count,
                description: fan.description.clone(),
            },
        );
        i = i + 1;
    }
    assert(views(result@) =~= client_fans(views(fans@)));
    result
}

/// A scoring element, as stored.
pub open spec fn fan_payload(fan: FanDetailModel) -> JsonModel {
    JsonModel::Object(
        no_members()
            .push(("fan_code"@, json_text(fan.fan_code)))
            .push(("fan_name"@, json_text(fan.fan_name)))
            .push(("fan_value"@, JsonModel::Unsigned(fan.fan_value as u64)))
            .push(("count"@, JsonModel::Unsigned(fan.count as u64)))
            .push(("description"@, json_text(fan.description))),
    )
}

/// The scoring elements, as stored.
pub open spec fn fans_payload(fans: Seq<FanDetailModel>) -> JsonModel {
    JsonModel::Array(Seq::new(fans.len(), |i: int| fan_payload(fans[i])))
}

fn fans_json(fans: &Vec<FanDetail>) -> (r: Json)
    ensures
        r@ == fans_payload(views(fans@)),
{
    let mut items: Vec<Json> = Vec::new();
    let mut i: usize = 0;
    while i < fans.len()
        invariant
            i <= fans.len(),
            items.len() == i,
            forall|j: int| 0 <= j < i ==> (#[trigger] items@[j])@ == fan_payload(fans@[j]@),
        decreases fans.len() - i,
    {
        let fan = &fans[i];
        items.push(
            JsonObject::new()
                .with("fan_code", Json::text(fan.fan_code.as_str()))
                .with("fan_name", Json::text(fan.fan_name.as_str()))
                .with("fan_value", Json::unsigned(fan.fan_value as u64))
                .with("count", Json::unsigned(fan.count as u64))
                .with("description", Json::text(fan.description.as_str()))
                .build(),
        );
        i = i + 1;
    }
    assert(json_items(items@) =~= fans_payload(views(fans@))->Array_0);
    Json::list(items)
}

/// The client's flags among the rule engine's flag numbers; other numbers are left out.
pub open spec fn client_flags(flags: Seq<i32>) -> Seq<SettlementFlag>
    decreases flags.len(),
{
    if flags.len() == 0 {
        Seq::empty()
    } else {
        let rest = client_flags(flags.drop_last());
        match client_settlement_flag_of(flags.last()) {
            Some(flag) => rest.push(flag),
            None => rest,
        }
    }
}

fn flags_of(flags: &Vec<i32>) -> (r: Vec<SettlementFlag>)
    ensures
        r@ == client_flags(flags@),
{
    let mut result: Vec<SettlementFlag> = Vec::new();
    let mut i: usize = 0;
    while i < flags.len()
        invariant
            i <= flags.len(),
            result@ == client_flags(flags@.take(i as int)),
        decreases flags.len() - i,
    {
        assert(flags@.take(i + 1).drop_last() =~= flags@.take(i as int));
        if let Some(flag) = map_engine_settlement_flag_to_client(flags[i]) {
            result.push(flag);
        }
        i = i + 1;
    }
    assert(flags@.take(i as int) =~= flags@);
    result
}

/// The wire numbers of some flags.
pub open spec fn flag_codes(flags: Seq<SettlementFlag>) -> Seq<i32> {
    Seq::new(flags.len(), |i: int| flags[i].code())
}

/// The names of some flags, as stored.
pub open spec fn flag_names(flags: Seq<SettlementFlag>) -> JsonModel {
    JsonModel::Array(Seq::new(flags.len(), |i: int| JsonModel::Text(flags[i].name())))
}

fn flag_numbers(flags: &Vec<SettlementFlag>) -> (r: Vec<i32>)
    ensures
        r@ == flag_codes(flags@),
{
    let mut codes: Vec<i32> = Vec::new();
    let mut i: usize = 0;
    while i < flags.len()
        invariant
            i <= flags.len(),
            codes.len() == i,
            forall|j: int| 0 <= j < i ==> #[trigger] codes@[j] == flags@[j].code(),
        decreases flags.len() - i,
    {
        codes.push(flags[i].as_i32());
        i = i + 1;
    }
    assert(codes@ =~= flag_codes(flags@));
    codes
}

fn flags_json(flags: &Vec<SettlementFlag>) -> (r: Json)
    ensures
        r@ == flag_names(flags@),
{
    let mut items: Vec<Json> = Vec::new();
    let mut i: usize = 0;
    while i < flags.len()
        invariant
            i <= flags.len(),
            items.len() == i,
            forall|j: int| 0 <= j < i ==> (#[trigger] items@[j])@ == JsonModel::Text(flags@[j].name()),
        decreases flags.len() - i,
    {
        items.push(Json::text(flags[i].as_str_name()));
        i = i + 1;
    }
    assert(json_items(items@) =~= flag_names(flags@)->Array_0);
    Json::list(items)
}

/// How a hand ended.
pub struct HandResult {
    pub winner_seat: Option<Seat>,
    pub discarder_seat: Option<Seat>,
    pub win_type: WinType,
    pub winning_tile: Tile,
    pub player_results: Vec<RoundPlayerResult>,
    pub fan_details: Vec<FanDetail>,
    pub settlement_flags: Vec<SettlementFlag>,
}

/// The contents of a [`HandResult`].
#[verifier::ext_equal]
pub struct HandResultModel {
    pub winner_seat: Option<Seat>,
    pub discarder_seat: Option<Seat>,
    pub win_type: WinType,
    pub winning_tile: Tile,
    pub player_results: Seq<RoundPlayerResult>,
    pub fan_details: Seq<FanDetailModel>,
    pub settlement_flags: Seq<SettlementFlag>,
}

impl View for HandResult {
    type V = HandResultModel;

    open spec fn view(&self) -> HandResultModel {
        HandResultModel {
            winner_seat: self.winner_seat,
            discarder_seat: self.discarder_seat,
            win_type: self.win_type,
            winning_tile: self.winning_tile,
            player_results: self.player_results@,
            fan_details: views(self.fan_details@),
            settlement_flags: self.settlement_flags@,
        }
    }
}

/// The result of a won hand, as the rule engine scored it.
pub open spec fn scored_result(
    winner_seat: Seat,
    discarder_seat: Option<Seat>,
    win_type: WinType,
    winning_tile: Tile,
    response: engine::CalculateScoreResponseModel,
) -> HandResultModel {
    HandResultModel {
        winner_seat: Some(winner_seat),
        discarder_seat,
        win_type,
        winning_tile,
        player_results: round_results(response.score_delta_by_seat),
        fan_details: client_fans(response.fan_details),
        settlement_flags: client_flags(response.settlement_flags),
    }
}

/// The number of a seat, or of no seat.
pub open spec fn opt_seat_code(seat: Option<Seat>) -> i32 {
    match seat {
        Some(seat) => seat.code(),
        None => Seat::Unspecified.code(),
    }
}

fn opt_seat_number(seat: Option<Seat>) -> (r: i32)
    ensures
        r == opt_seat_code(seat),
{
    match seat {
        Some(seat) => seat.as_i32(),
        None => Seat::Unspecified.as_i32(),
    }
}

impl RoomStateModel {
    /// The room with one score that the rule engine decided on.
    pub open spec fn with_score(self, delta: engine::SeatScoreDelta) -> RoomStateModel {
        match client_seat_of(delta.seat) {
            Some(seat) => match self.players_by_seat.at(seat) {
                Some(player) => RoomStateModel {
                    players_by_seat: self.players_by_seat.with(
                        seat,
                        Some(PlayerSlotModel { score: delta.final_total, ..player }),
                    ),
                    ..self
                },
                None => self,
            },
            None => self,
        }
    }

    /// The room with the scores that the rule engine decided on.
    pub open spec fn scored(self, deltas: Seq<engine::SeatScoreDelta>) -> RoomStateModel
        decreases deltas.len(),
    {
        if deltas.len() == 0 {
            self
        } else {
            self.scored(deltas.drop_last()).with_score(deltas.last())
        }
    }

    /// The hand of a seat as it is shown at the end, as a list.
    pub open spec fn revealed_at(self, seat: Seat, winner: Option<Seat>) -> Seq<RevealedHandModel> {
        match self.player_round_state.at(seat) {
            Some(hand) => seq![
                RevealedHandModel {
                    seat: seat.code(),
                    concealed_tiles: tile_codes(private_tiles(hand)),
                    melds: hand.melds,
                    flowers: tile_codes(hand.flowers),
                    winner: winner == Some(seat),
                },
            ],
            None => Seq::empty(),
        }
    }

    /// The hands as they are shown at the end, in the order of play.
    pub open spec fn revealed(self, winner: Option<Seat>) -> Seq<RevealedHandModel> {
        self.revealed_at(Seat::East, winner) + self.revealed_at(Seat::South, winner)
            + self.revealed_at(Seat::West, winner) + self.revealed_at(Seat::North, winner)
    }

    /// The frame that settles a hand.
    pub open spec fn settlement_frame(self, event_seq: u64, result: HandResultModel) -> ServerFrameModel {
        ServerFrameModel {
            event_seq,
            payload: Some(
                ServerPayloadModel::RoundSettlement(
                    RoundSettlementModel {
                        room_id: self.room_id,
                        match_id: self.match_id,
                        round_id: self.current_round_id(),
                        prevailing_wind: self.prevailing_wind.code(),
                        hand_number: self.hand_number,
                        dealer_seat: self.dealer_seat.code(),
                        win_type: result.win_type.code(),
                        winner_seat: opt_seat_code(result.winner_seat),
                        discarder_seat: opt_seat_code(result.discarder_seat),
                        winning_tile: result.winning_tile.code(),
                        player_results: result.player_results,
                        fan_details: result.fan_details,
                        revealed_hands: self.revealed(result.winner_seat),
                        settlement_flags: flag_codes(result.settlement_flags),
                        wall_tiles_remaining: self.wall_tiles_remaining,
                    },
                ),
            ),
        }
    }

    /// The stored payload of a settlement.
    pub open spec fn settlement_payload(self, event_seq: u64, result: HandResultModel) -> JsonModel {
        JsonModel::Object(
            no_members()
                .push(("room_id"@, json_text(self.room_id)))
                .push(("match_id"@, json_text(self.match_id)))
                .push(("round_id"@, json_text(self.current_round_id())))
                .push(("event_seq"@, JsonModel::Unsigned(event_seq)))
                .push(("winner_seat"@, opt_seat(result.winner_seat)))
                .push(("discarder_seat"@, opt_seat(result.discarder_seat)))
                .push(("win_type"@, json_text(result.win_type.name())))
                .push(("winning_tile"@, json_text(result.winning_tile.name())))
                .push(("player_results"@, results_payload(result.player_results)))
                .push(("fan_details"@, fans_payload(result.fan_details)))
                .push(("settlement_flags"@, flag_names(result.settlement_flags)))
                .push(("wall_tiles_remaining"@, JsonModel::Unsigned(self.wall_tiles_remaining as u64))),
        )
    }

    /// The settlement of a hand, stored and announced under a number of its own.
    pub open spec fn settlement_announced(self, result: HandResultModel) -> RoomStateModel {
        let event_seq = self.next_event_seq;
        let numbered = self.numbered();
        numbered.stored(
            "round_settlement"@,
            event_seq,
            result.winner_seat,
            numbered.settlement_payload(event_seq, result),
        ).sent_to_all(numbered.settlement_frame(event_seq, result))
    }

    /// The unchanged score of the player of a seat, as a list.
    pub open spec fn unchanged_at(self, seat: Seat) -> Seq<RoundPlayerResult> {
        match self.players_by_seat.at(seat) {
            Some(player) => seq![
                RoundPlayerResult {
                    seat: seat.code(),
                    round_delta: 0,
                    total_score_after: player.score,
                },
            ],
            None => Seq::empty(),
        }
    }

    /// The result of a hand that nobody won: no score changes.
    pub open spec fn drawn_game_result(self) -> HandResultModel {
        HandResultModel {
            winner_seat: None,
            discarder_seat: None,
            win_type: WinType::Unspecified,
            winning_tile: Tile::Unspecified,
            player_results: self.unchanged_at(Seat::East) + self.unchanged_at(Seat::South)
                + self.unchanged_at(Seat::West) + self.unchanged_at(Seat::North),
            fan_details: Seq::empty(),
            settlement_flags: seq![SettlementFlag::DrawGame],
        }
    }

    /// Whether the tally of a winner has room for one more win.
    pub open spec fn can_tally(self, winner: Option<Seat>) -> bool {
        match winner {
            Some(seat) => match self.match_runtime.player_stats.at(seat) {
                Some(stats) => stats.rounds_won < u32::MAX && stats.self_draw_wins < u32::MAX,
                None => true,
            },
            None => true,
        }
    }

    /// The room with the outcome of a hand in the tally of the match.
    pub open spec fn with_outcome(self, winner: Option<Seat>, self_draw: bool) -> RoomStateModel {
        let stats = self.match_runtime.player_stats;
        RoomStateModel {
            match_runtime: MatchRuntimeStateModel {
                last_round_winner: winner,
                last_round_self_draw: self_draw,
                last_match_settlement: None,
                player_stats: match winner {
                    None => stats,
                    Some(seat) => {
                        let tally = match stats.at(seat) {
                            Some(tally) => tally,
                            None => no_wins(),
                        };
                        stats.with(
                            seat,
                            Some(
                                MatchPlayerStats {
                                    rounds_won: (tally.rounds_won + 1) as u32,
                                    self_draw_wins: if self_draw {
                                        (tally.self_draw_wins + 1) as u32
                                    } else {
                                        tally.self_draw_wins
                                    },
                                },
                            ),
                        )
                    },
                },
                ..self.match_runtime
            },
            ..self
        }
    }

    /// The room with the end of the settlement scheduled. A load test moves on by itself.
    pub open spec fn with_transition_scheduled(self) -> RoomStateModel {
        if self.runtime_mode is Production {
            self.with_output(RoomOutputModel::SchedulePostRound(self.hand_number, POST_ROUND_DELAY_MS))
        } else {
            self
        }
    }

    /// The room after a hand that nobody won.
    pub open spec fn drawn_game_settled(self) -> RoomStateModel {
        let ended = self.without_window().in_phase(GamePhase::RoundSettlement).with_outcome(
            None,
            false,
        );
        ended.settlement_announced(ended.drawn_game_result()).with_transition_scheduled()
    }
}

impl RoomState {
    fn apply_score_delta(&mut self, delta: engine::SeatScoreDelta)
        ensures
            final(self)@ == old(self)@.with_score(delta),
    {
        if let Some(seat) = map_engine_seat_to_client(delta.seat) {
            if let Some(player) = self.players_by_seat.get_mut(seat) {
                player.score = delta.final_total;
            }
        }
    }

    pub fn apply_score_deltas(&mut self, score_deltas: &Vec<engine::SeatScoreDelta>)
        ensures
            final(self)@ == old(self)@.scored(score_deltas@),
    {
        let ghost before = self@;
        let mut i: usize = 0;
        while i < score_deltas.len()
            invariant
                i <= score_deltas.len(),
                self@ == before.scored(score_deltas@.take(i as int)),
            decreases score_deltas.len() - i,
        {
            assert(score_deltas@.take(i + 1).drop_last() =~= score_deltas@.take(i as int));
            self.apply_score_delta(score_deltas[i]);
            i = i + 1;
        }
        assert(score_deltas@.take(i as int) =~= score_deltas@);
    }

    fn push_revealed(&self, hands: &mut Vec<RevealedHand>, seat: Seat, winner: Option<Seat>)
        ensures
            views(final(hands)@) == views(old(hands)@) + self@.revealed_at(seat, winner),
    {
        let ghost before = hands@;
        if let Some(hand) = self.player_round_state.get(seat) {
            let merged = merged_private_tiles(hand);
            let revealed = RevealedHand {
                seat: seat.as_i32(),
                concealed_tiles: codes_of(&merged),
                melds: hand.melds.clone(),
                flowers: codes_of(&hand.flowers),
                winner: winner == Some(seat),
            };
            assert(views(revealed.melds@) =~= views(hand.melds@));
            hands.push(revealed);
        }
        assert(views(hands@) =~= views(before) + self@.revealed_at(seat, winner));
    }

    fn announce_settlement(&mut self, result: HandResult)
        requires
            old(self)@.can_number(1),
        ensures
            final(self)@ == old(self)@.settlement_announced(result@),
    {
        let event_seq: u64 = self.allocate_event_seq();
        let payload = JsonObject::new()
            .with("room_id", Json::text(self.room_id.as_str()))
            .with("match_id", Json::text(self.match_id.as_str()))
            .with("round_id", Json::text(self.round_id().as_str()))
            .with("event_seq", Json::unsigned(event_seq))
            .with("winner_seat", opt_seat_json(result.winner_seat))
            .with("discarder_seat", opt_seat_json(result.discarder_seat))
            .with("win_type", Json::text(result.win_type.as_str_name()))
            .with("winning_tile", Json::text(result.winning_tile.as_str_name()))
            .with("player_results", results_json(&result.player_results))
            .with("fan_details", fans_json(&result.fan_details))
            .with("settlement_flags", flags_json(&result.settlement_flags))
            .with("wall_tiles_remaining", Json::unsigned(self.wall_tiles_remaining as u64))
            .build();
        let mut revealed_hands: Vec<RevealedHand> = Vec::new();
        self.push_revealed(&mut revealed_hands, Seat::East, result.winner_seat);
        self.push_revealed(&mut revealed_hands, Seat::South, result.winner_seat);
        self.push_revealed(&mut revealed_hands, Seat::West, result.winner_seat);
        self.push_revealed(&mut revealed_hands, Seat::North, result.winner_seat);
        assert(views(revealed_hands@) =~= self@.revealed(result.winner_seat));
        let winner_seat = result.winner_seat;
        let frame = ServerFrame {
            event_seq,
            payload: Some(
                ServerPayload::RoundSettlement(
                    RoundSettlement {
                        room_id: self.room_id.clone(),
                        match_id: self.match_id.clone(),
                        round_id: self.round_id(),
                        prevailing_wind: self.prevailing_wind.as_i32(),
                        hand_number: self.hand_number,
                        dealer_seat: self.dealer_seat.as_i32(),
                        win_type: result.win_type.as_i32(),
                        winner_seat: opt_seat_number(result.winner_seat),
                        discarder_seat: opt_seat_number(result.discarder_seat),
                        winning_tile: result.winning_tile.as_i32(),
                        settlement_flags: flag_numbers(&result.settlement_flags),
                        player_results: result.player_results,
                        fan_details: result.fan_details,
                        revealed_hands,
                        wall_tiles_remaining: self.wall_tiles_remaining,
                    },
                ),
            ),
        };
        self.persist_match_event("round_settlement", event_seq, winner_seat, payload);
        self.broadcast_action_frame(frame);
    }

    pub fn broadcast_round_settlement(
        &mut self,
        winner_seat: Seat,
        discarder_seat: Option<Seat>,
        win_type: WinType,
        winning_tile: Tile,
        response: &engine::CalculateScoreResponse,
    )
        requires
            old(self)@.can_number(1),
        ensures
            final(self)@ == old(self)@.settlement_announced(
                scored_result(winner_seat, discarder_seat, win_type, winning_tile, response@),
            ),
    {
        let result = HandResult {
            winner_seat: Some(winner_seat),
            discarder_seat,
            win_type,
            winning_tile,
            player_results: results_of(&response.score_delta_by_seat),
            fan_details: fans_of(&response.fan_details),
            settlement_flags: flags_of(&response.settlement_flags),
        };
        self.announce_settlement(result);
    }

    fn push_unchanged(&self, results: &mut Vec<RoundPlayerResult>, seat: Seat)
        ensures
            final(results)@ == old(results)@ + self@.unchanged_at(seat),
    {
        let ghost before = results@;
        if let Some(player) = self.players_by_seat.get(seat) {
            results.push(
                RoundPlayerResult {
                    seat: seat.as_i32(),
                    round_delta: 0,
                    total_score_after: player.score,
                },
            );
        }
        assert(results@ =~= before + self@.unchanged_at(seat));
    }

    pub fn broadcast_draw_round_settlement(&mut self)
        requires
            old(self)@.can_number(1),
        ensures
            final(self)@ == old(self)@.settlement_announced(old(self)@.drawn_game_result()),
    {
        broadcast use lemma_views_empty;

        let mut player_results: Vec<RoundPlayerResult> = Vec::new();
        self.push_unchanged(&mut player_results, Seat::East);
        self.push_unchanged(&mut player_results, Seat::South);
        self.push_unchanged(&mut player_results, Seat::West);
        self.push_unchanged(&mut player_results, Seat::North);
        let mut settlement_flags: Vec<SettlementFlag> = Vec::new();
        settlement_flags.push(SettlementFlag::DrawGame);
        let result = HandResult {
            winner_seat: None,
            discarder_seat: None,
            win_type: WinType::Unspecified,
            winning_tile: Tile::Unspecified,
            player_results,
            fan_details: Vec::new(),
            settlement_flags,
        };
        assert(result@ =~= self@.drawn_game_result());
        self.announce_settlement(result);
    }

    pub fn record_round_outcome(&mut self, winner_seat: Option<Seat>, self_draw: bool)
        requires
            old(self)@.can_tally(winner_seat),
        ensures
            final(self)@ == old(self)@.with_outcome(winner_seat, self_draw),
    {
        self.match_runtime.last_round_winner = winner_seat;
        self.match_runtime.last_round_self_draw = self_draw;
        self.match_runtime.last_match_settlement = None;
        if let Some(seat) = winner_seat {
            let mut tally = match self.match_runtime.player_stats.get(seat) {
                Some(tally) => *tally,
                None => MatchPlayerStats { rounds_won: 0, self_draw_wins: 0 },
            };
            tally.rounds_won = tally.rounds_won + 1;
            if self_draw {
                tally.self_draw_wins = tally.self_draw_wins + 1;
            }
            self.match_runtime.player_stats.set(seat, Some(tally));
        }
    }

    pub fn schedule_post_round_transition(&mut self)
        ensures
            final(self)@ == old(self)@.with_transition_scheduled(),
    {
        if self.runtime_mode == RoomRuntimeMode::Production {
            let hand_number: u32 = self.hand_number;
            self.push_output(RoomOutput::SchedulePostRound(hand_number, POST_ROUND_DELAY_MS));
        }
    }

    pub fn settle_draw_game(&mut self)
        requires
            old(self)@.can_number(1),
        ensures
            final(self)@ == old(self)@.drawn_game_settled(),
    {
        self.close_claim_window();
        self.phase = GamePhase::RoundSettlement;
        self.record_round_outcome(None, false);
        self.broadcast_draw_round_settlement();
        self.schedule_post_round_transition();
    }
}

} // verus!
