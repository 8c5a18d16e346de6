//! From hand to hand, and the end of a match.

use vstd::prelude::*;

use crate::collections::{group_seat_map, views, SeatMap};
use crate::json::{json_int, json_items, json_text, no_members, Json, JsonModel, JsonObject};
use crate::proto::client::{
    FinalStanding, FinalStandingModel, GamePhase, MatchSettlement, MatchSettlementModel, Seat,
    ServerFrame, ServerFrameModel, ServerPayload, ServerPayloadModel, SyncReason,
};
use crate::room::basics::no_wins;
use crate::room::hand::{next_seat, seat_after, seat_rank, seat_sort_key};
use crate::room::payloads::seat_name;
use crate::room::rounds::{lemma_next_wall_len, lemma_round_started_keeps};
use crate::room::state::{
    MatchPlayerStats, MatchRuntimeStateModel, MatchSettlementSummary, MatchSettlementSummaryModel,
    RoomState, RoomStateModel,
};

verus! {

broadcast use group_seat_map;

/// Where a match goes after a settled hand.
#[derive(Clone, Copy, Debug, PartialEq, Eq, Structural)]
pub struct RoundTransition {
    pub next_prevailing_wind: Seat,
    pub next_dealer_seat: Seat,
    pub next_hand_number: u32,
    pub next_dealer_streak: u32,
    pub match_finished: bool,
}

/// The frame that settles a match.
pub open spec fn match_settlement_frame(
    room_id: Seq<char>,
    match_id: Seq<char>,
    summary: MatchSettlementSummaryModel,
) -> ServerFrameModel {
    ServerFrameModel {
        event_seq: summary.event_seq,
        payload: Some(
            ServerPayloadModel::MatchSettlement(
                MatchSettlementModel {
                    room_id,
                    match_id,
                    standings: summary.standings,
                    finished_at_unix_ms: summary.finished_at_unix_ms,
                },
            ),
        ),
    }
}

/// A player's place, as stored.
pub open spec fn standing_payload(standing: FinalStandingModel) -> JsonModel {
    JsonModel::Object(
        no_members()
            .push(("seat"@, json_text(seat_name(standing.seat))))
            .push(("user_id"@, json_text(standing.user_id)))
            .push(("display_name"@, json_text(standing.display_name)))
            .push(("final_score"@, json_int(standing.final_score as int)))
            .push(("rank"@, JsonModel::Unsigned(standing.rank as u64)))
            .push(("rounds_won"@, JsonModel::Unsigned(standing.rounds_won as u64)))
            .push(("self_draw_wins"@, JsonModel::Unsigned(standing.self_draw_wins as u64))),
    )
}

/// The places of all players, as stored.
pub open spec fn standings_payload(standings: Seq<FinalStandingModel>) -> JsonModel {
    JsonModel::Array(Seq::new(standings.len(), |i: int| standing_payload(standings[i])))
}

fn standings_json(standings: &Vec<FinalStanding>) -> (r: Json)
    ensures
        r@ == standings_payload(views(standings@)),
{
    let mut items: Vec<Json> = Vec::new();
    let mut i: usize = 0;
    while i < standings.len()
        invariant
            i <= standings.len(),
            items.len() == i,
            forall|j: int| 0 <= j < i ==> (#[trigger] items@[j])@ == standing_payload(standings@[j]@),
        decreases standings.len() - i,
    {
        let standing = &standings[i];
        let seat = match Seat::from_i32(standing.seat) {
            Some(seat) => seat.as_str_name(),
            None => Seat::Unspecified.as_str_name(),
        };
        items.push(
            JsonObject::new()
                .with("seat", Json::text(seat))
                .with("user_id", Json::text(standing.user_id.as_str()))
                .with("display_name", Json::text(standing.display_name.as_str()))
                .with("final_score", Json::integer(standing.final_score))
                .with("rank", Json::unsigned(standing.rank as u64))
                .with("rounds_won", Json::unsigned(standing.rounds_won as u64))
                .with("self_draw_wins", Json::unsigned(standing.self_draw_wins as u64))
                .build(),
        );
        i = i + 1;
    }
    assert(json_items(items@) =~= standings_payload(views(standings@))->Array_0);
    Json::list(items)
}

impl RoomStateModel {
    /// Where the match goes after a settled hand. A dealer who won keeps the deal; the match ends
    /// with its last hand.
    pub open spec fn transition(self, settled_hand_number: u32) -> RoundTransition {
        let dealer_won = self.match_runtime.last_round_winner == Some(self.dealer_seat);
        RoundTransition {
            next_prevailing_wind: Seat::East,
            next_dealer_seat: if dealer_won {
                self.dealer_seat
            } else {
                seat_after(self.dealer_seat)
            },
            next_hand_number: if settled_hand_number == u32::MAX {
                u32::MAX
            } else {
                (settled_hand_number + 1) as u32
            },
            next_dealer_streak: if dealer_won {
                (self.dealer_streak + 1) as u32
            } else {
                0
            },
            match_finished: settled_hand_number >= self.match_runtime.total_hands,
        }
    }

    /// Whether the player of one seat finishes ahead of the player of another: by score, and where
    /// scores are equal by the order of play.
    pub open spec fn ahead(self, seat: Seat, other: Seat) -> bool {
        match (self.players_by_seat.at(seat), self.players_by_seat.at(other)) {
            (Some(player), Some(rival)) => player.score > rival.score || (player.score
                == rival.score && seat_rank(seat) < seat_rank(other)),
            _ => false,
        }
    }

    /// How many players finish ahead of the player of a seat.
    pub open spec fn players_ahead(self, seat: Seat) -> nat {
        (if self.ahead(Seat::East, seat) {
            1nat
        } else {
            0nat
        }) + (if self.ahead(Seat::South, seat) {
            1nat
        } else {
            0nat
        }) + (if self.ahead(Seat::West, seat) {
            1nat
        } else {
            0nat
        }) + (if self.ahead(Seat::North, seat) {
            1nat
        } else {
            0nat
        })
    }

    /// The player of a seat, if that player finishes in the given place, as a list.
    pub open spec fn placed_at(self, seat: Seat, place: nat) -> Seq<FinalStandingModel> {
        match self.players_by_seat.at(seat) {
            Some(player) => if self.players_ahead(seat) == place {
                let stats = match self.match_runtime.player_stats.at(seat) {
                    Some(stats) => stats,
                    None => no_wins(),
                };
                seq![
                    FinalStandingModel {
                        seat: seat.code(),
                        user_id: player.user_id,
                        display_name: player.display_name,
                        final_score: player.score,
                        rank: (place + 1) as u32,
                        rounds_won: stats.rounds_won,
                        self_draw_wins: stats.self_draw_wins,
                    },
                ]
            } else {
                Seq::empty()
            },
            None => Seq::empty(),
        }
    }

    /// The player who finishes in the given place, as a list.
    pub open spec fn in_place(self, place: nat) -> Seq<FinalStandingModel> {
        self.placed_at(Seat::East, place) + self.placed_at(Seat::South, place) + self.placed_at(
            Seat::West,
            place,
        ) + self.placed_at(Seat::North, place)
    }

    /// The final table: everybody in the place given by how many finish ahead.
    pub open spec fn final_standings(self) -> Seq<FinalStandingModel> {
        self.in_place(0) + self.in_place(1) + self.in_place(2) + self.in_place(3)
    }

    /// The outcome of the match.
    pub open spec fn match_summary(self, now_ms: u64) -> MatchSettlementSummaryModel {
        MatchSettlementSummaryModel {
            event_seq: self.next_event_seq,
            standings: self.final_standings(),
            finished_at_unix_ms: now_ms,
        }
    }

    /// The stored payload of a finished match.
    pub open spec fn match_payload(self, summary: MatchSettlementSummaryModel) -> JsonModel {
        JsonModel::Object(
            no_members()
                .push(("room_id"@, json_text(self.room_id)))
                .push(("match_id"@, json_text(self.match_id)))
                .push(("event_seq"@, JsonModel::Unsigned(summary.event_seq)))
                .push((
                    "final_result"@,
                    JsonModel::Object(
                        no_members()
                            .push(("finished_at_unix_ms"@, JsonModel::Unsigned(summary.finished_at_unix_ms)))
                            .push(("standings"@, standings_payload(summary.standings))),
                    ),
                )),
        )
    }

    /// The outcome of the match, stored and announced.
    pub open spec fn match_announced(self, summary: MatchSettlementSummaryModel) -> RoomStateModel {
        self.stored(
            "match_settlement"@,
            summary.event_seq,
            None,
            self.match_payload(summary),
        ).sent_to_all(match_settlement_frame(self.room_id, self.match_id, summary))
    }

    /// The room with so many hands completed.
    pub open spec fn with_completed(self, hands: u32) -> RoomStateModel {
        RoomStateModel {
            match_runtime: MatchRuntimeStateModel { completed_hands: hands, ..self.match_runtime },
            ..self
        }
    }

    /// The finished match.
    pub open spec fn match_finished(self, now_ms: u64) -> RoomStateModel {
        let ended = self.in_phase(GamePhase::MatchSettlement);
        let summary = ended.match_summary(now_ms);
        let announced = ended.numbered().match_announced(summary);
        RoomStateModel {
            match_runtime: MatchRuntimeStateModel {
                last_match_settlement: Some(summary),
                ..announced.match_runtime
            },
            ..announced
        }
    }

    /// The room set up for the hand that a transition leads to.
    pub open spec fn moved_on(self, transition: RoundTransition) -> RoomStateModel {
        RoomStateModel {
            prevailing_wind: transition.next_prevailing_wind,
            dealer_seat: transition.next_dealer_seat,
            current_turn_seat: transition.next_dealer_seat,
            hand_number: transition.next_hand_number,
            dealer_streak: transition.next_dealer_streak,
            match_runtime: MatchRuntimeStateModel {
                last_round_winner: None,
                last_round_self_draw: false,
                ..self.match_runtime
            },
            ..self
        }
    }

    /// The room after the settlement of a hand was on show long enough. A command for another hand,
    /// or for a hand that is not being settled, changes nothing.
    #[verifier::opaque]
    pub open spec fn advanced(self, settled_hand_number: u32, now_ms: u64) -> RoomStateModel {
        if self.phase != GamePhase::RoundSettlement || self.hand_number != settled_hand_number {
            self
        } else {
            let transition = self.transition(settled_hand_number);
            let counted = self.with_completed(settled_hand_number);
            if transition.match_finished {
                counted.match_finished(now_ms)
            } else {
                let next = counted.moved_on(transition);
                let (started, result) = next.round_started(next.next_wall(now_ms));
                match result {
                    Err(_) => started.in_phase(GamePhase::RoundSettlement),
                    Ok(_) => started.synced(SyncReason::RoundStart, now_ms),
                }
            }
        }
    }
}

impl RoomState {
    pub fn build_round_transition(&self, settled_hand_number: u32) -> (r: RoundTransition)
        requires
            self@.dealer_streak < u32::MAX,
        ensures
            r == self@.transition(settled_hand_number),
    {
        let dealer_won: bool = self.match_runtime.last_round_winner == Some(self.dealer_seat);
        RoundTransition {
            next_prevailing_wind: Seat::East,
            next_dealer_seat: if dealer_won {
                self.dealer_seat
            } else {
                next_seat(self.dealer_seat)
            },
            next_hand_number: settled_hand_number.saturating_add(1),
            next_dealer_streak: if dealer_won {
                self.dealer_streak + 1
            } else {
                0
            },
            match_finished: settled_hand_number >= self.match_runtime.total_hands,
        }
    }

    fn is_ahead(&self, seat: Seat, other: Seat) -> (r: bool)
        ensures
            r == self@.ahead(seat, other),
    {
        match self.players_by_seat.get(seat) {
            Some(player) => match self.players_by_seat.get(other) {
                Some(rival) => player.score > rival.score || (player.score == rival.score
                    && seat_sort_key(seat) < seat_sort_key(other)),
                None => false,
            },
            None => false,
        }
    }

    fn count_ahead(&self, seat: Seat) -> (r: u32)
        ensures
            r == self@.players_ahead(seat),
            r <= 4,
    {
        let mut count: u32 = 0;
        if self.is_ahead(Seat::East, seat) {
            count = count + 1;
        }
        if self.is_ahead(Seat::South, seat) {
            count = count + 1;
        }
        if self.is_ahead(Seat::West, seat) {
            count = count + 1;
        }
        if self.is_ahead(Seat::North, seat) {
            count = count + 1;
        }
        count
    }

    fn push_placed(&self, standings: &mut Vec<FinalStanding>, seat: Seat, place: u32)
        requires
            place < 4,
        ensures
            views(final(standings)@) == views(old(standings)@) + self@.placed_at(
                seat,
                place as nat,
            ),
    {
        let ghost before = standings@;
        if let Some(player) = self.players_by_seat.get(seat) {
            if self.count_ahead(seat) == place {
                let stats = match self.match_runtime.player_stats.get(seat) {
                    Some(stats) => *stats,
                    None => MatchPlayerStats { rounds_won: 0, self_draw_wins: 0 },
                };
                standings.push(
                    FinalStanding {
                        seat: seat.as_i32(),
                        user_id: player.user_id.clone(),
                        display_name: player.display_name.clone(),
                        final_score: player.score,
                        rank: place + 1,
                        rounds_won: stats.rounds_won,
                        self_draw_wins: stats.self_draw_wins,
                    },
                );
            }
        }
        assert(views(standings@) =~= views(before) + self@.placed_at(seat, place as nat));
    }

    fn push_place(&self, standings: &mut Vec<FinalStanding>, place: u32)
        requires
            place < 4,
        ensures
            views(final(standings)@) == views(old(standings)@) + self@.in_place(place as nat),
    {
        let ghost before = standings@;
        self.push_placed(standings, Seat::East, place);
        self.push_placed(standings, Seat::South, place);
        self.push_placed(standings, Seat::West, place);
        self.push_placed(standings, Seat::North, place);
        assert(views(standings@) =~= views(before) + self@.in_place(place as nat));
    }

    pub fn build_match_settlement_summary(&mut self, now_ms: u64) -> (r: MatchSettlementSummary)
        requires
            old(self)@.can_number(1),
        ensures
            r@ == old(self)@.match_summary(now_ms),
            final(self)@ == old(self)@.numbered(),
    {
        let mut standings: Vec<FinalStanding> = Vec::new();
        self.push_place(&mut standings, 0);
        self.push_place(&mut standings, 1);
        self.push_place(&mut standings, 2);
        self.push_place(&mut standings, 3);
        assert(views(standings@) =~= self@.final_standings());
        MatchSettlementSummary {
            event_seq: self.allocate_event_seq(),
            standings,
            finished_at_unix_ms: now_ms,
        }
    }

    pub(crate) fn build_match_settlement_frame(&self, summary: &MatchSettlementSummary) -> (r: ServerFrame)
        ensures
            r@ == match_settlement_frame(self@.room_id, self@.match_id, summary@),
    {
        let standings = summary.standings.clone();
        assert(views(standings@) =~= views(summary.standings@));
        ServerFrame {
            event_seq: summary.event_seq,
            payload: Some(
                ServerPayload::MatchSettlement(
                    MatchSettlement {
                        room_id: self.room_id.clone(),
                        match_id: self.match_id.clone(),
                        standings,
                        finished_at_unix_ms: summary.finished_at_unix_ms,
                    },
                ),
            ),
        }
    }

    pub fn broadcast_match_settlement(&mut self, summary: &MatchSettlementSummary)
        ensures
            final(self)@ == old(self)@.match_announced(summary@),
    {
        let final_result = JsonObject::new()
            .with("finished_at_unix_ms", Json::unsigned(summary.finished_at_unix_ms))
            .with("standings", standings_json(&summary.standings))
            .build();
        let payload = JsonObject::new()
            .with("room_id", Json::text(self.room_id.as_str()))
            .with("match_id", Json::text(self.match_id.as_str()))
            .with("event_seq", Json::unsigned(summary.event_seq))
            .with("final_result", final_result)
            .build();
        let frame = self.build_match_settlement_frame(summary);
        self.persist_match_event("match_settlement", summary.event_seq, None, payload);
        self.broadcast_action_frame(frame);
    }

    fn finish_match(&mut self, now_ms: u64)
        requires
            old(self)@.can_number(1),
        ensures
            final(self)@ == old(self)@.match_finished(now_ms),
    {
        self.phase = GamePhase::MatchSettlement;
        let summary = self.build_match_settlement_summary(now_ms);
        self.broadcast_match_settlement(&summary);
        self.match_runtime.last_match_settlement = Some(summary);
    }

    /// Moves on once the settlement of a hand was on show long enough.
    pub fn advance_after_round_settlement(&mut self, settled_hand_number: u32, now_ms: u64)
        requires
            old(self)@.can_number(2),
            old(self)@.wall_fits(),
            old(self)@.dealer_seat != Seat::Unspecified,
            old(self)@.dealer_streak < u32::MAX,
        ensures
            final(self)@ == old(self)@.advanced(settled_hand_number, now_ms),
    {
        reveal(RoomStateModel::advanced);
        if self.phase != GamePhase::RoundSettlement || self.hand_number != settled_hand_number {
            return;
        }
        let transition = self.build_round_transition(settled_hand_number);
        self.match_runtime.completed_hands = settled_hand_number;
        if transition.match_finished {
            self.finish_match(now_ms);
            return;
        }
        self.prevailing_wind = transition.next_prevailing_wind;
        self.dealer_seat = transition.next_dealer_seat;
        self.current_turn_seat = transition.next_dealer_seat;
        self.hand_number = transition.next_hand_number;
        self.dealer_streak = transition.next_dealer_streak;
        self.match_runtime.last_round_winner = None;
        self.match_runtime.last_round_self_draw = false;
        proof {
            lemma_next_wall_len(self@, now_ms);
            lemma_round_started_keeps(self@, self@.next_wall(now_ms));
        }
        match self.start_round(now_ms) {
            Err(_) => {
                self.phase = GamePhase::RoundSettlement;
            },
            Ok(_) => {
                self.broadcast_sync_state(SyncReason::RoundStart, now_ms);
            },
        }
    }
}

/// Whether the player of a seat finishes in a place.
spec fn finishes(room: RoomStateModel, seat: Seat, place: nat) -> bool {
    room.players_by_seat.at(seat) is Some && room.players_ahead(seat) == place
}

spec fn one_if(condition: bool) -> nat {
    if condition {
        1
    } else {
        0
    }
}

/// How many players are seated.
pub open spec fn seated_count(room: RoomStateModel) -> nat {
    (if room.players_by_seat.east is Some {
        1nat
    } else {
        0nat
    }) + (if room.players_by_seat.south is Some {
        1nat
    } else {
        0nat
    }) + (if room.players_by_seat.west is Some {
        1nat
    } else {
        0nat
    }) + (if room.players_by_seat.north is Some {
        1nat
    } else {
        0nat
    })
}

proof fn lemma_one_per_place(room: RoomStateModel, place: nat)
    ensures
        one_if(finishes(room, Seat::East, place)) + one_if(finishes(room, Seat::South, place))
            + one_if(finishes(room, Seat::West, place)) + one_if(finishes(room, Seat::North, place))
            == one_if(place < seated_count(room)),
{
    reveal(SeatMap::at);
}

proof fn lemma_ahead_has_score(room: RoomStateModel, seat: Seat, other: Seat)
    requires
        seat != Seat::Unspecified,
        other != Seat::Unspecified,
        room.players_by_seat.at(seat) is Some,
        room.players_by_seat.at(other) is Some,
        room.players_ahead(seat) < room.players_ahead(other),
    ensures
        room.ahead(seat, other),
        room.players_by_seat.at(seat)->0.score >= room.players_by_seat.at(other)->0.score,
        room.players_by_seat.at(seat)->0.score == room.players_by_seat.at(other)->0.score
            ==> seat.code() < other.code(),
{
}

proof fn lemma_place_holder(room: RoomStateModel, place: nat) -> (seat: Seat)
    requires
        place < 4,
    ensures
        place < seated_count(room) ==> seat != Seat::Unspecified && finishes(room, seat, place)
            && room.in_place(place) == room.placed_at(seat, place) && room.in_place(place).len()
            == 1,
        place >= seated_count(room) ==> room.in_place(place).len() == 0,
{
    lemma_one_per_place(room, place);
    let seat = if finishes(room, Seat::East, place) {
        Seat::East
    } else if finishes(room, Seat::South, place) {
        Seat::South
    } else if finishes(room, Seat::West, place) {
        Seat::West
    } else {
        Seat::North
    };
    if place < seated_count(room) {
        assert(room.in_place(place) =~= room.placed_at(seat, place));
    }
    seat
}

/// The final table has one line for each seated player, ranked from one without gaps, and never puts
/// a lower score above a higher one; of equal scores the one comes first whose seat does.
pub proof fn law_standings_are_ranked(room: RoomStateModel)
    ensures
        room.final_standings().len() == seated_count(room),
        forall|i: int|
            0 <= i < room.final_standings().len() ==> (#[trigger] room.final_standings()[i]).rank
                == i + 1,
        forall|i: int, j: int|
            0 <= i < j < room.final_standings().len() ==> (
            #[trigger] room.final_standings()[i]).final_score >= (
            #[trigger] room.final_standings()[j]).final_score,
        forall|i: int, j: int|
            0 <= i < j < room.final_standings().len() && (
            #[trigger] room.final_standings()[i]).final_score == (
            #[trigger] room.final_standings()[j]).final_score ==> room.final_standings()[i].seat
                < room.final_standings()[j].seat,
{
    let standings = room.final_standings();
    let s0 = lemma_place_holder(room, 0);
    let s1 = lemma_place_holder(room, 1);
    let s2 = lemma_place_holder(room, 2);
    let s3 = lemma_place_holder(room, 3);
    let holders = seq![s0, s1, s2, s3];
    assert forall|i: int| 0 <= i < standings.len() implies #[trigger] standings[i]
        == room.placed_at(holders[i], i as nat)[0] && finishes(room, holders[i], i as nat) by {
        if i == 0 {
        } else if i == 1 {
        } else if i == 2 {
        } else {
        }
    }
    assert forall|i: int, j: int| 0 <= i < j < standings.len() implies (
    #[trigger] standings[i]).final_score >= (#[trigger] standings[j]).final_score && (
    standings[i].final_score == standings[j].final_score ==> standings[i].seat
        < standings[j].seat) by {
        lemma_ahead_has_score(room, holders[i], holders[j]);
    }
}

/// Whether a line of the final table tells of the player of a seat: who it is, the score, and how
/// often they won.
pub open spec fn tells_of(room: RoomStateModel, line: FinalStandingModel, seat: Seat) -> bool {
    &&& room.players_by_seat.at(seat) matches Some(player) && line.user_id == player.user_id
        && line.display_name == player.display_name && line.final_score == player.score
    &&& line.seat == seat.code()
    &&& match room.match_runtime.player_stats.at(seat) {
        Some(stats) => line.rounds_won == stats.rounds_won && line.self_draw_wins
            == stats.self_draw_wins,
        None => line.rounds_won == 0 && line.self_draw_wins == 0,
    }
}

/// Whether a line of the final table tells of some seated player.
pub open spec fn tells_of_somebody(room: RoomStateModel, line: FinalStandingModel) -> bool {
    exists|seat: Seat| seat != Seat::Unspecified && #[trigger] tells_of(room, line, seat)
}

/// The line at a place of the final table tells of whoever finishes there.
proof fn lemma_line(room: RoomStateModel, place: nat) -> (seat: Seat)
    requires
        place < seated_count(room),
    ensures
        place < room.final_standings().len(),
        seat != Seat::Unspecified,
        finishes(room, seat, place),
        tells_of(room, room.final_standings()[place as int], seat),
{
    let standings = room.final_standings();
    let s0 = lemma_place_holder(room, 0);
    let s1 = lemma_place_holder(room, 1);
    let s2 = lemma_place_holder(room, 2);
    let s3 = lemma_place_holder(room, 3);
    let seat = if place == 0 {
        s0
    } else if place == 1 {
        s1
    } else if place == 2 {
        s2
    } else {
        s3
    };
    assert(standings[place as int] == room.placed_at(seat, place)[0]);
    seat
}

/// Whoever is seated finishes among the seated, and nobody else in the same place.
proof fn lemma_finishes_alone(room: RoomStateModel, seat: Seat, other: Seat)
    requires
        seat != Seat::Unspecified,
        other != Seat::Unspecified,
        room.players_by_seat.at(seat) is Some,
    ensures
        room.players_ahead(seat) < seated_count(room),
        finishes(room, other, room.players_ahead(seat)) ==> other == seat,
{
    lemma_one_per_place(room, room.players_ahead(seat));
    assert(finishes(room, seat, room.players_ahead(seat)));
}

/// The final table has a line for every seated player, which tells of that player, and each of its
/// lines tells of one.
pub proof fn law_standings_tell_of_everybody(room: RoomStateModel, seat: Seat)
    requires
        seat != Seat::Unspecified,
    ensures
        room.players_by_seat.at(seat) is Some ==> exists|i: int|
            0 <= i < room.final_standings().len() && tells_of(
                room,
                #[trigger] room.final_standings()[i],
                seat,
            ),
        forall|i: int|
            0 <= i < room.final_standings().len() ==> tells_of_somebody(
                room,
                #[trigger] room.final_standings()[i],
            ),
{
    law_standings_are_ranked(room);
    assert forall|i: int| 0 <= i < room.final_standings().len() implies tells_of_somebody(
        room,
        #[trigger] room.final_standings()[i],
    ) by {
        let other = lemma_line(room, i as nat);
        assert(tells_of(room, room.final_standings()[i], other));
    }
    if room.players_by_seat.at(seat) is Some {
        let place = room.players_ahead(seat);
        lemma_finishes_alone(room, seat, seat);
        let holder = lemma_line(room, place);
        lemma_finishes_alone(room, seat, holder);
    }
}

} // verus!
