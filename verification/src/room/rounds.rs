//! Starting a hand.

use std::collections::VecDeque;

use vstd::prelude::*;

use crate::json::{json_int, json_items, json_text, no_members, Json, JsonModel, JsonObject};
use crate::proto::client::{ActionKind, GamePhase, PlayerStatus, RejectCode, Seat, Tile};
use crate::room::convert::{
    failure, plain_result, ActionValidationError, ActionValidationErrorModel,
};
use crate::room::flow::DrawOutcome;
use crate::room::hand::{empty_hand, seat_at, seat_order, PlayerRoundState};
use crate::room::payloads::{meld_list, melds_json, opt_tile, opt_tile_json, tile_list, tiles_json};
use crate::room::state::{
    DrawSource, PlayerSlot, PlayerSlotModel, ResolvedActionRecord, RoomState, RoomStateModel,
    RoundRuntimeState, RoundRuntimeStateModel, WallFactory, WallFactoryModel, DEAD_WALL_TILE_COUNT,
    STARTING_HAND_LEN,
};
use crate::tiles::{
    build_shuffled_wall, copy_tiles, law_shuffled_wall_is_permutation, shuffled_wall,
};
use crate::collections::{group_seat_map, SeatMap};

verus! {

broadcast use group_seat_map;

/// A hand that starts from a wall: its last tiles are set apart for replacements.
pub open spec fn fresh_runtime(wall: Seq<Tile>) -> RoundRuntimeStateModel {
    let cut = wall.len() - DEAD_WALL_TILE_COUNT;
    RoundRuntimeStateModel {
        live_wall: wall.subrange(0, cut),
        dead_wall: wall.subrange(cut, wall.len() as int),
        active_claim_window: None,
        last_resolved_action: None,
        turn_index: 0,
        replacement_draw_pending: false,
    }
}

/// A player who takes part in the hand.
pub open spec fn playing(player: Option<PlayerSlotModel>) -> Option<PlayerSlotModel> {
    match player {
        Some(player) => Some(PlayerSlotModel { status: PlayerStatus::Playing, ..player }),
        None => None,
    }
}

/// The seats with every player taking part.
pub open spec fn all_playing(players: SeatMap<PlayerSlotModel>) -> SeatMap<PlayerSlotModel> {
    SeatMap {
        unspecified: playing(players.unspecified),
        east: playing(players.east),
        south: playing(players.south),
        west: playing(players.west),
        north: playing(players.north),
    }
}

/// The draw of a seat, as it is put on record.
pub open spec fn draw_record(event_seq: u64, seat: Seat, outcome: DrawOutcome) -> ResolvedActionRecord {
    ResolvedActionRecord {
        event_seq,
        actor_seat: seat,
        action_kind: ActionKind::Draw,
        tile: Some(outcome.tile),
        replacement_draw: outcome.replacement_draw,
        rob_kong_candidate: false,
    }
}

/// Whether two rooms differ at most in where the tiles are.
pub open spec fn only_tiles_moved(before: RoomStateModel, after: RoomStateModel) -> bool {
    after == (RoomStateModel {
        player_round_state: after.player_round_state,
        round_runtime: after.round_runtime,
        wall_tiles_remaining: after.wall_tiles_remaining,
        dead_wall_tiles_remaining: after.dead_wall_tiles_remaining,
        ..before
    }) && after.window() == before.window() && (after.round_runtime is Some
        <==> before.round_runtime is Some) && (after.round_runtime matches Some(runtime)
        ==> runtime.turn_index == before.round_runtime->0.turn_index
        && runtime.last_resolved_action == before.round_runtime->0.last_resolved_action)
}

impl RoomStateModel {
    /// Whether all four seats take part in the hand and can draw.
    pub open spec fn all_can_draw(self) -> bool {
        self.can_draw(Seat::East) && self.can_draw(Seat::South) && self.can_draw(Seat::West)
            && self.can_draw(Seat::North)
    }

    /// Whether a wall that is laid for this room has a length that fits the counters.
    pub open spec fn wall_fits(self) -> bool {
        self.wall_factory matches WallFactoryModel::Fixed(tiles) ==> tiles.len() <= u32::MAX
    }

    /// The wall of the current hand. `salt` is the clock.
    pub open spec fn next_wall(self, salt: u64) -> Seq<Tile> {
        match self.wall_factory {
            WallFactoryModel::Shuffled => shuffled_wall(
                self.room_config.enable_flower_tiles,
                self.room_id,
                self.hand_number,
                salt,
            ),
            WallFactoryModel::Seeded(seed) => shuffled_wall(
                self.room_config.enable_flower_tiles,
                self.room_id,
                self.hand_number,
                seed,
            ),
            WallFactoryModel::Fixed(tiles) => tiles,
        }
    }

    /// The table before the deal: the wall laid, every hand empty, everybody playing.
    pub open spec fn table_set(self, wall: Seq<Tile>) -> RoomStateModel {
        RoomStateModel {
            round_runtime: Some(fresh_runtime(wall)),
            phase: GamePhase::Dealing,
            current_turn_seat: self.dealer_seat,
            player_round_state: SeatMap {
                unspecified: self.player_round_state.unspecified,
                east: Some(empty_hand()),
                south: Some(empty_hand()),
                west: Some(empty_hand()),
                north: Some(empty_hand()),
            },
            players_by_seat: all_playing(self.players_by_seat),
            ..self
        }
    }

    /// What the start of a hand says of the player of a seat, as a list.
    pub open spec fn start_payload_at(self, seat: Seat) -> Seq<JsonModel> {
        match (self.players_by_seat.at(seat), self.player_round_state.at(seat)) {
            (Some(player), Some(hand)) => seq![
                JsonModel::Object(
                    no_members()
                        .push(("seat"@, json_text(seat.name())))
                        .push(("user_id"@, json_text(player.user_id)))
                        .push(("display_name"@, json_text(player.display_name)))
                        .push(("concealed_tiles"@, tile_list(hand.concealed_tiles)))
                        .push(("drawn_tile"@, opt_tile(hand.drawn_tile)))
                        .push(("melds"@, meld_list(hand.melds)))
                        .push(("flowers"@, tile_list(hand.flowers)))
                        .push(("score"@, json_int(player.score as int))),
                ),
            ],
            _ => Seq::empty(),
        }
    }

    /// The payload of the event that starts a hand.
    pub open spec fn round_started_payload(self, event_seq: u64) -> JsonModel {
        JsonModel::Object(
            no_members()
                .push(("room_id"@, json_text(self.room_id)))
                .push(("match_id"@, json_text(self.match_id)))
                .push(("round_id"@, json_text(self.current_round_id())))
                .push(("event_seq"@, JsonModel::Unsigned(event_seq)))
                .push(("phase"@, json_text(self.phase.name())))
                .push(("prevailing_wind"@, json_text(self.prevailing_wind.name())))
                .push(("dealer_seat"@, json_text(self.dealer_seat.name())))
                .push(("current_turn_seat"@, json_text(self.current_turn_seat.name())))
                .push(("hand_number"@, JsonModel::Unsigned(self.hand_number as u64)))
                .push(("dealer_streak"@, JsonModel::Unsigned(self.dealer_streak as u64)))
                .push(("wall_tiles_remaining"@, JsonModel::Unsigned(self.wall_tiles_remaining as u64)))
                .push((
                    "dead_wall_tiles_remaining"@,
                    JsonModel::Unsigned(self.dead_wall_tiles_remaining as u64),
                ))
                .push((
                    "players"@,
                    JsonModel::Array(
                        self.start_payload_at(Seat::East) + self.start_payload_at(Seat::South)
                            + self.start_payload_at(Seat::West) + self.start_payload_at(Seat::North),
                    ),
                )),
        )
    }

    /// The dealt table once the dealer has drawn: it is the dealer's turn, and the start is on
    /// record.
    pub open spec fn round_announced(self, outcome: DrawOutcome) -> RoomStateModel {
        let event_seq = self.next_event_seq;
        let ready = self.in_phase(GamePhase::WaitingDiscard).numbered().with_last_action(
            draw_record(event_seq, self.dealer_seat, outcome),
        ).with_wall_counters();
        ready.stored(
            "round_started"@,
            event_seq,
            Some(self.dealer_seat),
            ready.round_started_payload(event_seq),
        )
    }

    /// Starts a hand from a wall: thirteen tiles for each seat, one more for the dealer.
    pub open spec fn round_started(self, wall: Seq<Tile>) -> (
        RoomStateModel,
        Result<(), ActionValidationErrorModel>,
    ) {
        if wall.len() <= DEAD_WALL_TILE_COUNT {
            (
                self,
                Err(failure(RejectCode::InternalError, "wall factory returned too few tiles"@)),
            )
        } else {
            let (dealt, result) = self.table_set(wall).dealt_seats(4);
            match result {
                Err(error) => (dealt, Err(error)),
                Ok(_) => {
                    let (drawn, outcome) = dealt.drawn(self.dealer_seat, DrawSource::LiveWall);
                    match outcome {
                        Err(error) => (drawn, Err(error)),
                        Ok(None) => (
                            drawn,
                            Err(
                                failure(
                                    RejectCode::InternalError,
                                    "live wall was unexpectedly exhausted during initial dealer draw"@,
                                ),
                            ),
                        ),
                        Ok(Some(outcome)) => (drawn.round_announced(outcome), Ok(())),
                    }
                },
            }
        }
    }
}

// ---------------------------------------------------------------------------
// What dealing keeps
// ---------------------------------------------------------------------------

/// Whether every seat in play that could draw before still can.
pub open spec fn draws_kept(before: RoomStateModel, after: RoomStateModel) -> bool {
    forall|seat: Seat| before.can_draw(seat) ==> #[trigger] after.can_draw(seat)
}

pub proof fn lemma_flower_keeps(room: RoomStateModel, source: DrawSource, seat: Seat)
    requires
        room.can_draw(seat),
        room.popped(source).1 is Some,
    ensures
        only_tiles_moved(room, room.popped(source).0.with_flower(seat, room.popped(source).1->0)),
        draws_kept(room, room.popped(source).0.with_flower(seat, room.popped(source).1->0)),
        draws_kept(room, room.popped(source).0),
{
}

pub proof fn lemma_dealt_replacement_keeps(room: RoomStateModel, seat: Seat)
    requires
        room.can_draw(seat),
    ensures
        only_tiles_moved(room, room.dealt_replacement(seat).0),
        draws_kept(room, room.dealt_replacement(seat).0),
    decreases room.dead_len(),
{
    let (after, tile) = room.popped(DrawSource::DeadWall);
    if let Some(tile) = tile {
        if after.lays_aside(tile) {
            lemma_flower_keeps(room, DrawSource::DeadWall, seat);
            lemma_dealt_replacement_keeps(after.with_flower(seat, tile), seat);
        }
    }
}

pub proof fn lemma_dealt_keeps(room: RoomStateModel, seat: Seat)
    requires
        room.can_draw(seat),
    ensures
        only_tiles_moved(room, room.dealt(seat).0),
        draws_kept(room, room.dealt(seat).0),
{
    let (after, tile) = room.popped(DrawSource::LiveWall);
    if let Some(tile) = tile {
        if after.lays_aside(tile) {
            lemma_flower_keeps(room, DrawSource::LiveWall, seat);
            lemma_dealt_replacement_keeps(after.with_flower(seat, tile), seat);
        }
    }
}

pub proof fn lemma_dealt_many_keeps(room: RoomStateModel, seat: Seat, count: nat)
    requires
        room.can_draw(seat),
    ensures
        only_tiles_moved(room, room.dealt_many(seat, count).0),
        draws_kept(room, room.dealt_many(seat, count).0),
    decreases count,
{
    if count > 0 {
        lemma_dealt_many_keeps(room, seat, (count - 1) as nat);
        let before = room.dealt_many(seat, (count - 1) as nat).0;
        assert(before.can_draw(seat));
        lemma_dealt_keeps(before, seat);
    }
}

pub proof fn lemma_dealt_seats_keeps(room: RoomStateModel, seats: nat)
    requires
        seats <= 4,
        room.all_can_draw(),
    ensures
        only_tiles_moved(room, room.dealt_seats(seats).0),
        draws_kept(room, room.dealt_seats(seats).0),
    decreases seats,
{
    if seats > 0 {
        lemma_dealt_seats_keeps(room, (seats - 1) as nat);
        let before = room.dealt_seats((seats - 1) as nat).0;
        let seat = seat_order()[seats - 1];
        assert(room.can_draw(seat));
        assert(before.can_draw(seat));
        lemma_dealt_many_keeps(before, seat, STARTING_HAND_LEN as nat);
    }
}

/// Moving tiles twice moves tiles, and keeps what both moves keep.
pub proof fn lemma_moves_chain(a: RoomStateModel, b: RoomStateModel, c: RoomStateModel)
    requires
        only_tiles_moved(a, b),
        only_tiles_moved(b, c),
        draws_kept(a, b),
        draws_kept(b, c),
    ensures
        only_tiles_moved(a, c),
        draws_kept(a, c),
{
    assert forall|seat: Seat| a.can_draw(seat) implies #[trigger] c.can_draw(seat) by {
        assert(b.can_draw(seat));
    }
}

proof fn lemma_draw_step_keeps(room: RoomStateModel, source: DrawSource, seat: Seat)
    requires
        room.can_draw(seat),
        room.popped(source).1 is Some,
    ensures
        ({
            let (after, tile) = room.popped(source);
            let kept = after.with_drawn(seat, tile->0).with_replacement_pending(false);
            let aside = after.with_flower(seat, tile->0).with_replacement_pending(true);
            &&& only_tiles_moved(room, kept)
            &&& draws_kept(room, kept)
            &&& only_tiles_moved(room, aside)
            &&& draws_kept(room, aside)
            &&& source is DeadWall ==> aside.dead_len() < room.dead_len()
        }),
{
    lemma_flower_keeps(room, source, seat);
}

pub proof fn lemma_drawn_from_keeps(
    room: RoomStateModel,
    seat: Seat,
    source: DrawSource,
    replacement_draw: bool,
)
    requires
        room.can_draw(seat),
    ensures
        only_tiles_moved(room, room.drawn_from(seat, source, replacement_draw).0),
        draws_kept(room, room.drawn_from(seat, source, replacement_draw).0),
    decreases (if source is LiveWall {
        1nat
    } else {
        0nat
    }), room.dead_len(),
{
    let (after, tile) = room.popped(source);
    if let Some(tile) = tile {
        lemma_draw_step_keeps(room, source, seat);
        if after.lays_aside(tile) {
            let aside = after.with_flower(seat, tile).with_replacement_pending(true);
            assert(aside.can_draw(seat));
            lemma_drawn_from_keeps(aside, seat, DrawSource::DeadWall, true);
            lemma_moves_chain(
                room,
                aside,
                aside.drawn_from(seat, DrawSource::DeadWall, true).0,
            );
        }
    }
}

/// Drawing moves tiles and nothing else, and takes nobody out of the hand.
pub proof fn lemma_drawn_keeps(room: RoomStateModel, seat: Seat, source: DrawSource)
    requires
        room.can_draw(seat),
    ensures
        only_tiles_moved(room, room.drawn(seat, source).0),
        draws_kept(room, room.drawn(seat, source).0),
{
    lemma_drawn_from_keeps(room, seat, source, source is DeadWall);
}

/// The start of a hand uses at most one event number, and leaves every seat able to draw.
pub proof fn lemma_round_started_keeps(room: RoomStateModel, wall: Seq<Tile>)
    requires
        room.dealer_seat != Seat::Unspecified,
        wall.len() <= u32::MAX,
    ensures
        ({
            let (after, result) = room.round_started(wall);
            &&& after.next_event_seq <= room.next_event_seq + 1
            &&& room.can_number(1) ==> room.next_event_seq <= after.next_event_seq
            &&& result is Ok ==> after.all_can_draw()
            &&& result is Ok ==> (after.round_runtime matches Some(runtime) && runtime.turn_index == 0)
            &&& after.next_action_window_id == room.next_action_window_id
            &&& after.wall_factory == room.wall_factory
            &&& after.room_config == room.room_config
            &&& after.runtime_mode == room.runtime_mode
            &&& room.runtime_mode is LoadTest ==> after.outbox == room.outbox
            &&& after.dealer_seat == room.dealer_seat
            &&& after.hand_number == room.hand_number
            &&& after.dealer_streak == room.dealer_streak
            &&& after.match_runtime == room.match_runtime
            &&& result is Ok ==> after.phase == GamePhase::WaitingDiscard
            &&& result is Ok ==> after.current_turn_seat == room.dealer_seat
            &&& after.players_by_seat == if wall.len() <= DEAD_WALL_TILE_COUNT {
                room.players_by_seat
            } else {
                all_playing(room.players_by_seat)
            }
        }),
{
    if wall.len() > DEAD_WALL_TILE_COUNT {
        let set = room.table_set(wall);
        assert(set.all_can_draw()) by {
            reveal(SeatMap::at);
        }
        lemma_dealt_seats_keeps(set, 4);
        let (dealt, result) = set.dealt_seats(4);
        if result is Ok {
            assert(set.can_draw(room.dealer_seat));
            assert(dealt.can_draw(room.dealer_seat));
            lemma_drawn_keeps(dealt, room.dealer_seat, DrawSource::LiveWall);
            let (drawn, outcome) = dealt.drawn(room.dealer_seat, DrawSource::LiveWall);
            assert(drawn.can_draw(Seat::East) && drawn.can_draw(Seat::South) && drawn.can_draw(
                Seat::West,
            ) && drawn.can_draw(Seat::North)) by {
                assert(set.can_draw(Seat::East) && dealt.can_draw(Seat::East));
                assert(set.can_draw(Seat::South) && dealt.can_draw(Seat::South));
                assert(set.can_draw(Seat::West) && dealt.can_draw(Seat::West));
                assert(set.can_draw(Seat::North) && dealt.can_draw(Seat::North));
            }
        }
    }
}

/// The wall of a hand is no longer than the counters can hold, where a fixed one is not.
pub proof fn lemma_next_wall_len(room: RoomStateModel, salt: u64)
    requires
        room.wall_fits(),
    ensures
        room.next_wall(salt).len() <= u32::MAX,
{
    law_shuffled_wall_is_permutation(
        room.room_config.enable_flower_tiles,
        room.room_id,
        room.hand_number,
        salt,
    );
    if let WallFactoryModel::Seeded(seed) = room.wall_factory {
        law_shuffled_wall_is_permutation(
            room.room_config.enable_flower_tiles,
            room.room_id,
            room.hand_number,
            seed,
        );
    }
}

fn deque_of(tiles: &Vec<Tile>, from: usize, to: usize) -> (r: VecDeque<Tile>)
    requires
        from <= to <= tiles.len(),
    ensures
        r@ == tiles@.subrange(from as int, to as int),
{
    let mut deque: VecDeque<Tile> = VecDeque::new();
    let mut i: usize = from;
    while i < to
        invariant
            from <= i <= to <= tiles.len(),
            deque@ == tiles@.subrange(from as int, i as int),
        decreases to - i,
    {
        deque.push_back(tiles[i]);
        i = i + 1;
        assert(deque@ =~= tiles@.subrange(from as int, i as int));
    }
    deque
}

fn start_payload_of(seat: Seat, player: &PlayerSlot, hand: &PlayerRoundState) -> (r: Json)
    ensures
        r@ == JsonModel::Object(
            no_members()
                .push(("seat"@, json_text(seat.name())))
                .push(("user_id"@, json_text(player@.user_id)))
                .push(("display_name"@, json_text(player@.display_name)))
                .push(("concealed_tiles"@, tile_list(hand@.concealed_tiles)))
                .push(("drawn_tile"@, opt_tile(hand@.drawn_tile)))
                .push(("melds"@, meld_list(hand@.melds)))
                .push(("flowers"@, tile_list(hand@.flowers)))
                .push(("score"@, json_int(player@.score as int))),
        ),
{
    JsonObject::new()
        .with("seat", Json::text(seat.as_str_name()))
        .with("user_id", Json::text(player.user_id.as_str()))
        .with("display_name", Json::text(player.display_name.as_str()))
        .with("concealed_tiles", tiles_json(&hand.concealed_tiles))
        .with("drawn_tile", opt_tile_json(hand.drawn_tile))
        .with("melds", melds_json(&hand.melds))
        .with("flowers", tiles_json(&hand.flowers))
        .with("score", Json::integer(player.score))
        .build()
}

fn push_start_payload(items: &mut Vec<Json>, room: &RoomState, seat: Seat)
    ensures
        json_items(final(items)@) == json_items(old(items)@) + room@.start_payload_at(seat),
{
    let ghost before = items@;
    if let Some(player) = room.players_by_seat.get(seat) {
        if let Some(hand) = room.player_round_state.get(seat) {
            items.push(start_payload_of(seat, player, hand));
        }
    }
    assert(json_items(items@) =~= json_items(before) + room@.start_payload_at(seat));
}

fn set_playing(player: &mut Option<PlayerSlot>)
    ensures
        crate::collections::opt_view(*final(player)) == playing(
            crate::collections::opt_view(*old(player)),
        ),
{
    if let Some(player) = player.as_mut() {
        player.status = PlayerStatus::Playing;
    }
}

impl RoomState {
    fn lay_wall(&self, salt: u64) -> (r: Vec<Tile>)
        ensures
            r@ == self@.next_wall(salt),
            self@.wall_fits() ==> r.len() <= u32::MAX,
    {
        proof {
            law_shuffled_wall_is_permutation(
                self.room_config.enable_flower_tiles,
                self.room_id@,
                self.hand_number,
                salt,
            );
        }
        match &self.wall_factory {
            WallFactory::Shuffled => build_shuffled_wall(
                self.room_config.enable_flower_tiles,
                self.room_id.as_str(),
                self.hand_number,
                salt,
            ),
            WallFactory::Seeded(seed) => {
                proof {
                    law_shuffled_wall_is_permutation(
                        self.room_config.enable_flower_tiles,
                        self.room_id@,
                        self.hand_number,
                        *seed,
                    );
                }
                build_shuffled_wall(
                    self.room_config.enable_flower_tiles,
                    self.room_id.as_str(),
                    self.hand_number,
                    *seed,
                )
            },
            WallFactory::Fixed(tiles) => copy_tiles(tiles),
        }
    }

    fn set_table(&mut self, wall: &Vec<Tile>)
        requires
            wall.len() > DEAD_WALL_TILE_COUNT,
        ensures
            final(self)@ == old(self)@.table_set(wall@),
    {
        reveal(SeatMap::with);
        let cut: usize = wall.len() - DEAD_WALL_TILE_COUNT;
        self.round_runtime = Some(
            RoundRuntimeState {
                live_wall: deque_of(wall, 0, cut),
                dead_wall: deque_of(wall, cut, wall.len()),
                active_claim_window: None,
                last_resolved_action: None,
                turn_index: 0,
                replacement_draw_pending: false,
            },
        );
        self.phase = GamePhase::Dealing;
        self.current_turn_seat = self.dealer_seat;
        self.player_round_state.set(Seat::East, Some(PlayerRoundState::new()));
        self.player_round_state.set(Seat::South, Some(PlayerRoundState::new()));
        self.player_round_state.set(Seat::West, Some(PlayerRoundState::new()));
        self.player_round_state.set(Seat::North, Some(PlayerRoundState::new()));
        set_playing(&mut self.players_by_seat.unspecified);
        set_playing(&mut self.players_by_seat.east);
        set_playing(&mut self.players_by_seat.south);
        set_playing(&mut self.players_by_seat.west);
        set_playing(&mut self.players_by_seat.north);
    }

    fn deal_many(&mut self, seat: Seat, count: usize) -> (r: Result<(), ActionValidationError>)
        requires
            old(self)@.can_draw(seat),
        ensures
            (final(self)@, plain_result(r)) == old(self)@.dealt_many(seat, count as nat),
        decreases count,
    {
        if count == 0 {
            return Ok(());
        }
        proof {
            lemma_dealt_many_keeps(self@, seat, (count - 1) as nat);
        }
        match self.deal_many(seat, count - 1) {
            Ok(_) => {
                assert(self@.can_draw(seat));
                self.deal_concealed_tile(seat)
            },
            Err(error) => Err(error),
        }
    }

    fn deal_seats(&mut self, seats: usize) -> (r: Result<(), ActionValidationError>)
        requires
            seats <= 4,
            old(self)@.all_can_draw(),
        ensures
            (final(self)@, plain_result(r)) == old(self)@.dealt_seats(seats as nat),
        decreases seats,
    {
        if seats == 0 {
            return Ok(());
        }
        proof {
            lemma_dealt_seats_keeps(self@, (seats - 1) as nat);
        }
        match self.deal_seats(seats - 1) {
            Ok(_) => {
                let seat = seat_at(seats - 1);
                assert(old(self)@.can_draw(seat));
                assert(self@.can_draw(seat));
                self.deal_many(seat, STARTING_HAND_LEN)
            },
            Err(error) => Err(error),
        }
    }

    pub fn persist_round_started_event(&mut self, event_seq: u64)
        ensures
            final(self)@ == old(self)@.stored(
                "round_started"@,
                event_seq,
                Some(old(self)@.dealer_seat),
                old(self)@.round_started_payload(event_seq),
            ),
    {
        let mut players: Vec<Json> = Vec::new();
        push_start_payload(&mut players, self, Seat::East);
        push_start_payload(&mut players, self, Seat::South);
        push_start_payload(&mut players, self, Seat::West);
        push_start_payload(&mut players, self, Seat::North);
        assert(json_items(players@) =~= self@.start_payload_at(Seat::East) + self@.start_payload_at(
            Seat::South,
        ) + self@.start_payload_at(Seat::West) + self@.start_payload_at(Seat::North));
        let payload = JsonObject::new()
            .with("room_id", Json::text(self.room_id.as_str()))
            .with("match_id", Json::text(self.match_id.as_str()))
            .with("round_id", Json::text(self.round_id().as_str()))
            .with("event_seq", Json::unsigned(event_seq))
            .with("phase", Json::text(self.phase.as_str_name()))
            .with("prevailing_wind", Json::text(self.prevailing_wind.as_str_name()))
            .with("dealer_seat", Json::text(self.dealer_seat.as_str_name()))
            .with("current_turn_seat", Json::text(self.current_turn_seat.as_str_name()))
            .with("hand_number", Json::unsigned(self.hand_number as u64))
            .with("dealer_streak", Json::unsigned(self.dealer_streak as u64))
            .with("wall_tiles_remaining", Json::unsigned(self.wall_tiles_remaining as u64))
            .with("dead_wall_tiles_remaining", Json::unsigned(self.dead_wall_tiles_remaining as u64))
            .with("players", Json::list(players))
            .build();
        let dealer_seat = self.dealer_seat;
        self.persist_match_event("round_started", event_seq, Some(dealer_seat), payload);
    }

    /// Starts a hand. `now_ms` is the clock, which salts the shuffle.
    pub fn start_round(&mut self, now_ms: u64) -> (r: Result<(), ActionValidationError>)
        requires
            old(self)@.wall_fits(),
            old(self)@.can_number(1),
            old(self)@.dealer_seat != Seat::Unspecified,
        ensures
            (final(self)@, plain_result(r)) == old(self)@.round_started(
                old(self)@.next_wall(now_ms),
            ),
    {
        let wall = self.lay_wall(now_ms);
        if wall.len() <= DEAD_WALL_TILE_COUNT {
            return Err(
                ActionValidationError::new(
                    RejectCode::InternalError,
                    "wall factory returned too few tiles",
                ),
            );
        }
        self.set_table(&wall);
        assert(self@.all_can_draw()) by {
            reveal(SeatMap::at);
        }
        let ghost set = self@;
        proof {
            lemma_dealt_seats_keeps(set, 4);
        }
        match self.deal_seats(4) {
            Err(error) => {
                return Err(error);
            },
            Ok(_) => {},
        }
        let ghost dealt = self@;
        let dealer_seat = self.dealer_seat;
        assert(set.can_draw(dealer_seat));
        assert(dealt.can_draw(dealer_seat));
        proof {
            lemma_drawn_keeps(dealt, dealer_seat, DrawSource::LiveWall);
        }
        match self.draw_turn_tile(dealer_seat, DrawSource::LiveWall) {
            Err(error) => Err(error),
            Ok(None) => Err(
                ActionValidationError::new(
                    RejectCode::InternalError,
                    "live wall was unexpectedly exhausted during initial dealer draw",
                ),
            ),
            Ok(Some(outcome)) => {
                self.phase = GamePhase::WaitingDiscard;
                let event_seq: u64 = self.allocate_event_seq();
                self.record_last_action(
                    ResolvedActionRecord {
                        event_seq,
                        actor_seat: dealer_seat,
                        action_kind: ActionKind::Draw,
                        tile: Some(outcome.tile),
                        replacement_draw: outcome.replacement_draw,
                        rob_kong_candidate: false,
                    },
                );
                self.sync_wall_counters();
                self.persist_round_started_event(event_seq);
                Ok(())
            },
        }
    }
}

} // verus!
