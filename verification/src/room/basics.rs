//! The elementary steps of a room: numbering events, finding seats, putting things into the outbox.

use vstd::hash_map::StringHashMap;
use vstd::prelude::*;

use crate::collections::{
    group_seat_map, lemma_views_empty, lemma_views_push, views, SeatMap, StrMap,
};
use crate::db::models::{NewMatchEventRecord, NewMatchEventRecordModel};
use crate::json::{Json, JsonModel};
use crate::proto::client::{
    GamePhase, RoomConfig, RoomConfigModel, Seat, ServerFrame, ServerFrameModel,
};
use crate::room::state::{
    MatchPlayerStats, MatchRuntimeState, MatchRuntimeStateModel, ResolvedActionRecord, RoomOutput,
    RoomOutputModel, RoomRuntimeMode, RoomState, RoomStateModel, RoundRuntimeStateModel,
    WallFactory, WallFactoryModel, DEAD_WALL_TILE_COUNT, MATCH_TOTAL_HANDS, RECONNECT_GRACE_MS,
};
use crate::text::{concat, decimal, u32_to_text};

verus! {

broadcast use group_seat_map;

/// The low thirty-two bits of a length.
pub fn low_u32(n: usize) -> (r: u32)
    ensures
        r == n as int % 0x1_0000_0000,
{
    let wide: u64 = n as u64;
    assert(wide as u32 == wide % 0x1_0000_0000) by (bit_vector);
    #[verifier::truncate]
    (wide as u32)
}

/// The settings that a room starts with.
pub open spec fn default_room_config() -> RoomConfigModel {
    RoomConfigModel {
        ruleset_id: "gb_mahjong_cn_v1"@,
        seat_count: 4,
        enable_flower_tiles: true,
        enable_robbing_kong: true,
        enable_kong_draw: true,
        reconnect_grace_seconds: (RECONNECT_GRACE_MS / 1000) as u32,
        action_timeout_ms: 15_000,
    }
}

/// No wins yet.
pub open spec fn no_wins() -> MatchPlayerStats {
    MatchPlayerStats { rounds_won: 0, self_draw_wins: 0 }
}

/// A match of which no hand has been played. The tally has a place for each of the four seats.
pub open spec fn fresh_match() -> MatchRuntimeStateModel {
    MatchRuntimeStateModel {
        total_hands: MATCH_TOTAL_HANDS,
        completed_hands: 0,
        player_stats: SeatMap {
            unspecified: None,
            east: Some(no_wins()),
            south: Some(no_wins()),
            west: Some(no_wins()),
            north: Some(no_wins()),
        },
        last_round_winner: None,
        last_round_self_draw: false,
        last_match_settlement: None,
    }
}

impl MatchRuntimeState {
    pub fn new() -> (r: MatchRuntimeState)
        ensures
            r@ == fresh_match(),
    {
        MatchRuntimeState {
            total_hands: MATCH_TOTAL_HANDS,
            completed_hands: 0,
            player_stats: SeatMap {
                unspecified: None,
                east: Some(MatchPlayerStats { rounds_won: 0, self_draw_wins: 0 }),
                south: Some(MatchPlayerStats { rounds_won: 0, self_draw_wins: 0 }),
                west: Some(MatchPlayerStats { rounds_won: 0, self_draw_wins: 0 }),
                north: Some(MatchPlayerStats { rounds_won: 0, self_draw_wins: 0 }),
            },
            last_round_winner: None,
            last_round_self_draw: false,
            last_match_settlement: None,
        }
    }
}

/// An empty room.
pub open spec fn new_room(
    room_id: Seq<char>,
    wall_factory: WallFactoryModel,
    runtime_mode: RoomRuntimeMode,
) -> RoomStateModel {
    RoomStateModel {
        room_id,
        match_id: "match-"@ + room_id,
        room_config: default_room_config(),
        wall_factory,
        runtime_mode,
        should_shutdown: false,
        phase: GamePhase::Lobby,
        prevailing_wind: Seat::East,
        dealer_seat: Seat::East,
        current_turn_seat: Seat::East,
        hand_number: 1,
        dealer_streak: 0,
        wall_tiles_remaining: 144,
        dead_wall_tiles_remaining: DEAD_WALL_TILE_COUNT as u32,
        next_event_seq: 1,
        next_action_window_id: 1,
        players_by_seat: SeatMap::empty_map(),
        player_round_state: SeatMap::empty_map(),
        round_runtime: None,
        match_runtime: fresh_match(),
        user_to_seat: Map::empty(),
        connection_to_user: Map::empty(),
        outbox: Seq::empty(),
    }
}

impl RoomStateModel {
    /// Whether `n` more events can be numbered.
    pub open spec fn can_number(self, n: int) -> bool {
        self.next_event_seq + n <= u64::MAX
    }

    /// The room after one event number was used.
    pub open spec fn numbered(self) -> RoomStateModel {
        RoomStateModel { next_event_seq: (self.next_event_seq + 1) as u64, ..self }
    }

    /// The number of the latest event.
    pub open spec fn latest_event_seq(self) -> u64 {
        if self.next_event_seq == 0 {
            0
        } else {
            (self.next_event_seq - 1) as u64
        }
    }

    /// The name of the current hand.
    pub open spec fn current_round_id(self) -> Seq<char> {
        "hand-"@ + decimal(self.hand_number as nat)
    }

    /// The seat that a connection acts for.
    pub open spec fn seat_of_connection(self, connection_id: Seq<char>) -> Option<Seat> {
        if self.connection_to_user.contains_key(connection_id) && self.user_to_seat.contains_key(
            self.connection_to_user[connection_id],
        ) {
            Some(self.user_to_seat[self.connection_to_user[connection_id]])
        } else {
            None
        }
    }

    /// The room with one more thing to be done outside of it.
    pub open spec fn with_output(self, output: RoomOutputModel) -> RoomStateModel {
        RoomStateModel { outbox: self.outbox.push(output), ..self }
    }

    /// The room with a frame on its way to a connection. A load test sends nothing.
    pub open spec fn sent(self, connection_id: Seq<char>, frame: ServerFrameModel) -> RoomStateModel {
        if self.runtime_mode is Production {
            self.with_output(RoomOutputModel::Send(connection_id, frame))
        } else {
            self
        }
    }

    /// The connection on which the player of a seat can be reached, if there is one.
    pub open spec fn reachable(self, seat: Seat) -> Option<Seq<char>> {
        match self.players_by_seat.at(seat) {
            Some(player) => if player.connected {
                player.connection_id
            } else {
                None
            },
            None => None,
        }
    }

    /// The room with a frame on its way to the player of a seat, if that player can be reached.
    pub open spec fn sent_to_seat(self, seat: Seat, frame: ServerFrameModel) -> RoomStateModel {
        match self.reachable(seat) {
            Some(connection_id) => self.sent(connection_id, frame),
            None => self,
        }
    }

    /// The room with a frame on its way to every player who can be reached.
    #[verifier::opaque]
    pub open spec fn sent_to_all(self, frame: ServerFrameModel) -> RoomStateModel {
        self.sent_to_seat(Seat::Unspecified, frame).sent_to_seat(Seat::East, frame).sent_to_seat(
            Seat::South,
            frame,
        ).sent_to_seat(Seat::West, frame).sent_to_seat(Seat::North, frame)
    }

    /// The room with one frame on its way to the player of a seat, and another to every other player,
    /// of those who can be reached.
    #[verifier::opaque]
    pub open spec fn sent_by_seat(self, seat: Seat, own: ServerFrameModel, others: ServerFrameModel) -> RoomStateModel {
        self.sent_to_seat(Seat::Unspecified, frame_for(Seat::Unspecified, seat, own, others)).sent_to_seat(
            Seat::East,
            frame_for(Seat::East, seat, own, others),
        ).sent_to_seat(Seat::South, frame_for(Seat::South, seat, own, others)).sent_to_seat(
            Seat::West,
            frame_for(Seat::West, seat, own, others),
        ).sent_to_seat(Seat::North, frame_for(Seat::North, seat, own, others))
    }

    /// The event that describes something at the table.
    pub open spec fn event(
        self,
        event_type: Seq<char>,
        event_seq: u64,
        actor_seat: Option<Seat>,
        payload: JsonModel,
    ) -> NewMatchEventRecordModel {
        NewMatchEventRecordModel {
            match_id: self.match_id,
            round_id: Some(self.current_round_id()),
            event_seq: event_seq as i64,
            event_type,
            actor_user_id: match actor_seat {
                Some(seat) => match self.players_by_seat.at(seat) {
                    Some(player) => Some(player.user_id),
                    None => None,
                },
                None => None,
            },
            actor_seat: match actor_seat {
                Some(seat) => Some(seat.name()),
                None => None,
            },
            request_id: None,
            correlation_id: None,
            causation_event_seq: None,
            event_payload: payload,
        }
    }

    /// The room with an event on its way into storage. A load test stores nothing.
    pub open spec fn stored(
        self,
        event_type: Seq<char>,
        event_seq: u64,
        actor_seat: Option<Seat>,
        payload: JsonModel,
    ) -> RoomStateModel {
        if self.runtime_mode is Production {
            self.with_output(
                RoomOutputModel::Persist(self.event(event_type, event_seq, actor_seat, payload)),
            )
        } else {
            self
        }
    }

    /// The room with another latest action on record, while a hand is running.
    pub open spec fn with_last_action(self, action: ResolvedActionRecord) -> RoomStateModel {
        match self.round_runtime {
            Some(runtime) => RoomStateModel {
                round_runtime: Some(
                    RoundRuntimeStateModel { last_resolved_action: Some(action), ..runtime },
                ),
                ..self
            },
            None => self,
        }
    }

    /// The room with its tile counters brought in line with the walls.
    pub open spec fn with_wall_counters(self) -> RoomStateModel {
        match self.round_runtime {
            Some(runtime) => RoomStateModel {
                wall_tiles_remaining: (runtime.live_wall.len() % 0x1_0000_0000) as u32,
                dead_wall_tiles_remaining: (runtime.dead_wall.len() % 0x1_0000_0000) as u32,
                ..self
            },
            None => self,
        }
    }

    /// The room without its claim window.
    pub open spec fn without_window(self) -> RoomStateModel {
        match self.round_runtime {
            Some(runtime) => RoomStateModel {
                round_runtime: Some(RoundRuntimeStateModel { active_claim_window: None, ..runtime }),
                ..self
            },
            None => self,
        }
    }

    /// The room in another phase.
    pub open spec fn in_phase(self, phase: GamePhase) -> RoomStateModel {
        RoomStateModel { phase, ..self }
    }
}

/// The frame of two that a recipient gets: the first if it is the given seat, the second if not.
pub open spec fn frame_for(
    recipient: Seat,
    seat: Seat,
    own: ServerFrameModel,
    others: ServerFrameModel,
) -> ServerFrameModel {
    if recipient == seat {
        own
    } else {
        others
    }
}

/// Whether two rooms differ at most in their outboxes.
pub open spec fn only_outbox_differs(before: RoomStateModel, after: RoomStateModel) -> bool {
    after == (RoomStateModel { outbox: after.outbox, ..before })
}

/// Announcing something changes nothing but the outbox.
pub broadcast proof fn lemma_sent_to_all_keeps(room: RoomStateModel, frame: ServerFrameModel)
    ensures
        only_outbox_differs(room, #[trigger] room.sent_to_all(frame)),
{
    reveal(RoomStateModel::sent_to_all);
    let a = room.sent_to_seat(Seat::Unspecified, frame);
    let b = a.sent_to_seat(Seat::East, frame);
    let c = b.sent_to_seat(Seat::South, frame);
    let d = c.sent_to_seat(Seat::West, frame);
    assert(only_outbox_differs(room, a));
    assert(only_outbox_differs(room, b));
    assert(only_outbox_differs(room, c));
    assert(only_outbox_differs(room, d));
}

/// Announcing something to one seat in other words than to the rest changes nothing but the outbox.
pub broadcast proof fn lemma_sent_by_seat_keeps(
    room: RoomStateModel,
    seat: Seat,
    own: ServerFrameModel,
    others: ServerFrameModel,
)
    ensures
        only_outbox_differs(room, #[trigger] room.sent_by_seat(seat, own, others)),
{
    reveal(RoomStateModel::sent_by_seat);
    let a = room.sent_to_seat(
        Seat::Unspecified,
        frame_for(Seat::Unspecified, seat, own, others),
    );
    let b = a.sent_to_seat(Seat::East, frame_for(Seat::East, seat, own, others));
    let c = b.sent_to_seat(Seat::South, frame_for(Seat::South, seat, own, others));
    let d = c.sent_to_seat(Seat::West, frame_for(Seat::West, seat, own, others));
    assert(only_outbox_differs(room, a));
    assert(only_outbox_differs(room, b));
    assert(only_outbox_differs(room, c));
    assert(only_outbox_differs(room, d));
}

/// Whether an output is the frame of two that a recipient gets, on the recipient's connection.
pub open spec fn goes_to(
    room: RoomStateModel,
    recipient: Seat,
    seat: Seat,
    own: ServerFrameModel,
    others: ServerFrameModel,
    output: RoomOutputModel,
) -> bool {
    room.reachable(recipient) matches Some(connection_id) && output == RoomOutputModel::Send(
        connection_id,
        frame_for(recipient, seat, own, others),
    )
}

/// Whether an output is the frame of two that some recipient gets.
pub open spec fn goes_to_somebody(
    room: RoomStateModel,
    seat: Seat,
    own: ServerFrameModel,
    others: ServerFrameModel,
    output: RoomOutputModel,
) -> bool {
    exists|recipient: Seat| #[trigger] goes_to(room, recipient, seat, own, others, output)
}

/// What is sent to one seat in other words than to the rest: each of those who can be reached gets
/// the words meant for them, and nothing else is sent.
pub proof fn lemma_sent_by_seat(
    room: RoomStateModel,
    seat: Seat,
    own: ServerFrameModel,
    others: ServerFrameModel,
)
    ensures
        ({
            let after = room.sent_by_seat(seat, own, others);
            &&& room.outbox.is_prefix_of(after.outbox)
            &&& forall|i: int|
                room.outbox.len() <= i < after.outbox.len() ==> goes_to_somebody(
                    room,
                    seat,
                    own,
                    others,
                    #[trigger] after.outbox[i],
                )
            &&& room.runtime_mode is Production ==> forall|recipient: Seat|
                #[trigger] room.reachable(recipient) is Some ==> exists|i: int|
                    room.outbox.len() <= i < after.outbox.len() && goes_to(
                        room,
                        recipient,
                        seat,
                        own,
                        others,
                        #[trigger] after.outbox[i],
                    )
        }),
{
    reveal(RoomStateModel::sent_by_seat);
    let a = room.sent_to_seat(
        Seat::Unspecified,
        frame_for(Seat::Unspecified, seat, own, others),
    );
    let b = a.sent_to_seat(Seat::East, frame_for(Seat::East, seat, own, others));
    let c = b.sent_to_seat(Seat::South, frame_for(Seat::South, seat, own, others));
    let d = c.sent_to_seat(Seat::West, frame_for(Seat::West, seat, own, others));
    lemma_one_more_told(room, room, Seat::Unspecified, seat, own, others);
    lemma_one_more_told(room, a, Seat::East, seat, own, others);
    lemma_one_more_told(room, b, Seat::South, seat, own, others);
    lemma_one_more_told(room, c, Seat::West, seat, own, others);
    lemma_one_more_told(room, d, Seat::North, seat, own, others);
    let after = room.sent_by_seat(seat, own, others);
    if room.runtime_mode is Production {
        assert forall|recipient: Seat| #[trigger] room.reachable(recipient) is Some implies exists|
            i: int,
        |
            room.outbox.len() <= i < after.outbox.len() && goes_to(
                room,
                recipient,
                seat,
                own,
                others,
                #[trigger] after.outbox[i],
            ) by {
            assert(was_told(room, after, recipient, seat, own, others));
        }
    }
}

/// Whether a recipient has been sent the words meant for them.
spec fn was_told(
    room: RoomStateModel,
    after: RoomStateModel,
    recipient: Seat,
    seat: Seat,
    own: ServerFrameModel,
    others: ServerFrameModel,
) -> bool {
    exists|i: int|
        room.outbox.len() <= i < after.outbox.len() && goes_to(
            room,
            recipient,
            seat,
            own,
            others,
            #[trigger] after.outbox[i],
        )
}

proof fn lemma_one_more_told(
    room: RoomStateModel,
    before: RoomStateModel,
    recipient: Seat,
    seat: Seat,
    own: ServerFrameModel,
    others: ServerFrameModel,
)
    requires
        only_outbox_differs(room, before),
        room.outbox.is_prefix_of(before.outbox),
        forall|i: int|
            room.outbox.len() <= i < before.outbox.len() ==> goes_to_somebody(
                room,
                seat,
                own,
                others,
                #[trigger] before.outbox[i],
            ),
    ensures
        ({
            let after = before.sent_to_seat(recipient, frame_for(recipient, seat, own, others));
            &&& only_outbox_differs(room, after)
            &&& room.outbox.is_prefix_of(after.outbox)
            &&& forall|i: int|
                room.outbox.len() <= i < after.outbox.len() ==> goes_to_somebody(
                    room,
                    seat,
                    own,
                    others,
                    #[trigger] after.outbox[i],
                )
            &&& forall|told: Seat|
                was_told(room, before, told, seat, own, others) ==> #[trigger] was_told(
                    room,
                    after,
                    told,
                    seat,
                    own,
                    others,
                )
            &&& room.runtime_mode is Production && room.reachable(recipient) is Some ==> was_told(
                room,
                after,
                recipient,
                seat,
                own,
                others,
            )
        }),
{
    let after = before.sent_to_seat(recipient, frame_for(recipient, seat, own, others));
    assert(before.reachable(recipient) == room.reachable(recipient));
    assert forall|i: int| room.outbox.len() <= i < after.outbox.len() implies goes_to_somebody(
        room,
        seat,
        own,
        others,
        #[trigger] after.outbox[i],
    ) by {
        if i < before.outbox.len() {
            assert(after.outbox[i] == before.outbox[i]);
        } else {
            assert(goes_to(room, recipient, seat, own, others, after.outbox[i]));
        }
    }
    assert forall|told: Seat|
        was_told(room, before, told, seat, own, others) implies #[trigger] was_told(
        room,
        after,
        told,
        seat,
        own,
        others,
    ) by {
        let i = choose|i: int|
            room.outbox.len() <= i < before.outbox.len() && goes_to(
                room,
                told,
                seat,
                own,
                others,
                #[trigger] before.outbox[i],
            );
        assert(after.outbox[i] == before.outbox[i]);
    }
    if room.runtime_mode is Production && room.reachable(recipient) is Some {
        assert(goes_to(
            room,
            recipient,
            seat,
            own,
            others,
            after.outbox[before.outbox.len() as int],
        ));
    }
}

pub broadcast group group_announcing_keeps {
    lemma_sent_to_all_keeps,
    lemma_sent_by_seat_keeps,
}

impl RoomState {
    pub fn new(room_id: String, wall_factory: WallFactory, runtime_mode: RoomRuntimeMode) -> (r:
        RoomState)
        ensures
            r@ == new_room(room_id@, wall_factory@, runtime_mode),
    {
        broadcast use lemma_views_empty;

        let match_id = concat("match-", room_id.as_str());
        RoomState {
            room_id,
            match_id,
            room_config: RoomConfig {
                ruleset_id: String::from_str("gb_mahjong_cn_v1"),
                seat_count: 4,
                enable_flower_tiles: true,
                enable_robbing_kong: true,
                enable_kong_draw: true,
                reconnect_grace_seconds: (RECONNECT_GRACE_MS / 1000) as u32,
                action_timeout_ms: 15_000,
            },
            wall_factory,
            runtime_mode,
            should_shutdown: false,
            phase: GamePhase::Lobby,
            prevailing_wind: Seat::East,
            dealer_seat: Seat::East,
            current_turn_seat: Seat::East,
            hand_number: 1,
            dealer_streak: 0,
            wall_tiles_remaining: 144,
            dead_wall_tiles_remaining: DEAD_WALL_TILE_COUNT as u32,
            next_event_seq: 1,
            next_action_window_id: 1,
            players_by_seat: SeatMap::new(),
            player_round_state: SeatMap::new(),
            round_runtime: None,
            match_runtime: MatchRuntimeState::new(),
            user_to_seat: StringHashMap::new(),
            connection_to_user: StrMap::new(),
            outbox: Vec::new(),
        }
    }

    /// Hands over everything that is waiting to be done outside of the room.
    pub fn take_outputs(&mut self) -> (r: Vec<RoomOutput>)
        ensures
            views(r@) == old(self)@.outbox,
            final(self)@ == (RoomStateModel { outbox: Seq::empty(), ..old(self)@ }),
    {
        broadcast use lemma_views_empty;

        let mut outputs: Vec<RoomOutput> = Vec::new();
        std::mem::swap(&mut outputs, &mut self.outbox);
        outputs
    }

    pub fn allocate_event_seq(&mut self) -> (r: u64)
        requires
            old(self)@.can_number(1),
        ensures
            r == old(self)@.next_event_seq,
            final(self)@ == old(self)@.numbered(),
    {
        let event_seq: u64 = self.next_event_seq;
        self.next_event_seq = self.next_event_seq + 1;
        event_seq
    }

    pub fn current_event_seq(&self) -> (r: u64)
        ensures
            r == self@.latest_event_seq(),
    {
        self.next_event_seq.saturating_sub(1)
    }

    pub fn round_id(&self) -> (r: String)
        ensures
            r@ == self@.current_round_id(),
    {
        concat("hand-", u32_to_text(self.hand_number).as_str())
    }

    pub fn seat_for_connection(&self, connection_id: &str) -> (r: Option<Seat>)
        ensures
            r == self@.seat_of_connection(connection_id@),
    {
        match self.connection_to_user.get(connection_id) {
            Some(user_id) => match self.user_to_seat.get(user_id.as_str()) {
                Some(seat) => Some(*seat),
                None => None,
            },
            None => None,
        }
    }

    /// The first seat that nobody has taken.
    pub fn next_open_seat(&self) -> (r: Option<Seat>)
        ensures
            match r {
                Some(seat) => self@.players_by_seat.at(seat) is None && seat != Seat::Unspecified
                    && forall|other: Seat|
                    other != Seat::Unspecified && other.code() < seat.code()
                        ==> #[trigger] self@.players_by_seat.at(other) is Some,
                None => forall|seat: Seat|
                    seat != Seat::Unspecified ==> #[trigger] self@.players_by_seat.at(seat) is Some,
            },
    {
        if self.players_by_seat.get(Seat::East).is_none() {
            return Some(Seat::East);
        }
        if self.players_by_seat.get(Seat::South).is_none() {
            return Some(Seat::South);
        }
        if self.players_by_seat.get(Seat::West).is_none() {
            return Some(Seat::West);
        }
        if self.players_by_seat.get(Seat::North).is_none() {
            return Some(Seat::North);
        }
        None
    }

    pub(crate) fn push_output(&mut self, output: RoomOutput)
        ensures
            final(self)@ == old(self)@.with_output(output@),
    {
        broadcast use lemma_views_push;

        self.outbox.push(output);
    }

    pub(crate) fn send_frame(&mut self, connection_id: &str, frame: ServerFrame)
        ensures
            final(self)@ == old(self)@.sent(connection_id@, frame@),
    {
        if self.runtime_mode.emits_network_frames() {
            self.push_output(RoomOutput::Send(String::from_str(connection_id), frame));
        }
    }

    fn send_frame_to_seat(&mut self, seat: Seat, frame: &ServerFrame)
        ensures
            final(self)@ == old(self)@.sent_to_seat(seat, frame@),
    {
        let target = self.reachable_connection(seat);
        if let Some(connection_id) = target {
            self.send_frame(connection_id.as_str(), frame.clone());
        }
    }

    /// The connection on which the player of a seat can be reached.
    pub(crate) fn reachable_connection(&self, seat: Seat) -> (r: Option<String>)
        ensures
            crate::collections::opt_view(r) == self@.reachable(seat),
    {
        match self.players_by_seat.get(seat) {
            Some(player) => if player.connected {
                player.connection_id.clone()
            } else {
                None
            },
            None => None,
        }
    }

    /// Sends a frame to every player who can be reached.
    pub fn broadcast_action_frame(&mut self, frame: ServerFrame)
        ensures
            final(self)@ == old(self)@.sent_to_all(frame@),
    {
        reveal(RoomStateModel::sent_to_all);
        self.send_frame_to_seat(Seat::Unspecified, &frame);
        self.send_frame_to_seat(Seat::East, &frame);
        self.send_frame_to_seat(Seat::South, &frame);
        self.send_frame_to_seat(Seat::West, &frame);
        self.send_frame_to_seat(Seat::North, &frame);
    }

    fn send_frame_by_seat(
        &mut self,
        recipient: Seat,
        seat: Seat,
        own: &ServerFrame,
        others: &ServerFrame,
    )
        ensures
            final(self)@ == old(self)@.sent_to_seat(
                recipient,
                frame_for(recipient, seat, own@, others@),
            ),
    {
        if recipient == seat {
            self.send_frame_to_seat(recipient, own);
        } else {
            self.send_frame_to_seat(recipient, others);
        }
    }

    /// Sends one frame to the player of a seat, and another to every other player, of those who can
    /// be reached.
    pub(crate) fn broadcast_by_seat(&mut self, seat: Seat, own: ServerFrame, others: ServerFrame)
        ensures
            final(self)@ == old(self)@.sent_by_seat(seat, own@, others@),
    {
        reveal(RoomStateModel::sent_by_seat);
        self.send_frame_by_seat(Seat::Unspecified, seat, &own, &others);
        self.send_frame_by_seat(Seat::East, seat, &own, &others);
        self.send_frame_by_seat(Seat::South, seat, &own, &others);
        self.send_frame_by_seat(Seat::West, seat, &own, &others);
        self.send_frame_by_seat(Seat::North, seat, &own, &others);
    }

    pub fn persist_match_event(
        &mut self,
        event_type: &str,
        event_seq: u64,
        actor_seat: Option<Seat>,
        event_payload: Json,
    )
        ensures
            final(self)@ == old(self)@.stored(event_type@, event_seq, actor_seat, event_payload@),
    {
        if !self.runtime_mode.persists_events() {
            return;
        }
        let actor_user_id: Option<String> = match actor_seat {
            Some(seat) => match self.players_by_seat.get(seat) {
                Some(player) => Some(player.user_id.clone()),
                None => None,
            },
            None => None,
        };
        let event = NewMatchEventRecord {
            match_id: self.match_id.clone(),
            round_id: Some(self.round_id()),
            event_seq: #[verifier::truncate] (event_seq as i64),
            event_type: String::from_str(event_type),
            actor_user_id,
            actor_seat: match actor_seat {
                Some(seat) => Some(String::from_str(seat.as_str_name())),
                None => None,
            },
            request_id: None,
            correlation_id: None,
            causation_event_seq: None,
            event_payload,
        };
        self.push_output(RoomOutput::Persist(event));
    }

    pub fn record_last_action(&mut self, action: ResolvedActionRecord)
        ensures
            final(self)@ == old(self)@.with_last_action(action),
    {
        if let Some(runtime) = self.round_runtime.as_mut() {
            runtime.last_resolved_action = Some(action);
        }
    }

    pub fn sync_wall_counters(&mut self)
        ensures
            final(self)@ == old(self)@.with_wall_counters(),
    {
        if let Some(runtime) = self.round_runtime.as_ref() {
            let live: usize = runtime.live_wall.len();
            let dead: usize = runtime.dead_wall.len();
            self.wall_tiles_remaining = low_u32(live);
            self.dead_wall_tiles_remaining = low_u32(dead);
        }
    }

    pub(crate) fn close_claim_window(&mut self)
        ensures
            final(self)@ == old(self)@.without_window(),
    {
        if let Some(runtime) = self.round_runtime.as_mut() {
            runtime.active_claim_window = None;
        }
    }
}

} // verus!
