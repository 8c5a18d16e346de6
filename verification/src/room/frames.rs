//! The frames that a room sends on its own account: answers, snapshots and connection news.

use vstd::prelude::*;

use crate::collections::{group_seat_map, lemma_views_empty, views};
use crate::proto::client::{
    ActionRejected, ActionRejectedModel, ClaimWindow, ClaimWindowModel, GameSnapshot,
    GameSnapshotModel, JoinRoomResponse, JoinRoomResponseModel, PlayerConnectionChanged,
    PlayerConnectionChangedModel, PlayerState, PlayerStateModel, PlayerStatus, PromptOption,
    RejectCode, Seat, SelfHandState, SelfHandStateModel, ServerFrame, ServerFrameModel,
    ServerPayload, ServerPayloadModel, SyncReason, SyncState, SyncStateModel, Tile,
};
use crate::room::basics::{low_u32, only_outbox_differs};
use crate::room::hand::{private_count, PlayerRoundState, PlayerRoundStateModel};
use crate::room::state::{
    ActiveClaimWindowState, ActiveClaimWindowStateModel, PlayerSlotModel, RoomState, RoomStateModel,
    RECONNECT_GRACE_MS,
};
use crate::tiles::{codes_of, tile_codes};

verus! {

broadcast use group_seat_map;

/// Whether deadlines counted from a time of day still fit into sixty-four bits.
pub open spec fn clock_in_range(now_ms: u64) -> bool {
    now_ms <= u64::MAX - u32::MAX
}

/// The answer to a join request.
pub open spec fn join_response_frame(
    event_seq: u64,
    request_id: Seq<char>,
    accepted: bool,
    reject_code: RejectCode,
    room: RoomStateModel,
    seat: Seat,
    connection_id: Seq<char>,
    resume_token: Seq<char>,
    message: Seq<char>,
) -> ServerFrameModel {
    ServerFrameModel {
        event_seq,
        payload: Some(
            ServerPayloadModel::JoinRoom(
                JoinRoomResponseModel {
                    request_id,
                    accepted,
                    reject_code: reject_code.code(),
                    room_id: room.room_id,
                    match_id: room.match_id,
                    seat: seat.code(),
                    connection_id,
                    resume_token,
                    room_config: Some(room.room_config),
                    message,
                    latest_event_seq: event_seq,
                },
            ),
        ),
    }
}

pub fn build_join_room_response(
    event_seq: u64,
    request_id: &str,
    accepted: bool,
    reject_code: RejectCode,
    room: &RoomState,
    seat: Seat,
    connection_id: &str,
    resume_token: &str,
    message: &str,
) -> (r: ServerFrame)
    ensures
        r@ == join_response_frame(
            event_seq,
            request_id@,
            accepted,
            reject_code,
            room@,
            seat,
            connection_id@,
            resume_token@,
            message@,
        ),
{
    ServerFrame {
        event_seq,
        payload: Some(
            ServerPayload::JoinRoom(
                JoinRoomResponse {
                    request_id: String::from_str(request_id),
                    accepted,
                    reject_code: reject_code.as_i32(),
                    room_id: room.room_id.clone(),
                    match_id: room.match_id.clone(),
                    seat: seat.as_i32(),
                    connection_id: String::from_str(connection_id),
                    resume_token: String::from_str(resume_token),
                    room_config: Some(room.room_config.clone()),
                    message: String::from_str(message),
                    latest_event_seq: event_seq,
                },
            ),
        ),
    }
}

/// The news that a player's connection came or went.
pub open spec fn connection_changed_frame(
    event_seq: u64,
    room_id: Seq<char>,
    match_id: Seq<char>,
    user_id: Seq<char>,
    seat: Seat,
    status: PlayerStatus,
    connected: bool,
    now_ms: u64,
) -> ServerFrameModel {
    ServerFrameModel {
        event_seq,
        payload: Some(
            ServerPayloadModel::PlayerConnectionChanged(
                PlayerConnectionChangedModel {
                    room_id,
                    match_id,
                    user_id,
                    seat: seat.code(),
                    status: status.code(),
                    connected,
                    reconnect_deadline_unix_ms: if connected {
                        0
                    } else {
                        (now_ms + RECONNECT_GRACE_MS) as u64
                    },
                },
            ),
        ),
    }
}

pub fn build_player_connection_changed(
    event_seq: u64,
    room_id: &str,
    match_id: &str,
    user_id: &str,
    seat: Seat,
    status: PlayerStatus,
    connected: bool,
    now_ms: u64,
) -> (r: ServerFrame)
    requires
        clock_in_range(now_ms),
    ensures
        r@ == connection_changed_frame(
            event_seq,
            room_id@,
            match_id@,
            user_id@,
            seat,
            status,
            connected,
            now_ms,
        ),
{
    ServerFrame {
        event_seq,
        payload: Some(
            ServerPayload::PlayerConnectionChanged(
                PlayerConnectionChanged {
                    room_id: String::from_str(room_id),
                    match_id: String::from_str(match_id),
                    user_id: String::from_str(user_id),
                    seat: seat.as_i32(),
                    status: status.as_i32(),
                    connected,
                    reconnect_deadline_unix_ms: if connected {
                        0
                    } else {
                        now_ms + RECONNECT_GRACE_MS
                    },
                },
            ),
        ),
    }
}

/// The news that a request was turned down.
pub open spec fn rejected_frame(
    event_seq: u64,
    request_id: Seq<char>,
    reject_code: RejectCode,
    message: Seq<char>,
    expected_event_seq: u64,
    action_window_id: u64,
) -> ServerFrameModel {
    ServerFrameModel {
        event_seq,
        payload: Some(
            ServerPayloadModel::ActionRejected(
                ActionRejectedModel {
                    request_id,
                    reject_code: reject_code.code(),
                    message,
                    expected_event_seq,
                    actual_event_seq: event_seq,
                    action_window_id,
                },
            ),
        ),
    }
}

pub fn build_action_rejected(
    event_seq: u64,
    request_id: &str,
    reject_code: RejectCode,
    message: &str,
    expected_event_seq: u64,
    action_window_id: u64,
) -> (r: ServerFrame)
    ensures
        r@ == rejected_frame(
            event_seq,
            request_id@,
            reject_code,
            message@,
            expected_event_seq,
            action_window_id,
        ),
{
    ServerFrame {
        event_seq,
        payload: Some(
            ServerPayload::ActionRejected(
                ActionRejected {
                    request_id: String::from_str(request_id),
                    reject_code: reject_code.as_i32(),
                    message: String::from_str(message),
                    expected_event_seq,
                    actual_event_seq: event_seq,
                    action_window_id,
                },
            ),
        ),
    }
}

// ---------------------------------------------------------------------------
// Snapshots
// ---------------------------------------------------------------------------

/// What everybody may see of a player: of the hand only how many tiles it holds.
pub open spec fn public_player(
    player: PlayerSlotModel,
    hand: Option<PlayerRoundStateModel>,
    dealer_seat: Seat,
) -> PlayerStateModel {
    PlayerStateModel {
        user_id: player.user_id,
        display_name: player.display_name,
        seat: player.seat.code(),
        status: player.status.code(),
        score: player.score,
        is_dealer: player.seat == dealer_seat,
        is_connected: player.connected,
        auto_play_enabled: player.auto_play_enabled,
        concealed_tile_count: match hand {
            Some(hand) => (private_count(hand) % 0x1_0000_0000) as u32,
            None => 0,
        },
        melds: match hand {
            Some(hand) => hand.melds,
            None => Seq::empty(),
        },
        discards: match hand {
            Some(hand) => hand.discards,
            None => Seq::empty(),
        },
        flowers: match hand {
            Some(hand) => tile_codes(hand.flowers),
            None => Seq::empty(),
        },
        replacement_draw_count: match hand {
            Some(hand) => hand.replacement_draw_count,
            None => 0,
        },
    }
}

/// The recipient's own hand, tile by tile.
pub open spec fn own_hand(hand: Option<PlayerRoundStateModel>) -> SelfHandStateModel {
    match hand {
        Some(hand) => SelfHandStateModel {
            concealed_tiles: tile_codes(hand.concealed_tiles),
            drawn_tile: match hand.drawn_tile {
                Some(tile) => tile.code(),
                None => Tile::Unspecified.code(),
            },
        },
        None => SelfHandStateModel {
            concealed_tiles: Seq::empty(),
            drawn_tile: Tile::Unspecified.code(),
        },
    }
}

/// The wire numbers of a sequence of seats.
pub open spec fn seat_codes(seats: Seq<Seat>) -> Seq<i32> {
    Seq::new(seats.len(), |i: int| seats[i].code())
}

/// The claim window as one recipient sees it: with that recipient's own options, and without any
/// once that recipient has answered.
pub open spec fn window_for(window: ActiveClaimWindowStateModel, recipient: Seat) -> ClaimWindowModel {
    ClaimWindowModel {
        action_window_id: window.action_window_id,
        source_event_seq: window.source_event_seq,
        source_seat: window.source_seat.code(),
        target_tile: window.target_tile.code(),
        trigger_action_kind: window.trigger_action_kind.code(),
        eligible_seats: seat_codes(window.eligible_seats),
        options: if window.responded_seats.at(recipient) is Some {
            Seq::empty()
        } else {
            match window.options_by_seat.at(recipient) {
                Some(options) => options,
                None => Seq::empty(),
            }
        },
        deadline_unix_ms: window.deadline_unix_ms,
    }
}

impl RoomStateModel {
    /// The open claim window.
    pub open spec fn window(self) -> Option<ActiveClaimWindowStateModel> {
        match self.round_runtime {
            Some(runtime) => runtime.active_claim_window,
            None => None,
        }
    }

    /// What everybody may see of the player of a seat, if there is one.
    pub open spec fn public_at(self, seat: Seat) -> Seq<PlayerStateModel> {
        match self.players_by_seat.at(seat) {
            Some(player) => seq![
                public_player(player, self.player_round_state.at(seat), self.dealer_seat),
            ],
            None => Seq::empty(),
        }
    }

    /// What everybody may see of the players, in the order of play.
    pub open spec fn public_players(self) -> Seq<PlayerStateModel> {
        self.public_at(Seat::East) + self.public_at(Seat::South) + self.public_at(Seat::West)
            + self.public_at(Seat::North)
    }

    /// The full snapshot for one recipient.
    pub open spec fn sync_frame(
        self,
        recipient: Seat,
        event_seq: u64,
        reason: SyncReason,
        now_ms: u64,
    ) -> ServerFrameModel {
        ServerFrameModel {
            event_seq,
            payload: Some(
                ServerPayloadModel::SyncState(
                    SyncStateModel {
                        room_id: self.room_id,
                        match_id: self.match_id,
                        round_id: self.current_round_id(),
                        reason: reason.code(),
                        server_time_ms: now_ms,
                        snapshot: Some(
                            GameSnapshotModel {
                                room_config: Some(self.room_config),
                                phase: self.phase.code(),
                                self_seat: recipient.code(),
                                prevailing_wind: self.prevailing_wind.code(),
                                dealer_seat: self.dealer_seat.code(),
                                current_turn_seat: self.current_turn_seat.code(),
                                hand_number: self.hand_number,
                                dealer_streak: self.dealer_streak,
                                wall_tiles_remaining: self.wall_tiles_remaining,
                                dead_wall_tiles_remaining: self.dead_wall_tiles_remaining,
                                latest_event_seq: event_seq,
                                players: self.public_players(),
                                self_hand: Some(own_hand(self.player_round_state.at(recipient))),
                                active_claim_window: match self.window() {
                                    Some(window) => Some(window_for(window, recipient)),
                                    None => None,
                                },
                                action_deadline_unix_ms: match self.window() {
                                    Some(window) => window.deadline_unix_ms,
                                    None => 0,
                                },
                            },
                        ),
                    },
                ),
            ),
        }
    }

    /// The room with a snapshot on its way to the player of a seat.
    pub open spec fn synced_seat(
        self,
        seat: Seat,
        event_seq: u64,
        reason: SyncReason,
        now_ms: u64,
    ) -> RoomStateModel {
        self.sent_to_seat(seat, self.sync_frame(seat, event_seq, reason, now_ms))
    }

    /// The room with a snapshot on its way to each seated player who can be reached, all under one
    /// event number.
    #[verifier::opaque]
    pub open spec fn synced(self, reason: SyncReason, now_ms: u64) -> RoomStateModel {
        let event_seq = self.next_event_seq;
        self.numbered().synced_seat(Seat::East, event_seq, reason, now_ms).synced_seat(
            Seat::South,
            event_seq,
            reason,
            now_ms,
        ).synced_seat(Seat::West, event_seq, reason, now_ms).synced_seat(
            Seat::North,
            event_seq,
            reason,
            now_ms,
        )
    }

    /// The room with the news of a seat's connection on its way to everybody.
    pub open spec fn connection_announced(self, seat: Seat, connected: bool, now_ms: u64) -> RoomStateModel {
        match self.players_by_seat.at(seat) {
            Some(player) => self.numbered().sent_to_all(
                connection_changed_frame(
                    self.next_event_seq,
                    self.room_id,
                    self.match_id,
                    player.user_id,
                    seat,
                    player.status,
                    connected,
                    now_ms,
                ),
            ),
            None => self,
        }
    }

    /// The connection on which the sender of a request is told of its rejection.
    pub open spec fn answer_connection(self, connection_id: Seq<char>) -> Option<Seq<char>> {
        match self.seat_of_connection(connection_id) {
            Some(seat) => match self.players_by_seat.at(seat) {
                Some(player) => player.connection_id,
                None => None,
            },
            None => None,
        }
    }

    /// The room with a rejection on its way to the sender of a request. Somebody who has no seat
    /// here is told nothing.
    pub open spec fn rejected(
        self,
        connection_id: Seq<char>,
        request_id: Seq<char>,
        reject_code: RejectCode,
        message: Seq<char>,
        expected_event_seq: u64,
        action_window_id: u64,
    ) -> RoomStateModel {
        match self.answer_connection(connection_id) {
            Some(target) => self.numbered().sent(
                target,
                rejected_frame(
                    self.next_event_seq,
                    request_id,
                    reject_code,
                    message,
                    expected_event_seq,
                    action_window_id,
                ),
            ),
            None => self,
        }
    }
}

/// Sending snapshots uses one event number and changes nothing else but the outbox.
pub broadcast proof fn lemma_synced_keeps(room: RoomStateModel, reason: SyncReason, now_ms: u64)
    ensures
        only_outbox_differs(room.numbered(), #[trigger] room.synced(reason, now_ms)),
{
    reveal(RoomStateModel::synced);
    let event_seq = room.next_event_seq;
    let a = room.numbered().synced_seat(Seat::East, event_seq, reason, now_ms);
    let b = a.synced_seat(Seat::South, event_seq, reason, now_ms);
    let c = b.synced_seat(Seat::West, event_seq, reason, now_ms);
    assert(only_outbox_differs(room.numbered(), a));
    assert(only_outbox_differs(room.numbered(), b));
    assert(only_outbox_differs(room.numbered(), c));
}

pub(crate) fn copy_options(options: &Vec<PromptOption>) -> (r: Vec<PromptOption>)
    ensures
        views(r@) == views(options@),
{
    let copy = options.clone();
    assert(views(copy@) =~= views(options@));
    copy
}

fn window_for_recipient(window: &ActiveClaimWindowState, recipient: Seat) -> (r: ClaimWindow)
    ensures
        r@ == window_for(window@, recipient),
{
    broadcast use lemma_views_empty;

    let mut eligible_seats: Vec<i32> = Vec::new();
    let mut i: usize = 0;
    while i < window.eligible_seats.len()
        invariant
            i <= window.eligible_seats.len(),
            eligible_seats.len() == i,
            forall|j: int|
                0 <= j < i ==> #[trigger] eligible_seats@[j] == window.eligible_seats@[j].code(),
        decreases window.eligible_seats.len() - i,
    {
        eligible_seats.push(window.eligible_seats[i].as_i32());
        i = i + 1;
    }
    assert(eligible_seats@ =~= seat_codes(window.eligible_seats@));
    ClaimWindow {
        action_window_id: window.action_window_id,
        source_event_seq: window.source_event_seq,
        source_seat: window.source_seat.as_i32(),
        target_tile: window.target_tile.as_i32(),
        trigger_action_kind: window.trigger_action_kind.as_i32(),
        eligible_seats,
        options: if window.responded_seats.get(recipient).is_some() {
            Vec::new()
        } else {
            match window.options_by_seat.get(recipient) {
                Some(options) => copy_options(&options.items),
                None => Vec::new(),
            }
        },
        deadline_unix_ms: window.deadline_unix_ms,
    }
}

fn private_count_u32(hand: &PlayerRoundState) -> (r: u32)
    ensures
        r == private_count(hand@) % 0x1_0000_0000,
{
    let concealed: u32 = low_u32(hand.concealed_tiles.len());
    if hand.drawn_tile.is_some() {
        concealed.wrapping_add(1)
    } else {
        concealed
    }
}

fn public_player_state(
    room: &RoomState,
    seat: Seat,
) -> (r: Option<PlayerState>)
    ensures
        room@.public_at(seat) == (match r {
            Some(state) => seq![state@],
            None => Seq::empty(),
        }),
{
    broadcast use lemma_views_empty;

    match room.players_by_seat.get(seat) {
        Some(player) => {
            let hand = room.player_round_state.get(seat);
            let state = match hand {
                Some(hand) => PlayerState {
                    user_id: player.user_id.clone(),
                    display_name: player.display_name.clone(),
                    seat: player.seat.as_i32(),
                    status: player.status.as_i32(),
                    score: player.score,
                    is_dealer: player.seat == room.dealer_seat,
                    is_connected: player.connected,
                    auto_play_enabled: player.auto_play_enabled,
                    concealed_tile_count: private_count_u32(hand),
                    melds: hand.melds.clone(),
                    discards: hand.discards.clone(),
                    flowers: codes_of(&hand.flowers),
                    replacement_draw_count: hand.replacement_draw_count,
                },
                None => PlayerState {
                    user_id: player.user_id.clone(),
                    display_name: player.display_name.clone(),
                    seat: player.seat.as_i32(),
                    status: player.status.as_i32(),
                    score: player.score,
                    is_dealer: player.seat == room.dealer_seat,
                    is_connected: player.connected,
                    auto_play_enabled: player.auto_play_enabled,
                    concealed_tile_count: 0,
                    melds: Vec::new(),
                    discards: Vec::new(),
                    flowers: Vec::new(),
                    replacement_draw_count: 0,
                },
            };
            assert(state@ =~= public_player(
                player@,
                room@.player_round_state.at(seat),
                room.dealer_seat,
            ));
            Some(state)
        },
        None => None,
    }
}

fn push_public_player(players: &mut Vec<PlayerState>, room: &RoomState, seat: Seat)
    ensures
        views(final(players)@) == views(old(players)@) + room@.public_at(seat),
{
    let ghost before = players@;
    if let Some(state) = public_player_state(room, seat) {
        players.push(state);
    }
    assert(views(players@) =~= views(before) + room@.public_at(seat));
}

impl RoomState {
    pub fn build_sync_state_for(
        &self,
        recipient_seat: Seat,
        event_seq: u64,
        reason: SyncReason,
        now_ms: u64,
    ) -> (r: ServerFrame)
        ensures
            r@ == self@.sync_frame(recipient_seat, event_seq, reason, now_ms),
    {
        let mut players: Vec<PlayerState> = Vec::new();
        push_public_player(&mut players, self, Seat::East);
        push_public_player(&mut players, self, Seat::South);
        push_public_player(&mut players, self, Seat::West);
        push_public_player(&mut players, self, Seat::North);
        assert(views(players@) =~= self@.public_players());

        let self_hand = match self.player_round_state.get(recipient_seat) {
            Some(hand) => SelfHandState {
                concealed_tiles: codes_of(&hand.concealed_tiles),
                drawn_tile: match hand.drawn_tile {
                    Some(tile) => tile.as_i32(),
                    None => Tile::Unspecified.as_i32(),
                },
            },
            None => SelfHandState {
                concealed_tiles: Vec::new(),
                drawn_tile: Tile::Unspecified.as_i32(),
            },
        };
        assert(self_hand@ =~= own_hand(self@.player_round_state.at(recipient_seat)));

        let (active_claim_window, action_deadline_unix_ms): (Option<ClaimWindow>, u64) =
            match self.round_runtime.as_ref() {
            Some(runtime) => match runtime.active_claim_window.as_ref() {
                Some(window) => (
                    Some(window_for_recipient(window, recipient_seat)),
                    window.deadline_unix_ms,
                ),
                None => (None, 0),
            },
            None => (None, 0),
        };

        ServerFrame {
            event_seq,
            payload: Some(
                ServerPayload::SyncState(
                    SyncState {
                        room_id: self.room_id.clone(),
                        match_id: self.match_id.clone(),
                        round_id: self.round_id(),
                        reason: reason.as_i32(),
                        server_time_ms: now_ms,
                        snapshot: Some(
                            GameSnapshot {
                                room_config: Some(self.room_config.clone()),
                                phase: self.phase.as_i32(),
                                self_seat: recipient_seat.as_i32(),
                                prevailing_wind: self.prevailing_wind.as_i32(),
                                dealer_seat: self.dealer_seat.as_i32(),
                                current_turn_seat: self.current_turn_seat.as_i32(),
                                hand_number: self.hand_number,
                                dealer_streak: self.dealer_streak,
                                wall_tiles_remaining: self.wall_tiles_remaining,
                                dead_wall_tiles_remaining: self.dead_wall_tiles_remaining,
                                latest_event_seq: event_seq,
                                players,
                                self_hand: Some(self_hand),
                                active_claim_window,
                                action_deadline_unix_ms,
                            },
                        ),
                    },
                ),
            ),
        }
    }

    fn sync_seat(&mut self, seat: Seat, event_seq: u64, reason: SyncReason, now_ms: u64)
        ensures
            final(self)@ == old(self)@.synced_seat(seat, event_seq, reason, now_ms),
    {
        let target = self.reachable_connection(seat);
        if let Some(connection_id) = target {
            let frame = self.build_sync_state_for(seat, event_seq, reason, now_ms);
            self.send_frame(connection_id.as_str(), frame);
        }
    }

    pub fn broadcast_sync_state(&mut self, reason: SyncReason, now_ms: u64)
        requires
            old(self)@.can_number(1),
        ensures
            final(self)@ == old(self)@.synced(reason, now_ms),
    {
        reveal(RoomStateModel::synced);
        let event_seq: u64 = self.allocate_event_seq();
        self.sync_seat(Seat::East, event_seq, reason, now_ms);
        self.sync_seat(Seat::South, event_seq, reason, now_ms);
        self.sync_seat(Seat::West, event_seq, reason, now_ms);
        self.sync_seat(Seat::North, event_seq, reason, now_ms);
    }

    pub fn broadcast_connection_changed(&mut self, seat: Seat, connected: bool, now_ms: u64)
        requires
            old(self)@.can_number(1),
            clock_in_range(now_ms),
        ensures
            final(self)@ == old(self)@.connection_announced(seat, connected, now_ms),
    {
        let (user_id, status): (String, PlayerStatus) = match self.players_by_seat.get(seat) {
            Some(player) => (player.user_id.clone(), player.status),
            None => {
                return;
            },
        };
        let event_seq: u64 = self.allocate_event_seq();
        let frame = build_player_connection_changed(
            event_seq,
            self.room_id.as_str(),
            self.match_id.as_str(),
            user_id.as_str(),
            seat,
            status,
            connected,
            now_ms,
        );
        self.broadcast_action_frame(frame);
    }

    pub fn send_reject_to_connection(
        &mut self,
        connection_id: &str,
        request_id: &str,
        reject_code: RejectCode,
        message: &str,
        expected_event_seq: u64,
        action_window_id: u64,
    )
        requires
            old(self)@.can_number(1),
        ensures
            final(self)@ == old(self)@.rejected(
                connection_id@,
                request_id@,
                reject_code,
                message@,
                expected_event_seq,
                action_window_id,
            ),
    {
        let target: Option<String> = match self.seat_for_connection(connection_id) {
            Some(seat) => match self.players_by_seat.get(seat) {
                Some(player) => player.connection_id.clone(),
                None => None,
            },
            None => None,
        };
        if let Some(target) = target {
            let event_seq: u64 = self.allocate_event_seq();
            let frame = build_action_rejected(
                event_seq,
                request_id,
                reject_code,
                message,
                expected_event_seq,
                action_window_id,
            );
            self.send_frame(target.as_str(), frame);
        }
    }
}

// ---------------------------------------------------------------------------
// What a snapshot tells
// ---------------------------------------------------------------------------

/// Whether two hands look the same from outside: as many hidden tiles, and the same on the table.
pub open spec fn looks_the_same(
    a: Option<PlayerRoundStateModel>,
    b: Option<PlayerRoundStateModel>,
) -> bool {
    match (a, b) {
        (Some(a), Some(b)) => private_count(a) == private_count(b) && a.melds == b.melds
            && a.discards == b.discards && a.flowers == b.flowers && a.replacement_draw_count
            == b.replacement_draw_count,
        (None, None) => true,
        _ => false,
    }
}

/// Whether two claim windows differ at most in what seats other than `recipient` were offered or
/// answered.
pub open spec fn same_window_for(
    a: Option<ActiveClaimWindowStateModel>,
    b: Option<ActiveClaimWindowStateModel>,
    recipient: Seat,
) -> bool {
    match (a, b) {
        (Some(a), Some(b)) => {
            &&& a.action_window_id == b.action_window_id
            &&& a.source_event_seq == b.source_event_seq
            &&& a.source_seat == b.source_seat
            &&& a.target_tile == b.target_tile
            &&& a.trigger_action_kind == b.trigger_action_kind
            &&& a.eligible_seats == b.eligible_seats
            &&& a.deadline_unix_ms == b.deadline_unix_ms
            &&& a.options_by_seat.at(recipient) == b.options_by_seat.at(recipient)
            &&& a.responded_seats.at(recipient) == b.responded_seats.at(recipient)
        },
        (None, None) => true,
        _ => false,
    }
}

/// Whether two rooms differ at most in what `recipient` may not see: the walls, the hidden tiles of
/// the others, and their side of a claim window.
pub open spec fn indistinguishable_for(a: RoomStateModel, b: RoomStateModel, recipient: Seat) -> bool {
    &&& a.room_id == b.room_id
    &&& a.match_id == b.match_id
    &&& a.room_config == b.room_config
    &&& a.phase == b.phase
    &&& a.prevailing_wind == b.prevailing_wind
    &&& a.dealer_seat == b.dealer_seat
    &&& a.current_turn_seat == b.current_turn_seat
    &&& a.hand_number == b.hand_number
    &&& a.dealer_streak == b.dealer_streak
    &&& a.wall_tiles_remaining == b.wall_tiles_remaining
    &&& a.dead_wall_tiles_remaining == b.dead_wall_tiles_remaining
    &&& a.players_by_seat == b.players_by_seat
    &&& a.player_round_state.at(recipient) == b.player_round_state.at(recipient)
    &&& forall|seat: Seat|
        looks_the_same(
            #[trigger] a.player_round_state.at(seat),
            b.player_round_state.at(seat),
        )
    &&& same_window_for(a.window(), b.window(), recipient)
}

/// A snapshot tells a player nothing about the hidden tiles of the others: rooms that differ only
/// in those give the same snapshot.
pub proof fn law_snapshot_hides_other_hands(
    a: RoomStateModel,
    b: RoomStateModel,
    recipient: Seat,
    event_seq: u64,
    reason: SyncReason,
    now_ms: u64,
)
    requires
        indistinguishable_for(a, b, recipient),
    ensures
        a.sync_frame(recipient, event_seq, reason, now_ms) == b.sync_frame(
            recipient,
            event_seq,
            reason,
            now_ms,
        ),
{
    assert(a.public_at(Seat::East) =~= b.public_at(Seat::East)) by {
        assert(looks_the_same(a.player_round_state.at(Seat::East), b.player_round_state.at(Seat::East)));
    }
    assert(a.public_at(Seat::South) =~= b.public_at(Seat::South)) by {
        assert(looks_the_same(a.player_round_state.at(Seat::South), b.player_round_state.at(Seat::South)));
    }
    assert(a.public_at(Seat::West) =~= b.public_at(Seat::West)) by {
        assert(looks_the_same(a.player_round_state.at(Seat::West), b.player_round_state.at(Seat::West)));
    }
    assert(a.public_at(Seat::North) =~= b.public_at(Seat::North)) by {
        assert(looks_the_same(a.player_round_state.at(Seat::North), b.player_round_state.at(Seat::North)));
    }
}

/// A snapshot gives its recipient the whole of their own hand: every hidden tile and the tile just
/// drawn.
pub proof fn law_snapshot_shows_own_hand(
    room: RoomStateModel,
    recipient: Seat,
    event_seq: u64,
    reason: SyncReason,
    now_ms: u64,
)
    ensures
        ({
            let frame = room.sync_frame(recipient, event_seq, reason, now_ms);
            let shown = frame.payload->0->SyncState_0.snapshot->0.self_hand->0;
            match room.player_round_state.at(recipient) {
                Some(hand) => shown.concealed_tiles == tile_codes(hand.concealed_tiles)
                    && Tile::decode(shown.drawn_tile) == (match hand.drawn_tile {
                    Some(tile) => Some(tile),
                    None => Some(Tile::Unspecified),
                }),
                None => shown.concealed_tiles.len() == 0,
            }
        }),
{
    if let Some(hand) = room.player_round_state.at(recipient) {
        if let Some(tile) = hand.drawn_tile {
            crate::proto::client::law_tile_codes(tile, tile.code());
        }
    }
}

} // verus!
