//! The commands of a room.

use vstd::prelude::*;

use crate::collections::{group_seat_map, opt_view, SeatMap};
use crate::proto::client::{
    GamePhase, PlayerAction, PlayerActionModel, PlayerActionRequest, PlayerActionRequestModel,
    PlayerStatus, ReadyRequest, RejectCode, ResumeSessionRequest, ResumeSessionRequestModel, Seat,
    ServerFrameModel, SyncReason,
};
use crate::room::actions::StepModel;
use crate::room::basics::group_announcing_keeps;
use crate::room::convert::{failure, ActionValidationError, ActionValidationErrorModel};
use crate::room::frames::{
    build_action_rejected, build_join_room_response, clock_in_range, connection_changed_frame,
    join_response_frame, lemma_synced_keeps, rejected_frame,
};
use crate::room::hand::{empty_hand, PlayerRoundState};
use crate::room::match_flow::match_settlement_frame;
use crate::room::rounds::{lemma_next_wall_len, lemma_round_started_keeps};
use crate::room::state::{
    AuthorizedJoin, AuthorizedJoinModel, PlayerSlot, PlayerSlotModel, RoomOutputModel, RoomState,
    RoomStateModel, INITIAL_SCORE,
};
use crate::room::steps::{PendingCall, RequestContext, RequestContextModel, ValidationPurposeModel};
use crate::text::{concat4, decimal, same_text, u64_to_text};

verus! {

broadcast use {group_announcing_keeps, lemma_synced_keeps, group_seat_map};

/// The token with which a player can come back to a room.
pub open spec fn resume_token_of(room_id: Seq<char>, user_id: Seq<char>) -> Seq<char> {
    "resume-"@ + room_id + "-"@ + user_id
}

/// A player who has just taken a seat.
pub open spec fn new_player(room_id: Seq<char>, join: AuthorizedJoinModel, connection_id: Seq<char>) -> PlayerSlotModel {
    PlayerSlotModel {
        user_id: join.user_id,
        display_name: join.display_name,
        seat: join.seat,
        status: PlayerStatus::Joined,
        score: INITIAL_SCORE,
        connected: true,
        auto_play_enabled: false,
        connection_id: Some(connection_id),
        resume_token: resume_token_of(room_id, join.user_id),
    }
}

/// Whether a player is ready; an empty seat is no obstacle.
pub open spec fn ready_or_absent(player: Option<PlayerSlotModel>) -> bool {
    match player {
        Some(player) => player.status == PlayerStatus::Ready,
        None => true,
    }
}

impl RoomStateModel {
    /// The room with an answer to a join request on its way.
    pub open spec fn join_answered(
        self,
        request_id: Seq<char>,
        connection_id: Seq<char>,
        accepted: bool,
        reject_code: RejectCode,
        seat: Seat,
        resume_token: Seq<char>,
        message: Seq<char>,
    ) -> RoomStateModel {
        self.numbered().sent(
            connection_id,
            join_response_frame(
                self.next_event_seq,
                request_id,
                accepted,
                reject_code,
                self,
                seat,
                connection_id,
                resume_token,
                message,
            ),
        )
    }

    /// The room with a new player at a seat.
    pub open spec fn with_player(self, join: AuthorizedJoinModel, connection_id: Seq<char>) -> RoomStateModel {
        RoomStateModel {
            connection_to_user: self.connection_to_user.insert(connection_id, join.user_id),
            user_to_seat: self.user_to_seat.insert(join.user_id, join.seat),
            players_by_seat: self.players_by_seat.with(
                join.seat,
                Some(new_player(self.room_id, join, connection_id)),
            ),
            player_round_state: self.player_round_state.with(join.seat, Some(empty_hand())),
            ..self
        }
    }

    /// A request to take the seat that the gateway has confirmed. Nobody sits twice, and nobody sits
    /// on somebody else.
    #[verifier::opaque]
    pub open spec fn join_requested(
        self,
        request_id: Seq<char>,
        connection_id: Seq<char>,
        join: AuthorizedJoinModel,
        now_ms: u64,
    ) -> RoomStateModel {
        if self.user_to_seat.contains_key(join.user_id) {
            self.join_answered(
                request_id,
                connection_id,
                false,
                RejectCode::AlreadyJoined,
                self.user_to_seat[join.user_id],
                Seq::empty(),
                "user already joined this room"@,
            )
        } else if self.players_by_seat.at(join.seat) is Some {
            self.join_answered(
                request_id,
                connection_id,
                false,
                RejectCode::SeatUnavailable,
                join.seat,
                Seq::empty(),
                "authorized seat is no longer available"@,
            )
        } else {
            self.with_player(join, connection_id).join_answered(
                request_id,
                connection_id,
                true,
                RejectCode::Unspecified,
                join.seat,
                resume_token_of(self.room_id, join.user_id),
                "joined room task successfully"@,
            ).synced(SyncReason::ServerResync, now_ms).connection_announced(join.seat, true, now_ms)
        }
    }

    /// The room with the ready mark of a player set or taken back.
    pub open spec fn with_ready_mark(self, seat: Seat, ready: bool) -> RoomStateModel {
        match self.players_by_seat.at(seat) {
            Some(player) => RoomStateModel {
                players_by_seat: self.players_by_seat.with(
                    seat,
                    Some(
                        PlayerSlotModel {
                            status: if ready {
                                PlayerStatus::Ready
                            } else {
                                PlayerStatus::Joined
                            },
                            ..player
                        },
                    ),
                ),
                ..self
            },
            None => self,
        }
    }

    /// Whether as many players as the room wants are seated, and all of them ready.
    pub open spec fn all_ready(self) -> bool {
        &&& self.players_by_seat.filled() == self.room_config.seat_count
        &&& ready_or_absent(self.players_by_seat.unspecified)
        &&& ready_or_absent(self.players_by_seat.east)
        &&& ready_or_absent(self.players_by_seat.south)
        &&& ready_or_absent(self.players_by_seat.west)
        &&& ready_or_absent(self.players_by_seat.north)
    }

    /// A request to change the ready mark. The hand starts when the last player is ready.
    #[verifier::opaque]
    pub open spec fn ready_requested(
        self,
        request_id: Seq<char>,
        connection_id: Seq<char>,
        ready: bool,
        now_ms: u64,
    ) -> RoomStateModel {
        match self.seat_of_connection(connection_id) {
            None => self,
            Some(seat) => {
                let marked = self.with_ready_mark(seat, ready);
                if marked.all_ready() {
                    let (started, result) = marked.round_started(marked.next_wall(now_ms));
                    match result {
                        Err(error) => started.rejected(
                            connection_id,
                            request_id,
                            error.reject_code,
                            error.message,
                            0,
                            0,
                        ),
                        Ok(_) => started.synced(SyncReason::RoundStart, now_ms),
                    }
                } else {
                    marked.in_phase(GamePhase::Lobby).synced(SyncReason::ServerResync, now_ms)
                }
            },
        }
    }

    /// The room with a rejection on its way to a connection that has no seat here.
    pub open spec fn turned_away(
        self,
        request_id: Seq<char>,
        connection_id: Seq<char>,
        reject_code: RejectCode,
        message: Seq<char>,
        expected_event_seq: u64,
    ) -> RoomStateModel {
        self.numbered().sent(
            connection_id,
            rejected_frame(
                self.next_event_seq,
                request_id,
                reject_code,
                message,
                expected_event_seq,
                0,
            ),
        )
    }

    /// The room in which a player's seat hangs on a new connection.
    pub open spec fn reconnected(self, seat: Seat, player: PlayerSlotModel, connection_id: Seq<char>) -> RoomStateModel {
        let forgotten = match player.connection_id {
            Some(before) => self.connection_to_user.remove(before),
            None => self.connection_to_user,
        };
        RoomStateModel {
            connection_to_user: forgotten.insert(connection_id, player.user_id),
            players_by_seat: self.players_by_seat.with(
                seat,
                Some(
                    PlayerSlotModel {
                        connected: true,
                        connection_id: Some(connection_id),
                        ..player
                    },
                ),
            ),
            ..self
        }
    }

    /// The room with the outcome of a finished match on its way to a connection once more.
    pub open spec fn outcome_resent(self, connection_id: Seq<char>) -> RoomStateModel {
        match self.match_runtime.last_match_settlement {
            Some(summary) => self.sent(
                connection_id,
                match_settlement_frame(self.room_id, self.match_id, summary),
            ),
            None => self,
        }
    }

    /// A request to take up a seat again. Whoever holds the seat's token gets a snapshot, and the
    /// outcome if the match is over.
    #[verifier::opaque]
    pub open spec fn resume_requested(
        self,
        request_id: Seq<char>,
        connection_id: Seq<char>,
        request: ResumeSessionRequestModel,
        now_ms: u64,
    ) -> RoomStateModel {
        if !self.user_to_seat.contains_key(request.user_id) {
            self.turned_away(
                request_id,
                connection_id,
                RejectCode::NotInRoom,
                "user is not known in this room"@,
                request.last_received_event_seq,
            )
        } else {
            let seat = self.user_to_seat[request.user_id];
            match self.players_by_seat.at(seat) {
                None => self.turned_away(
                    request_id,
                    connection_id,
                    RejectCode::InternalError,
                    "room state lost player seat mapping"@,
                    request.last_received_event_seq,
                ),
                Some(player) => if player.resume_token != request.resume_token {
                    self.turned_away(
                        request_id,
                        connection_id,
                        RejectCode::AuthFailed,
                        "resume token does not match room state"@,
                        request.last_received_event_seq,
                    )
                } else {
                    let back = self.reconnected(seat, player, connection_id).numbered();
                    back.sent(
                        connection_id,
                        back.sync_frame(
                            seat,
                            self.next_event_seq,
                            SyncReason::Reconnect,
                            now_ms,
                        ),
                    ).outcome_resent(connection_id).connection_announced(seat, true, now_ms)
                },
            }
        }
    }

    /// A connection that went away. Its player keeps the seat.
    #[verifier::opaque]
    pub open spec fn disconnected(self, connection_id: Seq<char>, now_ms: u64) -> RoomStateModel {
        if !self.connection_to_user.contains_key(connection_id) {
            self
        } else {
            let user_id = self.connection_to_user[connection_id];
            let forgotten = RoomStateModel {
                connection_to_user: self.connection_to_user.remove(connection_id),
                ..self
            };
            if !self.user_to_seat.contains_key(user_id) {
                forgotten
            } else {
                let seat = self.user_to_seat[user_id];
                match self.players_by_seat.at(seat) {
                    None => forgotten,
                    Some(player) => RoomStateModel {
                        players_by_seat: self.players_by_seat.with(
                            seat,
                            Some(
                                PlayerSlotModel {
                                    connected: false,
                                    connection_id: None,
                                    ..player
                                },
                            ),
                        ),
                        ..forgotten
                    }.synced(SyncReason::ServerResync, now_ms).connection_announced(
                        seat,
                        false,
                        now_ms,
                    ),
                }
            }
        }
    }

    /// The room without the player of a seat, who is told so.
    pub open spec fn without_player(self, user_id: Seq<char>, seat: Seat) -> RoomStateModel {
        let cleared = RoomStateModel {
            user_to_seat: self.user_to_seat.remove(user_id),
            players_by_seat: self.players_by_seat.with(seat, None),
            player_round_state: self.player_round_state.with(seat, None),
            ..self
        };
        match self.players_by_seat.at(seat) {
            Some(player) => match player.connection_id {
                Some(connection_id) => RoomStateModel {
                    connection_to_user: self.connection_to_user.remove(connection_id),
                    ..cleared
                }.turned_away(
                    Seq::empty(),
                    connection_id,
                    RejectCode::NotInRoom,
                    "player was removed from the lobby room"@,
                    0,
                ),
                None => cleared,
            },
            None => cleared,
        }
    }

    /// A player whom the lobby takes out of the room. Once the game is on, nobody is taken out.
    #[verifier::opaque]
    pub open spec fn removal_requested(self, user_id: Seq<char>, now_ms: u64) -> RoomStateModel {
        if self.phase != GamePhase::Lobby || !self.user_to_seat.contains_key(user_id) {
            self
        } else {
            self.without_player(user_id, self.user_to_seat[user_id]).synced(
                SyncReason::ServerResync,
                now_ms,
            )
        }
    }

    /// A request to switch automatic play on or off.
    pub open spec fn auto_play_requested(self, seat: Seat, enabled: bool, now_ms: u64) -> RoomStateModel {
        match self.players_by_seat.at(seat) {
            Some(player) => RoomStateModel {
                players_by_seat: self.players_by_seat.with(
                    seat,
                    Some(PlayerSlotModel { auto_play_enabled: enabled, ..player }),
                ),
                ..self
            }.synced(SyncReason::ServerResync, now_ms),
            None => self,
        }
    }

    /// What speaks against looking at a player's action at all: another match, another hand, or a
    /// state that the player has not seen yet.
    pub open spec fn staleness(self, request: PlayerActionRequestModel) -> Option<
        ActionValidationErrorModel,
    > {
        if request.match_id != self.match_id {
            Some(
                failure(
                    RejectCode::InvalidRequest,
                    "match_id "@ + request.match_id + " does not match active room match "@
                        + self.match_id,
                ),
            )
        } else if request.round_id != self.current_round_id() {
            Some(
                failure(
                    RejectCode::InvalidRequest,
                    "round_id "@ + request.round_id + " does not match active round "@
                        + self.current_round_id(),
                ),
            )
        } else if request.expected_event_seq != self.latest_event_seq() {
            Some(
                failure(
                    RejectCode::StaleEventSeq,
                    "expected_event_seq "@ + decimal(request.expected_event_seq as nat)
                        + " is stale; current server event_seq is "@ + decimal(
                        self.latest_event_seq() as nat,
                    ),
                ),
            )
        } else {
            None
        }
    }

    /// What the sender of an action is referred to when it is turned down. Whoever acted on an old
    /// state is told the current event number.
    pub open spec fn action_context(
        self,
        request_id: Seq<char>,
        connection_id: Seq<char>,
        request: PlayerActionRequestModel,
    ) -> RequestContextModel {
        RequestContextModel {
            request_id,
            connection_id,
            expected_event_seq: if request.match_id == self.match_id && request.round_id
                == self.current_round_id() {
                self.latest_event_seq()
            } else {
                request.expected_event_seq
            },
            action_window_id: request.action_window_id,
        }
    }

    /// A player's action.
    #[verifier::opaque]
    pub open spec fn action_requested(
        self,
        request_id: Seq<char>,
        connection_id: Seq<char>,
        request: PlayerActionRequestModel,
        now_ms: u64,
    ) -> StepModel {
        let context = self.action_context(request_id, connection_id, request);
        match self.seat_of_connection(connection_id) {
            None => (self, None),
            Some(seat) => match self.staleness(request) {
                Some(error) => (self.rejected_in(context, error), None),
                None => match request.action {
                    None => (
                        self.rejected_in(
                            context,
                            failure(
                                RejectCode::InvalidRequest,
                                "player action payload must be set"@,
                            ),
                        ),
                        None,
                    ),
                    Some(PlayerActionModel::AutoPlayToggle(toggle)) => (
                        self.auto_play_requested(seat, toggle.enabled, now_ms),
                        None,
                    ),
                    Some(PlayerActionModel::Discard(discard)) => self.discard_requested(
                        context,
                        seat,
                        discard,
                        now_ms,
                    ),
                    Some(PlayerActionModel::Claim(claim)) => self.claim_requested(
                        context,
                        seat,
                        request,
                        claim,
                    ),
                    Some(PlayerActionModel::DeclareWin(win)) => self.validation_begun(
                        context,
                        seat,
                        request,
                        ValidationPurposeModel::DeclareWin(win),
                    ),
                    Some(PlayerActionModel::SupplementalKong(kong)) => self.kong_requested(
                        context,
                        seat,
                        request,
                        kong,
                    ),
                    Some(PlayerActionModel::Pass(pass)) => self.pass_requested(
                        context,
                        seat,
                        pass,
                        now_ms,
                    ),
                },
            },
        }
    }

    /// The end of the time in which a claim window could be answered. Another window is not affected.
    #[verifier::opaque]
    pub open spec fn window_timed_out(self, action_window_id: u64, now_ms: u64) -> StepModel {
        match self.window() {
            Some(window) => if window.action_window_id == action_window_id {
                self.window_settled_if_ready(true, now_ms)
            } else {
                (self, None)
            },
            None => (self, None),
        }
    }
}

fn is_ready_or_absent(player: &Option<PlayerSlot>) -> (r: bool)
    ensures
        r == ready_or_absent(opt_view(*player)),
{
    match player {
        Some(player) => player.status == PlayerStatus::Ready,
        None => true,
    }
}

impl RoomState {
    fn answer_join(
        &mut self,
        request_id: &str,
        connection_id: &str,
        accepted: bool,
        reject_code: RejectCode,
        seat: Seat,
        resume_token: &str,
        message: &str,
    )
        requires
            old(self)@.can_number(1),
        ensures
            final(self)@ == old(self)@.join_answered(
                request_id@,
                connection_id@,
                accepted,
                reject_code,
                seat,
                resume_token@,
                message@,
            ),
    {
        let event_seq: u64 = self.allocate_event_seq();
        let frame = build_join_room_response(
            event_seq,
            request_id,
            accepted,
            reject_code,
            self,
            seat,
            connection_id,
            resume_token,
            message,
        );
        self.send_frame(connection_id, frame);
    }

    fn seat_player(&mut self, authorized_join: &AuthorizedJoin, connection_id: &str)
        ensures
            final(self)@ == old(self)@.with_player(authorized_join@, connection_id@),
    {
        let user_id = authorized_join.user_id.clone();
        let seat = authorized_join.seat;
        let resume_token = concat4("resume-", self.room_id.as_str(), "-", user_id.as_str());
        self.connection_to_user.insert(String::from_str(connection_id), user_id.clone());
        self.user_to_seat.insert(user_id.clone(), seat);
        self.players_by_seat.set(
            seat,
            Some(
                PlayerSlot {
                    user_id,
                    display_name: authorized_join.display_name.clone(),
                    seat,
                    status: PlayerStatus::Joined,
                    score: INITIAL_SCORE,
                    connected: true,
                    auto_play_enabled: false,
                    connection_id: Some(String::from_str(connection_id)),
                    resume_token,
                },
            ),
        );
        self.player_round_state.set(seat, Some(PlayerRoundState::new()));
    }

    /// Seats a player whom the gateway has confirmed.
    pub fn handle_join(
        &mut self,
        request_id: &str,
        connection_id: &str,
        authorized_join: &AuthorizedJoin,
        now_ms: u64,
    )
        requires
            old(self)@.can_number(3),
            clock_in_range(now_ms),
        ensures
            final(self)@ == old(self)@.join_requested(
                request_id@,
                connection_id@,
                authorized_join@,
                now_ms,
            ),
    {
        reveal(RoomStateModel::join_requested);
        if let Some(existing_seat) = self.user_to_seat.get(authorized_join.user_id.as_str()) {
            let existing_seat = *existing_seat;
            self.answer_join(
                request_id,
                connection_id,
                false,
                RejectCode::AlreadyJoined,
                existing_seat,
                String::new().as_str(),
                "user already joined this room",
            );
            return;
        }
        if self.players_by_seat.get(authorized_join.seat).is_some() {
            self.answer_join(
                request_id,
                connection_id,
                false,
                RejectCode::SeatUnavailable,
                authorized_join.seat,
                String::new().as_str(),
                "authorized seat is no longer available",
            );
            return;
        }
        let resume_token = concat4(
            "resume-",
            self.room_id.as_str(),
            "-",
            authorized_join.user_id.as_str(),
        );
        self.seat_player(authorized_join, connection_id);
        self.answer_join(
            request_id,
            connection_id,
            true,
            RejectCode::Unspecified,
            authorized_join.seat,
            resume_token.as_str(),
            "joined room task successfully",
        );
        self.broadcast_sync_state(SyncReason::ServerResync, now_ms);
        self.broadcast_connection_changed(authorized_join.seat, true, now_ms);
    }

    fn mark_ready(&mut self, seat: Seat, ready: bool)
        ensures
            final(self)@ == old(self)@.with_ready_mark(seat, ready),
    {
        if let Some(player) = self.players_by_seat.get_mut(seat) {
            player.status =
            if ready {
                PlayerStatus::Ready
            } else {
                PlayerStatus::Joined
            };
        }
    }

    fn everybody_ready(&self) -> (r: bool)
        ensures
            r == self@.all_ready(),
    {
        self.players_by_seat.len() == self.room_config.seat_count as usize && is_ready_or_absent(
            &self.players_by_seat.unspecified,
        ) && is_ready_or_absent(&self.players_by_seat.east) && is_ready_or_absent(
            &self.players_by_seat.south,
        ) && is_ready_or_absent(&self.players_by_seat.west) && is_ready_or_absent(
            &self.players_by_seat.north,
        )
    }

    /// Changes a player's ready mark, and starts the hand when everybody is ready.
    pub fn handle_ready(
        &mut self,
        request_id: &str,
        connection_id: &str,
        request: &ReadyRequest,
        now_ms: u64,
    )
        requires
            old(self)@.can_number(2),
            old(self)@.wall_fits(),
            old(self)@.dealer_seat != Seat::Unspecified,
        ensures
            final(self)@ == old(self)@.ready_requested(
                request_id@,
                connection_id@,
                request.ready,
                now_ms,
            ),
    {
        reveal(RoomStateModel::ready_requested);
        let seat = match self.seat_for_connection(connection_id) {
            None => {
                return;
            },
            Some(seat) => seat,
        };
        self.mark_ready(seat, request.ready);
        if self.everybody_ready() {
            proof {
                lemma_next_wall_len(self@, now_ms);
                lemma_round_started_keeps(self@, self@.next_wall(now_ms));
            }
            match self.start_round(now_ms) {
                Err(error) => {
                    self.send_reject_to_connection(
                        connection_id,
                        request_id,
                        error.reject_code,
                        error.message.as_str(),
                        0,
                        0,
                    );
                },
                Ok(_) => {
                    self.broadcast_sync_state(SyncReason::RoundStart, now_ms);
                },
            }
        } else {
            self.phase = GamePhase::Lobby;
            self.broadcast_sync_state(SyncReason::ServerResync, now_ms);
        }
    }

    fn turn_away(
        &mut self,
        request_id: &str,
        connection_id: &str,
        reject_code: RejectCode,
        message: &str,
        expected_event_seq: u64,
    )
        requires
            old(self)@.can_number(1),
        ensures
            final(self)@ == old(self)@.turned_away(
                request_id@,
                connection_id@,
                reject_code,
                message@,
                expected_event_seq,
            ),
    {
        let event_seq: u64 = self.allocate_event_seq();
        let frame = build_action_rejected(
            event_seq,
            request_id,
            reject_code,
            message,
            expected_event_seq,
            0,
        );
        self.send_frame(connection_id, frame);
    }

    fn reconnect(&mut self, seat: Seat, connection_id: &str)
        requires
            old(self)@.players_by_seat.at(seat) is Some,
        ensures
            final(self)@ == old(self)@.reconnected(
                seat,
                old(self)@.players_by_seat.at(seat)->0,
                connection_id@,
            ),
    {
        if let Some(player) = self.players_by_seat.get_mut(seat) {
            let user_id = player.user_id.clone();
            if let Some(before) = player.connection_id.as_ref() {
                self.connection_to_user.remove(before.as_str());
            }
            self.connection_to_user.insert(String::from_str(connection_id), user_id);
            player.connected = true;
            player.connection_id = Some(String::from_str(connection_id));
        }
    }

    fn resend_outcome(&mut self, connection_id: &str)
        ensures
            final(self)@ == old(self)@.outcome_resent(connection_id@),
    {
        if let Some(summary) = self.match_runtime.last_match_settlement.as_ref() {
            let frame = self.build_match_settlement_frame(summary);
            self.send_frame(connection_id, frame);
        }
    }

    /// Gives a player who comes back the seat and the state of the table.
    pub fn handle_resume(
        &mut self,
        request_id: &str,
        connection_id: &str,
        request: &ResumeSessionRequest,
        now_ms: u64,
    )
        requires
            old(self)@.can_number(2),
            clock_in_range(now_ms),
        ensures
            final(self)@ == old(self)@.resume_requested(
                request_id@,
                connection_id@,
                request@,
                now_ms,
            ),
    {
        reveal(RoomStateModel::resume_requested);
        let seat = match self.user_to_seat.get(request.user_id.as_str()) {
            None => {
                self.turn_away(
                    request_id,
                    connection_id,
                    RejectCode::NotInRoom,
                    "user is not known in this room",
                    request.last_received_event_seq,
                );
                return;
            },
            Some(seat) => *seat,
        };
        let token_matches: bool = match self.players_by_seat.get(seat) {
            None => {
                self.turn_away(
                    request_id,
                    connection_id,
                    RejectCode::InternalError,
                    "room state lost player seat mapping",
                    request.last_received_event_seq,
                );
                return;
            },
            Some(player) => player.resume_token == request.resume_token,
        };
        if !token_matches {
            self.turn_away(
                request_id,
                connection_id,
                RejectCode::AuthFailed,
                "resume token does not match room state",
                request.last_received_event_seq,
            );
            return;
        }
        self.reconnect(seat, connection_id);
        let event_seq: u64 = self.allocate_event_seq();
        let frame = self.build_sync_state_for(seat, event_seq, SyncReason::Reconnect, now_ms);
        self.send_frame(connection_id, frame);
        self.resend_outcome(connection_id);
        self.broadcast_connection_changed(seat, true, now_ms);
    }

    /// Notes that a connection went away.
    pub fn handle_disconnect(&mut self, connection_id: &str, now_ms: u64)
        requires
            old(self)@.can_number(2),
            clock_in_range(now_ms),
        ensures
            final(self)@ == old(self)@.disconnected(connection_id@, now_ms),
    {
        reveal(RoomStateModel::disconnected);
        let user_id: String = match self.connection_to_user.get(connection_id) {
            None => {
                return;
            },
            Some(user_id) => user_id.clone(),
        };
        self.connection_to_user.remove(connection_id);
        let seat = match self.user_to_seat.get(user_id.as_str()) {
            None => {
                return;
            },
            Some(seat) => *seat,
        };
        match self.players_by_seat.get_mut(seat) {
            None => {
                return;
            },
            Some(player) => {
                player.connected = false;
                player.connection_id = None;
            },
        }
        self.broadcast_sync_state(SyncReason::ServerResync, now_ms);
        self.broadcast_connection_changed(seat, false, now_ms);
    }

    fn take_out_player(&mut self, user_id: &str, seat: Seat)
        requires
            old(self)@.can_number(1),
        ensures
            final(self)@ == old(self)@.without_player(user_id@, seat),
    {
        let connection_id: Option<String> = match self.players_by_seat.get(seat) {
            Some(player) => player.connection_id.clone(),
            None => None,
        };
        self.user_to_seat.remove(user_id);
        self.players_by_seat.set(seat, None);
        self.player_round_state.set(seat, None);
        if let Some(connection_id) = connection_id {
            self.connection_to_user.remove(connection_id.as_str());
            self.turn_away(
                String::new().as_str(),
                connection_id.as_str(),
                RejectCode::NotInRoom,
                "player was removed from the lobby room",
                0,
            );
        }
    }

    /// Takes a player out of the room, as long as it is a lobby.
    pub fn handle_remove_player(&mut self, user_id: &str, now_ms: u64)
        requires
            old(self)@.can_number(2),
        ensures
            final(self)@ == old(self)@.removal_requested(user_id@, now_ms),
    {
        reveal(RoomStateModel::removal_requested);
        if self.phase != GamePhase::Lobby {
            return;
        }
        let seat = match self.user_to_seat.get(user_id) {
            None => {
                return;
            },
            Some(seat) => *seat,
        };
        self.take_out_player(user_id, seat);
        self.broadcast_sync_state(SyncReason::ServerResync, now_ms);
    }

    pub fn handle_auto_play_toggle(&mut self, seat: Seat, enabled: bool, now_ms: u64)
        requires
            old(self)@.can_number(1),
        ensures
            final(self)@ == old(self)@.auto_play_requested(seat, enabled, now_ms),
    {
        match self.players_by_seat.get_mut(seat) {
            None => {
                return;
            },
            Some(player) => {
                player.auto_play_enabled = enabled;
            },
        }
        self.broadcast_sync_state(SyncReason::ServerResync, now_ms);
    }

    fn check_staleness(&self, request: &PlayerActionRequest) -> (r: Option<ActionValidationError>)
        ensures
            opt_view(r) == self@.staleness(request@),
    {
        if !same_text(request.match_id.as_str(), self.match_id.as_str()) {
            return Some(
                ActionValidationError {
                    reject_code: RejectCode::InvalidRequest,
                    message: concat4(
                        "match_id ",
                        request.match_id.as_str(),
                        " does not match active room match ",
                        self.match_id.as_str(),
                    ),
                },
            );
        }
        let current_round_id = self.round_id();
        if !same_text(request.round_id.as_str(), current_round_id.as_str()) {
            return Some(
                ActionValidationError {
                    reject_code: RejectCode::InvalidRequest,
                    message: concat4(
                        "round_id ",
                        request.round_id.as_str(),
                        " does not match active round ",
                        current_round_id.as_str(),
                    ),
                },
            );
        }
        let current_event_seq: u64 = self.current_event_seq();
        if request.expected_event_seq != current_event_seq {
            return Some(
                ActionValidationError {
                    reject_code: RejectCode::StaleEventSeq,
                    message: concat4(
                        "expected_event_seq ",
                        u64_to_text(request.expected_event_seq).as_str(),
                        " is stale; current server event_seq is ",
                        u64_to_text(current_event_seq).as_str(),
                    ),
                },
            );
        }
        None
    }

    fn context_of(&self, request_id: &str, connection_id: &str, request: &PlayerActionRequest) -> (r:
        RequestContext)
        ensures
            r@ == self@.action_context(request_id@, connection_id@, request@),
    {
        let current: bool = same_text(request.match_id.as_str(), self.match_id.as_str())
            && same_text(request.round_id.as_str(), self.round_id().as_str());
        RequestContext {
            request_id: String::from_str(request_id),
            connection_id: String::from_str(connection_id),
            expected_event_seq: if current {
                self.current_event_seq()
            } else {
                request.expected_event_seq
            },
            action_window_id: request.action_window_id,
        }
    }

    /// Takes a player's action.
    pub fn handle_player_action(
        &mut self,
        request_id: &str,
        connection_id: &str,
        request: &PlayerActionRequest,
        now_ms: u64,
    ) -> (r: Option<PendingCall>)
        requires
            old(self)@.ready(now_ms),
        ensures
            (final(self)@, opt_view(r)) == old(self)@.action_requested(
                request_id@,
                connection_id@,
                request@,
                now_ms,
            ),
    {
        reveal(RoomStateModel::action_requested);
        let seat = match self.seat_for_connection(connection_id) {
            None => {
                return None;
            },
            Some(seat) => seat,
        };
        let context = self.context_of(request_id, connection_id, request);
        if let Some(error) = self.check_staleness(request) {
            self.reject_request(&context, &error);
            return None;
        }
        match request.action.as_ref() {
            None => {
                self.reject_request(
                    &context,
                    &ActionValidationError::new(
                        RejectCode::InvalidRequest,
                        "player action payload must be set",
                    ),
                );
                None
            },
            Some(PlayerAction::AutoPlayToggle(toggle)) => {
                self.handle_auto_play_toggle(seat, toggle.enabled, now_ms);
                None
            },
            Some(PlayerAction::Discard(discard)) => self.handle_discard_action(
                context,
                seat,
                discard,
                now_ms,
            ),
            Some(PlayerAction::Claim(claim)) => self.handle_claim_action(
                context,
                seat,
                request,
                claim,
            ),
            Some(PlayerAction::DeclareWin(win)) => self.handle_declare_win_action(
                context,
                seat,
                request,
                win,
            ),
            Some(PlayerAction::SupplementalKong(kong)) => self.handle_supplemental_kong_action(
                context,
                seat,
                request,
                kong,
            ),
            Some(PlayerAction::Pass(pass)) => self.handle_pass_action(context, seat, pass, now_ms),
        }
    }

    /// Notes that the time to answer a claim window is over.
    pub fn handle_claim_window_timeout(&mut self, action_window_id: u64, now_ms: u64) -> (r: Option<
        PendingCall,
    >)
        requires
            old(self)@.ready(now_ms),
        ensures
            (final(self)@, opt_view(r)) == old(self)@.window_timed_out(action_window_id, now_ms),
    {
        reveal(RoomStateModel::window_timed_out);
        let current: bool = match self.round_runtime.as_ref() {
            Some(runtime) => match runtime.active_claim_window.as_ref() {
                Some(window) => window.action_window_id == action_window_id,
                None => false,
            },
            None => false,
        };
        if current {
            self.resolve_claim_window_if_ready(true, now_ms)
        } else {
            None
        }
    }
}

/// Frames to everybody come after those that are on their way already.
pub proof fn lemma_sent_to_all_follows(room: RoomStateModel, frame: ServerFrameModel, place: int)
    requires
        0 <= place < room.outbox.len(),
    ensures
        room.sent_to_all(frame).outbox.len() >= room.outbox.len(),
        room.sent_to_all(frame).outbox[place] == room.outbox[place],
{
    reveal(RoomStateModel::sent_to_all);
}

/// What a lost connection changes: the player of its seat has none any more.
proof fn lemma_dropped(room: RoomStateModel, lost: Seq<char>, now_ms: u64)
    requires
        room.connection_to_user.contains_key(lost),
        room.user_to_seat.contains_key(room.connection_to_user[lost]),
        room.players_by_seat.at(room.user_to_seat[room.connection_to_user[lost]]) is Some,
    ensures
        ({
            let seat = room.user_to_seat[room.connection_to_user[lost]];
            let dropped = room.disconnected(lost, now_ms);
            dropped == (RoomStateModel {
                outbox: dropped.outbox,
                next_event_seq: dropped.next_event_seq,
                connection_to_user: room.connection_to_user.remove(lost),
                players_by_seat: room.players_by_seat.with(
                    seat,
                    Some(
                        PlayerSlotModel {
                            connected: false,
                            connection_id: None,
                            ..room.players_by_seat.at(seat)->0
                        },
                    ),
                ),
                ..room
            })
        }),
{
    reveal(RoomStateModel::disconnected);
}

/// What the return of a player changes: the seat has the new connection, on which a snapshot is on
/// its way.
proof fn lemma_returned(
    room: RoomStateModel,
    request_id: Seq<char>,
    connection_id: Seq<char>,
    request: ResumeSessionRequestModel,
    now_ms: u64,
)
    requires
        room.user_to_seat.contains_key(request.user_id),
        room.players_by_seat.at(room.user_to_seat[request.user_id]) matches Some(player)
            && player.resume_token == request.resume_token,
    ensures
        ({
            let seat = room.user_to_seat[request.user_id];
            let returned = room.reconnected(seat, room.players_by_seat.at(seat)->0, connection_id);
            let back = room.resume_requested(request_id, connection_id, request, now_ms);
            &&& back == (RoomStateModel {
                outbox: back.outbox,
                next_event_seq: back.next_event_seq,
                ..returned
            })
            &&& room.runtime_mode is Production ==> {
                &&& back.outbox.len() > room.outbox.len()
                &&& back.outbox[room.outbox.len() as int] == RoomOutputModel::Send(
                    connection_id,
                    returned.sync_frame(seat, room.next_event_seq, SyncReason::Reconnect, now_ms),
                )
            }
        }),
{
    reveal(RoomStateModel::resume_requested);
    let seat = room.user_to_seat[request.user_id];
    let player = room.players_by_seat.at(seat)->0;
    let returned = room.reconnected(seat, player, connection_id);
    let numbered = returned.numbered();
    lemma_view_of_the_table(
        returned,
        numbered,
        seat,
        room.next_event_seq,
        now_ms,
    );
    let told = numbered.sent(
        connection_id,
        numbered.sync_frame(seat, room.next_event_seq, SyncReason::Reconnect, now_ms),
    ).outcome_resent(connection_id);
    if room.runtime_mode is Production {
        lemma_sent_to_all_follows(
            told.numbered(),
            connection_changed_frame(
                told.next_event_seq,
                told.room_id,
                told.match_id,
                player.user_id,
                seat,
                player.status,
                true,
                now_ms,
            ),
            room.outbox.len() as int,
        );
    }
}

/// A snapshot shows the table, not what was said about it.
proof fn lemma_view_of_the_table(
    a: RoomStateModel,
    b: RoomStateModel,
    seat: Seat,
    event_seq: u64,
    now_ms: u64,
)
    requires
        a == (RoomStateModel { outbox: a.outbox, next_event_seq: a.next_event_seq, ..b }),
    ensures
        a.sync_frame(seat, event_seq, SyncReason::Reconnect, now_ms) == b.sync_frame(
            seat,
            event_seq,
            SyncReason::Reconnect,
            now_ms,
        ),
{
    assert(a.public_at(Seat::East) == b.public_at(Seat::East));
    assert(a.public_at(Seat::South) == b.public_at(Seat::South));
    assert(a.public_at(Seat::West) == b.public_at(Seat::West));
    assert(a.public_at(Seat::North) == b.public_at(Seat::North));
}

/// A player whose connection is lost keeps seat, hand and score. With the seat's token they come back
/// on a new connection: the table is as they left it, and the first thing that they are sent is a
/// snapshot made for their seat.
pub proof fn law_dropped_players_come_back(
    room: RoomStateModel,
    lost: Seq<char>,
    lost_at_ms: u64,
    request_id: Seq<char>,
    connection_id: Seq<char>,
    request: ResumeSessionRequestModel,
    now_ms: u64,
)
    requires
        room.connection_to_user.contains_key(lost),
        room.connection_to_user[lost] == request.user_id,
        room.user_to_seat.contains_key(request.user_id),
        room.players_by_seat.at(room.user_to_seat[request.user_id]) matches Some(player)
            && player.resume_token == request.resume_token,
    ensures
        ({
            let seat = room.user_to_seat[request.user_id];
            let player = room.players_by_seat.at(seat)->0;
            let dropped = room.disconnected(lost, lost_at_ms);
            let back = dropped.resume_requested(request_id, connection_id, request, now_ms);
            &&& dropped.players_by_seat.at(seat) == Some(
                PlayerSlotModel { connected: false, connection_id: None, ..player },
            )
            &&& !dropped.connection_to_user.contains_key(lost)
            &&& back.players_by_seat == room.players_by_seat.with(
                seat,
                Some(
                    PlayerSlotModel { connected: true, connection_id: Some(connection_id), ..player },
                ),
            )
            &&& back.connection_to_user == room.connection_to_user.remove(lost).insert(
                connection_id,
                player.user_id,
            )
            &&& back.user_to_seat == room.user_to_seat
            &&& back.player_round_state == room.player_round_state
            &&& back.round_runtime == room.round_runtime
            &&& back.match_runtime == room.match_runtime
            &&& back.phase == room.phase
            &&& back.current_turn_seat == room.current_turn_seat
            &&& room.runtime_mode is Production ==> {
                &&& back.outbox.len() > dropped.outbox.len()
                &&& back.outbox[dropped.outbox.len() as int] == RoomOutputModel::Send(
                    connection_id,
                    back.sync_frame(seat, dropped.next_event_seq, SyncReason::Reconnect, now_ms),
                )
            }
        }),
{
    lemma_dropped(room, lost, lost_at_ms);
    let seat = room.user_to_seat[request.user_id];
    let dropped = room.disconnected(lost, lost_at_ms);
    lemma_returned(dropped, request_id, connection_id, request, now_ms);
    let returned = dropped.reconnected(seat, dropped.players_by_seat.at(seat)->0, connection_id);
    let back = dropped.resume_requested(request_id, connection_id, request, now_ms);
    lemma_view_of_the_table(returned, back, seat, dropped.next_event_seq, now_ms);
    assert(back.players_by_seat == room.players_by_seat.with(
        seat,
        Some(
            PlayerSlotModel {
                connected: true,
                connection_id: Some(connection_id),
                ..room.players_by_seat.at(seat)->0
            },
        ),
    )) by {
        reveal(SeatMap::with);
        reveal(SeatMap::at);
    }
}

} // verus!
