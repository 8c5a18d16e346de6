//! A room that plays by itself, to find out what rooms cost.

use vstd::prelude::*;

use crate::collections::{group_seat_map, opt_view, SeatMap};
use crate::proto::client::{ActionKind, GamePhase, PlayerStatus, RejectCode, Seat, Tile};
use crate::rng::{draw_below, number_below, SeededRng};
use crate::room::basics::fresh_match;
use crate::room::convert::{
    failure, plain_result, ActionValidationError, ActionValidationErrorModel,
};
use crate::room::hand::{
    empty_hand, private_count, private_tile_count, seat_after, PlayerRoundState,
};
use crate::room::state::{
    MatchRuntimeState, PlayerSlot, PlayerSlotModel, ResolvedActionRecord, RoomState, RoomStateModel,
    INITIAL_SCORE,
};
use crate::text::{concat, concat3, decimal, u64_to_text};

verus! {

broadcast use group_seat_map;

/// Who wins a hand that was stopped early.
#[derive(Clone, Copy, Debug, PartialEq, Eq, Structural)]
pub enum LoadTestWinnerPolicy {
    Random,
}

/// What a load test asks of one room.
#[derive(Debug, PartialEq, Eq)]
pub struct LoadTestRoomSpec {
    pub room_id: String,
    pub room_index: u64,
    pub player_base_index: u64,
    /// After so many discards a hand is stopped and somebody wins it.
    pub max_actions: u32,
    /// How many hands make a match.
    pub hands_per_match: u32,
    pub seed: u64,
    pub winner_policy: LoadTestWinnerPolicy,
}

/// The contents of a [`LoadTestRoomSpec`].
#[verifier::ext_equal]
pub struct LoadTestRoomSpecModel {
    pub room_id: Seq<char>,
    pub room_index: u64,
    pub player_base_index: u64,
    pub max_actions: u32,
    pub hands_per_match: u32,
    pub seed: u64,
    pub winner_policy: LoadTestWinnerPolicy,
}

impl View for LoadTestRoomSpec {
    type V = LoadTestRoomSpecModel;

    open spec fn view(&self) -> LoadTestRoomSpecModel {
        LoadTestRoomSpecModel {
            room_id: self.room_id@,
            room_index: self.room_index,
            player_base_index: self.player_base_index,
            max_actions: self.max_actions,
            hands_per_match: self.hands_per_match,
            seed: self.seed,
            winner_policy: self.winner_policy,
        }
    }
}

/// How a load test went in one room.
#[derive(Debug, PartialEq, Eq)]
pub struct LoadTestRoomResult {
    pub room_id: String,
    pub room_index: u64,
    pub success: bool,
    pub actions_executed: u32,
    pub hands_completed: u32,
    pub winner_seat: Option<String>,
    pub failure_reason: Option<String>,
}

/// The contents of a [`LoadTestRoomResult`].
#[verifier::ext_equal]
pub struct LoadTestRoomResultModel {
    pub room_id: Seq<char>,
    pub room_index: u64,
    pub success: bool,
    pub actions_executed: u32,
    pub hands_completed: u32,
    pub winner_seat: Option<Seq<char>>,
    pub failure_reason: Option<Seq<char>>,
}

impl View for LoadTestRoomResult {
    type V = LoadTestRoomResultModel;

    open spec fn view(&self) -> LoadTestRoomResultModel {
        LoadTestRoomResultModel {
            room_id: self.room_id@,
            room_index: self.room_index,
            success: self.success,
            actions_executed: self.actions_executed,
            hands_completed: self.hands_completed,
            winner_seat: opt_view(self.winner_seat),
            failure_reason: opt_view(self.failure_reason),
        }
    }
}

/// The name of a player who does not exist.
pub open spec fn load_user_id(number: nat) -> Seq<char> {
    "load-user-"@ + decimal(number)
}

/// A player who does not exist.
pub open spec fn load_player(number: nat, seat: Seat) -> PlayerSlotModel {
    PlayerSlotModel {
        user_id: load_user_id(number),
        display_name: "Load Player "@ + decimal(number),
        seat,
        status: PlayerStatus::Ready,
        score: INITIAL_SCORE,
        connected: false,
        auto_play_enabled: true,
        connection_id: None,
        resume_token: Seq::empty(),
    }
}

/// How far a simulated hand or match has come.
#[verifier::ext_equal]
pub struct SimulationModel {
    pub room: RoomStateModel,
    /// What the random numbers have been through.
    pub trace: Seq<u64>,
    pub actions: nat,
    /// Why the simulation cannot go on.
    pub error: Option<ActionValidationErrorModel>,
}

impl RoomStateModel {
    /// The room at the start of a match between four players who do not exist.
    #[verifier::opaque]
    pub open spec fn with_load_players(self, base: u64) -> RoomStateModel {
        RoomStateModel {
            players_by_seat: SeatMap {
                unspecified: None,
                east: Some(load_player(base as nat, Seat::East)),
                south: Some(load_player((base + 1) as nat, Seat::South)),
                west: Some(load_player((base + 2) as nat, Seat::West)),
                north: Some(load_player((base + 3) as nat, Seat::North)),
            },
            player_round_state: SeatMap {
                unspecified: None,
                east: Some(empty_hand()),
                south: Some(empty_hand()),
                west: Some(empty_hand()),
                north: Some(empty_hand()),
            },
            user_to_seat: Map::empty().insert(load_user_id(base as nat), Seat::East).insert(
                load_user_id((base + 1) as nat),
                Seat::South,
            ).insert(load_user_id((base + 2) as nat), Seat::West).insert(
                load_user_id((base + 3) as nat),
                Seat::North,
            ),
            connection_to_user: Map::empty(),
            next_event_seq: 1,
            next_action_window_id: 1,
            phase: GamePhase::Lobby,
            prevailing_wind: Seat::East,
            dealer_seat: Seat::East,
            current_turn_seat: Seat::East,
            hand_number: 1,
            dealer_streak: 0,
            round_runtime: None,
            match_runtime: fresh_match(),
            ..self
        }
    }

    /// Whether the private tiles of a seat can be counted.
    pub open spec fn private_fits(self, seat: Seat) -> bool {
        self.player_round_state.at(seat) matches Some(hand) ==> private_count(hand) <= usize::MAX
    }

    /// How many tiles a seat can choose a discard from, or why it cannot discard.
    pub open spec fn discard_choices(self, seat: Seat) -> Result<u64, ActionValidationErrorModel> {
        match self.player_round_state.at(seat) {
            None => Err(
                failure(
                    RejectCode::NotInRoom,
                    "seat "@ + seat.name() + " does not exist in round state"@,
                ),
            ),
            Some(hand) => if private_count(hand) == 0 {
                Err(failure(RejectCode::InvalidTile, "load-test player has no tile to discard"@))
            } else {
                Ok(private_count(hand) as u64)
            },
        }
    }

    /// The tile at a place of a seat's private tiles, the drawn one last, and whether it is the
    /// drawn one.
    pub open spec fn private_tile_at(self, seat: Seat, index: int) -> (Tile, bool) {
        let hand = self.player_round_state.at(seat)->0;
        if index < hand.concealed_tiles.len() {
            (hand.concealed_tiles[index], false)
        } else {
            (hand.drawn_tile->0, true)
        }
    }

    /// What a seat discards at random, and what the random numbers have been through then.
    pub open spec fn random_discard(self, seat: Seat, trace: Seq<u64>) -> (
        Result<(Tile, bool), ActionValidationErrorModel>,
        Seq<u64>,
    ) {
        match self.discard_choices(seat) {
            Err(error) => (Err(error), trace),
            Ok(choices) => (
                Ok(self.private_tile_at(seat, number_below(trace, choices) as int)),
                trace.push(choices),
            ),
        }
    }

    /// The room after a discard that nobody may claim.
    #[verifier::opaque]
    pub open spec fn load_discarded(self, seat: Seat, tile: Tile, tsumogiri: bool) -> (
        RoomStateModel,
        Result<(), ActionValidationErrorModel>,
    ) {
        if self.phase != GamePhase::WaitingDiscard {
            (
                self,
                Err(
                    failure(
                        RejectCode::PhaseMismatch,
                        "load-test discard is only available during WaitingDiscard"@,
                    ),
                ),
            )
        } else if seat != self.current_turn_seat {
            (
                self,
                Err(
                    failure(
                        RejectCode::NotYourTurn,
                        "load-test discard selected a non-current seat"@,
                    ),
                ),
            )
        } else {
            let (taken, result) = self.discarded(seat, tile, tsumogiri);
            match result {
                Err(error) => (taken, Err(error)),
                Ok(_) => {
                    let event_seq = taken.next_event_seq;
                    (
                        taken.numbered().with_discard_bound(seat, event_seq).with_last_action(
                            ResolvedActionRecord {
                                event_seq,
                                actor_seat: seat,
                                action_kind: ActionKind::Discard,
                                tile: Some(tile),
                                replacement_draw: false,
                                rob_kong_candidate: false,
                            },
                        ).turn_passed_on(seat),
                        Ok(()),
                    )
                },
            }
        }
    }

    /// The tile that a seat wins with when it wins without a rule.
    pub open spec fn tile_at_hand(self, seat: Seat) -> Option<Tile> {
        match self.player_round_state.at(seat) {
            None => None,
            Some(hand) => if hand.drawn_tile is Some {
                hand.drawn_tile
            } else if hand.concealed_tiles.len() > 0 {
                Some(hand.concealed_tiles.last())
            } else {
                None
            },
        }
    }

    /// The room with every seat paying the winner.
    pub open spec fn winner_paid(self, winner: Seat) -> RoomStateModel {
        RoomStateModel {
            players_by_seat: SeatMap {
                unspecified: self.players_by_seat.unspecified,
                east: paid(self.players_by_seat.east, winner == Seat::East),
                south: paid(self.players_by_seat.south, winner == Seat::South),
                west: paid(self.players_by_seat.west, winner == Seat::West),
                north: paid(self.players_by_seat.north, winner == Seat::North),
            },
            ..self
        }
    }

    /// The room after a seat won a hand that was stopped.
    #[verifier::opaque]
    pub open spec fn random_winner_settled(self, winner: Seat) -> RoomStateModel {
        let event_seq = self.next_event_seq;
        self.winner_paid(winner).without_window().in_phase(
            GamePhase::RoundSettlement,
        ).numbered().with_last_action(
            ResolvedActionRecord {
                event_seq,
                actor_seat: winner,
                action_kind: ActionKind::DeclareWin,
                tile: self.tile_at_hand(winner),
                replacement_draw: false,
                rob_kong_candidate: false,
            },
        ).with_outcome(Some(winner), winner == self.current_turn_seat)
    }

    /// Whether the scores have room for another win.
    pub open spec fn can_pay(self) -> bool {
        &&& payable(self.players_by_seat.east)
        &&& payable(self.players_by_seat.south)
        &&& payable(self.players_by_seat.west)
        &&& payable(self.players_by_seat.north)
    }
}

/// Whether a player's score has room for a win or a loss.
pub open spec fn payable(player: Option<PlayerSlotModel>) -> bool {
    player matches Some(player) ==> i64::MIN + 1000 <= player.score <= i64::MAX - 3000
}

/// A player after a hand that was stopped: the winner gains what the others lose.
pub open spec fn paid(player: Option<PlayerSlotModel>, won: bool) -> Option<PlayerSlotModel> {
    match player {
        Some(player) => Some(
            PlayerSlotModel {
                score: if won {
                    (player.score + 3000) as i64
                } else {
                    (player.score - 1000) as i64
                },
                ..player
            },
        ),
        None => None,
    }
}

fn new_load_player(number: u64, seat: Seat) -> (r: PlayerSlot)
    ensures
        r@ == load_player(number as nat, seat),
{
    proof {
        reveal_strlit("");
        assert(""@ =~= Seq::<char>::empty());
    }
    let text = u64_to_text(number);
    PlayerSlot {
        user_id: concat("load-user-", text.as_str()),
        display_name: concat("Load Player ", text.as_str()),
        seat,
        status: PlayerStatus::Ready,
        score: INITIAL_SCORE,
        connected: false,
        auto_play_enabled: true,
        connection_id: None,
        resume_token: String::from_str(""),
    }
}

impl RoomState {
    fn pay(&mut self, seat: Seat, winner: Seat)
        requires
            payable(old(self)@.players_by_seat.at(seat)),
        ensures
            final(self)@ == (RoomStateModel {
                players_by_seat: old(self)@.players_by_seat.with(
                    seat,
                    paid(old(self)@.players_by_seat.at(seat), winner == seat),
                ),
                ..old(self)@
            }),
    {
        match self.players_by_seat.get_mut(seat) {
            Some(player) => {
                if seat == winner {
                    player.score = player.score + 3000;
                } else {
                    player.score = player.score - 1000;
                }
            },
            None => {},
        }
    }

    /// Ends a hand that was stopped: a seat wins it, and the others pay.
    pub fn settle_load_test_random_winner(&mut self, winner_seat: Seat)
        requires
            old(self)@.can_pay(),
            old(self)@.can_number(1),
            old(self)@.can_tally(Some(winner_seat)),
        ensures
            final(self)@ == old(self)@.random_winner_settled(winner_seat),
    {
        reveal(RoomStateModel::random_winner_settled);
        let ghost before = self@;
        assert(payable(self@.players_by_seat.at(Seat::East)) && payable(
            self@.players_by_seat.at(Seat::South),
        ) && payable(self@.players_by_seat.at(Seat::West)) && payable(
            self@.players_by_seat.at(Seat::North),
        )) by {
            reveal(SeatMap::at);
        }
        self.pay(Seat::East, winner_seat);
        self.pay(Seat::South, winner_seat);
        self.pay(Seat::West, winner_seat);
        self.pay(Seat::North, winner_seat);
        assert(self@ =~= before.winner_paid(winner_seat)) by {
            reveal(SeatMap::at);
            reveal(SeatMap::with);
        }
        let winning_tile: Option<Tile> = self.tile_to_win_with(winner_seat);
        self.close_claim_window();
        self.phase = GamePhase::RoundSettlement;
        let event_seq: u64 = self.allocate_event_seq();
        self.record_last_action(
            ResolvedActionRecord {
                event_seq,
                actor_seat: winner_seat,
                action_kind: ActionKind::DeclareWin,
                tile: winning_tile,
                replacement_draw: false,
                rob_kong_candidate: false,
            },
        );
        let self_draw: bool = winner_seat == self.current_turn_seat;
        self.record_round_outcome(Some(winner_seat), self_draw);
    }

    fn tile_to_win_with(&self, seat: Seat) -> (r: Option<Tile>)
        ensures
            r == self@.tile_at_hand(seat),
    {
        match self.player_round_state.get(seat) {
            None => None,
            Some(hand) => match hand.drawn_tile {
                Some(tile) => Some(tile),
                None => {
                    let len: usize = hand.concealed_tiles.len();
                    if len > 0 {
                        Some(hand.concealed_tiles[len - 1])
                    } else {
                        None
                    }
                },
            },
        }
    }

    /// Seats four players who do not exist, and forgets everything that happened before.
    pub fn initialize_load_test_players(&mut self, player_base_index: u64)
        requires
            player_base_index + 3 <= u64::MAX,
        ensures
            final(self)@ == old(self)@.with_load_players(player_base_index),
    {
        reveal(RoomStateModel::with_load_players);
        let ghost before = self@;
        let east = new_load_player(player_base_index, Seat::East);
        let south = new_load_player(player_base_index + 1, Seat::South);
        let west = new_load_player(player_base_index + 2, Seat::West);
        let north = new_load_player(player_base_index + 3, Seat::North);
        self.user_to_seat.clear();
        self.user_to_seat.insert(east.user_id.clone(), Seat::East);
        self.user_to_seat.insert(south.user_id.clone(), Seat::South);
        self.user_to_seat.insert(west.user_id.clone(), Seat::West);
        self.user_to_seat.insert(north.user_id.clone(), Seat::North);
        self.connection_to_user.clear();
        self.players_by_seat = SeatMap {
            unspecified: None,
            east: Some(east),
            south: Some(south),
            west: Some(west),
            north: Some(north),
        };
        self.player_round_state = SeatMap {
            unspecified: None,
            east: Some(PlayerRoundState::new()),
            south: Some(PlayerRoundState::new()),
            west: Some(PlayerRoundState::new()),
            north: Some(PlayerRoundState::new()),
        };
        self.next_event_seq = 1;
        self.next_action_window_id = 1;
        self.phase = GamePhase::Lobby;
        self.prevailing_wind = Seat::East;
        self.dealer_seat = Seat::East;
        self.current_turn_seat = Seat::East;
        self.hand_number = 1;
        self.dealer_streak = 0;
        self.round_runtime = None;
        self.match_runtime = MatchRuntimeState::new();
        assert(self@ =~= before.with_load_players(player_base_index));
    }

    fn count_discard_choices(&self, seat: Seat) -> (r: Result<u64, ActionValidationError>)
        requires
            self@.private_fits(seat),
        ensures
            plain_result(r) == self@.discard_choices(seat),
    {
        match self.player_round_state.get(seat) {
            None => Err(
                ActionValidationError {
                    reject_code: RejectCode::NotInRoom,
                    message: concat3("seat ", seat.as_str_name(), " does not exist in round state"),
                },
            ),
            Some(hand) => {
                let count: usize = private_tile_count(hand);
                if count == 0 {
                    Err(
                        ActionValidationError::new(
                            RejectCode::InvalidTile,
                            "load-test player has no tile to discard",
                        ),
                    )
                } else {
                    Ok(count as u64)
                }
            },
        }
    }

    /// The private tile of a seat at a place, the drawn one last, and whether it is the drawn one.
    pub fn choose_load_test_discard(&self, seat: Seat, index: u64) -> (r: (Tile, bool))
        requires
            self@.private_fits(seat),
            self@.discard_choices(seat) matches Ok(choices) && index < choices,
        ensures
            r == self@.private_tile_at(seat, index as int),
    {
        match self.player_round_state.get(seat) {
            None => (Tile::Unspecified, false),
            Some(hand) => if (index as usize) < hand.concealed_tiles.len() {
                (hand.concealed_tiles[index as usize], false)
            } else {
                match hand.drawn_tile {
                    Some(tile) => (tile, true),
                    None => (Tile::Unspecified, true),
                }
            },
        }
    }

    /// Picks a discard of a seat at random.
    pub fn pick_random_load_test_discard(&self, seat: Seat, rng: &mut SeededRng) -> (r:
        Result<(Tile, bool), ActionValidationError>)
        requires
            self@.private_fits(seat),
        ensures
            (plain_result(r), final(rng).history()) == self@.random_discard(
                seat,
                old(rng).history(),
            ),
    {
        match self.count_discard_choices(seat) {
            Err(error) => Err(error),
            Ok(choices) => {
                let index: u64 = draw_below(rng, choices);
                proof {
                    vstd::arithmetic::div_mod::lemma_small_mod(index as nat, choices as nat);
                }
                Ok(self.choose_load_test_discard(seat, index))
            },
        }
    }

    /// Discards a tile that nobody may claim, and passes the turn on.
    pub fn apply_load_test_discard(&mut self, seat: Seat, tile: Tile, tsumogiri: bool) -> (r: Result<
        (),
        ActionValidationError,
    >)
        requires
            old(self)@.player_round_state.at(seat) is Some,
            old(self)@.round_runtime matches Some(runtime) ==> runtime.turn_index < u32::MAX,
            old(self)@.can_draw(seat_after(seat)),
            old(self)@.can_number(2),
        ensures
            (final(self)@, plain_result(r)) == old(self)@.load_discarded(seat, tile, tsumogiri),
    {
        reveal(RoomStateModel::load_discarded);
        if self.phase != GamePhase::WaitingDiscard {
            return Err(
                ActionValidationError::new(
                    RejectCode::PhaseMismatch,
                    "load-test discard is only available during WaitingDiscard",
                ),
            );
        }
        if seat != self.current_turn_seat {
            return Err(
                ActionValidationError::new(
                    RejectCode::NotYourTurn,
                    "load-test discard selected a non-current seat",
                ),
            );
        }
        proof {
            lemma_load_discard_keeps(self@, seat, tile, tsumogiri);
        }
        match self.discard_tile_from_hand(seat, tile, tsumogiri) {
            Err(error) => {
                return Err(error);
            },
            Ok(_) => {},
        }
        assert(self@.can_draw(seat_after(seat)));
        let event_seq: u64 = self.allocate_event_seq();
        self.set_last_discard_source_event_seq(seat, event_seq);
        assert(self@.can_draw(seat_after(seat)));
        self.record_last_action(
            ResolvedActionRecord {
                event_seq,
                actor_seat: seat,
                action_kind: ActionKind::Discard,
                tile: Some(tile),
                replacement_draw: false,
                rob_kong_candidate: false,
            },
        );
        self.advance_turn_after_passes(seat);
        Ok(())
    }
}

/// Whether everything but the hands, the walls and the counters of a hand is the same.
pub open spec fn same_frame(before: RoomStateModel, after: RoomStateModel) -> bool {
    &&& after.next_event_seq == before.next_event_seq
    &&& after.players_by_seat == before.players_by_seat
    &&& after.match_runtime == before.match_runtime
    &&& after.phase == before.phase
    &&& after.runtime_mode == before.runtime_mode
    &&& after.wall_factory == before.wall_factory
    &&& after.room_config == before.room_config
    &&& after.dealer_seat == before.dealer_seat
    &&& after.dealer_streak == before.dealer_streak
    &&& after.hand_number == before.hand_number
    &&& after.current_turn_seat == before.current_turn_seat
    &&& after.outbox == before.outbox
}

/// A discard keeps everybody able to draw, and moves the turn counter by one.
pub proof fn lemma_load_discard_keeps(room: RoomStateModel, seat: Seat, tile: Tile, tsumogiri: bool)
    requires
        room.player_round_state.at(seat) is Some,
        room.round_runtime matches Some(runtime) ==> runtime.turn_index < u32::MAX,
    ensures
        ({
            let (after, result) = room.discarded(seat, tile, tsumogiri);
            &&& same_frame(room, after)
            &&& forall|other: Seat| room.can_draw(other) ==> #[trigger] after.can_draw(other)
            &&& result is Err ==> after == room
            &&& after.round_runtime is Some == room.round_runtime is Some
            &&& after.round_runtime matches Some(runtime) ==> runtime.turn_index
                <= room.round_runtime->0.turn_index + 1
        }),
{
    reveal(RoomStateModel::discarded);
}

/// The score of a player who may be there.
pub open spec fn score_at(room: RoomStateModel, seat: Seat) -> int {
    match room.players_by_seat.at(seat) {
        Some(player) => player.score as int,
        None => 0,
    }
}

/// What the winner of a stopped hand gains, the others lose: at a full table the scores add up to
/// what they did before.
pub proof fn law_random_win_is_zero_sum(room: RoomStateModel, winner: Seat)
    requires
        room.can_pay(),
        winner != Seat::Unspecified,
        room.players_by_seat.at(Seat::East) is Some,
        room.players_by_seat.at(Seat::South) is Some,
        room.players_by_seat.at(Seat::West) is Some,
        room.players_by_seat.at(Seat::North) is Some,
    ensures
        ({
            let after = room.random_winner_settled(winner);
            score_at(after, Seat::East) + score_at(after, Seat::South) + score_at(after, Seat::West)
                + score_at(after, Seat::North) == score_at(room, Seat::East) + score_at(
                room,
                Seat::South,
            ) + score_at(room, Seat::West) + score_at(room, Seat::North)
        }),
{
    reveal(RoomStateModel::random_winner_settled);
    reveal(SeatMap::at);
}

} // verus!
