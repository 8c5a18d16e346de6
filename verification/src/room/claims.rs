//! Claim windows: what they offer, how they open, and who wins them.

use vstd::prelude::*;

use crate::collections::{group_seat_map, lemma_views_empty, lemma_views_push, views, SeatMap};
use crate::json::{json_text, no_members, Json, JsonModel, JsonObject};
use crate::proto::client::{
    ActionKind, ActionPrompt, ActionPromptModel, ClaimKind, GamePhase, PromptOption,
    PromptOptionModel, Seat, ServerFrame, ServerFrameModel, ServerPayload, ServerPayloadModel, Tile,
    WinType,
};
use crate::room::frames::{clock_in_range, copy_options};
use crate::room::hand::{
    build_chi_consume_patterns, chi_patterns, claim_priority_distance, copies, has_n_tiles,
    next_seat, seat_after, turns_until,
};
use crate::room::payloads::{options_json, options_payload, seat_list, seats_json};
use crate::room::state::{
    ActiveClaimWindowState, ActiveClaimWindowStateModel, ClaimResponse, ClaimResponseModel,
    PromptOptions, RoomOutput, RoomOutputModel, RoomState, RoomStateModel, RoundRuntimeStateModel,
};
use crate::text::{concat4, decimal, i32_to_text, signed_decimal, u64_to_text};
use crate::tiles::{codes_of, copy_tiles, sort_tiles, sorted_tiles, tile_codes};

verus! {

broadcast use group_seat_map;

// ---------------------------------------------------------------------------
// Options
// ---------------------------------------------------------------------------

/// The name of an option: what it is, on which event, for whom.
pub open spec fn option_name(kind: Seq<char>, source_event_seq: u64, seat: Seat) -> Seq<char> {
    kind + decimal(source_event_seq as nat) + "-"@ + seat.name()
}

fn option_name_text(kind: &str, source_event_seq: u64, seat: Seat) -> (r: String)
    ensures
        r@ == option_name(kind@, source_event_seq, seat),
{
    concat4(kind, u64_to_text(source_event_seq).as_str(), "-", seat.as_str_name())
}

/// Wire numbers, joined by hyphens.
pub open spec fn joined_codes(tiles: Seq<Tile>) -> Seq<char>
    decreases tiles.len(),
{
    if tiles.len() == 0 {
        Seq::empty()
    } else if tiles.len() == 1 {
        signed_decimal(tiles[0].code() as int)
    } else {
        joined_codes(tiles.drop_last()) + "-"@ + signed_decimal(tiles.last().code() as int)
    }
}

fn join_codes(tiles: &Vec<Tile>) -> (r: String)
    ensures
        r@ == joined_codes(tiles@),
{
    let mut text = String::new();
    let mut i: usize = 0;
    while i < tiles.len()
        invariant
            i <= tiles.len(),
            text@ == joined_codes(tiles@.take(i as int)),
        decreases tiles.len() - i,
    {
        assert(tiles@.take(i + 1).drop_last() =~= tiles@.take(i as int));
        if i > 0 {
            text.append("-");
        }
        text.append(i32_to_text(tiles[i].as_i32()).as_str());
        i = i + 1;
        assert(text@ =~= joined_codes(tiles@.take(i as int)));
    }
    assert(tiles@.take(i as int) =~= tiles@);
    text
}

/// The option to make a triplet.
pub open spec fn peng_option(seat: Seat, target: Tile, source_event_seq: u64) -> PromptOptionModel {
    PromptOptionModel {
        option_id: option_name("peng-"@, source_event_seq, seat),
        action_kind: ActionKind::Peng.code(),
        claim_kind: ClaimKind::Peng.code(),
        win_type: WinType::Unspecified.code(),
        candidate_tiles: Seq::empty().push(target.code()),
        consume_tiles: Seq::empty().push(target.code()).push(target.code()),
    }
}

/// The option to make a kong.
pub open spec fn gang_option(seat: Seat, target: Tile, source_event_seq: u64) -> PromptOptionModel {
    PromptOptionModel {
        option_id: option_name("gang-"@, source_event_seq, seat),
        action_kind: ActionKind::ExposedKong.code(),
        claim_kind: ClaimKind::ExposedKong.code(),
        win_type: WinType::Unspecified.code(),
        candidate_tiles: Seq::empty().push(target.code()),
        consume_tiles: Seq::empty().push(target.code()).push(target.code()).push(target.code()),
    }
}

/// The option to make a run with two tiles of the hand.
pub open spec fn chi_option(seat: Seat, target: Tile, source_event_seq: u64, consume: Seq<Tile>) -> PromptOptionModel {
    let run = sorted_tiles(consume.push(target));
    PromptOptionModel {
        option_id: option_name("chi-"@, source_event_seq, seat) + "-"@ + joined_codes(run),
        action_kind: ActionKind::Chi.code(),
        claim_kind: ClaimKind::Chi.code(),
        win_type: WinType::Unspecified.code(),
        candidate_tiles: tile_codes(run),
        consume_tiles: tile_codes(consume),
    }
}

/// The options to make runs.
pub open spec fn chi_options(seat: Seat, target: Tile, source_event_seq: u64, patterns: Seq<Seq<Tile>>) -> Seq<
    PromptOptionModel,
> {
    Seq::new(patterns.len(), |i: int| chi_option(seat, target, source_event_seq, patterns[i]))
}

/// The option to win on a tile.
pub open spec fn win_option(
    kind: Seq<char>,
    seat: Seat,
    tile: Tile,
    source_event_seq: u64,
    claim_kind: ClaimKind,
    win_type: WinType,
) -> PromptOptionModel {
    PromptOptionModel {
        option_id: option_name(kind, source_event_seq, seat),
        action_kind: ActionKind::DeclareWin.code(),
        claim_kind: claim_kind.code(),
        win_type: win_type.code(),
        candidate_tiles: Seq::empty().push(tile.code()),
        consume_tiles: Seq::empty(),
    }
}

/// What a hand can do with another player's discard, short of winning: a triplet with two copies, a
/// kong with three, and a run only for the seat that comes next.
pub open spec fn discard_options(
    hand: Seq<Tile>,
    seat: Seat,
    source_seat: Seat,
    target: Tile,
    source_event_seq: u64,
) -> Seq<PromptOptionModel> {
    (if copies(hand, target) >= 2 {
        seq![peng_option(seat, target, source_event_seq)]
    } else {
        Seq::empty()
    }) + (if copies(hand, target) >= 3 {
        seq![gang_option(seat, target, source_event_seq)]
    } else {
        Seq::empty()
    }) + (if seat_after(source_seat) == seat {
        chi_options(seat, target, source_event_seq, chi_patterns(hand, target))
    } else {
        Seq::empty()
    })
}

impl RoomStateModel {
    /// What a seat can do with another player's discard, short of winning.
    pub open spec fn discard_options_at(
        self,
        seat: Seat,
        source_seat: Seat,
        target: Tile,
        source_event_seq: u64,
    ) -> Seq<PromptOptionModel> {
        match self.player_round_state.at(seat) {
            Some(hand) => discard_options(
                hand.concealed_tiles,
                seat,
                source_seat,
                target,
                source_event_seq,
            ),
            None => Seq::empty(),
        }
    }
}

/// Only the seat that comes next is offered a run.
pub proof fn law_chi_only_for_next_seat(
    room: RoomStateModel,
    seat: Seat,
    source_seat: Seat,
    target: Tile,
    source_event_seq: u64,
    i: int,
)
    requires
        0 <= i < room.discard_options_at(seat, source_seat, target, source_event_seq).len(),
        room.discard_options_at(seat, source_seat, target, source_event_seq)[i].claim_kind
            == ClaimKind::Chi.code(),
    ensures
        seat == seat_after(source_seat),
{
}

fn push_chi_options(
    options: &mut Vec<PromptOption>,
    seat: Seat,
    target: Tile,
    source_event_seq: u64,
    patterns: &Vec<Vec<Tile>>,
)
    ensures
        views(final(options)@) == views(old(options)@) + chi_options(
            seat,
            target,
            source_event_seq,
            views(patterns@),
        ),
{
    let ghost before = options@;
    let mut i: usize = 0;
    while i < patterns.len()
        invariant
            i <= patterns.len(),
            before == old(options)@,
            views(options@) == views(before) + chi_options(
                seat,
                target,
                source_event_seq,
                views(patterns@).take(i as int),
            ),
        decreases patterns.len() - i,
    {
        let ghost so_far = options@;
        let mut run = copy_tiles(&patterns[i]);
        run.push(target);
        sort_tiles(&mut run);
        let name = option_name_text("chi-", source_event_seq, seat);
        let joined = join_codes(&run);
        let option_id = crate::text::concat3(name.as_str(), "-", joined.as_str());
        let option = PromptOption {
            option_id,
            action_kind: ActionKind::Chi.as_i32(),
            claim_kind: ClaimKind::Chi.as_i32(),
            win_type: WinType::Unspecified.as_i32(),
            candidate_tiles: codes_of(&run),
            consume_tiles: codes_of(&patterns[i]),
        };
        assert(option@ == chi_option(seat, target, source_event_seq, views(patterns@)[i as int]));
        let ghost added = option@;
        options.push(option);
        assert(views(options@) =~= views(so_far).push(added));
        assert(chi_options(seat, target, source_event_seq, views(patterns@).take(i + 1))
            =~= chi_options(seat, target, source_event_seq, views(patterns@).take(i as int)).push(
            added,
        ));
        i = i + 1;
        assert(views(options@) =~= views(before) + chi_options(
            seat,
            target,
            source_event_seq,
            views(patterns@).take(i as int),
        ));
    }
    assert(views(patterns@).take(i as int) =~= views(patterns@));
}

impl RoomState {
    /// What a seat can do with another player's discard, short of winning.
    pub fn build_local_discard_claim_options(
        &self,
        seat: Seat,
        source_seat: Seat,
        target_tile: Tile,
        source_event_seq: u64,
    ) -> (r: Vec<PromptOption>)
        ensures
            views(r@) == self@.discard_options_at(seat, source_seat, target_tile, source_event_seq),
    {
        broadcast use {lemma_views_empty, lemma_views_push};

        let mut options: Vec<PromptOption> = Vec::new();
        match self.player_round_state.get(seat) {
            None => options,
            Some(round_state) => {
                let hand = &round_state.concealed_tiles;
                let code: i32 = target_tile.as_i32();
                if has_n_tiles(hand, target_tile, 2) {
                    let mut candidate_tiles: Vec<i32> = Vec::new();
                    candidate_tiles.push(code);
                    let mut consume_tiles: Vec<i32> = Vec::new();
                    consume_tiles.push(code);
                    consume_tiles.push(code);
                    options.push(
                        PromptOption {
                            option_id: option_name_text("peng-", source_event_seq, seat),
                            action_kind: ActionKind::Peng.as_i32(),
                            claim_kind: ClaimKind::Peng.as_i32(),
                            win_type: WinType::Unspecified.as_i32(),
                            candidate_tiles,
                            consume_tiles,
                        },
                    );
                }
                if has_n_tiles(hand, target_tile, 3) {
                    let mut candidate_tiles: Vec<i32> = Vec::new();
                    candidate_tiles.push(code);
                    let mut consume_tiles: Vec<i32> = Vec::new();
                    consume_tiles.push(code);
                    consume_tiles.push(code);
                    consume_tiles.push(code);
                    options.push(
                        PromptOption {
                            option_id: option_name_text("gang-", source_event_seq, seat),
                            action_kind: ActionKind::ExposedKong.as_i32(),
                            claim_kind: ClaimKind::ExposedKong.as_i32(),
                            win_type: WinType::Unspecified.as_i32(),
                            candidate_tiles,
                            consume_tiles,
                        },
                    );
                }
                let ghost before = options@;
                if next_seat(source_seat) == seat {
                    let patterns = build_chi_consume_patterns(hand, target_tile);
                    push_chi_options(&mut options, seat, target_tile, source_event_seq, &patterns);
                }
                assert(views(options@) =~= discard_options(
                    hand@,
                    seat,
                    source_seat,
                    target_tile,
                    source_event_seq,
                ));
                options
            },
        }
    }
}

pub(crate) fn build_win_option(
    kind: &str,
    seat: Seat,
    tile: Tile,
    source_event_seq: u64,
    claim_kind: ClaimKind,
    win_type: WinType,
) -> (r: PromptOption)
    ensures
        r@ == win_option(kind@, seat, tile, source_event_seq, claim_kind, win_type),
{
    let mut candidate_tiles: Vec<i32> = Vec::new();
    candidate_tiles.push(tile.as_i32());
    PromptOption {
        option_id: option_name_text(kind, source_event_seq, seat),
        action_kind: ActionKind::DeclareWin.as_i32(),
        claim_kind: claim_kind.as_i32(),
        win_type: win_type.as_i32(),
        candidate_tiles,
        consume_tiles: Vec::new(),
    }
}

// ---------------------------------------------------------------------------
// Opening
// ---------------------------------------------------------------------------

impl RoomStateModel {
    /// The stored payload of an opened window.
    pub open spec fn window_opened_payload(self, event_seq: u64, window: ActiveClaimWindowStateModel) -> JsonModel {
        JsonModel::Object(
            no_members()
                .push(("room_id"@, json_text(self.room_id)))
                .push(("match_id"@, json_text(self.match_id)))
                .push(("round_id"@, json_text(self.current_round_id())))
                .push(("event_seq"@, JsonModel::Unsigned(event_seq)))
                .push(("action_window_id"@, JsonModel::Unsigned(window.action_window_id)))
                .push(("source_event_seq"@, JsonModel::Unsigned(window.source_event_seq)))
                .push(("source_seat"@, json_text(window.source_seat.name())))
                .push(("target_tile"@, json_text(window.target_tile.name())))
                .push(("trigger_action_kind"@, json_text(window.trigger_action_kind.name())))
                .push(("eligible_seats"@, seat_list(window.eligible_seats)))
                .push(("options_by_seat"@, options_payload(window.options_by_seat)))
                .push(("deadline_unix_ms"@, JsonModel::Unsigned(window.deadline_unix_ms))),
        )
    }

    /// The room with the opening of its claim window on its way into storage, under a number of its
    /// own.
    pub open spec fn window_opening_stored(self) -> RoomStateModel {
        match self.window() {
            Some(window) => {
                let event_seq = self.next_event_seq;
                let numbered = self.numbered();
                numbered.stored(
                    "claim_window_opened"@,
                    event_seq,
                    Some(window.source_seat),
                    numbered.window_opened_payload(event_seq, window),
                )
            },
            None => self,
        }
    }

    /// The frame that asks a seat to answer the open window.
    pub open spec fn prompt_frame(
        self,
        event_seq: u64,
        seat: Seat,
        action_window_id: u64,
        deadline_unix_ms: u64,
        options: Seq<PromptOptionModel>,
    ) -> ServerFrameModel {
        ServerFrameModel {
            event_seq,
            payload: Some(
                ServerPayloadModel::ActionPrompt(
                    ActionPromptModel {
                        room_id: self.room_id,
                        match_id: self.match_id,
                        round_id: self.current_round_id(),
                        event_seq,
                        action_window_id,
                        actor_seat: seat.code(),
                        options,
                        deadline_unix_ms,
                    },
                ),
            ),
        }
    }

    /// The room with a prompt on its way to a seat that has a connection, while a window is open.
    pub open spec fn prompted_seat(
        self,
        event_seq: u64,
        seat: Seat,
        action_window_id: u64,
        deadline_unix_ms: u64,
    ) -> RoomStateModel {
        match (self.players_by_seat.at(seat), self.window()) {
            (Some(player), Some(window)) => match player.connection_id {
                Some(connection_id) => self.sent(
                    connection_id,
                    self.prompt_frame(
                        event_seq,
                        seat,
                        action_window_id,
                        deadline_unix_ms,
                        match window.options_by_seat.at(seat) {
                            Some(options) => options,
                            None => Seq::empty(),
                        },
                    ),
                ),
                None => self,
            },
            _ => self,
        }
    }

    /// The room with prompts on their way to the given seats, and to no others.
    pub open spec fn prompted_seats(
        self,
        event_seq: u64,
        seats: Seq<Seat>,
        action_window_id: u64,
        deadline_unix_ms: u64,
    ) -> RoomStateModel
        decreases seats.len(),
    {
        if seats.len() == 0 {
            self
        } else {
            self.prompted_seats(event_seq, seats.drop_last(), action_window_id, deadline_unix_ms)
                .prompted_seat(event_seq, seats.last(), action_window_id, deadline_unix_ms)
        }
    }

    /// The room with prompts on their way to the given seats, all under one event number.
    pub open spec fn prompted(self, action_window_id: u64, deadline_unix_ms: u64, seats: Seq<Seat>) -> RoomStateModel {
        self.numbered().prompted_seats(
            self.next_event_seq,
            seats,
            action_window_id,
            deadline_unix_ms,
        )
    }

    /// The window that a public action opens.
    pub open spec fn new_window(
        self,
        source_seat: Seat,
        tile: Tile,
        source_event_seq: u64,
        trigger: ActionKind,
        eligible_seats: Seq<Seat>,
        options_by_seat: SeatMap<Seq<PromptOptionModel>>,
        now_ms: u64,
    ) -> ActiveClaimWindowStateModel {
        ActiveClaimWindowStateModel {
            action_window_id: self.next_action_window_id,
            source_event_seq,
            source_seat,
            target_tile: tile,
            trigger_action_kind: trigger,
            eligible_seats,
            options_by_seat,
            responded_seats: SeatMap::empty_map(),
            deadline_unix_ms: (now_ms + self.room_config.action_timeout_ms) as u64,
        }
    }

    /// The room with a claim window, while a hand is running.
    pub open spec fn with_window(self, window: ActiveClaimWindowStateModel) -> RoomStateModel {
        match self.round_runtime {
            Some(runtime) => RoomStateModel {
                round_runtime: Some(
                    RoundRuntimeStateModel { active_claim_window: Some(window), ..runtime },
                ),
                ..self
            },
            None => self,
        }
    }

    /// The room in which a claim window has been opened: stored, the eligible seats asked, and the
    /// timeout scheduled.
    pub open spec fn window_opened(self, window: ActiveClaimWindowStateModel) -> RoomStateModel {
        let phase = if window.trigger_action_kind == ActionKind::Discard {
            GamePhase::WaitingClaim
        } else {
            self.phase
        };
        RoomStateModel {
            next_action_window_id: (self.next_action_window_id + 1) as u64,
            ..self
        }.with_window(window).window_opening_stored().in_phase(phase).prompted(
            window.action_window_id,
            window.deadline_unix_ms,
            window.eligible_seats,
        ).with_output(
            RoomOutputModel::ScheduleClaimTimeout(
                window.action_window_id,
                self.room_config.action_timeout_ms as u64,
            ),
        )
    }
}

/// Whether an output is the prompt of a window for one of some seats.
pub open spec fn prompts_one_of(
    room: RoomStateModel,
    window: ActiveClaimWindowStateModel,
    event_seq: u64,
    seats: Seq<Seat>,
    output: RoomOutputModel,
) -> bool {
    exists|seat: Seat| seats.contains(seat) && #[trigger] prompts(room, window, event_seq, seat, output)
}

/// Whether an output is the prompt of a window for a seat, on the connection of its player.
pub open spec fn prompts(
    room: RoomStateModel,
    window: ActiveClaimWindowStateModel,
    event_seq: u64,
    seat: Seat,
    output: RoomOutputModel,
) -> bool {
    room.players_by_seat.at(seat) matches Some(player) && player.connection_id matches Some(
        connection_id,
    ) && output == RoomOutputModel::Send(
        connection_id,
        room.prompt_frame(
            event_seq,
            seat,
            window.action_window_id,
            window.deadline_unix_ms,
            match window.options_by_seat.at(seat) {
                Some(options) => options,
                None => Seq::empty(),
            },
        ),
    )
}

/// Whether the player of a seat has a connection.
pub open spec fn is_connected(room: RoomStateModel, seat: Seat) -> bool {
    room.players_by_seat.at(seat) matches Some(player) && player.connection_id is Some
}

proof fn lemma_prompted_seats(
    room: RoomStateModel,
    window: ActiveClaimWindowStateModel,
    event_seq: u64,
    seats: Seq<Seat>,
)
    requires
        room.window() == Some(window),
    ensures
        ({
            let after = room.prompted_seats(
                event_seq,
                seats,
                window.action_window_id,
                window.deadline_unix_ms,
            );
            &&& after == (RoomStateModel { outbox: after.outbox, ..room })
            &&& room.outbox.is_prefix_of(after.outbox)
            &&& forall|i: int|
                room.outbox.len() <= i < after.outbox.len() ==> prompts_one_of(
                    room,
                    window,
                    event_seq,
                    seats,
                    #[trigger] after.outbox[i],
                )
            &&& room.runtime_mode is Production ==> forall|seat: Seat| #[trigger]
                seats.contains(seat) && is_connected(room, seat) ==> exists|i: int|
                    room.outbox.len() <= i < after.outbox.len() && prompts(
                        room,
                        window,
                        event_seq,
                        seat,
                        #[trigger] after.outbox[i],
                    )
        }),
    decreases seats.len(),
{
    if seats.len() > 0 {
        let fewer = seats.drop_last();
        let last = seats.last();
        lemma_prompted_seats(room, window, event_seq, fewer);
        let before = room.prompted_seats(
            event_seq,
            fewer,
            window.action_window_id,
            window.deadline_unix_ms,
        );
        let after = room.prompted_seats(
            event_seq,
            seats,
            window.action_window_id,
            window.deadline_unix_ms,
        );
        assert(seats[seats.len() - 1] == last);
        assert forall|seat: Seat| #[trigger] seats.contains(seat) <==> seat == last
            || fewer.contains(seat) by {
            if seats.contains(seat) {
                let at = choose|at: int| 0 <= at < seats.len() && seats[at] == seat;
                if at < seats.len() - 1 {
                    assert(fewer[at] == seat);
                }
            }
            if fewer.contains(seat) {
                let at = choose|at: int| 0 <= at < fewer.len() && fewer[at] == seat;
                assert(seats[at] == seat);
            }
        }
        assert forall|i: int| room.outbox.len() <= i < after.outbox.len() implies prompts_one_of(
            room,
            window,
            event_seq,
            seats,
            #[trigger] after.outbox[i],
        ) by {
            if i < before.outbox.len() {
                assert(after.outbox[i] == before.outbox[i]);
                assert(prompts_one_of(room, window, event_seq, fewer, before.outbox[i]));
            } else {
                assert(prompts(room, window, event_seq, last, after.outbox[i]));
            }
        }
        if room.runtime_mode is Production {
            assert forall|seat: Seat| #[trigger]
                seats.contains(seat) && is_connected(room, seat) implies exists|i: int|
                room.outbox.len() <= i < after.outbox.len() && prompts(
                    room,
                    window,
                    event_seq,
                    seat,
                    #[trigger] after.outbox[i],
                ) by {
                if fewer.contains(seat) {
                    let i = choose|i: int|
                        room.outbox.len() <= i < before.outbox.len() && prompts(
                            room,
                            window,
                            event_seq,
                            seat,
                            #[trigger] before.outbox[i],
                        );
                    assert(after.outbox[i] == before.outbox[i]);
                } else {
                    let i = before.outbox.len() as int;
                    assert(prompts(room, window, event_seq, seat, after.outbox[i]));
                }
            }
        }
    }
}

/// When a window opens, every frame that is sent is the prompt of an eligible seat, with the options
/// of that seat and on the connection of its player; and every eligible seat with a connection gets
/// its prompt, except in a load test, which sends nothing.
pub proof fn law_prompts_reach_the_eligible(room: RoomStateModel, window: ActiveClaimWindowStateModel)
    requires
        room.round_runtime is Some,
    ensures
        ({
            let after = room.window_opened(window);
            let event_seq = (room.next_event_seq + 1) as u64;
            &&& room.outbox.is_prefix_of(after.outbox)
            &&& forall|i: int|
                room.outbox.len() <= i < after.outbox.len() && (#[trigger] after.outbox[i]) is Send
                    ==> prompts_one_of(
                    room,
                    window,
                    event_seq,
                    window.eligible_seats,
                    after.outbox[i],
                )
            &&& room.runtime_mode is Production ==> forall|seat: Seat| #[trigger]
                window.eligible_seats.contains(seat) && is_connected(room, seat) ==> exists|i: int|
                    room.outbox.len() <= i < after.outbox.len() && prompts(
                        room,
                        window,
                        event_seq,
                        seat,
                        #[trigger] after.outbox[i],
                    )
        }),
{
    let phase = if window.trigger_action_kind == ActionKind::Discard {
        GamePhase::WaitingClaim
    } else {
        room.phase
    };
    let stored = RoomStateModel {
        next_action_window_id: (room.next_action_window_id + 1) as u64,
        ..room
    }.with_window(window).window_opening_stored().in_phase(phase);
    let numbered = stored.numbered();
    let event_seq = stored.next_event_seq;
    lemma_prompted_seats(numbered, window, event_seq, window.eligible_seats);
    let prompted = numbered.prompted_seats(
        event_seq,
        window.eligible_seats,
        window.action_window_id,
        window.deadline_unix_ms,
    );
    let after = room.window_opened(window);
    assert(after.outbox =~= prompted.outbox.push(after.outbox.last()));
    assert(room.outbox.is_prefix_of(numbered.outbox));
    assert(room.outbox.is_prefix_of(after.outbox)) by {
        assert(after.outbox.subrange(0, room.outbox.len() as int) =~= room.outbox);
    }
    assert(forall|seat: Seat, output: RoomOutputModel|
        prompts(numbered, window, event_seq, seat, output) == prompts(
            room,
            window,
            event_seq,
            seat,
            output,
        ));
    assert forall|i: int|
        room.outbox.len() <= i < after.outbox.len() && (
        #[trigger] after.outbox[i]) is Send implies prompts_one_of(
        room,
        window,
        event_seq,
        window.eligible_seats,
        after.outbox[i],
    ) by {
        if numbered.outbox.len() <= i < prompted.outbox.len() {
            assert(after.outbox[i] == prompted.outbox[i]);
            assert(prompts_one_of(
                numbered,
                window,
                event_seq,
                window.eligible_seats,
                prompted.outbox[i],
            ));
            let seat = choose|seat: Seat|
                window.eligible_seats.contains(seat) && #[trigger] prompts(
                    numbered,
                    window,
                    event_seq,
                    seat,
                    prompted.outbox[i],
                );
            assert(prompts(room, window, event_seq, seat, after.outbox[i]));
        } else if i < numbered.outbox.len() {
            assert(after.outbox[i] == prompted.outbox[i]);
            assert(prompted.outbox[i] == numbered.outbox[i]);
        }
    }
    if room.runtime_mode is Production {
        assert forall|seat: Seat| #[trigger]
            window.eligible_seats.contains(seat) && is_connected(room, seat) implies exists|i: int|
            room.outbox.len() <= i < after.outbox.len() && prompts(
                room,
                window,
                event_seq,
                seat,
                #[trigger] after.outbox[i],
            ) by {
            assert(is_connected(numbered, seat));
            let i = choose|i: int|
                numbered.outbox.len() <= i < prompted.outbox.len() && prompts(
                    numbered,
                    window,
                    event_seq,
                    seat,
                    #[trigger] prompted.outbox[i],
                );
            assert(after.outbox[i] == prompted.outbox[i]);
            assert(prompts(room, window, event_seq, seat, after.outbox[i]));
        }
    }
}

impl RoomState {
    pub fn persist_claim_window_opened_event(&mut self)
        requires
            old(self)@.can_number(1),
        ensures
            final(self)@ == old(self)@.window_opening_stored(),
    {
        let present: bool = match self.round_runtime.as_ref() {
            Some(runtime) => runtime.active_claim_window.is_some(),
            None => false,
        };
        if !present {
            return;
        }
        let event_seq: u64 = self.allocate_event_seq();
        if let Some(runtime) = self.round_runtime.as_ref() {
            if let Some(window) = runtime.active_claim_window.as_ref() {
                let payload = JsonObject::new()
                    .with("room_id", Json::text(self.room_id.as_str()))
                    .with("match_id", Json::text(self.match_id.as_str()))
                    .with("round_id", Json::text(self.round_id().as_str()))
                    .with("event_seq", Json::unsigned(event_seq))
                    .with("action_window_id", Json::unsigned(window.action_window_id))
                    .with("source_event_seq", Json::unsigned(window.source_event_seq))
                    .with("source_seat", Json::text(window.source_seat.as_str_name()))
                    .with("target_tile", Json::text(window.target_tile.as_str_name()))
                    .with("trigger_action_kind", Json::text(window.trigger_action_kind.as_str_name()))
                    .with("eligible_seats", seats_json(&window.eligible_seats))
                    .with("options_by_seat", options_json(&window.options_by_seat))
                    .with("deadline_unix_ms", Json::unsigned(window.deadline_unix_ms))
                    .build();
                let source_seat = window.source_seat;
                self.persist_match_event(
                    "claim_window_opened",
                    event_seq,
                    Some(source_seat),
                    payload,
                );
            }
        }
    }

    fn send_claim_prompt(
        &mut self,
        event_seq: u64,
        seat: Seat,
        action_window_id: u64,
        deadline_unix_ms: u64,
    )
        ensures
            final(self)@ == old(self)@.prompted_seat(
                event_seq,
                seat,
                action_window_id,
                deadline_unix_ms,
            ),
    {
        broadcast use lemma_views_empty;

        let connection_id: Option<String> = match self.players_by_seat.get(seat) {
            Some(player) => player.connection_id.clone(),
            None => None,
        };
        if let Some(connection_id) = connection_id {
            if let Some(runtime) = self.round_runtime.as_ref() {
                if let Some(window) = runtime.active_claim_window.as_ref() {
                    let options: Vec<PromptOption> = match window.options_by_seat.get(seat) {
                        Some(options) => copy_options(&options.items),
                        None => Vec::new(),
                    };
                    let frame = ServerFrame {
                        event_seq,
                        payload: Some(
                            ServerPayload::ActionPrompt(
                                ActionPrompt {
                                    room_id: self.room_id.clone(),
                                    match_id: self.match_id.clone(),
                                    round_id: self.round_id(),
                                    event_seq,
                                    action_window_id,
                                    actor_seat: seat.as_i32(),
                                    options,
                                    deadline_unix_ms,
                                },
                            ),
                        ),
                    };
                    self.send_frame(connection_id.as_str(), frame);
                }
            }
        }
    }

    pub fn send_claim_prompts(
        &mut self,
        action_window_id: u64,
        deadline_unix_ms: u64,
        eligible_seats: &Vec<Seat>,
    )
        requires
            old(self)@.can_number(1),
        ensures
            final(self)@ == old(self)@.prompted(
                action_window_id,
                deadline_unix_ms,
                eligible_seats@,
            ),
    {
        let event_seq: u64 = self.allocate_event_seq();
        let ghost before = self@;
        let mut i: usize = 0;
        while i < eligible_seats.len()
            invariant
                i <= eligible_seats.len(),
                self@ == before.prompted_seats(
                    event_seq,
                    eligible_seats@.take(i as int),
                    action_window_id,
                    deadline_unix_ms,
                ),
            decreases eligible_seats.len() - i,
        {
            assert(eligible_seats@.take(i + 1).drop_last() =~= eligible_seats@.take(i as int));
            self.send_claim_prompt(event_seq, eligible_seats[i], action_window_id, deadline_unix_ms);
            i = i + 1;
        }
        assert(eligible_seats@.take(i as int) =~= eligible_seats@);
    }

    /// Opens a claim window.
    pub(crate) fn open_window(
        &mut self,
        source_seat: Seat,
        tile: Tile,
        source_event_seq: u64,
        trigger: ActionKind,
        eligible_seats: Vec<Seat>,
        options_by_seat: SeatMap<PromptOptions>,
        now_ms: u64,
    )
        requires
            old(self)@.can_number(2),
            old(self)@.next_action_window_id < u64::MAX,
            clock_in_range(now_ms),
        ensures
            final(self)@ == old(self)@.window_opened(
                old(self)@.new_window(
                    source_seat,
                    tile,
                    source_event_seq,
                    trigger,
                    eligible_seats@,
                    options_by_seat@,
                    now_ms,
                ),
            ),
    {
        let action_window_id: u64 = self.next_action_window_id;
        self.next_action_window_id = self.next_action_window_id + 1;
        let timeout: u64 = self.room_config.action_timeout_ms as u64;
        let deadline_unix_ms: u64 = now_ms + timeout;
        let mut asked: Vec<Seat> = Vec::new();
        let mut i: usize = 0;
        while i < eligible_seats.len()
            invariant
                i <= eligible_seats.len(),
                asked@ == eligible_seats@.take(i as int),
            decreases eligible_seats.len() - i,
        {
            asked.push(eligible_seats[i]);
            i = i + 1;
            assert(asked@ =~= eligible_seats@.take(i as int));
        }
        assert(asked@ =~= eligible_seats@);
        let window = ActiveClaimWindowState {
            action_window_id,
            source_event_seq,
            source_seat,
            target_tile: tile,
            trigger_action_kind: trigger,
            eligible_seats,
            options_by_seat,
            responded_seats: SeatMap::new(),
            deadline_unix_ms,
        };
        if let Some(runtime) = self.round_runtime.as_mut() {
            runtime.active_claim_window = Some(window);
        }
        self.persist_claim_window_opened_event();
        if trigger == ActionKind::Discard {
            self.phase = GamePhase::WaitingClaim;
        }
        self.send_claim_prompts(action_window_id, deadline_unix_ms, &asked);
        self.push_output(RoomOutput::ScheduleClaimTimeout(action_window_id, timeout));
    }
}

// ---------------------------------------------------------------------------
// Choosing the winner
// ---------------------------------------------------------------------------

/// How much an answer weighs: a win over a kong or a triplet, those over a run, and a pass nothing.
pub open spec fn response_weight(response: ClaimResponseModel) -> Option<nat> {
    match response {
        ClaimResponseModel::Pass => None,
        ClaimResponseModel::DeclareWin(_) => Some(3),
        ClaimResponseModel::Claim(claim) => match ClaimKind::decode(claim.claim_kind) {
            Some(ClaimKind::Chi) => Some(1),
            Some(ClaimKind::Peng) => Some(2),
            Some(ClaimKind::ExposedKong) => Some(2),
            Some(ClaimKind::DiscardWin) => Some(3),
            Some(ClaimKind::RobKongWin) => Some(3),
            _ => None,
        },
    }
}

pub fn claim_response_priority(response: &ClaimResponse) -> (r: Option<u8>)
    ensures
        match r {
            Some(weight) => response_weight(response@) == Some(weight as nat),
            None => response_weight(response@) is None,
        },
{
    match response {
        ClaimResponse::Pass => None,
        ClaimResponse::DeclareWin(_) => Some(3),
        ClaimResponse::Claim(claim) => match ClaimKind::from_i32(claim.claim_kind) {
            Some(ClaimKind::Chi) => Some(1),
            Some(ClaimKind::Peng) => Some(2),
            Some(ClaimKind::ExposedKong) => Some(2),
            Some(ClaimKind::DiscardWin) => Some(3),
            Some(ClaimKind::RobKongWin) => Some(3),
            _ => None,
        },
    }
}

/// The weight of a seat's answer, if it gave one that weighs anything.
pub open spec fn seat_weight(responses: SeatMap<ClaimResponseModel>, seat: Seat) -> Option<nat> {
    match responses.at(seat) {
        Some(response) => response_weight(response),
        None => None,
    }
}

/// Whether the answer of one seat goes before that of another: by weight, and where weights are
/// equal by whose turn comes sooner after the source.
pub open spec fn outranks(
    responses: SeatMap<ClaimResponseModel>,
    source_seat: Seat,
    seat: Seat,
    other: Seat,
) -> bool {
    match (seat_weight(responses, seat), seat_weight(responses, other)) {
        (Some(weight), Some(rival)) => weight > rival || (weight == rival && turns_until(
            source_seat,
            seat,
        ) < turns_until(source_seat, other)),
        (Some(_), None) => true,
        _ => false,
    }
}

/// The better of the best seat so far and another one.
pub open spec fn better_seat(
    responses: SeatMap<ClaimResponseModel>,
    source_seat: Seat,
    best: Option<Seat>,
    seat: Seat,
) -> Option<Seat> {
    if seat_weight(responses, seat) is None {
        best
    } else {
        match best {
            None => Some(seat),
            Some(current) => if outranks(responses, source_seat, seat, current) {
                Some(seat)
            } else {
                best
            },
        }
    }
}

/// The seat that wins a window.
#[verifier::opaque]
pub open spec fn winning_seat(responses: SeatMap<ClaimResponseModel>, source_seat: Seat) -> Option<
    Seat,
> {
    let after_east = better_seat(responses, source_seat, None, Seat::East);
    let after_south = better_seat(responses, source_seat, after_east, Seat::South);
    let after_west = better_seat(responses, source_seat, after_south, Seat::West);
    let after_north = better_seat(responses, source_seat, after_west, Seat::North);
    better_seat(responses, source_seat, after_north, Seat::Unspecified)
}

/// The winner of a window goes before everybody else who answered with something that weighs: a
/// win before a kong or a triplet, those before a run, and among equals whoever's turn comes
/// soonest. Nobody wins only where nobody wanted to. Which answer came in first plays no part.
pub proof fn law_window_winner(responses: SeatMap<ClaimResponseModel>, source_seat: Seat, other: Seat)
    ensures
        match winning_seat(responses, source_seat) {
            Some(seat) => seat_weight(responses, seat) is Some && (other != seat ==> outranks(
                responses,
                source_seat,
                seat,
                other,
            )),
            None => seat_weight(responses, other) is None,
        },
{
    reveal(winning_seat);
}

fn pick_better(
    responses: &SeatMap<ClaimResponse>,
    source_seat: Seat,
    best: Option<Seat>,
    seat: Seat,
) -> (r: Option<Seat>)
    ensures
        r == better_seat(responses@, source_seat, best, seat),
{
    let weight: u8 = match responses.get(seat) {
        None => {
            return best;
        },
        Some(response) => match claim_response_priority(response) {
            None => {
                return best;
            },
            Some(weight) => weight,
        },
    };
    match best {
        None => Some(seat),
        Some(current) => {
            let rival: Option<u8> = match responses.get(current) {
                None => None,
                Some(response) => claim_response_priority(response),
            };
            match rival {
                None => Some(seat),
                Some(rival) => {
                    if weight > rival || (weight == rival && claim_priority_distance(
                        source_seat,
                        seat,
                    ) < claim_priority_distance(source_seat, current)) {
                        Some(seat)
                    } else {
                        best
                    }
                },
            }
        },
    }
}

/// The seat whose answer wins a claim window on an action of `source_seat`.
pub fn select_highest_priority_claim_response(
    source_seat: Seat,
    responded_seats: &SeatMap<ClaimResponse>,
) -> (r: Option<Seat>)
    ensures
        r == winning_seat(responded_seats@, source_seat),
{
    reveal(winning_seat);
    let after_east = pick_better(responded_seats, source_seat, None, Seat::East);
    let after_south = pick_better(responded_seats, source_seat, after_east, Seat::South);
    let after_west = pick_better(responded_seats, source_seat, after_south, Seat::West);
    let after_north = pick_better(responded_seats, source_seat, after_west, Seat::North);
    pick_better(responded_seats, source_seat, after_north, Seat::Unspecified)
}

} // verus!
