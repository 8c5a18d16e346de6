//! Claims and kongs that take effect, and how the turn moves on.

use vstd::prelude::*;

use crate::collections::{group_seat_map, lemma_views_push, views};
use crate::proto::client::{
    ActionKind, ClaimAction, ClaimActionModel, ClaimKind, DeclareWinAction, GamePhase, Meld,
    MeldKind, MeldModel, PromptOption, PromptOptionModel, RejectCode, Seat, Tile, WinType,
};
use crate::room::convert::{
    claim_action, claim_meld, failure, map_claim_kind_to_client_action, map_claim_kind_to_meld_kind,
    parse_client_claim_kind, parse_client_seat, parse_client_tile, parse_client_tiles,
    parsed_claim_kind, parsed_seat, parsed_tile, parsed_tiles, plain_result, ActionValidationError,
    ActionValidationErrorModel,
};
use crate::room::basics::group_announcing_keeps;
use crate::room::engine_view::{seat_missing, seat_missing_error};
use crate::room::hand::{
    after_kong_tile, after_taking, consume_tile_for_supplemental_kong, hand_after_taking,
    holds_tile, missing_kong_tile_error, missing_tiles_error, next_seat,
    remove_tiles_from_concealed, seat_after, PlayerRoundStateModel,
};
use crate::room::rounds::{draw_record, lemma_drawn_keeps};
use crate::room::state::{DrawSource, ResolvedActionRecord, RoomState, RoomStateModel};
use crate::tiles::{
    codes_of, copy_tiles, sort_codes, sort_tiles, sorted_codes, sorted_tiles, tile_codes,
};

verus! {

broadcast use {group_announcing_keeps, group_seat_map};

// ---------------------------------------------------------------------------
// Checks
// ---------------------------------------------------------------------------

/// The place of the triplet that a tile can be added to.
pub open spec fn peng_place(melds: Seq<MeldModel>, tile: Tile) -> Option<int>
    decreases melds.len(),
{
    if melds.len() == 0 {
        None
    } else if melds[0].kind == MeldKind::Peng.code() && melds[0].claimed_tile == tile.code() {
        Some(0)
    } else {
        match peng_place(melds.drop_first(), tile) {
            Some(place) => Some(place + 1),
            None => None,
        }
    }
}

proof fn lemma_peng_place(melds: Seq<MeldModel>, tile: Tile, at: int)
    requires
        0 <= at <= melds.len(),
        forall|i: int|
            0 <= i < at ==> !((#[trigger] melds[i]).kind == MeldKind::Peng.code()
                && melds[i].claimed_tile == tile.code()),
        at < melds.len() ==> melds[at].kind == MeldKind::Peng.code() && melds[at].claimed_tile
            == tile.code(),
    ensures
        peng_place(melds, tile) == (if at < melds.len() {
            Some(at)
        } else {
            None
        }),
    decreases melds.len(),
{
    if at > 0 {
        lemma_peng_place(melds.drop_first(), tile, at - 1);
    }
}

pub proof fn lemma_peng_place_in_range(melds: Seq<MeldModel>, tile: Tile)
    ensures
        peng_place(melds, tile) matches Some(place) ==> 0 <= place < melds.len(),
    decreases melds.len(),
{
    if melds.len() > 0 {
        lemma_peng_place_in_range(melds.drop_first(), tile);
    }
}

fn find_peng(melds: &Vec<Meld>, tile: Tile) -> (r: Option<usize>)
    ensures
        match r {
            Some(place) => peng_place(views(melds@), tile) == Some(place as int) && place
                < melds.len(),
            None => peng_place(views(melds@), tile) is None,
        },
{
    let mut i: usize = 0;
    while i < melds.len()
        invariant
            i <= melds.len(),
            forall|j: int|
                0 <= j < i ==> !((#[trigger] views(melds@)[j]).kind == MeldKind::Peng.code()
                    && views(melds@)[j].claimed_tile == tile.code()),
        decreases melds.len() - i,
    {
        if melds[i].kind == MeldKind::Peng.as_i32() && melds[i].claimed_tile == tile.as_i32() {
            proof {
                lemma_peng_place(views(melds@), tile, i as int);
            }
            return Some(i);
        }
        i = i + 1;
    }
    proof {
        lemma_peng_place(views(melds@), tile, i as int);
    }
    None
}

/// The error for a kong without a triplet to add to.
pub open spec fn no_peng_error() -> ActionValidationErrorModel {
    failure(
        RejectCode::ActionNotAvailable,
        "supplemental kong requires an existing peng meld of the target tile"@,
    )
}

fn no_peng() -> (r: ActionValidationError)
    ensures
        r@ == no_peng_error(),
{
    ActionValidationError::new(
        RejectCode::ActionNotAvailable,
        "supplemental kong requires an existing peng meld of the target tile",
    )
}

/// Whether an option of the window is the one that a claim names: the same kind, and the same tiles
/// in whatever order.
pub open spec fn option_matches(option: PromptOptionModel, kind: ClaimKind, consume: Seq<Tile>) -> bool {
    &&& option.action_kind == ActionKind::Unspecified.code() || option.action_kind == claim_action(
        kind,
    ).code()
    &&& option.claim_kind == kind.code()
    &&& sorted_tiles(
        match parsed_tiles(option.consume_tiles) {
            Ok(tiles) => tiles,
            Err(_) => Seq::empty(),
        },
    ) == sorted_tiles(consume)
}

fn same_tiles(a: &Vec<Tile>, b: &Vec<Tile>) -> (r: bool)
    ensures
        r == (a@ == b@),
{
    if a.len() != b.len() {
        return false;
    }
    let mut i: usize = 0;
    while i < a.len()
        invariant
            a.len() == b.len(),
            i <= a.len(),
            forall|j: int| 0 <= j < i ==> a@[j] == b@[j],
        decreases a.len() - i,
    {
        if a[i] != b[i] {
            assert(a@[i as int] != b@[i as int]);
            return false;
        }
        i = i + 1;
    }
    assert(a@ =~= b@);
    true
}

fn matches_option(option: &PromptOption, kind: ClaimKind, sorted_consume: &Vec<Tile>, Ghost(consume): Ghost<
    Seq<Tile>,
>) -> (r: bool)
    requires
        sorted_consume@ == sorted_tiles(consume),
    ensures
        r == option_matches(option@, kind, consume),
{
    if option.action_kind != ActionKind::Unspecified.as_i32() && option.action_kind
        != map_claim_kind_to_client_action(kind).as_i32() {
        return false;
    }
    if option.claim_kind != kind.as_i32() {
        return false;
    }
    let mut tiles: Vec<Tile> = match parse_client_tiles(&option.consume_tiles) {
        Ok(tiles) => tiles,
        Err(_) => Vec::new(),
    };
    sort_tiles(&mut tiles);
    same_tiles(&tiles, sorted_consume)
}

/// Whether some option is the one that a claim names.
pub open spec fn offered(options: Seq<PromptOptionModel>, kind: ClaimKind, consume: Seq<Tile>) -> bool {
    exists|i: int|
        0 <= i < options.len() && option_matches(#[trigger] options[i], kind, consume)
}

fn offers(
    options: &Vec<PromptOption>,
    kind: ClaimKind,
    sorted_consume: &Vec<Tile>,
    Ghost(consume): Ghost<Seq<Tile>>,
) -> (r: bool)
    requires
        sorted_consume@ == sorted_tiles(consume),
    ensures
        r == offered(views(options@), kind, consume),
{
    let ghost all = views(options@);
    let mut i: usize = 0;
    while i < options.len()
        invariant
            i <= options.len(),
            all == views(options@),
            sorted_consume@ == sorted_tiles(consume),
            forall|j: int| 0 <= j < i ==> !option_matches(#[trigger] all[j], kind, consume),
        decreases options.len() - i,
    {
        if matches_option(&options[i], kind, sorted_consume, Ghost(consume)) {
            assert(option_matches(all[i as int], kind, consume));
            return true;
        }
        i = i + 1;
    }
    false
}

/// The error for a request without a running hand.
pub open spec fn no_round_error() -> ActionValidationErrorModel {
    failure(RejectCode::PhaseMismatch, "no active round runtime exists"@)
}

/// The error for a request without an open window.
pub open spec fn no_window_error() -> ActionValidationErrorModel {
    failure(RejectCode::ActionWindowClosed, "there is no active claim window"@)
}

/// The error for a request about another window.
pub open spec fn stale_window_error() -> ActionValidationErrorModel {
    failure(RejectCode::ActionWindowClosed, "request references a stale claim window"@)
}

/// The error for a seat that the window does not ask.
pub open spec fn not_eligible_error() -> ActionValidationErrorModel {
    failure(RejectCode::ActionNotAvailable, "seat is not eligible in the current claim window"@)
}

impl RoomStateModel {
    /// Whether a seat may answer the open window, with the given error text for a wrong event.
    pub open spec fn window_submission(
        self,
        seat: Seat,
        action_window_id: u64,
        source_event_seq: u64,
        wrong_event: Seq<char>,
    ) -> Result<(), ActionValidationErrorModel> {
        match self.round_runtime {
            None => Err(no_round_error()),
            Some(runtime) => match runtime.active_claim_window {
                None => Err(no_window_error()),
                Some(window) => if action_window_id != window.action_window_id {
                    Err(stale_window_error())
                } else if source_event_seq != window.source_event_seq {
                    Err(failure(RejectCode::InvalidRequest, wrong_event))
                } else if !window.eligible_seats.contains(seat) {
                    Err(not_eligible_error())
                } else {
                    Ok(())
                },
            },
        }
    }

    /// Whether a claim is one of the options that the open window offers a seat.
    pub open spec fn claim_choice(self, seat: Seat, claim: ClaimActionModel) -> Result<
        (),
        ActionValidationErrorModel,
    > {
        match self.round_runtime {
            None => Err(no_round_error()),
            Some(runtime) => match runtime.active_claim_window {
                None => Err(no_window_error()),
                Some(window) => match parsed_tile(claim.target_tile) {
                    Err(error) => Err(error),
                    Ok(target_tile) => if target_tile != window.target_tile {
                        Err(
                            failure(
                                RejectCode::InvalidTile,
                                "claim target_tile does not match the active claim window"@,
                            ),
                        )
                    } else {
                        match parsed_seat(claim.source_seat) {
                            Err(error) => Err(error),
                            Ok(source_seat) => if source_seat != window.source_seat {
                                Err(
                                    failure(
                                        RejectCode::InvalidRequest,
                                        "claim source_seat does not match the active claim window"@,
                                    ),
                                )
                            } else {
                                match parsed_claim_kind(claim.claim_kind) {
                                    Err(error) => Err(error),
                                    Ok(kind) => match parsed_tiles(claim.consume_tiles) {
                                        Err(error) => Err(error),
                                        Ok(consume) => match window.options_by_seat.at(seat) {
                                            None => Err(
                                                failure(
                                                    RejectCode::ActionNotAvailable,
                                                    "seat does not have any claim options in the current window"@,
                                                ),
                                            ),
                                            Some(options) => if offered(options, kind, consume) {
                                                Ok(())
                                            } else {
                                                Err(
                                                    failure(
                                                        RejectCode::ActionNotAvailable,
                                                        "submitted claim does not match any server-provided option"@,
                                                    ),
                                                )
                                            },
                                        },
                                    },
                                }
                            },
                        }
                    },
                },
            },
        }
    }

    /// Whether a seat may add a tile to one of its triplets.
    pub open spec fn kong_choice(self, seat: Seat, tile: Tile) -> Result<
        (),
        ActionValidationErrorModel,
    > {
        match self.player_round_state.at(seat) {
            None => Err(seat_missing_error(seat)),
            Some(hand) => if peng_place(hand.melds, tile) is None {
                Err(no_peng_error())
            } else if hand.drawn_tile == Some(tile) || hand.concealed_tiles.contains(tile) {
                Ok(())
            } else {
                Err(
                    failure(
                        RejectCode::InvalidTile,
                        "supplemental kong tile is not present in the player's private hand"@,
                    ),
                )
            },
        }
    }

    /// Who is to pay for a declared win: nobody in particular for a drawn tile, the source of the
    /// open window for a claimed one; or why the declaration does not fit the table.
    pub open spec fn win_context(
        self,
        seat: Seat,
        action_window_id: u64,
        win: DeclareWinAction,
        win_type: WinType,
        winning_tile: Tile,
    ) -> Result<Option<Seat>, ActionValidationErrorModel> {
        match win_type {
            WinType::Unspecified => Err(
                failure(
                    RejectCode::InvalidRequest,
                    "declare win requires a concrete win_type"@,
                ),
            ),
            WinType::SelfDraw => self.self_draw_context(seat, winning_tile),
            WinType::KongDraw => self.self_draw_context(seat, winning_tile),
            WinType::Discard => self.claimed_win_context(seat, action_window_id, win, winning_tile),
            WinType::RobKong => self.claimed_win_context(seat, action_window_id, win, winning_tile),
        }
    }

    /// Whether a seat may win on the tile that it has just drawn.
    pub open spec fn self_draw_context(self, seat: Seat, winning_tile: Tile) -> Result<
        Option<Seat>,
        ActionValidationErrorModel,
    > {
        if self.phase != GamePhase::WaitingDiscard {
            Err(
                failure(
                    RejectCode::PhaseMismatch,
                    "self draw win is only available during WaitingDiscard"@,
                ),
            )
        } else if seat != self.current_turn_seat {
            Err(
                failure(
                    RejectCode::NotYourTurn,
                    "only the current turn seat may declare self draw win"@,
                ),
            )
        } else {
            let drawn = match self.player_round_state.at(seat) {
                Some(hand) => hand.drawn_tile,
                None => None,
            };
            match drawn {
                None => Err(
                    failure(
                        RejectCode::ActionNotAvailable,
                        "self draw win requires a pending drawn tile"@,
                    ),
                ),
                Some(tile) => if tile != winning_tile {
                    Err(
                        failure(
                            RejectCode::InvalidTile,
                            "winning_tile does not match the current pending drawn tile"@,
                        ),
                    )
                } else {
                    Ok(None)
                },
            }
        }
    }

    /// Whether a seat may win on the tile of the open window.
    pub open spec fn claimed_win_context(
        self,
        seat: Seat,
        action_window_id: u64,
        win: DeclareWinAction,
        winning_tile: Tile,
    ) -> Result<Option<Seat>, ActionValidationErrorModel> {
        match self.round_runtime {
            None => Err(
                failure(
                    RejectCode::PhaseMismatch,
                    "discard-based win requires an active round runtime"@,
                ),
            ),
            Some(runtime) => match runtime.active_claim_window {
                None => Err(
                    failure(
                        RejectCode::ActionWindowClosed,
                        "discard-based win requires an active claim window"@,
                    ),
                ),
                Some(window) => if action_window_id != window.action_window_id {
                    Err(stale_window_error())
                } else if !window.eligible_seats.contains(seat) {
                    Err(
                        failure(
                            RejectCode::ActionNotAvailable,
                            "seat is not eligible to declare win in the current claim window"@,
                        ),
                    )
                } else if window.target_tile != winning_tile {
                    Err(
                        failure(
                            RejectCode::InvalidTile,
                            "winning_tile does not match the active claim window target tile"@,
                        ),
                    )
                } else {
                    match parsed_seat(win.source_seat) {
                        Err(error) => Err(error),
                        Ok(source_seat) => if source_seat != window.source_seat {
                            Err(
                                failure(
                                    RejectCode::InvalidRequest,
                                    "declare win source_seat does not match the active claim window"@,
                                ),
                            )
                        } else if win.source_event_seq != window.source_event_seq {
                            Err(
                                failure(
                                    RejectCode::InvalidRequest,
                                    "declare win source_event_seq does not match the active claim window"@,
                                ),
                            )
                        } else {
                            Ok(Some(source_seat))
                        },
                    }
                },
            },
        }
    }
}

pub(crate) fn asks_seat(seats: &Vec<Seat>, seat: Seat) -> (r: bool)
    ensures
        r == seats@.contains(seat),
{
    let mut i: usize = 0;
    while i < seats.len()
        invariant
            i <= seats.len(),
            forall|j: int| 0 <= j < i ==> seats@[j] != seat,
        decreases seats.len() - i,
    {
        if seats[i] == seat {
            assert(seats@[i as int] == seat);
            return true;
        }
        i = i + 1;
    }
    false
}

impl RoomState {
    pub fn validate_claim_window_submission(
        &self,
        seat: Seat,
        action_window_id: u64,
        source_event_seq: u64,
        wrong_event: &str,
    ) -> (r: Result<(), ActionValidationError>)
        ensures
            plain_result(r) == self@.window_submission(
                seat,
                action_window_id,
                source_event_seq,
                wrong_event@,
            ),
    {
        match self.round_runtime.as_ref() {
            None => Err(
                ActionValidationError::new(
                    RejectCode::PhaseMismatch,
                    "no active round runtime exists",
                ),
            ),
            Some(runtime) => match runtime.active_claim_window.as_ref() {
                None => Err(
                    ActionValidationError::new(
                        RejectCode::ActionWindowClosed,
                        "there is no active claim window",
                    ),
                ),
                Some(window) => {
                    if action_window_id != window.action_window_id {
                        return Err(
                            ActionValidationError::new(
                                RejectCode::ActionWindowClosed,
                                "request references a stale claim window",
                            ),
                        );
                    }
                    if source_event_seq != window.source_event_seq {
                        return Err(
                            ActionValidationError::new(RejectCode::InvalidRequest, wrong_event),
                        );
                    }
                    if !asks_seat(&window.eligible_seats, seat) {
                        return Err(
                            ActionValidationError::new(
                                RejectCode::ActionNotAvailable,
                                "seat is not eligible in the current claim window",
                            ),
                        );
                    }
                    Ok(())
                },
            },
        }
    }

    pub fn validate_claim_choice(&self, seat: Seat, claim: &ClaimAction) -> (r: Result<
        (),
        ActionValidationError,
    >)
        ensures
            plain_result(r) == self@.claim_choice(seat, claim@),
    {
        let window = match self.round_runtime.as_ref() {
            None => {
                return Err(
                    ActionValidationError::new(
                        RejectCode::PhaseMismatch,
                        "no active round runtime exists",
                    ),
                );
            },
            Some(runtime) => match runtime.active_claim_window.as_ref() {
                None => {
                    return Err(
                        ActionValidationError::new(
                            RejectCode::ActionWindowClosed,
                            "there is no active claim window",
                        ),
                    );
                },
                Some(window) => window,
            },
        };
        match parse_client_tile(claim.target_tile) {
            Err(error) => {
                return Err(error);
            },
            Ok(target_tile) => {
                if target_tile != window.target_tile {
                    return Err(
                        ActionValidationError::new(
                            RejectCode::InvalidTile,
                            "claim target_tile does not match the active claim window",
                        ),
                    );
                }
            },
        }
        match parse_client_seat(claim.source_seat) {
            Err(error) => {
                return Err(error);
            },
            Ok(source_seat) => {
                if source_seat != window.source_seat {
                    return Err(
                        ActionValidationError::new(
                            RejectCode::InvalidRequest,
                            "claim source_seat does not match the active claim window",
                        ),
                    );
                }
            },
        }
        let kind = match parse_client_claim_kind(claim.claim_kind) {
            Err(error) => {
                return Err(error);
            },
            Ok(kind) => kind,
        };
        let mut consume = match parse_client_tiles(&claim.consume_tiles) {
            Err(error) => {
                return Err(error);
            },
            Ok(consume) => consume,
        };
        let ghost named = consume@;
        sort_tiles(&mut consume);
        match window.options_by_seat.get(seat) {
            None => Err(
                ActionValidationError::new(
                    RejectCode::ActionNotAvailable,
                    "seat does not have any claim options in the current window",
                ),
            ),
            Some(options) => {
                if offers(&options.items, kind, &consume, Ghost(named)) {
                    return Ok(());
                }
                Err(
                    ActionValidationError::new(
                        RejectCode::ActionNotAvailable,
                        "submitted claim does not match any server-provided option",
                    ),
                )
            },
        }
    }

    pub fn validate_supplemental_kong_choice(&self, seat: Seat, tile: Tile) -> (r: Result<
        (),
        ActionValidationError,
    >)
        ensures
            plain_result(r) == self@.kong_choice(seat, tile),
    {
        match self.player_round_state.get(seat) {
            None => Err(seat_missing(seat)),
            Some(hand) => {
                if find_peng(&hand.melds, tile).is_none() {
                    return Err(no_peng());
                }
                if hand.drawn_tile == Some(tile) || holds_tile(&hand.concealed_tiles, tile) {
                    return Ok(());
                }
                Err(
                    ActionValidationError::new(
                        RejectCode::InvalidTile,
                        "supplemental kong tile is not present in the player's private hand",
                    ),
                )
            },
        }
    }

    fn check_self_draw(&self, seat: Seat, winning_tile: Tile) -> (r: Result<
        Option<Seat>,
        ActionValidationError,
    >)
        ensures
            plain_result(r) == self@.self_draw_context(seat, winning_tile),
    {
        if self.phase != GamePhase::WaitingDiscard {
            return Err(
                ActionValidationError::new(
                    RejectCode::PhaseMismatch,
                    "self draw win is only available during WaitingDiscard",
                ),
            );
        }
        if seat != self.current_turn_seat {
            return Err(
                ActionValidationError::new(
                    RejectCode::NotYourTurn,
                    "only the current turn seat may declare self draw win",
                ),
            );
        }
        let drawn: Option<Tile> = match self.player_round_state.get(seat) {
            Some(hand) => hand.drawn_tile,
            None => None,
        };
        match drawn {
            None => Err(
                ActionValidationError::new(
                    RejectCode::ActionNotAvailable,
                    "self draw win requires a pending drawn tile",
                ),
            ),
            Some(tile) => {
                if tile != winning_tile {
                    return Err(
                        ActionValidationError::new(
                            RejectCode::InvalidTile,
                            "winning_tile does not match the current pending drawn tile",
                        ),
                    );
                }
                Ok(None)
            },
        }
    }

    fn check_claimed_win(
        &self,
        seat: Seat,
        action_window_id: u64,
        declare_win: &DeclareWinAction,
        winning_tile: Tile,
    ) -> (r: Result<Option<Seat>, ActionValidationError>)
        ensures
            plain_result(r) == self@.claimed_win_context(
                seat,
                action_window_id,
                *declare_win,
                winning_tile,
            ),
    {
        match self.round_runtime.as_ref() {
            None => Err(
                ActionValidationError::new(
                    RejectCode::PhaseMismatch,
                    "discard-based win requires an active round runtime",
                ),
            ),
            Some(runtime) => match runtime.active_claim_window.as_ref() {
                None => Err(
                    ActionValidationError::new(
                        RejectCode::ActionWindowClosed,
                        "discard-based win requires an active claim window",
                    ),
                ),
                Some(window) => {
                    if action_window_id != window.action_window_id {
                        return Err(
                            ActionValidationError::new(
                                RejectCode::ActionWindowClosed,
                                "request references a stale claim window",
                            ),
                        );
                    }
                    if !asks_seat(&window.eligible_seats, seat) {
                        return Err(
                            ActionValidationError::new(
                                RejectCode::ActionNotAvailable,
                                "seat is not eligible to declare win in the current claim window",
                            ),
                        );
                    }
                    if window.target_tile != winning_tile {
                        return Err(
                            ActionValidationError::new(
                                RejectCode::InvalidTile,
                                "winning_tile does not match the active claim window target tile",
                            ),
                        );
                    }
                    match parse_client_seat(declare_win.source_seat) {
                        Err(error) => Err(error),
                        Ok(source_seat) => {
                            if source_seat != window.source_seat {
                                return Err(
                                    ActionValidationError::new(
                                        RejectCode::InvalidRequest,
                                        "declare win source_seat does not match the active claim window",
                                    ),
                                );
                            }
                            if declare_win.source_event_seq != window.source_event_seq {
                                return Err(
                                    ActionValidationError::new(
                                        RejectCode::InvalidRequest,
                                        "declare win source_event_seq does not match the active claim window",
                                    ),
                                );
                            }
                            Ok(Some(source_seat))
                        },
                    }
                },
            },
        }
    }

    /// Who is to pay for a declared win, or why the declaration does not fit the table.
    pub fn resolve_declare_win_context(
        &self,
        seat: Seat,
        action_window_id: u64,
        declare_win: &DeclareWinAction,
        win_type: WinType,
        winning_tile: Tile,
    ) -> (r: Result<Option<Seat>, ActionValidationError>)
        ensures
            plain_result(r) == self@.win_context(
                seat,
                action_window_id,
                *declare_win,
                win_type,
                winning_tile,
            ),
    {
        match win_type {
            WinType::Unspecified => Err(
                ActionValidationError::new(
                    RejectCode::InvalidRequest,
                    "declare win requires a concrete win_type",
                ),
            ),
            WinType::SelfDraw => self.check_self_draw(seat, winning_tile),
            WinType::KongDraw => self.check_self_draw(seat, winning_tile),
            WinType::Discard => self.check_claimed_win(
                seat,
                action_window_id,
                declare_win,
                winning_tile,
            ),
            WinType::RobKong => self.check_claimed_win(
                seat,
                action_window_id,
                declare_win,
                winning_tile,
            ),
        }
    }
}

// ---------------------------------------------------------------------------
// Effects
// ---------------------------------------------------------------------------

/// A triplet with its fourth tile.
pub open spec fn kong_meld(meld: MeldModel, tile: Tile, source_event_seq: u64) -> MeldModel {
    MeldModel {
        kind: MeldKind::SupplementalKong.code(),
        tiles: sorted_codes(meld.tiles.push(tile.code())),
        source_event_seq,
        ..meld
    }
}

/// The meld that a claim lays down.
pub open spec fn claimed_meld(
    kind: ClaimKind,
    consume: Seq<Tile>,
    target: Tile,
    source_seat: Seat,
    source_event_seq: u64,
) -> MeldModel {
    MeldModel {
        kind: claim_meld(kind).code(),
        tiles: tile_codes(sorted_tiles(consume.push(target))),
        from_seat: source_seat.code(),
        claimed_tile: target.code(),
        concealed: false,
        source_event_seq,
    }
}

impl RoomStateModel {
    /// The room after a replacement draw was recorded and announced.
    #[verifier::opaque]
    pub open spec fn replacement_recorded(self, seat: Seat, tile: Tile) -> RoomStateModel {
        let event_seq = self.next_event_seq;
        self.numbered().with_last_action(
            ResolvedActionRecord {
                event_seq,
                actor_seat: seat,
                action_kind: ActionKind::Draw,
                tile: Some(tile),
                replacement_draw: true,
                rob_kong_candidate: false,
            },
        ).draw_announced(seat, event_seq, tile, true)
    }

    /// The room in which a triplet has been extended by its fourth tile and announced.
    #[verifier::opaque]
    pub open spec fn kong_laid(
        self,
        seat: Seat,
        tile: Tile,
        source_event_seq: u64,
        hand: PlayerRoundStateModel,
        place: int,
    ) -> RoomStateModel {
        let meld = kong_meld(hand.melds[place], tile, source_event_seq);
        RoomStateModel {
            current_turn_seat: seat,
            phase: GamePhase::ResolvingKong,
            ..self.with_hand(
                seat,
                PlayerRoundStateModel { melds: hand.melds.update(place, meld), ..hand },
            )
        }.with_last_action(
            ResolvedActionRecord {
                event_seq: source_event_seq,
                actor_seat: seat,
                action_kind: ActionKind::SupplementalKong,
                tile: Some(tile),
                replacement_draw: false,
                rob_kong_candidate: false,
            },
        ).kong_announced(seat, source_event_seq, tile, meld)
    }

    /// Adds the fourth tile to a triplet and draws a replacement, or says why that cannot be done.
    #[verifier::opaque]
    pub open spec fn kong_applied(self, seat: Seat, tile: Tile, source_event_seq: u64) -> (
        RoomStateModel,
        Result<(), ActionValidationErrorModel>,
    ) {
        match self.player_round_state.at(seat) {
            None => (self, Err(seat_missing_error(seat))),
            Some(hand) => match peng_place(hand.melds, tile) {
                None => (self, Err(no_peng_error())),
                Some(place) => match after_kong_tile(hand, tile) {
                    None => (self, Err(missing_kong_tile_error())),
                    Some(rest) => {
                        let laid = self.kong_laid(seat, tile, source_event_seq, rest, place);
                        let (drawn, outcome) = laid.drawn(seat, DrawSource::DeadWall);
                        match outcome {
                            Err(error) => (drawn, Err(error)),
                            Ok(None) => (
                                drawn,
                                Err(
                                    failure(
                                        RejectCode::InternalError,
                                        "dead wall was unexpectedly exhausted for supplemental kong replacement draw"@,
                                    ),
                                ),
                            ),
                            Ok(Some(outcome)) => (
                                drawn.in_phase(GamePhase::WaitingDiscard).replacement_recorded(
                                    seat,
                                    outcome.tile,
                                ),
                                Ok(()),
                            ),
                        }
                    },
                },
            },
        }
    }

    /// The room with one more meld at a seat.
    pub open spec fn with_meld(self, seat: Seat, meld: MeldModel) -> RoomStateModel {
        match self.player_round_state.at(seat) {
            Some(hand) => self.with_hand(
                seat,
                PlayerRoundStateModel { melds: hand.melds.push(meld), ..hand },
            ),
            None => self,
        }
    }

    /// The room in which a claim, whose tiles have left the hand, has laid down its meld and been
    /// announced.
    #[verifier::opaque]
    pub open spec fn claim_laid(
        self,
        seat: Seat,
        kind: ClaimKind,
        target: Tile,
        source_seat: Seat,
        consume: Seq<Tile>,
        source_event_seq: u64,
    ) -> RoomStateModel {
        let meld = claimed_meld(kind, consume, target, source_seat, source_event_seq);
        let event_seq = self.next_event_seq;
        RoomStateModel {
            current_turn_seat: seat,
            phase: GamePhase::WaitingDiscard,
            ..self.with_meld(seat, meld).with_discard_claimed(source_seat, source_event_seq)
        }.numbered().with_last_action(
            ResolvedActionRecord {
                event_seq,
                actor_seat: seat,
                action_kind: claim_action(kind),
                tile: Some(target),
                replacement_draw: false,
                rob_kong_candidate: false,
            },
        ).claim_announced(seat, event_seq, kind, target, source_seat, consume, meld)
    }

    /// The room in which tiles have left a hand for a meld.
    pub open spec fn with_tiles_taken(self, seat: Seat, consume: Seq<Tile>) -> RoomStateModel {
        match self.player_round_state.at(seat) {
            Some(hand) => self.with_hand(
                seat,
                PlayerRoundStateModel {
                    concealed_tiles: hand_after_taking(hand.concealed_tiles, consume),
                    ..hand
                },
            ),
            None => self,
        }
    }

    /// Carries out a claim that won its window: the tiles leave the hand, the meld is laid down, and
    /// a kong draws a replacement. Where the hand lacks a tile, those taken before it stay out.
    #[verifier::opaque]
    pub open spec fn claim_applied(self, seat: Seat, claim: ClaimActionModel) -> (
        RoomStateModel,
        Result<(), ActionValidationErrorModel>,
    ) {
        match parsed_claim_kind(claim.claim_kind) {
            Err(error) => (self, Err(error)),
            Ok(kind) => match parsed_tile(claim.target_tile) {
                Err(error) => (self, Err(error)),
                Ok(target) => match parsed_seat(claim.source_seat) {
                    Err(error) => (self, Err(error)),
                    Ok(source_seat) => match parsed_tiles(claim.consume_tiles) {
                        Err(error) => (self, Err(error)),
                        Ok(named) => {
                            let consume = sorted_tiles(named);
                            match self.player_round_state.at(seat) {
                                None => (self, Err(seat_missing_error(seat))),
                                Some(hand) => if hand.drawn_tile is Some {
                                    (
                                        self,
                                        Err(
                                            failure(
                                                RejectCode::ActionNotAvailable,
                                                "claiming a discard is not allowed while a pending drawn tile exists"@,
                                            ),
                                        ),
                                    )
                                } else if !after_taking(
                                    hand.concealed_tiles,
                                    consume,
                                    consume.len() as int,
                                ).1 {
                                    (
                                        self.with_tiles_taken(seat, consume),
                                        Err(missing_tiles_error()),
                                    )
                                } else {
                                    self.with_tiles_taken(seat, consume).claim_laid(
                                        seat,
                                        kind,
                                        target,
                                        source_seat,
                                        consume,
                                        claim.source_event_seq,
                                    ).claim_completed(seat, kind)
                                },
                            }
                        },
                    },
                },
            },
        }
    }

    /// Draws the replacement that a claimed kong is owed; other claims are owed none.
    pub open spec fn claim_completed(self, seat: Seat, kind: ClaimKind) -> (
        RoomStateModel,
        Result<(), ActionValidationErrorModel>,
    ) {
        if kind != ClaimKind::ExposedKong {
            (self, Ok(()))
        } else {
            let (drawn, outcome) = self.drawn(seat, DrawSource::DeadWall);
            match outcome {
                Err(error) => (drawn, Err(error)),
                Ok(None) => (
                    drawn,
                    Err(
                        failure(
                            RejectCode::InternalError,
                            "dead wall was unexpectedly exhausted for exposed kong replacement draw"@,
                        ),
                    ),
                ),
                Ok(Some(outcome)) => (drawn.replacement_recorded(seat, outcome.tile), Ok(())),
            }
        }
    }

    /// The room after everybody let a tile pass: the seat after its source draws, and where the wall
    /// is exhausted the hand ends with nobody winning.
    #[verifier::opaque]
    pub open spec fn turn_passed_on(self, source_seat: Seat) -> RoomStateModel {
        let next = seat_after(source_seat);
        let turned = RoomStateModel { current_turn_seat: next, ..self }.without_window();
        let (drawn, outcome) = turned.drawn(next, DrawSource::LiveWall);
        match outcome {
            Err(_) => drawn,
            Ok(None) => drawn.drawn_game_settled(),
            Ok(Some(outcome)) => {
                let event_seq = drawn.next_event_seq;
                drawn.in_phase(GamePhase::WaitingDiscard).numbered().with_last_action(
                    draw_record(event_seq, next, outcome),
                ).draw_stored(next, event_seq, outcome.tile, outcome.replacement_draw)
            },
        }
    }
}

impl RoomState {
    fn record_replacement(&mut self, seat: Seat, tile: Tile)
        requires
            old(self)@.can_number(1),
        ensures
            final(self)@ == old(self)@.replacement_recorded(seat, tile),
    {
        reveal(RoomStateModel::replacement_recorded);
        let event_seq: u64 = self.allocate_event_seq();
        self.record_last_action(
            ResolvedActionRecord {
                event_seq,
                actor_seat: seat,
                action_kind: ActionKind::Draw,
                tile: Some(tile),
                replacement_draw: true,
                rob_kong_candidate: false,
            },
        );
        self.broadcast_draw_action(seat, event_seq, tile, true);
    }

    fn lay_kong(&mut self, seat: Seat, tile: Tile, source_event_seq: u64, place: usize)
        requires
            old(self)@.player_round_state.at(seat) matches Some(hand) && place < hand.melds.len(),
        ensures
            final(self)@ == old(self)@.kong_laid(
                seat,
                tile,
                source_event_seq,
                old(self)@.player_round_state.at(seat)->0,
                place as int,
            ),
    {
        reveal(RoomStateModel::kong_laid);
        if let Some(round_state) = self.player_round_state.get_mut(seat) {
            let ghost before = round_state.melds@;
            let mut meld = round_state.melds[place].clone();
            meld.kind = MeldKind::SupplementalKong.as_i32();
            meld.tiles.push(tile.as_i32());
            sort_codes(&mut meld.tiles);
            meld.source_event_seq = source_event_seq;
            let resulting_meld = meld.clone();
            round_state.melds.set(place, meld);
            assert(views(round_state.melds@) =~= views(before).update(place as int, resulting_meld@));
            self.current_turn_seat = seat;
            self.phase = GamePhase::ResolvingKong;
            self.record_last_action(
                ResolvedActionRecord {
                    event_seq: source_event_seq,
                    actor_seat: seat,
                    action_kind: ActionKind::SupplementalKong,
                    tile: Some(tile),
                    replacement_draw: false,
                    rob_kong_candidate: false,
                },
            );
            self.broadcast_supplemental_kong_action(seat, source_event_seq, tile, resulting_meld);
        }
    }

    /// Takes the fourth tile of a triplet out of the hand; gives the place of the triplet.
    fn take_kong_tile(&mut self, seat: Seat, tile: Tile) -> (r: Result<usize, ActionValidationError>)
        ensures
            match old(self)@.player_round_state.at(seat) {
                None => r matches Err(error) && error@ == seat_missing_error(seat) && final(self)@
                    == old(self)@,
                Some(hand) => match peng_place(hand.melds, tile) {
                    None => r matches Err(error) && error@ == no_peng_error() && final(self)@
                        == old(self)@,
                    Some(place) => match after_kong_tile(hand, tile) {
                        None => r matches Err(error) && error@ == missing_kong_tile_error()
                            && final(self)@ == old(self)@,
                        Some(rest) => r matches Ok(found) && found == place && place
                            < hand.melds.len() && final(self)@ == old(self)@.with_hand(seat, rest),
                    },
                },
            },
    {
        match self.player_round_state.get_mut(seat) {
            None => Err(seat_missing(seat)),
            Some(round_state) => match find_peng(&round_state.melds, tile) {
                None => Err(no_peng()),
                Some(place) => match consume_tile_for_supplemental_kong(round_state, tile) {
                    Err(error) => Err(error),
                    Ok(_) => Ok(place),
                },
            },
        }
    }

    /// Adds the fourth tile to a triplet and draws a replacement.
    pub fn apply_supplemental_kong(&mut self, seat: Seat, tile: Tile, source_event_seq: u64) -> (r:
        Result<(), ActionValidationError>)
        requires
            old(self)@.draws_fit(seat),
            old(self)@.can_number(1),
        ensures
            (final(self)@, plain_result(r)) == old(self)@.kong_applied(seat, tile, source_event_seq),
    {
        reveal(RoomStateModel::kong_applied);
        let place: usize = match self.take_kong_tile(seat, tile) {
            Err(error) => {
                return Err(error);
            },
            Ok(place) => place,
        };
        proof {
            lemma_kong_laid_keeps(
                old(self)@,
                seat,
                tile,
                source_event_seq,
                self@.player_round_state.at(seat)->0,
                place as int,
            );
        }
        self.lay_kong(seat, tile, source_event_seq, place);
        let ghost laid = self@;
        proof {
            lemma_drawn_keeps(laid, seat, DrawSource::DeadWall);
        }
        match self.draw_turn_tile(seat, DrawSource::DeadWall) {
            Err(error) => Err(error),
            Ok(None) => Err(
                ActionValidationError::new(
                    RejectCode::InternalError,
                    "dead wall was unexpectedly exhausted for supplemental kong replacement draw",
                ),
            ),
            Ok(Some(outcome)) => {
                self.phase = GamePhase::WaitingDiscard;
                self.record_replacement(seat, outcome.tile);
                Ok(())
            },
        }
    }
}

/// Laying a kong uses no event number and lets the seat draw as before. What the hand was before
/// does not matter.
proof fn lemma_kong_laid_keeps(
    room: RoomStateModel,
    seat: Seat,
    tile: Tile,
    source_event_seq: u64,
    hand: PlayerRoundStateModel,
    place: int,
)
    requires
        room.can_draw(seat),
        hand.replacement_draw_count == room.player_round_state.at(seat)->0.replacement_draw_count,
    ensures
        room.with_hand(seat, hand).kong_laid(seat, tile, source_event_seq, hand, place)
            == room.kong_laid(seat, tile, source_event_seq, hand, place),
        room.kong_laid(seat, tile, source_event_seq, hand, place).can_draw(seat),
        room.kong_laid(seat, tile, source_event_seq, hand, place).next_event_seq
            == room.next_event_seq,
{
    reveal(RoomStateModel::kong_laid);
}

/// Laying a claimed meld uses one event number and lets the seat draw as before.
proof fn lemma_claim_laid_keeps(
    room: RoomStateModel,
    seat: Seat,
    kind: ClaimKind,
    target: Tile,
    source_seat: Seat,
    consume: Seq<Tile>,
    source_event_seq: u64,
)
    requires
        room.can_draw(seat),
    ensures
        ({
            let laid = room.claim_laid(
                seat,
                kind,
                target,
                source_seat,
                consume,
                source_event_seq,
            );
            laid.can_draw(seat) && laid.next_event_seq == (room.next_event_seq + 1) as u64
        }),
{
    reveal(RoomStateModel::claim_laid);
}

impl RoomState {
    /// Takes the tiles of a claim out of the hand that claims.
    fn take_claimed(&mut self, seat: Seat, consume_tiles: &Vec<Tile>) -> (r: Result<
        (),
        ActionValidationError,
    >)
        ensures
            match old(self)@.player_round_state.at(seat) {
                None => r matches Err(error) && error@ == seat_missing_error(seat) && final(self)@
                    == old(self)@,
                Some(hand) => if hand.drawn_tile is Some {
                    r matches Err(error) && error@ == failure(
                        RejectCode::ActionNotAvailable,
                        "claiming a discard is not allowed while a pending drawn tile exists"@,
                    ) && final(self)@ == old(self)@
                } else {
                    &&& final(self)@ == old(self)@.with_tiles_taken(seat, consume_tiles@)
                    &&& match r {
                        Ok(_) => after_taking(
                            hand.concealed_tiles,
                            consume_tiles@,
                            consume_tiles@.len() as int,
                        ).1,
                        Err(error) => error@ == missing_tiles_error() && !after_taking(
                            hand.concealed_tiles,
                            consume_tiles@,
                            consume_tiles@.len() as int,
                        ).1,
                    }
                },
            },
    {
        match self.player_round_state.get_mut(seat) {
            None => Err(seat_missing(seat)),
            Some(round_state) => {
                if round_state.drawn_tile.is_some() {
                    return Err(
                        ActionValidationError::new(
                            RejectCode::ActionNotAvailable,
                            "claiming a discard is not allowed while a pending drawn tile exists",
                        ),
                    );
                }
                remove_tiles_from_concealed(&mut round_state.concealed_tiles, consume_tiles)
            },
        }
    }

    fn add_meld(&mut self, seat: Seat, meld: Meld)
        ensures
            final(self)@ == old(self)@.with_meld(seat, meld@),
    {
        broadcast use lemma_views_push;

        if let Some(round_state) = self.player_round_state.get_mut(seat) {
            round_state.melds.push(meld);
        }
    }

    /// Lays down the meld of a claim whose tiles have left the hand.
    fn lay_claim(
        &mut self,
        seat: Seat,
        claim_kind: ClaimKind,
        target_tile: Tile,
        source_seat: Seat,
        consume_tiles: &Vec<Tile>,
        source_event_seq: u64,
    )
        requires
            old(self)@.can_number(1),
        ensures
            final(self)@ == old(self)@.claim_laid(
                seat,
                claim_kind,
                target_tile,
                source_seat,
                consume_tiles@,
                source_event_seq,
            ),
    {
        reveal(RoomStateModel::claim_laid);
        let mut meld_tiles = copy_tiles(consume_tiles);
        meld_tiles.push(target_tile);
        sort_tiles(&mut meld_tiles);
        let resulting_meld = Meld {
            kind: map_claim_kind_to_meld_kind(claim_kind).as_i32(),
            tiles: codes_of(&meld_tiles),
            from_seat: source_seat.as_i32(),
            claimed_tile: target_tile.as_i32(),
            concealed: false,
            source_event_seq,
        };
        self.add_meld(seat, resulting_meld.clone());
        self.mark_discard_claimed(source_seat, source_event_seq);
        self.current_turn_seat = seat;
        self.phase = GamePhase::WaitingDiscard;
        let event_seq: u64 = self.allocate_event_seq();
        self.record_last_action(
            ResolvedActionRecord {
                event_seq,
                actor_seat: seat,
                action_kind: map_claim_kind_to_client_action(claim_kind),
                tile: Some(target_tile),
                replacement_draw: false,
                rob_kong_candidate: false,
            },
        );
        self.broadcast_claim_action(
            seat,
            event_seq,
            claim_kind,
            target_tile,
            source_seat,
            consume_tiles,
            resulting_meld,
        );
    }

    fn complete_claim(&mut self, seat: Seat, claim_kind: ClaimKind) -> (r: Result<
        (),
        ActionValidationError,
    >)
        requires
            old(self)@.can_draw(seat),
            old(self)@.can_number(1),
        ensures
            (final(self)@, plain_result(r)) == old(self)@.claim_completed(seat, claim_kind),
    {
        if claim_kind != ClaimKind::ExposedKong {
            return Ok(());
        }
        proof {
            lemma_drawn_keeps(self@, seat, DrawSource::DeadWall);
        }
        match self.draw_turn_tile(seat, DrawSource::DeadWall) {
            Err(error) => Err(error),
            Ok(None) => Err(
                ActionValidationError::new(
                    RejectCode::InternalError,
                    "dead wall was unexpectedly exhausted for exposed kong replacement draw",
                ),
            ),
            Ok(Some(outcome)) => {
                self.record_replacement(seat, outcome.tile);
                Ok(())
            },
        }
    }

    /// Carries out a claim that won its window.
    pub fn apply_resolved_claim_action(&mut self, seat: Seat, claim: &ClaimAction) -> (r: Result<
        (),
        ActionValidationError,
    >)
        requires
            old(self)@.draws_fit(seat),
            old(self)@.can_number(2),
        ensures
            (final(self)@, plain_result(r)) == old(self)@.claim_applied(seat, claim@),
    {
        reveal(RoomStateModel::claim_applied);
        let claim_kind = match parse_client_claim_kind(claim.claim_kind) {
            Err(error) => {
                return Err(error);
            },
            Ok(claim_kind) => claim_kind,
        };
        let target_tile = match parse_client_tile(claim.target_tile) {
            Err(error) => {
                return Err(error);
            },
            Ok(target_tile) => target_tile,
        };
        let source_seat = match parse_client_seat(claim.source_seat) {
            Err(error) => {
                return Err(error);
            },
            Ok(source_seat) => source_seat,
        };
        let mut consume_tiles = match parse_client_tiles(&claim.consume_tiles) {
            Err(error) => {
                return Err(error);
            },
            Ok(consume_tiles) => consume_tiles,
        };
        sort_tiles(&mut consume_tiles);
        match self.take_claimed(seat, &consume_tiles) {
            Err(error) => {
                return Err(error);
            },
            Ok(_) => {},
        }
        proof {
            lemma_claim_laid_keeps(
                self@,
                seat,
                claim_kind,
                target_tile,
                source_seat,
                consume_tiles@,
                claim.source_event_seq,
            );
        }
        self.lay_claim(
            seat,
            claim_kind,
            target_tile,
            source_seat,
            &consume_tiles,
            claim.source_event_seq,
        );
        self.complete_claim(seat, claim_kind)
    }

    /// Moves the turn on after everybody let a tile pass.
    pub fn advance_turn_after_passes(&mut self, source_seat: Seat)
        requires
            old(self)@.can_draw(seat_after(source_seat)),
            old(self)@.can_number(1),
        ensures
            final(self)@ == old(self)@.turn_passed_on(source_seat),
    {
        reveal(RoomStateModel::turn_passed_on);
        let next_turn_seat = next_seat(source_seat);
        self.current_turn_seat = next_turn_seat;
        self.close_claim_window();
        proof {
            lemma_drawn_keeps(self@, next_turn_seat, DrawSource::LiveWall);
        }
        match self.draw_turn_tile(next_turn_seat, DrawSource::LiveWall) {
            Err(_) => {},
            Ok(None) => {
                self.settle_draw_game();
            },
            Ok(Some(outcome)) => {
                self.phase = GamePhase::WaitingDiscard;
                let event_seq: u64 = self.allocate_event_seq();
                self.record_last_action(
                    ResolvedActionRecord {
                        event_seq,
                        actor_seat: next_turn_seat,
                        action_kind: ActionKind::Draw,
                        tile: Some(outcome.tile),
                        replacement_draw: outcome.replacement_draw,
                        rob_kong_candidate: false,
                    },
                );
                self.persist_draw(next_turn_seat, event_seq, outcome.tile, outcome.replacement_draw);
            },
        }
    }
}

/// Recording a replacement draw uses one event number.
pub proof fn lemma_replacement_recorded_numbers(room: RoomStateModel, seat: Seat, tile: Tile)
    ensures
        room.replacement_recorded(seat, tile).next_event_seq == (room.next_event_seq + 1) as u64,
{
    reveal(RoomStateModel::replacement_recorded);
}

/// A supplemental kong uses at most one event number.
pub proof fn lemma_kong_applied_numbers(room: RoomStateModel, seat: Seat, tile: Tile, source_event_seq: u64)
    requires
        room.draws_fit(seat),
        room.can_number(1),
    ensures
        room.next_event_seq <= room.kong_applied(seat, tile, source_event_seq).0.next_event_seq
            <= room.next_event_seq + 1,
{
    reveal(RoomStateModel::kong_applied);
    if let Some(hand) = room.player_round_state.at(seat) {
        if let Some(place) = peng_place(hand.melds, tile) {
            if let Some(rest) = after_kong_tile(hand, tile) {
                lemma_kong_laid_keeps(room, seat, tile, source_event_seq, rest, place);
                let laid = room.kong_laid(seat, tile, source_event_seq, rest, place);
                lemma_drawn_keeps(laid, seat, DrawSource::DeadWall);
                let (drawn, outcome) = laid.drawn(seat, DrawSource::DeadWall);
                if let Ok(Some(outcome)) = outcome {
                    lemma_replacement_recorded_numbers(
                        drawn.in_phase(GamePhase::WaitingDiscard),
                        seat,
                        outcome.tile,
                    );
                }
            }
        }
    }
}

/// A claim that takes effect uses at most two event numbers.
pub proof fn lemma_claim_applied_numbers(room: RoomStateModel, seat: Seat, claim: ClaimActionModel)
    requires
        room.draws_fit(seat),
        room.can_number(2),
    ensures
        room.next_event_seq <= room.claim_applied(seat, claim).0.next_event_seq
            <= room.next_event_seq + 2,
{
    reveal(RoomStateModel::claim_applied);
    if let (Ok(kind), Ok(target), Ok(source_seat), Ok(named)) = (
        parsed_claim_kind(claim.claim_kind),
        parsed_tile(claim.target_tile),
        parsed_seat(claim.source_seat),
        parsed_tiles(claim.consume_tiles),
    ) {
        let consume = sorted_tiles(named);
        if room.player_round_state.at(seat) is Some {
            let taken = room.with_tiles_taken(seat, consume);
            lemma_claim_laid_keeps(
                taken,
                seat,
                kind,
                target,
                source_seat,
                consume,
                claim.source_event_seq,
            );
            let laid = taken.claim_laid(
                seat,
                kind,
                target,
                source_seat,
                consume,
                claim.source_event_seq,
            );
            lemma_drawn_keeps(laid, seat, DrawSource::DeadWall);
            let (drawn, outcome) = laid.drawn(seat, DrawSource::DeadWall);
            if let Ok(Some(outcome)) = outcome {
                lemma_replacement_recorded_numbers(drawn, seat, outcome.tile);
            }
        }
    }
}

/// Passing the turn on uses at most one event number.
pub proof fn lemma_turn_passed_on_numbers(room: RoomStateModel, source_seat: Seat)
    requires
        room.can_draw(seat_after(source_seat)),
        room.can_number(1),
    ensures
        room.next_event_seq <= room.turn_passed_on(source_seat).next_event_seq
            <= room.next_event_seq + 1,
{
    reveal(RoomStateModel::turn_passed_on);
    let next = seat_after(source_seat);
    let turned = RoomStateModel { current_turn_seat: next, ..room }.without_window();
    lemma_drawn_keeps(turned, next, DrawSource::LiveWall);
}

} // verus!
