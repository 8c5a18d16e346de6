//! Walls, dealing, drawing and discarding.


use vstd::prelude::*;

use crate::collections::group_seat_map;
use crate::proto::client::{DiscardTile, RejectCode, Seat, Tile};
use crate::room::convert::{failure, ActionValidationError, ActionValidationErrorModel};
use crate::room::hand::{
    hand_after_discard, is_flower, is_flower_tile, seat_order, take_discard, PlayerRoundStateModel,
};
use crate::room::state::{
    DrawSource, RoomState, RoomStateModel, RoundRuntimeStateModel, STARTING_HAND_LEN,
};
use crate::tiles::{sort_tiles, sorted_tiles};

verus! {

broadcast use group_seat_map;

/// A tile that was drawn, and whether it came out of the dead wall.
#[derive(Clone, Copy, Debug, PartialEq, Eq, Structural)]
pub struct DrawOutcome {
    pub tile: Tile,
    pub replacement_draw: bool,
}

/// How many tiles both walls hold together.
pub open spec fn walls_len(runtime: Option<RoundRuntimeStateModel>) -> nat {
    match runtime {
        Some(runtime) => runtime.live_wall.len() + runtime.dead_wall.len(),
        None => 0,
    }
}

impl RoomStateModel {
    /// Whether a seat takes part in the hand, and its tally of replacement draws has room for every
    /// tile that is still in the walls.
    pub open spec fn can_draw(self, seat: Seat) -> bool {
        match self.player_round_state.at(seat) {
            Some(hand) => hand.replacement_draw_count + walls_len(self.round_runtime) <= u32::MAX,
            None => false,
        }
    }

    /// Whether the tally of a seat's replacement draws has room for every tile that is still in the
    /// walls, if the seat takes part in the hand.
    pub open spec fn draws_fit(self, seat: Seat) -> bool {
        self.player_round_state.at(seat) is Some ==> self.can_draw(seat)
    }

    /// The next tile of a wall, and the room without it.
    pub open spec fn popped(self, source: DrawSource) -> (RoomStateModel, Option<Tile>) {
        match self.round_runtime {
            None => (self, None),
            Some(runtime) => {
                let wall = if source is LiveWall {
                    runtime.live_wall
                } else {
                    runtime.dead_wall
                };
                let left = if wall.len() == 0 {
                    wall
                } else {
                    wall.drop_first()
                };
                let after = RoomStateModel {
                    round_runtime: Some(
                        if source is LiveWall {
                            RoundRuntimeStateModel { live_wall: left, ..runtime }
                        } else {
                            RoundRuntimeStateModel { dead_wall: left, ..runtime }
                        },
                    ),
                    ..self
                };
                (
                    after.with_wall_counters(),
                    if wall.len() == 0 {
                        None
                    } else {
                        Some(wall[0])
                    },
                )
            },
        }
    }

    /// The room with another hand at a seat.
    pub open spec fn with_hand(self, seat: Seat, hand: PlayerRoundStateModel) -> RoomStateModel {
        RoomStateModel { player_round_state: self.player_round_state.with(seat, Some(hand)), ..self }
    }

    /// Whether a tile is laid aside and replaced instead of being kept.
    pub open spec fn lays_aside(self, tile: Tile) -> bool {
        self.room_config.enable_flower_tiles && is_flower(tile)
    }

    /// The room with a flower laid aside by a seat.
    pub open spec fn with_flower(self, seat: Seat, tile: Tile) -> RoomStateModel {
        match self.player_round_state.at(seat) {
            Some(hand) => self.with_hand(
                seat,
                PlayerRoundStateModel {
                    flowers: sorted_tiles(hand.flowers.push(tile)),
                    replacement_draw_count: (hand.replacement_draw_count + 1) as u32,
                    ..hand
                },
            ),
            None => self,
        }
    }

    /// The room with a tile added to the concealed tiles of a seat.
    pub open spec fn with_concealed(self, seat: Seat, tile: Tile) -> RoomStateModel {
        match self.player_round_state.at(seat) {
            Some(hand) => self.with_hand(
                seat,
                PlayerRoundStateModel {
                    concealed_tiles: sorted_tiles(hand.concealed_tiles.push(tile)),
                    ..hand
                },
            ),
            None => self,
        }
    }

    /// The room with the drawn tile of a seat.
    pub open spec fn with_drawn(self, seat: Seat, tile: Tile) -> RoomStateModel {
        match self.player_round_state.at(seat) {
            Some(hand) => self.with_hand(
                seat,
                PlayerRoundStateModel { drawn_tile: Some(tile), ..hand },
            ),
            None => self,
        }
    }

    /// The room with the mark that a replacement is due, while a hand is running.
    pub open spec fn with_replacement_pending(self, pending: bool) -> RoomStateModel {
        match self.round_runtime {
            Some(runtime) => RoomStateModel {
                round_runtime: Some(
                    RoundRuntimeStateModel { replacement_draw_pending: pending, ..runtime },
                ),
                ..self
            },
            None => self,
        }
    }

    /// How many tiles the dead wall holds.
    pub open spec fn dead_len(self) -> nat {
        match self.round_runtime {
            Some(runtime) => runtime.dead_wall.len(),
            None => 0,
        }
    }

    /// Deals a seat a replacement out of the dead wall; flowers among the replacements are laid
    /// aside too.
    pub open spec fn dealt_replacement(self, seat: Seat) -> (
        RoomStateModel,
        Result<(), ActionValidationErrorModel>,
    )
        decreases self.dead_len(),
    {
        let (after, tile) = self.popped(DrawSource::DeadWall);
        match tile {
            None => (
                after,
                Err(
                    failure(
                        RejectCode::InternalError,
                        "dead wall exhausted while replacing flowers during dealing"@,
                    ),
                ),
            ),
            Some(tile) => if after.lays_aside(tile) {
                after.with_flower(seat, tile).dealt_replacement(seat)
            } else {
                (after.with_concealed(seat, tile), Ok(()))
            },
        }
    }

    /// Deals a seat one tile; a flower is laid aside and replaced, so that the hand always grows by
    /// one.
    pub open spec fn dealt(self, seat: Seat) -> (
        RoomStateModel,
        Result<(), ActionValidationErrorModel>,
    ) {
        let (after, tile) = self.popped(DrawSource::LiveWall);
        match tile {
            None => (
                after,
                Err(
                    failure(
                        RejectCode::InternalError,
                        "live wall exhausted during initial dealing"@,
                    ),
                ),
            ),
            Some(tile) => if after.lays_aside(tile) {
                after.with_flower(seat, tile).dealt_replacement(seat)
            } else {
                (after.with_concealed(seat, tile), Ok(()))
            },
        }
    }

    /// Deals a seat so many tiles, stopping where a wall runs out.
    pub open spec fn dealt_many(self, seat: Seat, count: nat) -> (
        RoomStateModel,
        Result<(), ActionValidationErrorModel>,
    )
        decreases count,
    {
        if count == 0 {
            (self, Ok(()))
        } else {
            let (before, result) = self.dealt_many(seat, (count - 1) as nat);
            match result {
                Ok(_) => before.dealt(seat),
                Err(error) => (before, Err(error)),
            }
        }
    }

    /// Deals the first so many seats in the order of play their hands.
    pub open spec fn dealt_seats(self, seats: nat) -> (
        RoomStateModel,
        Result<(), ActionValidationErrorModel>,
    )
        decreases seats,
    {
        if seats == 0 {
            (self, Ok(()))
        } else {
            let (before, result) = self.dealt_seats((seats - 1) as nat);
            match result {
                Ok(_) => before.dealt_many(seat_order()[seats - 1], STARTING_HAND_LEN as nat),
                Err(error) => (before, Err(error)),
            }
        }
    }

    /// Draws for a seat from a wall; a flower is laid aside and replaced out of the dead wall.
    pub open spec fn drawn_from(self, seat: Seat, source: DrawSource, replacement_draw: bool) -> (
        RoomStateModel,
        Result<Option<DrawOutcome>, ActionValidationErrorModel>,
    )
        decreases (if source is LiveWall {
            1nat
        } else {
            0nat
        }), self.dead_len(),
    {
        let (after, tile) = self.popped(source);
        match tile {
            None => (
                after,
                if source is LiveWall {
                    Ok(None)
                } else {
                    Err(
                        failure(
                            RejectCode::InternalError,
                            "dead wall exhausted while replacing flowers"@,
                        ),
                    )
                },
            ),
            Some(tile) => if after.lays_aside(tile) {
                after.with_flower(seat, tile).with_replacement_pending(true).drawn_from(
                    seat,
                    DrawSource::DeadWall,
                    true,
                )
            } else {
                (
                    after.with_drawn(seat, tile).with_replacement_pending(false),
                    Ok(Some(DrawOutcome { tile, replacement_draw })),
                )
            },
        }
    }

    /// Draws for the seat whose turn it is. Nothing is drawn while a drawn tile is pending, and
    /// `None` says that the live wall is exhausted.
    pub open spec fn drawn(self, seat: Seat, source: DrawSource) -> (
        RoomStateModel,
        Result<Option<DrawOutcome>, ActionValidationErrorModel>,
    ) {
        match self.player_round_state.at(seat) {
            Some(hand) => if hand.drawn_tile is Some {
                (
                    self,
                    Err(
                        failure(
                            RejectCode::InternalError,
                            "player already holds a pending drawn tile"@,
                        ),
                    ),
                )
            } else {
                self.drawn_from(seat, source, source is DeadWall)
            },
            None => (self, Ok(None)),
        }
    }

    /// Discards a tile of a seat's hand into its discard row, or says why that cannot be done.
    #[verifier::opaque]
    pub open spec fn discarded(self, seat: Seat, tile: Tile, tsumogiri: bool) -> (
        RoomStateModel,
        Result<(), ActionValidationErrorModel>,
    ) {
        match self.player_round_state.at(seat) {
            None => (self, Ok(())),
            Some(hand) => match hand_after_discard(hand, tile, tsumogiri) {
                Err(error) => (self, Err(error)),
                Ok((rest, drawn_and_discarded)) => {
                    let turn_index: u32 = match self.round_runtime {
                        Some(runtime) => (runtime.turn_index + 1) as u32,
                        None => 0,
                    };
                    let counted = RoomStateModel {
                        round_runtime: match self.round_runtime {
                            Some(runtime) => Some(RoundRuntimeStateModel { turn_index, ..runtime }),
                            None => None,
                        },
                        ..self
                    };
                    (
                        counted.with_hand(
                            seat,
                            PlayerRoundStateModel {
                                discards: rest.discards.push(
                                    DiscardTile {
                                        tile: tile.code(),
                                        turn_index,
                                        claimed: false,
                                        drawn_and_discarded,
                                        source_event_seq: 0,
                                    },
                                ),
                                ..rest
                            },
                        ),
                        Ok(()),
                    )
                },
            },
        }
    }

    /// The room with the latest discard of a seat bound to the event that announced it.
    pub open spec fn with_discard_bound(self, seat: Seat, source_event_seq: u64) -> RoomStateModel {
        match self.player_round_state.at(seat) {
            Some(hand) => if hand.discards.len() > 0 {
                self.with_hand(
                    seat,
                    PlayerRoundStateModel {
                        discards: hand.discards.update(
                            hand.discards.len() - 1,
                            DiscardTile { source_event_seq, ..hand.discards.last() },
                        ),
                        ..hand
                    },
                )
            } else {
                self
            },
            None => self,
        }
    }

    /// The room with a discard marked as taken by somebody.
    pub open spec fn with_discard_claimed(self, seat: Seat, source_event_seq: u64) -> RoomStateModel {
        match self.player_round_state.at(seat) {
            Some(hand) => self.with_hand(
                seat,
                PlayerRoundStateModel {
                    discards: first_claimed(hand.discards, source_event_seq),
                    ..hand
                },
            ),
            None => self,
        }
    }
}

/// A discard row in which the first tile that was announced by an event is marked as taken.
pub open spec fn first_claimed(discards: Seq<DiscardTile>, source_event_seq: u64) -> Seq<DiscardTile>
    decreases discards.len(),
{
    if discards.len() == 0 {
        discards
    } else if discards[0].source_event_seq == source_event_seq {
        discards.update(0, DiscardTile { claimed: true, ..discards[0] })
    } else {
        seq![discards[0]] + first_claimed(discards.drop_first(), source_event_seq)
    }
}

pub proof fn lemma_first_claimed(discards: Seq<DiscardTile>, source_event_seq: u64, at: int)
    requires
        0 <= at <= discards.len(),
        forall|i: int| 0 <= i < at ==> discards[i].source_event_seq != source_event_seq,
        at < discards.len() ==> discards[at].source_event_seq == source_event_seq,
    ensures
        first_claimed(discards, source_event_seq) == (if at < discards.len() {
            discards.update(at, DiscardTile { claimed: true, ..discards[at] })
        } else {
            discards
        }),
    decreases discards.len(),
{
    if discards.len() > 0 && at > 0 {
        let rest = discards.drop_first();
        lemma_first_claimed(rest, source_event_seq, at - 1);
        assert(first_claimed(discards, source_event_seq) =~= (if at < discards.len() {
            discards.update(at, DiscardTile { claimed: true, ..discards[at] })
        } else {
            discards
        }));
    }
}

impl RoomState {
    fn pop_tile(&mut self, source: DrawSource) -> (r: Option<Tile>)
        ensures
            (final(self)@, r) == old(self)@.popped(source),
    {
        let tile: Option<Tile> = match self.round_runtime.as_mut() {
            None => {
                return None;
            },
            Some(runtime) => match source {
                DrawSource::LiveWall => runtime.live_wall.pop_front(),
                DrawSource::DeadWall => runtime.dead_wall.pop_front(),
            },
        };
        self.sync_wall_counters();
        tile
    }

    fn lay_aside(&mut self, seat: Seat, tile: Tile)
        requires
            old(self)@.player_round_state.at(seat) matches Some(hand) && hand.replacement_draw_count
                < u32::MAX,
        ensures
            final(self)@ == old(self)@.with_flower(seat, tile),
    {
        if let Some(player) = self.player_round_state.get_mut(seat) {
            player.flowers.push(tile);
            player.replacement_draw_count = player.replacement_draw_count + 1;
            sort_tiles(&mut player.flowers);
        }
    }

    fn add_concealed(&mut self, seat: Seat, tile: Tile)
        ensures
            final(self)@ == old(self)@.with_concealed(seat, tile),
    {
        if let Some(player) = self.player_round_state.get_mut(seat) {
            player.concealed_tiles.push(tile);
            sort_tiles(&mut player.concealed_tiles);
        }
    }

    fn set_drawn(&mut self, seat: Seat, tile: Tile)
        ensures
            final(self)@ == old(self)@.with_drawn(seat, tile),
    {
        if let Some(player) = self.player_round_state.get_mut(seat) {
            player.drawn_tile = Some(tile);
        }
    }

    fn set_replacement_pending(&mut self, pending: bool)
        ensures
            final(self)@ == old(self)@.with_replacement_pending(pending),
    {
        if let Some(runtime) = self.round_runtime.as_mut() {
            runtime.replacement_draw_pending = pending;
        }
    }

    fn deal_replacement(&mut self, seat: Seat) -> (r: Result<(), ActionValidationError>)
        requires
            old(self)@.can_draw(seat),
        ensures
            (final(self)@, crate::room::convert::plain_result(r)) == old(self)@.dealt_replacement(
                seat,
            ),
        decreases old(self)@.dead_len(),
    {
        match self.pop_tile(DrawSource::DeadWall) {
            None => Err(
                ActionValidationError::new(
                    RejectCode::InternalError,
                    "dead wall exhausted while replacing flowers during dealing",
                ),
            ),
            Some(tile) => {
                if self.room_config.enable_flower_tiles && is_flower_tile(tile) {
                    self.lay_aside(seat, tile);
                    self.deal_replacement(seat)
                } else {
                    self.add_concealed(seat, tile);
                    Ok(())
                }
            },
        }
    }

    /// Deals a seat one tile of the live wall.
    pub fn deal_concealed_tile(&mut self, seat: Seat) -> (r: Result<(), ActionValidationError>)
        requires
            old(self)@.can_draw(seat),
        ensures
            (final(self)@, crate::room::convert::plain_result(r)) == old(self)@.dealt(seat),
    {
        match self.pop_tile(DrawSource::LiveWall) {
            None => Err(
                ActionValidationError::new(
                    RejectCode::InternalError,
                    "live wall exhausted during initial dealing",
                ),
            ),
            Some(tile) => {
                if self.room_config.enable_flower_tiles && is_flower_tile(tile) {
                    self.lay_aside(seat, tile);
                    self.deal_replacement(seat)
                } else {
                    self.add_concealed(seat, tile);
                    Ok(())
                }
            },
        }
    }

    fn draw_from(&mut self, seat: Seat, source: DrawSource, replacement_draw: bool) -> (r: Result<
        Option<DrawOutcome>,
        ActionValidationError,
    >)
        requires
            old(self)@.can_draw(seat),
        ensures
            (final(self)@, crate::room::convert::plain_result(r)) == old(self)@.drawn_from(
                seat,
                source,
                replacement_draw,
            ),
        decreases (if source is LiveWall {
            1nat
        } else {
            0nat
        }), old(self)@.dead_len(),
    {
        match self.pop_tile(source) {
            None => match source {
                DrawSource::LiveWall => Ok(None),
                DrawSource::DeadWall => Err(
                    ActionValidationError::new(
                        RejectCode::InternalError,
                        "dead wall exhausted while replacing flowers",
                    ),
                ),
            },
            Some(tile) => {
                if self.room_config.enable_flower_tiles && is_flower_tile(tile) {
                    self.lay_aside(seat, tile);
                    self.set_replacement_pending(true);
                    self.draw_from(seat, DrawSource::DeadWall, true)
                } else {
                    self.set_drawn(seat, tile);
                    self.set_replacement_pending(false);
                    Ok(Some(DrawOutcome { tile, replacement_draw }))
                }
            },
        }
    }

    /// Draws for the seat whose turn it is.
    pub fn draw_turn_tile(&mut self, seat: Seat, initial_source: DrawSource) -> (r: Result<
        Option<DrawOutcome>,
        ActionValidationError,
    >)
        requires
            old(self)@.can_draw(seat),
        ensures
            (final(self)@, crate::room::convert::plain_result(r)) == old(self)@.drawn(
                seat,
                initial_source,
            ),
    {
        let pending: bool = match self.player_round_state.get(seat) {
            Some(player) => player.drawn_tile.is_some(),
            None => false,
        };
        if pending {
            return Err(
                ActionValidationError::new(
                    RejectCode::InternalError,
                    "player already holds a pending drawn tile",
                ),
            );
        }
        let replacement_draw: bool = match initial_source {
            DrawSource::LiveWall => false,
            DrawSource::DeadWall => true,
        };
        self.draw_from(seat, initial_source, replacement_draw)
    }

    /// Discards a tile of a seat's hand.
    pub fn discard_tile_from_hand(&mut self, seat: Seat, tile: Tile, tsumogiri: bool) -> (r: Result<
        (),
        ActionValidationError,
    >)
        requires
            old(self)@.player_round_state.at(seat) is Some,
            old(self)@.round_runtime matches Some(runtime) ==> runtime.turn_index < u32::MAX,
        ensures
            (final(self)@, crate::room::convert::plain_result(r)) == old(self)@.discarded(
                seat,
                tile,
                tsumogiri,
            ),
    {
        reveal(RoomStateModel::discarded);
        if let Some(player) = self.player_round_state.get_mut(seat) {
            let taken = take_discard(player, tile, tsumogiri);
            match taken {
                Err(error) => {
                    return Err(error);
                },
                Ok(drawn_and_discarded) => {
                    let turn_index: u32 = match self.round_runtime.as_mut() {
                        Some(runtime) => {
                            runtime.turn_index = runtime.turn_index + 1;
                            runtime.turn_index
                        },
                        None => 0,
                    };
                    player.discards.push(
                        DiscardTile {
                            tile: tile.as_i32(),
                            turn_index,
                            claimed: false,
                            drawn_and_discarded,
                            source_event_seq: 0,
                        },
                    );
                },
            }
        }
        Ok(())
    }

    pub fn set_last_discard_source_event_seq(&mut self, seat: Seat, source_event_seq: u64)
        ensures
            final(self)@ == old(self)@.with_discard_bound(seat, source_event_seq),
    {
        if let Some(player) = self.player_round_state.get_mut(seat) {
            let count: usize = player.discards.len();
            if count > 0 {
                let mut discard = player.discards[count - 1];
                discard.source_event_seq = source_event_seq;
                player.discards.set(count - 1, discard);
            }
        }
    }

    pub fn mark_discard_claimed(&mut self, source_seat: Seat, source_event_seq: u64)
        ensures
            final(self)@ == old(self)@.with_discard_claimed(source_seat, source_event_seq),
    {
        if let Some(player) = self.player_round_state.get_mut(source_seat) {
            mark_first_claimed(&mut player.discards, source_event_seq);
        }
    }
}

fn mark_first_claimed(discards: &mut Vec<DiscardTile>, source_event_seq: u64)
    ensures
        final(discards)@ == first_claimed(old(discards)@, source_event_seq),
{
    let ghost before = discards@;
    let mut i: usize = 0;
    while i < discards.len()
        invariant
            i <= discards.len(),
            discards@ == before,
            before == old(discards)@,
            forall|j: int| 0 <= j < i ==> discards@[j].source_event_seq != source_event_seq,
        decreases discards.len() - i,
    {
        if discards[i].source_event_seq == source_event_seq {
            proof {
                lemma_first_claimed(before, source_event_seq, i as int);
            }
            let mut discard = discards[i];
            discard.claimed = true;
            discards.set(i, discard);
            return;
        }
        i = i + 1;
    }
    proof {
        lemma_first_claimed(before, source_event_seq, i as int);
    }
}

} // verus!
