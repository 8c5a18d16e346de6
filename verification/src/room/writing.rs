//! How melds, offers, answers and results are written out.

use vstd::prelude::*;

use crate::collections::{group_seat_map, SeatMap};
use crate::db::digest::{payload_flag, payload_items, payload_number, payload_small, payload_text};
use crate::json::{lemma_member_added, JsonModel};
use crate::proto::client::{
    ActionKind, ClaimKind, FanDetailModel, FinalStandingModel, MeldKind, MeldModel,
    PromptOptionModel, RoundPlayerResult, Seat, Tile, WinType,
};
use crate::room::match_flow::standings_payload;
use crate::room::payloads::{
    meld_list, meld_payload, option_payload, options_at, options_payload, response_at,
    response_payload, responses_payload,
};
use crate::room::settlement::{fans_payload, results_payload};
use crate::room::state::{ClaimResponseModel, RoomStateModel};

verus! {

broadcast use {group_seat_map, lemma_member_added};

/// Whether a list under a key names the tiles of some wire numbers, in their order.
pub open spec fn lists_tiles(value: JsonModel, key: Seq<char>, codes: Seq<i32>) -> bool {
    &&& payload_items(value, key).len() == codes.len()
    &&& forall|i: int, tile: Tile|
        0 <= i < codes.len() && Tile::decode(codes[i]) == Some(tile) ==> (
        #[trigger] payload_items(value, key)[i]).as_text() == Some(#[trigger] tile.name())
}

/// Whether the text under a key names the seat of a wire number.
pub open spec fn names_seat(value: JsonModel, key: Seq<char>, code: i32) -> bool {
    Seat::decode(code) matches Some(seat) ==> payload_text(value, key) == Some(seat.name())
}

/// Whether the text under a key names the tile of a wire number.
pub open spec fn names_tile(value: JsonModel, key: Seq<char>, code: i32) -> bool {
    Tile::decode(code) matches Some(tile) ==> payload_text(value, key) == Some(tile.name())
}

/// Whether a whole number stands under a key.
pub open spec fn holds_integer(value: JsonModel, key: Seq<char>, number: int) -> bool {
    match value.get(key) {
        Some(JsonModel::Unsigned(natural)) => natural == number,
        Some(JsonModel::Negative(negative)) => negative == number && number < 0,
        _ => false,
    }
}

/// A meld is written out with its kind, its tiles, the seat and the tile that it was claimed from, and
/// the event that it came of.
pub proof fn law_melds_are_written_out(meld: MeldModel)
    ensures
        ({
            let value = meld_payload(meld);
            &&& MeldKind::decode(meld.kind) matches Some(kind) ==> payload_text(value, "kind"@)
                == Some(kind.name())
            &&& lists_tiles(value, "tiles"@, meld.tiles)
            &&& names_seat(value, "from_seat"@, meld.from_seat)
            &&& names_tile(value, "claimed_tile"@, meld.claimed_tile)
            &&& payload_flag(value, "concealed"@) == Some(meld.concealed)
            &&& payload_number(value, "source_event_seq"@) == Some(meld.source_event_seq)
        }),
{
    reveal_strlit("kind");
    reveal_strlit("tiles");
    reveal_strlit("from_seat");
    reveal_strlit("claimed_tile");
    reveal_strlit("concealed");
    reveal_strlit("source_event_seq");
    assert("kind"@.len() == 4);
    assert("tiles"@.len() == 5);
    assert("from_seat"@.len() == 9 && "from_seat"@[0] == 'f');
    assert("claimed_tile"@.len() == 12);
    assert("concealed"@.len() == 9 && "concealed"@[0] == 'c');
    assert("source_event_seq"@.len() == 16);
}

/// An option is written out with its name, what it amounts to, and the tiles that it is about.
pub proof fn law_options_are_written_out(option: PromptOptionModel)
    ensures
        ({
            let value = option_payload(option);
            &&& payload_text(value, "option_id"@) == Some(option.option_id)
            &&& ActionKind::decode(option.action_kind) matches Some(kind) ==> payload_text(
                value,
                "action_kind"@,
            ) == Some(kind.name())
            &&& ClaimKind::decode(option.claim_kind) matches Some(kind) ==> payload_text(
                value,
                "claim_kind"@,
            ) == Some(kind.name())
            &&& WinType::decode(option.win_type) matches Some(win_type) ==> payload_text(
                value,
                "win_type"@,
            ) == Some(win_type.name())
            &&& lists_tiles(value, "candidate_tiles"@, option.candidate_tiles)
            &&& lists_tiles(value, "consume_tiles"@, option.consume_tiles)
        }),
{
    reveal_strlit("option_id");
    reveal_strlit("action_kind");
    reveal_strlit("claim_kind");
    reveal_strlit("win_type");
    reveal_strlit("candidate_tiles");
    reveal_strlit("consume_tiles");
    assert("option_id"@.len() == 9);
    assert("action_kind"@.len() == 11);
    assert("claim_kind"@.len() == 10);
    assert("win_type"@.len() == 8);
    assert("candidate_tiles"@.len() == 15);
    assert("consume_tiles"@.len() == 13);
}

/// Whether an answer to a window is written out.
pub open spec fn writes_answer(value: JsonModel, response: ClaimResponseModel) -> bool {
    match response {
        ClaimResponseModel::Pass => payload_text(value, "kind"@) == Some("PASS"@),
        ClaimResponseModel::Claim(claim) => {
            &&& payload_text(value, "kind"@) == Some("CLAIM"@)
            &&& ClaimKind::decode(claim.claim_kind) matches Some(kind) ==> payload_text(
                value,
                "claim_kind"@,
            ) == Some(kind.name())
            &&& names_tile(value, "target_tile"@, claim.target_tile)
            &&& lists_tiles(value, "consume_tiles"@, claim.consume_tiles)
            &&& names_seat(value, "source_seat"@, claim.source_seat)
            &&& payload_number(value, "source_event_seq"@) == Some(claim.source_event_seq)
        },
        ClaimResponseModel::DeclareWin(win) => {
            &&& payload_text(value, "kind"@) == Some("DECLARE_WIN"@)
            &&& WinType::decode(win.win_type) matches Some(win_type) ==> payload_text(
                value,
                "win_type"@,
            ) == Some(win_type.name())
            &&& names_tile(value, "winning_tile"@, win.winning_tile)
            &&& names_seat(value, "source_seat"@, win.source_seat)
            &&& payload_number(value, "source_event_seq"@) == Some(win.source_event_seq)
        },
    }
}

proof fn lemma_answer_is_written(response: ClaimResponseModel)
    ensures
        writes_answer(response_payload(response), response),
{
    reveal_strlit("kind");
    reveal_strlit("claim_kind");
    reveal_strlit("target_tile");
    reveal_strlit("consume_tiles");
    reveal_strlit("source_seat");
    reveal_strlit("source_event_seq");
    reveal_strlit("win_type");
    reveal_strlit("winning_tile");
    assert("kind"@.len() == 4);
    assert("claim_kind"@.len() == 10);
    assert("target_tile"@.len() == 11 && "target_tile"@[0] == 't');
    assert("consume_tiles"@.len() == 13);
    assert("source_seat"@.len() == 11 && "source_seat"@[0] == 's');
    assert("source_event_seq"@.len() == 16);
    assert("win_type"@.len() == 8);
    assert("winning_tile"@.len() == 12);
}

/// Whether an entry is that of a seat and holds its answer.
pub open spec fn is_answer_of(entry: JsonModel, seat: Seat, response: ClaimResponseModel) -> bool {
    &&& payload_text(entry, "seat"@) == Some(seat.name())
    &&& entry.get("response"@) matches Some(value) && writes_answer(value, response)
}

/// The answers to a window are written out one by one: an entry for each seat that answered, and no
/// other.
pub proof fn law_answers_are_written_out(responses: SeatMap<ClaimResponseModel>)
    ensures
        ({
            let items = responses_payload(responses)->Array_0;
            &&& responses_payload(responses) is Array
            &&& items.len() == answers_given(responses)
            &&& forall|seat: Seat|
                (#[trigger] responses.at(seat)) is Some ==> exists|i: int|
                    0 <= i < items.len() && is_answer_of(
                        #[trigger] items[i],
                        seat,
                        responses.at(seat)->0,
                    )
        }),
{
    let items = responses_payload(responses)->Array_0;
    assert(items.len() == answers_given(responses));
    assert forall|seat: Seat| (#[trigger] responses.at(seat)) is Some implies exists|i: int|
        0 <= i < items.len() && is_answer_of(#[trigger] items[i], seat, responses.at(seat)->0) by {
        let nobody = response_at(responses, Seat::Unspecified);
        let east = response_at(responses, Seat::East);
        let south = response_at(responses, Seat::South);
        let west = response_at(responses, Seat::West);
        let i: int = match seat {
            Seat::Unspecified => 0,
            Seat::East => nobody.len() as int,
            Seat::South => (nobody + east).len() as int,
            Seat::West => (nobody + east + south).len() as int,
            Seat::North => (nobody + east + south + west).len() as int,
        };
        assert(items[i] == response_at(responses, seat)[0]);
        lemma_answer_is_written(responses.at(seat)->0);
        reveal_strlit("seat");
        reveal_strlit("response");
        assert("seat"@.len() == 4 && "response"@.len() == 8);
        assert(is_answer_of(items[i], seat, responses.at(seat)->0));
    }
}

/// How many seats have answered.
pub open spec fn answers_given(responses: SeatMap<ClaimResponseModel>) -> int {
    count_if(responses.at(Seat::Unspecified) is Some) + count_if(responses.at(Seat::East) is Some)
        + count_if(responses.at(Seat::South) is Some) + count_if(responses.at(Seat::West) is Some)
        + count_if(responses.at(Seat::North) is Some)
}

/// One where something holds.
pub open spec fn count_if(holds: bool) -> int {
    if holds {
        1
    } else {
        0
    }
}

/// Whether an entry is that of a seat and holds its options, in their order.
pub open spec fn is_offer_of(entry: JsonModel, seat: Seat, options: Seq<PromptOptionModel>) -> bool {
    &&& payload_text(entry, "seat"@) == Some(seat.name())
    &&& payload_items(entry, "options"@).len() == options.len()
    &&& forall|i: int|
        0 <= i < options.len() ==> #[trigger] payload_items(entry, "options"@)[i]
            == option_payload(options[i])
}

/// The options of a window are written out seat by seat.
pub proof fn law_offers_are_written_out(options: SeatMap<Seq<PromptOptionModel>>, seat: Seat)
    requires
        options.at(seat) is Some,
    ensures
        options_payload(options) is Array,
        exists|i: int|
            0 <= i < options_payload(options)->Array_0.len() && is_offer_of(
                #[trigger] options_payload(options)->Array_0[i],
                seat,
                options.at(seat)->0,
            ),
{
    let items = options_payload(options)->Array_0;
    let nobody = options_at(options, Seat::Unspecified);
    let east = options_at(options, Seat::East);
    let south = options_at(options, Seat::South);
    let west = options_at(options, Seat::West);
    let i: int = match seat {
        Seat::Unspecified => 0,
        Seat::East => nobody.len() as int,
        Seat::South => (nobody + east).len() as int,
        Seat::West => (nobody + east + south).len() as int,
        Seat::North => (nobody + east + south + west).len() as int,
    };
    assert(items[i] == options_at(options, seat)[0]);
    reveal_strlit("seat");
    reveal_strlit("options");
    assert("seat"@.len() == 4 && "options"@.len() == 7);
    assert(is_offer_of(items[i], seat, options.at(seat)->0));
}

/// What a hand brought everybody is written out line by line.
pub proof fn law_scores_are_written_out(results: Seq<RoundPlayerResult>, i: int)
    requires
        0 <= i < results.len(),
    ensures
        ({
            let items = results_payload(results)->Array_0;
            &&& results_payload(results) is Array
            &&& items.len() == results.len()
            &&& names_seat(items[i], "seat"@, results[i].seat)
            &&& holds_integer(items[i], "round_delta"@, results[i].round_delta as int)
            &&& holds_integer(items[i], "total_score_after"@, results[i].total_score_after as int)
        }),
{
    reveal_strlit("seat");
    reveal_strlit("round_delta");
    reveal_strlit("total_score_after");
    assert("seat"@.len() == 4);
    assert("round_delta"@.len() == 11);
    assert("total_score_after"@.len() == 17);
}

/// What a winning hand consists of is written out element by element.
pub proof fn law_fans_are_written_out(fans: Seq<FanDetailModel>, i: int)
    requires
        0 <= i < fans.len(),
    ensures
        ({
            let items = fans_payload(fans)->Array_0;
            &&& fans_payload(fans) is Array
            &&& items.len() == fans.len()
            &&& payload_text(items[i], "fan_code"@) == Some(fans[i].fan_code)
            &&& payload_text(items[i], "fan_name"@) == Some(fans[i].fan_name)
            &&& payload_small(items[i], "fan_value"@) == Some(fans[i].fan_value)
            &&& payload_small(items[i], "count"@) == Some(fans[i].count)
            &&& payload_text(items[i], "description"@) == Some(fans[i].description)
        }),
{
    reveal_strlit("fan_code");
    reveal_strlit("fan_name");
    reveal_strlit("fan_value");
    reveal_strlit("count");
    reveal_strlit("description");
    assert("fan_code"@.len() == 8 && "fan_code"@[4] == 'c');
    assert("fan_name"@.len() == 8 && "fan_name"@[4] == 'n');
    assert("fan_value"@.len() == 9);
    assert("count"@.len() == 5);
    assert("description"@.len() == 11);
}

/// The places of a match are written out line by line.
pub proof fn law_places_are_written_out(standings: Seq<FinalStandingModel>, i: int)
    requires
        0 <= i < standings.len(),
    ensures
        ({
            let items = standings_payload(standings)->Array_0;
            &&& standings_payload(standings) is Array
            &&& items.len() == standings.len()
            &&& names_seat(items[i], "seat"@, standings[i].seat)
            &&& payload_text(items[i], "user_id"@) == Some(standings[i].user_id)
            &&& payload_text(items[i], "display_name"@) == Some(standings[i].display_name)
            &&& holds_integer(items[i], "final_score"@, standings[i].final_score as int)
            &&& payload_small(items[i], "rank"@) == Some(standings[i].rank)
            &&& payload_small(items[i], "rounds_won"@) == Some(standings[i].rounds_won)
            &&& payload_small(items[i], "self_draw_wins"@) == Some(standings[i].self_draw_wins)
        }),
{
    reveal_strlit("seat");
    reveal_strlit("user_id");
    reveal_strlit("display_name");
    reveal_strlit("final_score");
    reveal_strlit("rank");
    reveal_strlit("rounds_won");
    reveal_strlit("self_draw_wins");
    assert("seat"@.len() == 4 && "seat"@[0] == 's');
    assert("user_id"@.len() == 7);
    assert("display_name"@.len() == 12);
    assert("final_score"@.len() == 11);
    assert("rank"@.len() == 4 && "rank"@[0] == 'r');
    assert("rounds_won"@.len() == 10);
    assert("self_draw_wins"@.len() == 14);
}

/// What a player starts a hand with is written out: the tiles in hand and laid aside, and the score.
pub proof fn law_dealt_hands_are_written_out(room: RoomStateModel, seat: Seat)
    requires
        room.players_by_seat.at(seat) is Some,
        room.player_round_state.at(seat) is Some,
    ensures
        ({
            let items = room.start_payload_at(seat);
            let player = room.players_by_seat.at(seat)->0;
            let hand = room.player_round_state.at(seat)->0;
            &&& items.len() == 1
            &&& payload_text(items[0], "seat"@) == Some(seat.name())
            &&& payload_text(items[0], "user_id"@) == Some(player.user_id)
            &&& payload_text(items[0], "display_name"@) == Some(player.display_name)
            &&& lists_names(items[0], "concealed_tiles"@, hand.concealed_tiles)
            &&& lists_names(items[0], "flowers"@, hand.flowers)
            &&& payload_text(items[0], "drawn_tile"@) == match hand.drawn_tile {
                Some(tile) => Some(tile.name()),
                None => None,
            }
            &&& items[0].get("melds"@) == Some(meld_list(hand.melds))
            &&& holds_integer(items[0], "score"@, player.score as int)
        }),
{
    reveal_strlit("seat");
    reveal_strlit("user_id");
    reveal_strlit("display_name");
    reveal_strlit("concealed_tiles");
    reveal_strlit("drawn_tile");
    reveal_strlit("melds");
    reveal_strlit("flowers");
    reveal_strlit("score");
    assert("seat"@.len() == 4);
    assert("user_id"@.len() == 7 && "user_id"@[0] == 'u');
    assert("display_name"@.len() == 12);
    assert("concealed_tiles"@.len() == 15);
    assert("drawn_tile"@.len() == 10);
    assert("melds"@.len() == 5 && "melds"@[0] == 'm');
    assert("flowers"@.len() == 7 && "flowers"@[0] == 'f');
    assert("score"@.len() == 5 && "score"@[0] == 's');
}

/// Whether a list under a key names some tiles, in their order.
pub open spec fn lists_names(value: JsonModel, key: Seq<char>, tiles: Seq<Tile>) -> bool {
    &&& payload_items(value, key).len() == tiles.len()
    &&& forall|i: int|
        0 <= i < tiles.len() ==> (#[trigger] payload_items(value, key)[i]).as_text() == Some(
            tiles[i].name(),
        )
}

} // verus!
