//! The payloads of stored events.

use vstd::prelude::*;

use crate::collections::{group_seat_map, views, SeatMap};
use crate::json::{json_items, json_opt_text, json_text, no_members, Json, JsonModel, JsonObject};
use crate::proto::client::{
    ActionKind, ClaimKind, Meld, MeldKind, MeldModel, PromptOption, PromptOptionModel, Seat, Tile,
    WinType,
};
use crate::room::convert::{claim_action, map_claim_kind_to_client_action};
use crate::room::state::{ClaimResponse, ClaimResponseModel, PromptOptions};

verus! {

broadcast use group_seat_map;

/// The name of the tile with a wire number; numbers that stand for none have the name of no tile.
pub open spec fn tile_name(code: i32) -> Seq<char> {
    match Tile::decode(code) {
        Some(tile) => tile.name(),
        None => Tile::Unspecified.name(),
    }
}

fn tile_name_text(code: i32) -> (r: &'static str)
    ensures
        r@ == tile_name(code),
{
    match Tile::from_i32(code) {
        Some(tile) => tile.as_str_name(),
        None => Tile::Unspecified.as_str_name(),
    }
}

/// The name of the seat with a wire number.
pub open spec fn seat_name(code: i32) -> Seq<char> {
    match Seat::decode(code) {
        Some(seat) => seat.name(),
        None => Seat::Unspecified.name(),
    }
}

fn seat_name_text(code: i32) -> (r: &'static str)
    ensures
        r@ == seat_name(code),
{
    match Seat::from_i32(code) {
        Some(seat) => seat.as_str_name(),
        None => Seat::Unspecified.as_str_name(),
    }
}

/// The names of a list of wire numbers.
pub open spec fn tile_name_list(codes: Seq<i32>) -> JsonModel {
    JsonModel::Array(Seq::new(codes.len(), |i: int| JsonModel::Text(tile_name(codes[i]))))
}

fn tile_names_json(codes: &Vec<i32>) -> (r: Json)
    ensures
        r@ == tile_name_list(codes@),
{
    let mut items: Vec<Json> = Vec::new();
    let mut i: usize = 0;
    while i < codes.len()
        invariant
            i <= codes.len(),
            items.len() == i,
            forall|j: int| 0 <= j < i ==> (#[trigger] items@[j])@ == JsonModel::Text(tile_name(codes@[j])),
        decreases codes.len() - i,
    {
        items.push(Json::text(tile_name_text(codes[i])));
        i = i + 1;
    }
    assert(json_items(items@) =~= tile_name_list(codes@)->Array_0);
    Json::list(items)
}

/// The names of a list of tiles.
pub open spec fn tile_list(tiles: Seq<Tile>) -> JsonModel {
    JsonModel::Array(Seq::new(tiles.len(), |i: int| JsonModel::Text(tiles[i].name())))
}

pub fn tiles_json(tiles: &Vec<Tile>) -> (r: Json)
    ensures
        r@ == tile_list(tiles@),
{
    let mut items: Vec<Json> = Vec::new();
    let mut i: usize = 0;
    while i < tiles.len()
        invariant
            i <= tiles.len(),
            items.len() == i,
            forall|j: int| 0 <= j < i ==> (#[trigger] items@[j])@ == JsonModel::Text(tiles@[j].name()),
        decreases tiles.len() - i,
    {
        items.push(Json::text(tiles[i].as_str_name()));
        i = i + 1;
    }
    assert(json_items(items@) =~= tile_list(tiles@)->Array_0);
    Json::list(items)
}

/// The names of a list of seats.
pub open spec fn seat_list(seats: Seq<Seat>) -> JsonModel {
    JsonModel::Array(Seq::new(seats.len(), |i: int| JsonModel::Text(seats[i].name())))
}

pub fn seats_json(seats: &Vec<Seat>) -> (r: Json)
    ensures
        r@ == seat_list(seats@),
{
    let mut items: Vec<Json> = Vec::new();
    let mut i: usize = 0;
    while i < seats.len()
        invariant
            i <= seats.len(),
            items.len() == i,
            forall|j: int| 0 <= j < i ==> (#[trigger] items@[j])@ == JsonModel::Text(seats@[j].name()),
        decreases seats.len() - i,
    {
        items.push(Json::text(seats[i].as_str_name()));
        i = i + 1;
    }
    assert(json_items(items@) =~= seat_list(seats@)->Array_0);
    Json::list(items)
}

/// The name of a seat, or null.
pub open spec fn opt_seat(seat: Option<Seat>) -> JsonModel {
    json_opt_text(
        match seat {
            Some(seat) => Some(seat.name()),
            None => None,
        },
    )
}

pub fn opt_seat_json(seat: Option<Seat>) -> (r: Json)
    ensures
        r@ == opt_seat(seat),
{
    match seat {
        Some(seat) => Json::text(seat.as_str_name()),
        None => Json::Null,
    }
}

/// The name of a tile, or null.
pub open spec fn opt_tile(tile: Option<Tile>) -> JsonModel {
    json_opt_text(
        match tile {
            Some(tile) => Some(tile.name()),
            None => None,
        },
    )
}

pub fn opt_tile_json(tile: Option<Tile>) -> (r: Json)
    ensures
        r@ == opt_tile(tile),
{
    match tile {
        Some(tile) => Json::text(tile.as_str_name()),
        None => Json::Null,
    }
}

/// The name of the action that a claim of a kind amounts to.
pub fn claim_action_kind_label(claim_kind: ClaimKind) -> (r: &'static str)
    ensures
        r@ == claim_action(claim_kind).name(),
{
    map_claim_kind_to_client_action(claim_kind).as_str_name()
}

/// A meld, by names.
pub open spec fn meld_payload(meld: MeldModel) -> JsonModel {
    JsonModel::Object(
        no_members()
            .push((
                "kind"@,
                json_text(
                    match MeldKind::decode(meld.kind) {
                        Some(kind) => kind.name(),
                        None => MeldKind::Unspecified.name(),
                    },
                ),
            ))
            .push(("tiles"@, tile_name_list(meld.tiles)))
            .push(("from_seat"@, json_text(seat_name(meld.from_seat))))
            .push(("claimed_tile"@, json_text(tile_name(meld.claimed_tile))))
            .push(("concealed"@, JsonModel::Bool(meld.concealed)))
            .push(("source_event_seq"@, JsonModel::Unsigned(meld.source_event_seq))),
    )
}

pub fn meld_json(meld: &Meld) -> (r: Json)
    ensures
        r@ == meld_payload(meld@),
{
    let kind = match MeldKind::from_i32(meld.kind) {
        Some(kind) => kind.as_str_name(),
        None => MeldKind::Unspecified.as_str_name(),
    };
    JsonObject::new().with("kind", Json::text(kind)).with("tiles", tile_names_json(&meld.tiles)).with(
        "from_seat",
        Json::text(seat_name_text(meld.from_seat)),
    ).with("claimed_tile", Json::text(tile_name_text(meld.claimed_tile))).with(
        "concealed",
        Json::Bool(meld.concealed),
    ).with("source_event_seq", Json::unsigned(meld.source_event_seq)).build()
}

/// A list of melds, by names.
pub open spec fn meld_list(melds: Seq<MeldModel>) -> JsonModel {
    JsonModel::Array(Seq::new(melds.len(), |i: int| meld_payload(melds[i])))
}

pub fn melds_json(melds: &Vec<Meld>) -> (r: Json)
    ensures
        r@ == meld_list(views(melds@)),
{
    let mut items: Vec<Json> = Vec::new();
    let mut i: usize = 0;
    while i < melds.len()
        invariant
            i <= melds.len(),
            items.len() == i,
            forall|j: int| 0 <= j < i ==> (#[trigger] items@[j])@ == meld_payload(melds@[j]@),
        decreases melds.len() - i,
    {
        items.push(meld_json(&melds[i]));
        i = i + 1;
    }
    assert(json_items(items@) =~= meld_list(views(melds@))->Array_0);
    Json::list(items)
}

/// One way to answer a claim window, by names.
pub open spec fn option_payload(option: PromptOptionModel) -> JsonModel {
    JsonModel::Object(
        no_members()
            .push(("option_id"@, json_text(option.option_id)))
            .push((
                "action_kind"@,
                json_text(
                    match ActionKind::decode(option.action_kind) {
                        Some(kind) => kind.name(),
                        None => ActionKind::Unspecified.name(),
                    },
                ),
            ))
            .push((
                "claim_kind"@,
                json_text(
                    match ClaimKind::decode(option.claim_kind) {
                        Some(kind) => kind.name(),
                        None => ClaimKind::Unspecified.name(),
                    },
                ),
            ))
            .push((
                "win_type"@,
                json_text(
                    match WinType::decode(option.win_type) {
                        Some(kind) => kind.name(),
                        None => WinType::Unspecified.name(),
                    },
                ),
            ))
            .push(("candidate_tiles"@, tile_name_list(option.candidate_tiles)))
            .push(("consume_tiles"@, tile_name_list(option.consume_tiles))),
    )
}

pub fn prompt_option_json(option: &PromptOption) -> (r: Json)
    ensures
        r@ == option_payload(option@),
{
    let action_kind = match ActionKind::from_i32(option.action_kind) {
        Some(kind) => kind.as_str_name(),
        None => ActionKind::Unspecified.as_str_name(),
    };
    let claim_kind = match ClaimKind::from_i32(option.claim_kind) {
        Some(kind) => kind.as_str_name(),
        None => ClaimKind::Unspecified.as_str_name(),
    };
    let win_type = match WinType::from_i32(option.win_type) {
        Some(kind) => kind.as_str_name(),
        None => WinType::Unspecified.as_str_name(),
    };
    JsonObject::new().with("option_id", Json::text(option.option_id.as_str())).with(
        "action_kind",
        Json::text(action_kind),
    ).with("claim_kind", Json::text(claim_kind)).with("win_type", Json::text(win_type)).with(
        "candidate_tiles",
        tile_names_json(&option.candidate_tiles),
    ).with("consume_tiles", tile_names_json(&option.consume_tiles)).build()
}

/// The options of one seat.
pub open spec fn seat_options_payload(seat: Seat, options: Seq<PromptOptionModel>) -> JsonModel {
    JsonModel::Object(
        no_members()
            .push(("seat"@, json_text(seat.name())))
            .push((
                "options"@,
                JsonModel::Array(Seq::new(options.len(), |i: int| option_payload(options[i]))),
            )),
    )
}

fn seat_options_json(seat: Seat, options: &PromptOptions) -> (r: Json)
    ensures
        r@ == seat_options_payload(seat, options@),
{
    let mut items: Vec<Json> = Vec::new();
    let mut i: usize = 0;
    while i < options.items.len()
        invariant
            i <= options.items.len(),
            items.len() == i,
            forall|j: int| 0 <= j < i ==> (#[trigger] items@[j])@ == option_payload(options.items@[j]@),
        decreases options.items.len() - i,
    {
        items.push(prompt_option_json(&options.items[i]));
        i = i + 1;
    }
    assert(json_items(items@) =~= Seq::new(
        options@.len(),
        |i: int| option_payload(options@[i]),
    ));
    JsonObject::new().with("seat", Json::text(seat.as_str_name())).with(
        "options",
        Json::list(items),
    ).build()
}

/// The options of a seat, where it has any, as a list.
pub open spec fn options_at(options: SeatMap<Seq<PromptOptionModel>>, seat: Seat) -> Seq<JsonModel> {
    match options.at(seat) {
        Some(items) => seq![seat_options_payload(seat, items)],
        None => Seq::empty(),
    }
}

/// The options of all seats, in the order of play.
pub open spec fn options_payload(options: SeatMap<Seq<PromptOptionModel>>) -> JsonModel {
    JsonModel::Array(
        options_at(options, Seat::Unspecified) + options_at(options, Seat::East) + options_at(
            options,
            Seat::South,
        ) + options_at(options, Seat::West) + options_at(options, Seat::North),
    )
}

fn push_options(items: &mut Vec<Json>, options: &SeatMap<PromptOptions>, seat: Seat)
    ensures
        json_items(final(items)@) == json_items(old(items)@) + options_at(options@, seat),
{
    let ghost before = items@;
    if let Some(seat_options) = options.get(seat) {
        items.push(seat_options_json(seat, seat_options));
    }
    assert(json_items(items@) =~= json_items(before) + options_at(options@, seat));
}

pub fn options_json(options: &SeatMap<PromptOptions>) -> (r: Json)
    ensures
        r@ == options_payload(options@),
{
    let mut items: Vec<Json> = Vec::new();
    push_options(&mut items, options, Seat::Unspecified);
    push_options(&mut items, options, Seat::East);
    push_options(&mut items, options, Seat::South);
    push_options(&mut items, options, Seat::West);
    push_options(&mut items, options, Seat::North);
    assert(json_items(items@) =~= options_payload(options@)->Array_0);
    Json::list(items)
}

/// An answer to a claim window, by names.
pub open spec fn response_payload(response: ClaimResponseModel) -> JsonModel {
    match response {
        ClaimResponseModel::Pass => JsonModel::Object(
            no_members()
                .push(("kind"@, json_text("PASS"@))),
        ),
        ClaimResponseModel::Claim(claim) => JsonModel::Object(
            no_members()
                .push(("kind"@, json_text("CLAIM"@)))
                .push((
                    "claim_kind"@,
                    json_text(
                        match ClaimKind::decode(claim.claim_kind) {
                            Some(kind) => kind.name(),
                            None => ClaimKind::Unspecified.name(),
                        },
                    ),
                ))
                .push(("target_tile"@, json_text(tile_name(claim.target_tile))))
                .push(("consume_tiles"@, tile_name_list(claim.consume_tiles)))
                .push(("source_seat"@, json_text(seat_name(claim.source_seat))))
                .push(("source_event_seq"@, JsonModel::Unsigned(claim.source_event_seq))),
        ),
        ClaimResponseModel::DeclareWin(win) => JsonModel::Object(
            no_members()
                .push(("kind"@, json_text("DECLARE_WIN"@)))
                .push((
                    "win_type"@,
                    json_text(
                        match WinType::decode(win.win_type) {
                            Some(kind) => kind.name(),
                            None => WinType::Unspecified.name(),
                        },
                    ),
                ))
                .push(("winning_tile"@, json_text(tile_name(win.winning_tile))))
                .push(("source_seat"@, json_text(seat_name(win.source_seat))))
                .push(("source_event_seq"@, JsonModel::Unsigned(win.source_event_seq))),
        ),
    }
}

pub fn claim_response_json(response: &ClaimResponse) -> (r: Json)
    ensures
        r@ == response_payload(response@),
{
    match response {
        ClaimResponse::Pass => JsonObject::new().with("kind", Json::text("PASS")).build(),
        ClaimResponse::Claim(claim) => {
            let claim_kind = match ClaimKind::from_i32(claim.claim_kind) {
                Some(kind) => kind.as_str_name(),
                None => ClaimKind::Unspecified.as_str_name(),
            };
            JsonObject::new().with("kind", Json::text("CLAIM")).with(
                "claim_kind",
                Json::text(claim_kind),
            ).with("target_tile", Json::text(tile_name_text(claim.target_tile))).with(
                "consume_tiles",
                tile_names_json(&claim.consume_tiles),
            ).with("source_seat", Json::text(seat_name_text(claim.source_seat))).with(
                "source_event_seq",
                Json::unsigned(claim.source_event_seq),
            ).build()
        },
        ClaimResponse::DeclareWin(win) => {
            let win_type = match WinType::from_i32(win.win_type) {
                Some(kind) => kind.as_str_name(),
                None => WinType::Unspecified.as_str_name(),
            };
            JsonObject::new().with("kind", Json::text("DECLARE_WIN")).with(
                "win_type",
                Json::text(win_type),
            ).with("winning_tile", Json::text(tile_name_text(win.winning_tile))).with(
                "source_seat",
                Json::text(seat_name_text(win.source_seat)),
            ).with("source_event_seq", Json::unsigned(win.source_event_seq)).build()
        },
    }
}

/// The answer of a seat, where it gave one, as a list.
pub open spec fn response_at(responses: SeatMap<ClaimResponseModel>, seat: Seat) -> Seq<JsonModel> {
    match responses.at(seat) {
        Some(response) => seq![
            JsonModel::Object(
                no_members()
                    .push(("seat"@, json_text(seat.name())))
                    .push(("response"@, response_payload(response))),
            ),
        ],
        None => Seq::empty(),
    }
}

/// The answers of all seats, in the order of play.
pub open spec fn responses_payload(responses: SeatMap<ClaimResponseModel>) -> JsonModel {
    JsonModel::Array(
        response_at(responses, Seat::Unspecified) + response_at(responses, Seat::East)
            + response_at(responses, Seat::South) + response_at(responses, Seat::West)
            + response_at(responses, Seat::North),
    )
}

fn push_response(items: &mut Vec<Json>, responses: &SeatMap<ClaimResponse>, seat: Seat)
    ensures
        json_items(final(items)@) == json_items(old(items)@) + response_at(responses@, seat),
{
    let ghost before = items@;
    if let Some(response) = responses.get(seat) {
        items.push(
            JsonObject::new().with("seat", Json::text(seat.as_str_name())).with(
                "response",
                claim_response_json(response),
            ).build(),
        );
    }
    assert(json_items(items@) =~= json_items(before) + response_at(responses@, seat));
}

pub fn responses_json(responses: &SeatMap<ClaimResponse>) -> (r: Json)
    ensures
        r@ == responses_payload(responses@),
{
    let mut items: Vec<Json> = Vec::new();
    push_response(&mut items, responses, Seat::Unspecified);
    push_response(&mut items, responses, Seat::East);
    push_response(&mut items, responses, Seat::South);
    push_response(&mut items, responses, Seat::West);
    push_response(&mut items, responses, Seat::North);
    assert(json_items(items@) =~= responses_payload(responses@)->Array_0);
    Json::list(items)
}

} // verus!
