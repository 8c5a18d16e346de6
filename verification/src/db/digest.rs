//! Digests of stored events, for replays.

use vstd::prelude::*;

use crate::collections::{opt_view, views};
use crate::db::models::{
    MatchEventRecord, MatchEventRecordModel, ReplayEventKind, ReplayWarningRecord,
    ReplayWarningRecordModel,
};
use crate::json::{
    json_items, json_opt_text, json_opt_uint, json_text, json_text_list, no_members, Json,
    JsonModel, JsonObject,
};
use crate::text::{concat, same_text};

verus! {

// ---------------------------------------------------------------------------
// Reading payloads
// ---------------------------------------------------------------------------

/// The text under a key.
pub open spec fn payload_text(payload: JsonModel, key: Seq<char>) -> Option<Seq<char>> {
    match payload.get(key) {
        Some(value) => value.as_text(),
        None => None,
    }
}

/// The natural number under a key.
pub open spec fn payload_number(payload: JsonModel, key: Seq<char>) -> Option<u64> {
    match payload.get(key) {
        Some(value) => value.as_u64(),
        None => None,
    }
}

/// The natural number under a key, where it has at most thirty-two bits.
pub open spec fn payload_small(payload: JsonModel, key: Seq<char>) -> Option<u32> {
    match payload_number(payload, key) {
        Some(number) => if number <= u32::MAX {
            Some(number as u32)
        } else {
            None
        },
        None => None,
    }
}

/// The truth value under a key.
pub open spec fn payload_flag(payload: JsonModel, key: Seq<char>) -> Option<bool> {
    match payload.get(key) {
        Some(value) => value.as_bool(),
        None => None,
    }
}

/// The list under a key; none where there is no list.
pub open spec fn payload_items(payload: JsonModel, key: Seq<char>) -> Seq<JsonModel> {
    match payload.get(key) {
        Some(value) => match value.as_array() {
            Some(items) => items,
            None => Seq::empty(),
        },
        None => Seq::empty(),
    }
}

/// The texts in a list, in order; whatever is no text is left out.
pub open spec fn texts_of(items: Seq<JsonModel>) -> Seq<Seq<char>>
    decreases items.len(),
{
    if items.len() == 0 {
        Seq::empty()
    } else {
        match items.last().as_text() {
            Some(text) => texts_of(items.drop_last()).push(text),
            None => texts_of(items.drop_last()),
        }
    }
}

/// An optional small number.
pub open spec fn json_opt_small(number: Option<u32>) -> JsonModel {
    match number {
        Some(number) => JsonModel::Unsigned(number as u64),
        None => JsonModel::Null,
    }
}

/// An optional truth value.
pub open spec fn json_opt_flag(flag: Option<bool>) -> JsonModel {
    match flag {
        Some(flag) => JsonModel::Bool(flag),
        None => JsonModel::Null,
    }
}

/// An optional value.
pub open spec fn json_opt(value: Option<JsonModel>) -> JsonModel {
    match value {
        Some(value) => value,
        None => JsonModel::Null,
    }
}

pub fn payload_string(payload: &Json, key: &str) -> (r: Option<String>)
    ensures
        opt_view(r) == payload_text(payload@, key@),
{
    match payload.get(key) {
        Some(value) => match value.as_str() {
            Some(text) => Some(text.clone()),
            None => None,
        },
        None => None,
    }
}

pub fn payload_u64(payload: &Json, key: &str) -> (r: Option<u64>)
    ensures
        r == payload_number(payload@, key@),
{
    match payload.get(key) {
        Some(value) => value.as_u64(),
        None => None,
    }
}

pub fn payload_u32(payload: &Json, key: &str) -> (r: Option<u32>)
    ensures
        r == payload_small(payload@, key@),
{
    match payload_u64(payload, key) {
        Some(number) => if number <= u32::MAX as u64 {
            Some(number as u32)
        } else {
            None
        },
        None => None,
    }
}

pub fn payload_bool(payload: &Json, key: &str) -> (r: Option<bool>)
    ensures
        r == payload_flag(payload@, key@),
{
    match payload.get(key) {
        Some(value) => value.as_bool(),
        None => None,
    }
}

pub fn payload_array(payload: &Json, key: &str) -> (r: Vec<Json>)
    ensures
        json_items(r@) == payload_items(payload@, key@),
{
    match payload.get(key) {
        Some(value) => match value.as_array() {
            Some(items) => {
                let copy = items.clone();
                assert(json_items(copy@) =~= json_items(items@));
                copy
            },
            None => {
                let none: Vec<Json> = Vec::new();
                assert(json_items(none@) =~= Seq::<JsonModel>::empty());
                none
            },
        },
        None => {
            let none: Vec<Json> = Vec::new();
            assert(json_items(none@) =~= Seq::<JsonModel>::empty());
            none
        },
    }
}

pub fn payload_string_vec(payload: &Json, key: &str) -> (r: Vec<String>)
    ensures
        views(r@) == texts_of(payload_items(payload@, key@)),
{
    let items = payload_array(payload, key);
    let ghost all = json_items(items@);
    let mut texts: Vec<String> = Vec::new();
    assert(views(texts@) =~= Seq::<Seq<char>>::empty());
    let mut i: usize = 0;
    while i < items.len()
        invariant
            i <= items.len(),
            all == json_items(items@),
            views(texts@) == texts_of(all.take(i as int)),
        decreases items.len() - i,
    {
        assert(all.take(i + 1).drop_last() =~= all.take(i as int));
        assert(all.take(i + 1).last() == items@[i as int]@);
        if let Some(text) = items[i].as_str() {
            let ghost before = texts@;
            texts.push(text.clone());
            assert(views(texts@) =~= views(before).push(text@));
        }
        i = i + 1;
    }
    assert(all.take(i as int) =~= all);
    texts
}

fn small_json(number: Option<u32>) -> (r: Json)
    ensures
        r@ == json_opt_small(number),
{
    match number {
        Some(number) => Json::Unsigned(number as u64),
        None => Json::Null,
    }
}

fn flag_json(flag: Option<bool>) -> (r: Json)
    ensures
        r@ == json_opt_flag(flag),
{
    match flag {
        Some(flag) => Json::Bool(flag),
        None => Json::Null,
    }
}

fn member_json(payload: &Json, key: &str) -> (r: Json)
    ensures
        r@ == json_opt(payload@.get(key@)),
{
    match payload.get(key) {
        Some(value) => value.clone(),
        None => Json::Null,
    }
}

// ---------------------------------------------------------------------------
// Digests
// ---------------------------------------------------------------------------

/// What the start of a hand says of the hand.
#[derive(Debug, PartialEq, Eq)]
pub struct ReplayRoundMetadata {
    pub hand_number: Option<u32>,
    pub prevailing_wind: Option<String>,
    pub dealer_seat: Option<String>,
}

/// The contents of a [`ReplayRoundMetadata`].
#[verifier::ext_equal]
pub struct ReplayRoundMetadataModel {
    pub hand_number: Option<u32>,
    pub prevailing_wind: Option<Seq<char>>,
    pub dealer_seat: Option<Seq<char>>,
}

impl View for ReplayRoundMetadata {
    type V = ReplayRoundMetadataModel;

    open spec fn view(&self) -> ReplayRoundMetadataModel {
        ReplayRoundMetadataModel {
            hand_number: self.hand_number,
            prevailing_wind: opt_view(self.prevailing_wind),
            dealer_seat: opt_view(self.dealer_seat),
        }
    }
}

/// The digest of an event.
#[derive(Debug, PartialEq, Eq)]
pub struct EventDigest {
    pub summary: Json,
    /// Whether the payload lacks something that an event of its kind has.
    pub invalid_payload: bool,
    pub warning: Option<ReplayWarningRecord>,
    pub round_metadata: Option<ReplayRoundMetadata>,
}

/// The contents of an [`EventDigest`].
#[verifier::ext_equal]
pub struct EventDigestModel {
    pub summary: JsonModel,
    pub invalid_payload: bool,
    pub warning: Option<ReplayWarningRecordModel>,
    pub round_metadata: Option<ReplayRoundMetadataModel>,
}

impl View for EventDigest {
    type V = EventDigestModel;

    open spec fn view(&self) -> EventDigestModel {
        EventDigestModel {
            summary: self.summary@,
            invalid_payload: self.invalid_payload,
            warning: opt_view(self.warning),
            round_metadata: opt_view(self.round_metadata),
        }
    }
}

/// A remark on an event.
pub open spec fn warning_on(event: MatchEventRecordModel, message: Seq<char>) -> ReplayWarningRecordModel {
    ReplayWarningRecordModel {
        event_seq: Some(event.event_seq),
        event_type: event.event_type,
        message,
    }
}

/// A digest whose only flaw, if there is one, is an incomplete payload.
pub open spec fn checked_digest(
    event: MatchEventRecordModel,
    summary: JsonModel,
    invalid_payload: bool,
    message: Seq<char>,
    round_metadata: Option<ReplayRoundMetadataModel>,
) -> EventDigestModel {
    EventDigestModel {
        summary,
        invalid_payload,
        warning: if invalid_payload {
            Some(warning_on(event, message))
        } else {
            None
        },
        round_metadata,
    }
}

fn warn(event: &MatchEventRecord, message: &str) -> (r: ReplayWarningRecord)
    ensures
        r@ == warning_on(event@, message@),
{
    ReplayWarningRecord {
        event_seq: Some(event.event_seq),
        event_type: event.event_type.clone(),
        message: String::from_str(message),
    }
}

fn check_digest(
    event: &MatchEventRecord,
    summary: Json,
    invalid_payload: bool,
    message: &str,
    round_metadata: Option<ReplayRoundMetadata>,
) -> (r: EventDigest)
    ensures
        r@ == checked_digest(
            event@,
            summary@,
            invalid_payload,
            message@,
            opt_view(round_metadata),
        ),
{
    EventDigest {
        summary,
        invalid_payload,
        warning: if invalid_payload {
            Some(warn(event, message))
        } else {
            None
        },
        round_metadata,
    }
}


/// The summary of the start of a hand.
pub open spec fn round_started_summary(payload: JsonModel) -> JsonModel {
    JsonModel::Object(
        no_members()
            .push(("type"@, json_text("round_started"@)))
            .push(("phase"@, json_opt_text(payload_text(payload, "phase"@))))
            .push(("prevailing_wind"@, json_opt_text(payload_text(payload, "prevailing_wind"@))))
            .push(("dealer_seat"@, json_opt_text(payload_text(payload, "dealer_seat"@))))
            .push(("current_turn_seat"@, json_opt_text(payload_text(payload, "current_turn_seat"@))))
            .push(("hand_number"@, json_opt_small(payload_small(payload, "hand_number"@))))
            .push(("dealer_streak"@, json_opt_small(payload_small(payload, "dealer_streak"@))))
            .push(("wall_tiles_remaining"@, json_opt_small(payload_small(payload, "wall_tiles_remaining"@))))
            .push(("dead_wall_tiles_remaining"@, json_opt_small(payload_small(payload, "dead_wall_tiles_remaining"@))))
            .push(("players"@, JsonModel::Array(payload_items(payload, "players"@)))),
    )
}

/// Whether the start of a hand lacks what it has to say.
pub open spec fn round_started_incomplete(payload: JsonModel) -> bool {
    ||| payload_small(payload, "hand_number"@) is None
    ||| payload_text(payload, "prevailing_wind"@) is None
    ||| payload_text(payload, "dealer_seat"@) is None
    ||| payload_text(payload, "current_turn_seat"@) is None
}

/// What the start of a hand says of the hand.
pub open spec fn round_metadata_of(payload: JsonModel) -> ReplayRoundMetadataModel {
    ReplayRoundMetadataModel {
        hand_number: payload_small(payload, "hand_number"@),
        prevailing_wind: payload_text(payload, "prevailing_wind"@),
        dealer_seat: payload_text(payload, "dealer_seat"@),
    }
}

/// The digest of the start of a hand.
pub open spec fn round_started_digest(event: MatchEventRecordModel) -> EventDigestModel {
    checked_digest(
        event,
        round_started_summary(event.event_payload),
        round_started_incomplete(event.event_payload),
        "round_started payload missed one or more required fields"@,
        Some(round_metadata_of(event.event_payload)),
    )
}

fn build_round_started_summary(event: &MatchEventRecord) -> (r: EventDigest)
    ensures
        r@ == round_started_digest(event@),
{
    let payload = &event.event_payload;
    let invalid_payload: bool = payload_u32(payload, "hand_number").is_none() || payload_string(payload, "prevailing_wind").is_none() || payload_string(payload, "dealer_seat").is_none() || payload_string(payload, "current_turn_seat").is_none();
    let summary = JsonObject::new()
        .with("type", Json::text("round_started"))
        .with("phase", Json::opt_string(&payload_string(payload, "phase")))
        .with("prevailing_wind", Json::opt_string(&payload_string(payload, "prevailing_wind")))
        .with("dealer_seat", Json::opt_string(&payload_string(payload, "dealer_seat")))
        .with("current_turn_seat", Json::opt_string(&payload_string(payload, "current_turn_seat")))
        .with("hand_number", small_json(payload_u32(payload, "hand_number")))
        .with("dealer_streak", small_json(payload_u32(payload, "dealer_streak")))
        .with("wall_tiles_remaining", small_json(payload_u32(payload, "wall_tiles_remaining")))
        .with("dead_wall_tiles_remaining", small_json(payload_u32(payload, "dead_wall_tiles_remaining")))
        .with("players", Json::list(payload_array(payload, "players")))
        .build();
    let metadata = ReplayRoundMetadata {
        hand_number: payload_u32(payload, "hand_number"),
        prevailing_wind: payload_string(payload, "prevailing_wind"),
        dealer_seat: payload_string(payload, "dealer_seat"),
    };
    check_digest(event, summary, invalid_payload, "round_started payload missed one or more required fields", Some(metadata))
}

/// The summary of an action.
pub open spec fn action_broadcast_summary(payload: JsonModel) -> JsonModel {
    JsonModel::Object(
        no_members()
            .push(("type"@, json_text("action_broadcast"@)))
            .push(("action_kind"@, json_opt_text(payload_text(payload, "action_kind"@))))
            .push(("tile"@, json_opt_text(payload_text(payload, "tile"@))))
            .push(("draw_tile"@, json_opt_text(payload_text(payload, "draw_tile"@))))
            .push(("replacement_draw"@, json_opt_flag(payload_flag(payload, "replacement_draw"@))))
            .push(("target_tile"@, json_opt_text(payload_text(payload, "target_tile"@))))
            .push(("source_seat"@, json_opt_text(payload_text(payload, "source_seat"@))))
            .push(("discarder_seat"@, json_opt_text(payload_text(payload, "discarder_seat"@))))
            .push(("win_type"@, json_opt_text(payload_text(payload, "win_type"@))))
            .push(("source_event_seq"@, json_opt_uint(payload_number(payload, "source_event_seq"@))))
            .push(("consume_tiles"@, json_text_list(texts_of(payload_items(payload, "consume_tiles"@)))))
            .push(("resulting_meld"@, json_opt(payload.get("resulting_meld"@))))
            .push(("tsumogiri"@, json_opt_flag(payload_flag(payload, "tsumogiri"@))))
            .push(("wall_tiles_remaining"@, json_opt_small(payload_small(payload, "wall_tiles_remaining"@)))),
    )
}

/// Whether an action lacks what it has to say.
pub open spec fn action_broadcast_incomplete(payload: JsonModel) -> bool {
    ||| payload_text(payload, "action_kind"@) is None
}

/// The digest of an action.
pub open spec fn action_broadcast_digest(event: MatchEventRecordModel) -> EventDigestModel {
    checked_digest(
        event,
        action_broadcast_summary(event.event_payload),
        action_broadcast_incomplete(event.event_payload),
        "action_broadcast payload missed action_kind"@,
        None,
    )
}

fn build_action_broadcast_summary(event: &MatchEventRecord) -> (r: EventDigest)
    ensures
        r@ == action_broadcast_digest(event@),
{
    let payload = &event.event_payload;
    let invalid_payload: bool = payload_string(payload, "action_kind").is_none();
    let summary = JsonObject::new()
        .with("type", Json::text("action_broadcast"))
        .with("action_kind", Json::opt_string(&payload_string(payload, "action_kind")))
        .with("tile", Json::opt_string(&payload_string(payload, "tile")))
        .with("draw_tile", Json::opt_string(&payload_string(payload, "draw_tile")))
        .with("replacement_draw", flag_json(payload_bool(payload, "replacement_draw")))
        .with("target_tile", Json::opt_string(&payload_string(payload, "target_tile")))
        .with("source_seat", Json::opt_string(&payload_string(payload, "source_seat")))
        .with("discarder_seat", Json::opt_string(&payload_string(payload, "discarder_seat")))
        .with("win_type", Json::opt_string(&payload_string(payload, "win_type")))
        .with("source_event_seq", Json::opt_uint(payload_u64(payload, "source_event_seq")))
        .with("consume_tiles", Json::text_list(&payload_string_vec(payload, "consume_tiles")))
        .with("resulting_meld", member_json(payload, "resulting_meld"))
        .with("tsumogiri", flag_json(payload_bool(payload, "tsumogiri")))
        .with("wall_tiles_remaining", small_json(payload_u32(payload, "wall_tiles_remaining")))
        .build();
    check_digest(event, summary, invalid_payload, "action_broadcast payload missed action_kind", None)
}

/// The summary of an opened claim window.
pub open spec fn claim_window_opened_summary(payload: JsonModel) -> JsonModel {
    JsonModel::Object(
        no_members()
            .push(("type"@, json_text("claim_window_opened"@)))
            .push(("action_window_id"@, json_opt_uint(payload_number(payload, "action_window_id"@))))
            .push(("source_event_seq"@, json_opt_uint(payload_number(payload, "source_event_seq"@))))
            .push(("source_seat"@, json_opt_text(payload_text(payload, "source_seat"@))))
            .push(("target_tile"@, json_opt_text(payload_text(payload, "target_tile"@))))
            .push(("trigger_action_kind"@, json_opt_text(payload_text(payload, "trigger_action_kind"@))))
            .push(("eligible_seats"@, json_text_list(texts_of(payload_items(payload, "eligible_seats"@)))))
            .push(("options_by_seat"@, JsonModel::Array(payload_items(payload, "options_by_seat"@))))
            .push(("deadline_unix_ms"@, json_opt_uint(payload_number(payload, "deadline_unix_ms"@)))),
    )
}

/// Whether an opened claim window lacks what it has to say.
pub open spec fn claim_window_opened_incomplete(payload: JsonModel) -> bool {
    ||| payload_number(payload, "action_window_id"@) is None
    ||| payload_number(payload, "source_event_seq"@) is None
    ||| payload_text(payload, "source_seat"@) is None
    ||| payload_text(payload, "target_tile"@) is None
}

/// The digest of an opened claim window.
pub open spec fn claim_window_opened_digest(event: MatchEventRecordModel) -> EventDigestModel {
    checked_digest(
        event,
        claim_window_opened_summary(event.event_payload),
        claim_window_opened_incomplete(event.event_payload),
        "claim_window_opened payload missed one or more required fields"@,
        None,
    )
}

fn build_claim_window_opened_summary(event: &MatchEventRecord) -> (r: EventDigest)
    ensures
        r@ == claim_window_opened_digest(event@),
{
    let payload = &event.event_payload;
    let invalid_payload: bool = payload_u64(payload, "action_window_id").is_none() || payload_u64(payload, "source_event_seq").is_none() || payload_string(payload, "source_seat").is_none() || payload_string(payload, "target_tile").is_none();
    let summary = JsonObject::new()
        .with("type", Json::text("claim_window_opened"))
        .with("action_window_id", Json::opt_uint(payload_u64(payload, "action_window_id")))
        .with("source_event_seq", Json::opt_uint(payload_u64(payload, "source_event_seq")))
        .with("source_seat", Json::opt_string(&payload_string(payload, "source_seat")))
        .with("target_tile", Json::opt_string(&payload_string(payload, "target_tile")))
        .with("trigger_action_kind", Json::opt_string(&payload_string(payload, "trigger_action_kind")))
        .with("eligible_seats", Json::text_list(&payload_string_vec(payload, "eligible_seats")))
        .with("options_by_seat", Json::list(payload_array(payload, "options_by_seat")))
        .with("deadline_unix_ms", Json::opt_uint(payload_u64(payload, "deadline_unix_ms")))
        .build();
    check_digest(event, summary, invalid_payload, "claim_window_opened payload missed one or more required fields", None)
}

/// The summary of a settled claim window.
pub open spec fn claim_window_resolved_summary(payload: JsonModel) -> JsonModel {
    JsonModel::Object(
        no_members()
            .push(("type"@, json_text("claim_window_resolved"@)))
            .push(("action_window_id"@, json_opt_uint(payload_number(payload, "action_window_id"@))))
            .push(("source_event_seq"@, json_opt_uint(payload_number(payload, "source_event_seq"@))))
            .push(("source_seat"@, json_opt_text(payload_text(payload, "source_seat"@))))
            .push(("target_tile"@, json_opt_text(payload_text(payload, "target_tile"@))))
            .push(("resolution_kind"@, json_opt_text(payload_text(payload, "resolution_kind"@))))
            .push(("winner_seat"@, json_opt_text(payload_text(payload, "winner_seat"@))))
            .push(("responses"@, JsonModel::Array(payload_items(payload, "responses"@)))),
    )
}

/// Whether a settled claim window lacks what it has to say.
pub open spec fn claim_window_resolved_incomplete(payload: JsonModel) -> bool {
    ||| payload_number(payload, "action_window_id"@) is None
    ||| payload_text(payload, "resolution_kind"@) is None
}

/// The digest of a settled claim window.
pub open spec fn claim_window_resolved_digest(event: MatchEventRecordModel) -> EventDigestModel {
    checked_digest(
        event,
        claim_window_resolved_summary(event.event_payload),
        claim_window_resolved_incomplete(event.event_payload),
        "claim_window_resolved payload missed one or more required fields"@,
        None,
    )
}

fn build_claim_window_resolved_summary(event: &MatchEventRecord) -> (r: EventDigest)
    ensures
        r@ == claim_window_resolved_digest(event@),
{
    let payload = &event.event_payload;
    let invalid_payload: bool = payload_u64(payload, "action_window_id").is_none() || payload_string(payload, "resolution_kind").is_none();
    let summary = JsonObject::new()
        .with("type", Json::text("claim_window_resolved"))
        .with("action_window_id", Json::opt_uint(payload_u64(payload, "action_window_id")))
        .with("source_event_seq", Json::opt_uint(payload_u64(payload, "source_event_seq")))
        .with("source_seat", Json::opt_string(&payload_string(payload, "source_seat")))
        .with("target_tile", Json::opt_string(&payload_string(payload, "target_tile")))
        .with("resolution_kind", Json::opt_string(&payload_string(payload, "resolution_kind")))
        .with("winner_seat", Json::opt_string(&payload_string(payload, "winner_seat")))
        .with("responses", Json::list(payload_array(payload, "responses")))
        .build();
    check_digest(event, summary, invalid_payload, "claim_window_resolved payload missed one or more required fields", None)
}

/// The summary of the settlement of a hand.
pub open spec fn round_settlement_summary(payload: JsonModel) -> JsonModel {
    JsonModel::Object(
        no_members()
            .push(("type"@, json_text("round_settlement"@)))
            .push(("winner_seat"@, json_opt_text(payload_text(payload, "winner_seat"@))))
            .push(("discarder_seat"@, json_opt_text(payload_text(payload, "discarder_seat"@))))
            .push(("win_type"@, json_opt_text(payload_text(payload, "win_type"@))))
            .push(("winning_tile"@, json_opt_text(payload_text(payload, "winning_tile"@))))
            .push(("player_results"@, JsonModel::Array(payload_items(payload, "player_results"@))))
            .push(("fan_details"@, JsonModel::Array(payload_items(payload, "fan_details"@))))
            .push(("settlement_flags"@, json_text_list(texts_of(payload_items(payload, "settlement_flags"@)))))
            .push(("wall_tiles_remaining"@, json_opt_small(payload_small(payload, "wall_tiles_remaining"@))))
            .push(("draw_game"@, JsonModel::Bool(is_draw_game(payload)))),
    )
}

/// Whether a settlement says that nobody won.
pub open spec fn is_draw_game(payload: JsonModel) -> bool {
    texts_of(payload_items(payload, "settlement_flags"@)).contains("SETTLEMENT_FLAG_DRAW_GAME"@)
}

/// Whether a settlement lacks its results.
pub open spec fn round_settlement_incomplete(payload: JsonModel) -> bool {
    !(payload.get("player_results"@) matches Some(value) && value.as_array() is Some)
}

fn contains_text(texts: &Vec<String>, text: &str) -> (r: bool)
    ensures
        r == views(texts@).contains(text@),
{
    let mut i: usize = 0;
    while i < texts.len()
        invariant
            i <= texts.len(),
            forall|j: int| 0 <= j < i ==> #[trigger] views(texts@)[j] != text@,
        decreases texts.len() - i,
    {
        assert(views(texts@)[i as int] == texts@[i as int]@);
        if same_text(texts[i].as_str(), text) {
            return true;
        }
        i = i + 1;
    }
    false
}

fn lacks_array(payload: &Json, key: &str) -> (r: bool)
    ensures
        r == !(payload@.get(key@) matches Some(value) && value.as_array() is Some),
{
    match payload.get(key) {
        Some(value) => value.as_array().is_none(),
        None => true,
    }
}

/// The digest of the settlement of a hand.
pub open spec fn round_settlement_digest(event: MatchEventRecordModel) -> EventDigestModel {
    checked_digest(
        event,
        round_settlement_summary(event.event_payload),
        round_settlement_incomplete(event.event_payload),
        "round_settlement payload missed player_results array"@,
        None,
    )
}

fn build_round_settlement_summary(event: &MatchEventRecord) -> (r: EventDigest)
    ensures
        r@ == round_settlement_digest(event@),
{
    let payload = &event.event_payload;
    let invalid_payload: bool = lacks_array(payload, "player_results");
    let draw_game: bool = contains_text(
        &payload_string_vec(payload, "settlement_flags"),
        "SETTLEMENT_FLAG_DRAW_GAME",
    );
    let summary = JsonObject::new()
        .with("type", Json::text("round_settlement"))
        .with("winner_seat", Json::opt_string(&payload_string(payload, "winner_seat")))
        .with("discarder_seat", Json::opt_string(&payload_string(payload, "discarder_seat")))
        .with("win_type", Json::opt_string(&payload_string(payload, "win_type")))
        .with("winning_tile", Json::opt_string(&payload_string(payload, "winning_tile")))
        .with("player_results", Json::list(payload_array(payload, "player_results")))
        .with("fan_details", Json::list(payload_array(payload, "fan_details")))
        .with("settlement_flags", Json::text_list(&payload_string_vec(payload, "settlement_flags")))
        .with("wall_tiles_remaining", small_json(payload_u32(payload, "wall_tiles_remaining")))
        .with("draw_game", Json::Bool(draw_game))
        .build();
    check_digest(event, summary, invalid_payload, "round_settlement payload missed player_results array", None)
}

/// The object that the settlement of a match wraps its result in.
pub open spec fn final_result_of(payload: JsonModel) -> Option<JsonModel> {
    match payload.get("final_result"@) {
        Some(value) => if value is Object {
            Some(value)
        } else {
            None
        },
        None => None,
    }
}

/// The summary of the settlement of a match: the result, unwrapped.
pub open spec fn match_settlement_summary(payload: JsonModel) -> JsonModel {
    let result = final_result_of(payload);
    JsonModel::Object(
        no_members()
            .push(("type"@, json_text("match_settlement"@)))
            .push((
                "finished_at_unix_ms"@,
                json_opt_uint(
                    match result {
                        Some(result) => payload_number(result, "finished_at_unix_ms"@),
                        None => None,
                    },
                ),
            ))
            .push((
                "standings"@,
                JsonModel::Array(
                    match result {
                        Some(result) => payload_items(result, "standings"@),
                        None => Seq::empty(),
                    },
                ),
            )),
    )
}

/// The digest of the settlement of a match.
pub open spec fn match_settlement_digest(event: MatchEventRecordModel) -> EventDigestModel {
    checked_digest(
        event,
        match_settlement_summary(event.event_payload),
        final_result_of(event.event_payload) is None,
        "match_settlement payload missed final_result object"@,
        None,
    )
}

fn find_final_result(payload: &Json) -> (r: Option<&Json>)
    ensures
        match r {
            Some(value) => final_result_of(payload@) == Some(value@),
            None => final_result_of(payload@) is None,
        },
{
    match payload.get("final_result") {
        Some(value) => match value {
            Json::Object(_) => Some(value),
            _ => None,
        },
        None => None,
    }
}

fn build_match_settlement_summary(event: &MatchEventRecord) -> (r: EventDigest)
    ensures
        r@ == match_settlement_digest(event@),
{
    let final_result = find_final_result(&event.event_payload);
    let invalid_payload: bool = final_result.is_none();
    let finished_at_unix_ms: Option<u64> = match final_result {
        Some(result) => payload_u64(result, "finished_at_unix_ms"),
        None => None,
    };
    let standings: Vec<Json> = match final_result {
        Some(result) => payload_array(result, "standings"),
        None => Vec::new(),
    };
    assert(final_result is None ==> json_items(standings@) =~= Seq::<JsonModel>::empty());
    let summary = JsonObject::new()
        .with("type", Json::text("match_settlement"))
        .with("finished_at_unix_ms", Json::opt_uint(finished_at_unix_ms))
        .with("standings", Json::list(standings))
        .build();
    check_digest(
        event,
        summary,
        invalid_payload,
        "match_settlement payload missed final_result object",
        None,
    )
}

/// The kind of an event.
pub open spec fn replay_kind(event_type: Seq<char>) -> ReplayEventKind {
    if event_type == "round_started"@ {
        ReplayEventKind::RoundStarted
    } else if event_type == "action_broadcast"@ {
        ReplayEventKind::ActionBroadcast
    } else if event_type == "claim_window_opened"@ {
        ReplayEventKind::ClaimWindowOpened
    } else if event_type == "claim_window_resolved"@ {
        ReplayEventKind::ClaimWindowResolved
    } else if event_type == "round_settlement"@ {
        ReplayEventKind::RoundSettlement
    } else if event_type == "match_settlement"@ {
        ReplayEventKind::MatchSettlement
    } else {
        ReplayEventKind::Unknown
    }
}

pub fn map_replay_event_kind(event_type: &str) -> (r: ReplayEventKind)
    ensures
        r == replay_kind(event_type@),
{
    if same_text(event_type, "round_started") {
        ReplayEventKind::RoundStarted
    } else if same_text(event_type, "action_broadcast") {
        ReplayEventKind::ActionBroadcast
    } else if same_text(event_type, "claim_window_opened") {
        ReplayEventKind::ClaimWindowOpened
    } else if same_text(event_type, "claim_window_resolved") {
        ReplayEventKind::ClaimWindowResolved
    } else if same_text(event_type, "round_settlement") {
        ReplayEventKind::RoundSettlement
    } else if same_text(event_type, "match_settlement") {
        ReplayEventKind::MatchSettlement
    } else {
        ReplayEventKind::Unknown
    }
}

/// The digest of an event of an unknown kind.
pub open spec fn unknown_digest(event: MatchEventRecordModel) -> EventDigestModel {
    EventDigestModel {
        summary: JsonModel::Object(
            no_members()
                .push(("type"@, json_text("unknown"@)))
                .push(("reason"@, json_text("unsupported event_type: "@ + event.event_type))),
        ),
        invalid_payload: false,
        warning: Some(
            warning_on(event, "unknown event_type was preserved as raw replay entry"@),
        ),
        round_metadata: None,
    }
}

/// The digest of an event.
pub open spec fn digest_of(event: MatchEventRecordModel) -> EventDigestModel {
    match replay_kind(event.event_type) {
        ReplayEventKind::RoundStarted => round_started_digest(event),
        ReplayEventKind::ActionBroadcast => action_broadcast_digest(event),
        ReplayEventKind::ClaimWindowOpened => claim_window_opened_digest(event),
        ReplayEventKind::ClaimWindowResolved => claim_window_resolved_digest(event),
        ReplayEventKind::RoundSettlement => round_settlement_digest(event),
        ReplayEventKind::MatchSettlement => match_settlement_digest(event),
        ReplayEventKind::Unknown => unknown_digest(event),
    }
}

fn build_unknown_summary(event: &MatchEventRecord) -> (r: EventDigest)
    ensures
        r@ == unknown_digest(event@),
{
    let reason = concat("unsupported event_type: ", event.event_type.as_str());
    EventDigest {
        summary: JsonObject::new()
            .with("type", Json::text("unknown"))
            .with("reason", Json::text(reason.as_str()))
            .build(),
        invalid_payload: false,
        warning: Some(warn(event, "unknown event_type was preserved as raw replay entry")),
        round_metadata: None,
    }
}

/// Digests an event.
pub fn build_replay_summary(event: &MatchEventRecord) -> (r: EventDigest)
    ensures
        r@ == digest_of(event@),
{
    match map_replay_event_kind(event.event_type.as_str()) {
        ReplayEventKind::RoundStarted => build_round_started_summary(event),
        ReplayEventKind::ActionBroadcast => build_action_broadcast_summary(event),
        ReplayEventKind::ClaimWindowOpened => build_claim_window_opened_summary(event),
        ReplayEventKind::ClaimWindowResolved => build_claim_window_resolved_summary(event),
        ReplayEventKind::RoundSettlement => build_round_settlement_summary(event),
        ReplayEventKind::MatchSettlement => build_match_settlement_summary(event),
        ReplayEventKind::Unknown => build_unknown_summary(event),
    }
}

} // verus!
