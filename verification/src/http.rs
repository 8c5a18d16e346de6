//! What the HTTP gateway takes and gives.

use vstd::prelude::*;

use crate::auth::{AuthError, AuthErrorModel, AuthenticatedUser};
use crate::lobby::types::{LobbyError, LobbyErrorModel};

verus! {

/// An error as a client of the gateway sees it.
#[derive(Debug, PartialEq, Eq)]
pub enum ApiError {
    Unauthorized(String),
    Forbidden(String),
    NotFound(String),
    Conflict(String),
    BadRequest(String),
    Internal(String),
}

/// The contents of an [`ApiError`].
#[verifier::ext_equal]
pub enum ApiErrorModel {
    Unauthorized(Seq<char>),
    Forbidden(Seq<char>),
    NotFound(Seq<char>),
    Conflict(Seq<char>),
    BadRequest(Seq<char>),
    Internal(Seq<char>),
}

impl View for ApiError {
    type V = ApiErrorModel;

    open spec fn view(&self) -> ApiErrorModel {
        match self {
            ApiError::Unauthorized(message) => ApiErrorModel::Unauthorized(message@),
            ApiError::Forbidden(message) => ApiErrorModel::Forbidden(message@),
            ApiError::NotFound(message) => ApiErrorModel::NotFound(message@),
            ApiError::Conflict(message) => ApiErrorModel::Conflict(message@),
            ApiError::BadRequest(message) => ApiErrorModel::BadRequest(message@),
            ApiError::Internal(message) => ApiErrorModel::Internal(message@),
        }
    }
}

/// The parts of the answer to a request that failed.
#[derive(Debug, PartialEq, Eq)]
pub struct ErrorReply {
    pub status: u16,
    pub code: String,
    pub message: String,
}

impl ApiErrorModel {
    /// The status of the answer.
    pub open spec fn status(self) -> u16 {
        match self {
            ApiErrorModel::Unauthorized(_) => 401,
            ApiErrorModel::Forbidden(_) => 403,
            ApiErrorModel::NotFound(_) => 404,
            ApiErrorModel::Conflict(_) => 409,
            ApiErrorModel::BadRequest(_) => 400,
            ApiErrorModel::Internal(_) => 500,
        }
    }

    /// The word that stands for the error.
    pub open spec fn code(self) -> Seq<char> {
        match self {
            ApiErrorModel::Unauthorized(_) => "unauthorized"@,
            ApiErrorModel::Forbidden(_) => "forbidden"@,
            ApiErrorModel::NotFound(_) => "not_found"@,
            ApiErrorModel::Conflict(_) => "conflict"@,
            ApiErrorModel::BadRequest(_) => "bad_request"@,
            ApiErrorModel::Internal(_) => "internal_error"@,
        }
    }

    /// What the error says.
    pub open spec fn message(self) -> Seq<char> {
        match self {
            ApiErrorModel::Unauthorized(message) => message,
            ApiErrorModel::Forbidden(message) => message,
            ApiErrorModel::NotFound(message) => message,
            ApiErrorModel::Conflict(message) => message,
            ApiErrorModel::BadRequest(message) => message,
            ApiErrorModel::Internal(message) => message,
        }
    }
}

impl ApiError {
    /// The answer that tells a client of the error.
    pub fn into_reply(self) -> (r: ErrorReply)
        ensures
            r.status == self@.status(),
            r.code@ == self@.code(),
            r.message@ == self@.message(),
    {
        match self {
            ApiError::Unauthorized(message) => ErrorReply {
                status: 401,
                code: String::from_str("unauthorized"),
                message,
            },
            ApiError::Forbidden(message) => ErrorReply {
                status: 403,
                code: String::from_str("forbidden"),
                message,
            },
            ApiError::NotFound(message) => ErrorReply {
                status: 404,
                code: String::from_str("not_found"),
                message,
            },
            ApiError::Conflict(message) => ErrorReply {
                status: 409,
                code: String::from_str("conflict"),
                message,
            },
            ApiError::BadRequest(message) => ErrorReply {
                status: 400,
                code: String::from_str("bad_request"),
                message,
            },
            ApiError::Internal(message) => ErrorReply {
                status: 500,
                code: String::from_str("internal_error"),
                message,
            },
        }
    }
}

/// A request to register a guest.
#[derive(Debug, PartialEq, Eq)]
pub struct GuestRegisterRequest {
    pub display_name: String,
}

/// A request to join a room.
#[derive(Debug, PartialEq, Eq)]
pub struct JoinRoomHttpRequest {
    pub room_code: String,
}

/// A request to make a member go.
#[derive(Debug, PartialEq, Eq)]
pub struct KickRoomMemberRequest {
    pub target_user_id: String,
}

/// Who is asking.
#[derive(Debug, PartialEq, Eq)]
pub struct MeResponse {
    pub user_id: String,
    pub display_name: String,
    pub auth_provider: String,
}

impl MeResponse {
    /// What a user is told about themselves.
    pub fn of(user: AuthenticatedUser) -> (r: MeResponse)
        ensures
            r.user_id@ == user@.user_id,
            r.display_name@ == user@.display_name,
            r.auth_provider@ == user@.auth_provider,
    {
        MeResponse {
            user_id: user.user_id,
            display_name: user.display_name,
            auth_provider: user.auth_provider,
        }
    }
}

/// What a client is told of a failed authentication.
pub open spec fn auth_error_told(error: AuthErrorModel) -> ApiErrorModel {
    match error {
        AuthErrorModel::MissingAuthorization => ApiErrorModel::Unauthorized(
            "missing or invalid authorization header"@,
        ),
        AuthErrorModel::InvalidAuthorization => ApiErrorModel::Unauthorized(
            "missing or invalid authorization header"@,
        ),
        AuthErrorModel::InvalidDisplayName => ApiErrorModel::BadRequest(
            "display_name must be between 1 and 32 characters"@,
        ),
        AuthErrorModel::InvalidSession => ApiErrorModel::Unauthorized(
            "session is invalid or expired"@,
        ),
        AuthErrorModel::Storage(message) => ApiErrorModel::Internal(message),
    }
}

pub fn map_auth_error(error: AuthError) -> (r: ApiError)
    ensures
        r@ == auth_error_told(error@),
{
    match error {
        AuthError::MissingAuthorization | AuthError::InvalidAuthorization => ApiError::Unauthorized(
            String::from_str("missing or invalid authorization header"),
        ),
        AuthError::InvalidDisplayName => ApiError::BadRequest(
            String::from_str("display_name must be between 1 and 32 characters"),
        ),
        AuthError::InvalidSession => ApiError::Unauthorized(
            String::from_str("session is invalid or expired"),
        ),
        AuthError::Storage(message) => ApiError::Internal(message),
    }
}

/// What a client is told of a request that the lobby refused.
pub open spec fn lobby_error_told(error: LobbyErrorModel) -> ApiErrorModel {
    match error {
        LobbyErrorModel::AlreadyInRoom => ApiErrorModel::Conflict(
            "user is already in another room"@,
        ),
        LobbyErrorModel::RoomNotFound => ApiErrorModel::NotFound("room was not found"@),
        LobbyErrorModel::InvalidRoomCode => ApiErrorModel::NotFound("room was not found"@),
        LobbyErrorModel::RoomFull => ApiErrorModel::Conflict("room is already full"@),
        LobbyErrorModel::RoomAlreadyActive => ApiErrorModel::Conflict(
            "room has already started and no longer accepts lobby mutations"@,
        ),
        LobbyErrorModel::NotRoomOwner => ApiErrorModel::Forbidden(
            "only the room owner may perform this action"@,
        ),
        LobbyErrorModel::CannotKickSelf => ApiErrorModel::Conflict(
            "room owner cannot kick themselves"@,
        ),
        LobbyErrorModel::NotRoomMember => ApiErrorModel::Forbidden(
            "user is not a member of this room"@,
        ),
        LobbyErrorModel::Storage(message) => ApiErrorModel::Internal(message),
    }
}

pub fn map_lobby_error(error: LobbyError) -> (r: ApiError)
    ensures
        r@ == lobby_error_told(error@),
{
    match error {
        LobbyError::AlreadyInRoom => ApiError::Conflict(
            String::from_str("user is already in another room"),
        ),
        LobbyError::RoomNotFound | LobbyError::InvalidRoomCode => ApiError::NotFound(
            String::from_str("room was not found"),
        ),
        LobbyError::RoomFull => ApiError::Conflict(String::from_str("room is already full")),
        LobbyError::RoomAlreadyActive => ApiError::Conflict(
            String::from_str("room has already started and no longer accepts lobby mutations"),
        ),
        LobbyError::NotRoomOwner => ApiError::Forbidden(
            String::from_str("only the room owner may perform this action"),
        ),
        LobbyError::CannotKickSelf => ApiError::Conflict(
            String::from_str("room owner cannot kick themselves"),
        ),
        LobbyError::NotRoomMember => ApiError::Forbidden(
            String::from_str("user is not a member of this room"),
        ),
        LobbyError::Storage(message) => ApiError::Internal(message),
    }
}

/// A failed authentication is answered with 401, except that an unusable name is a bad request and a
/// failure of the storage is the server's fault.
pub proof fn law_failed_authentication_is_answered(error: AuthErrorModel)
    ensures
        auth_error_told(error).status() == 500 <==> error is Storage,
        auth_error_told(error).status() == 400 <==> error is InvalidDisplayName,
        auth_error_told(error).status() == 401 <==> error is MissingAuthorization
            || error is InvalidAuthorization || error is InvalidSession,
        error matches AuthErrorModel::Storage(message) ==> auth_error_told(error).message()
            == message,
{
}

/// What the lobby refuses is answered with the kind of the refusal: 404 where there is no such room,
/// 403 where the user has no say in it, 409 where the room is not in the state for it, and 500 where
/// the storage failed. A wrong code is answered like a room that is not there.
pub proof fn law_refusals_are_answered(error: LobbyErrorModel)
    ensures
        lobby_error_told(error).status() == 500 <==> error is Storage,
        lobby_error_told(error).status() == 404 <==> error is RoomNotFound
            || error is InvalidRoomCode,
        lobby_error_told(error).status() == 403 <==> error is NotRoomOwner || error is NotRoomMember,
        lobby_error_told(error).status() == 409 <==> error is AlreadyInRoom || error is RoomFull
            || error is RoomAlreadyActive || error is CannotKickSelf,
        lobby_error_told(LobbyErrorModel::InvalidRoomCode) == lobby_error_told(
            LobbyErrorModel::RoomNotFound,
        ),
        error matches LobbyErrorModel::Storage(message) ==> lobby_error_told(error).message()
            == message,
{
}

/// Two errors of different kinds have different statuses and different words.
pub proof fn law_answers_tell_errors_apart(a: ApiErrorModel, b: ApiErrorModel)
    ensures
        a.status() == b.status() <==> a.code() == b.code(),
        a.code() == b.code() && a.message() == b.message() ==> a == b,
{
    reveal_strlit("unauthorized");
    reveal_strlit("forbidden");
    reveal_strlit("not_found");
    reveal_strlit("conflict");
    reveal_strlit("bad_request");
    reveal_strlit("internal_error");
    assert("forbidden"@[0] == 'f');
    assert("not_found"@[0] == 'n');
    assert("unauthorized"@.len() == 12);
    assert("forbidden"@.len() == 9);
    assert("not_found"@.len() == 9);
    assert("conflict"@.len() == 8);
    assert("bad_request"@.len() == 11);
    assert("internal_error"@.len() == 14);
}

} // verus!
