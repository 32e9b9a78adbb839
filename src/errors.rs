//! The web API's error kinds, each with a fixed status and a stable code.
use vstd::prelude::*;

verus! {

/// A field that failed validation, and why.
#[derive(Clone, Debug)]
pub struct ValidationError {
    pub field: String,
    pub msg: String,
}

#[derive(Clone, Debug)]
pub enum ApiErrorResponse {
    BadCsrfToken,
    SessionExpired,
    ValidationFailed(Vec<ValidationError>),
    InternalError,
    NoActiveGuild,
    NotGuildAdmin,
    PluginNotFound,
    NoAccessToPlugin,
    UserPluginLimitReached,
    GuildAlreadyHasPlugin,
    ScriptNotAPlugin,
    NotBlAdmin,
}

pub const BAD_REQUEST: u16 = 400;
pub const FORBIDDEN: u16 = 403;
pub const INTERNAL_SERVER_ERROR: u16 = 500;

/// The HTTP status of an error.
pub open spec fn status_of(e: ApiErrorResponse) -> u16 {
    match e {
        ApiErrorResponse::InternalError => INTERNAL_SERVER_ERROR,
        ApiErrorResponse::NotGuildAdmin | ApiErrorResponse::NoAccessToPlugin
        | ApiErrorResponse::NotBlAdmin => FORBIDDEN,
        _ => BAD_REQUEST,
    }
}

/// The stable code of an error, which clients branch on.
pub open spec fn code_of(e: ApiErrorResponse) -> u32 {
    match e {
        ApiErrorResponse::SessionExpired => 1,
        ApiErrorResponse::BadCsrfToken => 2,
        ApiErrorResponse::InternalError => 3,
        ApiErrorResponse::ValidationFailed(_) => 4,
        ApiErrorResponse::NoActiveGuild => 5,
        ApiErrorResponse::NotGuildAdmin => 6,
        ApiErrorResponse::NoAccessToPlugin => 7,
        ApiErrorResponse::UserPluginLimitReached => 8,
        ApiErrorResponse::PluginNotFound => 9,
        ApiErrorResponse::GuildAlreadyHasPlugin => 10,
        ApiErrorResponse::ScriptNotAPlugin => 11,
        ApiErrorResponse::NotBlAdmin => 12,
    }
}

/// The human-readable message of an error; it may change between releases.
pub open spec fn message_of(e: ApiErrorResponse) -> Seq<char> {
    match e {
        ApiErrorResponse::BadCsrfToken => "csrf token expired"@,
        ApiErrorResponse::SessionExpired => "Session expired"@,
        ApiErrorResponse::ValidationFailed(_) => "validation failed"@,
        ApiErrorResponse::InternalError => "internal server error"@,
        ApiErrorResponse::NoActiveGuild => "no active guild"@,
        ApiErrorResponse::NotGuildAdmin => "not guild admin"@,
        ApiErrorResponse::PluginNotFound => "Plugin does not exist"@,
        ApiErrorResponse::NoAccessToPlugin => "you do not have access to this plugin"@,
        ApiErrorResponse::UserPluginLimitReached => "you have created too many plugins"@,
        ApiErrorResponse::GuildAlreadyHasPlugin => "guild already has this plugin"@,
        ApiErrorResponse::ScriptNotAPlugin => "Script is not a plugin"@,
        ApiErrorResponse::NotBlAdmin => "You're not an botloader admin"@,
    }
}

impl ApiErrorResponse {
    /// The status, the stable code, and the structured detail that only a
    /// validation failure has.
    pub fn public_desc(&self) -> (r: (u16, u32, Option<&Vec<ValidationError>>))
        ensures
            r.0 == status_of(*self),
            r.1 == code_of(*self),
            match *self {
                ApiErrorResponse::ValidationFailed(v) => r.2 == Some(&v),
                _ => r.2 is None,
            },
    {
        match self {
            ApiErrorResponse::SessionExpired => (BAD_REQUEST, 1, None),
            ApiErrorResponse::BadCsrfToken => (BAD_REQUEST, 2, None),
            ApiErrorResponse::InternalError => (INTERNAL_SERVER_ERROR, 3, None),
            ApiErrorResponse::ValidationFailed(v) => (BAD_REQUEST, 4, Some(v)),
            ApiErrorResponse::NoActiveGuild => (BAD_REQUEST, 5, None),
            ApiErrorResponse::NotGuildAdmin => (FORBIDDEN, 6, None),
            ApiErrorResponse::NoAccessToPlugin => (FORBIDDEN, 7, None),
            ApiErrorResponse::UserPluginLimitReached => (BAD_REQUEST, 8, None),
            ApiErrorResponse::PluginNotFound => (BAD_REQUEST, 9, None),
            ApiErrorResponse::GuildAlreadyHasPlugin => (BAD_REQUEST, 10, None),
            ApiErrorResponse::ScriptNotAPlugin => (BAD_REQUEST, 11, None),
            ApiErrorResponse::NotBlAdmin => (FORBIDDEN, 12, None),
        }
    }

    /// The error's message.
    pub fn message(&self) -> (r: &'static str)
        ensures
            r@ == message_of(*self),
    {
        match self {
            ApiErrorResponse::BadCsrfToken => "csrf token expired",
            ApiErrorResponse::SessionExpired => "Session expired",
            ApiErrorResponse::ValidationFailed(_) => "validation failed",
            ApiErrorResponse::InternalError => "internal server error",
            ApiErrorResponse::NoActiveGuild => "no active guild",
            ApiErrorResponse::NotGuildAdmin => "not guild admin",
            ApiErrorResponse::PluginNotFound => "Plugin does not exist",
            ApiErrorResponse::NoAccessToPlugin => "you do not have access to this plugin",
            ApiErrorResponse::UserPluginLimitReached => "you have created too many plugins",
            ApiErrorResponse::GuildAlreadyHasPlugin => "guild already has this plugin",
            ApiErrorResponse::ScriptNotAPlugin => "Script is not a plugin",
            ApiErrorResponse::NotBlAdmin => "You're not an botloader admin",
        }
    }
}

} // verus!
