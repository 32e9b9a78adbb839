use runtime_models::errors::{ApiErrorResponse, ValidationError};

#[test]
fn error_table() {
    let cases = vec![
        (ApiErrorResponse::SessionExpired, 400, 1, "Session expired"),
        (ApiErrorResponse::BadCsrfToken, 400, 2, "csrf token expired"),
        (ApiErrorResponse::InternalError, 500, 3, "internal server error"),
        (ApiErrorResponse::NoActiveGuild, 400, 5, "no active guild"),
        (ApiErrorResponse::NotGuildAdmin, 403, 6, "not guild admin"),
        (ApiErrorResponse::NoAccessToPlugin, 403, 7, "you do not have access to this plugin"),
        (ApiErrorResponse::UserPluginLimitReached, 400, 8, "you have created too many plugins"),
        (ApiErrorResponse::PluginNotFound, 400, 9, "Plugin does not exist"),
        (ApiErrorResponse::GuildAlreadyHasPlugin, 400, 10, "guild already has this plugin"),
        (ApiErrorResponse::ScriptNotAPlugin, 400, 11, "Script is not a plugin"),
        (ApiErrorResponse::NotBlAdmin, 403, 12, "You're not an botloader admin"),
    ];
    for (e, status, code, msg) in cases {
        let (s, c, extra) = e.public_desc();
        assert_eq!((s, c), (status, code));
        assert!(extra.is_none());
        assert_eq!(e.message(), msg);
    }
}

#[test]
fn validation_failure_carries_details() {
    let e = ApiErrorResponse::ValidationFailed(vec![ValidationError {
        field: "name".to_string(),
        msg: "too long".to_string(),
    }]);
    let (s, c, extra) = e.public_desc();
    assert_eq!((s, c), (400, 4));
    let extra = extra.unwrap();
    assert_eq!(extra.len(), 1);
    assert_eq!(extra[0].field, "name");
    assert_eq!(e.message(), "validation failed");
}
