use runtime_models::member::{
    role_ids_to_strings, CachedMember, GatewayMember, Member, MemberUpdate, PartialMember,
    PartialMemberPayload, Timestamp, User,
};

const JOINED_MICROS: u64 = 1_700_000_000_123_456;
const JOINED_MILLIS: u64 = 1_700_000_000_123;

fn user() -> User {
    User {
        id: "42".to_string(),
        username: "someone".to_string(),
        discriminator: "0001".to_string(),
        avatar: None,
        bot: false,
    }
}

fn ts(micros: u64) -> Timestamp {
    Timestamp { micros }
}

fn partial_payload() -> PartialMemberPayload {
    PartialMemberPayload {
        deaf: true,
        joined_at: ts(JOINED_MICROS),
        mute: false,
        nick: Some("nick".to_string()),
        premium_since: Some(ts(1_999)),
        roles: vec![123, 7],
        user: Some(user()),
    }
}

#[test]
fn full_member_conversion() {
    let m = Member::from_member(GatewayMember {
        deaf: true,
        joined_at: ts(JOINED_MICROS),
        mute: true,
        nick: None,
        pending: true,
        premium_since: None,
        roles: vec![9_007_199_254_740_993],
        user: user(),
    });
    assert_eq!(m.joined_at, JOINED_MILLIS);
    assert!(m.deaf && m.mute && m.pending);
    assert_eq!(m.premium_since, None);
    assert_eq!(m.roles, vec!["9007199254740993".to_string()]);
    assert_eq!(m.user.id, "42");
}

#[test]
fn cached_member_conversion() {
    let m = Member::from_cache(
        user(),
        CachedMember {
            deaf: None,
            joined_at: ts(JOINED_MICROS),
            mute: Some(true),
            nick: Some("n".to_string()),
            premium_since: Some(ts(2_500_999)),
            roles: vec![],
        },
    );
    assert_eq!(m.joined_at, JOINED_MILLIS);
    assert!(!m.deaf);
    assert!(m.mute);
    assert!(!m.pending);
    assert_eq!(m.premium_since, Some(2_500));
    assert_eq!(m.nick, Some("n".to_string()));
}

#[test]
fn partial_member_conversion() {
    let m = Member::from_partial(partial_payload());
    assert_eq!(m.joined_at, JOINED_MILLIS);
    assert!(m.deaf);
    assert!(!m.mute);
    assert!(!m.pending);
    assert_eq!(m.premium_since, Some(1));
    assert_eq!(m.roles, vec!["123".to_string(), "7".to_string()]);
    assert_eq!(m.user.username, "someone");
}

#[test]
fn update_conversion_passes_pending_through() {
    let update = |pending| MemberUpdate {
        deaf: None,
        joined_at: ts(JOINED_MICROS),
        mute: None,
        nick: None,
        pending,
        premium_since: None,
        roles: vec![0],
        user: user(),
    };
    let m = Member::from_update(update(true));
    assert!(m.pending);
    assert!(!m.deaf && !m.mute);
    assert_eq!(m.joined_at, JOINED_MILLIS);
    assert_eq!(m.roles, vec!["0".to_string()]);
    assert!(!Member::from_update(update(false)).pending);
}

#[test]
fn partial_snapshot_conversion() {
    let p = PartialMember::from_partial(partial_payload());
    assert_eq!(p.joined_at, JOINED_MILLIS);
    assert!(p.deaf);
    assert_eq!(p.nick, Some("nick".to_string()));
    assert_eq!(p.roles, vec!["123".to_string(), "7".to_string()]);
}

#[test]
fn millis_round_down() {
    assert_eq!(ts(999).as_millis(), 0);
    assert_eq!(ts(1_000).as_millis(), 1);
    assert_eq!(ts(u64::MAX).as_millis(), u64::MAX / 1000);
}

#[test]
fn role_ids_are_written_in_base_ten() {
    assert_eq!(
        role_ids_to_strings(&vec![10, 305, u64::MAX]),
        vec!["10".to_string(), "305".to_string(), "18446744073709551615".to_string()]
    );
}
