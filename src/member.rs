//! Canonical member snapshots, built from each shape in which the platform
//! hands a member over.
use vstd::prelude::*;
use crate::script::opt_view;

verus! {

/// A platform timestamp, in microseconds since the Unix epoch.
#[derive(Clone, Copy, Debug, PartialEq, Eq, Structural)]
pub struct Timestamp {
    pub micros: u64,
}

/// Milliseconds since the epoch of a timestamp, rounded down.
pub open spec fn millis_of(t: Timestamp) -> u64 {
    t.micros / 1000
}

pub open spec fn opt_millis(t: Option<Timestamp>) -> Option<u64> {
    match t {
        Some(v) => Some(millis_of(v)),
        None => None,
    }
}

impl Timestamp {
    pub fn as_millis(&self) -> (r: u64)
        ensures
            r == millis_of(*self),
    {
        self.micros / 1000
    }
}

fn opt_as_millis(t: &Option<Timestamp>) -> (r: Option<u64>)
    ensures
        r == opt_millis(*t),
{
    match t {
        Some(v) => Some(v.as_millis()),
        None => None,
    }
}

pub open spec fn digit_char(d: nat) -> char {
    if d == 0 { '0' }
    else if d == 1 { '1' }
    else if d == 2 { '2' }
    else if d == 3 { '3' }
    else if d == 4 { '4' }
    else if d == 5 { '5' }
    else if d == 6 { '6' }
    else if d == 7 { '7' }
    else if d == 8 { '8' }
    else { '9' }
}

/// The base-10 digits of `n`, most significant first, without leading zeros.
pub open spec fn decimal_digits(n: nat) -> Seq<char>
    decreases n,
{
    if n < 10 {
        seq![digit_char(n)]
    } else {
        decimal_digits(n / 10).push(digit_char(n % 10))
    }
}

/// Relies on `ToString` through `u64`'s `Display`, which writes the number in
/// base 10 with no sign, padding or leading zero.
#[verifier::external_body]
fn decimal_string(n: u64) -> (r: String)
    ensures
        r@ == decimal_digits(n as nat),
{
    n.to_string()
}

/// `out` holds each role id written in base 10, in order.
pub open spec fn role_strings(out: Seq<String>, ids: Seq<u64>) -> bool {
    out.len() == ids.len() && forall|i: int| 0 <= i < ids.len() ==> (#[trigger] out[i])@ == decimal_digits(ids[i] as nat)
}

/// Writes each role id in base 10, keeping their order.
pub fn role_ids_to_strings(ids: &Vec<u64>) -> (r: Vec<String>)
    ensures
        role_strings(r@, ids@),
{
    let mut out: Vec<String> = Vec::new();
    let mut i: usize = 0;
    while i < ids.len()
        invariant
            i <= ids@.len(),
            out@.len() == i,
            forall|k: int| 0 <= k < i ==> (#[trigger] out@[k])@ == decimal_digits(ids@[k] as nat),
        decreases ids@.len() - i,
    {
        out.push(decimal_string(ids[i]));
        i = i + 1;
    }
    out
}

/// A user as scripts see it.
#[derive(Clone, Debug)]
pub struct User {
    pub id: String,
    pub username: String,
    pub discriminator: String,
    pub avatar: Option<String>,
    pub bot: bool,
}

/// A member as the gateway sends it in full.
#[derive(Clone, Debug)]
pub struct GatewayMember {
    pub deaf: bool,
    pub joined_at: Timestamp,
    pub mute: bool,
    pub nick: Option<String>,
    pub pending: bool,
    pub premium_since: Option<Timestamp>,
    pub roles: Vec<u64>,
    pub user: User,
}

/// A member as the in-memory cache holds it; the cache may lack the voice
/// flags and does not track the pending state.
#[derive(Clone, Debug)]
pub struct CachedMember {
    pub deaf: Option<bool>,
    pub joined_at: Timestamp,
    pub mute: Option<bool>,
    pub nick: Option<String>,
    pub premium_since: Option<Timestamp>,
    pub roles: Vec<u64>,
}

/// A member as a partial payload carries it, with no pending state.
#[derive(Clone, Debug)]
pub struct PartialMemberPayload {
    pub deaf: bool,
    pub joined_at: Timestamp,
    pub mute: bool,
    pub nick: Option<String>,
    pub premium_since: Option<Timestamp>,
    pub roles: Vec<u64>,
    pub user: Option<User>,
}

/// A member update event; omitted voice flags are read as off.
#[derive(Clone, Debug)]
pub struct MemberUpdate {
    pub deaf: Option<bool>,
    pub joined_at: Timestamp,
    pub mute: Option<bool>,
    pub nick: Option<String>,
    pub pending: bool,
    pub premium_since: Option<Timestamp>,
    pub roles: Vec<u64>,
    pub user: User,
}

/// The canonical member snapshot; timestamps are milliseconds since the epoch.
#[derive(Clone, Debug)]
pub struct Member {
    pub deaf: bool,
    pub joined_at: u64,
    pub mute: bool,
    pub nick: Option<String>,
    pub pending: bool,
    pub premium_since: Option<u64>,
    pub roles: Vec<String>,
    pub user: User,
}

/// A member snapshot without user and pending state.
#[derive(Clone, Debug)]
pub struct PartialMember {
    pub deaf: bool,
    pub joined_at: u64,
    pub mute: bool,
    pub nick: Option<String>,
    pub premium_since: Option<u64>,
    pub roles: Vec<String>,
}

/// `m` carries the fields that every source shape supplies, normalized.
pub open spec fn carries(
    m: Member,
    joined_at: Timestamp,
    nick: Option<String>,
    premium_since: Option<Timestamp>,
    roles: Seq<u64>,
) -> bool {
    &&& m.joined_at == millis_of(joined_at)
    &&& opt_view(m.nick) == opt_view(nick)
    &&& m.premium_since == opt_millis(premium_since)
    &&& role_strings(m.roles@, roles)
}

pub open spec fn flag_or_off(b: Option<bool>) -> bool {
    match b {
        Some(v) => v,
        None => false,
    }
}

fn unwrap_flag(b: Option<bool>) -> (r: bool)
    ensures
        r == flag_or_off(b),
{
    match b {
        Some(v) => v,
        None => false,
    }
}

impl Member {
    /// Snapshot of a full gateway member: every field is present.
    pub fn from_member(v: GatewayMember) -> (r: Member)
        ensures
            carries(r, v.joined_at, v.nick, v.premium_since, v.roles@),
            r.deaf == v.deaf,
            r.mute == v.mute,
            r.pending == v.pending,
            r.user == v.user,
    {
        let roles = role_ids_to_strings(&v.roles);
        Member {
            deaf: v.deaf,
            joined_at: v.joined_at.as_millis(),
            mute: v.mute,
            nick: v.nick,
            pending: v.pending,
            premium_since: opt_as_millis(&v.premium_since),
            roles,
            user: v.user,
        }
    }

    /// Snapshot of a cached member: absent voice flags read as off, and the
    /// cache does not track pending members.
    pub fn from_cache(user: User, member: CachedMember) -> (r: Member)
        ensures
            carries(r, member.joined_at, member.nick, member.premium_since, member.roles@),
            r.deaf == flag_or_off(member.deaf),
            r.mute == flag_or_off(member.mute),
            !r.pending,
            r.user == user,
    {
        let roles = role_ids_to_strings(&member.roles);
        Member {
            user,
            deaf: unwrap_flag(member.deaf),
            joined_at: member.joined_at.as_millis(),
            mute: unwrap_flag(member.mute),
            nick: member.nick,
            premium_since: opt_as_millis(&member.premium_since),
            roles,
            pending: false,
        }
    }

    /// Snapshot of a partial payload, which must carry its user. Members in
    /// such payloads are taken not to be pending.
    pub fn from_partial(partial: PartialMemberPayload) -> (r: Member)
        requires
            partial.user is Some,
        ensures
            carries(r, partial.joined_at, partial.nick, partial.premium_since, partial.roles@),
            r.deaf == partial.deaf,
            r.mute == partial.mute,
            !r.pending,
            Some(r.user) == partial.user,
    {
        let roles = role_ids_to_strings(&partial.roles);
        let user = partial.user.unwrap();
        Member {
            joined_at: partial.joined_at.as_millis(),
            nick: partial.nick,
            premium_since: opt_as_millis(&partial.premium_since),
            roles,
            user,
            deaf: partial.deaf,
            mute: partial.mute,
            pending: false,
        }
    }

    /// Snapshot of a member update: omitted voice flags read as off, and the
    /// pending state is passed through.
    pub fn from_update(v: MemberUpdate) -> (r: Member)
        ensures
            carries(r, v.joined_at, v.nick, v.premium_since, v.roles@),
            r.deaf == flag_or_off(v.deaf),
            r.mute == flag_or_off(v.mute),
            r.pending == v.pending,
            r.user == v.user,
    {
        let roles = role_ids_to_strings(&v.roles);
        Member {
            deaf: unwrap_flag(v.deaf),
            joined_at: v.joined_at.as_millis(),
            mute: unwrap_flag(v.mute),
            nick: v.nick,
            pending: v.pending,
            premium_since: opt_as_millis(&v.premium_since),
            roles,
            user: v.user,
        }
    }
}

impl PartialMember {
    /// The member fields of a partial payload, normalized.
    pub fn from_partial(v: PartialMemberPayload) -> (r: PartialMember)
        ensures
            r.deaf == v.deaf,
            r.joined_at == millis_of(v.joined_at),
            r.mute == v.mute,
            opt_view(r.nick) == opt_view(v.nick),
            r.premium_since == opt_millis(v.premium_since),
            role_strings(r.roles@, v.roles@),
    {
        let roles = role_ids_to_strings(&v.roles);
        PartialMember {
            deaf: v.deaf,
            joined_at: v.joined_at.as_millis(),
            mute: v.mute,
            nick: v.nick,
            premium_since: opt_as_millis(&v.premium_since),
            roles,
        }
    }
}

} // verus!
