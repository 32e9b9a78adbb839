//! Projection of options into the platform's option variants.
use vstd::prelude::*;
use crate::script::{ChannelType, CommandOption, CommandOptionType};

verus! {

/// Name, description and required flag shared by every value option.
#[derive(Clone, Debug)]
pub struct BaseOptionData {
    pub name: String,
    pub description: String,
    pub required: bool,
}

/// An option in the platform's registration schema.
#[derive(Clone, Debug)]
pub enum ExternalOption {
    String(BaseOptionData),
    Integer { base: BaseOptionData, min_value: Option<i64>, max_value: Option<i64> },
    Boolean(BaseOptionData),
    User(BaseOptionData),
    /// `channel_types` holds the platform's channel type codes; empty means unrestricted.
    Channel { base: BaseOptionData, channel_types: Vec<u8> },
    Role(BaseOptionData),
    Mentionable(BaseOptionData),
    /// Bounds are float bit patterns, passed through unchanged.
    Number { base: BaseOptionData, min_value: Option<u64>, max_value: Option<u64> },
}

/// The platform's code for a channel type.
pub open spec fn channel_code(t: ChannelType) -> u8 {
    match t {
        ChannelType::Text => 0,
        ChannelType::Private => 1,
        ChannelType::Voice => 2,
        ChannelType::Group => 3,
        ChannelType::Category => 4,
        ChannelType::News => 5,
        ChannelType::Store => 6,
        ChannelType::NewsThread => 10,
        ChannelType::PublicThread => 11,
        ChannelType::PrivateThread => 12,
        ChannelType::StageVoice => 13,
    }
}

/// The channel type a platform code stands for, if any.
pub open spec fn channel_of_code(c: u8) -> Option<ChannelType> {
    if c == 0 { Some(ChannelType::Text) }
    else if c == 1 { Some(ChannelType::Private) }
    else if c == 2 { Some(ChannelType::Voice) }
    else if c == 3 { Some(ChannelType::Group) }
    else if c == 4 { Some(ChannelType::Category) }
    else if c == 5 { Some(ChannelType::News) }
    else if c == 6 { Some(ChannelType::Store) }
    else if c == 10 { Some(ChannelType::NewsThread) }
    else if c == 11 { Some(ChannelType::PublicThread) }
    else if c == 12 { Some(ChannelType::PrivateThread) }
    else if c == 13 { Some(ChannelType::StageVoice) }
    else { None }
}

impl ChannelType {
    pub fn code(&self) -> (r: u8)
        ensures
            r == channel_code(*self),
    {
        match self {
            ChannelType::Text => 0,
            ChannelType::Private => 1,
            ChannelType::Voice => 2,
            ChannelType::Group => 3,
            ChannelType::Category => 4,
            ChannelType::News => 5,
            ChannelType::Store => 6,
            ChannelType::NewsThread => 10,
            ChannelType::PublicThread => 11,
            ChannelType::PrivateThread => 12,
            ChannelType::StageVoice => 13,
        }
    }

    pub fn from_code(c: u8) -> (r: Option<ChannelType>)
        ensures
            r == channel_of_code(c),
    {
        match c {
            0 => Some(ChannelType::Text),
            1 => Some(ChannelType::Private),
            2 => Some(ChannelType::Voice),
            3 => Some(ChannelType::Group),
            4 => Some(ChannelType::Category),
            5 => Some(ChannelType::News),
            6 => Some(ChannelType::Store),
            10 => Some(ChannelType::NewsThread),
            11 => Some(ChannelType::PublicThread),
            12 => Some(ChannelType::PrivateThread),
            13 => Some(ChannelType::StageVoice),
            _ => None,
        }
    }
}

/// `base` carries the name, description and required flag of `opt`.
pub open spec fn base_of(base: BaseOptionData, opt: CommandOption) -> bool {
    &&& base.name@ == opt.name@
    &&& base.description@ == opt.description@
    &&& base.required == opt.required
}

/// The integer bound that an optional declared bound becomes.
pub open spec fn int_bound(b: Option<crate::script::OptionBound>) -> Option<i64> {
    match b {
        Some(v) => Some(v.truncated),
        None => None,
    }
}

/// The float bound that an optional declared bound becomes.
pub open spec fn float_bound(b: Option<crate::script::OptionBound>) -> Option<u64> {
    match b {
        Some(v) => Some(v.bits),
        None => None,
    }
}

/// The channel codes that an optional restriction becomes: absent is empty.
pub open spec fn channel_codes(ts: Option<Vec<ChannelType>>) -> Seq<u8> {
    match ts {
        Some(v) => v@.map_values(|t: ChannelType| channel_code(t)),
        None => Seq::empty(),
    }
}

/// `out` is the projection of `opt`: the variant of its kind, carrying only
/// the constraints that apply to that kind.
pub open spec fn is_projection(out: ExternalOption, opt: CommandOption) -> bool {
    let extra = opt.extra_options;
    match opt.kind {
        CommandOptionType::String => out matches ExternalOption::String(b) && base_of(b, opt),
        CommandOptionType::Boolean => out matches ExternalOption::Boolean(b) && base_of(b, opt),
        CommandOptionType::User => out matches ExternalOption::User(b) && base_of(b, opt),
        CommandOptionType::Role => out matches ExternalOption::Role(b) && base_of(b, opt),
        CommandOptionType::Mentionable => out matches ExternalOption::Mentionable(b) && base_of(b, opt),
        CommandOptionType::Integer => out matches ExternalOption::Integer { base, min_value, max_value }
            && base_of(base, opt) && min_value == int_bound(extra.min_value)
            && max_value == int_bound(extra.max_value),
        CommandOptionType::Number => out matches ExternalOption::Number { base, min_value, max_value }
            && base_of(base, opt) && min_value == float_bound(extra.min_value)
            && max_value == float_bound(extra.max_value),
        CommandOptionType::Channel => out matches ExternalOption::Channel { base, channel_types }
            && base_of(base, opt) && channel_types@ == channel_codes(extra.channel_types),
    }
}

fn channel_codes_of(ts: &Option<Vec<ChannelType>>) -> (r: Vec<u8>)
    ensures
        r@ == channel_codes(*ts),
{
    let mut out: Vec<u8> = Vec::new();
    match ts {
        Some(v) => {
            let mut i: usize = 0;
            while i < v.len()
                invariant
                    i <= v@.len(),
                    out@ == v@.subrange(0, i as int).map_values(|t: ChannelType| channel_code(t)),
                decreases v@.len() - i,
            {
                out.push(v[i].code());
                i = i + 1;
                assert(v@.subrange(0, i as int) =~= v@.subrange(0, i - 1).push(v@[i - 1]));
            }
            assert(v@.subrange(0, v@.len() as int) =~= v@);
        },
        None => {},
    }
    out
}

/// Projects one declared option into the platform's option variant.
pub fn project(opt: &CommandOption) -> (r: ExternalOption)
    ensures
        is_projection(r, *opt),
{
    let base = BaseOptionData {
        name: opt.name.clone(),
        description: opt.description.clone(),
        required: opt.required,
    };
    let extra = &opt.extra_options;
    match opt.kind {
        CommandOptionType::String => ExternalOption::String(base),
        CommandOptionType::Boolean => ExternalOption::Boolean(base),
        CommandOptionType::User => ExternalOption::User(base),
        CommandOptionType::Role => ExternalOption::Role(base),
        CommandOptionType::Mentionable => ExternalOption::Mentionable(base),
        CommandOptionType::Integer => ExternalOption::Integer {
            base,
            min_value: match extra.min_value { Some(b) => Some(b.truncated), None => None },
            max_value: match extra.max_value { Some(b) => Some(b.truncated), None => None },
        },
        CommandOptionType::Number => ExternalOption::Number {
            base,
            min_value: match extra.min_value { Some(b) => Some(b.bits), None => None },
            max_value: match extra.max_value { Some(b) => Some(b.bits), None => None },
        },
        CommandOptionType::Channel => ExternalOption::Channel {
            base,
            channel_types: channel_codes_of(&extra.channel_types),
        },
    }
}

/// An integer option carries its declared bounds truncated toward zero, a
/// number option carries them unchanged, and a string, boolean, user, role or
/// mentionable option carries no bound, whatever its constraints hold.
pub proof fn lemma_bounds_follow_kind(opt: CommandOption, out: ExternalOption)
    requires
        is_projection(out, opt),
    ensures
        opt.kind == CommandOptionType::Integer ==> (out matches ExternalOption::Integer { min_value, max_value, .. }
            && min_value == int_bound(opt.extra_options.min_value)
            && max_value == int_bound(opt.extra_options.max_value)),
        opt.kind == CommandOptionType::Number ==> (out matches ExternalOption::Number { min_value, max_value, .. }
            && min_value == float_bound(opt.extra_options.min_value)
            && max_value == float_bound(opt.extra_options.max_value)),
        opt.kind != CommandOptionType::Integer && opt.kind != CommandOptionType::Number
            ==> !(out is Integer) && !(out is Number),
{
}

/// Every channel type comes back from its code.
pub proof fn lemma_channel_code_round_trip(t: ChannelType)
    ensures
        channel_of_code(channel_code(t)) == Some(t),
{
}

/// Decoding the codes of a projected channel option gives back the declared
/// channel types in order; an absent restriction gives no code at all, which
/// the platform reads as unrestricted.
pub proof fn lemma_channel_types_round_trip(opt: CommandOption, out: ExternalOption)
    requires
        is_projection(out, opt),
        opt.kind == CommandOptionType::Channel,
    ensures
        out matches ExternalOption::Channel { channel_types, .. } && match opt.extra_options.channel_types {
            Some(ts) => channel_types@.map_values(|c: u8| channel_of_code(c))
                == ts@.map_values(|t: ChannelType| Some(t)),
            None => channel_types@.len() == 0,
        },
{
    if let Some(ts) = opt.extra_options.channel_types {
        let codes = out->Channel_channel_types@;
        assert forall|i: int| 0 <= i < ts@.len() implies channel_of_code(#[trigger] codes[i]) == Some(ts@[i]) by {
            lemma_channel_code_round_trip(ts@[i]);
        }
        assert(codes.map_values(|c: u8| channel_of_code(c)) =~= ts@.map_values(|t: ChannelType| Some(t)));
    }
}

} // verus!
