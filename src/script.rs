//! Command, group and timer declarations as a script writes them.
use vstd::prelude::*;

verus! {

/// A channel kind that a channel option may be restricted to.
#[derive(Clone, Copy, Debug, PartialEq, Eq, Structural)]
pub enum ChannelType {
    Text,
    Private,
    Voice,
    Group,
    Category,
    News,
    Store,
    NewsThread,
    PublicThread,
    PrivateThread,
    StageVoice,
}

/// The value type of a command option.
#[derive(Clone, Copy, Debug, PartialEq, Eq, Structural)]
pub enum CommandOptionType {
    String,
    Integer,
    Boolean,
    User,
    Channel,
    Role,
    Mentionable,
    Number,
}

/// A numeric bound declared by a script.
///
/// The bound is a 64-bit float held as its IEEE-754 bit pattern, together
/// with the float truncated toward zero (saturating at the `i64` range),
/// which is what an integer option uses.
#[derive(Clone, Copy, Debug, PartialEq, Eq, Structural)]
pub struct OptionBound {
    pub bits: u64,
    pub truncated: i64,
}

/// Constraints of an option; those that do not apply to its kind are ignored.
/// Enumerated choices are not supported yet; they would be declared here.
#[derive(Clone, Debug)]
pub struct ExtraCommandOptions {
    pub min_value: Option<OptionBound>,
    pub max_value: Option<OptionBound>,
    pub channel_types: Option<Vec<ChannelType>>,
}

#[derive(Clone, Debug)]
pub struct CommandOption {
    pub name: String,
    pub description: String,
    pub kind: CommandOptionType,
    pub required: bool,
    pub extra_options: ExtraCommandOptions,
}

#[derive(Clone, Debug)]
pub struct Command {
    pub name: String,
    pub description: String,
    pub options: Vec<CommandOption>,
    pub group: Option<String>,
    pub sub_group: Option<String>,
}

#[derive(Clone, Debug)]
pub struct CommandSubGroup {
    pub name: String,
    pub description: String,
}

#[derive(Clone, Debug)]
pub struct CommandGroup {
    pub name: String,
    pub description: String,
    pub sub_groups: Vec<CommandSubGroup>,
}

#[derive(Clone, Debug)]
pub enum IntervalType {
    Minutes(u64),
    Cron(String),
}

#[derive(Clone, Debug)]
pub struct IntervalTimer {
    pub name: String,
    pub interval: IntervalType,
}

/// Everything a script declares about itself.
#[derive(Clone, Debug)]
pub struct ScriptMeta {
    pub description: String,
    pub script_id: u64,
    pub commands: Vec<Command>,
    pub command_groups: Vec<CommandGroup>,
    pub interval_timers: Vec<IntervalTimer>,
    pub task_names: Vec<String>,
}

/// The view of an optional string.
pub open spec fn opt_view(o: Option<String>) -> Option<Seq<char>> {
    match o {
        Some(s) => Some(s@),
        None => None,
    }
}

} // verus!
