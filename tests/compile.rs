use runtime_models::compiler::{compile, CommandNode, SchemaError};
use runtime_models::schema::{project, ExternalOption};
use runtime_models::script::{
    ChannelType, Command, CommandGroup, CommandOption, CommandOptionType, CommandSubGroup,
    ExtraCommandOptions, OptionBound, ScriptMeta,
};

fn no_extra() -> ExtraCommandOptions {
    ExtraCommandOptions { min_value: None, max_value: None, channel_types: None }
}

fn option(name: &str, kind: CommandOptionType, extra: ExtraCommandOptions) -> CommandOption {
    CommandOption {
        name: name.to_string(),
        description: format!("{} option", name),
        kind,
        required: true,
        extra_options: extra,
    }
}

fn command(name: &str, group: Option<&str>, sub_group: Option<&str>, options: Vec<CommandOption>) -> Command {
    Command {
        name: name.to_string(),
        description: format!("{} command", name),
        options,
        group: group.map(|g| g.to_string()),
        sub_group: sub_group.map(|s| s.to_string()),
    }
}

fn group(name: &str, subs: &[&str]) -> CommandGroup {
    CommandGroup {
        name: name.to_string(),
        description: format!("{} group", name),
        sub_groups: subs
            .iter()
            .map(|s| CommandSubGroup { name: s.to_string(), description: format!("{} sub-group", s) })
            .collect(),
    }
}

fn meta(commands: Vec<Command>, command_groups: Vec<CommandGroup>) -> ScriptMeta {
    ScriptMeta {
        description: "script".to_string(),
        script_id: 1,
        commands,
        command_groups,
        interval_timers: vec![],
        task_names: vec![],
    }
}

fn bound(v: f64) -> OptionBound {
    OptionBound { bits: v.to_bits(), truncated: v as i64 }
}

fn bounded() -> ExtraCommandOptions {
    ExtraCommandOptions { min_value: Some(bound(1.0)), max_value: Some(bound(5.0)), channel_types: None }
}

#[test]
fn single_ping_command_compiles_to_one_bare_command() {
    let nodes = compile(&meta(vec![command("ping", None, None, vec![])], vec![])).unwrap();
    assert_eq!(nodes.len(), 1);
    match &nodes[0] {
        CommandNode::Command(c) => {
            assert_eq!(c.name, "ping");
            assert_eq!(c.options.len(), 0);
        }
        CommandNode::Group(_) => panic!("expected a bare command"),
    }
}

#[test]
fn duplicate_group_names_fail() {
    let m = meta(
        vec![command("kick", Some("admin"), None, vec![option("who", CommandOptionType::User, no_extra())])],
        vec![group("admin", &[]), group("admin", &[])],
    );
    match compile(&m) {
        Err(SchemaError::DuplicateGroupName { group }) => assert_eq!(group, "admin"),
        other => panic!("unexpected {:?}", other),
    }
}

#[test]
fn duplicate_sub_group_names_fail() {
    let m = meta(vec![], vec![group("admin", &["users", "users"])]);
    match compile(&m) {
        Err(SchemaError::DuplicateSubGroupName { group, sub_group }) => {
            assert_eq!(group, "admin");
            assert_eq!(sub_group, "users");
        }
        other => panic!("unexpected {:?}", other),
    }
}

#[test]
fn flat_declaration_keeps_order_and_has_no_groups() {
    let m = meta(
        vec![
            command("a", None, None, vec![option("x", CommandOptionType::String, no_extra()), option("y", CommandOptionType::Boolean, no_extra())]),
            command("b", None, None, vec![]),
        ],
        vec![group("unused", &["inner"])],
    );
    let nodes = compile(&m).unwrap();
    assert_eq!(nodes.len(), 2);
    let names: Vec<String> = nodes
        .iter()
        .map(|n| match n {
            CommandNode::Command(c) => c.name.clone(),
            CommandNode::Group(_) => panic!("no group expected"),
        })
        .collect();
    assert_eq!(names, vec!["a".to_string(), "b".to_string()]);
    match &nodes[0] {
        CommandNode::Command(c) => {
            assert!(matches!(&c.options[0], ExternalOption::String(b) if b.name == "x"));
            assert!(matches!(&c.options[1], ExternalOption::Boolean(b) if b.name == "y"));
        }
        _ => unreachable!(),
    }
}

#[test]
fn unknown_group_fails() {
    let m = meta(vec![command("ping", None, None, vec![]), command("ban", Some("mod"), None, vec![])], vec![group("admin", &[])]);
    match compile(&m) {
        Err(SchemaError::UnknownGroup { command, group }) => {
            assert_eq!(command, "ban");
            assert_eq!(group, "mod");
        }
        other => panic!("unexpected {:?}", other),
    }
}

#[test]
fn sub_group_of_another_group_fails() {
    let m = meta(
        vec![command("ban", Some("admin"), Some("users"), vec![])],
        vec![group("admin", &["roles"]), group("other", &["users"])],
    );
    match compile(&m) {
        Err(SchemaError::UnknownSubGroup { command, group, sub_group }) => {
            assert_eq!(command, "ban");
            assert_eq!(group, Some("admin".to_string()));
            assert_eq!(sub_group, "users");
        }
        other => panic!("unexpected {:?}", other),
    }
}

#[test]
fn sub_group_without_group_fails() {
    let m = meta(vec![command("ban", None, Some("users"), vec![])], vec![group("admin", &["users"])]);
    match compile(&m) {
        Err(SchemaError::UnknownSubGroup { command, group, sub_group }) => {
            assert_eq!(command, "ban");
            assert_eq!(group, None);
            assert_eq!(sub_group, "users");
        }
        other => panic!("unexpected {:?}", other),
    }
}

#[test]
fn groups_nest_commands_and_sub_groups() {
    let m = meta(
        vec![
            command("ping", None, None, vec![]),
            command("ban", Some("admin"), Some("users"), vec![]),
            command("status", Some("admin"), None, vec![]),
            command("kick", Some("admin"), Some("users"), vec![]),
        ],
        vec![group("empty", &[]), group("admin", &["roles", "users"])],
    );
    let nodes = compile(&m).unwrap();
    assert_eq!(nodes.len(), 2);
    assert!(matches!(&nodes[0], CommandNode::Command(c) if c.name == "ping"));
    match &nodes[1] {
        CommandNode::Group(g) => {
            assert_eq!(g.name, "admin");
            assert_eq!(g.commands.len(), 1);
            assert_eq!(g.commands[0].name, "status");
            assert_eq!(g.sub_groups.len(), 1);
            assert_eq!(g.sub_groups[0].name, "users");
            let names: Vec<&str> = g.sub_groups[0].commands.iter().map(|c| c.name.as_str()).collect();
            assert_eq!(names, vec!["ban", "kick"]);
        }
        _ => panic!("expected a group"),
    }
}

#[test]
fn integer_and_number_bounds_are_projected() {
    match project(&option("n", CommandOptionType::Integer, bounded())) {
        ExternalOption::Integer { min_value, max_value, .. } => {
            assert_eq!(min_value, Some(1));
            assert_eq!(max_value, Some(5));
        }
        other => panic!("unexpected {:?}", other),
    }
    match project(&option("f", CommandOptionType::Number, bounded())) {
        ExternalOption::Number { min_value, max_value, .. } => {
            assert_eq!(min_value.map(f64::from_bits), Some(1.0));
            assert_eq!(max_value.map(f64::from_bits), Some(5.0));
        }
        other => panic!("unexpected {:?}", other),
    }
}

#[test]
fn integer_bounds_truncate_toward_zero() {
    let extra = ExtraCommandOptions { min_value: Some(bound(-2.7)), max_value: Some(bound(3.9)), channel_types: None };
    match project(&option("n", CommandOptionType::Integer, extra)) {
        ExternalOption::Integer { min_value, max_value, .. } => {
            assert_eq!(min_value, Some(-2));
            assert_eq!(max_value, Some(3));
        }
        other => panic!("unexpected {:?}", other),
    }
    match project(&option("n", CommandOptionType::Integer, no_extra())) {
        ExternalOption::Integer { min_value, max_value, .. } => {
            assert_eq!(min_value, None);
            assert_eq!(max_value, None);
        }
        other => panic!("unexpected {:?}", other),
    }
}

#[test]
fn base_kinds_drop_bounds() {
    let kinds = [
        CommandOptionType::String,
        CommandOptionType::Boolean,
        CommandOptionType::User,
        CommandOptionType::Role,
        CommandOptionType::Mentionable,
    ];
    for kind in kinds {
        let out = project(&option("o", kind, bounded()));
        assert!(!matches!(out, ExternalOption::Integer { .. } | ExternalOption::Number { .. }));
        match out {
            ExternalOption::String(b)
            | ExternalOption::Boolean(b)
            | ExternalOption::User(b)
            | ExternalOption::Role(b)
            | ExternalOption::Mentionable(b) => {
                assert_eq!(b.name, "o");
                assert_eq!(b.description, "o option");
                assert!(b.required);
            }
            other => panic!("unexpected {:?}", other),
        }
    }
}

#[test]
fn channel_types_round_trip() {
    let extra = ExtraCommandOptions {
        min_value: None,
        max_value: None,
        channel_types: Some(vec![ChannelType::Text, ChannelType::Voice]),
    };
    match project(&option("c", CommandOptionType::Channel, extra)) {
        ExternalOption::Channel { channel_types, .. } => {
            assert_eq!(channel_types, vec![0, 2]);
            let decoded: Vec<Option<ChannelType>> = channel_types.iter().map(|c| ChannelType::from_code(*c)).collect();
            assert_eq!(decoded, vec![Some(ChannelType::Text), Some(ChannelType::Voice)]);
        }
        other => panic!("unexpected {:?}", other),
    }
}

#[test]
fn absent_channel_types_give_empty_list() {
    match project(&option("c", CommandOptionType::Channel, no_extra())) {
        ExternalOption::Channel { channel_types, .. } => assert!(channel_types.is_empty()),
        other => panic!("unexpected {:?}", other),
    }
}

#[test]
fn unknown_channel_code_decodes_to_none() {
    assert_eq!(ChannelType::from_code(7), None);
    assert_eq!(ChannelType::StageVoice.code(), 13);
    assert_eq!(ChannelType::from_code(13), Some(ChannelType::StageVoice));
}
