//! Validation of the group hierarchy and compilation of a script's commands
//! into the platform's nested command tree.
use vstd::prelude::*;
use crate::script::{opt_view, Command, CommandGroup, CommandSubGroup, ScriptMeta};
use crate::schema::{is_projection, project, ExternalOption};

verus! {

/// Why a script's command declarations cannot be compiled.
#[derive(Clone, Debug)]
pub enum SchemaError {
    DuplicateGroupName { group: String },
    DuplicateSubGroupName { group: String, sub_group: String },
    UnknownGroup { command: String, group: String },
    /// The sub-group is not declared under the command's group, or the
    /// command names a sub-group without a group.
    UnknownSubGroup { command: String, group: Option<String>, sub_group: String },
}

/// Where a declaration breaks the hierarchy's rules, by position.
pub enum Fault {
    /// The group at this index repeats an earlier group's name.
    DuplicateGroup(int),
    /// In the group at the first index, the sub-group at the second repeats
    /// an earlier sub-group's name.
    DuplicateSubGroup(int, int),
    /// The command at this index names a group that is not declared.
    UnknownGroup(int),
    /// The command at this index names a sub-group that its group lacks.
    UnknownSubGroup(int),
}

pub open spec fn dup_group_at(groups: Seq<CommandGroup>, i: int) -> bool {
    exists|j: int| 0 <= j < i && #[trigger] groups[j].name@ == groups[i].name@
}

pub open spec fn dup_sub_group_at(subs: Seq<CommandSubGroup>, k: int) -> bool {
    exists|j: int| 0 <= j < k && #[trigger] subs[j].name@ == subs[k].name@
}

/// The first sub-group among the first `n` that repeats an earlier name.
pub open spec fn first_dup_sub_group(subs: Seq<CommandSubGroup>, n: int) -> Option<int>
    decreases n,
{
    if n <= 0 {
        None
    } else {
        match first_dup_sub_group(subs, n - 1) {
            Some(k) => Some(k),
            None => if dup_sub_group_at(subs, n - 1) { Some(n - 1) } else { None },
        }
    }
}

pub open spec fn group_fault_at(groups: Seq<CommandGroup>, i: int) -> Option<Fault> {
    if dup_group_at(groups, i) {
        Some(Fault::DuplicateGroup(i))
    } else {
        let subs = groups[i].sub_groups@;
        match first_dup_sub_group(subs, subs.len() as int) {
            Some(k) => Some(Fault::DuplicateSubGroup(i, k)),
            None => None,
        }
    }
}

/// The first fault among the first `n` groups.
pub open spec fn groups_fault(groups: Seq<CommandGroup>, n: int) -> Option<Fault>
    decreases n,
{
    if n <= 0 {
        None
    } else {
        match groups_fault(groups, n - 1) {
            Some(f) => Some(f),
            None => group_fault_at(groups, n - 1),
        }
    }
}

pub open spec fn has_group(groups: Seq<CommandGroup>, g: Seq<char>) -> bool {
    exists|i: int| 0 <= i < groups.len() && #[trigger] groups[i].name@ == g
}

/// Some group named `g` declares a sub-group named `s`.
pub open spec fn has_sub_group(groups: Seq<CommandGroup>, g: Seq<char>, s: Seq<char>) -> bool {
    exists|i: int, k: int|
        0 <= i < groups.len() && 0 <= k < groups[i].sub_groups@.len()
            && #[trigger] groups[i].name@ == g && #[trigger] groups[i].sub_groups@[k].name@ == s
}

pub open spec fn command_fault(groups: Seq<CommandGroup>, c: Command, at: int) -> Option<Fault> {
    match (opt_view(c.group), opt_view(c.sub_group)) {
        (None, None) => None,
        (None, Some(_)) => Some(Fault::UnknownSubGroup(at)),
        (Some(g), None) => if has_group(groups, g) { None } else { Some(Fault::UnknownGroup(at)) },
        (Some(g), Some(s)) => if !has_group(groups, g) {
            Some(Fault::UnknownGroup(at))
        } else if !has_sub_group(groups, g, s) {
            Some(Fault::UnknownSubGroup(at))
        } else {
            None
        },
    }
}

/// The first fault among the first `n` commands.
pub open spec fn commands_fault(groups: Seq<CommandGroup>, cmds: Seq<Command>, n: int) -> Option<Fault>
    decreases n,
{
    if n <= 0 {
        None
    } else {
        match commands_fault(groups, cmds, n - 1) {
            Some(f) => Some(f),
            None => command_fault(groups, cmds[n - 1], n - 1),
        }
    }
}

/// The first fault of a declaration: groups are checked before commands.
pub open spec fn declaration_fault(groups: Seq<CommandGroup>, cmds: Seq<Command>) -> Option<Fault> {
    match groups_fault(groups, groups.len() as int) {
        Some(f) => Some(f),
        None => commands_fault(groups, cmds, cmds.len() as int),
    }
}

/// `e` reports fault `f` with the names of the declarations involved.
pub open spec fn reports(e: SchemaError, f: Fault, groups: Seq<CommandGroup>, cmds: Seq<Command>) -> bool {
    match f {
        Fault::DuplicateGroup(i) => e matches SchemaError::DuplicateGroupName { group }
            && group@ == groups[i].name@,
        Fault::DuplicateSubGroup(i, k) => e matches SchemaError::DuplicateSubGroupName { group, sub_group }
            && group@ == groups[i].name@ && sub_group@ == groups[i].sub_groups@[k].name@,
        Fault::UnknownGroup(c) => e matches SchemaError::UnknownGroup { command, group }
            && command@ == cmds[c].name@ && Some(group@) == opt_view(cmds[c].group),
        Fault::UnknownSubGroup(c) => e matches SchemaError::UnknownSubGroup { command, group, sub_group }
            && command@ == cmds[c].name@ && opt_view(group) == opt_view(cmds[c].group)
            && Some(sub_group@) == opt_view(cmds[c].sub_group),
    }
}

fn clone_opt(o: &Option<String>) -> (r: Option<String>)
    ensures
        opt_view(r) == opt_view(*o),
{
    match o {
        Some(s) => Some(s.clone()),
        None => None,
    }
}

/// Checks that group names are unique, and sub-group names within each group.
pub fn check_groups(groups: &Vec<CommandGroup>) -> (r: Result<(), SchemaError>)
    ensures
        match groups_fault(groups@, groups@.len() as int) {
            None => r is Ok,
            Some(f) => r matches Err(e) && reports(e, f, groups@, Seq::empty()),
        },
{
    let mut i: usize = 0;
    while i < groups.len()
        invariant
            i <= groups@.len(),
            groups_fault(groups@, i as int) is None,
        decreases groups@.len() - i,
    {
        let mut j: usize = 0;
        while j < i
            invariant
                i < groups@.len(),
                groups_fault(groups@, i as int) is None,
                j <= i,
                forall|m: int| 0 <= m < j ==> groups@[m].name@ != groups@[i as int].name@,
            decreases i - j,
        {
            if groups[j].name == groups[i].name {
                assert(dup_group_at(groups@, i as int));
                proof {
                    assert(groups_fault(groups@, i + 1) == Some(Fault::DuplicateGroup(i as int)));
                    lemma_groups_fault_settled(groups@, i + 1, groups@.len() as int);
                }
                return Err(SchemaError::DuplicateGroupName { group: groups[i].name.clone() });
            }
            j = j + 1;
        }
        let subs = &groups[i].sub_groups;
        let mut k: usize = 0;
        while k < subs.len()
            invariant
                i < groups@.len(),
                !dup_group_at(groups@, i as int),
                *subs == groups@[i as int].sub_groups,
                groups_fault(groups@, i as int) is None,
                k <= subs@.len(),
                first_dup_sub_group(subs@, k as int) is None,
            decreases subs@.len() - k,
        {
            let mut j: usize = 0;
            while j < k
                invariant
                    i < groups@.len(),
                    !dup_group_at(groups@, i as int),
                    *subs == groups@[i as int].sub_groups,
                    groups_fault(groups@, i as int) is None,
                    first_dup_sub_group(subs@, k as int) is None,
                    k < subs@.len(),
                    j <= k,
                    forall|m: int| 0 <= m < j ==> subs@[m].name@ != subs@[k as int].name@,
                decreases k - j,
            {
                if subs[j].name == subs[k].name {
                    assert(dup_sub_group_at(subs@, k as int));
                    proof {
                        lemma_first_dup_settled(subs@, k + 1, subs@.len() as int);
                        lemma_groups_fault_settled(groups@, i + 1, groups@.len() as int);
                    }
                    return Err(SchemaError::DuplicateSubGroupName {
                        group: groups[i].name.clone(),
                        sub_group: subs[k].name.clone(),
                    });
                }
                j = j + 1;
            }
            k = k + 1;
        }
        i = i + 1;
    }
    Ok(())
}

fn find_group(groups: &Vec<CommandGroup>, g: &String) -> (r: Option<usize>)
    ensures
        match r {
            Some(i) => i < groups@.len() && groups@[i as int].name@ == g@,
            None => !has_group(groups@, g@),
        },
{
    let mut i: usize = 0;
    while i < groups.len()
        invariant
            i <= groups@.len(),
            forall|m: int| 0 <= m < i ==> groups@[m].name@ != g@,
        decreases groups@.len() - i,
    {
        if groups[i].name == *g {
            return Some(i);
        }
        i = i + 1;
    }
    None
}

fn has_sub_group_named(subs: &Vec<CommandSubGroup>, s: &String) -> (r: bool)
    ensures
        r == exists|k: int| 0 <= k < subs@.len() && #[trigger] subs@[k].name@ == s@,
{
    let mut k: usize = 0;
    while k < subs.len()
        invariant
            k <= subs@.len(),
            forall|m: int| 0 <= m < k ==> subs@[m].name@ != s@,
        decreases subs@.len() - k,
    {
        if subs[k].name == *s {
            return true;
        }
        k = k + 1;
    }
    false
}

/// Checks that every command's group and sub-group reference is declared.
/// Expects group names to be unique.
pub fn check_commands(groups: &Vec<CommandGroup>, cmds: &Vec<Command>) -> (r: Result<(), SchemaError>)
    requires
        groups_fault(groups@, groups@.len() as int) is None,
    ensures
        match commands_fault(groups@, cmds@, cmds@.len() as int) {
            None => r is Ok,
            Some(f) => r matches Err(e) && reports(e, f, groups@, cmds@),
        },
{
    let mut c: usize = 0;
    while c < cmds.len()
        invariant
            c <= cmds@.len(),
            groups_fault(groups@, groups@.len() as int) is None,
            commands_fault(groups@, cmds@, c as int) is None,
        decreases cmds@.len() - c,
    {
        let cmd = &cmds[c];
        match (&cmd.group, &cmd.sub_group) {
            (None, None) => {},
            (None, Some(s)) => {
                proof {
                    lemma_commands_fault_settled(groups@, cmds@, c + 1, cmds@.len() as int);
                }
                return Err(SchemaError::UnknownSubGroup {
                    command: cmd.name.clone(),
                    group: None,
                    sub_group: s.clone(),
                });
            },
            (Some(g), sub) => {
                match find_group(groups, g) {
                    None => {
                        proof {
                            lemma_commands_fault_settled(groups@, cmds@, c + 1, cmds@.len() as int);
                        }
                        return Err(SchemaError::UnknownGroup { command: cmd.name.clone(), group: g.clone() });
                    },
                    Some(i) => {
                        match sub {
                            None => {},
                            Some(s) => {
                                let found = has_sub_group_named(&groups[i].sub_groups, s);
                                proof {
                                    lemma_unique_group(groups@, i as int, g@, s@);
                                }
                                if !found {
                                    proof {
                                        lemma_commands_fault_settled(groups@, cmds@, c + 1, cmds@.len() as int);
                                    }
                                    return Err(SchemaError::UnknownSubGroup {
                                        command: cmd.name.clone(),
                                        group: Some(g.clone()),
                                        sub_group: s.clone(),
                                    });
                                }
                            },
                        }
                    },
                }
            },
        }
        c = c + 1;
    }
    Ok(())
}

proof fn lemma_groups_fault_kind(groups: Seq<CommandGroup>, n: int)
    ensures
        groups_fault(groups, n) matches Some(f) ==> (f is DuplicateGroup || f is DuplicateSubGroup),
    decreases n,
{
    if n > 0 {
        lemma_groups_fault_kind(groups, n - 1);
    }
}

proof fn lemma_groups_fault_settled(groups: Seq<CommandGroup>, m: int, n: int)
    requires
        0 <= m <= n,
        groups_fault(groups, m) is Some,
    ensures
        groups_fault(groups, n) == groups_fault(groups, m),
    decreases n,
{
    if n > m {
        lemma_groups_fault_settled(groups, m, n - 1);
    }
}

proof fn lemma_first_dup_settled(subs: Seq<CommandSubGroup>, m: int, n: int)
    requires
        0 <= m <= n,
        first_dup_sub_group(subs, m) is Some,
    ensures
        first_dup_sub_group(subs, n) == first_dup_sub_group(subs, m),
    decreases n,
{
    if n > m {
        lemma_first_dup_settled(subs, m, n - 1);
    }
}

proof fn lemma_commands_fault_settled(groups: Seq<CommandGroup>, cmds: Seq<Command>, m: int, n: int)
    requires
        0 <= m <= n,
        commands_fault(groups, cmds, m) is Some,
    ensures
        commands_fault(groups, cmds, n) == commands_fault(groups, cmds, m),
    decreases n,
{
    if n > m {
        lemma_commands_fault_settled(groups, cmds, m, n - 1);
    }
}

proof fn lemma_groups_fault_prefix(groups: Seq<CommandGroup>, n: int, m: int)
    requires
        0 <= m <= n,
        groups_fault(groups, n) is None,
    ensures
        groups_fault(groups, m) is None,
        m < n ==> group_fault_at(groups, m) is None,
    decreases n,
{
    if m < n {
        lemma_groups_fault_prefix(groups, n - 1, m);
    }
}

/// With unique group names, the group at `i` is the only one named `g`.
proof fn lemma_unique_group(groups: Seq<CommandGroup>, i: int, g: Seq<char>, s: Seq<char>)
    requires
        groups_fault(groups, groups.len() as int) is None,
        0 <= i < groups.len(),
        groups[i].name@ == g,
    ensures
        has_sub_group(groups, g, s) == exists|k: int|
            0 <= k < groups[i].sub_groups@.len() && #[trigger] groups[i].sub_groups@[k].name@ == s,
{
    if has_sub_group(groups, g, s) {
        let (i2, k) = choose|i2: int, k: int|
            0 <= i2 < groups.len() && 0 <= k < groups[i2].sub_groups@.len()
                && #[trigger] groups[i2].name@ == g && #[trigger] groups[i2].sub_groups@[k].name@ == s;
        if i2 != i {
            let hi = if i2 < i { i } else { i2 };
            let lo = if i2 < i { i2 } else { i };
            lemma_groups_fault_prefix(groups, groups.len() as int, hi);
            assert(groups[lo].name@ == groups[hi].name@);
            assert(dup_group_at(groups, hi));
        }
    }
}

/// A command in the platform's schema: top-level, or a sub-command of a group.
#[derive(Clone, Debug)]
pub struct ExternalCommand {
    pub name: String,
    pub description: String,
    pub options: Vec<ExternalOption>,
}

/// A sub-command group and the sub-commands placed in it.
#[derive(Clone, Debug)]
pub struct ExternalSubGroup {
    pub name: String,
    pub description: String,
    pub commands: Vec<ExternalCommand>,
}

/// A top-level command group: its direct sub-commands, then its sub-groups.
#[derive(Clone, Debug)]
pub struct ExternalGroup {
    pub name: String,
    pub description: String,
    pub commands: Vec<ExternalCommand>,
    pub sub_groups: Vec<ExternalSubGroup>,
}

/// A node of the top-level list handed to the platform.
#[derive(Clone, Debug)]
pub enum CommandNode {
    Command(ExternalCommand),
    Group(ExternalGroup),
}

/// The test that a command is placed under group `g` and sub-group `s`.
pub open spec fn placed_pred(g: Option<Seq<char>>, s: Option<Seq<char>>) -> spec_fn(Command) -> bool {
    |c: Command| opt_view(c.group) == g && opt_view(c.sub_group) == s
}

/// The commands placed under group `g` and sub-group `s`, in declaration order.
pub open spec fn placed_in(cmds: Seq<Command>, g: Option<Seq<char>>, s: Option<Seq<char>>) -> Seq<Command> {
    cmds.filter(placed_pred(g, s))
}

/// The sub-groups of `grp` that hold at least one command, in declaration order.
pub open spec fn used_sub_groups(cmds: Seq<Command>, grp: CommandGroup) -> Seq<CommandSubGroup> {
    grp.sub_groups@.filter(|sg: CommandSubGroup| placed_in(cmds, Some(grp.name@), Some(sg.name@)).len() > 0)
}

pub open spec fn group_used(cmds: Seq<Command>, grp: CommandGroup) -> bool {
    placed_in(cmds, Some(grp.name@), None).len() > 0 || used_sub_groups(cmds, grp).len() > 0
}

/// The groups that hold at least one command, in declaration order.
pub open spec fn used_groups(cmds: Seq<Command>, groups: Seq<CommandGroup>) -> Seq<CommandGroup> {
    groups.filter(|g: CommandGroup| group_used(cmds, g))
}

/// `out` is `c` with each option projected, in declaration order.
pub open spec fn command_matches(out: ExternalCommand, c: Command) -> bool {
    &&& out.name@ == c.name@
    &&& out.description@ == c.description@
    &&& out.options@.len() == c.options@.len()
    &&& forall|i: int| 0 <= i < c.options@.len() ==> is_projection(#[trigger] out.options@[i], c.options@[i])
}

pub open spec fn commands_match(outs: Seq<ExternalCommand>, cs: Seq<Command>) -> bool {
    outs.len() == cs.len() && forall|i: int| 0 <= i < cs.len() ==> command_matches(#[trigger] outs[i], cs[i])
}

pub open spec fn sub_group_matches(out: ExternalSubGroup, cmds: Seq<Command>, g: Seq<char>, sg: CommandSubGroup) -> bool {
    &&& out.name@ == sg.name@
    &&& out.description@ == sg.description@
    &&& commands_match(out.commands@, placed_in(cmds, Some(g), Some(sg.name@)))
}

pub open spec fn group_matches(out: ExternalGroup, cmds: Seq<Command>, grp: CommandGroup) -> bool {
    let used = used_sub_groups(cmds, grp);
    &&& out.name@ == grp.name@
    &&& out.description@ == grp.description@
    &&& commands_match(out.commands@, placed_in(cmds, Some(grp.name@), None))
    &&& out.sub_groups@.len() == used.len()
    &&& forall|k: int| 0 <= k < used.len() ==> sub_group_matches(#[trigger] out.sub_groups@[k], cmds, grp.name@, used[k])
}

pub open spec fn node_is_command(n: CommandNode, c: Command) -> bool {
    n matches CommandNode::Command(out) && command_matches(out, c)
}

pub open spec fn node_is_group(n: CommandNode, cmds: Seq<Command>, grp: CommandGroup) -> bool {
    n matches CommandNode::Group(out) && group_matches(out, cmds, grp)
}

/// `nodes` is the compiled tree: the top-level commands in declaration order,
/// then one node for each group that holds a command, in declaration order.
pub open spec fn tree_matches(nodes: Seq<CommandNode>, cmds: Seq<Command>, groups: Seq<CommandGroup>) -> bool {
    let top = placed_in(cmds, None, None);
    let used = used_groups(cmds, groups);
    &&& nodes.len() == top.len() + used.len()
    &&& forall|i: int| 0 <= i < top.len() ==> node_is_command(#[trigger] nodes[i], top[i])
    &&& forall|j: int| 0 <= j < used.len() ==> node_is_group(nodes[top.len() + j], cmds, #[trigger] used[j])
}

fn same_opt(a: &Option<String>, b: &Option<String>) -> (r: bool)
    ensures
        r == (opt_view(*a) == opt_view(*b)),
{
    match (a, b) {
        (None, None) => true,
        (Some(x), Some(y)) => *x == *y,
        _ => false,
    }
}

/// Projects a command's options, keeping their order.
pub fn project_command(c: &Command) -> (r: ExternalCommand)
    ensures
        command_matches(r, *c),
{
    let mut options: Vec<ExternalOption> = Vec::new();
    let mut i: usize = 0;
    while i < c.options.len()
        invariant
            i <= c.options@.len(),
            options@.len() == i,
            forall|k: int| 0 <= k < i ==> is_projection(#[trigger] options@[k], c.options@[k]),
        decreases c.options@.len() - i,
    {
        options.push(project(&c.options[i]));
        i = i + 1;
    }
    ExternalCommand { name: c.name.clone(), description: c.description.clone(), options }
}

proof fn lemma_filter_step<A>(s: Seq<A>, i: int, pred: spec_fn(A) -> bool)
    requires
        0 <= i < s.len(),
    ensures
        s.subrange(0, i + 1).filter(pred) == if pred(s[i]) {
            s.subrange(0, i).filter(pred).push(s[i])
        } else {
            s.subrange(0, i).filter(pred)
        },
{
    assert(s.subrange(0, i + 1) =~= s.subrange(0, i).push(s[i]));
    s.subrange(0, i).lemma_filter_push(s[i], pred);
}

/// Projects the commands placed under group `g` and sub-group `s`.
fn collect_placed(cmds: &Vec<Command>, g: &Option<String>, s: &Option<String>) -> (r: Vec<ExternalCommand>)
    ensures
        commands_match(r@, placed_in(cmds@, opt_view(*g), opt_view(*s))),
{
    let ghost pred = placed_pred(opt_view(*g), opt_view(*s));
    let mut out: Vec<ExternalCommand> = Vec::new();
    let mut i: usize = 0;
    while i < cmds.len()
        invariant
            i <= cmds@.len(),
            pred == placed_pred(opt_view(*g), opt_view(*s)),
            commands_match(out@, cmds@.subrange(0, i as int).filter(pred)),
        decreases cmds@.len() - i,
    {
        proof {
            lemma_filter_step(cmds@, i as int, pred);
        }
        if same_opt(&cmds[i].group, g) && same_opt(&cmds[i].sub_group, s) {
            out.push(project_command(&cmds[i]));
        }
        i = i + 1;
    }
    assert(cmds@.subrange(0, cmds@.len() as int) =~= cmds@);
    out
}

/// Builds the node of one group; it is empty exactly when no command uses the group.
fn build_group(cmds: &Vec<Command>, grp: &CommandGroup) -> (r: ExternalGroup)
    ensures
        group_matches(r, cmds@, *grp),
        (r.commands@.len() > 0 || r.sub_groups@.len() > 0) == group_used(cmds@, *grp),
{
    let name = Some(grp.name.clone());
    let commands = collect_placed(cmds, &name, &None);
    let ghost pred = |sg: CommandSubGroup| placed_in(cmds@, Some(grp.name@), Some(sg.name@)).len() > 0;
    let subs = &grp.sub_groups;
    let mut sub_groups: Vec<ExternalSubGroup> = Vec::new();
    let mut k: usize = 0;
    while k < subs.len()
        invariant
            k <= subs@.len(),
            *subs == grp.sub_groups,
            opt_view(name) == Some(grp.name@),
            pred == (|sg: CommandSubGroup| placed_in(cmds@, Some(grp.name@), Some(sg.name@)).len() > 0),
            sub_groups@.len() == subs@.subrange(0, k as int).filter(pred).len(),
            forall|m: int| 0 <= m < sub_groups@.len() ==> sub_group_matches(#[trigger] sub_groups@[m], cmds@,
                grp.name@, subs@.subrange(0, k as int).filter(pred)[m]),
        decreases subs@.len() - k,
    {
        proof {
            lemma_filter_step(subs@, k as int, pred);
        }
        let sub_name = Some(subs[k].name.clone());
        let placed = collect_placed(cmds, &name, &sub_name);
        if placed.len() > 0 {
            sub_groups.push(ExternalSubGroup {
                name: subs[k].name.clone(),
                description: subs[k].description.clone(),
                commands: placed,
            });
        }
        k = k + 1;
    }
    assert(subs@.subrange(0, subs@.len() as int) =~= subs@);
    assert(used_sub_groups(cmds@, *grp) == subs@.filter(pred));
    ExternalGroup { name: grp.name.clone(), description: grp.description.clone(), commands, sub_groups }
}

/// Validates the group hierarchy and every command's placement, then builds
/// the tree. Fails with the first fault found, groups before commands,
/// before any option is projected.
pub fn resolve(groups: &Vec<CommandGroup>, cmds: &Vec<Command>) -> (r: Result<Vec<CommandNode>, SchemaError>)
    ensures
        match declaration_fault(groups@, cmds@) {
            Some(f) => r matches Err(e) && reports(e, f, groups@, cmds@),
            None => r matches Ok(nodes) && tree_matches(nodes@, cmds@, groups@),
        },
{
    match check_groups(groups) {
        Err(e) => {
            proof {
                lemma_groups_fault_kind(groups@, groups@.len() as int);
            }
            return Err(e);
        },
        Ok(()) => {},
    }
    match check_commands(groups, cmds) {
        Err(e) => {
            return Err(e);
        },
        Ok(()) => {},
    }
    let ghost top = placed_in(cmds@, None, None);
    let ghost top_pred = placed_pred(None, None);
    let mut nodes: Vec<CommandNode> = Vec::new();
    let mut i: usize = 0;
    while i < cmds.len()
        invariant
            i <= cmds@.len(),
            top_pred == placed_pred(None, None),
            nodes@.len() == cmds@.subrange(0, i as int).filter(top_pred).len(),
            forall|m: int| 0 <= m < nodes@.len() ==> node_is_command(#[trigger] nodes@[m],
                cmds@.subrange(0, i as int).filter(top_pred)[m]),
        decreases cmds@.len() - i,
    {
        proof {
            lemma_filter_step(cmds@, i as int, top_pred);
        }
        if cmds[i].group.is_none() && cmds[i].sub_group.is_none() {
            nodes.push(CommandNode::Command(project_command(&cmds[i])));
        }
        i = i + 1;
    }
    assert(cmds@.subrange(0, cmds@.len() as int) =~= cmds@);
    let ghost n_top = nodes@.len();
    let ghost used_pred = |g: CommandGroup| group_used(cmds@, g);
    let mut j: usize = 0;
    while j < groups.len()
        invariant
            j <= groups@.len(),
            n_top == top.len(),
            top == placed_in(cmds@, None, None),
            used_pred == (|g: CommandGroup| group_used(cmds@, g)),
            nodes@.len() == n_top + groups@.subrange(0, j as int).filter(used_pred).len(),
            forall|m: int| 0 <= m < n_top ==> node_is_command(#[trigger] nodes@[m], top[m]),
            forall|m: int| 0 <= m < groups@.subrange(0, j as int).filter(used_pred).len()
                ==> node_is_group(nodes@[n_top + m], cmds@, #[trigger] groups@.subrange(0, j as int).filter(used_pred)[m]),
        decreases groups@.len() - j,
    {
        proof {
            lemma_filter_step(groups@, j as int, used_pred);
        }
        let ghost prev_nodes = nodes@;
        let node = build_group(cmds, &groups[j]);
        if node.commands.len() > 0 || node.sub_groups.len() > 0 {
            nodes.push(CommandNode::Group(node));
        }
        j = j + 1;
        proof {
            let prev = groups@.subrange(0, j - 1).filter(used_pred);
            let next = groups@.subrange(0, j as int).filter(used_pred);
            assert forall|m: int| 0 <= m < next.len() implies node_is_group(nodes@[n_top + m], cmds@, #[trigger] next[m]) by {
                if m < prev.len() {
                    assert(next[m] == prev[m]);
                    assert(nodes@[n_top + m] == prev_nodes[n_top + m]);
                }
            }
            assert forall|m: int| 0 <= m < n_top implies node_is_command(#[trigger] nodes@[m], top[m]) by {
                assert(nodes@[m] == prev_nodes[m]);
            }
        }
    }
    assert(groups@.subrange(0, groups@.len() as int) =~= groups@);
    assert(used_groups(cmds@, groups@) == groups@.filter(used_pred));
    proof {
        let used = used_groups(cmds@, groups@);
        assert(top.len() == n_top);
        assert forall|m: int| 0 <= m < used.len() implies node_is_group(nodes@[top.len() + m], cmds@, #[trigger] used[m]) by {
            assert(used[m] == groups@.subrange(0, j as int).filter(used_pred)[m]);
        }
    }
    Ok(nodes)
}

/// Compiles a script's command declarations into the platform's command tree.
pub fn compile(meta: &ScriptMeta) -> (r: Result<Vec<CommandNode>, SchemaError>)
    ensures
        match declaration_fault(meta.command_groups@, meta.commands@) {
            Some(f) => r matches Err(e) && reports(e, f, meta.command_groups@, meta.commands@),
            None => r matches Ok(nodes) && tree_matches(nodes@, meta.commands@, meta.command_groups@),
        },
{
    resolve(&meta.command_groups, &meta.commands)
}

proof fn lemma_filter_all<A>(s: Seq<A>, pred: spec_fn(A) -> bool)
    requires
        forall|i: int| 0 <= i < s.len() ==> pred(#[trigger] s[i]),
    ensures
        s.filter(pred) == s,
    decreases s.len(),
{
    reveal(Seq::filter);
    if s.len() > 0 {
        lemma_filter_all(s.drop_last(), pred);
        assert(s.drop_last().push(s.last()) =~= s);
    }
}

proof fn lemma_filter_none<A>(s: Seq<A>, pred: spec_fn(A) -> bool)
    requires
        forall|i: int| 0 <= i < s.len() ==> !pred(#[trigger] s[i]),
    ensures
        s.filter(pred).len() == 0,
    decreases s.len(),
{
    reveal(Seq::filter);
    if s.len() > 0 {
        lemma_filter_none(s.drop_last(), pred);
        assert(!pred(s[s.len() - 1]));
    }
}

proof fn lemma_no_command_fault(groups: Seq<CommandGroup>, cmds: Seq<Command>, n: int)
    requires
        n <= cmds.len(),
        forall|i: int| 0 <= i < cmds.len() ==> (#[trigger] cmds[i]).group is None && cmds[i].sub_group is None,
    ensures
        commands_fault(groups, cmds, n) is None,
    decreases n,
{
    if n > 0 {
        lemma_no_command_fault(groups, cmds, n - 1);
        assert(cmds[n - 1].group is None);
    }
}

/// Where the groups are well-formed and no command names a group or a
/// sub-group, compilation succeeds with a flat list: one bare command for each
/// declared command, in declaration order, each with its options projected in
/// declaration order, and no group node.
pub proof fn lemma_flat_declaration_compiles(meta: ScriptMeta)
    requires
        groups_fault(meta.command_groups@, meta.command_groups@.len() as int) is None,
        forall|i: int| 0 <= i < meta.commands@.len()
            ==> (#[trigger] meta.commands@[i]).group is None && meta.commands@[i].sub_group is None,
    ensures
        declaration_fault(meta.command_groups@, meta.commands@) is None,
        forall|nodes: Seq<CommandNode>| #[trigger] tree_matches(nodes, meta.commands@, meta.command_groups@)
            ==> nodes.len() == meta.commands@.len()
            && forall|i: int| 0 <= i < nodes.len() ==> node_is_command(#[trigger] nodes[i], meta.commands@[i]),
{
    let cmds = meta.commands@;
    let groups = meta.command_groups@;
    lemma_no_command_fault(groups, cmds, cmds.len() as int);
    lemma_filter_all(cmds, placed_pred(None, None));
    assert forall|j: int| 0 <= j < groups.len() implies !group_used(cmds, #[trigger] groups[j]) by {
        let grp = groups[j];
        lemma_filter_none(cmds, placed_pred(Some(grp.name@), None));
        let sub_pred = |sg: CommandSubGroup| placed_in(cmds, Some(grp.name@), Some(sg.name@)).len() > 0;
        assert forall|k: int| 0 <= k < grp.sub_groups@.len() implies !sub_pred(#[trigger] grp.sub_groups@[k]) by {
            lemma_filter_none(cmds, placed_pred(Some(grp.name@), Some(grp.sub_groups@[k].name@)));
        }
        lemma_filter_none(grp.sub_groups@, sub_pred);
    }
    lemma_filter_none(groups, |g: CommandGroup| group_used(cmds, g));
}

/// A command that names an undeclared group makes compilation fail. Where the
/// groups are well-formed and no earlier command is at fault, the failure is
/// `UnknownGroup` for that command.
pub proof fn lemma_unknown_group_fails(meta: ScriptMeta, c: int)
    requires
        0 <= c < meta.commands@.len(),
        meta.commands@[c].group matches Some(g) && !has_group(meta.command_groups@, g@),
    ensures
        declaration_fault(meta.command_groups@, meta.commands@) is Some,
        groups_fault(meta.command_groups@, meta.command_groups@.len() as int) is None
            && commands_fault(meta.command_groups@, meta.commands@, c) is None
            ==> declaration_fault(meta.command_groups@, meta.commands@) == Some(Fault::UnknownGroup(c)),
{
    let cmds = meta.commands@;
    let groups = meta.command_groups@;
    assert(commands_fault(groups, cmds, c + 1) is Some);
    lemma_commands_fault_settled(groups, cmds, c + 1, cmds.len() as int);
}

/// A command that names a declared group and a sub-group that this group does
/// not declare makes compilation fail, even where another group declares a
/// sub-group of that name. Where the groups are well-formed and no earlier
/// command is at fault, the failure is `UnknownSubGroup` for that command.
pub proof fn lemma_unknown_sub_group_fails(meta: ScriptMeta, c: int)
    requires
        0 <= c < meta.commands@.len(),
        meta.commands@[c].group matches Some(g) && has_group(meta.command_groups@, g@),
        meta.commands@[c].sub_group matches Some(s) && forall|i: int|
            0 <= i < meta.command_groups@.len() && #[trigger] meta.command_groups@[i].name@ == meta.commands@[c].group->0@
            ==> forall|k: int| 0 <= k < meta.command_groups@[i].sub_groups@.len()
            ==> #[trigger] meta.command_groups@[i].sub_groups@[k].name@ != s@,
    ensures
        declaration_fault(meta.command_groups@, meta.commands@) is Some,
        groups_fault(meta.command_groups@, meta.command_groups@.len() as int) is None
            && commands_fault(meta.command_groups@, meta.commands@, c) is None
            ==> declaration_fault(meta.command_groups@, meta.commands@) == Some(Fault::UnknownSubGroup(c)),
{
    let cmds = meta.commands@;
    let groups = meta.command_groups@;
    let g = cmds[c].group->0@;
    let s = cmds[c].sub_group->0@;
    assert(!has_sub_group(groups, g, s));
    assert(commands_fault(groups, cmds, c + 1) is Some);
    lemma_commands_fault_settled(groups, cmds, c + 1, cmds.len() as int);
}

/// Two groups with one name make compilation fail on the groups, before any
/// command is resolved or any option projected.
pub proof fn lemma_duplicate_group_fails(meta: ScriptMeta, i: int, j: int)
    requires
        0 <= i < j < meta.command_groups@.len(),
        meta.command_groups@[i].name@ == meta.command_groups@[j].name@,
    ensures
        declaration_fault(meta.command_groups@, meta.commands@) matches Some(f)
            && (f is DuplicateGroup || f is DuplicateSubGroup),
{
    let groups = meta.command_groups@;
    assert(dup_group_at(groups, j));
    assert(groups_fault(groups, j + 1) is Some);
    lemma_groups_fault_settled(groups, j + 1, groups.len() as int);
    lemma_groups_fault_kind(groups, groups.len() as int);
}

} // verus!
