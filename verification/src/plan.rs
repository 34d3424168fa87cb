//! What a parser of the command line has to know: its arguments and commands.

use vstd::prelude::*;

use crate::json::copy_texts;
use crate::list::{extend_by, map_list, move_in};
use crate::manifest::{
    aliases_by, copy_text, lemma_subcommands, select_aliases, AppData, AppSpec, CommandData,
    CommandSpec, OptionData, OptionSpec,
};
use crate::text::{replace, replaced, same};

verus! {

// ---------------------------------------------------------------------------
// Arguments
// ---------------------------------------------------------------------------

/// How an argument is given.
#[derive(Clone, Copy, Debug, PartialEq, Eq, Structural)]
pub enum ArgRole {
    /// By its name alone.
    Flag,
    /// By its name and a value.
    Value,
    /// By its place; at least so many.
    Positional(usize),
}

/// One argument of a command.
#[derive(Debug)]
pub struct ArgPlan {
    pub id: String,
    pub role: ArgRole,
    pub long: Option<String>,
    pub alias: Option<String>,
    pub short: Option<char>,
    pub global: bool,
    pub help: Option<String>,
    pub value_name: Option<String>,
    pub possible_values: Vec<String>,
    pub default_value: Option<String>,
}

#[verifier::ext_equal]
pub ghost struct ArgData {
    pub id: Seq<char>,
    pub role: ArgRole,
    pub long: Option<Seq<char>>,
    pub alias: Option<Seq<char>>,
    pub short: Option<char>,
    pub global: bool,
    pub help: Option<Seq<char>>,
    pub value_name: Option<Seq<char>>,
    pub possible_values: Seq<Seq<char>>,
    pub default_value: Option<Seq<char>>,
}

impl DeepView for ArgPlan {
    type V = ArgData;

    open spec fn deep_view(&self) -> ArgData {
        ArgData {
            id: self.id@,
            role: self.role,
            long: self.long.deep_view(),
            alias: self.alias.deep_view(),
            short: self.short,
            global: self.global,
            help: self.help.deep_view(),
            value_name: self.value_name.deep_view(),
            possible_values: self.possible_values.deep_view(),
            default_value: self.default_value.deep_view(),
        }
    }
}

/// The argument for an option. Its long name has hyphens; where that makes a difference, the name
/// with underscores is an alias.
pub open spec fn arg_for(option: OptionData, global: bool) -> ArgData {
    let long = replaced(option.long, "_"@, "-"@);
    ArgData {
        id: option.long,
        role: if option.takes_value {
            ArgRole::Value
        } else {
            ArgRole::Flag
        },
        long: Some(long),
        alias: if long == option.long {
            None
        } else {
            Some(option.long)
        },
        short: option.short,
        global,
        help: None,
        value_name: if option.takes_value {
            option.value_name
        } else {
            None
        },
        possible_values: if option.takes_value {
            option.possible_values
        } else {
            Seq::empty()
        },
        default_value: if option.takes_value {
            option.default_value
        } else {
            None
        },
    }
}

fn no_texts() -> (r: Vec<String>)
    ensures
        r.deep_view() == Seq::<Seq<char>>::empty(),
{
    let r: Vec<String> = Vec::new();
    assert(r.deep_view() =~= Seq::empty());
    r
}

pub fn build_arg(option_spec: &OptionSpec, global: bool) -> (r: ArgPlan)
    ensures
        r.deep_view() == arg_for(option_spec.deep_view(), global),
{
    let canonical_long = replace(option_spec.long.as_str(), "_", "-");
    let alias = if same(canonical_long.as_str(), option_spec.long.as_str()) {
        None
    } else {
        Some(option_spec.long.clone())
    };
    if option_spec.takes_value {
        ArgPlan {
            id: option_spec.long.clone(),
            role: ArgRole::Value,
            long: Some(canonical_long),
            alias,
            short: option_spec.short,
            global,
            help: None,
            value_name: copy_text(&option_spec.value_name),
            possible_values: copy_texts(&option_spec.possible_values),
            default_value: copy_text(&option_spec.default_value),
        }
    } else {
        ArgPlan {
            id: option_spec.long.clone(),
            role: ArgRole::Flag,
            long: Some(canonical_long),
            alias,
            short: option_spec.short,
            global,
            help: None,
            value_name: None,
            possible_values: no_texts(),
            default_value: None,
        }
    }
}

pub open spec fn args_for(options: Seq<OptionData>, global: bool) -> Seq<ArgData> {
    options.map_values(|o: OptionData| arg_for(o, global))
}

fn build_args(options: &Vec<OptionSpec>, global: bool) -> (r: Vec<ArgPlan>)
    ensures
        r.deep_view() == args_for(options.deep_view(), global),
{
    let build = |o: &OptionSpec| -> (r: ArgPlan)
        ensures
            r.deep_view() == arg_for(o.deep_view(), global),
    {
        build_arg(o, global)
    };
    map_list(options, build, Ghost(|o: OptionData| arg_for(o, global)))
}

/// A flag that no class defines.
pub open spec fn own_flag(
    id: Seq<char>,
    long: Seq<char>,
    short: Option<char>,
    global: bool,
    help: Seq<char>,
) -> ArgData {
    ArgData {
        id,
        role: ArgRole::Flag,
        long: Some(long),
        alias: None,
        short,
        global,
        help: Some(help),
        value_name: None,
        possible_values: Seq::empty(),
        default_value: None,
    }
}

fn make_flag(id: &str, long: &str, short: Option<char>, global: bool, help: &str) -> (r: ArgPlan)
    ensures
        r.deep_view() == own_flag(id@, long@, short, global, help@),
{
    ArgPlan {
        id: id.to_owned(),
        role: ArgRole::Flag,
        long: Some(long.to_owned()),
        alias: None,
        short,
        global,
        help: Some(help.to_owned()),
        value_name: None,
        possible_values: no_texts(),
        default_value: None,
    }
}

/// The arguments of a command that stand behind its options.
pub open spec fn rest_arg(min: usize) -> ArgData {
    ArgData {
        id: "args"@,
        role: ArgRole::Positional(min),
        long: None,
        alias: None,
        short: None,
        global: false,
        help: None,
        value_name: Some("ARGS"@),
        possible_values: Seq::empty(),
        default_value: None,
    }
}

fn make_rest_arg(min: usize) -> (r: ArgPlan)
    ensures
        r.deep_view() == rest_arg(min),
{
    ArgPlan {
        id: "args".to_owned(),
        role: ArgRole::Positional(min),
        long: None,
        alias: None,
        short: None,
        global: false,
        help: None,
        value_name: Some("ARGS".to_owned()),
        possible_values: no_texts(),
        default_value: None,
    }
}

// ---------------------------------------------------------------------------
// Commands
// ---------------------------------------------------------------------------

/// One command: its names, its arguments and its subcommands.
#[derive(Debug)]
pub struct CommandPlan {
    pub name: String,
    pub about: Option<String>,
    pub aliases: Vec<String>,
    pub args: Vec<ArgPlan>,
    pub subcommands: Vec<CommandPlan>,
}

#[verifier::ext_equal]
pub ghost struct PlanData {
    pub name: Seq<char>,
    pub about: Option<Seq<char>>,
    pub aliases: Seq<Seq<char>>,
    pub args: Seq<ArgData>,
    pub subcommands: Seq<PlanData>,
}

pub open spec fn no_plan() -> PlanData {
    PlanData {
        name: Seq::empty(),
        about: None,
        aliases: Seq::empty(),
        args: Seq::empty(),
        subcommands: Seq::empty(),
    }
}

/// What a [`CommandPlan`] stands for.
pub open spec fn plan_data(p: CommandPlan) -> PlanData
    decreases p,
{
    PlanData {
        name: p.name@,
        about: p.about.deep_view(),
        aliases: p.aliases.deep_view(),
        args: p.args.deep_view(),
        subcommands: Seq::new(
            p.subcommands@.len(),
            |i: int|
                if 0 <= i < p.subcommands@.len() {
                    plan_data(p.subcommands@[i])
                } else {
                    no_plan()
                },
        ),
    }
}

impl DeepView for CommandPlan {
    type V = PlanData;

    open spec fn deep_view(&self) -> PlanData {
        plan_data(*self)
    }
}

proof fn lemma_subplans(p: CommandPlan)
    ensures
        p.deep_view().subcommands == p.subcommands.deep_view(),
{
    assert(p.deep_view().subcommands =~= p.subcommands.deep_view());
}

/// The arguments of a command: its options, and where it has no subcommands what stands behind
/// them.
pub open spec fn command_args(c: CommandData) -> Seq<ArgData> {
    if c.subcommands.len() == 0 {
        args_for(c.options, false).push(rest_arg(c.min_args as usize))
    } else {
        args_for(c.options, false)
    }
}

/// The plan of a command. Aliases that look like flags are left out.
pub open spec fn plan_for(c: CommandData) -> PlanData
    decreases c,
{
    PlanData {
        name: c.name,
        about: Some(c.about),
        aliases: aliases_by(c.aliases, false),
        args: command_args(c),
        subcommands: plans_for(c.subcommands),
    }
}

pub open spec fn plans_for(cs: Seq<CommandData>) -> Seq<PlanData>
    decreases cs,
{
    if cs.len() == 0 {
        Seq::empty()
    } else {
        plans_for(cs.drop_last()).push(plan_for(cs.last()))
    }
}

pub fn build_subcommand(command_spec: &CommandSpec) -> (r: CommandPlan)
    ensures
        r.deep_view() == plan_for(command_spec.deep_view()),
    decreases command_spec,
{
    proof {
        lemma_subcommands(*command_spec);
    }
    let v = &command_spec.subcommands;
    let ghost all = v.deep_view();
    assert(all.len() == v@.len());
    let mut args = build_args(&command_spec.options, false);
    if v.len() == 0 {
        extend_by(&mut args, make_rest_arg(command_spec.min_args));
    }
    let mut subcommands: Vec<CommandPlan> = Vec::new();
    let mut i: usize = 0;
    assert(decreases_to!(*command_spec => command_spec.subcommands));
    assert(decreases_to!(*v => v@));
    assert(subcommands.deep_view() =~= plans_for(all.take(0)));
    while i < v.len()
        invariant
            i <= v@.len(),
            all == v.deep_view(),
            decreases_to!(*command_spec => v@),
            subcommands.deep_view() == plans_for(all.take(i as int)),
        decreases v@.len() - i,
    {
        assert(decreases_to!(v@ => v@[i as int]));
        assert(all.take(i + 1).drop_last() =~= all.take(i as int));
        assert(all.take(i + 1).last() == v@[i as int].deep_view());
        extend_by(&mut subcommands, build_subcommand(&v[i]));
        i += 1;
    }
    assert(all.take(i as int) =~= all);
    let r = CommandPlan {
        name: command_spec.name.clone(),
        about: Some(command_spec.about.clone()),
        aliases: select_aliases(&command_spec.aliases, false),
        args,
        subcommands,
    };
    proof {
        lemma_subplans(r);
    }
    r
}

/// The plan of a top-level command; that of `status` has a flag for the conversation.
pub open spec fn top_plan(c: CommandData) -> PlanData {
    let plan = plan_for(c);
    if c.name == "status"@ {
        PlanData {
            args: plan.args.push(
                own_flag(
                    "thread"@,
                    "thread"@,
                    None,
                    false,
                    "Expand the full conversation thread"@,
                ),
            ),
            ..plan
        }
    } else {
        plan
    }
}

fn build_top(command_spec: &CommandSpec) -> (r: CommandPlan)
    ensures
        r.deep_view() == top_plan(command_spec.deep_view()),
{
    let mut plan = build_subcommand(command_spec);
    let ghost before = plan;
    if same(command_spec.name.as_str(), "status") {
        extend_by(
            &mut plan.args,
            make_flag(
                "thread",
                "thread",
                None,
                false,
                "Expand the full conversation thread",
            ),
        );
        proof {
            lemma_subplans(before);
            lemma_subplans(plan);
        }
    }
    plan
}

/// Whether the version command can be called as a flag.
pub open spec fn has_version_flag(aliases: Seq<Seq<char>>) -> bool {
    aliases.contains("-v"@) || aliases.contains("--version"@)
}

fn finds(texts: &Vec<String>, text: &str) -> (r: bool)
    ensures
        r == texts.deep_view().contains(text@),
{
    let ghost all = texts.deep_view();
    let mut i: usize = 0;
    while i < texts.len()
        invariant
            i <= texts@.len(),
            all == texts.deep_view(),
            forall|k: int| 0 <= k < i ==> all[k] != text@,
        decreases texts@.len() - i,
    {
        assert(all[i as int] == texts@[i as int]@);
        if same(texts[i].as_str(), text) {
            assert(all.contains(text@));
            return true;
        }
        i += 1;
    }
    false
}

/// The arguments that all commands share.
pub open spec fn global_args(app: AppData) -> Seq<ArgData> {
    let version = if has_version_flag(app.version_aliases) {
        seq![own_flag("version_flag"@, "version"@, Some('v'), true, "Show version"@)]
    } else {
        Seq::empty()
    };
    (args_for(app.class_options, true) + version).push(
        own_flag("json"@, "json"@, Some('j'), true, "Output results as JSON"@),
    )
}

fn build_global_args(app_spec: &AppSpec) -> (r: Vec<ArgPlan>)
    ensures
        r.deep_view() == global_args(app_spec.deep_view()),
{
    let mut args = build_args(&app_spec.class_options, true);
    let ghost own = args.deep_view();
    if finds(&app_spec.version_aliases, "-v") || finds(&app_spec.version_aliases, "--version") {
        extend_by(
            &mut args,
            make_flag("version_flag", "version", Some('v'), true, "Show version"),
        );
        assert(args.deep_view() =~= own + seq![
            own_flag("version_flag"@, "version"@, Some('v'), true, "Show version"@),
        ]);
    } else {
        assert(args.deep_view() =~= own + Seq::empty());
    }
    extend_by(&mut args, make_flag("json", "json", Some('j'), true, "Output results as JSON"));
    args
}

/// The plan of the whole command line.
pub open spec fn app_plan(app: AppData) -> PlanData {
    PlanData {
        name: "x"@,
        about: None,
        aliases: Seq::empty(),
        args: global_args(app),
        subcommands: app.commands.map_values(|c: CommandData| top_plan(c)),
    }
}

pub fn command_plan(app_spec: &AppSpec) -> (r: CommandPlan)
    ensures
        r.deep_view() == app_plan(app_spec.deep_view()),
{
    let build = |c: &CommandSpec| -> (r: CommandPlan)
        ensures
            r.deep_view() == top_plan(c.deep_view()),
    {
        build_top(c)
    };
    let subcommands = map_list(
        &app_spec.commands,
        build,
        Ghost(|c: CommandData| top_plan(c)),
    );
    let r = CommandPlan {
        name: "x".to_owned(),
        about: None,
        aliases: no_texts(),
        args: build_global_args(app_spec),
        subcommands,
    };
    proof {
        lemma_subplans(r);
    }
    r
}

// ---------------------------------------------------------------------------
// Paths
// ---------------------------------------------------------------------------

/// Whether a command is called by a name: its own, or an alias.
pub open spec fn is_called(plan: PlanData, name: Seq<char>) -> bool {
    plan.name == name || plan.aliases.contains(name)
}

/// The place of the first command that is called by a name.
pub open spec fn first_called(plans: Seq<PlanData>, name: Seq<char>) -> Option<nat>
    decreases plans.len(),
{
    if plans.len() == 0 {
        None
    } else {
        match first_called(plans.drop_last(), name) {
            Some(i) => Some(i),
            None => if is_called(plans.last(), name) {
                Some((plans.len() - 1) as nat)
            } else {
                None
            },
        }
    }
}

proof fn lemma_first_called_stays(plans: Seq<PlanData>, name: Seq<char>, n: int)
    requires
        0 <= n <= plans.len(),
        first_called(plans.take(n), name) is Some,
    ensures
        first_called(plans, name) == first_called(plans.take(n), name),
    decreases plans.len(),
{
    if n == plans.len() {
        assert(plans.take(n) =~= plans);
    } else {
        assert(plans.drop_last().take(n) =~= plans.take(n));
        lemma_first_called_stays(plans.drop_last(), name, n);
    }
}

fn find_called(plans: &Vec<CommandPlan>, name: &str) -> (r: Option<usize>)
    ensures
        match r {
            Some(i) => i < plans@.len() && first_called(plans.deep_view(), name@) == Some(i as nat),
            None => first_called(plans.deep_view(), name@) is None,
        },
{
    let ghost all = plans.deep_view();
    let mut i: usize = 0;
    while i < plans.len()
        invariant
            i <= plans@.len(),
            all == plans.deep_view(),
            first_called(all.take(i as int), name@) is None,
        decreases plans@.len() - i,
    {
        assert(all.take(i + 1).drop_last() =~= all.take(i as int));
        assert(all.take(i + 1).last() == plans@[i as int].deep_view());
        if same(plans[i].name.as_str(), name) || finds(&plans[i].aliases, name) {
            proof {
                lemma_first_called_stays(all, name@, (i + 1) as int);
            }
            return Some(i);
        }
        i += 1;
    }
    assert(all.take(i as int) =~= all);
    None
}

/// The command that a path of names leads to.
pub open spec fn plan_at(plan: PlanData, path: Seq<Seq<char>>) -> Option<PlanData>
    decreases path.len(),
{
    if path.len() == 0 {
        Some(plan)
    } else {
        match first_called(plan.subcommands, path[0]) {
            Some(i) => plan_at(plan.subcommands[i as int], path.drop_first()),
            None => None,
        }
    }
}

fn find_plan<'a>(plan: &'a CommandPlan, path: &Vec<String>, from: usize) -> (r: Option<
    &'a CommandPlan,
>)
    requires
        from <= path@.len(),
    ensures
        r.deep_view() == plan_at(plan.deep_view(), path.deep_view().skip(from as int)),
    decreases path@.len() - from,
{
    let ghost rest = path.deep_view().skip(from as int);
    if from == path.len() {
        return Some(plan);
    }
    assert(rest[0] == path@[from as int]@);
    assert(rest.drop_first() =~= path.deep_view().skip(from + 1));
    proof {
        lemma_subplans(*plan);
    }
    match find_called(&plan.subcommands, path[from].as_str()) {
        Some(i) => {
            assert(plan.deep_view().subcommands[i as int]
                == plan.subcommands@[i as int].deep_view());
            find_plan(&plan.subcommands[i], path, from + 1)
        },
        None => None,
    }
}

/// The command that a path of names leads to.
pub fn command_for_path<'a>(plan: &'a CommandPlan, path: &Vec<String>) -> (r: Option<
    &'a CommandPlan,
>)
    ensures
        r.deep_view() == plan_at(plan.deep_view(), path.deep_view()),
{
    assert(path.deep_view().skip(0) =~= path.deep_view());
    find_plan(plan, path, 0)
}

/// The words that ask for help on a command that needs a subcommand; nothing for others.
pub open spec fn group_help(plan: PlanData, path: Seq<Seq<char>>) -> Option<Seq<Seq<char>>> {
    match plan_at(plan, path) {
        Some(group) => if group.subcommands.len() > 0 {
            Some((seq!["x"@] + path).push("--help"@))
        } else {
            None
        },
        None => None,
    }
}

pub fn group_help_args(plan: &CommandPlan, path: &Vec<String>) -> (r: Option<Vec<String>>)
    ensures
        r.deep_view() == group_help(plan.deep_view(), path.deep_view()),
{
    match command_for_path(plan, path) {
        Some(group) => {
            proof {
                lemma_subplans(*group);
            }
            assert(group.subcommands.deep_view().len() == group.subcommands@.len());
            if group.subcommands.len() > 0 {
                let mut args: Vec<String> = vec!["x".to_owned()];
                assert(args.deep_view() =~= seq!["x"@]);
                move_in(&mut args, copy_texts(path));
                extend_by(&mut args, "--help".to_owned());
                Some(args)
            } else {
                None
            }
        },
        None => None,
    }
}

/// What a command line that was parsed comes to.
pub enum Start {
    /// The version is shown.
    Version,
    /// The help on the whole is shown.
    Help,
    /// The words that ask for help on a group are parsed in place of those that were given.
    GroupHelp(Vec<String>),
    /// A command is run.
    Run,
}

pub ghost enum StartData {
    Version,
    Help,
    GroupHelp(Seq<Seq<char>>),
    Run,
}

impl DeepView for Start {
    type V = StartData;

    open spec fn deep_view(&self) -> StartData {
        match *self {
            Start::Version => StartData::Version,
            Start::Help => StartData::Help,
            Start::GroupHelp(words) => StartData::GroupHelp(words.deep_view()),
            Start::Run => StartData::Run,
        }
    }
}

/// Where no command is named, the version is shown where it was asked for, and else the help. A
/// group is answered with its help.
pub open spec fn start_of(plan: PlanData, version_flag: bool, path: Seq<Seq<char>>) -> StartData {
    if path.len() == 0 {
        if version_flag {
            StartData::Version
        } else {
            StartData::Help
        }
    } else {
        match group_help(plan, path) {
            Some(words) => StartData::GroupHelp(words),
            None => StartData::Run,
        }
    }
}

pub fn first_step(plan: &CommandPlan, version_flag: bool, path: &Vec<String>) -> (r: Start)
    ensures
        r.deep_view() == start_of(plan.deep_view(), version_flag, path.deep_view()),
{
    assert(path.deep_view().len() == path@.len());
    if path.len() == 0 {
        return if version_flag {
            Start::Version
        } else {
            Start::Help
        };
    }
    match group_help_args(plan, path) {
        Some(words) => Start::GroupHelp(words),
        None => Start::Run,
    }
}

// ---------------------------------------------------------------------------
// Laws
// ---------------------------------------------------------------------------

/// A plan has the commands of the manifest, in their order and under their names; those without
/// subcommands, and no others, take further arguments.
pub proof fn law_plan_keeps_the_commands(cs: Seq<CommandData>, i: int)
    requires
        0 <= i < cs.len(),
    ensures
        plans_for(cs).len() == cs.len(),
        plans_for(cs)[i] == plan_for(cs[i]),
        plan_for(cs[i]).name == cs[i].name,
        plan_for(cs[i]).about == Some(cs[i].about),
        plan_for(cs[i]).subcommands.len() == cs[i].subcommands.len(),
        plan_for(cs[i]).args.len() == cs[i].options.len() + (if cs[i].subcommands.len() == 0 {
            1int
        } else {
            0int
        }),
    decreases cs.len(),
{
    lemma_plan_count(cs);
    lemma_plan_count(cs[i].subcommands);
    if i < cs.len() - 1 {
        law_plan_keeps_the_commands(cs.drop_last(), i);
        lemma_plan_count(cs.drop_last());
        assert(cs.drop_last()[i] == cs[i]);
    } else {
        lemma_plan_count(cs.drop_last());
    }
}

proof fn lemma_plan_count(cs: Seq<CommandData>)
    ensures
        plans_for(cs).len() == cs.len(),
    decreases cs.len(),
{
    if cs.len() > 0 {
        lemma_plan_count(cs.drop_last());
    }
}

} // verus!
