//! The commands of the command line: their names, options and descriptions.

use vstd::prelude::*;

use crate::descriptions::{describe, description};
use crate::json::copy_texts;
use crate::list::{extend_by, map_list};
use crate::sources::{
    cli_source, cli_text, COLLECTION_RB, DELETE_RB, LIST_RB, SEARCH_RB, SET_RB, STREAM_RB,
};
use crate::text::{begins_with, same, starts_with};
use crate::thor::{class_in, parse_class, ClassData, ClassSpec};

verus! {

// ---------------------------------------------------------------------------
// Options
// ---------------------------------------------------------------------------

/// Description of one option.
#[derive(Debug, PartialEq, Eq)]
pub struct OptionSpec {
    /// Long option name without `--`.
    pub long: String,
    /// Optional short option character.
    pub short: Option<char>,
    /// Whether the option accepts a value.
    pub takes_value: bool,
    /// Optional placeholder used in help output.
    pub value_name: Option<String>,
    /// Allowed values for this option.
    pub possible_values: Vec<String>,
    /// Optional default value.
    pub default_value: Option<String>,
}

#[verifier::ext_equal]
pub ghost struct OptionData {
    pub long: Seq<char>,
    pub short: Option<char>,
    pub takes_value: bool,
    pub value_name: Option<Seq<char>>,
    pub possible_values: Seq<Seq<char>>,
    pub default_value: Option<Seq<char>>,
}

impl DeepView for OptionSpec {
    type V = OptionData;

    open spec fn deep_view(&self) -> OptionData {
        OptionData {
            long: self.long@,
            short: self.short,
            takes_value: self.takes_value,
            value_name: self.value_name.deep_view(),
            possible_values: self.possible_values.deep_view(),
            default_value: self.default_value.deep_view(),
        }
    }
}

pub(crate) fn copy_text(s: &Option<String>) -> (r: Option<String>)
    ensures
        r.deep_view() == s.deep_view(),
{
    match s {
        Some(t) => Some(t.clone()),
        None => None,
    }
}

impl OptionSpec {
    pub fn copy(&self) -> (r: OptionSpec)
        ensures
            r.deep_view() == self.deep_view(),
    {
        OptionSpec {
            long: self.long.clone(),
            short: self.short,
            takes_value: self.takes_value,
            value_name: copy_text(&self.value_name),
            possible_values: copy_texts(&self.possible_values),
            default_value: copy_text(&self.default_value),
        }
    }
}

impl Clone for OptionSpec {
    fn clone(&self) -> (r: OptionSpec)
        ensures
            r.deep_view() == self.deep_view(),
    {
        self.copy()
    }
}

pub fn copy_options(options: &Vec<OptionSpec>) -> (r: Vec<OptionSpec>)
    ensures
        r.deep_view() == options.deep_view(),
{
    let copy = |o: &OptionSpec| -> (r: OptionSpec)
        ensures
            r.deep_view() == o.deep_view(),
    {
        o.copy()
    };
    let all = map_list(options, copy, Ghost(|o: OptionData| o));
    assert(options.deep_view().map_values(|o: OptionData| o) =~= options.deep_view());
    all
}

// ---------------------------------------------------------------------------
// Commands
// ---------------------------------------------------------------------------

/// Specification of one command or subcommand.
#[derive(Debug, PartialEq, Eq)]
pub struct CommandSpec {
    /// Displayed command token used on the command line.
    pub name: String,
    /// Method symbol backing this command.
    pub method: String,
    /// One-line help text.
    pub about: String,
    /// Minimum positional argument count required by the command.
    pub min_args: usize,
    /// Command-local options.
    pub options: Vec<OptionSpec>,
    /// Command aliases.
    pub aliases: Vec<String>,
    /// Optional class name used to load nested subcommands.
    pub subcommand_class: Option<String>,
    /// Resolved nested subcommands.
    pub subcommands: Vec<CommandSpec>,
}

#[verifier::ext_equal]
pub ghost struct CommandData {
    pub name: Seq<char>,
    pub method: Seq<char>,
    pub about: Seq<char>,
    pub min_args: nat,
    pub options: Seq<OptionData>,
    pub aliases: Seq<Seq<char>>,
    pub subcommand_class: Option<Seq<char>>,
    pub subcommands: Seq<CommandData>,
}

/// A command with nothing to it.
pub open spec fn no_command() -> CommandData {
    CommandData {
        name: Seq::empty(),
        method: Seq::empty(),
        about: Seq::empty(),
        min_args: 0,
        options: Seq::empty(),
        aliases: Seq::empty(),
        subcommand_class: None,
        subcommands: Seq::empty(),
    }
}

/// What a [`CommandSpec`] stands for.
pub open spec fn command_data(c: CommandSpec) -> CommandData
    decreases c,
{
    CommandData {
        name: c.name@,
        method: c.method@,
        about: c.about@,
        min_args: c.min_args as nat,
        options: c.options.deep_view(),
        aliases: c.aliases.deep_view(),
        subcommand_class: c.subcommand_class.deep_view(),
        subcommands: Seq::new(
            c.subcommands@.len(),
            |i: int|
                if 0 <= i < c.subcommands@.len() {
                    command_data(c.subcommands@[i])
                } else {
                    no_command()
                },
        ),
    }
}

impl DeepView for CommandSpec {
    type V = CommandData;

    open spec fn deep_view(&self) -> CommandData {
        command_data(*self)
    }
}

/// The subcommands of what a command stands for are what its subcommands stand for.
pub proof fn lemma_subcommands(c: CommandSpec)
    ensures
        c.deep_view().subcommands == c.subcommands.deep_view(),
{
    assert(c.deep_view().subcommands =~= c.subcommands.deep_view());
}

impl CommandSpec {
    /// An equal command.
    pub fn copy(&self) -> (r: CommandSpec)
        ensures
            r.deep_view() == self.deep_view(),
        decreases self,
    {
        let v = &self.subcommands;
        assert(decreases_to!(*self => self.subcommands));
        assert(decreases_to!(*v => v@));
        let mut out: Vec<CommandSpec> = Vec::new();
        let mut i: usize = 0;
        while i < v.len()
            invariant
                i <= v@.len(),
                *v == self.subcommands,
                decreases_to!(*self => v@),
                out@.len() == i,
                forall|k: int| 0 <= k < i ==> (#[trigger] out@[k]).deep_view() == v@[k].deep_view(),
            decreases v@.len() - i,
        {
            assert(decreases_to!(v@ => v@[i as int]));
            out.push(v[i].copy());
            i += 1;
        }
        let r = CommandSpec {
            name: self.name.clone(),
            method: self.method.clone(),
            about: self.about.clone(),
            min_args: self.min_args,
            options: copy_options(&self.options),
            aliases: copy_texts(&self.aliases),
            subcommand_class: copy_text(&self.subcommand_class),
            subcommands: out,
        };
        proof {
            lemma_subcommands(*self);
            lemma_subcommands(r);
            assert(out.deep_view() =~= v.deep_view());
        }
        r
    }

    /// The same command with other subcommands.
    fn with_subcommands(&self, subcommands: Vec<CommandSpec>) -> (r: CommandSpec)
        ensures
            r.deep_view() == (CommandData {
                subcommands: subcommands.deep_view(),
                ..self.deep_view()
            }),
    {
        let r = CommandSpec {
            name: self.name.clone(),
            method: self.method.clone(),
            about: self.about.clone(),
            min_args: self.min_args,
            options: copy_options(&self.options),
            aliases: copy_texts(&self.aliases),
            subcommand_class: copy_text(&self.subcommand_class),
            subcommands,
        };
        proof {
            lemma_subcommands(r);
        }
        r
    }
}

impl Clone for CommandSpec {
    fn clone(&self) -> (r: CommandSpec)
        ensures
            r.deep_view() == self.deep_view(),
    {
        self.copy()
    }
}

/// Top-level specification of the command line.
#[derive(Debug)]
pub struct AppSpec {
    /// Global class options shared by commands.
    pub class_options: Vec<OptionSpec>,
    /// Top-level commands.
    pub commands: Vec<CommandSpec>,
    /// Aliases of the version command that are flags.
    pub version_aliases: Vec<String>,
}

#[verifier::ext_equal]
pub ghost struct AppData {
    pub class_options: Seq<OptionData>,
    pub commands: Seq<CommandData>,
    pub version_aliases: Seq<Seq<char>>,
}

impl DeepView for AppSpec {
    type V = AppData;

    open spec fn deep_view(&self) -> AppData {
        AppData {
            class_options: self.class_options.deep_view(),
            commands: self.commands.deep_view(),
            version_aliases: self.version_aliases.deep_view(),
        }
    }
}

impl Clone for AppSpec {
    fn clone(&self) -> (r: AppSpec)
        ensures
            r.deep_view() == self.deep_view(),
    {
        let copy = |c: &CommandSpec| -> (r: CommandSpec)
            ensures
                r.deep_view() == c.deep_view(),
        {
            c.copy()
        };
        let commands = map_list(&self.commands, copy, Ghost(|c: CommandData| c));
        assert(self.commands.deep_view().map_values(|c: CommandData| c)
            =~= self.commands.deep_view());
        AppSpec {
            class_options: copy_options(&self.class_options),
            commands,
            version_aliases: copy_texts(&self.version_aliases),
        }
    }
}

// ---------------------------------------------------------------------------
// Leaves
// ---------------------------------------------------------------------------

/// The commands without subcommands in a command, each with the names that lead to it.
pub open spec fn leaves_of(c: CommandData, parent: Seq<Seq<char>>) -> Seq<
    (Seq<Seq<char>>, CommandData),
>
    decreases c,
{
    let path = parent.push(c.name);
    if c.subcommands.len() == 0 {
        seq![(path, c)]
    } else {
        leaves_in(c.subcommands, path)
    }
}

/// The commands without subcommands in a list of commands.
pub open spec fn leaves_in(cs: Seq<CommandData>, parent: Seq<Seq<char>>) -> Seq<
    (Seq<Seq<char>>, CommandData),
>
    decreases cs,
{
    if cs.len() == 0 {
        Seq::empty()
    } else {
        leaves_in(cs.drop_last(), parent) + leaves_of(cs.last(), parent)
    }
}

/// Flattens a command tree into `(path, leaf_command)` tuples.
pub fn flatten_leaf_commands(commands: &Vec<CommandSpec>) -> (r: Vec<(Vec<String>, CommandSpec)>)
    ensures
        r.deep_view() == leaves_in(commands.deep_view(), Seq::empty()),
{
    let mut leaves: Vec<(Vec<String>, CommandSpec)> = Vec::new();
    let mut path: Vec<String> = Vec::new();
    let mut i: usize = 0;
    let ghost all = commands.deep_view();
    assert(path.deep_view() =~= Seq::empty());
    assert(leaves.deep_view() =~= leaves_in(all.take(0), Seq::empty()));
    while i < commands.len()
        invariant
            i <= commands@.len(),
            all == commands.deep_view(),
            path.deep_view() == Seq::<Seq<char>>::empty(),
            leaves.deep_view() == leaves_in(all.take(i as int), Seq::empty()),
        decreases commands@.len() - i,
    {
        assert(all.take(i + 1).drop_last() =~= all.take(i as int));
        assert(all.take(i + 1).last() == commands@[i as int].deep_view());
        collect_leaf_commands(&commands[i], &mut path, &mut leaves);
        i += 1;
    }
    assert(all.take(i as int) =~= all);
    leaves
}

/// Adds the leaves of a command, under the path that leads to it.
pub fn collect_leaf_commands(
    command: &CommandSpec,
    parent_path: &mut Vec<String>,
    leaves: &mut Vec<(Vec<String>, CommandSpec)>,
)
    ensures
        final(parent_path).deep_view() == old(parent_path).deep_view(),
        final(leaves).deep_view() == old(leaves).deep_view() + leaves_of(
            command.deep_view(),
            old(parent_path).deep_view(),
        ),
    decreases command,
{
    let ghost parent = parent_path.deep_view();
    let ghost before = leaves.deep_view();
    let ghost path = parent.push(command.name@);
    proof {
        lemma_subcommands(*command);
    }
    extend_by(parent_path, command.name.clone());
    let v = &command.subcommands;
    let ghost all = v.deep_view();
    assert(all.len() == v@.len());
    if v.len() == 0 {
        extend_by(leaves, (copy_texts(parent_path), command.copy()));
        assert(leaves.deep_view() =~= before + leaves_of(command.deep_view(), parent));
    } else {
        assert(decreases_to!(*command => command.subcommands));
        assert(decreases_to!(*v => v@));
        let mut i: usize = 0;
        assert(leaves.deep_view() =~= before + leaves_in(all.take(0), path));
        while i < v.len()
            invariant
                i <= v@.len(),
                decreases_to!(*command => v@),
                all == v.deep_view(),
                parent_path.deep_view() == path,
                leaves.deep_view() == before + leaves_in(all.take(i as int), path),
            decreases v@.len() - i,
        {
            assert(decreases_to!(v@ => v@[i as int]));
            assert(all.take(i + 1).drop_last() =~= all.take(i as int));
            assert(all.take(i + 1).last() == v@[i as int].deep_view());
            collect_leaf_commands(&v[i], parent_path, leaves);
            i += 1;
            assert(leaves.deep_view() =~= before + leaves_in(all.take(i as int), path));
        }
        assert(all.take(i as int) =~= all);
    }
    let ghost full = parent_path@;
    assert(parent_path.deep_view() == path);
    assert(path.len() == full.len());
    assert forall|i: int| 0 <= i < path.len() implies path[i] == (#[trigger] full[i])@ by {
        assert(parent_path.deep_view()[i] == parent_path@[i]@);
    }
    let _ = parent_path.pop();
    proof {
        assert(parent_path@ =~= full.drop_last());
        assert forall|i: int| 0 <= i < parent.len() implies parent_path.deep_view()[i]
            == parent[i] by {
            assert(parent_path.deep_view()[i] == parent_path@[i]@);
            assert(parent_path@[i] == full[i]);
        }
        assert(parent_path.deep_view() =~= parent);
    }
}

/// Whether a path of names leads to a command, by a command of each name within the one before.
pub open spec fn leads_to(cs: Seq<CommandData>, path: Seq<Seq<char>>, leaf: CommandData) -> bool
    decreases path.len(),
{
    path.len() > 0 && exists|i: int|
        0 <= i < cs.len() && (#[trigger] cs[i]).name == path[0] && if path.len() == 1 {
            cs[i] == leaf
        } else {
            leads_to(cs[i].subcommands, path.drop_first(), leaf)
        }
}

/// Each leaf is a command without subcommands, its path starts with that of its parent, goes on
/// with the names of the commands that lead to it and ends with its own.
pub proof fn law_leaves_are_reached_by_their_paths(
    cs: Seq<CommandData>,
    parent: Seq<Seq<char>>,
    k: int,
)
    requires
        0 <= k < leaves_in(cs, parent).len(),
    ensures
        ({
            let (path, leaf) = leaves_in(cs, parent)[k];
            &&& leaf.subcommands.len() == 0
            &&& path.len() > parent.len()
            &&& path.take(parent.len() as int) == parent
            &&& path.last() == leaf.name
            &&& leads_to(cs, path.skip(parent.len() as int), leaf)
        }),
    decreases cs,
{
    let (path, leaf) = leaves_in(cs, parent)[k];
    let n = parent.len() as int;
    let rest = leaves_in(cs.drop_last(), parent);
    if k < rest.len() {
        law_leaves_are_reached_by_their_paths(cs.drop_last(), parent, k);
        lemma_more_commands(cs, path.skip(n), leaf);
    } else {
        let c = cs.last();
        let own = parent.push(c.name);
        let j = k - rest.len();
        assert(leaves_of(c, parent)[j] == (path, leaf));
        assert(cs[cs.len() - 1] == c);
        if c.subcommands.len() == 0 {
            assert(path == own && leaf == c);
            assert(path.take(n) =~= parent);
            assert(path.skip(n) =~= seq![c.name]);
        } else {
            assert(decreases_to!(cs => cs[cs.len() - 1]));
            assert(decreases_to!(c => c.subcommands));
            law_leaves_are_reached_by_their_paths(c.subcommands, own, j);
            assert(path.take(n) =~= path.take(n + 1).take(n));
            assert(own.take(n) =~= parent);
            assert(path.skip(n)[0] == path.take(n + 1)[n]);
            assert(path.skip(n).drop_first() =~= path.skip(n + 1));
        }
    }
}

/// A leaf with a path in front of its own.
pub open spec fn under(front: Seq<Seq<char>>, leaf: (Seq<Seq<char>>, CommandData)) -> (
    Seq<Seq<char>>,
    CommandData,
) {
    (front + leaf.0, leaf.1)
}

/// The leaves under a path are those that the command has alone, each with the path in front.
pub proof fn law_paths_stand_in_front(
    c: CommandData,
    front: Seq<Seq<char>>,
    parent: Seq<Seq<char>>,
)
    ensures
        leaves_of(c, front + parent) == leaves_of(c, parent).map_values(
            |l: (Seq<Seq<char>>, CommandData)| under(front, l),
        ),
        leaves_of(c, front) == leaves_in(seq![c], Seq::empty()).map_values(
            |l: (Seq<Seq<char>>, CommandData)| under(front, l),
        ),
{
    lemma_front(c, front, parent);
    lemma_front(c, front, Seq::empty());
    assert(front + Seq::<Seq<char>>::empty() =~= front);
    assert(seq![c].drop_last() =~= Seq::empty());
    assert(seq![c].last() == c);
    assert(leaves_in(Seq::<CommandData>::empty(), Seq::empty()) =~= Seq::empty());
    assert(leaves_in(seq![c], Seq::empty()) =~= leaves_of(c, Seq::empty()));
}

proof fn lemma_front(c: CommandData, front: Seq<Seq<char>>, parent: Seq<Seq<char>>)
    ensures
        leaves_of(c, front + parent) == leaves_of(c, parent).map_values(
            |l: (Seq<Seq<char>>, CommandData)| under(front, l),
        ),
    decreases c,
{
    assert((front + parent).push(c.name) =~= front + parent.push(c.name));
    if c.subcommands.len() > 0 {
        assert(decreases_to!(c => c.subcommands));
        lemma_front_of_all(c.subcommands, front, parent.push(c.name));
    }
    assert(leaves_of(c, front + parent) =~= leaves_of(c, parent).map_values(
        |l: (Seq<Seq<char>>, CommandData)| under(front, l),
    ));
}

proof fn lemma_front_of_all(cs: Seq<CommandData>, front: Seq<Seq<char>>, parent: Seq<Seq<char>>)
    ensures
        leaves_in(cs, front + parent) == leaves_in(cs, parent).map_values(
            |l: (Seq<Seq<char>>, CommandData)| under(front, l),
        ),
    decreases cs,
{
    if cs.len() > 0 {
        assert(decreases_to!(cs => cs[cs.len() - 1]));
        lemma_front_of_all(cs.drop_last(), front, parent);
        lemma_front(cs.last(), front, parent);
    }
    assert(leaves_in(cs, front + parent) =~= leaves_in(cs, parent).map_values(
        |l: (Seq<Seq<char>>, CommandData)| under(front, l),
    ));
}

proof fn lemma_more_commands(cs: Seq<CommandData>, path: Seq<Seq<char>>, leaf: CommandData)
    requires
        cs.len() > 0,
        leads_to(cs.drop_last(), path, leaf),
    ensures
        leads_to(cs, path, leaf),
{
    let fewer = cs.drop_last();
    let i = choose|i: int|
        0 <= i < fewer.len() && (#[trigger] fewer[i]).name == path[0] && if path.len() == 1 {
            fewer[i] == leaf
        } else {
            leads_to(fewer[i].subcommands, path.drop_first(), leaf)
        };
    assert(cs[i] == fewer[i]);
}

// ---------------------------------------------------------------------------
// Classes
// ---------------------------------------------------------------------------

/// The class of a name: the last one, where there are several.
pub open spec fn class_for(classes: Seq<(Seq<char>, ClassData)>, name: Seq<char>) -> Option<
    ClassData,
>
    decreases classes.len(),
{
    if classes.len() == 0 {
        None
    } else if classes.last().0 == name {
        Some(classes.last().1)
    } else {
        class_for(classes.drop_last(), name)
    }
}

fn find_class<'a>(classes: &'a Vec<(String, ClassSpec)>, name: &str) -> (r: Option<&'a ClassSpec>)
    ensures
        r.deep_view() == class_for(classes.deep_view(), name@),
{
    let ghost all = classes.deep_view();
    let mut i: usize = classes.len();
    assert(all.take(all.len() as int) =~= all);
    while i > 0
        invariant
            i <= classes.len(),
            all == classes.deep_view(),
            class_for(all, name@) == class_for(all.take(i as int), name@),
        decreases i,
    {
        assert(all.take(i as int).last() == classes@[i - 1].deep_view());
        assert(all.take(i as int).drop_last() =~= all.take(i - 1));
        if same(classes[i - 1].0.as_str(), name) {
            return Some(&classes[i - 1].1);
        }
        i -= 1;
    }
    None
}

/// A command with the subcommands of its class.
pub open spec fn with_class(
    c: CommandData,
    classes: Seq<(Seq<char>, ClassData)>,
    depth: nat,
) -> CommandData
    decreases depth, 1nat,
{
    match c.subcommand_class {
        Some(class) => CommandData { subcommands: resolved(class, classes, depth), ..c },
        None => c,
    }
}

/// The commands of a class with their subcommands, down to a depth.
pub open spec fn resolved(
    class: Seq<char>,
    classes: Seq<(Seq<char>, ClassData)>,
    depth: nat,
) -> Seq<CommandData>
    decreases depth, 0nat,
{
    if depth == 0 {
        Seq::empty()
    } else {
        match class_for(classes, class) {
            Some(spec) => spec.commands.map_values(
                |c: CommandData| with_class(c, classes, (depth - 1) as nat),
            ),
            None => Seq::empty(),
        }
    }
}

fn resolve_within(class_name: &str, classes: &Vec<(String, ClassSpec)>, depth: usize) -> (r: Vec<
    CommandSpec,
>)
    ensures
        r.deep_view() == resolved(class_name@, classes.deep_view(), depth as nat),
    decreases depth,
{
    let mut out: Vec<CommandSpec> = Vec::new();
    assert(out.deep_view() =~= Seq::empty());
    if depth == 0 {
        return out;
    }
    let class_spec = match find_class(classes, class_name) {
        Some(class_spec) => class_spec,
        None => {
            return out;
        },
    };
    let ghost all = class_spec.commands.deep_view();
    let ghost f = |c: CommandData| with_class(c, classes.deep_view(), (depth - 1) as nat);
    let mut i: usize = 0;
    assert(out.deep_view() =~= all.take(0).map_values(f));
    while i < class_spec.commands.len()
        invariant
            i <= class_spec.commands@.len(),
            depth > 0,
            all == class_spec.commands.deep_view(),
            f == (|c: CommandData| with_class(c, classes.deep_view(), (depth - 1) as nat)),
            out.deep_view() == all.take(i as int).map_values(f),
        decreases class_spec.commands@.len() - i,
    {
        proof {
            crate::list::lemma_mapped_step(all, i as int, f);
        }
        let command = &class_spec.commands[i];
        assert(all[i as int] == command.deep_view());
        let whole = match &command.subcommand_class {
            Some(class) => {
                let subcommands = resolve_within(class.as_str(), classes, depth - 1);
                command.with_subcommands(subcommands)
            },
            None => command.copy(),
        };
        extend_by(&mut out, whole);
        i += 1;
    }
    assert(all.take(i as int) =~= all);
    out
}

/// The commands of a class with their subcommands. Where no class leads back to itself, no way from
/// class to class is longer than there are classes.
pub open spec fn commands_of(class: Seq<char>, classes: Seq<(Seq<char>, ClassData)>) -> Seq<
    CommandData,
> {
    resolved(class, classes, classes.len())
}

pub fn resolve_commands(class_name: &str, classes: &Vec<(String, ClassSpec)>) -> (r: Vec<
    CommandSpec,
>)
    ensures
        r.deep_view() == commands_of(class_name@, classes.deep_view()),
{
    assert(classes.deep_view().len() == classes@.len());
    resolve_within(class_name, classes, classes.len())
}

/// Whether a class has a command whose subcommands are those of the other class.
pub open spec fn leads_on(
    classes: Seq<(Seq<char>, ClassData)>,
    class: Seq<char>,
    other: Seq<char>,
) -> bool {
    match class_for(classes, class) {
        Some(spec) => exists|k: int|
            0 <= k < spec.commands.len() && (#[trigger] spec.commands[k]).subcommand_class == Some(
                other,
            ),
        None => false,
    }
}

/// Whether each class of a way leads on to the next.
pub open spec fn is_way(way: Seq<Seq<char>>, classes: Seq<(Seq<char>, ClassData)>) -> bool {
    way.len() > 0 && forall|i: int|
        0 < i < way.len() ==> leads_on(classes, way[i - 1], #[trigger] way[i])
}

/// Whether no way from a class comes back to a class that is already on it.
pub open spec fn has_no_cycle(class: Seq<char>, classes: Seq<(Seq<char>, ClassData)>) -> bool {
    forall|way: Seq<Seq<char>>| #[trigger]
        is_way(way, classes) && way[0] == class ==> way.no_duplicates()
}

/// A command with the subcommands of its class.
pub open spec fn with_commands(
    c: CommandData,
    classes: Seq<(Seq<char>, ClassData)>,
) -> CommandData {
    match c.subcommand_class {
        Some(class) => CommandData { subcommands: commands_of(class, classes), ..c },
        None => c,
    }
}

/// A class that is found has its name among the names of the classes.
proof fn lemma_class_is_named(classes: Seq<(Seq<char>, ClassData)>, name: Seq<char>)
    requires
        class_for(classes, name) is Some,
    ensures
        classes.map_values(|c: (Seq<char>, ClassData)| c.0).contains(name),
    decreases classes.len(),
{
    let names = classes.map_values(|c: (Seq<char>, ClassData)| c.0);
    if classes.last().0 == name {
        assert(names[classes.len() - 1] == name);
    } else {
        let fewer = classes.drop_last();
        lemma_class_is_named(fewer, name);
        let few = fewer.map_values(|c: (Seq<char>, ClassData)| c.0);
        let k = choose|k: int| 0 <= k < few.len() && few[k] == name;
        assert(names[k] == name);
    }
}

/// A list without duplicates is no longer than one that holds all its items.
proof fn lemma_distinct_is_short<A>(some: Seq<A>, all: Seq<A>)
    requires
        some.no_duplicates(),
        forall|i: int| 0 <= i < some.len() ==> all.contains(#[trigger] some[i]),
    ensures
        some.len() <= all.len(),
    decreases some.len(),
{
    if some.len() > 0 {
        let last = some.last();
        assert(all.contains(some[some.len() - 1]));
        let k = choose|k: int| 0 <= k < all.len() && all[k] == last;
        let rest = all.remove(k);
        let front = some.drop_last();
        assert forall|i: int| 0 <= i < front.len() implies rest.contains(#[trigger] front[i]) by {
            assert(all.contains(some[i]));
            let m = choose|m: int| 0 <= m < all.len() && all[m] == some[i];
            assert(m != k);
            if m < k {
                assert(rest[m] == some[i]);
            } else {
                assert(rest[m - 1] == some[i]);
            }
        }
        lemma_distinct_is_short(front, rest);
    }
}

/// At the end of a way without a cycle, the commands of a class are the same at all depths that
/// leave room for the classes that are not on the way.
proof fn lemma_depth_is_enough(
    way: Seq<Seq<char>>,
    classes: Seq<(Seq<char>, ClassData)>,
    depth: nat,
    other: nat,
)
    requires
        is_way(way, classes),
        has_no_cycle(way[0], classes),
        depth + way.len() > classes.len(),
        other + way.len() > classes.len(),
    ensures
        resolved(way.last(), classes, depth) == resolved(way.last(), classes, other),
    decreases depth,
{
    let class = way.last();
    match class_for(classes, class) {
        Some(spec) => {
            let names = classes.map_values(|c: (Seq<char>, ClassData)| c.0);
            assert forall|i: int| 0 <= i < way.len() implies names.contains(#[trigger] way[i]) by {
                if i < way.len() - 1 {
                    assert(leads_on(classes, way[i + 1 - 1], way[i + 1]));
                }
                lemma_class_is_named(classes, way[i]);
            }
            lemma_distinct_is_short(way, names);
            assert forall|k: int| 0 <= k < spec.commands.len() implies with_class(
                #[trigger] spec.commands[k],
                classes,
                (depth - 1) as nat,
            ) == with_class(spec.commands[k], classes, (other - 1) as nat) by {
                if let Some(sub) = spec.commands[k].subcommand_class {
                    lemma_way_goes_on(way, classes, sub, k);
                    lemma_depth_is_enough(
                        way.push(sub),
                        classes,
                        (depth - 1) as nat,
                        (other - 1) as nat,
                    );
                }
            }
            assert(resolved(class, classes, depth) =~= resolved(class, classes, other));
        },
        None => {},
    }
}

proof fn lemma_way_goes_on(
    way: Seq<Seq<char>>,
    classes: Seq<(Seq<char>, ClassData)>,
    sub: Seq<char>,
    k: int,
)
    requires
        is_way(way, classes),
        class_for(classes, way.last()) matches Some(spec) && 0 <= k < spec.commands.len()
            && spec.commands[k].subcommand_class == Some(sub),
    ensures
        is_way(way.push(sub), classes),
{
    let longer = way.push(sub);
    assert forall|i: int| 0 < i < longer.len() implies leads_on(
        classes,
        longer[i - 1],
        #[trigger] longer[i],
    ) by {
        if i < way.len() {
            assert(leads_on(classes, way[i - 1], way[i]));
        } else {
            assert(longer[i - 1] == way.last());
        }
    }
}

/// Where no way from a class comes back to a class that is already on it, the class has its own
/// commands, each with the commands of its class as subcommands; an unknown class has none. A
/// greater depth would not show more.
pub proof fn law_commands_are_those_of_the_classes(
    class: Seq<char>,
    classes: Seq<(Seq<char>, ClassData)>,
    depth: nat,
)
    requires
        has_no_cycle(class, classes),
        depth >= classes.len(),
    ensures
        commands_of(class, classes) == match class_for(classes, class) {
            Some(spec) => spec.commands.map_values(|c: CommandData| with_commands(c, classes)),
            None => Seq::empty(),
        },
        resolved(class, classes, depth) == commands_of(class, classes),
{
    let n = classes.len();
    let way = seq![class];
    assert(is_way(way, classes));
    lemma_depth_is_enough(way, classes, depth, n);
    if let Some(spec) = class_for(classes, class) {
        lemma_class_is_named(classes, class);
        assert(n > 0);
        let whole = spec.commands.map_values(|c: CommandData| with_commands(c, classes));
        assert forall|k: int| 0 <= k < spec.commands.len() implies with_class(
            #[trigger] spec.commands[k],
            classes,
            (n - 1) as nat,
        ) == with_commands(spec.commands[k], classes) by {
            if let Some(sub) = spec.commands[k].subcommand_class {
                lemma_way_goes_on(way, classes, sub, k);
                assert(way.push(sub)[0] == class);
                lemma_depth_is_enough(way.push(sub), classes, (n - 1) as nat, n);
            }
        }
        assert(commands_of(class, classes) =~= whole);
    }
}

// ---------------------------------------------------------------------------
// The whole
// ---------------------------------------------------------------------------

/// Whether an alias is a flag.
pub open spec fn is_flag(alias: Seq<char>) -> bool {
    begins_with(alias, "-"@)
}

pub open spec fn if_flag(alias: Seq<char>, wanted: bool) -> Option<Seq<char>> {
    if is_flag(alias) == wanted {
        Some(alias)
    } else {
        None
    }
}

/// The aliases that are flags, or those that are none.
pub open spec fn aliases_by(aliases: Seq<Seq<char>>, flags: bool) -> Seq<Seq<char>> {
    crate::list::collected(aliases, |a: Seq<char>| if_flag(a, flags))
}

pub(crate) fn select_aliases(aliases: &Vec<String>, flags: bool) -> (r: Vec<String>)
    ensures
        r.deep_view() == aliases_by(aliases.deep_view(), flags),
{
    let select = |a: &String| -> (r: Option<String>)
        ensures
            r.deep_view() == if_flag(a@, flags),
    {
        if starts_with(a.as_str(), "-") == flags {
            Some(a.clone())
        } else {
            None
        }
    };
    crate::list::collect_list(aliases, select, Ghost(|a: Seq<char>| if_flag(a, flags)))
}

/// The place of the first command of a method.
pub open spec fn first_of_method(cs: Seq<CommandData>, method: Seq<char>) -> Option<nat>
    decreases cs.len(),
{
    if cs.len() == 0 {
        None
    } else {
        match first_of_method(cs.drop_last(), method) {
            Some(i) => Some(i),
            None => if cs.last().method == method {
                Some((cs.len() - 1) as nat)
            } else {
                None
            },
        }
    }
}

/// The commands, with the flags taken out of the aliases of the version command.
pub open spec fn without_version_flags(cs: Seq<CommandData>) -> Seq<CommandData> {
    match first_of_method(cs, "version"@) {
        Some(i) => cs.update(
            i as int,
            CommandData { aliases: aliases_by(cs[i as int].aliases, false), ..cs[i as int] },
        ),
        None => cs,
    }
}

/// The flags among the aliases of the version command.
pub open spec fn version_flags(cs: Seq<CommandData>) -> Seq<Seq<char>> {
    match first_of_method(cs, "version"@) {
        Some(i) => aliases_by(cs[i as int].aliases, true),
        None => Seq::empty(),
    }
}

fn find_method(commands: &Vec<CommandSpec>, method: &str) -> (r: Option<usize>)
    ensures
        match r {
            Some(i) => i < commands@.len() && first_of_method(commands.deep_view(), method@)
                == Some(i as nat),
            None => first_of_method(commands.deep_view(), method@) is None,
        },
{
    let ghost all = commands.deep_view();
    let mut i: usize = 0;
    while i < commands.len()
        invariant
            i <= commands@.len(),
            all == commands.deep_view(),
            first_of_method(all.take(i as int), method@) is None,
        decreases commands@.len() - i,
    {
        assert(all.take(i + 1).drop_last() =~= all.take(i as int));
        assert(all.take(i + 1).last() == commands@[i as int].deep_view());
        if same(commands[i].method.as_str(), method) {
            proof {
                lemma_first_method_stays(all, method@, (i + 1) as int);
            }
            return Some(i);
        }
        i += 1;
    }
    assert(all.take(i as int) =~= all);
    None
}

proof fn lemma_first_method_stays(cs: Seq<CommandData>, method: Seq<char>, n: int)
    requires
        0 <= n <= cs.len(),
        first_of_method(cs.take(n), method) is Some,
    ensures
        first_of_method(cs, method) == first_of_method(cs.take(n), method),
    decreases cs.len(),
{
    if n == cs.len() {
        assert(cs.take(n) =~= cs);
    } else {
        assert(cs.drop_last().take(n) =~= cs.take(n));
        lemma_first_method_stays(cs.drop_last(), method, n);
    }
}

/// A command with the description that the table has for it.
pub open spec fn described(c: CommandData, parent: Seq<char>) -> CommandData
    decreases c,
{
    CommandData {
        about: match description(parent, c.method) {
            Some(text) => text,
            None => c.about,
        },
        subcommands: all_described(c.subcommands, c.name),
        ..c
    }
}

pub open spec fn all_described(cs: Seq<CommandData>, parent: Seq<char>) -> Seq<CommandData>
    decreases cs,
{
    if cs.len() == 0 {
        Seq::empty()
    } else {
        all_described(cs.drop_last(), parent).push(described(cs.last(), parent))
    }
}

fn apply_description(command: &CommandSpec, parent: &str) -> (r: CommandSpec)
    ensures
        r.deep_view() == described(command.deep_view(), parent@),
    decreases command, 0nat,
{
    proof {
        lemma_subcommands(*command);
        assert(decreases_to!(*command => command.subcommands));
    }
    let subcommands = apply_descriptions(&command.subcommands, command.name.as_str());
    let about = match describe(parent, command.method.as_str()) {
        Some(text) => text,
        None => command.about.clone(),
    };
    let r = CommandSpec {
        name: command.name.clone(),
        method: command.method.clone(),
        about,
        min_args: command.min_args,
        options: copy_options(&command.options),
        aliases: copy_texts(&command.aliases),
        subcommand_class: copy_text(&command.subcommand_class),
        subcommands,
    };
    proof {
        lemma_subcommands(r);
    }
    r
}

/// The commands with the descriptions that the table has for them.
pub fn apply_descriptions(commands: &Vec<CommandSpec>, parent: &str) -> (r: Vec<CommandSpec>)
    ensures
        r.deep_view() == all_described(commands.deep_view(), parent@),
    decreases commands, 1nat,
{
    let ghost all = commands.deep_view();
    let mut out: Vec<CommandSpec> = Vec::new();
    let mut i: usize = 0;
    assert(out.deep_view() =~= all_described(all.take(0), parent@));
    assert(decreases_to!(*commands => commands@));
    while i < commands.len()
        invariant
            i <= commands@.len(),
            all == commands.deep_view(),
            decreases_to!(*commands => commands@),
            out.deep_view() == all_described(all.take(i as int), parent@),
        decreases commands@.len() - i,
    {
        assert(decreases_to!(commands@ => commands@[i as int]));
        assert(all.take(i + 1).drop_last() =~= all.take(i as int));
        assert(all.take(i + 1).last() == commands@[i as int].deep_view());
        extend_by(&mut out, apply_description(&commands[i], parent));
        i += 1;
    }
    assert(all.take(i as int) =~= all);
    out
}

/// Describing commands keeps their number, their order and all but their descriptions, and a second
/// time changes nothing.
pub proof fn law_describing_twice_changes_nothing(cs: Seq<CommandData>, parent: Seq<char>)
    ensures
        all_described(cs, parent) == cs.map_values(|c: CommandData| described(c, parent)),
        all_described(all_described(cs, parent), parent) == all_described(cs, parent),
    decreases cs,
{
    if cs.len() > 0 {
        let front = cs.drop_last();
        let c = cs.last();
        let once = all_described(cs, parent);
        assert(decreases_to!(cs => cs[cs.len() - 1]));
        assert(decreases_to!(c => c.subcommands));
        law_describing_twice_changes_nothing(front, parent);
        law_describing_twice_changes_nothing(c.subcommands, c.name);
        assert(once.drop_last() =~= all_described(front, parent));
        assert(described(described(c, parent), parent) == described(c, parent));
        assert(all_described(once, parent) =~= once);
    }
    assert(all_described(cs, parent) =~= cs.map_values(|c: CommandData| described(c, parent)));
}

/// The command line that classes make up.
pub open spec fn app_from(classes: Seq<(Seq<char>, ClassData)>) -> AppData {
    let commands = commands_of("CLI"@, classes);
    AppData {
        class_options: match class_for(classes, "CLI"@) {
            Some(class) => class.class_options,
            None => Seq::empty(),
        },
        commands: all_described(without_version_flags(commands), ""@),
        version_aliases: version_flags(commands),
    }
}

/// Makes up the command line from its classes.
pub fn app_of_classes(classes: &Vec<(String, ClassSpec)>) -> (r: AppSpec)
    ensures
        r.deep_view() == app_from(classes.deep_view()),
{
    assert(classes.deep_view().len() == classes@.len());
    let class_options = match find_class(classes, "CLI") {
        Some(class) => copy_options(&class.class_options),
        None => {
            let none: Vec<OptionSpec> = Vec::new();
            assert(none.deep_view() =~= Seq::empty());
            none
        },
    };
    let mut commands = resolve_commands("CLI", classes);
    let ghost all = commands.deep_view();
    let mut version_aliases: Vec<String> = Vec::new();
    assert(version_aliases.deep_view() =~= Seq::empty());
    if let Some(i) = find_method(&commands, "version") {
        let mut version = commands[i].copy();
        assert(all[i as int] == commands@[i as int].deep_view());
        version_aliases = select_aliases(&version.aliases, true);
        version.aliases = select_aliases(&version.aliases, false);
        proof {
            lemma_subcommands(version);
            lemma_subcommands(commands@[i as int]);
        }
        commands.set(i, version);
        assert(commands.deep_view() =~= without_version_flags(all));
    }
    AppSpec { class_options, commands: apply_descriptions(&commands, ""), version_aliases }
}

/// The classes of the command line and their texts.
pub open spec fn class_texts() -> Seq<(Seq<char>, Seq<char>)> {
    seq![
        ("CLI"@, cli_source()),
        ("Collection"@, COLLECTION_RB@),
        ("Delete"@, DELETE_RB@),
        ("List"@, LIST_RB@),
        ("Search"@, SEARCH_RB@),
        ("Set"@, SET_RB@),
        ("Stream"@, STREAM_RB@),
    ]
}

/// The classes that texts define.
pub open spec fn classes_in(texts: Seq<(Seq<char>, Seq<char>)>) -> Seq<(Seq<char>, ClassData)> {
    texts.map_values(|t: (Seq<char>, Seq<char>)| (t.0, class_in(t.1)))
}

/// Parses the command classes into an [`AppSpec`] command manifest.
pub fn legacy_app_spec() -> (r: AppSpec)
    ensures
        r.deep_view() == app_from(classes_in(class_texts())),
{
    let classes: Vec<(String, ClassSpec)> = vec![
        ("CLI".to_owned(), parse_class(cli_text().as_str())),
        ("Collection".to_owned(), parse_class(COLLECTION_RB)),
        ("Delete".to_owned(), parse_class(DELETE_RB)),
        ("List".to_owned(), parse_class(LIST_RB)),
        ("Search".to_owned(), parse_class(SEARCH_RB)),
        ("Set".to_owned(), parse_class(SET_RB)),
        ("Stream".to_owned(), parse_class(STREAM_RB)),
    ];
    assert(classes.deep_view() =~= classes_in(class_texts()));
    app_of_classes(&classes)
}

} // verus!
