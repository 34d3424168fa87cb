//! The manifest of the commands.

use x_cli::manifest::{
    apply_descriptions, collect_leaf_commands, flatten_leaf_commands, legacy_app_spec,
    resolve_commands,
};
use x_cli::paths::{classify_local, classify_remote, Local, Remote};
use x_cli::thor::parse_class;
use x_cli::plan::{command_for_path, command_plan, first_step, ArgRole, Start};

#[test]
fn parses_cli_top_level_commands() {
    let app = legacy_app_spec();
    let names = app
        .commands
        .iter()
        .map(|command| command.name.clone())
        .collect::<Vec<_>>();

    assert!(names.contains(&"timeline".to_string()));
    assert!(names.contains(&"delete".to_string()));
    assert!(names.contains(&"stream".to_string()));
    assert!(names.contains(&"version".to_string()));
}

#[test]
fn collects_version_aliases_from_ruby_map() {
    let app = legacy_app_spec();

    assert!(app.version_aliases.contains(&"-v".to_string()));
    assert!(app.version_aliases.contains(&"--version".to_string()));
}

#[test]
fn descriptions_override_ruby_help_text() {
    let app = legacy_app_spec();
    let timeline = app
        .commands
        .iter()
        .find(|command| command.name == "timeline")
        .expect("timeline command exists");

    assert_eq!(
        timeline.about,
        "Returns the 20 most recent posts by a user."
    );

    let number_option = timeline
        .options
        .iter()
        .find(|option| option.long == "number")
        .expect("timeline --number option exists");
    assert_eq!(number_option.default_value.as_deref(), Some("20"));

    let search = app
        .commands
        .iter()
        .find(|command| command.name == "search")
        .expect("search command exists");
    let search_all = search
        .subcommands
        .iter()
        .find(|command| command.name == "all")
        .expect("search all command exists");
    assert_eq!(
        search_all.about,
        "Returns the 20 most recent posts that match the specified query."
    );
}

#[test]
fn each_leaf_is_a_command() {
    let app = legacy_app_spec();
    let leaves = flatten_leaf_commands(&app.commands);
    assert!(leaves.len() > 80);
    for (path, command) in &leaves {
        assert!(command.subcommands.is_empty());
        assert_eq!(path.last(), Some(&command.name));
        assert!(
            classify_local(path) != Local::Other || classify_remote(path) != Remote::Unknown,
            "{path:?}"
        );
    }
    assert!(leaves
        .iter()
        .any(|(path, _)| path.join(" ") == "search all"));
}

#[test]
fn plans_have_the_commands_of_the_manifest() {
    let app = legacy_app_spec();
    let plan = command_plan(&app);
    assert_eq!(plan.subcommands.len(), app.commands.len());
    let ids: Vec<&str> = plan.args.iter().map(|arg| arg.id.as_str()).collect();
    assert_eq!(ids, ["color", "profile", "version_flag", "json"]);
    let path = vec!["tl".to_string()];
    let timeline = command_for_path(&plan, &path).expect("an alias leads to the command");
    assert_eq!(timeline.name, "timeline");
    let relative = timeline
        .args
        .iter()
        .find(|arg| arg.id == "relative_dates")
        .expect("the option is there");
    assert_eq!(relative.long.as_deref(), Some("relative-dates"));
    assert_eq!(relative.alias.as_deref(), Some("relative_dates"));
    assert_eq!(relative.role, ArgRole::Flag);
    let rest = timeline.args.last().expect("arguments");
    assert_eq!(rest.role, ArgRole::Positional(0));
    let status = command_for_path(&plan, &vec!["status".to_string()]).expect("status");
    assert!(status.args.iter().any(|arg| arg.id == "thread"));
    assert!(command_for_path(&plan, &vec!["nothing".to_string()]).is_none());
    assert!(matches!(first_step(&plan, true, &Vec::new()), Start::Version));
    assert!(matches!(first_step(&plan, false, &Vec::new()), Start::Help));
    assert!(matches!(
        first_step(&plan, false, &vec!["list".to_string()]),
        Start::GroupHelp(words) if words.join(" ") == "x list --help"
    ));
    assert!(matches!(first_step(&plan, true, &path), Start::Run));
}

#[test]
fn leaves_stand_under_the_path_that_leads_to_them() {
    let app = legacy_app_spec();
    let list = app
        .commands
        .iter()
        .find(|command| command.name == "list")
        .expect("list");
    let mut path = vec!["x".to_string()];
    let mut leaves = Vec::new();
    collect_leaf_commands(list, &mut path, &mut leaves);
    assert_eq!(path, ["x"]);
    let alone = flatten_leaf_commands(&vec![list.clone()]);
    assert_eq!(leaves.len(), alone.len());
    for ((whole, leaf), (own, same)) in leaves.iter().zip(&alone) {
        assert_eq!(whole[0], "x");
        assert_eq!(&whole[1..], &own[..]);
        assert_eq!(leaf, same);
    }
}

#[test]
fn commands_are_those_of_the_classes() {
    let classes = vec![
        (
            "Top".to_string(),
            parse_class("desc \"go X\", \"Goes.\"\ndef go\nend\ndesc \"sub SUBCOMMAND ...ARGS\", \"More.\"\nsubcommand \"sub\", T::Sub\ndesc \"odd SUBCOMMAND ...ARGS\", \"Odd.\"\nsubcommand \"odd\", T::Odd\n"),
        ),
        (
            "Sub".to_string(),
            parse_class("desc \"deep\", \"Deep.\"\ndef deep\nend\n"),
        ),
    ];
    let commands = resolve_commands("Top", &classes);
    assert_eq!(commands.len(), 3);
    assert!(commands[0].subcommands.is_empty());
    assert_eq!(commands[1].subcommands, resolve_commands("Sub", &classes));
    assert_eq!(commands[1].subcommands[0].name, "deep");
    assert!(commands[2].subcommands.is_empty());
    assert!(resolve_commands("Odd", &classes).is_empty());
}

#[test]
fn describing_twice_changes_nothing() {
    let app = legacy_app_spec();
    let again = apply_descriptions(&app.commands, "");
    assert_eq!(again, app.commands);
    assert_eq!(app.clone().commands, app.commands);
}
