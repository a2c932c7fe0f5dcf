use clap_builder::Command;
use workflow_checks::command::{fix_help_width, HELP_WIDTH};
use workflow_checks::help_for_review;
use workflow_checks::tree::{CommandNode, SEPARATOR};

const ABOUT: &str = "one two three four five six seven eight nine ten eleven twelve thirteen";

#[test]
fn the_help_width_is_one_hundred_columns() {
    assert_eq!(HELP_WIDTH, 100);
}

#[test]
fn a_narrower_limit_wraps_where_the_width_is_not_fixed() {
    let mut command = Command::new("tool").about(ABOUT).max_term_width(40);
    let help = command.render_help().to_string();
    assert!(!help.contains(ABOUT));
    assert!(help.lines().all(|line| line.len() <= 40));
}

#[test]
fn a_fixed_width_overrides_a_narrower_limit() {
    let command = Command::new("tool").about(ABOUT).max_term_width(40);
    let mut fixed = fix_help_width(command);
    let help = fixed.render_help().to_string();
    assert!(help.contains(ABOUT));
}

#[test]
fn help_is_wrapped_at_the_fixed_width() {
    let words: Vec<&str> = ABOUT.split(' ').collect();
    let long = [words.clone(), words.clone(), words].concat().join(" ");
    assert!(long.len() > 200);
    let mut fixed = fix_help_width(Command::new("tool").about(long.clone()));
    let help = fixed.render_help().to_string();
    assert!(!help.contains(&long));
    assert!(help.lines().all(|line| line.len() <= 100));
    assert!(help.lines().any(|line| line.len() > 80));
}

#[test]
fn fixing_the_width_keeps_the_command_and_its_subcommands() {
    let command = Command::new("tool")
        .subcommand(Command::new("first"))
        .subcommand(Command::new("second"));
    let fixed = fix_help_width(command);
    assert_eq!(fixed.get_name(), "tool");
    let names: Vec<&str> = fixed.get_subcommands().map(|sub| sub.get_name()).collect();
    assert_eq!(names, vec!["first", "second"]);
}

fn capture(command: &mut Command) -> CommandNode {
    CommandNode {
        name: command.get_name().to_string(),
        long_help: command.render_long_help().to_string(),
        short_help: command.render_help().to_string(),
        children: command.get_subcommands_mut().map(capture).collect(),
    }
}

fn tool() -> Command {
    Command::new("tool")
        .about("A tool")
        .long_about("A tool that is described at some length")
        .subcommand(
            Command::new("run")
                .about("Runs")
                .long_about("Runs what was built")
                .subcommand(Command::new("fast").about("Runs fast")),
        )
        .subcommand(Command::new("stop").about("Stops"))
}

#[test]
fn a_parsed_command_line_is_rendered_in_its_declared_layout() {
    let mut command = fix_help_width(tool());
    command.build();
    let root = capture(&mut command);
    let names: Vec<&str> = root.children.iter().map(|child| child.name.as_str()).collect();
    assert_eq!(names, vec!["run", "stop", "help"]);

    let snapshots = help_for_review(&root);
    let long_pages: Vec<&str> = snapshots.long.document.split(SEPARATOR).collect();
    let short_pages: Vec<&str> = snapshots.short.document.split(SEPARATOR).collect();
    assert_eq!(long_pages.len(), short_pages.len());
    assert_eq!(long_pages[0], root.long_help);
    assert_eq!(long_pages[1], root.children[0].long_help);
    assert_eq!(long_pages[2], root.children[0].children[0].long_help);
    assert_eq!(short_pages[0], root.short_help);
    assert_eq!(short_pages[1], root.children[0].short_help);
    assert!(long_pages[0].starts_with("A tool that is described at some length\n"));
    assert!(short_pages[0].starts_with("A tool\n"));
    assert!(long_pages[1].starts_with("Runs what was built\n"));
    assert!(long_pages[2].starts_with("Runs fast\n"));
    assert!(long_pages.iter().all(|page| page.ends_with('\n')));
}

#[test]
fn a_command_without_subcommands_is_one_page() {
    let mut command = fix_help_width(Command::new("solo").about("Alone"));
    command.build();
    let root = capture(&mut command);
    assert!(root.children.is_empty());
    let snapshots = help_for_review(&root);
    assert_eq!(snapshots.long.document, root.long_help);
    assert_eq!(snapshots.short.document, root.short_help);
    assert!(!snapshots.long.document.contains(SEPARATOR));
}
