//! The process runner: which arguments the formatting pass and the lint pass
//! get under each run mode, and what an exit status means.

use crate::failure::{result_view, Failure, FailureView};
use crate::mode::RunMode;
use vstd::prelude::*;

verus! {

/// How the external tool ended, as the caller saw it.
#[derive(Clone, Copy, Debug, PartialEq, Eq, Structural)]
pub enum ProcessExit {
    /// The tool could not be started.
    NotLaunched,
    /// The tool ran and returned this exit code.
    Code(i32),
    /// The tool ended without an exit code (killed by a signal).
    Abnormal,
}

/// What an exit means: success for exit code 0, `ProcessFailure` for
/// everything else.
pub open spec fn exit_verdict(exit: ProcessExit) -> Result<(), FailureView> {
    if exit == ProcessExit::Code(0) {
        Ok(())
    } else {
        Err(FailureView::ProcessFailure)
    }
}

/// Turns the exit of the external tool into the result of the check. The
/// exit is the only signal: no output of the tool is read.
pub fn judge_exit(exit: ProcessExit) -> (result: Result<(), Failure>)
    ensures
        result_view(result) == exit_verdict(exit),
{
    match exit {
        ProcessExit::Code(code) => {
            if code == 0 {
                Ok(())
            } else {
                Err(Failure::ProcessFailure)
            }
        },
        _ => Err(Failure::ProcessFailure),
    }
}

/// Failure propagation: only a tool that ran and returned exit code 0
/// passes. A tool that could not be launched, that returned any other code
/// or that ended without one fails the check with `ProcessFailure`.
pub proof fn only_a_clean_exit_passes(exit: ProcessExit)
    ensures
        exit_verdict(exit) is Ok <==> exit == ProcessExit::Code(0),
        exit != ProcessExit::Code(0) ==> exit_verdict(exit) == Err::<(), FailureView>(
            FailureView::ProcessFailure,
        ),
{
}

/// The views of a list of arguments, in order.
pub open spec fn argument_views(arguments: Seq<&'static str>) -> Seq<Seq<char>> {
    arguments.map_values(|argument: &'static str| argument@)
}

/// The formatting rules, handed to the formatter as one configuration
/// argument. They are the same under both modes.
pub const FORMAT_RULES: &'static str =
    "--config=version=Two,imports_granularity=Crate,group_imports=StdExternalCrate,use_field_init_shorthand=true,format_code_in_doc_comments=true,format_macro_bodies=true,format_macro_matchers=true,format_strings=true,wrap_comments=true";

/// What the mode adds to the formatting pass. Check mode asks the formatter
/// to report and not to modify; Update mode says nothing, so that the
/// formatter rewrites the files in place.
pub open spec fn format_mode_flags(mode: RunMode) -> Seq<Seq<char>> {
    match mode {
        RunMode::Check => seq!["--check"@],
        RunMode::Update => seq![],
    }
}

/// The whole argument list of the formatting pass: the subcommand over all
/// packages, then, for the formatter itself, the mode's flags and the rules.
pub open spec fn format_arguments(mode: RunMode) -> Seq<Seq<char>> {
    seq!["fmt"@, "--all"@, "--"@] + format_mode_flags(mode) + seq![FORMAT_RULES@]
}

/// The arguments with which the formatting tool is run under `mode`.
pub fn fmt(mode: RunMode) -> (arguments: Vec<&'static str>)
    ensures
        argument_views(arguments@) == format_arguments(mode),
{
    let mut arguments: Vec<&'static str> = Vec::new();
    arguments.push("fmt");
    arguments.push("--all");
    arguments.push("--");
    match mode {
        RunMode::Check => {
            arguments.push("--check");
        },
        RunMode::Update => {},
    }
    arguments.push(FORMAT_RULES);
    arguments
}

/// Mode isolation of the formatting pass: the flag that asks the formatter
/// to report and not to modify is among the arguments exactly under Check.
pub proof fn formatting_keeps_to_its_mode(mode: RunMode)
    ensures
        format_arguments(mode).contains("--check"@) <==> mode == RunMode::Check,
{
    reveal_strlit("fmt");
    reveal_strlit("--all");
    reveal_strlit("--");
    reveal_strlit("--check");
    reveal_strlit(
        "--config=version=Two,imports_granularity=Crate,group_imports=StdExternalCrate,use_field_init_shorthand=true,format_code_in_doc_comments=true,format_macro_bodies=true,format_macro_matchers=true,format_strings=true,wrap_comments=true",
    );
    assert("fmt"@.len() == 3);
    assert("--all"@.len() == 5);
    assert("--"@.len() == 2);
    assert(FORMAT_RULES@.len() > 7);
    if mode == RunMode::Check {
        assert(format_arguments(mode)[3] == "--check"@);
    }
}

/// One lint rule on the command line: the level flag, then the lint's name.
pub open spec fn lint_rule(level: Seq<char>, lint: Seq<char>) -> Seq<Seq<char>> {
    seq![level, lint]
}

/// The fixed lint rules, the same under both modes: the groups that warn,
/// then the lints that are allowed.
pub open spec fn lint_rules() -> Seq<Seq<char>> {
    lint_rule("-W"@, "clippy::all"@)
        + lint_rule("-W"@, "clippy::pedantic"@)
        + lint_rule("-W"@, "clippy::nursery"@)
        + lint_rule("-W"@, "clippy::cargo"@)
        + lint_rule("-W"@, "clippy::float_cmp_const"@)
        + lint_rule("-W"@, "clippy::empty_structs_with_brackets"@)
        + lint_rule("-A"@, "clippy::multiple_crate_versions"@)
        + lint_rule("-A"@, "clippy::module_name_repetitions"@)
        + lint_rule("-A"@, "clippy::too_many_lines"@)
        + lint_rule("-A"@, "clippy::too_many_arguments"@)
        + lint_rule("-A"@, "clippy::cognitive_complexity"@)
        + lint_rule("-A"@, "clippy::type_complexity"@)
        + lint_rule("-A"@, "clippy::missing_panics_doc"@)
        + lint_rule("-A"@, "clippy::missing_errors_doc"@)
}

/// What the mode adds to the lint pass. Check mode turns warnings into
/// errors; Update mode lets the tool fix what it can, also in a work tree
/// with uncommitted or staged changes.
pub open spec fn lint_mode_flags(mode: RunMode) -> Seq<Seq<char>> {
    match mode {
        RunMode::Check => seq!["--"@, "-D"@, "warnings"@],
        RunMode::Update => seq!["--fix"@, "--allow-dirty"@, "--allow-staged"@, "--"@],
    }
}

/// The whole argument list of the lint pass: the subcommand over the whole
/// workspace, the mode's flags, the fixed rules.
pub open spec fn lint_arguments(mode: RunMode) -> Seq<Seq<char>> {
    seq!["clippy"@, "--workspace"@] + lint_mode_flags(mode) + lint_rules()
}

/// Appends one lint rule to `arguments`.
fn push_lint_rule(arguments: &mut Vec<&'static str>, level: &'static str, lint: &'static str)
    ensures
        argument_views(final(arguments)@) == argument_views(old(arguments)@) + lint_rule(
            level@,
            lint@,
        ),
{
    arguments.push(level);
    arguments.push(lint);
}

/// The arguments with which the lint tool is run under `mode`.
pub fn clippy(mode: RunMode) -> (arguments: Vec<&'static str>)
    ensures
        argument_views(arguments@) == lint_arguments(mode),
{
    let mut arguments: Vec<&'static str> = Vec::new();
    arguments.push("clippy");
    arguments.push("--workspace");
    match mode {
        RunMode::Check => {
            arguments.push("--");
            arguments.push("-D");
            arguments.push("warnings");
        },
        RunMode::Update => {
            arguments.push("--fix");
            arguments.push("--allow-dirty");
            arguments.push("--allow-staged");
            arguments.push("--");
        },
    }
    push_lint_rule(&mut arguments, "-W", "clippy::all");
    push_lint_rule(&mut arguments, "-W", "clippy::pedantic");
    push_lint_rule(&mut arguments, "-W", "clippy::nursery");
    push_lint_rule(&mut arguments, "-W", "clippy::cargo");
    push_lint_rule(&mut arguments, "-W", "clippy::float_cmp_const");
    push_lint_rule(&mut arguments, "-W", "clippy::empty_structs_with_brackets");
    push_lint_rule(&mut arguments, "-A", "clippy::multiple_crate_versions");
    push_lint_rule(&mut arguments, "-A", "clippy::module_name_repetitions");
    push_lint_rule(&mut arguments, "-A", "clippy::too_many_lines");
    push_lint_rule(&mut arguments, "-A", "clippy::too_many_arguments");
    push_lint_rule(&mut arguments, "-A", "clippy::cognitive_complexity");
    push_lint_rule(&mut arguments, "-A", "clippy::type_complexity");
    push_lint_rule(&mut arguments, "-A", "clippy::missing_panics_doc");
    push_lint_rule(&mut arguments, "-A", "clippy::missing_errors_doc");
    arguments
}

/// A word of the fixed lint rules: a level flag, or the name of a lint.
spec fn is_rule_word(word: Seq<char>) -> bool {
    ||| word.len() == 2 && (word[1] == 'W' || word[1] == 'A')
    ||| word.len() > 2 && word[0] == 'c'
}

/// The fixed lint rules are twenty-eight words, each of them a rule word.
proof fn lint_rules_hold_rule_words_only()
    ensures
        lint_rules().len() == 28,
        forall|i: int| 0 <= i < 28 ==> is_rule_word(#[trigger] lint_rules()[i]),
{
    reveal_strlit("-W");
    reveal_strlit("-A");
    reveal_strlit("clippy::all");
    reveal_strlit("clippy::pedantic");
    reveal_strlit("clippy::nursery");
    reveal_strlit("clippy::cargo");
    reveal_strlit("clippy::float_cmp_const");
    reveal_strlit("clippy::empty_structs_with_brackets");
    reveal_strlit("clippy::multiple_crate_versions");
    reveal_strlit("clippy::module_name_repetitions");
    reveal_strlit("clippy::too_many_lines");
    reveal_strlit("clippy::too_many_arguments");
    reveal_strlit("clippy::cognitive_complexity");
    reveal_strlit("clippy::type_complexity");
    reveal_strlit("clippy::missing_panics_doc");
    reveal_strlit("clippy::missing_errors_doc");
}

/// A word that is no rule word is among the lint arguments exactly where it
/// is among those that stand before the rules.
proof fn found_before_the_rules(mode: RunMode, word: Seq<char>)
    requires
        !is_rule_word(word),
    ensures
        lint_arguments(mode).contains(word) <==> (seq!["clippy"@, "--workspace"@]
            + lint_mode_flags(mode)).contains(word),
{
    lint_rules_hold_rule_words_only();
    let front = seq!["clippy"@, "--workspace"@] + lint_mode_flags(mode);
    let arguments = lint_arguments(mode);
    if arguments.contains(word) {
        let i = choose|i: int| 0 <= i < arguments.len() && arguments[i] == word;
        assert(i < front.len());
    }
    if front.contains(word) {
        let i = choose|i: int| 0 <= i < front.len() && front[i] == word;
        assert(arguments[i] == word);
    }
}

/// Mode isolation of the lint pass: the flags that turn warnings into errors
/// are among the arguments exactly under Check, and each of the flags that
/// let the tool rewrite the sources is among them exactly under Update.
pub proof fn linting_keeps_to_its_mode(mode: RunMode)
    ensures
        lint_arguments(mode).contains("-D"@) <==> mode == RunMode::Check,
        lint_arguments(mode).contains("warnings"@) <==> mode == RunMode::Check,
        lint_arguments(mode).contains("--fix"@) <==> mode == RunMode::Update,
        lint_arguments(mode).contains("--allow-dirty"@) <==> mode == RunMode::Update,
        lint_arguments(mode).contains("--allow-staged"@) <==> mode == RunMode::Update,
{
    reveal_strlit("clippy");
    reveal_strlit("--workspace");
    reveal_strlit("--");
    reveal_strlit("-D");
    reveal_strlit("warnings");
    reveal_strlit("--fix");
    reveal_strlit("--allow-dirty");
    reveal_strlit("--allow-staged");
    assert("-D"@.len() == 2 && "-D"@[1] == 'D');
    assert("--fix"@.len() == 5 && "--fix"@[0] == '-');
    assert("--allow-dirty"@.len() == 13 && "--allow-dirty"@[0] == '-');
    assert("--allow-staged"@.len() == 14 && "--allow-staged"@[0] == '-');
    found_before_the_rules(mode, "-D"@);
    found_before_the_rules(mode, "warnings"@);
    found_before_the_rules(mode, "--fix"@);
    found_before_the_rules(mode, "--allow-dirty"@);
    found_before_the_rules(mode, "--allow-staged"@);
    let front = seq!["clippy"@, "--workspace"@] + lint_mode_flags(mode);
    match mode {
        RunMode::Check => {
            assert(front[3] == "-D"@);
            assert(front[4] == "warnings"@);
        },
        RunMode::Update => {
            assert(front[2] == "--fix"@);
            assert(front[3] == "--allow-dirty"@);
            assert(front[4] == "--allow-staged"@);
        },
    }
}

} // verus!
