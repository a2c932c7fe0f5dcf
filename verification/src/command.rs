//! The command as the command-line parser holds it, before its help is
//! taken.

use clap_builder::Command;
use vstd::prelude::*;

verus! {

/// `clap_builder::Command`, carried through as a value that is not looked
/// into.
#[verifier::external_type_specification]
#[verifier::external_body]
pub struct ExCommand(clap_builder::Command);

/// The width, in columns, at which help texts are wrapped for a snapshot.
pub const HELP_WIDTH: usize = 100;

/// `command` with the width at which its help is wrapped set to `width`.
pub uninterp spec fn with_term_width(command: Command, width: usize) -> Command;

/// `clap_builder::Command::term_width`. It stores `width` in the command as
/// the width at which help is wrapped and hands the command back; it reads
/// nothing but its two arguments. The contract claims no more than that:
/// the result is the command that these two arguments determine.
#[verifier::external_body]
fn term_width(command: Command, width: usize) -> (widened: Command)
    ensures
        widened == with_term_width(command, width),
{
    command.term_width(width)
}

/// Fixes the width at which the help of `command` and of its subcommands is
/// wrapped, so that a rendering does not depend on the terminal in which
/// the check happens to run.
pub fn fix_help_width(command: Command) -> (fixed: Command)
    ensures
        fixed == with_term_width(command, HELP_WIDTH),
{
    term_width(command, HELP_WIDTH)
}

} // verus!
