use vstd::prelude::*;

use crate::command::{build_command, command_spec, CommandLine, Platform};
use crate::error::SwitchError;
use crate::parse::parse_input;
use crate::selector::DisplayInput;

verus! {

/// Decides what to run for the command-line word `arg` on `platform`.
///
/// A word that names an input gives the invocation that switches to it. Any
/// other word gives a validation error and no invocation, so nothing is
/// launched for it.
pub fn plan_switch(arg: &str, platform: Platform) -> (r: Result<CommandLine, SwitchError>)
    ensures
        DisplayInput::parse_spec(arg@) is Err ==> r == Err::<CommandLine, SwitchError>(
            SwitchError::Validation,
        ),
        DisplayInput::parse_spec(arg@) is Ok ==> r is Ok && r->Ok_0@ == command_spec(
            DisplayInput::parse_spec(arg@)->Ok_0,
            platform,
        ),
{
    match parse_input(arg) {
        Ok(input) => Ok(build_command(input, platform)),
        Err(e) => Err(e),
    }
}

} // verus!
