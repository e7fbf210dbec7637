use vstd::prelude::*;

use crate::selector::DisplayInput;

verus! {

/// Where the vendor display manager is installed.
pub const DDM_PATH: &'static str = "C:\\Program Files (x86)\\Dell\\Dell Display Manager\\ddm.exe";

/// Which external control utility this build drives.
#[derive(Debug, Clone, Copy, PartialEq, Eq, Structural)]
pub enum Platform {
    /// The vendor display manager at a fixed path, run through the command
    /// shell.
    DisplayManager,
    /// The DDC/CI control utility, found on the executable search path.
    Ddcctl,
}

/// A fully specified external invocation: the program and its arguments.
#[derive(Debug, Clone, PartialEq, Eq)]
pub struct CommandLine {
    pub program: String,
    pub args: Vec<String>,
}

/// The mathematical value of a [`CommandLine`].
pub ghost struct CommandView {
    pub program: Seq<char>,
    pub args: Seq<Seq<char>>,
}

impl View for CommandLine {
    type V = CommandView;

    open spec fn view(&self) -> CommandView {
        CommandView { program: self.program@, args: self.args.deep_view() }
    }
}

/// The invocation that switches the monitor to `input` on `platform`.
pub open spec fn command_spec(input: DisplayInput, platform: Platform) -> CommandView {
    match platform {
        Platform::DisplayManager => CommandView {
            program: "cmd"@,
            args: seq!["/C"@, DDM_PATH@, "1:SetActiveInput"@, input.ddm_token(), "/Exit"@],
        },
        Platform::Ddcctl => CommandView {
            program: "ddcctl"@,
            args: seq!["-d"@, "1"@, "-i"@, input.ddcctl_token()],
        },
    }
}

/// Builds the invocation that switches the monitor to `input` on `platform`.
pub fn build_command(input: DisplayInput, platform: Platform) -> (r: CommandLine)
    ensures
        r@ == command_spec(input, platform),
{
    match platform {
        Platform::DisplayManager => ddm_invocation(input),
        Platform::Ddcctl => ddcctl_invocation(input),
    }
}

fn ddm_invocation(input: DisplayInput) -> (r: CommandLine)
    ensures
        r@ == command_spec(input, Platform::DisplayManager),
{
    let mut args: Vec<String> = Vec::new();
    args.push(String::from_str("/C"));
    args.push(String::from_str(DDM_PATH));
    args.push(String::from_str("1:SetActiveInput"));
    args.push(String::from_str(input.ddm_command()));
    args.push(String::from_str("/Exit"));
    let r = CommandLine { program: String::from_str("cmd"), args };
    assert(r@.args =~= command_spec(input, Platform::DisplayManager).args);
    r
}

fn ddcctl_invocation(input: DisplayInput) -> (r: CommandLine)
    ensures
        r@ == command_spec(input, Platform::Ddcctl),
{
    let mut args: Vec<String> = Vec::new();
    args.push(String::from_str("-d"));
    args.push(String::from_str("1"));
    args.push(String::from_str("-i"));
    args.push(String::from_str(input.ddcctl_command()));
    let r = CommandLine { program: String::from_str("ddcctl"), args };
    assert(r@.args =~= command_spec(input, Platform::Ddcctl).args);
    r
}

} // verus!
