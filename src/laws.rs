use vstd::prelude::*;

use crate::command::{command_spec, CommandView, Platform};
use crate::error::SwitchError;
use crate::selector::DisplayInput;

verus! {

/// Exactly the words `DP` and `mDP` name an input, each the one it reads as;
/// every other word, the empty one and other spellings included, is a
/// validation error.
pub proof fn lemma_accepted_words(s: Seq<char>)
    ensures
        s == "DP"@ ==> DisplayInput::parse_spec(s) == Ok::<DisplayInput, SwitchError>(
            DisplayInput::DP,
        ),
        s == "mDP"@ ==> DisplayInput::parse_spec(s) == Ok::<DisplayInput, SwitchError>(
            DisplayInput::MDP,
        ),
        s != "DP"@ && s != "mDP"@ ==> DisplayInput::parse_spec(s) == Err::<
            DisplayInput,
            SwitchError,
        >(SwitchError::Validation),
{
    reveal_strlit("DP");
    reveal_strlit("mDP");
    assert("DP"@ =~= DisplayInput::DP.word());
    assert("mDP"@ =~= DisplayInput::MDP.word());
}

/// The invocation is a function of the input and the platform alone: two
/// invocations built for the same pair are identical.
pub proof fn lemma_command_deterministic(
    input: DisplayInput,
    platform: Platform,
    first: CommandView,
    second: CommandView,
)
    requires
        first == command_spec(input, platform),
        second == command_spec(input, platform),
    ensures
        first == second,
{
}

/// Each input has a token on each platform, and the two inputs' tokens
/// differ: `DP` and `mDP` for the display manager, `15` and `16` for the
/// DDC/CI utility.
pub proof fn lemma_token_tables(input: DisplayInput)
    ensures
        input == DisplayInput::DP ==> input.ddm_token() == "DP"@ && input.ddcctl_token() == "15"@,
        input == DisplayInput::MDP ==> input.ddm_token() == "mDP"@ && input.ddcctl_token()
            == "16"@,
        DisplayInput::DP.ddm_token() != DisplayInput::MDP.ddm_token(),
        DisplayInput::DP.ddcctl_token() != DisplayInput::MDP.ddcctl_token(),
{
    reveal_strlit("DP");
    reveal_strlit("mDP");
    reveal_strlit("15");
    reveal_strlit("16");
    assert("DP"@ =~= DisplayInput::DP.ddm_token());
    assert("mDP"@ =~= DisplayInput::MDP.ddm_token());
    assert("15"@ =~= DisplayInput::DP.ddcctl_token());
    assert("16"@ =~= DisplayInput::MDP.ddcctl_token());
}

} // verus!
