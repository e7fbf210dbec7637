use vstd::prelude::*;

use crate::error::SwitchError;

verus! {

/// The video input a monitor can be switched to.
#[derive(Debug, Clone, Copy, PartialEq, Eq, Structural)]
pub enum DisplayInput {
    /// Full-size DisplayPort.
    DP,
    /// Mini-DisplayPort.
    MDP,
}

impl DisplayInput {
    /// The command-line word that names this input.
    pub open spec fn word(self) -> Seq<char> {
        match self {
            DisplayInput::DP => seq!['D', 'P'],
            DisplayInput::MDP => seq!['m', 'D', 'P'],
        }
    }

    /// What reading the word `s` gives: the input it names, or a
    /// validation error when it names none.
    pub open spec fn parse_spec(s: Seq<char>) -> Result<DisplayInput, SwitchError> {
        if s == DisplayInput::DP.word() {
            Ok(DisplayInput::DP)
        } else if s == DisplayInput::MDP.word() {
            Ok(DisplayInput::MDP)
        } else {
            Err(SwitchError::Validation)
        }
    }

    /// The token that the vendor display manager expects for this input.
    pub open spec fn ddm_token(self) -> Seq<char> {
        match self {
            DisplayInput::DP => seq!['D', 'P'],
            DisplayInput::MDP => seq!['m', 'D', 'P'],
        }
    }

    /// The input-source code that the DDC/CI control utility expects.
    pub open spec fn ddcctl_token(self) -> Seq<char> {
        match self {
            DisplayInput::DP => seq!['1', '5'],
            DisplayInput::MDP => seq!['1', '6'],
        }
    }

    /// The argument naming this input for the vendor display manager.
    pub fn ddm_command(&self) -> (r: &'static str)
        ensures
            r@ == self.ddm_token(),
    {
        match self {
            DisplayInput::DP => {
                proof {
                    reveal_strlit("DP");
                }
                "DP"
            },
            DisplayInput::MDP => {
                proof {
                    reveal_strlit("mDP");
                }
                "mDP"
            },
        }
    }

    /// The argument naming this input for the DDC/CI control utility.
    pub fn ddcctl_command(&self) -> (r: &'static str)
        ensures
            r@ == self.ddcctl_token(),
    {
        match self {
            DisplayInput::DP => {
                proof {
                    reveal_strlit("15");
                }
                "15"
            },
            DisplayInput::MDP => {
                proof {
                    reveal_strlit("16");
                }
                "16"
            },
        }
    }
}

} // verus!
