use vstd::prelude::*;

verus! {

/// Why switching the monitor's input did not happen.
#[derive(Debug, Clone, Copy, PartialEq, Eq, Structural)]
pub enum SwitchError {
    /// The command-line word names no known input; nothing was launched.
    Validation,
    /// The control utility could not be started or reported failure.
    ExternalToolFailure,
}

impl SwitchError {
    /// The human-readable text reported for this error.
    pub open spec fn message_text(self) -> Seq<char> {
        match self {
            SwitchError::Validation => "Input must be either DP or mDP"@,
            SwitchError::ExternalToolFailure => "Failed to switch monitor active input"@,
        }
    }

    /// The human-readable text reported for this error.
    pub fn message(&self) -> (r: String)
        ensures
            r@ == self.message_text(),
    {
        match self {
            SwitchError::Validation => String::from_str("Input must be either DP or mDP"),
            SwitchError::ExternalToolFailure => String::from_str(
                "Failed to switch monitor active input",
            ),
        }
    }
}

} // verus!
