use vstd::prelude::*;

use crate::error::SwitchError;
use crate::selector::DisplayInput;

verus! {

/// Reads a command-line word as a display input.
///
/// Exactly `DP` and `mDP` are accepted: case matters and nothing is trimmed.
pub fn parse_input(src: &str) -> (r: Result<DisplayInput, SwitchError>)
    ensures
        r == DisplayInput::parse_spec(src@),
{
    let n = src.unicode_len();
    if n == 2 {
        let c0 = src.get_char(0);
        let c1 = src.get_char(1);
        if c0 == 'D' && c1 == 'P' {
            assert(src@ =~= DisplayInput::DP.word());
            return Ok(DisplayInput::DP);
        }
    } else if n == 3 {
        let c0 = src.get_char(0);
        let c1 = src.get_char(1);
        let c2 = src.get_char(2);
        if c0 == 'm' && c1 == 'D' && c2 == 'P' {
            assert(src@ =~= DisplayInput::MDP.word());
            return Ok(DisplayInput::MDP);
        }
    }
    Err(SwitchError::Validation)
}

} // verus!
