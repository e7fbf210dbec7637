use vstd::prelude::*;

use crate::error::SwitchError;

verus! {

/// What the caller reports once the control utility has run: the result,
/// and the text for the standard output and standard error streams.
#[derive(Debug)]
pub struct RunReport {
    pub result: Result<(), SwitchError>,
    pub stdout: String,
    pub stderr: String,
}

/// The text written to standard output after a failed run.
pub open spec fn failure_stdout(status: Seq<char>, out: Seq<char>) -> Seq<char> {
    "status: "@ + status + "\n"@ + "stdout: "@ + out + "\n"@
}

/// The text written to standard error after a failed run.
pub open spec fn failure_stderr(err: Seq<char>) -> Seq<char> {
    "stderr: "@ + err + "\n"@
}

/// Interprets one run of the control utility.
///
/// `success` tells whether it was started and exited successfully; `status`
/// describes its exit status, or why it could not be started, and `out` and
/// `err` are what it wrote. A success is reported with no output at all. A
/// failure is reported with the status and the captured streams, and as
/// [`SwitchError::ExternalToolFailure`].
pub fn interpret_run(success: bool, status: &str, out: &str, err: &str) -> (r: RunReport)
    ensures
        success ==> r.result == Ok::<(), SwitchError>(()),
        success ==> r.stdout@ == Seq::<char>::empty() && r.stderr@ == Seq::<char>::empty(),
        !success ==> r.result == Err::<(), SwitchError>(SwitchError::ExternalToolFailure),
        !success ==> r.stdout@ == failure_stdout(status@, out@),
        !success ==> r.stderr@ == failure_stderr(err@),
{
    if success {
        RunReport { result: Ok(()), stdout: String::new(), stderr: String::new() }
    } else {
        let mut stdout = String::from_str("status: ");
        stdout.append(status);
        stdout.append("\n");
        stdout.append("stdout: ");
        stdout.append(out);
        stdout.append("\n");
        let mut stderr = String::from_str("stderr: ");
        stderr.append(err);
        stderr.append("\n");
        RunReport { result: Err(SwitchError::ExternalToolFailure), stdout, stderr }
    }
}

} // verus!
