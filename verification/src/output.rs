//! Classification of a finished toolchain subprocess: exit status zero means
//! success; the text reported back is chosen from the captured stderr and
//! stdout, falling back to the stringified exit status when both are empty.

use vstd::prelude::*;

verus! {

/// The text reported for a successful build: the combined captured output,
/// stderr first, or whichever stream is non-empty, or the exit status text.
pub open spec fn success_message(
    stderr: Seq<char>,
    stdout: Seq<char>,
    status: Seq<char>,
) -> Seq<char> {
    if stderr.len() > 0 && stdout.len() > 0 {
        stderr + seq!['\n'] + stdout
    } else if stderr.len() > 0 {
        stderr
    } else if stdout.len() > 0 {
        stdout
    } else {
        status
    }
}

/// The text reported for a failed build: stderr if non-empty, else stdout,
/// else the exit status text.
pub open spec fn failure_message(
    stderr: Seq<char>,
    stdout: Seq<char>,
    status: Seq<char>,
) -> Seq<char> {
    if stderr.len() > 0 {
        stderr
    } else if stdout.len() > 0 {
        stdout
    } else {
        status
    }
}

/// Classify a finished build subprocess. `exit_ok` is whether the exit status
/// was zero; `stderr` and `stdout` are the captured streams; `status` is the
/// stringified exit status. Returns `Ok` with the success text exactly when
/// the exit status was zero, and `Err` with the failure text otherwise.
pub fn command_output_result(
    exit_ok: bool,
    stderr: &String,
    stdout: &String,
    status: &String,
) -> (r: Result<String, String>)
    ensures
        exit_ok ==> (r matches Ok(m) && m@ == success_message(stderr@, stdout@, status@)),
        !exit_ok ==> (r matches Err(m) && m@ == failure_message(stderr@, stdout@, status@)),
{
    let stderr_empty = stderr.as_str().unicode_len() == 0;
    let stdout_empty = stdout.as_str().unicode_len() == 0;
    if exit_ok {
        if !stderr_empty && !stdout_empty {
            let mut m = stderr.clone();
            m.append("\n");
            m.append(stdout.as_str());
            proof {
                reveal_strlit("\n");
                assert(m@ =~= success_message(stderr@, stdout@, status@));
            }
            Ok(m)
        } else if !stderr_empty {
            Ok(stderr.clone())
        } else if !stdout_empty {
            Ok(stdout.clone())
        } else {
            Ok(status.clone())
        }
    } else {
        if !stderr_empty {
            Err(stderr.clone())
        } else if !stdout_empty {
            Err(stdout.clone())
        } else {
            Err(status.clone())
        }
    }
}

} // verus!
