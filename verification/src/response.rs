//! The response builder: pure assembly of the final result structure from the
//! captured subprocess output and the resolved paths. It has no failure mode
//! of its own; malformed output bytes are decoded permissively.

use vstd::prelude::*;

use crate::text::{decode_lossy, lossy_decoded};

verus! {

/// What one invocation returns to the caller.
#[derive(Debug)]
pub struct ConsoleInvocationResponse {
    /// The rendered command line, for logging and audit only.
    pub command_line: String,
    pub stdout: String,
    pub stderr: String,
    pub combined_output: String,
    pub exit_code: i32,
    pub success: bool,
    /// The resolved project path actually used, for transparency.
    pub project_path: String,
    /// The resolved working directory actually used, for transparency.
    pub working_directory: String,
}

/// The combined output: stdout when stderr is empty, stderr when stdout is
/// empty, otherwise stdout and stderr joined with a single newline. Stdout
/// always precedes stderr; chronological interleaving is not preserved.
pub open spec fn combined_view(out: Seq<char>, err: Seq<char>) -> Seq<char> {
    if err.len() == 0 {
        out
    } else if out.len() == 0 {
        err
    } else {
        out + seq!['\n'] + err
    }
}

/// The exit code reported to the caller: the platform's numeric code when
/// there is one; otherwise 0 for a successful exit and 1 as a sentinel for
/// termination without a code.
pub open spec fn exit_code_view(code: Option<i32>, exited_successfully: bool) -> i32 {
    match code {
        Some(c) => c,
        None => if exited_successfully {
            0
        } else {
            1
        },
    }
}

/// Joins the two captured streams as [`combined_view`] says.
pub fn combined_output(stdout: &String, stderr: &String) -> (r: String)
    ensures
        r@ == combined_view(stdout@, stderr@),
{
    if stderr.as_str().is_empty() {
        stdout.clone()
    } else if stdout.as_str().is_empty() {
        stderr.clone()
    } else {
        let mut r = stdout.clone();
        r.append("\n");
        r.append(stderr.as_str());
        proof {
            reveal_strlit("\n");
            assert("\n"@ =~= seq!['\n']);
            assert(r@ =~= combined_view(stdout@, stderr@));
        }
        r
    }
}

/// Assembles the response: decodes the captured byte streams permissively,
/// combines them, and maps the exit status. `code` and `exited_successfully`
/// are what the platform reported for the finished subprocess.
pub fn build_response(
    command_line: String,
    project_path: String,
    working_directory: String,
    stdout_bytes: &Vec<u8>,
    stderr_bytes: &Vec<u8>,
    code: Option<i32>,
    exited_successfully: bool,
) -> (r: ConsoleInvocationResponse)
    ensures
        r.command_line == command_line,
        r.project_path == project_path,
        r.working_directory == working_directory,
        r.stdout@ == lossy_decoded(stdout_bytes@),
        r.stderr@ == lossy_decoded(stderr_bytes@),
        r.combined_output@ == combined_view(r.stdout@, r.stderr@),
        r.exit_code == exit_code_view(code, exited_successfully),
        r.success == exited_successfully,
{
    let stdout = decode_lossy(stdout_bytes);
    let stderr = decode_lossy(stderr_bytes);
    let combined = combined_output(&stdout, &stderr);
    let exit_code: i32 = match code {
        Some(c) => c,
        None => if exited_successfully {
            0
        } else {
            1
        },
    };
    ConsoleInvocationResponse {
        command_line,
        stdout,
        stderr,
        combined_output: combined,
        exit_code,
        success: exited_successfully,
        project_path,
        working_directory,
    }
}

} // verus!
