//! The decisions around an invocation of the resolved tool: the command
//! line handed to the process launcher, and how a finished process's output
//! is turned into the caller's result. Spawning the process and capturing
//! its output are the caller's work; the rules stand here.

use vstd::prelude::*;

verus! {

/// The argument list handed to the external runtime launcher: the resolved
/// tool path, the sub-command name, then the caller's arguments, in order.
pub fn build_command_args(tool_path: String, command: String, args: Vec<String>) -> (r: Vec<
    String,
>)
    ensures
        r@ =~= seq![tool_path, command] + args@,
{
    let mut out: Vec<String> = Vec::new();
    out.push(tool_path);
    out.push(command);
    let mut rest = args;
    out.append(&mut rest);
    out
}

/// The result reported for a finished tool process: its standard output on
/// success, its standard error as the failure payload otherwise.
pub fn interpret_output(success: bool, stdout: String, stderr: String) -> (r: Result<
    String,
    String,
>)
    ensures
        success ==> (r matches Ok(s) && s == stdout),
        !success ==> (r matches Err(e) && e == stderr),
{
    if success {
        Ok(stdout)
    } else {
        Err(stderr)
    }
}

} // verus!
