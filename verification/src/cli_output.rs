//! What the client makes of a finished `mountos` run: the text it shows and
//! the error it reports.
use vstd::prelude::*;

use crate::error::{fails_with, DesktopError};
use crate::text::{contains, contains_str, join, join_strings, lossy_text, text, trim, trim_str, utf8_lossy, views};

verus! {

/// A finished process: its exit status, the status as the OS renders it,
/// and its captured output.
pub struct CommandOutput {
    pub success: bool,
    pub status_text: String,
    pub code: Option<i32>,
    pub stdout: Vec<u8>,
    pub stderr: Vec<u8>,
}

pub open spec fn text_of(bytes: Seq<u8>) -> Seq<char> {
    utf8_lossy(bytes)
}

/// stdout and stderr on separate lines, trimmed.
pub open spec fn combined_text(out: CommandOutput) -> Seq<char> {
    trim(text_of(out.stdout@) + "\n"@ + text_of(out.stderr@))
}

fn combined(out: &CommandOutput) -> (r: String)
    ensures
        r@ == combined_text(*out),
{
    let mut all = lossy_text(out.stdout.as_slice());
    all.append("\n");
    all.append(lossy_text(out.stderr.as_slice()).as_str());
    trim_str(all.as_str())
}

/// What running `mountos mcp <sub>` gives: stdout and stderr together,
/// trimmed; an error only when the run failed and printed nothing.
pub open spec fn mcp_outcome(sub: Seq<char>, out: CommandOutput, r: Result<String, DesktopError>) -> bool {
    if !out.success && combined_text(out).len() == 0 {
        fails_with(r, "mountos mcp "@ + sub + " exited with "@ + out.status_text@)
    } else {
        r matches Ok(s) && s@ == combined_text(out)
    }
}

/// The output of `mountos mcp <sub>`.
pub fn mcp_subcommand_output(sub: &str, output: &CommandOutput) -> (r: Result<String, DesktopError>)
    ensures
        mcp_outcome(sub@, *output, r),
{
    let c = combined(output);
    if !output.success && c.as_str().is_empty() {
        let mut m = text("mountos mcp ");
        m.append(sub);
        m.append(" exited with ");
        m.append(output.status_text.as_str());
        return Err(DesktopError::Message(m));
    }
    Ok(c)
}

/// `mountos mcp status`.
pub fn mcp_status_blocking(output: &CommandOutput) -> (r: Result<String, DesktopError>)
    ensures
        mcp_outcome("status"@, *output, r),
{
    mcp_subcommand_output("status", output)
}

/// `mountos mcp install`.
pub fn mcp_install_blocking(output: &CommandOutput) -> (r: Result<String, DesktopError>)
    ensures
        mcp_outcome("install"@, *output, r),
{
    mcp_subcommand_output("install", output)
}

/// `mountos mcp uninstall`.
pub fn mcp_uninstall_blocking(output: &CommandOutput) -> (r: Result<String, DesktopError>)
    ensures
        mcp_outcome("uninstall"@, *output, r),
{
    mcp_subcommand_output("uninstall", output)
}

/// The argument list of `mountos mcp <sub>`.
pub fn mcp_argv(sub: &str) -> (r: Vec<String>)
    ensures
        views(r@) == seq!["mcp"@, sub@],
{
    let r = vec![text("mcp"), text(sub)];
    assert(views(r@) =~= seq!["mcp"@, sub@]);
    r
}

pub open spec fn trimmed_text(bytes: Seq<u8>) -> Seq<char> {
    trim(text_of(bytes))
}

/// What a fork subcommand gives: its trimmed stdout (or stderr when stdout
/// is blank); on failure its trimmed stderr, or the command and status when
/// stderr is blank.
pub open spec fn fork_outcome(argv: Seq<Seq<char>>, out: CommandOutput, r: Result<String, DesktopError>) -> bool {
    let stdout = trimmed_text(out.stdout@);
    let stderr = trimmed_text(out.stderr@);
    if !out.success {
        fails_with(
            r,
            if stderr.len() == 0 {
                "mountos "@ + join(argv, " "@) + " exited with "@ + out.status_text@
            } else {
                stderr
            },
        )
    } else {
        r matches Ok(s) && s@ == (if stdout.len() == 0 {
            stderr
        } else {
            stdout
        })
    }
}

/// The result of a finished fork subcommand run with `argv`.
pub fn fork_command_blocking(argv: &[String], output: &CommandOutput) -> (r: Result<String, DesktopError>)
    ensures
        fork_outcome(views(argv@), *output, r),
{
    let stdout = trim_str(lossy_text(output.stdout.as_slice()).as_str());
    let stderr = trim_str(lossy_text(output.stderr.as_slice()).as_str());
    if !output.success {
        if stderr.as_str().is_empty() {
            let mut m = text("mountos ");
            m.append(join_strings(argv, " ").as_str());
            m.append(" exited with ");
            m.append(output.status_text.as_str());
            return Err(DesktopError::Message(m));
        }
        return Err(DesktopError::Message(stderr));
    }
    Ok(
        if stdout.as_str().is_empty() {
            stderr
        } else {
            stdout
        },
    )
}

/// The text of `mountos mount -h`: its trimmed stdout, which must not be blank.
pub fn mount_help_blocking(output: &CommandOutput) -> (r: Result<String, DesktopError>)
    ensures
        trimmed_text(output.stdout@).len() == 0 ==> fails_with(
            r,
            "mountos mount -h exited with "@ + output.status_text@,
        ),
        trimmed_text(output.stdout@).len() > 0 ==> (r matches Ok(s) && s@ == trimmed_text(
            output.stdout@,
        )),
{
    let t = trim_str(lossy_text(output.stdout.as_slice()).as_str());
    if t.as_str().is_empty() {
        let mut m = text("mountos mount -h exited with ");
        m.append(output.status_text.as_str());
        return Err(DesktopError::Message(m));
    }
    Ok(t)
}

/// The CLI's version: the trimmed stdout of `mountos --version`, when the
/// command ran and printed something.
pub fn cli_version(output: Option<&CommandOutput>) -> (r: Option<String>)
    ensures
        match output {
            Some(o) => if trimmed_text(o.stdout@).len() > 0 {
                r matches Some(s) && s@ == trimmed_text(o.stdout@)
            } else {
                r is None
            },
            None => r is None,
        },
{
    match output {
        Some(o) => {
            let t = trim_str(lossy_text(o.stdout.as_slice()).as_str());
            if t.as_str().is_empty() {
                None
            } else {
                Some(t)
            }
        },
        None => None,
    }
}

/// Where a launch's own output lands: stderr and stdout on separate lines, trimmed.
pub open spec fn launch_detail(stderr: Seq<char>, stdout: Seq<char>) -> Seq<char> {
    trim(stderr + "\n"@ + stdout)
}

/// stderr and stdout of a launch, on separate lines, trimmed.
pub fn launch_detail_text(stderr_text: &str, stdout_text: &str) -> (r: String)
    ensures
        r@ == launch_detail(stderr_text@, stdout_text@),
{
    let mut all = text(stderr_text);
    all.append("\n");
    all.append(stdout_text);
    trim_str(all.as_str())
}

/// The CLI gave up waiting for the mount to signal readiness, which does
/// not mean the mount failed.
pub open spec fn indeterminate(detail: Seq<char>) -> bool {
    contains(detail, "did not become ready within"@) || contains(detail, "no readiness signal"@)
}

pub fn is_indeterminate(detail: &str) -> (r: bool)
    ensures
        r == indeterminate(detail@),
{
    contains_str(detail, "did not become ready within") || contains_str(detail, "no readiness signal")
}

/// How a finished launch went.
pub struct MountResult {
    pub state: String,
    pub target: String,
}

/// The target came up.
pub fn ready_result(target: &str) -> (r: MountResult)
    ensures
        r.state@ == "ready"@,
        r.target@ == target@,
{
    MountResult { state: text("ready"), target: text(target) }
}

/// The error a daemonizing launch reports when it exited unsuccessfully and
/// did not show up in the mount table afterwards.
pub open spec fn daemon_failure_text(detail: Seq<char>, status: Seq<char>) -> Seq<char> {
    if detail.len() == 0 {
        "mountos exited with "@ + status
    } else if indeterminate(detail) {
        "indeterminate launch did not appear in the mount table after reconciliation: "@ + detail
    } else {
        detail
    }
}

pub fn daemon_launch_failure(detail: &str, status_text: &str) -> (r: DesktopError)
    ensures
        r matches DesktopError::Message(m) && m@ == daemon_failure_text(detail@, status_text@),
{
    if detail.is_empty() {
        let mut m = text("mountos exited with ");
        m.append(status_text);
        DesktopError::Message(m)
    } else if is_indeterminate(detail) {
        let mut m = text(
            "indeterminate launch did not appear in the mount table after reconciliation: ",
        );
        m.append(detail);
        DesktopError::Message(m)
    } else {
        DesktopError::Message(text(detail))
    }
}

/// The error a foreground view reports when its process exits before the
/// view is mounted.
pub fn foreground_view_failure(detail: &str, status_text: &str) -> (r: DesktopError)
    ensures
        r matches DesktopError::Message(m) && m@ == (if detail@.len() == 0 {
            "mountos exited with "@ + status_text@ + " before the view became ready"@
        } else {
            detail@
        }),
{
    if detail.is_empty() {
        let mut m = text("mountos exited with ");
        m.append(status_text);
        m.append(" before the view became ready");
        DesktopError::Message(m)
    } else {
        DesktopError::Message(text(detail))
    }
}

/// The error a gateway-only launch reports when its process fails.
pub fn gateway_launch_failure(detail: &str, status_text: &str) -> (r: DesktopError)
    ensures
        r matches DesktopError::Message(m) && m@ == (if detail@.len() == 0 {
            "mountos gateway exited with "@ + status_text@
        } else {
            detail@
        }),
{
    if detail.is_empty() {
        let mut m = text("mountos gateway exited with ");
        m.append(status_text);
        DesktopError::Message(m)
    } else {
        DesktopError::Message(text(detail))
    }
}

/// The error a Windows launch reports when the process exited but the
/// target never appeared.
pub fn windows_ready_failure(detail: &str) -> (r: DesktopError)
    ensures
        r matches DesktopError::Message(m) && m@ == (if detail@.len() == 0 {
            "process exited, but the target did not become ready within 60 seconds"@
        } else {
            detail@
        }),
{
    if detail.is_empty() {
        DesktopError::Message(text("process exited, but the target did not become ready within 60 seconds"))
    } else {
        DesktopError::Message(text(detail))
    }
}

} // verus!
