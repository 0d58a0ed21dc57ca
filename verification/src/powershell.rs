use vstd::prelude::*;
use crate::config::strings_view;
use crate::text::{
    owned, append_str, append_chars, chars_of, string_of, decimal, u64_decimal, i64_decimal,
    byte_len, is_boundary, take_bytes, exceeds_bytes, take_bytes_exec,
};

verus! {

// ---------------------------------------------------------------------------
// Running PowerShell
// ---------------------------------------------------------------------------

/// How long a PowerShell command may run, in seconds.
pub const POWERSHELL_TIMEOUT_SECS: u64 = 120;

/// How often a running PowerShell process is looked at, in milliseconds.
pub const POLL_INTERVAL_MS: u64 = 100;

/// The arguments for running a script with PowerShell: no profile, no
/// prompts, any execution policy, a hidden window.
pub fn powershell_args(script: &str) -> (r: Vec<String>)
    ensures
        strings_view(r@) == seq![
            "-NoProfile"@,
            "-NonInteractive"@,
            "-ExecutionPolicy"@,
            "Bypass"@,
            "-WindowStyle"@,
            "Hidden"@,
            "-Command"@,
            script@,
        ],
{
    let r: Vec<String> = vec![
        owned("-NoProfile"),
        owned("-NonInteractive"),
        owned("-ExecutionPolicy"),
        owned("Bypass"),
        owned("-WindowStyle"),
        owned("Hidden"),
        owned("-Command"),
        owned(script),
    ];
    assert(strings_view(r@) =~= seq![
        "-NoProfile"@,
        "-NonInteractive"@,
        "-ExecutionPolicy"@,
        "Bypass"@,
        "-WindowStyle"@,
        "Hidden"@,
        "-Command"@,
        script@,
    ]);
    r
}

/// The arguments for running a script with PowerShell under a time limit
/// (the execution policy is left as it is).
pub fn powershell_timeout_args(script: &str) -> (r: Vec<String>)
    ensures
        strings_view(r@) == seq![
            "-NoProfile"@,
            "-NonInteractive"@,
            "-WindowStyle"@,
            "Hidden"@,
            "-Command"@,
            script@,
        ],
{
    let r: Vec<String> = vec![
        owned("-NoProfile"),
        owned("-NonInteractive"),
        owned("-WindowStyle"),
        owned("Hidden"),
        owned("-Command"),
        owned(script),
    ];
    assert(strings_view(r@) =~= seq![
        "-NoProfile"@,
        "-NonInteractive"@,
        "-WindowStyle"@,
        "Hidden"@,
        "-Command"@,
        script@,
    ]);
    r
}

/// The arguments for running a script file with PowerShell.
pub fn powershell_file_args(script_path: &str) -> (r: Vec<String>)
    ensures
        strings_view(r@) == seq![
            "-NoProfile"@,
            "-WindowStyle"@,
            "Hidden"@,
            "-ExecutionPolicy"@,
            "Bypass"@,
            "-File"@,
            script_path@,
        ],
{
    let r: Vec<String> = vec![
        owned("-NoProfile"),
        owned("-WindowStyle"),
        owned("Hidden"),
        owned("-ExecutionPolicy"),
        owned("Bypass"),
        owned("-File"),
        owned(script_path),
    ];
    assert(strings_view(r@) =~= seq![
        "-NoProfile"@,
        "-WindowStyle"@,
        "Hidden"@,
        "-ExecutionPolicy"@,
        "Bypass"@,
        "-File"@,
        script_path@,
    ]);
    r
}

/// The name of the temporary file an install script is written to.
pub fn install_script_file_name(pid: u32) -> (r: String)
    ensures
        r@ == "install_printer_"@ + decimal(pid as int) + ".ps1"@,
{
    let mut r = owned("install_printer_");
    append_chars(&mut r, u64_decimal(pid as u64).as_slice());
    append_str(&mut r, ".ps1");
    r
}

/// The first 50 bytes of a script and `...` when it is longer, as the
/// hint in a time-out error.
pub open spec fn script_hint(script: Seq<char>) -> Seq<char> {
    if byte_len(script) > 50 {
        take_bytes(script, 50) + "..."@
    } else {
        script
    }
}

/// The error of a PowerShell command that ran out of time while listing
/// printers.
pub fn list_timeout_message(elapsed_ms: u64, script: &str) -> (r: String)
    requires
        byte_len(script@) > 50 ==> is_boundary(script@, 50),
    ensures
        r@ == "WIN_LIST_PRINTERS_TIMEOUT elapsed_ms="@ + decimal(elapsed_ms as int) + " script_hint="@
            + script_hint(script@),
{
    let v = chars_of(script);
    let mut r = owned("WIN_LIST_PRINTERS_TIMEOUT elapsed_ms=");
    append_chars(&mut r, u64_decimal(elapsed_ms).as_slice());
    append_str(&mut r, " script_hint=");
    if exceeds_bytes(v.as_slice(), 50) {
        append_chars(&mut r, take_bytes_exec(v.as_slice(), 50).as_slice());
        append_str(&mut r, "...");
    } else {
        append_str(&mut r, script);
    }
    r
}

/// An error message made of a prefix, the standard output and error output
/// where they are not empty, and the exit code where there is one, each on
/// a line of its own.
pub open spec fn spec_format_command_error(
    prefix: Seq<char>,
    stdout: Seq<char>,
    stderr: Seq<char>,
    code: Option<i32>,
) -> Seq<char> {
    prefix + (if stdout.len() > 0 {
        "\n标准输出: "@ + stdout
    } else {
        seq![]
    }) + (if stderr.len() > 0 {
        "\n错误输出: "@ + stderr
    } else {
        seq![]
    }) + match code {
        Some(c) => "\n退出码: "@ + decimal(c as int),
        None => seq![],
    }
}

pub fn format_command_error(prefix: &str, stdout: &str, stderr: &str, code: Option<i32>) -> (r:
    String)
    ensures
        r@ == spec_format_command_error(prefix@, stdout@, stderr@, code),
{
    let mut r = owned(prefix);
    let ghost p0 = r@;
    if chars_of(stdout).len() > 0 {
        append_str(&mut r, "\n标准输出: ");
        append_str(&mut r, stdout);
    }
    let ghost p1 = r@;
    assert(p1 == prefix@ + (if stdout@.len() > 0 {
        "\n标准输出: "@ + stdout@
    } else {
        seq![]
    }));
    if chars_of(stderr).len() > 0 {
        append_str(&mut r, "\n错误输出: ");
        append_str(&mut r, stderr);
    }
    let ghost p2 = r@;
    assert(p2 == p1 + (if stderr@.len() > 0 {
        "\n错误输出: "@ + stderr@
    } else {
        seq![]
    }));
    match code {
        Some(c) => {
            append_str(&mut r, "\n退出码: ");
            append_chars(&mut r, i64_decimal(c as i64).as_slice());
        },
        None => {},
    }
    r
}

/// The error of a script run that ran out of time.
pub fn script_timeout_error(prefix: &str, timeout_secs: u64) -> (r: String)
    ensures
        r@ == spec_format_command_error(
            prefix@ + ": PowerShell 脚本执行超时("@ + decimal(timeout_secs as int) + "秒)"@,
            seq![],
            seq![],
            None,
        ),
{
    let mut p = owned(prefix);
    append_str(&mut p, ": PowerShell 脚本执行超时(");
    append_chars(&mut p, u64_decimal(timeout_secs).as_slice());
    append_str(&mut p, "秒)");
    proof {
        reveal_strlit("");
    }
    format_command_error(p.as_str(), "", "", None)
}

/// The error of a script step that failed with an error's text (starting
/// the script, writing its file, waiting for it).
pub fn script_step_error(prefix: &str, what: &str, error: &str) -> (r: String)
    ensures
        r@ == spec_format_command_error(prefix@ + ": "@ + what@, seq![], error@, None),
{
    let mut p = owned(prefix);
    append_str(&mut p, ": ");
    append_str(&mut p, what);
    proof {
        reveal_strlit("");
    }
    format_command_error(p.as_str(), "", error, None)
}

} // verus!
