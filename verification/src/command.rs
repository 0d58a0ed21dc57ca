use vstd::prelude::*;
use vstd::utf8::{valid_utf8, decode_utf8};
use crate::macos::{debug_list, debug_str_list};
use crate::outside::{from_utf8_lossy, utf8_lossy, decode_gbk, gbk_decode};
use crate::ipp::utf8_string;
use crate::text::{
    owned, append_str, append_chars, chars_of, string_of, decimal, u64_decimal, radix_digits,
    u64_upper_hex, byte_len, is_boundary, take_bytes, exceeds_bytes, take_bytes_exec, join,
    join_strings,
};

verus! {

// ---------------------------------------------------------------------------
// Running external commands
// ---------------------------------------------------------------------------

/// What a finished command gave back.
pub struct ExecOutput {
    pub status_code: Option<i32>,
    pub stdout: String,
    pub stderr: String,
}

/// A finished command's output, its streams decoded leniently as UTF-8.
pub fn exec_output(status_code: Option<i32>, stdout: &[u8], stderr: &[u8]) -> (r: ExecOutput)
    ensures
        r.status_code == status_code,
        r.stdout@ == utf8_lossy(stdout@),
        r.stderr@ == utf8_lossy(stderr@),
{
    ExecOutput { status_code, stdout: from_utf8_lossy(stdout), stderr: from_utf8_lossy(stderr) }
}

/// The error of a command that could not be started.
pub open spec fn spec_run_error(program: Seq<char>, args: Seq<Seq<char>>, error: Seq<char>) -> Seq<
    char,
> {
    "执行命令失败: program="@ + program + ", args="@ + debug_str_list(args) + ", error="@ + error
}

pub fn run_error(program: &str, args: &[&str], error: &str) -> (r: String)
    ensures
        r@ == spec_run_error(program@, args@.map_values(|s: &str| s@), error@),
{
    let mut r = owned("执行命令失败: program=");
    append_str(&mut r, program);
    append_str(&mut r, ", args=");
    append_str(&mut r, debug_list(args).as_str());
    append_str(&mut r, ", error=");
    append_str(&mut r, error);
    r
}

/// Hidden-window command execution exists on Windows only; elsewhere the
/// request is refused.
pub fn run_hidden(program: &str, args: &[&str]) -> (r: Result<ExecOutput, String>)
    ensures
        r matches Err(e) && e@ == "run_hidden 仅在 Windows 平台支持"@,
{
    Err(owned("run_hidden 仅在 Windows 平台支持"))
}

/// Hidden-window command execution with a time limit exists on Windows
/// only; elsewhere the request is refused.
pub fn run_hidden_with_timeout(program: &str, args: &[&str], timeout_secs: u64) -> (r: Result<
    ExecOutput,
    String,
>)
    ensures
        r matches Err(e) && e@ == "run_hidden_with_timeout 仅在 Windows 平台支持"@,
{
    Err(owned("run_hidden_with_timeout 仅在 Windows 平台支持"))
}

/// Ending a process with taskkill is best effort and never fails.
pub fn taskkill_pid_hidden(pid: u32) -> (r: Result<(), String>)
    ensures
        r is Ok,
{
    Ok(())
}

/// The arguments of `taskkill` for a process: `/F /PID <pid>`.
pub fn taskkill_args(pid: u32) -> (r: Vec<String>)
    ensures
        r@.map_values(|s: String| s@) == seq!["/F"@, "/PID"@, decimal(pid as int)],
{
    let r: Vec<String> = vec![owned("/F"), owned("/PID"), string_of(u64_decimal(pid as u64).as_slice())];
    assert(r@.map_values(|s: String| s@) =~= seq!["/F"@, "/PID"@, decimal(pid as int)]);
    r
}

/// How long a command may run, in seconds.
pub const COMMAND_TIMEOUT_SECS: u64 = 120;

/// How long to wait between checks of a running command, in milliseconds.
pub const POLL_INTERVAL_MS: u64 = 100;

/// What to do while waiting for a command.
pub enum PollStep {
    /// The command finished: collect its output.
    Collect,
    /// Still running: check again after this many milliseconds.
    Wait(u64),
    /// Kill the command and wait for it, then fail with this error.
    Kill(String),
}

/// One check of a running command: past the time limit it is killed; a
/// failed status check kills it too; otherwise it is finished or waited
/// for.
pub fn poll_step(elapsed_secs: u64, status: Result<bool, String>) -> (r: PollStep)
    ensures
        elapsed_secs >= 120 ==> (r matches PollStep::Kill(e) && e@ == "执行命令超时: 120s"@),
        elapsed_secs < 120 ==> match status {
            Ok(true) => r is Collect,
            Ok(false) => r == PollStep::Wait(100),
            Err(e) => r matches PollStep::Kill(m) && m@ == "检查命令进程状态失败: "@ + e@,
        },
{
    if elapsed_secs >= COMMAND_TIMEOUT_SECS {
        return PollStep::Kill(owned("执行命令超时: 120s"));
    }
    match status {
        Ok(true) => PollStep::Collect,
        Ok(false) => PollStep::Wait(POLL_INTERVAL_MS),
        Err(e) => {
            let mut m = owned("检查命令进程状态失败: ");
            append_str(&mut m, e.as_str());
            PollStep::Kill(m)
        },
    }
}

// ---------------------------------------------------------------------------
// Text from Windows programs
// ---------------------------------------------------------------------------

/// How text from a Windows program is decoded: as UTF-8 when it is valid
/// UTF-8; else as GBK when that decodes without error; else leniently as
/// UTF-8.
pub open spec fn spec_decode_windows_string(bytes: Seq<u8>) -> Seq<char> {
    if valid_utf8(bytes) {
        decode_utf8(bytes)
    } else if !gbk_decode(bytes).1 {
        gbk_decode(bytes).0
    } else {
        utf8_lossy(bytes)
    }
}

pub fn decode_windows_string(bytes: &[u8]) -> (r: String)
    ensures
        r@ == spec_decode_windows_string(bytes@),
{
    match utf8_string(bytes) {
        Some(s) => s,
        None => {
            let (text, had_errors) = decode_gbk(bytes);
            if had_errors {
                from_utf8_lossy(bytes)
            } else {
                text
            }
        },
    }
}

/// `s` if it has at most `max_len` characters, else its first `max_len`
/// characters and `...<truncated>`.
pub open spec fn spec_truncate(s: Seq<char>, max_len: int) -> Seq<char> {
    if s.len() <= max_len {
        s
    } else {
        s.take(max_len) + "...<truncated>"@
    }
}

/// Cuts a string for the console log, counting characters.
pub fn truncate(s: &str, max_len: usize) -> (r: String)
    ensures
        r@ == spec_truncate(s@, max_len as int),
{
    let v = chars_of(s);
    if v.len() <= max_len {
        return owned(s);
    }
    let head = crate::text::slice_chars(v.as_slice(), 0, max_len);
    assert(head@ =~= s@.take(max_len as int));
    let mut r = string_of(head.as_slice());
    append_str(&mut r, "...<truncated>");
    r
}

/// The names of the printer enumeration flags that are set, in the order
/// LOCAL, CONNECTIONS, NETWORK, SHARED.
pub open spec fn flag_names(flags: u32) -> Seq<Seq<char>> {
    (if flags & 0x2 != 0 {
        seq!["PRINTER_ENUM_LOCAL"@]
    } else {
        seq![]
    }) + (if flags & 0x4 != 0 {
        seq!["PRINTER_ENUM_CONNECTIONS"@]
    } else {
        seq![]
    }) + (if flags & 0x40 != 0 {
        seq!["PRINTER_ENUM_NETWORK"@]
    } else {
        seq![]
    }) + (if flags & 0x20 != 0 {
        seq!["PRINTER_ENUM_SHARED"@]
    } else {
        seq![]
    })
}

/// `0x` and the flags in upper-case hexadecimal, then the names of the
/// known flags that are set, joined by ` | ` in brackets.
pub open spec fn spec_format_flags(flags: u32) -> Seq<char> {
    let hex = "0x"@ + radix_digits(flags as nat, 16);
    if flag_names(flags).len() == 0 {
        hex
    } else {
        hex + " ("@ + join(flag_names(flags), " | "@) + ")"@
    }
}

pub fn format_flags(flags: u32) -> (r: String)
    ensures
        r@ == spec_format_flags(flags),
{
    let mut parts: Vec<String> = Vec::new();
    if flags & 0x2 != 0 {
        parts.push(owned("PRINTER_ENUM_LOCAL"));
    }
    if flags & 0x4 != 0 {
        parts.push(owned("PRINTER_ENUM_CONNECTIONS"));
    }
    if flags & 0x40 != 0 {
        parts.push(owned("PRINTER_ENUM_NETWORK"));
    }
    if flags & 0x20 != 0 {
        parts.push(owned("PRINTER_ENUM_SHARED"));
    }
    assert(parts@.map_values(|s: String| s@) =~= flag_names(flags));
    let mut r = owned("0x");
    append_chars(&mut r, u64_upper_hex(flags as u64).as_slice());
    if parts.len() == 0 {
        r
    } else {
        append_str(&mut r, " (");
        append_str(&mut r, join_strings(&parts, " | ").as_str());
        append_str(&mut r, ")");
        r
    }
}

} // verus!
