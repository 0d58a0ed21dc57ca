use vstd::prelude::*;
use crate::command::{decode_windows_string, spec_decode_windows_string};
use crate::config::opt_view;
use crate::macos_flow::{debug_opt_i32, debug_opt_i32_exec};
use crate::text::{
    owned, append_str, append_chars, chars_of, string_of, decimal, i64_decimal, trim, trim_chars,
    contains, contains_exec, lowercase, to_lowercase, find, find_exec, lemma_find, slice_chars,
    starts_with, starts_with_exec, str_eq, split_on, split_chars, byte_len, is_boundary,
    take_bytes, exceeds_bytes, take_bytes_exec, u64_decimal,
};
use crate::win_delete::{ps_quote, ps_quote_exec};
use crate::win_extract::{is_alphanumeric, unicode_alphanumeric};
use crate::win_queue::{PsRun, out_text, err_text, spec_json_bool, extract_json_bool, with_evidence};

verus! {

// ---------------------------------------------------------------------------
// Install errors
// ---------------------------------------------------------------------------

/// What went wrong while installing a printer on Windows.
#[allow(inconsistent_fields)]
pub enum InstallError {
    CommandFailed { step: String, command: String, stderr: String },
    PowerShellFailed { step: String, stderr: String },
    InvalidInput { field: String, reason: String },
    InvalidConfig { reason: String },
    DriverNotFound { step: String },
    PortCreateTimeout { port_name: String },
    FileOperationFailed { step: String, operation: String, error: String },
    PortAddFailedModern { stdout: String, stderr: String },
    PortAddFailedVbs { error_details: String, exit_code: i32, stdout: String, stderr: String },
    VbsScriptFailed { error: String, script_info: String },
    PrinterInstallFailedModern { stderr: String },
    PrinterInstallFailedVbs { stderr: String },
    InfInstallFailed { inf_path: String, exit_code: Option<i32>, stdout: String, stderr: String },
    PrintUIInfInstallFailed {
        printer_name: String,
        inf_path: String,
        port_name: String,
        model: String,
        exit_code: Option<i32>,
        stdout: String,
        stderr: String,
    },
    PermissionDenied { step: String, reason: String, evidence: String },
}

/// The stable code of each kind of install error.
pub open spec fn spec_install_error_code(e: InstallError) -> Seq<char> {
    match e {
        InstallError::CommandFailed { .. } => "WIN_CMD_FAILED"@,
        InstallError::PowerShellFailed { .. } => "WIN_PS_FAILED"@,
        InstallError::InvalidInput { .. } => "WIN_INVALID_INPUT"@,
        InstallError::InvalidConfig { .. } => "WIN_INVALID_CONFIG"@,
        InstallError::DriverNotFound { .. } => "WIN_DRIVER_NOT_FOUND"@,
        InstallError::PortCreateTimeout { .. } => "WIN_PORT_TIMEOUT"@,
        InstallError::FileOperationFailed { .. } => "WIN_FILE_FAILED"@,
        InstallError::PortAddFailedModern { .. } => "WIN_PORT_FAILED"@,
        InstallError::PortAddFailedVbs { .. } => "WIN_PORT_FAILED"@,
        InstallError::VbsScriptFailed { .. } => "WIN_VBS_FAILED"@,
        InstallError::PrinterInstallFailedModern { .. } => "WIN_PRINTER_INSTALL_FAILED"@,
        InstallError::PrinterInstallFailedVbs { .. } => "WIN_PRINTER_INSTALL_FAILED"@,
        InstallError::InfInstallFailed { .. } => "WIN_INF_INSTALL_FAILED"@,
        InstallError::PrintUIInfInstallFailed { .. } => "WIN_PRINTUI_INF_INSTALL_FAILED"@,
        InstallError::PermissionDenied { .. } => "WIN_PERMISSION_DENIED"@,
    }
}

/// The captured output an error carries, if any.
pub open spec fn spec_install_error_output(e: InstallError) -> (Option<Seq<char>>, Option<Seq<char>>) {
    match e {
        InstallError::PortAddFailedModern { stdout, stderr } => (Some(stdout@), Some(stderr@)),
        InstallError::PortAddFailedVbs { stdout, stderr, .. } => (Some(stdout@), Some(stderr@)),
        InstallError::InfInstallFailed { stdout, stderr, .. } => (Some(stdout@), Some(stderr@)),
        InstallError::PrintUIInfInstallFailed { stdout, stderr, .. } => (Some(stdout@), Some(stderr@)),
        _ => (None, None),
    }
}

pub open spec fn exit_message(code: Option<i32>) -> Seq<char> {
    match code {
        Some(c) => "退出代码: "@ + decimal(c as int),
        None => "无法获取退出代码"@,
    }
}

fn exit_message_exec(code: Option<i32>) -> (r: String)
    ensures
        r@ == exit_message(code),
{
    match code {
        Some(c) => {
            let mut m = owned("退出代码: ");
            append_chars(&mut m, i64_decimal(c as i64).as_slice());
            m
        },
        None => owned("无法获取退出代码"),
    }
}

/// The message shown to the user for an error.
pub open spec fn spec_install_error_message(e: InstallError) -> Seq<char> {
    match e {
        InstallError::CommandFailed { command, stderr, .. } => "执行 "@ + command@ + " 命令失败: "@
            + stderr@,
        InstallError::PowerShellFailed { step, stderr } => if step@ == "add_printer_port_modern"@ {
            "执行 Add-PrinterPort 命令失败: "@ + stderr@
        } else if step@ == "add_printer_with_driver_modern"@ {
            "端口添加成功，但执行 Add-Printer 命令失败: "@ + stderr@
        } else if step@ == "add_printer_with_driver_vbs"@ {
            "端口添加成功，但执行 PowerShell 命令失败: "@ + stderr@
        } else {
            stderr@
        },
        InstallError::InvalidInput { field, reason } => "输入参数 "@ + field@ + " 无效: "@ + reason@,
        InstallError::InvalidConfig { reason } => reason@,
        InstallError::DriverNotFound { .. } => "系统中没有可用的打印机驱动。请先安装打印机驱动。"@,
        InstallError::PortCreateTimeout { .. } => "端口创建超时"@,
        InstallError::FileOperationFailed { operation, error, .. } => if operation@ == "创建临时脚本文件"@ {
            "创建临时脚本文件失败: "@ + error@
        } else if operation@ == "写入脚本内容"@ {
            "写入脚本内容失败: "@ + error@
        } else if operation@ == "同步脚本文件"@ {
            "同步脚本文件失败: "@ + error@
        } else {
            "文件操作失败: "@ + error@
        },
        InstallError::PortAddFailedModern { stdout, stderr } => "添加打印机端口失败。标准输出: "@
            + stdout@ + "。错误信息: "@ + stderr@ + "。请确保有管理员权限。"@,
        InstallError::PortAddFailedVbs { error_details, exit_code, .. } => "添加打印机端口失败。"@
            + error_details@ + " | 退出代码: "@ + decimal(exit_code as int),
        InstallError::VbsScriptFailed { error, script_info } => "执行 prnport.vbs 脚本失败: "@ + error@
            + " | "@ + script_info@,
        InstallError::PrinterInstallFailedModern { stderr } => "端口添加成功，但打印机安装失败。错误信息: "@
            + stderr@ + "。请确保系统中已安装打印机驱动，或联系管理员安装驱动。"@,
        InstallError::PrinterInstallFailedVbs { stderr } => "端口添加成功，但打印机安装失败。错误信息: "@
            + stderr@ + "。请确保系统中已安装打印机驱动，或联系管理员安装驱动。"@,
        InstallError::InfInstallFailed { inf_path, exit_code, stdout, stderr } =>
            "从配置文件安装 INF 驱动失败。文件: "@ + inf_path@ + "。"@ + exit_message(exit_code)
            + "。标准输出: "@ + stdout@ + "。错误输出: "@ + stderr@,
        InstallError::PrintUIInfInstallFailed {
            printer_name,
            inf_path,
            port_name,
            model,
            exit_code,
            stdout,
            stderr,
        } => "使用 PrintUIEntry 安装打印机失败。打印机: "@ + printer_name@ + "，驱动: "@ + inf_path@
            + "，端口: "@ + port_name@ + "，型号: "@ + model@ + "。"@ + exit_message(exit_code)
            + "。标准输出: "@ + stdout@ + "。错误输出: "@ + stderr@,
        InstallError::PermissionDenied { step, reason, evidence } => "需要管理员权限才能执行 "@ + step@
            + "。"@ + reason@ + "\n\n诊断信息: "@ + evidence@,
    }
}

fn cat2(a: &str, b: &str) -> (r: String)
    ensures
        r@ == a@ + b@,
{
    let mut r = owned(a);
    append_str(&mut r, b);
    r
}

impl InstallError {
    /// The stable error code.
    pub fn code(&self) -> (r: &'static str)
        ensures
            r@ == spec_install_error_code(*self),
    {
        match self {
            InstallError::CommandFailed { .. } => "WIN_CMD_FAILED",
            InstallError::PowerShellFailed { .. } => "WIN_PS_FAILED",
            InstallError::InvalidInput { .. } => "WIN_INVALID_INPUT",
            InstallError::InvalidConfig { .. } => "WIN_INVALID_CONFIG",
            InstallError::DriverNotFound { .. } => "WIN_DRIVER_NOT_FOUND",
            InstallError::PortCreateTimeout { .. } => "WIN_PORT_TIMEOUT",
            InstallError::FileOperationFailed { .. } => "WIN_FILE_FAILED",
            InstallError::PortAddFailedModern { .. } => "WIN_PORT_FAILED",
            InstallError::PortAddFailedVbs { .. } => "WIN_PORT_FAILED",
            InstallError::VbsScriptFailed { .. } => "WIN_VBS_FAILED",
            InstallError::PrinterInstallFailedModern { .. } => "WIN_PRINTER_INSTALL_FAILED",
            InstallError::PrinterInstallFailedVbs { .. } => "WIN_PRINTER_INSTALL_FAILED",
            InstallError::InfInstallFailed { .. } => "WIN_INF_INSTALL_FAILED",
            InstallError::PrintUIInfInstallFailed { .. } => "WIN_PRINTUI_INF_INSTALL_FAILED",
            InstallError::PermissionDenied { .. } => "WIN_PERMISSION_DENIED",
        }
    }

    /// The standard output and error output the error carries, if any.
    pub fn get_output(&self) -> (r: (Option<String>, Option<String>))
        ensures
            (opt_view(r.0), opt_view(r.1)) == spec_install_error_output(*self),
    {
        match self {
            InstallError::PortAddFailedModern { stdout, stderr } => (
                Some(owned(stdout.as_str())),
                Some(owned(stderr.as_str())),
            ),
            InstallError::PortAddFailedVbs { stdout, stderr, .. } => (
                Some(owned(stdout.as_str())),
                Some(owned(stderr.as_str())),
            ),
            InstallError::InfInstallFailed { stdout, stderr, .. } => (
                Some(owned(stdout.as_str())),
                Some(owned(stderr.as_str())),
            ),
            InstallError::PrintUIInfInstallFailed { stdout, stderr, .. } => (
                Some(owned(stdout.as_str())),
                Some(owned(stderr.as_str())),
            ),
            _ => (None, None),
        }
    }

    /// The error output prefixed with `[EASYPRINTER_CODE=<code>]`; the
    /// prefix alone when there is no output or only whitespace.
    pub fn format_stderr_with_code(&self, stderr: Option<String>) -> (r: Option<String>)
        ensures
            r matches Some(s) && s@ == (match stderr {
                Some(t) if trim(t@).len() > 0 => "[EASYPRINTER_CODE="@ + spec_install_error_code(*self)
                    + "] "@ + t@,
                _ => "[EASYPRINTER_CODE="@ + spec_install_error_code(*self) + "]"@,
            }),
    {
        let code = self.code();
        match stderr {
            Some(s) => {
                let t = trim_chars(chars_of(s.as_str()).as_slice());
                if t.len() > 0 {
                    let mut r = owned("[EASYPRINTER_CODE=");
                    append_str(&mut r, code);
                    append_str(&mut r, "] ");
                    append_str(&mut r, s.as_str());
                    Some(r)
                } else {
                    let mut r = owned("[EASYPRINTER_CODE=");
                    append_str(&mut r, code);
                    append_str(&mut r, "]");
                    Some(r)
                }
            },
            None => {
                let mut r = owned("[EASYPRINTER_CODE=");
                append_str(&mut r, code);
                append_str(&mut r, "]");
                Some(r)
            },
        }
    }

    /// The message shown to the user.
    pub fn to_user_message(&self) -> (r: String)
        ensures
            r@ == spec_install_error_message(*self),
    {
        match self {
            InstallError::CommandFailed { command, stderr, .. } => {
                let mut r = owned("执行 ");
                append_str(&mut r, command.as_str());
                append_str(&mut r, " 命令失败: ");
                append_str(&mut r, stderr.as_str());
                r
            },
            InstallError::PowerShellFailed { step, stderr } => {
                if str_eq(step.as_str(), "add_printer_port_modern") {
                    cat2("执行 Add-PrinterPort 命令失败: ", stderr.as_str())
                } else if str_eq(step.as_str(), "add_printer_with_driver_modern") {
                    cat2("端口添加成功，但执行 Add-Printer 命令失败: ", stderr.as_str())
                } else if str_eq(step.as_str(), "add_printer_with_driver_vbs") {
                    cat2("端口添加成功，但执行 PowerShell 命令失败: ", stderr.as_str())
                } else {
                    owned(stderr.as_str())
                }
            },
            InstallError::InvalidInput { field, reason } => {
                let mut r = owned("输入参数 ");
                append_str(&mut r, field.as_str());
                append_str(&mut r, " 无效: ");
                append_str(&mut r, reason.as_str());
                r
            },
            InstallError::InvalidConfig { reason } => owned(reason.as_str()),
            InstallError::DriverNotFound { .. } => owned("系统中没有可用的打印机驱动。请先安装打印机驱动。"),
            InstallError::PortCreateTimeout { .. } => owned("端口创建超时"),
            InstallError::FileOperationFailed { operation, error, .. } => {
                if str_eq(operation.as_str(), "创建临时脚本文件") {
                    cat2("创建临时脚本文件失败: ", error.as_str())
                } else if str_eq(operation.as_str(), "写入脚本内容") {
                    cat2("写入脚本内容失败: ", error.as_str())
                } else if str_eq(operation.as_str(), "同步脚本文件") {
                    cat2("同步脚本文件失败: ", error.as_str())
                } else {
                    cat2("文件操作失败: ", error.as_str())
                }
            },
            InstallError::PortAddFailedModern { stdout, stderr } => {
                let mut r = owned("添加打印机端口失败。标准输出: ");
                append_str(&mut r, stdout.as_str());
                append_str(&mut r, "。错误信息: ");
                append_str(&mut r, stderr.as_str());
                append_str(&mut r, "。请确保有管理员权限。");
                r
            },
            InstallError::PortAddFailedVbs { error_details, exit_code, .. } => {
                let mut r = owned("添加打印机端口失败。");
                append_str(&mut r, error_details.as_str());
                append_str(&mut r, " | 退出代码: ");
                append_chars(&mut r, i64_decimal(*exit_code as i64).as_slice());
                r
            },
            InstallError::VbsScriptFailed { error, script_info } => {
                let mut r = owned("执行 prnport.vbs 脚本失败: ");
                append_str(&mut r, error.as_str());
                append_str(&mut r, " | ");
                append_str(&mut r, script_info.as_str());
                r
            },
            InstallError::PrinterInstallFailedModern { stderr } => {
                let mut r = owned("端口添加成功，但打印机安装失败。错误信息: ");
                append_str(&mut r, stderr.as_str());
                append_str(&mut r, "。请确保系统中已安装打印机驱动，或联系管理员安装驱动。");
                r
            },
            InstallError::PrinterInstallFailedVbs { stderr } => {
                let mut r = owned("端口添加成功，但打印机安装失败。错误信息: ");
                append_str(&mut r, stderr.as_str());
                append_str(&mut r, "。请确保系统中已安装打印机驱动，或联系管理员安装驱动。");
                r
            },
            InstallError::InfInstallFailed { inf_path, exit_code, stdout, stderr } => {
                let mut r = owned("从配置文件安装 INF 驱动失败。文件: ");
                append_str(&mut r, inf_path.as_str());
                append_str(&mut r, "。");
                append_str(&mut r, exit_message_exec(*exit_code).as_str());
                append_str(&mut r, "。标准输出: ");
                append_str(&mut r, stdout.as_str());
                append_str(&mut r, "。错误输出: ");
                append_str(&mut r, stderr.as_str());
                r
            },
            InstallError::PrintUIInfInstallFailed {
                printer_name,
                inf_path,
                port_name,
                model,
                exit_code,
                stdout,
                stderr,
            } => {
                let mut r = owned("使用 PrintUIEntry 安装打印机失败。打印机: ");
                append_str(&mut r, printer_name.as_str());
                append_str(&mut r, "，驱动: ");
                append_str(&mut r, inf_path.as_str());
                append_str(&mut r, "，端口: ");
                append_str(&mut r, port_name.as_str());
                append_str(&mut r, "，型号: ");
                append_str(&mut r, model.as_str());
                append_str(&mut r, "。");
                append_str(&mut r, exit_message_exec(*exit_code).as_str());
                append_str(&mut r, "。标准输出: ");
                append_str(&mut r, stdout.as_str());
                append_str(&mut r, "。错误输出: ");
                append_str(&mut r, stderr.as_str());
                r
            },
            InstallError::PermissionDenied { step, reason, evidence } => {
                let mut r = owned("需要管理员权限才能执行 ");
                append_str(&mut r, step.as_str());
                append_str(&mut r, "。");
                append_str(&mut r, reason.as_str());
                append_str(&mut r, "\n\n诊断信息: ");
                append_str(&mut r, evidence.as_str());
                r
            },
        }
    }
}

// ---------------------------------------------------------------------------
// Reading pnputil's output
// ---------------------------------------------------------------------------

/// Whether pnputil's output says the driver package was staged.
pub open spec fn spec_pnputil_stage_succeeded(output: Seq<char>) -> bool {
    let lower = lowercase(output);
    ||| contains(output, "已成功添加驱动程序包"@)
    ||| (contains(output, "发布名称:"@) && contains(lower, "oem"@) && contains(lower, ".inf"@))
    ||| contains(lower, "driver package added successfully"@)
    ||| (contains(lower, "published name"@) && contains(lower, "oem"@) && contains(lower, ".inf"@))
}

fn has(s: &[char], p: &str) -> (b: bool)
    ensures
        b == contains(s@, p@),
{
    contains_exec(s, chars_of(p).as_slice())
}

pub fn pnputil_stage_succeeded(output: &str) -> (b: bool)
    ensures
        b == spec_pnputil_stage_succeeded(output@),
{
    let v = chars_of(output);
    let lower = to_lowercase(v.as_slice());
    let l = lower.as_slice();
    has(v.as_slice(), "已成功添加驱动程序包") || (has(v.as_slice(), "发布名称:") && has(l, "oem") && has(
        l,
        ".inf",
    )) || has(l, "driver package added successfully") || (has(l, "published name") && has(l, "oem")
        && has(l, ".inf"))
}

/// The words in an output, lower-cased, that mean rights were missing.
pub open spec fn permission_words() -> Seq<Seq<char>> {
    seq![
        "拒绝访问"@,
        "access is denied"@,
        "0x5"@,
        "需要提升"@,
        "requires elevation"@,
        "privilege"@,
        "权限"@,
    ]
}

/// The words in an output, lower-cased, that mean plain failure.
pub open spec fn failure_words() -> Seq<Seq<char>> {
    seq![
        "失败"@,
        "failed"@,
        "error"@,
        "the system cannot find the file specified"@,
        "找不到"@,
        "no such file"@,
    ]
}

pub open spec fn mentions_any(s: Seq<char>, words: Seq<Seq<char>>) -> bool {
    exists|i: int| 0 <= i < words.len() && contains(s, #[trigger] words[i])
}

fn mentions_any_exec(s: &[char], words: &Vec<&str>) -> (b: bool)
    ensures
        b == mentions_any(s@, words@.map_values(|w: &str| w@)),
{
    let ghost wv = words@.map_values(|w: &str| w@);
    let mut i: usize = 0;
    while i < words.len()
        invariant
            i <= words@.len(),
            wv == words@.map_values(|w: &str| w@),
            forall|j: int| 0 <= j < i ==> !contains(s@, #[trigger] wv[j]),
        decreases words@.len() - i,
    {
        if has(s, words[i]) {
            assert(contains(s@, wv[i as int]));
            return true;
        }
        i = i + 1;
    }
    false
}

pub fn has_permission_error(output: &str) -> (b: bool)
    ensures
        b == mentions_any(lowercase(output@), permission_words()),
{
    let lower = to_lowercase(chars_of(output).as_slice());
    let words: Vec<&str> = vec!["拒绝访问", "access is denied", "0x5", "需要提升", "requires elevation", "privilege", "权限"];
    assert(words@.map_values(|w: &str| w@) =~= permission_words());
    mentions_any_exec(lower.as_slice(), &words)
}

pub fn has_failure_keywords(output: &str) -> (b: bool)
    ensures
        b == mentions_any(lowercase(output@), failure_words()),
{
    let lower = to_lowercase(chars_of(output).as_slice());
    let words: Vec<&str> = vec!["失败", "failed", "error", "the system cannot find the file specified", "找不到", "no such file"];
    assert(words@.map_values(|w: &str| w@) =~= failure_words());
    mentions_any_exec(lower.as_slice(), &words)
}

// ---------------------------------------------------------------------------
// Kinds of target and port names
// ---------------------------------------------------------------------------

/// Where a printer is reached.
pub enum TargetType {
    TcpIpHost { host: String },
    SharedConnection { path: String },
}

/// The help text that ends the target errors.
pub open spec fn target_help() -> Seq<char> {
    "\"。\n\nTCP/IP 打印机：填写 \"192.168.20.5\" 或 \"printer.company.local\"\n共享打印机：必须填写 \"\\\\server\\\\share\""@
}

pub open spec fn non_empty_parts(parts: Seq<Seq<char>>) -> Seq<Seq<char>>
    decreases parts.len(),
{
    if parts.len() == 0 {
        seq![]
    } else {
        let rest = non_empty_parts(parts.drop_last());
        if parts.last().len() > 0 {
            rest.push(parts.last())
        } else {
            rest
        }
    }
}

pub open spec fn host_char(c: char) -> bool {
    unicode_alphanumeric(c) || c == '-' || c == '_'
}

/// How a target path is read: `\\server\share` (two or more parts) is a
/// shared connection; `\\host` is a TCP/IP host; other text with a
/// backslash is refused; text with `.` or `:`, or
/// made of letters, digits, `-` and `_`, is a TCP/IP host; anything else is
/// refused.
pub open spec fn spec_detect_target_type(path: Seq<char>) -> Result<(bool, Seq<char>), Seq<char>> {
    let t = trim(path);
    if starts_with(t, "\\\\"@) {
        let parts = non_empty_parts(split_on(t, '\\'));
        if parts.len() >= 2 {
            Ok((true, t))
        } else if parts.len() == 1 {
            Ok((false, parts[0]))
        } else {
            Err("无效的 UNC 路径格式: \""@ + t + target_help())
        }
    } else if t.contains('\\') {
        Err("无法识别的目标路径格式: \""@ + t + target_help())
    } else if t.contains('.') || t.contains(':') {
        Ok((false, t))
    } else if forall|i: int| 0 <= i < t.len() ==> host_char(#[trigger] t[i]) {
        Ok((false, t))
    } else {
        Err("无法识别的目标路径格式: \""@ + t + target_help())
    }
}

pub open spec fn target_view(r: TargetType) -> (bool, Seq<char>) {
    match r {
        TargetType::SharedConnection { path } => (true, path@),
        TargetType::TcpIpHost { host } => (false, host@),
    }
}

fn all_host_chars(t: &[char]) -> (b: bool)
    ensures
        b == (forall|i: int| 0 <= i < t@.len() ==> host_char(#[trigger] t@[i])),
{
    let mut i: usize = 0;
    while i < t.len()
        invariant
            i <= t@.len(),
            forall|j: int| 0 <= j < i ==> host_char(#[trigger] t@[j]),
        decreases t@.len() - i,
    {
        let c = t[i];
        if !(is_alphanumeric(c) || c == '-' || c == '_') {
            assert(!host_char(t@[i as int]));
            return false;
        }
        i = i + 1;
    }
    true
}

fn has_char(t: &[char], c: char) -> (b: bool)
    ensures
        b == t@.contains(c),
{
    let mut i: usize = 0;
    while i < t.len()
        invariant
            i <= t@.len(),
            forall|j: int| 0 <= j < i ==> t@[j] != c,
        decreases t@.len() - i,
    {
        if t[i] == c {
            assert(t@[i as int] == c);
            return true;
        }
        i = i + 1;
    }
    false
}

/// Reads a target path as a TCP/IP host or a shared connection.
pub fn detect_target_type(target_path: &str) -> (r: Result<TargetType, String>)
    ensures
        match spec_detect_target_type(target_path@) {
            Ok(v) => r matches Ok(t) && target_view(t) == v,
            Err(m) => r matches Err(e) && e@ == m,
        },
{
    let t = crate::text::trim_str(target_path);
    proof {
        reveal_strlit("\\\\");
    }
    if starts_with_exec(t.as_slice(), chars_of("\\\\").as_slice()) {
        let all = split_chars(t.as_slice(), '\\');
        let ghost av = all@.map_values(|p: Vec<char>| p@);
        let mut parts: Vec<Vec<char>> = Vec::new();
        let mut i: usize = 0;
        while i < all.len()
            invariant
                i <= all@.len(),
                av == all@.map_values(|p: Vec<char>| p@),
                parts@.map_values(|p: Vec<char>| p@) == non_empty_parts(av.take(i as int)),
            decreases all@.len() - i,
        {
            assert(av.take(i + 1).drop_last() =~= av.take(i as int));
            assert(av.take(i + 1).last() == all@[i as int]@);
            if all[i].len() > 0 {
                let ghost before = parts@;
                let p = slice_chars(all[i].as_slice(), 0, all[i].len());
                assert(p@ =~= all@[i as int]@);
                parts.push(p);
                assert(parts@.map_values(|p: Vec<char>| p@) =~= before.map_values(
                    |p: Vec<char>| p@,
                ).push(all@[i as int]@));
            }
            i = i + 1;
        }
        assert(av.take(av.len() as int) =~= av);
        assert(av == split_on(t@, '\\'));
        if parts.len() >= 2 {
            return Ok(TargetType::SharedConnection { path: string_of(t.as_slice()) });
        } else if parts.len() == 1 {
            assert(parts@.map_values(|p: Vec<char>| p@)[0] == parts@[0]@);
            return Ok(TargetType::TcpIpHost { host: string_of(parts[0].as_slice()) });
        } else {
            let mut m = owned("无效的 UNC 路径格式: \"");
            append_chars(&mut m, t.as_slice());
            append_str(
                &mut m,
                "\"。\n\nTCP/IP 打印机：填写 \"192.168.20.5\" 或 \"printer.company.local\"\n共享打印机：必须填写 \"\\\\server\\\\share\"",
            );
            return Err(m);
        }
    }
    if has_char(t.as_slice(), '\\') {
        let mut m = owned("无法识别的目标路径格式: \"");
        append_chars(&mut m, t.as_slice());
        append_str(
            &mut m,
            "\"。\n\nTCP/IP 打印机：填写 \"192.168.20.5\" 或 \"printer.company.local\"\n共享打印机：必须填写 \"\\\\server\\\\share\"",
        );
        Err(m)
    } else if has_char(t.as_slice(), '.') || has_char(t.as_slice(), ':') {
        Ok(TargetType::TcpIpHost { host: string_of(t.as_slice()) })
    } else if all_host_chars(t.as_slice()) {
        Ok(TargetType::TcpIpHost { host: string_of(t.as_slice()) })
    } else {
        let mut m = owned("无法识别的目标路径格式: \"");
        append_chars(&mut m, t.as_slice());
        append_str(
            &mut m,
            "\"。\n\nTCP/IP 打印机：填写 \"192.168.20.5\" 或 \"printer.company.local\"\n共享打印机：必须填写 \"\\\\server\\\\share\"",
        );
        Err(m)
    }
}

/// The port name of a host: `IP_` and the address with `.` as `_`; for a
/// name without `.`, every character other than letters, digits, `-` and
/// `_` becomes `_`.
pub open spec fn spec_generate_port_name(host: Seq<char>) -> Seq<char> {
    if host.contains('.') {
        "IP_"@ + host.map_values(|c: char| if c == '.' {
            '_'
        } else {
            c
        })
    } else {
        "IP_"@ + host.map_values(|c: char| if host_char(c) {
            c
        } else {
            '_'
        })
    }
}

pub fn generate_port_name(host: &str) -> (r: String)
    ensures
        r@ == spec_generate_port_name(host@),
{
    let v = chars_of(host);
    let dotted = has_char(v.as_slice(), '.');
    let mut out: Vec<char> = Vec::new();
    let mut i: usize = 0;
    while i < v.len()
        invariant
            i <= v@.len(),
            v@ == host@,
            dotted == host@.contains('.'),
            out@ == (if dotted {
                v@.take(i as int).map_values(|c: char| if c == '.' {
                    '_'
                } else {
                    c
                })
            } else {
                v@.take(i as int).map_values(|c: char| if host_char(c) {
                    c
                } else {
                    '_'
                })
            }),
        decreases v@.len() - i,
    {
        let c = v[i];
        let d = if dotted {
            if c == '.' {
                '_'
            } else {
                c
            }
        } else {
            if is_alphanumeric(c) || c == '-' || c == '_' {
                c
            } else {
                '_'
            }
        };
        out.push(d);
        assert(v@.take(i + 1) =~= v@.take(i as int).push(c));
        proof {
            if dotted {
                assert(v@.take(i + 1).map_values(|c: char| if c == '.' {
                    '_'
                } else {
                    c
                }) =~= v@.take(i as int).map_values(|c: char| if c == '.' {
                    '_'
                } else {
                    c
                }).push(d));
            } else {
                assert(v@.take(i + 1).map_values(|c: char| if host_char(c) {
                    c
                } else {
                    '_'
                }) =~= v@.take(i as int).map_values(|c: char| if host_char(c) {
                    c
                } else {
                    '_'
                }).push(d));
            }
        }
        i = i + 1;
    }
    assert(v@.take(v@.len() as int) =~= v@);
    let mut r = owned("IP_");
    append_chars(&mut r, out.as_slice());
    r
}

// ---------------------------------------------------------------------------
// Driver install policy
// ---------------------------------------------------------------------------

/// Whether an INF driver is installed even when one is present.
pub enum DriverInstallPolicy {
    Always,
    ReuseIfInstalled,
}

impl DriverInstallPolicy {
    /// `reuse_if_installed` reuses an installed driver; anything else, or
    /// nothing, installs always.
    pub fn from_str(s: Option<&str>) -> (r: Self)
        ensures
            r is ReuseIfInstalled <==> (s matches Some(t) && t@ == "reuse_if_installed"@),
    {
        match s {
            Some(t) => {
                if str_eq(t, "reuse_if_installed") {
                    DriverInstallPolicy::ReuseIfInstalled
                } else {
                    DriverInstallPolicy::Always
                }
            },
            None => DriverInstallPolicy::Always,
        }
    }
}

// ---------------------------------------------------------------------------
// Adding and checking the TCP/IP port
// ---------------------------------------------------------------------------

/// The PowerShell command that adds a TCP/IP port; a port that already
/// exists is reported as such and not as an error.
pub open spec fn spec_add_port_script(port_name: Seq<char>, ip: Seq<char>) -> Seq<char> {
    "[Console]::OutputEncoding = [System.Text.Encoding]::UTF8; try { Add-PrinterPort -Name '"@
        + ps_quote(port_name) + "' -PrinterHostAddress '"@ + ps_quote(ip)
        + "' -ErrorAction Stop; Write-Output 'PortSuccess' } catch { if ($_.Exception.Message -like '*already exists*' -or $_.Exception.Message -like '*已存在*') { Write-Output 'PortExists' } else { Write-Error $_.Exception.Message; exit 1 } }"@
}

pub fn add_port_script(port_name: &str, ip: &str) -> (r: String)
    ensures
        r@ == spec_add_port_script(port_name@, ip@),
{
    let mut r = owned(
        "[Console]::OutputEncoding = [System.Text.Encoding]::UTF8; try { Add-PrinterPort -Name '",
    );
    append_chars(&mut r, ps_quote_exec(port_name).as_slice());
    append_str(&mut r, "' -PrinterHostAddress '");
    append_chars(&mut r, ps_quote_exec(ip).as_slice());
    append_str(
        &mut r,
        "' -ErrorAction Stop; Write-Output 'PortSuccess' } catch { if ($_.Exception.Message -like '*already exists*' -or $_.Exception.Message -like '*已存在*') { Write-Output 'PortExists' } else { Write-Error $_.Exception.Message; exit 1 } }",
    );
    r
}

/// Whether a port was made or was there already.
pub enum PortAddOutcome {
    Created,
    AlreadyExists,
}

/// The outcome of adding a port: exit code 0 with `PortSuccess` (created)
/// or `PortExists` printed; anything else fails with the output.
pub fn after_add_port(run: Result<PsRun, String>) -> (r: Result<PortAddOutcome, InstallError>)
    ensures
        match run {
            Err(e) => r matches Err(InstallError::PowerShellFailed { step, stderr }) && step@
                == "add_printer_port_modern"@ && stderr == e,
            Ok(o) => if o.exit_code == Some(0i32) && contains(out_text(o), "PortSuccess"@) {
                r matches Ok(PortAddOutcome::Created)
            } else if o.exit_code == Some(0i32) && contains(out_text(o), "PortExists"@) {
                r matches Ok(PortAddOutcome::AlreadyExists)
            } else {
                r matches Err(InstallError::PortAddFailedModern { stdout, stderr }) && stdout@
                    == out_text(o) && stderr@ == err_text(o)
            },
        },
{
    match run {
        Err(e) => Err(InstallError::PowerShellFailed { step: owned("add_printer_port_modern"), stderr: e }),
        Ok(o) => {
            let stdout = decode_windows_string(o.stdout.as_slice());
            let stderr = decode_windows_string(o.stderr.as_slice());
            if o.exit_code != Some(0i32) {
                return Err(InstallError::PortAddFailedModern { stdout, stderr });
            }
            let sv = chars_of(stdout.as_str());
            if has(sv.as_slice(), "PortSuccess") {
                Ok(PortAddOutcome::Created)
            } else if has(sv.as_slice(), "PortExists") {
                Ok(PortAddOutcome::AlreadyExists)
            } else {
                Err(InstallError::PortAddFailedModern { stdout, stderr })
            }
        },
    }
}

/// The PowerShell check that a port exists.
pub open spec fn spec_verify_port_script(port_name: Seq<char>) -> Seq<char> {
    "[Console]::OutputEncoding = [System.Text.Encoding]::UTF8; $port = Get-PrinterPort -Name '"@
        + ps_quote(port_name)
        + "' -ErrorAction SilentlyContinue; if ($null -eq $port) { @{ exists=$false } | ConvertTo-Json -Compress | Write-Output } else { @{ exists=$true } | ConvertTo-Json -Compress | Write-Output }"@
}

pub fn verify_port_script(port_name: &str) -> (r: String)
    ensures
        r@ == spec_verify_port_script(port_name@),
{
    let mut r = owned(
        "[Console]::OutputEncoding = [System.Text.Encoding]::UTF8; $port = Get-PrinterPort -Name '",
    );
    append_chars(&mut r, ps_quote_exec(port_name).as_slice());
    append_str(
        &mut r,
        "' -ErrorAction SilentlyContinue; if ($null -eq $port) { @{ exists=$false } | ConvertTo-Json -Compress | Write-Output } else { @{ exists=$true } | ConvertTo-Json -Compress | Write-Output }",
    );
    r
}

/// What follows one check that a new port exists.
pub enum PortVerifyStep {
    Verified,
    /// Check again after this many milliseconds.
    Again(u64),
    NotVerified,
    Failed(InstallError),
}

/// One of three checks that a new port exists: found is done; otherwise
/// the check is repeated after half a second; after the third, a port not
/// found is reported as such and a failed run as an error.
pub fn after_port_verify_attempt(attempt: u32, run: Result<PsRun, String>) -> (r: PortVerifyStep)
    requires
        1 <= attempt <= 3,
    ensures
        match run {
            Ok(o) => if o.exit_code == Some(0i32) && spec_json_bool(out_text(o), "exists"@) == Some(true) {
                r is Verified
            } else if attempt < 3 {
                r == PortVerifyStep::Again(500)
            } else if o.exit_code != Some(0i32) {
                r matches PortVerifyStep::Failed(InstallError::PowerShellFailed { step, stderr }) && step@
                    == "verify_printer_port"@ && stderr@ == "端口验证失败: exit_code="@ + debug_opt_i32(
                    o.exit_code,
                ) + ", stderr="@ + err_text(o)
            } else {
                r is NotVerified
            },
            Err(e) => if attempt < 3 {
                r == PortVerifyStep::Again(500)
            } else {
                r matches PortVerifyStep::Failed(InstallError::PowerShellFailed { step, stderr }) && step@
                    == "verify_printer_port"@ && stderr == e
            },
        },
{
    match run {
        Ok(o) => {
            let stdout = decode_windows_string(o.stdout.as_slice());
            let stderr = decode_windows_string(o.stderr.as_slice());
            if o.exit_code == Some(0i32) && extract_json_bool(stdout.as_str(), "exists") == Some(true) {
                return PortVerifyStep::Verified;
            }
            if attempt < 3 {
                return PortVerifyStep::Again(500);
            }
            if o.exit_code != Some(0i32) {
                let mut m = owned("端口验证失败: exit_code=");
                append_str(&mut m, debug_opt_i32_exec(o.exit_code).as_str());
                append_str(&mut m, ", stderr=");
                append_str(&mut m, stderr.as_str());
                PortVerifyStep::Failed(
                    InstallError::PowerShellFailed { step: owned("verify_printer_port"), stderr: m },
                )
            } else {
                PortVerifyStep::NotVerified
            }
        },
        Err(e) => {
            if attempt < 3 {
                PortVerifyStep::Again(500)
            } else {
                PortVerifyStep::Failed(
                    InstallError::PowerShellFailed { step: owned("verify_printer_port"), stderr: e },
                )
            }
        },
    }
}

/// After a new port was created and checked: the port name when it was
/// found; otherwise an error with evidence.
pub fn after_port_created(port_name: &str, verified: Result<bool, InstallError>) -> (r: Result<
    String,
    String,
>)
    ensures
        match verified {
            Ok(true) => r matches Ok(n) && n@ == port_name@,
            Ok(false) => r matches Err(m) && m@ == with_evidence(
                "端口创建成功但验证失败。端口名: "@ + port_name@,
                "port_created_but_verify_failed port_name=\""@ + port_name@ + "\""@,
            ),
            Err(e) => r matches Err(m) && m@ == with_evidence(
                "端口创建后验证失败: "@ + spec_install_error_message(e),
                "verify_command_failed error=\""@ + spec_install_error_message(e) + "\""@,
            ),
        },
{
    match verified {
        Ok(true) => Ok(owned(port_name)),
        Ok(false) => {
            let mut m = owned("端口创建成功但验证失败。端口名: ");
            append_str(&mut m, port_name);
            append_str(&mut m, "\n\nEvidence: ");
            append_str(&mut m, "port_created_but_verify_failed port_name=\"");
            append_str(&mut m, port_name);
            append_str(&mut m, "\"");
            Err(m)
        },
        Err(e) => {
            let msg = e.to_user_message();
            let mut m = owned("端口创建后验证失败: ");
            append_str(&mut m, msg.as_str());
            append_str(&mut m, "\n\nEvidence: ");
            append_str(&mut m, "verify_command_failed error=\"");
            append_str(&mut m, msg.as_str());
            append_str(&mut m, "\"");
            Err(m)
        },
    }
}

/// The error of a port that the modern way could not create.
pub fn port_create_failure(e: &InstallError) -> (r: String)
    ensures
        r@ == "现代方式创建端口失败: "@ + spec_install_error_message(*e),
{
    let mut r = owned("现代方式创建端口失败: ");
    append_str(&mut r, e.to_user_message().as_str());
    r
}

// ---------------------------------------------------------------------------
// Adding the port with prnport.vbs (builds before Windows 10)
// ---------------------------------------------------------------------------

/// The arguments of `cscript` that add a raw TCP/IP port with prnport.vbs.
pub fn vbs_port_args(script_path: &str, port_name: &str, ip_address: &str) -> (r: Vec<String>)
    ensures
        r@.map_values(|a: String| a@) == seq![
            "//NoLogo"@,
            script_path@,
            "-a"@,
            "-r"@,
            port_name@,
            "-h"@,
            ip_address@,
            "-o"@,
            "raw"@,
        ],
{
    let r: Vec<String> = vec![
        owned("//NoLogo"),
        owned(script_path),
        owned("-a"),
        owned("-r"),
        owned(port_name),
        owned("-h"),
        owned(ip_address),
        owned("-o"),
        owned("raw"),
    ];
    assert(r@.map_values(|a: String| a@) =~= seq![
        "//NoLogo"@,
        script_path@,
        "-a"@,
        "-r"@,
        port_name@,
        "-h"@,
        ip_address@,
        "-o"@,
        "raw"@,
    ]);
    r
}

/// The exit code that a failed `cscript` reports (`-1` when there is none).
pub open spec fn code_or_minus_one(exit_code: Option<i32>) -> i32 {
    match exit_code {
        Some(c) => c,
        None => -1i32,
    }
}

/// What a failed `cscript` said: its exit code when both streams are
/// blank, otherwise both streams (`无` for a blank one).
pub open spec fn vbs_error_details(stdout: Seq<char>, stderr: Seq<char>, exit_code: Option<i32>) -> Seq<
    char,
> {
    if trim(stderr).len() == 0 && trim(stdout).len() == 0 {
        "cscript 退出代码 "@ + decimal(code_or_minus_one(exit_code) as int)
    } else {
        "错误输出: "@ + (if trim(stderr).len() == 0 {
            "无"@
        } else {
            stderr
        }) + " | 标准输出: "@ + (if trim(stdout).len() == 0 {
            "无"@
        } else {
            stdout
        })
    }
}

/// What is known of the script file when `cscript` could not be run.
pub open spec fn vbs_script_info(script_size: Option<u64>) -> Seq<char> {
    match script_size {
        Some(n) => "脚本文件存在，大小 "@ + decimal(n as int) + " 字节"@,
        None => "脚本文件不存在"@,
    }
}

fn vbs_error_details_exec(stdout: &str, stderr: &str, exit_code: Option<i32>) -> (r: String)
    ensures
        r@ == vbs_error_details(stdout@, stderr@, exit_code),
{
    let out_blank = trim_chars(chars_of(stdout).as_slice()).len() == 0;
    let err_blank = trim_chars(chars_of(stderr).as_slice()).len() == 0;
    if err_blank && out_blank {
        let code: i32 = match exit_code {
            Some(c) => c,
            None => -1i32,
        };
        let mut r = owned("cscript 退出代码 ");
        append_chars(&mut r, i64_decimal(code as i64).as_slice());
        r
    } else {
        let mut r = owned("错误输出: ");
        if err_blank {
            append_str(&mut r, "无");
        } else {
            append_str(&mut r, stderr);
        }
        append_str(&mut r, " | 标准输出: ");
        if out_blank {
            append_str(&mut r, "无");
        } else {
            append_str(&mut r, stdout);
        }
        r
    }
}

/// The outcome of adding a port with prnport.vbs. Exit code 0 succeeds
/// with both streams; another fails as `PortAddFailedVbs`; a command that
/// could not be run fails as `VbsScriptFailed`, with what is known of the
/// script file (its size, or that it is gone).
pub fn after_vbs_port(run: Result<PsRun, String>, script_size: Option<u64>, job_id: &str) -> (r: Result<
    crate::events::InstallResult,
    crate::events::InstallResult,
>)
    ensures
        match run {
            Ok(o) => {
                let so = spec_decode_windows_string(o.stdout@);
                let se = spec_decode_windows_string(o.stderr@);
                if o.exit_code == Some(0i32) {
                    r matches Ok(res) && res.success && res.message@ == Seq::<char>::empty()
                        && res.method is None && opt_view(res.stdout) == Some(so) && opt_view(res.stderr)
                        == Some(se) && !res.effective_dry_run && res.job_id@ == job_id@
                } else {
                    r matches Err(res) && !res.success && res.message@ == "添加打印机端口失败。"@
                        + vbs_error_details(so, se, o.exit_code) + " | 退出代码: "@ + decimal(
                        code_or_minus_one(o.exit_code) as int,
                    ) && opt_view(res.method) == Some("VBS"@) && opt_view(res.stdout) == Some(so)
                        && opt_view(res.stderr) == Some(
                        if trim(se).len() > 0 {
                            "[EASYPRINTER_CODE="@ + "WIN_PORT_FAILED"@ + "] "@ + se
                        } else {
                            "[EASYPRINTER_CODE="@ + "WIN_PORT_FAILED"@ + "]"@
                        },
                    ) && !res.effective_dry_run && res.job_id@ == job_id@
                }
            },
            Err(e) => r matches Err(res) && !res.success && res.message@ == "执行 prnport.vbs 脚本失败: "@ + e@
                + " | "@ + vbs_script_info(script_size) && opt_view(res.method) == Some("VBS"@)
                && res.stdout is None && opt_view(res.stderr) == Some(
                "[EASYPRINTER_CODE="@ + "WIN_VBS_FAILED"@ + "]"@,
            ) && !res.effective_dry_run && res.job_id@ == job_id@,
        },
{
    match run {
        Ok(o) => {
            let so = decode_windows_string(o.stdout.as_slice());
            let se = decode_windows_string(o.stderr.as_slice());
            if o.exit_code == Some(0i32) {
                return Ok(
                    crate::events::InstallResult {
                        success: true,
                        message: String::new(),
                        method: None,
                        stdout: Some(so),
                        stderr: Some(se),
                        effective_dry_run: false,
                        job_id: owned(job_id),
                    },
                );
            }
            let code: i32 = match o.exit_code {
                Some(c) => c,
                None => -1i32,
            };
            let details = vbs_error_details_exec(so.as_str(), se.as_str(), o.exit_code);
            let error = InstallError::PortAddFailedVbs {
                error_details: details,
                exit_code: code,
                stdout: owned(so.as_str()),
                stderr: owned(se.as_str()),
            };
            let message = error.to_user_message();
            let stderr = error.format_stderr_with_code(Some(se));
            Err(
                crate::events::InstallResult {
                    success: false,
                    message,
                    method: Some(owned("VBS")),
                    stdout: Some(so),
                    stderr,
                    effective_dry_run: false,
                    job_id: owned(job_id),
                },
            )
        },
        Err(e) => {
            let info = match script_size {
                Some(n) => {
                    let mut m = owned("脚本文件存在，大小 ");
                    append_chars(&mut m, u64_decimal(n).as_slice());
                    append_str(&mut m, " 字节");
                    m
                },
                None => owned("脚本文件不存在"),
            };
            let error = InstallError::VbsScriptFailed { error: e, script_info: info };
            let message = error.to_user_message();
            let stderr = error.format_stderr_with_code(None);
            Err(
                crate::events::InstallResult {
                    success: false,
                    message,
                    method: Some(owned("VBS")),
                    stdout: None,
                    stderr,
                    effective_dry_run: false,
                    job_id: owned(job_id),
                },
            )
        },
    }
}

/// The error of ensure-port when the VBS script could not be written.
pub fn vbs_script_failure(e: &InstallError) -> (r: String)
    ensures
        r@ == "创建 VBS 脚本失败: "@ + spec_install_error_message(*e),
{
    let mut r = owned("创建 VBS 脚本失败: ");
    append_str(&mut r, e.to_user_message().as_str());
    r
}

/// The error of ensure-port when prnport.vbs could not add the port.
pub fn vbs_port_failure(result: &crate::events::InstallResult) -> (r: String)
    ensures
        r@ == "VBS 方式创建端口失败: "@ + result.message@,
{
    let mut r = owned("VBS 方式创建端口失败: ");
    append_str(&mut r, result.message.as_str());
    r
}

} // verus!
