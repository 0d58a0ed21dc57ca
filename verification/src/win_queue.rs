use vstd::prelude::*;
use crate::command::{decode_windows_string, spec_decode_windows_string};
use crate::config::opt_view;
use crate::macos_flow::{debug_opt_i32, debug_opt_i32_exec};
use crate::text::{
    owned, append_str, append_chars, chars_of, string_of, trim, trim_chars, find, find_exec,
    lemma_find, starts_with, starts_with_exec, contains, contains_exec, slice_chars, str_eq, decimal,
};
use crate::win_delete::{ps_quote, ps_quote_exec};

verus! {

// ---------------------------------------------------------------------------
// Reading the compressed JSON that the PowerShell checks print
// ---------------------------------------------------------------------------

/// The text after `"key"` and the next `:`, trimmed.
pub open spec fn json_after_colon(json: Seq<char>, key: Seq<char>) -> Option<Seq<char>> {
    let pattern = seq!['"'] + key + seq!['"'];
    match find(json, pattern) {
        None => None,
        Some(kp) => {
            let after_key = json.skip(kp + pattern.len());
            match find(after_key, seq![':']) {
                None => None,
                Some(cp) => Some(trim(after_key.skip(cp + 1))),
            }
        },
    }
}

/// A boolean field: `true` or `false` at the start of the value.
pub open spec fn spec_json_bool(json: Seq<char>, key: Seq<char>) -> Option<bool> {
    match json_after_colon(json, key) {
        None => None,
        Some(v) => if starts_with(v, "true"@) {
            Some(true)
        } else if starts_with(v, "false"@) {
            Some(false)
        } else {
            None
        },
    }
}

/// A text field: what stands between the next two double quotes.
pub open spec fn spec_json_value(json: Seq<char>, key: Seq<char>) -> Option<Seq<char>> {
    match json_after_colon(json, key) {
        None => None,
        Some(v) => match find(v, seq!['"']) {
            None => None,
            Some(qs) => {
                let rest = v.skip(qs + 1);
                match find(rest, seq!['"']) {
                    None => None,
                    Some(qe) => Some(rest.take(qe)),
                }
            },
        },
    }
}

fn json_after_colon_exec(json: &[char], key: &str) -> (r: Option<Vec<char>>)
    ensures
        match r {
            Some(v) => json_after_colon(json@, key@) == Some(v@),
            None => json_after_colon(json@, key@) is None,
        },
{
    let mut pattern: Vec<char> = Vec::new();
    pattern.push('"');
    let kv = chars_of(key);
    let mut i: usize = 0;
    while i < kv.len()
        invariant
            i <= kv@.len(),
            pattern@ == seq!['"'] + kv@.take(i as int),
        decreases kv@.len() - i,
    {
        pattern.push(kv[i]);
        assert(seq!['"'] + kv@.take(i + 1) =~= (seq!['"'] + kv@.take(i as int)).push(kv@[i as int]));
        i = i + 1;
    }
    pattern.push('"');
    assert(kv@.take(kv@.len() as int) =~= kv@);
    assert(pattern@ =~= seq!['"'] + key@ + seq!['"']);
    let n = json.len();
    match find_exec(json, pattern.as_slice()) {
        None => None,
        Some(kp) => {
            proof {
                lemma_find(json@, pattern@);
            }
            assert(kp + pattern@.len() <= n);
            let after_key = slice_chars(json, kp + pattern.len(), json.len());
            assert(after_key@ =~= json@.skip(kp + pattern@.len()));
            let colon: Vec<char> = vec![':'];
            assert(colon@ =~= seq![':']);
            match find_exec(after_key.as_slice(), colon.as_slice()) {
                None => None,
                Some(cp) => {
                    proof {
                        lemma_find(after_key@, colon@);
                    }
                    let rest = slice_chars(after_key.as_slice(), cp + 1, after_key.len());
                    assert(rest@ =~= after_key@.skip(cp + 1));
                    Some(trim_chars(rest.as_slice()))
                },
            }
        },
    }
}

/// Reads `"key": true` or `"key": false` from compressed JSON.
pub fn extract_json_bool(json: &str, key: &str) -> (r: Option<bool>)
    ensures
        r == spec_json_bool(json@, key@),
{
    let j = chars_of(json);
    match json_after_colon_exec(j.as_slice(), key) {
        None => None,
        Some(v) => {
            if starts_with_exec(v.as_slice(), chars_of("true").as_slice()) {
                Some(true)
            } else if starts_with_exec(v.as_slice(), chars_of("false").as_slice()) {
                Some(false)
            } else {
                None
            }
        },
    }
}

/// Reads `"key": "value"` from compressed JSON (no escapes are undone).
pub fn extract_json_value(json: &str, key: &str) -> (r: Option<String>)
    ensures
        opt_view(r) == spec_json_value(json@, key@),
{
    let j = chars_of(json);
    match json_after_colon_exec(j.as_slice(), key) {
        None => None,
        Some(v) => {
            let q: Vec<char> = vec!['"'];
            assert(q@ =~= seq!['"']);
            match find_exec(v.as_slice(), q.as_slice()) {
                None => None,
                Some(qs) => {
                    let vn = v.len();
                    proof {
                        lemma_find(v@, q@);
                    }
                    assert(qs + 1 <= vn);
                    let rest = slice_chars(v.as_slice(), qs + 1, v.len());
                    assert(rest@ =~= v@.skip(qs + 1));
                    match find_exec(rest.as_slice(), q.as_slice()) {
                        None => None,
                        Some(qe) => {
                            proof {
                                lemma_find(rest@, q@);
                            }
                            let val = slice_chars(rest.as_slice(), 0, qe);
                            assert(val@ =~= rest@.take(qe as int));
                            Some(string_of(val.as_slice()))
                        },
                    }
                },
            }
        },
    }
}

/// `format!("{:?}", o)` for an optional text: `None`, or `Some(` and the
/// text quoted and escaped as Rust writes string literals, and `)`.
pub uninterp spec fn debug_opt_text(o: Option<Seq<char>>) -> Seq<char>;

/// `<Option<String> as Debug>::fmt`, through `format!("{:?}")`.
#[verifier::external_body]
pub(crate) fn debug_opt_string(o: &Option<String>) -> (r: String)
    ensures
        r@ == debug_opt_text(opt_view(*o)),
{
    format!("{:?}", o)
}

// ---------------------------------------------------------------------------
// PowerShell runs
// ---------------------------------------------------------------------------

/// A finished PowerShell run: exit code and raw output streams.
pub struct PsRun {
    pub exit_code: Option<i32>,
    pub stdout: Vec<u8>,
    pub stderr: Vec<u8>,
}

pub open spec fn out_text(r: PsRun) -> Seq<char> {
    spec_decode_windows_string(r.stdout@)
}

pub open spec fn err_text(r: PsRun) -> Seq<char> {
    spec_decode_windows_string(r.stderr@)
}

/// The evidence of a run that did not exit with 0.
pub open spec fn failed_run_evidence(tag: Seq<char>, r: PsRun) -> Seq<char> {
    tag + " exit_code="@ + debug_opt_i32(r.exit_code) + " stdout=\""@ + out_text(r) + "\" stderr=\""@
        + err_text(r) + "\""@
}

fn failed_run_evidence_exec(tag: &str, exit_code: Option<i32>, stdout: &str, stderr: &str) -> (r:
    String)
    ensures
        r@ == tag@ + " exit_code="@ + debug_opt_i32(exit_code) + " stdout=\""@ + stdout@
            + "\" stderr=\""@ + stderr@ + "\""@,
{
    let mut r = owned(tag);
    append_str(&mut r, " exit_code=");
    append_str(&mut r, debug_opt_i32_exec(exit_code).as_str());
    append_str(&mut r, " stdout=\"");
    append_str(&mut r, stdout);
    append_str(&mut r, "\" stderr=\"");
    append_str(&mut r, stderr);
    append_str(&mut r, "\"");
    r
}

/// `head` followed by the evidence.
pub open spec fn with_evidence(head: Seq<char>, evidence: Seq<char>) -> Seq<char> {
    head + "\n\nEvidence: "@ + evidence
}

fn with_evidence_exec(head: String, evidence: &str) -> (r: String)
    ensures
        r@ == with_evidence(head@, evidence@),
{
    let mut r = head;
    append_str(&mut r, "\n\nEvidence: ");
    append_str(&mut r, evidence);
    r
}

fn command_failure(head: &str, tag: &str, e: &str) -> (r: String)
    ensures
        r@ == with_evidence(head@ + e@, tag@ + " error=\""@ + e@ + "\""@),
{
    let mut h = owned(head);
    append_str(&mut h, e);
    let mut ev = owned(tag);
    append_str(&mut ev, " error=\"");
    append_str(&mut ev, e);
    append_str(&mut ev, "\"");
    with_evidence_exec(h, ev.as_str())
}

// ---------------------------------------------------------------------------
// The printer port
// ---------------------------------------------------------------------------

/// The PowerShell check of a port: prints `{"exists":false}` or the port's
/// fields as compressed JSON.
pub open spec fn spec_port_check_script(port_name: Seq<char>) -> Seq<char> {
    "[Console]::OutputEncoding = [System.Text.Encoding]::UTF8; $port = Get-PrinterPort -Name '"@
        + ps_quote(port_name)
        + "' -ErrorAction SilentlyContinue; if ($null -eq $port) { @{ exists=$false } | ConvertTo-Json -Compress | Write-Output } else { @{ exists=$true; Name=$port.Name; PrinterHostAddress=$port.PrinterHostAddress; PortNumber=$port.PortNumber; Protocol=$port.Protocol } | ConvertTo-Json -Compress | Write-Output }"@
}

pub fn port_check_script(port_name: &str) -> (r: String)
    ensures
        r@ == spec_port_check_script(port_name@),
{
    let mut r = owned(
        "[Console]::OutputEncoding = [System.Text.Encoding]::UTF8; $port = Get-PrinterPort -Name '",
    );
    append_chars(&mut r, ps_quote_exec(port_name).as_slice());
    append_str(
        &mut r,
        "' -ErrorAction SilentlyContinue; if ($null -eq $port) { @{ exists=$false } | ConvertTo-Json -Compress | Write-Output } else { @{ exists=$true; Name=$port.Name; PrinterHostAddress=$port.PrinterHostAddress; PortNumber=$port.PortNumber; Protocol=$port.Protocol } | ConvertTo-Json -Compress | Write-Output }",
    );
    r
}

/// What the port check found.
pub enum PortCheck {
    /// The port exists and points at the wanted host: reuse it.
    Reuse,
    /// There is no such port: create it.
    Create,
}

/// The error of a port that exists with another host.
pub open spec fn host_mismatch_message(
    port_name: Seq<char>,
    host: Seq<char>,
    port_number: u16,
    actual: Option<Seq<char>>,
) -> Seq<char> {
    with_evidence(
        "端口名 \""@ + port_name + "\" 已被占用，但 Host 地址不匹配。期望: "@ + host + "，实际: "@
            + debug_opt_text(actual) + "。请手动清理该端口或更改端口名策略。"@,
        "端口已存在但参数不匹配 | expected_host="@ + host + " expected_port="@ + decimal(
            port_number as int,
        ) + " | actual_host="@ + debug_opt_text(actual) + " actual_port=unknown | port_name="@
            + port_name,
    )
}

/// The outcome of the port check: a run that failed, or a port that
/// exists with another host, is an error; a matching port is reused;
/// otherwise the port is created.
pub fn after_port_check(
    port_name: &str,
    host: &str,
    port_number: u16,
    run: Result<PsRun, String>,
) -> (r: Result<PortCheck, String>)
    ensures
        match run {
            Err(e) => r matches Err(m) && m@ == "检查端口状态失败: "@ + e@,
            Ok(o) => if o.exit_code != Some(0i32) {
                r matches Err(m) && m@ == with_evidence(
                    "检查端口状态失败: exit_code="@ + debug_opt_i32(o.exit_code) + ", stderr="@
                        + err_text(o),
                    failed_run_evidence("check_port_failed"@, o),
                )
            } else if spec_json_bool(out_text(o), "exists"@) != Some(true) {
                r == Ok::<PortCheck, String>(PortCheck::Create)
            } else if spec_json_value(out_text(o), "PrinterHostAddress"@) == Some(host@) {
                r == Ok::<PortCheck, String>(PortCheck::Reuse)
            } else {
                r matches Err(m) && m@ == host_mismatch_message(
                    port_name@,
                    host@,
                    port_number,
                    spec_json_value(out_text(o), "PrinterHostAddress"@),
                )
            },
        },
{
    match run {
        Err(e) => {
            let mut m = owned("检查端口状态失败: ");
            append_str(&mut m, e.as_str());
            Err(m)
        },
        Ok(o) => {
            let stdout = decode_windows_string(o.stdout.as_slice());
            let stderr = decode_windows_string(o.stderr.as_slice());
            if o.exit_code != Some(0i32) {
                let ev = failed_run_evidence_exec(
                    "check_port_failed",
                    o.exit_code,
                    stdout.as_str(),
                    stderr.as_str(),
                );
                let mut h = owned("检查端口状态失败: exit_code=");
                append_str(&mut h, debug_opt_i32_exec(o.exit_code).as_str());
                append_str(&mut h, ", stderr=");
                append_str(&mut h, stderr.as_str());
                return Err(with_evidence_exec(h, ev.as_str()));
            }
            let exists = extract_json_bool(stdout.as_str(), "exists");
            if exists != Some(true) {
                return Ok(PortCheck::Create);
            }
            let actual = extract_json_value(stdout.as_str(), "PrinterHostAddress");
            let matches = match &actual {
                Some(h) => str_eq(h.as_str(), host),
                None => false,
            };
            if matches {
                Ok(PortCheck::Reuse)
            } else {
                let shown = debug_opt_string(&actual);
                let mut ev = owned("端口已存在但参数不匹配 | expected_host=");
                append_str(&mut ev, host);
                append_str(&mut ev, " expected_port=");
                append_chars(&mut ev, crate::text::u64_decimal(port_number as u64).as_slice());
                append_str(&mut ev, " | actual_host=");
                append_str(&mut ev, shown.as_str());
                append_str(&mut ev, " actual_port=unknown | port_name=");
                append_str(&mut ev, port_name);
                let mut h = owned("端口名 \"");
                append_str(&mut h, port_name);
                append_str(&mut h, "\" 已被占用，但 Host 地址不匹配。期望: ");
                append_str(&mut h, host);
                append_str(&mut h, "，实际: ");
                append_str(&mut h, shown.as_str());
                append_str(&mut h, "。请手动清理该端口或更改端口名策略。");
                Err(with_evidence_exec(h, ev.as_str()))
            }
        },
    }
}

// ---------------------------------------------------------------------------
// The printer queue
// ---------------------------------------------------------------------------

/// The PowerShell check of a queue, filtered on the exact name: prints
/// `{"exists":false}` or the queue's name, driver and port as compressed
/// JSON.
pub open spec fn spec_queue_check_script(queue_name: Seq<char>) -> Seq<char> {
    "[Console]::OutputEncoding = [System.Text.Encoding]::UTF8; $q = '"@ + ps_quote(queue_name)
        + "'; $printer = Get-Printer -Name $q -ErrorAction SilentlyContinue | Where-Object { $_.Name -eq $q }; if ($null -eq $printer) { @{ exists=$false } | ConvertTo-Json -Compress | Write-Output } else { @{ exists=$true; Name=$printer.Name; DriverName=$printer.DriverName; PortName=$printer.PortName } | ConvertTo-Json -Compress | Write-Output }"@
}

pub fn queue_check_script(queue_name: &str) -> (r: String)
    ensures
        r@ == spec_queue_check_script(queue_name@),
{
    let mut r = owned("[Console]::OutputEncoding = [System.Text.Encoding]::UTF8; $q = '");
    append_chars(&mut r, ps_quote_exec(queue_name).as_slice());
    append_str(
        &mut r,
        "'; $printer = Get-Printer -Name $q -ErrorAction SilentlyContinue | Where-Object { $_.Name -eq $q }; if ($null -eq $printer) { @{ exists=$false } | ConvertTo-Json -Compress | Write-Output } else { @{ exists=$true; Name=$printer.Name; DriverName=$printer.DriverName; PortName=$printer.PortName } | ConvertTo-Json -Compress | Write-Output }",
    );
    r
}

/// What the queue check found.
pub enum QueueCheck {
    /// The queue exists; the driver and the port binding need fixing as
    /// flagged.
    Exists { fix_driver: bool, fix_port: bool },
    /// There is no queue of that exact name: create it.
    Create,
}

/// Whether a field of the check differs from the wanted value (a missing
/// field differs).
pub open spec fn differs(actual: Option<Seq<char>>, wanted: Seq<char>) -> bool {
    actual != Some(wanted)
}

/// The outcome of the queue check: a failed run is an error; a queue is
/// taken to exist only when the JSON says so and names it exactly; then
/// each binding that differs is to be fixed.
pub fn after_queue_check(
    queue_name: &str,
    driver_name: &str,
    port_name: &str,
    run: Result<PsRun, String>,
) -> (r: Result<QueueCheck, String>)
    ensures
        match run {
            Err(e) => r matches Err(m) && m@ == "检查队列状态失败: "@ + e@,
            Ok(o) => if o.exit_code != Some(0i32) {
                r matches Err(m) && m@ == with_evidence(
                    "检查队列状态失败: exit_code="@ + debug_opt_i32(o.exit_code) + ", stderr="@
                        + err_text(o),
                    failed_run_evidence("check_queue_failed"@, o),
                )
            } else if spec_json_bool(out_text(o), "exists"@) == Some(true) && spec_json_value(
                out_text(o),
                "Name"@,
            ) == Some(queue_name@) {
                r == Ok::<QueueCheck, String>(
                    QueueCheck::Exists {
                        fix_driver: differs(
                            spec_json_value(out_text(o), "DriverName"@),
                            driver_name@,
                        ),
                        fix_port: differs(spec_json_value(out_text(o), "PortName"@), port_name@),
                    },
                )
            } else {
                r == Ok::<QueueCheck, String>(QueueCheck::Create)
            },
        },
{
    match run {
        Err(e) => {
            let mut m = owned("检查队列状态失败: ");
            append_str(&mut m, e.as_str());
            Err(m)
        },
        Ok(o) => {
            let stdout = decode_windows_string(o.stdout.as_slice());
            let stderr = decode_windows_string(o.stderr.as_slice());
            if o.exit_code != Some(0i32) {
                let ev = failed_run_evidence_exec(
                    "check_queue_failed",
                    o.exit_code,
                    stdout.as_str(),
                    stderr.as_str(),
                );
                let mut h = owned("检查队列状态失败: exit_code=");
                append_str(&mut h, debug_opt_i32_exec(o.exit_code).as_str());
                append_str(&mut h, ", stderr=");
                append_str(&mut h, stderr.as_str());
                return Err(with_evidence_exec(h, ev.as_str()));
            }
            let exists = extract_json_bool(stdout.as_str(), "exists");
            let name = extract_json_value(stdout.as_str(), "Name");
            let name_ok = match &name {
                Some(n) => str_eq(n.as_str(), queue_name),
                None => false,
            };
            if exists == Some(true) && name_ok {
                let d = extract_json_value(stdout.as_str(), "DriverName");
                let p = extract_json_value(stdout.as_str(), "PortName");
                let fix_driver = match &d {
                    Some(x) => !str_eq(x.as_str(), driver_name),
                    None => true,
                };
                let fix_port = match &p {
                    Some(x) => !str_eq(x.as_str(), port_name),
                    None => true,
                };
                Ok(QueueCheck::Exists { fix_driver, fix_port })
            } else {
                Ok(QueueCheck::Create)
            }
        },
    }
}

/// The PowerShell command that rebinds a queue's driver (`field` is
/// `DriverName`, `marker` `FixDriverSuccess`) or port (`PortName`,
/// `FixPortSuccess`).
pub open spec fn spec_fix_binding_script(
    queue_name: Seq<char>,
    field: Seq<char>,
    value: Seq<char>,
    marker: Seq<char>,
) -> Seq<char> {
    "[Console]::OutputEncoding = [System.Text.Encoding]::UTF8; try { Set-Printer -Name '"@ + ps_quote(
        queue_name,
    ) + "' -"@ + field + " '"@ + ps_quote(value) + "' -ErrorAction Stop; Write-Output '"@ + marker
        + "' } catch { Write-Error $_.Exception.Message; exit 1 }"@
}

pub fn fix_binding_script(queue_name: &str, field: &str, value: &str, marker: &str) -> (r: String)
    ensures
        r@ == spec_fix_binding_script(queue_name@, field@, value@, marker@),
{
    let mut r = owned(
        "[Console]::OutputEncoding = [System.Text.Encoding]::UTF8; try { Set-Printer -Name '",
    );
    append_chars(&mut r, ps_quote_exec(queue_name).as_slice());
    append_str(&mut r, "' -");
    append_str(&mut r, field);
    append_str(&mut r, " '");
    append_chars(&mut r, ps_quote_exec(value).as_slice());
    append_str(&mut r, "' -ErrorAction Stop; Write-Output '");
    append_str(&mut r, marker);
    append_str(&mut r, "' } catch { Write-Error $_.Exception.Message; exit 1 }");
    r
}

/// The outcome of a rebinding: exit code 0 is success. `what` is `驱动` or
/// `端口`, `tag` `fix_driver` or `fix_port`.
pub fn after_fix_binding(what: &str, tag: &str, run: Result<PsRun, String>) -> (r: Result<(), String>)
    ensures
        match run {
            Err(e) => r matches Err(m) && m@ == with_evidence(
                "修正"@ + what@ + "绑定命令失败: "@ + e@,
                tag@ + "_command_failed"@ + " error=\""@ + e@ + "\""@,
            ),
            Ok(o) => if o.exit_code == Some(0i32) {
                r is Ok
            } else {
                r matches Err(m) && m@ == with_evidence(
                    "修正"@ + what@ + "绑定失败: "@ + err_text(o),
                    failed_run_evidence(tag@ + "_failed"@, o),
                )
            },
        },
{
    match run {
        Err(e) => {
            let mut head = owned("修正");
            append_str(&mut head, what);
            append_str(&mut head, "绑定命令失败: ");
            let mut t = owned(tag);
            append_str(&mut t, "_command_failed");
            Err(command_failure(head.as_str(), t.as_str(), e.as_str()))
        },
        Ok(o) => {
            if o.exit_code == Some(0i32) {
                return Ok(());
            }
            let stdout = decode_windows_string(o.stdout.as_slice());
            let stderr = decode_windows_string(o.stderr.as_slice());
            let mut t = owned(tag);
            append_str(&mut t, "_failed");
            let ev = failed_run_evidence_exec(t.as_str(), o.exit_code, stdout.as_str(), stderr.as_str());
            let mut h = owned("修正");
            append_str(&mut h, what);
            append_str(&mut h, "绑定失败: ");
            append_str(&mut h, stderr.as_str());
            Err(with_evidence_exec(h, ev.as_str()))
        },
    }
}

/// The PowerShell command that creates a queue; a queue that already
/// exists counts as created.
pub open spec fn spec_create_queue_script(queue: Seq<char>, driver: Seq<char>, port: Seq<char>) -> Seq<
    char,
> {
    "[Console]::OutputEncoding = [System.Text.Encoding]::UTF8; try { Add-Printer -Name '"@ + ps_quote(
        queue,
    ) + "' -DriverName '"@ + ps_quote(driver) + "' -PortName '"@ + ps_quote(port)
        + "' -ErrorAction Stop; Write-Output 'QueueSuccess' } catch { if ($_.Exception.Message -like '*already exists*' -or $_.Exception.Message -like '*已存在*') { Write-Output 'QueueExists' } else { Write-Error $_.Exception.Message; exit 1 } }"@
}

pub fn create_queue_script(queue: &str, driver: &str, port: &str) -> (r: String)
    ensures
        r@ == spec_create_queue_script(queue@, driver@, port@),
{
    let mut r = owned(
        "[Console]::OutputEncoding = [System.Text.Encoding]::UTF8; try { Add-Printer -Name '",
    );
    append_chars(&mut r, ps_quote_exec(queue).as_slice());
    append_str(&mut r, "' -DriverName '");
    append_chars(&mut r, ps_quote_exec(driver).as_slice());
    append_str(&mut r, "' -PortName '");
    append_chars(&mut r, ps_quote_exec(port).as_slice());
    append_str(
        &mut r,
        "' -ErrorAction Stop; Write-Output 'QueueSuccess' } catch { if ($_.Exception.Message -like '*already exists*' -or $_.Exception.Message -like '*已存在*') { Write-Output 'QueueExists' } else { Write-Error $_.Exception.Message; exit 1 } }",
    );
    r
}

/// The outcome of creating a queue: exit code 0 with `QueueSuccess` or
/// `QueueExists` printed is success; anything else an error.
pub fn after_create_queue(run: Result<PsRun, String>) -> (r: Result<(), String>)
    ensures
        match run {
            Err(e) => r matches Err(m) && m@ == with_evidence(
                "创建队列命令失败: "@ + e@,
                "create_queue_command_failed"@ + " error=\""@ + e@ + "\""@,
            ),
            Ok(o) => if o.exit_code != Some(0i32) {
                r matches Err(m) && m@ == with_evidence(
                    "创建队列失败: "@ + err_text(o),
                    failed_run_evidence("create_queue_failed"@, o),
                )
            } else if contains(out_text(o), "QueueSuccess"@) || contains(out_text(o), "QueueExists"@) {
                r is Ok
            } else {
                r matches Err(m) && m@ == with_evidence(
                    "创建队列结果不明确: "@ + err_text(o),
                    failed_run_evidence("create_queue_unclear_result"@, o),
                )
            },
        },
{
    match run {
        Err(e) => Err(command_failure("创建队列命令失败: ", "create_queue_command_failed", e.as_str())),
        Ok(o) => {
            let stdout = decode_windows_string(o.stdout.as_slice());
            let stderr = decode_windows_string(o.stderr.as_slice());
            if o.exit_code != Some(0i32) {
                let ev = failed_run_evidence_exec(
                    "create_queue_failed",
                    o.exit_code,
                    stdout.as_str(),
                    stderr.as_str(),
                );
                let mut h = owned("创建队列失败: ");
                append_str(&mut h, stderr.as_str());
                return Err(with_evidence_exec(h, ev.as_str()));
            }
            let sv = chars_of(stdout.as_str());
            let created = contains_exec(sv.as_slice(), chars_of("QueueSuccess").as_slice());
            let existed = contains_exec(sv.as_slice(), chars_of("QueueExists").as_slice());
            if created || existed {
                Ok(())
            } else {
                let ev = failed_run_evidence_exec(
                    "create_queue_unclear_result",
                    o.exit_code,
                    stdout.as_str(),
                    stderr.as_str(),
                );
                let mut h = owned("创建队列结果不明确: ");
                append_str(&mut h, stderr.as_str());
                Err(with_evidence_exec(h, ev.as_str()))
            }
        },
    }
}

/// What the final check of a queue reports: `None` when the run exited
/// with 0 and its output says the queue exists under its exact name, bound
/// to the wanted driver and port; otherwise the failure, each starting with
/// `最终验证失败`, with its evidence.
pub open spec fn spec_final_verify_error(queue: Seq<char>, driver: Seq<char>, port: Seq<char>, o: PsRun) -> Option<
    Seq<char>,
> {
    let out = out_text(o);
    let err = err_text(o);
    let name = spec_json_value(out, "Name"@);
    let d = spec_json_value(out, "DriverName"@);
    let p = spec_json_value(out, "PortName"@);
    if o.exit_code != Some(0i32) {
        Some(
            with_evidence(
                "最终验证失败: exit_code="@ + debug_opt_i32(o.exit_code) + ", stderr="@ + err,
                failed_run_evidence("final_verify_failed"@, o),
            ),
        )
    } else if trim(out).len() == 0 {
        Some(
            with_evidence(
                "最终验证失败: stdout 为空"@,
                "final_verify_empty_output exit_code="@ + debug_opt_i32(o.exit_code) + " stderr=\""@ + err
                    + "\""@,
            ),
        )
    } else if spec_json_bool(out, "exists"@) != Some(true) {
        Some(
            with_evidence(
                "最终验证失败: 队列不存在（exists=false）"@,
                "final_verify_queue_not_exists stdout=\""@ + out + "\""@,
            ),
        )
    } else if name != Some(queue) {
        Some(
            with_evidence(
                "最终验证失败: 名称不匹配。期望: \""@ + queue + "\"，实际: "@ + debug_opt_text(name),
                "final_verify_name_mismatch | expected=\""@ + queue + "\" actual="@ + debug_opt_text(name)
                    + " | stdout=\""@ + out + "\""@,
            ),
        )
    } else if d != Some(driver) || p != Some(port) {
        Some(
            with_evidence(
                "最终验证失败: 绑定不匹配。期望: driver="@ + driver + ", port="@ + port + "，实际: driver="@
                    + debug_opt_text(d) + ", port="@ + debug_opt_text(p),
                "bindings_mismatch | expected_driver="@ + driver + " expected_port="@ + port
                    + " | actual_driver="@ + debug_opt_text(d) + " actual_port="@ + debug_opt_text(p),
            ),
        )
    } else {
        None
    }
}

/// The final check of a queue (same script as the first check): it must
/// exist under its exact name and be bound to the wanted driver and port.
pub fn after_final_queue_verify(
    queue_name: &str,
    driver_name: &str,
    port_name: &str,
    run: Result<PsRun, String>,
) -> (r: Result<(), String>)
    ensures
        match run {
            Err(e) => r matches Err(m) && m@ == with_evidence(
                "最终验证命令失败: "@ + e@,
                "final_verify_command_failed"@ + " error=\""@ + e@ + "\""@,
            ),
            Ok(o) => match spec_final_verify_error(queue_name@, driver_name@, port_name@, o) {
                None => r is Ok,
                Some(m) => r matches Err(x) && x@ == m,
            },
        },
{
    match run {
        Err(e) => Err(command_failure("最终验证命令失败: ", "final_verify_command_failed", e.as_str())),
        Ok(o) => {
            let stdout = decode_windows_string(o.stdout.as_slice());
            let stderr = decode_windows_string(o.stderr.as_slice());
            if o.exit_code != Some(0i32) {
                let ev = failed_run_evidence_exec(
                    "final_verify_failed",
                    o.exit_code,
                    stdout.as_str(),
                    stderr.as_str(),
                );
                let mut h = owned("最终验证失败: exit_code=");
                append_str(&mut h, debug_opt_i32_exec(o.exit_code).as_str());
                append_str(&mut h, ", stderr=");
                append_str(&mut h, stderr.as_str());
                return Err(with_evidence_exec(h, ev.as_str()));
            }
            let t = trim_chars(chars_of(stdout.as_str()).as_slice());
            if t.len() == 0 {
                let mut ev = owned("final_verify_empty_output exit_code=");
                append_str(&mut ev, debug_opt_i32_exec(o.exit_code).as_str());
                append_str(&mut ev, " stderr=\"");
                append_str(&mut ev, stderr.as_str());
                append_str(&mut ev, "\"");
                return Err(with_evidence_exec(owned("最终验证失败: stdout 为空"), ev.as_str()));
            }
            let exists = extract_json_bool(stdout.as_str(), "exists");
            if exists != Some(true) {
                let mut ev = owned("final_verify_queue_not_exists stdout=\"");
                append_str(&mut ev, stdout.as_str());
                append_str(&mut ev, "\"");
                return Err(
                    with_evidence_exec(owned("最终验证失败: 队列不存在（exists=false）"), ev.as_str()),
                );
            }
            let name = extract_json_value(stdout.as_str(), "Name");
            let name_ok = match &name {
                Some(n) => str_eq(n.as_str(), queue_name),
                None => false,
            };
            if !name_ok {
                let shown = debug_opt_string(&name);
                let mut ev = owned("final_verify_name_mismatch | expected=\"");
                append_str(&mut ev, queue_name);
                append_str(&mut ev, "\" actual=");
                append_str(&mut ev, shown.as_str());
                append_str(&mut ev, " | stdout=\"");
                append_str(&mut ev, stdout.as_str());
                append_str(&mut ev, "\"");
                let mut h = owned("最终验证失败: 名称不匹配。期望: \"");
                append_str(&mut h, queue_name);
                append_str(&mut h, "\"，实际: ");
                append_str(&mut h, shown.as_str());
                return Err(with_evidence_exec(h, ev.as_str()));
            }
            let d = extract_json_value(stdout.as_str(), "DriverName");
            let p = extract_json_value(stdout.as_str(), "PortName");
            let d_ok = match &d {
                Some(x) => str_eq(x.as_str(), driver_name),
                None => false,
            };
            let p_ok = match &p {
                Some(x) => str_eq(x.as_str(), port_name),
                None => false,
            };
            if !d_ok || !p_ok {
                let sd = debug_opt_string(&d);
                let sp = debug_opt_string(&p);
                let mut ev = owned("bindings_mismatch | expected_driver=");
                append_str(&mut ev, driver_name);
                append_str(&mut ev, " expected_port=");
                append_str(&mut ev, port_name);
                append_str(&mut ev, " | actual_driver=");
                append_str(&mut ev, sd.as_str());
                append_str(&mut ev, " actual_port=");
                append_str(&mut ev, sp.as_str());
                let mut h = owned("最终验证失败: 绑定不匹配。期望: driver=");
                append_str(&mut h, driver_name);
                append_str(&mut h, ", port=");
                append_str(&mut h, port_name);
                append_str(&mut h, "，实际: driver=");
                append_str(&mut h, sd.as_str());
                append_str(&mut h, ", port=");
                append_str(&mut h, sp.as_str());
                return Err(with_evidence_exec(h, ev.as_str()));
            }
            Ok(())
        },
    }
}

} // verus!
