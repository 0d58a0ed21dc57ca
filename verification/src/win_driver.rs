use vstd::prelude::*;
use crate::command::{decode_windows_string, spec_decode_windows_string};
use crate::config::{opt_view, strings_view, clone_string};
use crate::macos_flow::{debug_opt_i32, debug_opt_i32_exec};
use crate::outside::{from_utf8_lossy, utf8_lossy};
use crate::text::{
    owned, append_str, append_chars, chars_of, string_of, decimal, u64_decimal, trim, trim_chars,
    trim_str, contains, contains_exec, lowercase, to_lowercase, find, find_exec, lemma_find,
    slice_chars, str_eq, byte_len, byte_len_exec, is_boundary, is_boundary_exec, take_bytes,
    take_bytes_exec, exceeds_bytes, parse_unsigned, parse_u32, join, join_strings,
};
use crate::win_delete::{ps_quote, ps_quote_exec};
use crate::win_install::{
    InstallError, spec_pnputil_stage_succeeded, pnputil_stage_succeeded, mentions_any,
    permission_words, failure_words, has_permission_error, has_failure_keywords,
};
use crate::win_queue::PsRun;

verus! {

// ---------------------------------------------------------------------------
// The published name in pnputil's output
// ---------------------------------------------------------------------------

/// The text after the first `n` bytes.
pub open spec fn skip_bytes(s: Seq<char>, n: int) -> Seq<char> {
    s.skip(take_bytes(s, n).len() as int)
}

/// The byte offset of character index `k`.
pub open spec fn byte_offset(s: Seq<char>, k: int) -> int {
    byte_len(s.take(k)) as int
}

/// After a prefix: the part from the first `oem` (found in the
/// lower-cased text, by byte offset) to the end of the first `.inf` after
/// it (likewise), trimmed; cutting must fall between characters.
pub open spec fn name_after(after: Seq<char>) -> Option<Seq<char>> {
    match find(lowercase(after), "oem"@) {
        None => None,
        Some(k) => {
            let oem_part = skip_bytes(after, byte_offset(lowercase(after), k));
            match find(lowercase(oem_part), ".inf"@) {
                None => None,
                Some(m) => {
                    let name = trim(take_bytes(oem_part, byte_offset(lowercase(oem_part), m) + 4));
                    if name.len() > 0 {
                        Some(name)
                    } else {
                        None
                    }
                },
            }
        },
    }
}

/// Whether the byte offsets found in the lower-cased text fall between
/// characters of the original (else the original code panics).
pub open spec fn name_after_ok(after: Seq<char>) -> bool {
    match find(lowercase(after), "oem"@) {
        None => true,
        Some(k) => {
            let off = byte_offset(lowercase(after), k);
            is_boundary(after, off) && {
                let oem_part = skip_bytes(after, off);
                match find(lowercase(oem_part), ".inf"@) {
                    None => true,
                    Some(m) => is_boundary(oem_part, byte_offset(lowercase(oem_part), m) + 4),
                }
            }
        },
    }
}

/// The text after the first occurrence of a prefix.
pub open spec fn after_first(output: Seq<char>, prefix: Seq<char>) -> Option<Seq<char>> {
    match find(output, prefix) {
        Some(p) => Some(output.skip(p + prefix.len())),
        None => None,
    }
}

/// The published INF name (`oemNN.inf`) after `发布名称:`, else after
/// `Published name:`.
pub open spec fn spec_published_name(output: Seq<char>) -> Option<Seq<char>> {
    let first = match after_first(output, "发布名称:"@) {
        Some(a) => name_after(a),
        None => None,
    };
    match first {
        Some(n) => Some(n),
        None => match after_first(output, "Published name:"@) {
            Some(a) => name_after(a),
            None => None,
        },
    }
}

pub open spec fn published_name_ok(output: Seq<char>) -> bool {
    let first_ok = match after_first(output, "发布名称:"@) {
        Some(a) => name_after_ok(a),
        None => true,
    };
    let first = match after_first(output, "发布名称:"@) {
        Some(a) => name_after(a),
        None => None,
    };
    let second_ok = match after_first(output, "Published name:"@) {
        Some(b) => name_after_ok(b),
        None => true,
    };
    first_ok && (first is None ==> second_ok)
}

pub fn skip_bytes_exec(s: &[char], n: usize) -> (r: Vec<char>)
    requires
        is_boundary(s@, n as int),
    ensures
        r@ == skip_bytes(s@, n as int),
{
    let (k, _) = crate::text::prefix_within_exec(s, n);
    assert(s@.take(k as int).len() == k);
    slice_chars(s, k, s.len())
}

pub fn byte_offset_exec(s: &[char], k: usize) -> (r: usize)
    requires
        k <= s@.len(),
        byte_len(s@.take(k as int)) <= usize::MAX,
    ensures
        r == byte_offset(s@, k as int),
{
    let head = slice_chars(s, 0, k);
    byte_len_exec(head.as_slice())
}

fn after_first_exec(output: &[char], prefix: &str) -> (r: Option<Vec<char>>)
    ensures
        match r {
            Some(v) => after_first(output@, prefix@) == Some(v@),
            None => after_first(output@, prefix@) is None,
        },
{
    let p = chars_of(prefix);
    let n = output.len();
    match find_exec(output, p.as_slice()) {
        Some(pos) => {
            proof {
                lemma_find(output@, p@);
            }
            assert(pos + p@.len() <= n);
            let rest = slice_chars(output, pos + p.len(), n);
            assert(rest@ =~= output@.skip(pos + p@.len()));
            Some(rest)
        },
        None => None,
    }
}

fn name_after_exec(after: &[char]) -> (r: Option<String>)
    requires
        name_after_ok(after@),
    ensures
        opt_view(r) == name_after(after@),
{
    let lower = to_lowercase(after);
    match find_exec(lower.as_slice(), chars_of("oem").as_slice()) {
        None => None,
        Some(k) => {
            proof {
                lemma_find(lower@, "oem"@);
                crate::text::lemma_byte_len_prefix_le(lower@, k as int);
            }
            let off = byte_offset_exec(lower.as_slice(), k);
            let oem_part = skip_bytes_exec(after, off);
            let lower2 = to_lowercase(oem_part.as_slice());
            match find_exec(lower2.as_slice(), chars_of(".inf").as_slice()) {
                None => None,
                Some(m) => {
                    proof {
                        lemma_find(lower2@, ".inf"@);
                        crate::text::lemma_byte_len_prefix_le(lower2@, m as int);
                    }
                    let off2 = byte_offset_exec(lower2.as_slice(), m);
                    let cut = take_bytes_exec(oem_part.as_slice(), off2 + 4);
                    let name = trim_chars(cut.as_slice());
                    if name.len() > 0 {
                        Some(string_of(name.as_slice()))
                    } else {
                        None
                    }
                },
            }
        },
    }
}

/// The published INF name (`oemNN.inf`) that pnputil reports.
pub fn extract_published_name(output: &str) -> (r: Option<String>)
    requires
        published_name_ok(output@),
    ensures
        opt_view(r) == spec_published_name(output@),
{
    let v = chars_of(output);
    let first = match after_first_exec(v.as_slice(), "发布名称:") {
        Some(a) => name_after_exec(a.as_slice()),
        None => None,
    };
    match first {
        Some(n) => Some(n),
        None => match after_first_exec(v.as_slice(), "Published name:") {
            Some(b) => name_after_exec(b.as_slice()),
            None => None,
        },
    }
}

fn name_after_ok_exec(after: &[char]) -> (b: bool)
    ensures
        b == name_after_ok(after@),
{
    let lower = to_lowercase(after);
    match find_exec(lower.as_slice(), chars_of("oem").as_slice()) {
        None => true,
        Some(k) => {
            proof {
                lemma_find(lower@, "oem"@);
                crate::text::lemma_byte_len_prefix_le(lower@, k as int);
            }
            let off = byte_offset_exec(lower.as_slice(), k);
            if !crate::text::is_boundary_exec(after, off) {
                return false;
            }
            let oem_part = skip_bytes_exec(after, off);
            let lower2 = to_lowercase(oem_part.as_slice());
            match find_exec(lower2.as_slice(), chars_of(".inf").as_slice()) {
                None => true,
                Some(m) => {
                    proof {
                        lemma_find(lower2@, ".inf"@);
                        crate::text::lemma_byte_len_prefix_le(lower2@, m as int);
                    }
                    let off2 = byte_offset_exec(lower2.as_slice(), m);
                    crate::text::is_boundary_exec(oem_part.as_slice(), off2 + 4)
                },
            }
        },
    }
}

/// Whether reading the published name from this output stays between
/// characters (where it does not, the name cannot be read).
pub fn published_name_readable(output: &str) -> (b: bool)
    ensures
        b == published_name_ok(output@),
{
    let v = chars_of(output);
    let (first_ok, first_found) = match after_first_exec(v.as_slice(), "发布名称:") {
        Some(a) => {
            if name_after_ok_exec(a.as_slice()) {
                (true, name_after_exec(a.as_slice()).is_some())
            } else {
                (false, false)
            }
        },
        None => (true, false),
    };
    if !first_ok {
        return false;
    }
    if first_found {
        return true;
    }
    match after_first_exec(v.as_slice(), "Published name:") {
        Some(b) => name_after_ok_exec(b.as_slice()),
        None => true,
    }
}

/// The published name where it can be read: `None` when reading it would
/// not stay between characters, else what `extract_published_name` gives.
pub fn published_name_checked(output: &str) -> (r: Option<Option<String>>)
    ensures
        r is None <==> !published_name_ok(output@),
        r matches Some(n) ==> opt_view(n) == spec_published_name(output@),
{
    if published_name_readable(output) {
        Some(extract_published_name(output))
    } else {
        None
    }
}

// ---------------------------------------------------------------------------
// Staging a driver package with pnputil
// ---------------------------------------------------------------------------

/// A staged driver package: pnputil's exit code and output, and the INF.
pub struct StageResult {
    pub exit_code: Option<i32>,
    pub output_text: String,
    pub inf_path: String,
}

/// The arguments of pnputil for staging an INF.
pub fn stage_args(inf_path: &str) -> (r: Vec<String>)
    ensures
        strings_view(r@) == seq!["/add-driver"@, inf_path@, "/install"@, "/subdirs"@],
{
    let r: Vec<String> = vec![owned("/add-driver"), owned(inf_path), owned("/install"), owned("/subdirs")];
    assert(strings_view(r@) =~= seq!["/add-driver"@, inf_path@, "/install"@, "/subdirs"@]);
    r
}

/// Standard output and error output together, as `2>&1` gives them.
pub open spec fn combined_output(stdout: Seq<char>, stderr: Seq<char>) -> Seq<char> {
    if stderr.len() > 0 {
        stdout + "\n"@ + stderr
    } else {
        stdout
    }
}

/// The preview of an output for the log, computed on the failure paths:
/// the first 300 bytes and its length when longer.
pub open spec fn stage_preview_ok(output: Seq<char>) -> bool {
    byte_len(output) > 300 ==> is_boundary(output, 300)
}

/// The preview itself.
pub open spec fn stage_preview(output: Seq<char>) -> Seq<char> {
    if byte_len(output) > 300 {
        take_bytes(output, 300) + "... (truncated, total "@ + decimal(byte_len(output) as int)
            + " chars)"@
    } else {
        output
    }
}

/// The error of a staging run refused for missing rights.
pub open spec fn stage_permission_message(
    exit_code: Option<i32>,
    stdout: Seq<char>,
    stderr: Seq<char>,
) -> Seq<char> {
    let out = combined_output(stdout, stderr);
    "pnputil stage 失败（权限拒绝）。请以管理员身份运行\n\n完整输出:\n"@ + out + "\n\n诊断信息: "@
        + "step=pnputil_stage exit_code="@ + debug_opt_i32(exit_code) + " stdout_len="@ + decimal(
        byte_len(stdout) as int,
    ) + " stderr_len="@ + decimal(byte_len(stderr) as int) + " output_preview=\""@ + stage_preview(out)
        + "\""@
}

/// Whether a run reaches a path that computes the preview.
pub open spec fn stage_needs_preview(output: Seq<char>, exit_code: Option<i32>) -> bool {
    mentions_any(lowercase(output), permission_words()) || (!spec_pnputil_stage_succeeded(output)
        && exit_code != Some(0i32))
}

/// Sorts pnputil's staging run, in order: missing rights fail; output that
/// says the package was added succeeds, whatever the exit code; exit code 0
/// succeeds; anything else fails with the output.
pub fn stage_verdict(inf_path: &str, exit_code: Option<i32>, stdout: &str, stderr: &str) -> (r: Result<
    StageResult,
    String,
>)
    requires
        stage_needs_preview(combined_output(stdout@, stderr@), exit_code) ==> stage_preview_ok(
            combined_output(stdout@, stderr@),
        ),
        byte_len(combined_output(stdout@, stderr@)) <= usize::MAX,
        byte_len(stdout@) <= usize::MAX,
        byte_len(stderr@) <= usize::MAX,
    ensures
        ({
            let out = combined_output(stdout@, stderr@);
            if mentions_any(lowercase(out), permission_words()) {
                r matches Err(m) && m@ == stage_permission_message(exit_code, stdout@, stderr@)
            } else if spec_pnputil_stage_succeeded(out) || exit_code == Some(0i32) {
                r matches Ok(s) && s.exit_code == exit_code && s.output_text@ == out && s.inf_path@
                    == inf_path@
            } else {
                r matches Err(m) && m@ == "pnputil stage 失败 (exit code: "@ + debug_opt_i32(exit_code)
                    + ")\n\n完整输出:\n"@ + out
            }
        }),
{
    let mut out = owned(stdout);
    if chars_of(stderr).len() > 0 {
        append_str(&mut out, "\n");
        append_str(&mut out, stderr);
    }
    let ov = chars_of(out.as_str());
    if has_permission_error(out.as_str()) {
        let mut preview = if exceeds_bytes(ov.as_slice(), 300) {
            let mut p = string_of(take_bytes_exec(ov.as_slice(), 300).as_slice());
            append_str(&mut p, "... (truncated, total ");
            append_chars(&mut p, u64_decimal(byte_len_exec(ov.as_slice()) as u64).as_slice());
            append_str(&mut p, " chars)");
            p
        } else {
            owned(out.as_str())
        };
        let mut ev = owned("step=pnputil_stage exit_code=");
        append_str(&mut ev, debug_opt_i32_exec(exit_code).as_str());
        append_str(&mut ev, " stdout_len=");
        append_chars(&mut ev, u64_decimal(byte_len_exec(chars_of(stdout).as_slice()) as u64).as_slice());
        append_str(&mut ev, " stderr_len=");
        append_chars(&mut ev, u64_decimal(byte_len_exec(chars_of(stderr).as_slice()) as u64).as_slice());
        append_str(&mut ev, " output_preview=\"");
        append_str(&mut ev, preview.as_str());
        append_str(&mut ev, "\"");
        let mut m = owned("pnputil stage 失败（权限拒绝）。请以管理员身份运行\n\n完整输出:\n");
        append_str(&mut m, out.as_str());
        append_str(&mut m, "\n\n诊断信息: ");
        append_str(&mut m, ev.as_str());
        return Err(m);
    }
    if pnputil_stage_succeeded(out.as_str()) {
        return Ok(StageResult { exit_code, output_text: out, inf_path: owned(inf_path) });
    }
    if exit_code == Some(0i32) {
        return Ok(StageResult { exit_code, output_text: out, inf_path: owned(inf_path) });
    }
    let mut m = owned("pnputil stage 失败 (exit code: ");
    append_str(&mut m, debug_opt_i32_exec(exit_code).as_str());
    append_str(&mut m, ")\n\n完整输出:\n");
    append_str(&mut m, out.as_str());
    Err(m)
}

/// Sorts pnputil's staging run where its output can be previewed; `None`
/// where the 300-byte preview, which the failure paths compute, would not
/// end between characters.
pub fn stage_verdict_checked(inf_path: &str, exit_code: Option<i32>, stdout: &str, stderr: &str) -> (r:
    Option<Result<StageResult, String>>)
    requires
        byte_len(combined_output(stdout@, stderr@)) <= usize::MAX,
        byte_len(stdout@) <= usize::MAX,
        byte_len(stderr@) <= usize::MAX,
    ensures
        r is None <==> (stage_needs_preview(combined_output(stdout@, stderr@), exit_code)
            && !stage_preview_ok(combined_output(stdout@, stderr@))),
        r matches Some(v) ==> ({
            let out = combined_output(stdout@, stderr@);
            if mentions_any(lowercase(out), permission_words()) {
                v matches Err(m) && m@ == stage_permission_message(exit_code, stdout@, stderr@)
            } else if spec_pnputil_stage_succeeded(out) || exit_code == Some(0i32) {
                v matches Ok(s) && s.exit_code == exit_code && s.output_text@ == out && s.inf_path@
                    == inf_path@
            } else {
                v matches Err(m) && m@ == "pnputil stage 失败 (exit code: "@ + debug_opt_i32(exit_code)
                    + ")\n\n完整输出:\n"@ + out
            }
        }),
{
    let mut out = owned(stdout);
    if chars_of(stderr).len() > 0 {
        append_str(&mut out, "\n");
        append_str(&mut out, stderr);
    }
    let ov = chars_of(out.as_str());
    let needs = has_permission_error(out.as_str()) || (!pnputil_stage_succeeded(out.as_str()) && exit_code
        != Some(0i32));
    let ok = !exceeds_bytes(ov.as_slice(), 300) || crate::text::is_boundary_exec(ov.as_slice(), 300);
    if needs && !ok {
        None
    } else {
        Some(stage_verdict(inf_path, exit_code, stdout, stderr))
    }
}

// ---------------------------------------------------------------------------
// Registering a printer driver
// ---------------------------------------------------------------------------

/// The PowerShell query for an installed driver of a name.
pub open spec fn spec_driver_query_script(driver_name: Seq<char>) -> Seq<char> {
    "[Console]::OutputEncoding = [System.Text.Encoding]::UTF8; Get-PrinterDriver -Name '"@ + ps_quote(
        driver_name,
    ) + "' -ErrorAction SilentlyContinue | Select-Object -First 1 -ExpandProperty Name"@
}

pub fn driver_query_script(driver_name: &str) -> (r: String)
    ensures
        r@ == spec_driver_query_script(driver_name@),
{
    let mut r = owned(
        "[Console]::OutputEncoding = [System.Text.Encoding]::UTF8; Get-PrinterDriver -Name '",
    );
    append_chars(&mut r, ps_quote_exec(driver_name).as_slice());
    append_str(&mut r, "' -ErrorAction SilentlyContinue | Select-Object -First 1 -ExpandProperty Name");
    r
}

/// The PowerShell command that registers a driver from a published INF.
pub open spec fn spec_add_driver_script(driver_name: Seq<char>, inf: Seq<char>) -> Seq<char> {
    "[Console]::OutputEncoding = [System.Text.Encoding]::UTF8; Add-PrinterDriver -Name '"@ + ps_quote(
        driver_name,
    ) + "' -InfPath '"@ + ps_quote(inf) + "' -ErrorAction Stop"@
}

pub fn add_driver_script(driver_name: &str, inf: &str) -> (r: String)
    ensures
        r@ == spec_add_driver_script(driver_name@, inf@),
{
    let mut r = owned(
        "[Console]::OutputEncoding = [System.Text.Encoding]::UTF8; Add-PrinterDriver -Name '",
    );
    append_chars(&mut r, ps_quote_exec(driver_name).as_slice());
    append_str(&mut r, "' -InfPath '");
    append_chars(&mut r, ps_quote_exec(inf).as_slice());
    append_str(&mut r, "' -ErrorAction Stop");
    r
}

/// The driver query found the driver: its trimmed output is the name.
pub open spec fn spec_driver_found(query: Result<Seq<u8>, Seq<char>>, driver_name: Seq<char>) -> bool {
    match query {
        Ok(out) => trim(spec_decode_windows_string(out)).len() > 0 && trim(spec_decode_windows_string(out))
            == driver_name,
        Err(_) => false,
    }
}

pub fn driver_found(query: &Result<Vec<u8>, String>, driver_name: &str) -> (b: bool)
    ensures
        b == spec_driver_found(
            match *query {
                Ok(v) => Ok(v@),
                Err(e) => Err(e@),
            },
            driver_name@,
        ),
{
    match query {
        Ok(out) => {
            let t = trim_chars(chars_of(decode_windows_string(out.as_slice()).as_str()).as_slice());
            let ts = string_of(t.as_slice());
            t.len() > 0 && str_eq(ts.as_str(), driver_name)
        },
        Err(_) => false,
    }
}

/// After `Add-PrinterDriver` ran and the driver was queried again: found
/// is success; a successful run that says the driver already exists is
/// success; anything else fails with the output and exit code.
pub fn after_add_driver(
    run: &PsRun,
    success: bool,
    found_after: bool,
) -> (r: Result<(), String>)
    ensures
        r is Ok <==> (found_after || success && (contains(
            lowercase(combined_output(spec_decode_windows_string(run.stdout@), spec_decode_windows_string(run.stderr@))),
            "already exists"@,
        ) || contains(
            lowercase(combined_output(spec_decode_windows_string(run.stdout@), spec_decode_windows_string(run.stderr@))),
            "已存在"@,
        ))),
        r is Err ==> (r matches Err(m) && m@
            == "驱动包已导入，但未注册为可用打印驱动；请检查 driver_names 是否匹配该驱动包\n\nAdd-PrinterDriver 输出:\n"@
            + combined_output(spec_decode_windows_string(run.stdout@), spec_decode_windows_string(run.stderr@))
            + "\n\n退出码: "@ + debug_opt_i32(run.exit_code)),
{
    if found_after {
        return Ok(());
    }
    let stdout = decode_windows_string(run.stdout.as_slice());
    let stderr = decode_windows_string(run.stderr.as_slice());
    let mut combined = owned(stdout.as_str());
    if chars_of(stderr.as_str()).len() > 0 {
        append_str(&mut combined, "\n");
        append_str(&mut combined, stderr.as_str());
    }
    if success {
        let lower = to_lowercase(chars_of(combined.as_str()).as_slice());
        if contains_exec(lower.as_slice(), chars_of("already exists").as_slice()) || contains_exec(
            lower.as_slice(),
            chars_of("已存在").as_slice(),
        ) {
            return Ok(());
        }
    }
    let mut m = owned(
        "驱动包已导入，但未注册为可用打印驱动；请检查 driver_names 是否匹配该驱动包\n\nAdd-PrinterDriver 输出:\n",
    );
    append_str(&mut m, combined.as_str());
    append_str(&mut m, "\n\n退出码: ");
    append_str(&mut m, debug_opt_i32_exec(run.exit_code).as_str());
    Err(m)
}

/// `Add-PrinterDriver` could not be run: missing rights, a bad parameter
/// and other errors are told apart by the (lower-cased) error.
pub fn add_driver_run_error(error: &str, inf: &str, driver_name: &str) -> (r: String)
    ensures
        ({
            let l = lowercase(error@);
            if contains(l, "access denied"@) || contains(l, "0x80070005"@) || contains(l, "拒绝访问"@)
                || contains(l, "需要提升"@) {
                r@ == "Add-PrinterDriver 失败（权限错误）。请以管理员身份运行\n\n错误详情:\n"@ + error@
            } else if contains(l, "0x80070057"@) || contains(l, "invalid parameter"@) {
                r@ == "Add-PrinterDriver 失败（参数错误）。请检查 InfPath 和 DriverName 是否匹配\n\nInfPath: "@
                    + inf@ + "\nDriverName: "@ + driver_name@ + "\n\n错误详情:\n"@ + error@
            } else {
                r@ == "Add-PrinterDriver 失败\n\n错误详情:\n"@ + error@
            }
        }),
{
    let l = to_lowercase(chars_of(error).as_slice());
    let ls = l.as_slice();
    if has_text(ls, "access denied") || has_text(ls, "0x80070005") || has_text(ls, "拒绝访问") || has_text(ls, "需要提升") {
        let mut r = owned("Add-PrinterDriver 失败（权限错误）。请以管理员身份运行\n\n错误详情:\n");
        append_str(&mut r, error);
        r
    } else if has_text(ls, "0x80070057") || has_text(ls, "invalid parameter") {
        let mut r = owned(
            "Add-PrinterDriver 失败（参数错误）。请检查 InfPath 和 DriverName 是否匹配\n\nInfPath: ",
        );
        append_str(&mut r, inf);
        append_str(&mut r, "\nDriverName: ");
        append_str(&mut r, driver_name);
        append_str(&mut r, "\n\n错误详情:\n");
        append_str(&mut r, error);
        r
    } else {
        let mut r = owned("Add-PrinterDriver 失败\n\n错误详情:\n");
        append_str(&mut r, error);
        r
    }
}

fn has_text(l: &[char], p: &str) -> (b: bool)
    ensures
        b == contains(l@, p@),
{
    contains_exec(l, chars_of(p).as_slice())
}

// ---------------------------------------------------------------------------
// The Windows build number
// ---------------------------------------------------------------------------

/// A build number printed by PowerShell: the output decoded leniently,
/// trimmed, read as a number.
pub open spec fn spec_build_from_output(stdout: Seq<u8>) -> Option<nat> {
    let t = trim(utf8_lossy(stdout));
    if t.len() > 0 {
        parse_unsigned(t, u32::MAX as nat)
    } else {
        None
    }
}

pub fn build_from_output(stdout: &[u8]) -> (r: Option<u32>)
    ensures
        match r {
            Some(n) => spec_build_from_output(stdout@) == Some(n as nat),
            None => spec_build_from_output(stdout@) is None,
        },
{
    let t = trim_chars(chars_of(from_utf8_lossy(stdout).as_str()).as_slice());
    if t.len() > 0 {
        parse_u32(t.as_slice())
    } else {
        None
    }
}

// ---------------------------------------------------------------------------
// Choosing an installed driver by name
// ---------------------------------------------------------------------------

/// The candidate driver names, trimmed, blanks dropped.
pub open spec fn spec_candidates(names: Seq<Seq<char>>) -> Seq<Seq<char>>
    decreases names.len(),
{
    if names.len() == 0 {
        seq![]
    } else {
        let rest = spec_candidates(names.drop_last());
        if trim(names.last()).len() > 0 {
            rest.push(trim(names.last()))
        } else {
            rest
        }
    }
}

pub fn driver_candidates(names: &Vec<String>) -> (r: Vec<String>)
    ensures
        strings_view(r@) == spec_candidates(strings_view(names@)),
{
    let mut r: Vec<String> = Vec::new();
    let mut i: usize = 0;
    while i < names.len()
        invariant
            i <= names@.len(),
            strings_view(r@) == spec_candidates(strings_view(names@).take(i as int)),
        decreases names@.len() - i,
    {
        assert(strings_view(names@).take(i + 1).drop_last() =~= strings_view(names@).take(i as int));
        assert(strings_view(names@).take(i + 1).last() == names@[i as int]@);
        let t = trim_chars(chars_of(names[i].as_str()).as_slice());
        if t.len() > 0 {
            let ghost before = r@;
            r.push(string_of(t.as_slice()));
            assert(strings_view(r@) =~= strings_view(before).push(t@));
        }
        i = i + 1;
    }
    assert(strings_view(names@).take(names@.len() as int) =~= strings_view(names@));
    r
}

/// After querying one candidate: its trimmed output names the installed
/// driver when not empty; otherwise a non-blank error output (or the
/// error) is kept as the last diagnostic.
pub fn after_candidate_query(query: Result<PsRun, String>, last_stderr: &mut Option<String>) -> (r:
    Option<String>)
    ensures
        match query {
            Ok(o) => if trim(spec_decode_windows_string(o.stdout@)).len() > 0 {
                r matches Some(n) && n@ == trim(spec_decode_windows_string(o.stdout@))
                    && *final(last_stderr) == *old(last_stderr)
            } else {
                r is None && (if trim(spec_decode_windows_string(o.stderr@)).len() > 0 {
                    opt_view(*final(last_stderr)) == Some(spec_decode_windows_string(o.stderr@))
                } else {
                    *final(last_stderr) == *old(last_stderr)
                })
            },
            Err(e) => r is None && *final(last_stderr) == Some(e),
        },
{
    match query {
        Ok(o) => {
            let stdout = decode_windows_string(o.stdout.as_slice());
            let t = trim_chars(chars_of(stdout.as_str()).as_slice());
            if t.len() > 0 {
                return Some(string_of(t.as_slice()));
            }
            let stderr = decode_windows_string(o.stderr.as_slice());
            if trim_chars(chars_of(stderr.as_str()).as_slice()).len() > 0 {
                *last_stderr = Some(stderr);
            }
            None
        },
        Err(e) => {
            *last_stderr = Some(e);
            None
        },
    }
}

/// After pnputil installed an INF: a failed run fails with its output; a
/// successful one succeeds only when one of the driver names is installed.
pub fn after_inf_install(
    inf_path: &str,
    success: bool,
    exit_code: Option<i32>,
    stdout: &[u8],
    stderr: &[u8],
    selected: &Option<String>,
    driver_names: &Vec<String>,
) -> (r: Result<(), InstallError>)
    ensures
        !success ==> (r matches Err(InstallError::InfInstallFailed { inf_path: p, exit_code: c, stdout: o, stderr: e })
            && p@ == inf_path@ && c == exit_code && o@ == spec_decode_windows_string(stdout@) && e@
            == spec_decode_windows_string(stderr@)),
        success && selected is Some ==> r is Ok,
        success && selected is None ==> (r matches Err(InstallError::InfInstallFailed { inf_path: p, exit_code: c, stdout: o, stderr: e })
            && p@ == inf_path@ && c == Some(0i32) && o@
            == "pnputil 执行成功，但 driver_names 中未找到已安装驱动。候选列表: "@ + join(
            strings_view(driver_names@),
            ", "@,
        ) && e@ == "请检查 driver_names 是否与系统 DriverName 一致。候选: "@ + join(
            strings_view(driver_names@),
            ", "@,
        )),
{
    if !success {
        return Err(
            InstallError::InfInstallFailed {
                inf_path: owned(inf_path),
                exit_code,
                stdout: decode_windows_string(stdout),
                stderr: decode_windows_string(stderr),
            },
        );
    }
    match selected {
        Some(_) => Ok(()),
        None => {
            let joined = join_strings(driver_names, ", ");
            let mut o = owned("pnputil 执行成功，但 driver_names 中未找到已安装驱动。候选列表: ");
            append_str(&mut o, joined.as_str());
            let mut e = owned("请检查 driver_names 是否与系统 DriverName 一致。候选: ");
            append_str(&mut e, joined.as_str());
            Err(InstallError::InfInstallFailed { inf_path: owned(inf_path), exit_code: Some(0i32), stdout: o, stderr: e })
        },
    }
}

} // verus!
