use vstd::prelude::*;
use crate::command::{decode_windows_string, spec_decode_windows_string};
use crate::config::{opt_view, clone_string};
use crate::events::{ErrorPayload, InstallProgressEvent, InstallResult, final_verify_event};
use crate::macos_flow::{debug_opt_i32, debug_opt_i32_exec};
use crate::text::{
    owned, append_str, append_chars, chars_of, str_eq, trim, trim_chars, contains, contains_exec,
    lowercase, to_lowercase, byte_len, is_boundary, take_bytes, exceeds_bytes, take_bytes_exec,
};
use crate::win_delete::{ps_quote, ps_quote_exec};
use crate::win_driver::{extract_published_name, spec_published_name, published_name_ok};
use crate::win_install::{
    detect_target_type, spec_detect_target_type, has_permission_error, mentions_any,
    permission_words, TargetType,
};
use crate::win_queue::PsRun;

verus! {

// ---------------------------------------------------------------------------
// Installing a staged driver package on Windows, step by step
// ---------------------------------------------------------------------------

/// The two routes that install from an INF file: the `package` install
/// mode, and a driver path with a driver name.
#[derive(PartialEq, Eq, Structural, Clone, Copy)]
pub enum InstallBranch {
    Package,
    ModernInf,
}

/// Where an install stands: what it waits for.
#[derive(PartialEq, Eq, Structural, Clone, Copy)]
pub enum FlowStage {
    Staging,
    Registering,
    AwaitingBuild,
    EnsuringPort,
    EnsuringQueue,
    CheckingShared,
    AddingShared,
    Finished,
}

/// An install in progress: the request, and what earlier steps gave.
pub struct WindowsInstall {
    pub branch: InstallBranch,
    /// The printer name, which is also the queue name.
    pub name: String,
    pub path: String,
    pub inf_path: String,
    pub driver_name: String,
    pub dry_run: bool,
    pub job_id: String,
    pub stage: FlowStage,
    /// What pnputil printed when it staged the package.
    pub stage_output: String,
    /// The staged package's name in the driver store (`oemNN.inf`).
    pub published_name: String,
    /// The TCP/IP host or the shared connection.
    pub target: String,
    pub port_name: String,
}

/// What the caller is to do next.
pub enum FlowAction {
    /// Stage the INF into the driver store with pnputil.
    StageDriver { inf_path: String },
    /// Register the printer driver from the published INF.
    RegisterDriver { driver_name: String, published_inf_path: String, dry_run: bool },
    /// Find out the Windows build number.
    QueryBuild,
    /// Make sure a TCP/IP port for the host exists.
    EnsurePort { host: String, port_number: u16, legacy: bool },
    /// Make sure the queue exists with the driver and port.
    EnsureQueue { queue_name: String, driver_name: String, port_name: String },
    /// Run this PowerShell command.
    RunScript(String),
    /// The install is over.
    Finish(InstallResult),
}

/// The next state, the progress events to send first, and the action.
pub struct FlowStep {
    pub state: WindowsInstall,
    pub events: Vec<InstallProgressEvent>,
    pub action: FlowAction,
}

/// The install method that results report.
pub open spec fn method_text(b: InstallBranch) -> Seq<char> {
    match b {
        InstallBranch::Package => "Package"@,
        InstallBranch::ModernInf => "ModernInf"@,
    }
}

/// How success messages name the route.
pub open spec fn route_title(b: InstallBranch) -> Seq<char> {
    match b {
        InstallBranch::Package => "Package"@,
        InstallBranch::ModernInf => "Modern INF"@,
    }
}

/// The request stays what it was.
pub open spec fn same_request(a: WindowsInstall, b: WindowsInstall) -> bool {
    &&& a.branch == b.branch
    &&& a.name@ == b.name@
    &&& a.path@ == b.path@
    &&& a.inf_path@ == b.inf_path@
    &&& a.driver_name@ == b.driver_name@
    &&& a.dry_run == b.dry_run
    &&& a.job_id@ == b.job_id@
}

/// Everything an earlier step found stays too.
pub open spec fn same_findings(a: WindowsInstall, b: WindowsInstall) -> bool {
    &&& same_request(a, b)
    &&& a.stage_output@ == b.stage_output@
    &&& a.published_name@ == b.published_name@
    &&& a.target@ == b.target@
    &&& a.port_name@ == b.port_name@
}

/// The install ends with this result.
pub open spec fn finishes(
    a: FlowAction,
    s: WindowsInstall,
    success: bool,
    message: Seq<char>,
    stdout: Option<Seq<char>>,
    stderr: Option<Seq<char>>,
) -> bool {
    a matches FlowAction::Finish(r) && {
        &&& r.success == success
        &&& r.message@ == message
        &&& opt_view(r.method) == Some(method_text(s.branch))
        &&& opt_view(r.stdout) == stdout
        &&& opt_view(r.stderr) == stderr
        &&& r.effective_dry_run == s.dry_run
        &&& r.job_id@ == s.job_id@
    }
}

/// A progress event of the install, without counts or error.
pub open spec fn plain_note(
    e: InstallProgressEvent,
    s: WindowsInstall,
    step_id: Seq<char>,
    state: Seq<char>,
    message: Seq<char>,
    phase: Seq<char>,
) -> bool {
    &&& e.job_id@ == s.job_id@
    &&& e.printer_name@ == s.name@
    &&& e.step_id@ == step_id
    &&& e.state@ == state
    &&& e.message@ == message
    &&& e.ts_ms == 0
    &&& e.progress is None
    &&& e.error is None
    &&& e.meta is None
    &&& e.install_mode is None
    &&& opt_view(e.legacy_phase) == Some(phase)
}

/// A failed step, with an error of the code whose detail is the message
/// and whose error output is `err`.
pub open spec fn failure_note(
    e: InstallProgressEvent,
    s: WindowsInstall,
    step_id: Seq<char>,
    message: Seq<char>,
    phase: Seq<char>,
    code: Seq<char>,
    err: Seq<char>,
) -> bool {
    &&& e.job_id@ == s.job_id@
    &&& e.printer_name@ == s.name@
    &&& e.step_id@ == step_id
    &&& e.state@ == "failed"@
    &&& e.message@ == message
    &&& e.ts_ms == 0
    &&& e.progress is None
    &&& e.error matches Some(p) && p.code@ == code && p.detail@ == message && p.stdout is None
        && opt_view(p.stderr) == Some(err)
    &&& e.meta is None
    &&& e.install_mode is None
    &&& opt_view(e.legacy_phase) == Some(phase)
}

/// The final check passed: complete at one hundred percent.
pub open spec fn final_note(e: InstallProgressEvent, s: WindowsInstall) -> bool {
    &&& e.job_id@ == s.job_id@
    &&& e.printer_name@ == s.name@
    &&& e.step_id@ == "device.finalVerify"@
    &&& e.state@ == "success"@
    &&& e.message@ == "安装完成"@
    &&& e.ts_ms == 0
    &&& e.progress matches Some(p) && p.current == Some(100u64) && p.total == Some(100u64)
        && opt_view(p.unit) == Some("percent"@) && p.percent == Some(100u64)
    &&& e.error is None
    &&& e.meta is None
    &&& e.install_mode is None
    &&& opt_view(e.legacy_phase) == Some("finalVerify"@)
}

fn method_of(b: InstallBranch) -> (r: String)
    ensures
        r@ == method_text(b),
{
    match b {
        InstallBranch::Package => owned("Package"),
        InstallBranch::ModernInf => owned("ModernInf"),
    }
}

fn title_of(b: InstallBranch) -> (r: &'static str)
    ensures
        r@ == route_title(b),
{
    match b {
        InstallBranch::Package => "Package",
        InstallBranch::ModernInf => "Modern INF",
    }
}

fn finish(s: &WindowsInstall, success: bool, message: String, stdout: Option<String>, stderr: Option<
    String,
>) -> (a: FlowAction)
    ensures
        finishes(a, *s, success, message@, opt_view(stdout), opt_view(stderr)),
{
    FlowAction::Finish(
        InstallResult {
            success,
            message,
            method: Some(method_of(s.branch)),
            stdout,
            stderr,
            effective_dry_run: s.dry_run,
            job_id: clone_string(&s.job_id),
        },
    )
}

fn note(s: &WindowsInstall, step_id: &str, state: &str, message: String, phase: &str) -> (e:
    InstallProgressEvent)
    ensures
        plain_note(e, *s, step_id@, state@, message@, phase@),
{
    InstallProgressEvent {
        job_id: clone_string(&s.job_id),
        printer_name: clone_string(&s.name),
        step_id: owned(step_id),
        state: owned(state),
        message,
        ts_ms: 0,
        progress: None,
        error: None,
        meta: None,
        legacy_phase: Some(owned(phase)),
        install_mode: None,
    }
}

fn failed_note(s: &WindowsInstall, step_id: &str, message: String, phase: &str, code: &str, err: String) -> (e:
    InstallProgressEvent)
    ensures
        failure_note(e, *s, step_id@, message@, phase@, code@, err@),
{
    let detail = clone_string(&message);
    InstallProgressEvent {
        job_id: clone_string(&s.job_id),
        printer_name: clone_string(&s.name),
        step_id: owned(step_id),
        state: owned("failed"),
        message,
        ts_ms: 0,
        progress: None,
        error: Some(ErrorPayload { code: owned(code), detail, stdout: None, stderr: Some(err) }),
        meta: None,
        legacy_phase: Some(owned(phase)),
        install_mode: None,
    }
}

fn done_note(s: &WindowsInstall) -> (e: InstallProgressEvent)
    ensures
        final_note(e, *s),
{
    final_verify_event(s.job_id.as_str(), s.name.as_str(), true, None, 0)
}

/// A copy of the state at another stage.
fn at_stage(s: &WindowsInstall, stage: FlowStage) -> (t: WindowsInstall)
    ensures
        same_findings(*s, t),
        t.stage == stage,
{
    WindowsInstall {
        branch: s.branch,
        name: clone_string(&s.name),
        path: clone_string(&s.path),
        inf_path: clone_string(&s.inf_path),
        driver_name: clone_string(&s.driver_name),
        dry_run: s.dry_run,
        job_id: clone_string(&s.job_id),
        stage,
        stage_output: clone_string(&s.stage_output),
        published_name: clone_string(&s.published_name),
        target: clone_string(&s.target),
        port_name: clone_string(&s.port_name),
    }
}

fn cat(a: &str, b: &str) -> (r: String)
    ensures
        r@ == a@ + b@,
{
    let mut r = owned(a);
    append_str(&mut r, b);
    r
}

// ---------------------------------------------------------------------------
// Starting
// ---------------------------------------------------------------------------

fn new_install(
    branch: InstallBranch,
    name: &str,
    path: &str,
    driver_name: &str,
    inf_path: &str,
    dry_run: bool,
    job_id: &str,
    stage: FlowStage,
) -> (s: WindowsInstall)
    ensures
        s.branch == branch,
        s.name@ == name@,
        s.path@ == path@,
        s.driver_name@ == driver_name@,
        s.inf_path@ == inf_path@,
        s.dry_run == dry_run,
        s.job_id@ == job_id@,
        s.stage == stage,
        s.stage_output@ == Seq::<char>::empty(),
        s.published_name@ == Seq::<char>::empty(),
        s.target@ == Seq::<char>::empty(),
        s.port_name@ == Seq::<char>::empty(),
{
    WindowsInstall {
        branch,
        name: owned(name),
        path: owned(path),
        inf_path: owned(inf_path),
        driver_name: owned(driver_name),
        dry_run,
        job_id: owned(job_id),
        stage,
        stage_output: String::new(),
        published_name: String::new(),
        target: String::new(),
        port_name: String::new(),
    }
}

/// A package install that passed its checks starts by staging the INF.
pub fn start_package_install(
    name: &str,
    path: &str,
    driver_name: &str,
    inf_path: &str,
    dry_run: bool,
    job_id: &str,
) -> (r: FlowStep)
    ensures
        r.state.branch == InstallBranch::Package,
        r.state.name@ == name@,
        r.state.path@ == path@,
        r.state.driver_name@ == driver_name@,
        r.state.inf_path@ == inf_path@,
        r.state.dry_run == dry_run,
        r.state.job_id@ == job_id@,
        r.state.stage == FlowStage::Staging,
        r.events@.len() == 0,
        r.action matches FlowAction::StageDriver { inf_path: p } && p@ == inf_path@,
{
    let s = new_install(InstallBranch::Package, name, path, driver_name, inf_path, dry_run, job_id, FlowStage::Staging);
    FlowStep { state: s, events: Vec::new(), action: FlowAction::StageDriver { inf_path: owned(inf_path) } }
}

/// An install from a driver path and a driver name needs the INF path;
/// with it, staging starts.
pub fn start_modern_install(
    name: &str,
    path: &str,
    driver_name: &str,
    inf_path: Option<String>,
    dry_run: bool,
    job_id: &str,
) -> (r: FlowStep)
    ensures
        r.state.branch == InstallBranch::ModernInf,
        r.state.name@ == name@,
        r.state.path@ == path@,
        r.state.driver_name@ == driver_name@,
        r.state.dry_run == dry_run,
        r.state.job_id@ == job_id@,
        match inf_path {
            None => {
                &&& r.state.stage == FlowStage::Finished
                &&& r.events@.len() == 0
                &&& finishes(
                    r.action,
                    r.state,
                    false,
                    "INF 路径缺失\n\nEvidence: "@ + "inf_abs_path_missing"@,
                    None,
                    Some("inf_abs_path_missing"@),
                )
            },
            Some(p) => {
                &&& r.state.stage == FlowStage::Staging
                &&& r.state.inf_path@ == p@
                &&& r.events@.len() == 1
                &&& plain_note(
                    r.events@[0],
                    r.state,
                    "driver.stageDriver"@,
                    "running"@,
                    "正在注册驱动包"@,
                    "stageDriver"@,
                )
                &&& r.action matches FlowAction::StageDriver { inf_path: q } && q@ == p@
            },
        },
{
    match inf_path {
        None => {
            let s = new_install(InstallBranch::ModernInf, name, path, driver_name, "", dry_run, job_id, FlowStage::Finished);
            let ev = owned("inf_abs_path_missing");
            let m = cat("INF 路径缺失\n\nEvidence: ", ev.as_str());
            let a = finish(&s, false, m, None, Some(ev));
            FlowStep { state: s, events: Vec::new(), action: a }
        },
        Some(p) => {
            let s = new_install(
                InstallBranch::ModernInf,
                name,
                path,
                driver_name,
                p.as_str(),
                dry_run,
                job_id,
                FlowStage::Staging,
            );
            let mut events: Vec<InstallProgressEvent> = Vec::new();
            events.push(note(&s, "driver.stageDriver", "running", owned("正在注册驱动包"), "stageDriver"));
            FlowStep { state: s, events, action: FlowAction::StageDriver { inf_path: p } }
        },
    }
}

// ---------------------------------------------------------------------------
// After staging
// ---------------------------------------------------------------------------

/// Whether a staging error is a refusal for want of rights.
pub open spec fn stage_denied(e: Seq<char>) -> bool {
    let l = lowercase(e);
    contains(l, "权限拒绝"@) || contains(l, "access is denied"@) || contains(l, "拒绝访问"@) || contains(
        l,
        "0x5"@,
    ) || mentions_any(l, permission_words())
}

/// The evidence of a package staging refused for want of rights.
pub open spec fn stage_denied_evidence(s: WindowsInstall, e: Seq<char>) -> Seq<char> {
    "step=pnputil_stage printer_name=\""@ + s.name@ + "\" path=\""@ + s.path@ + "\" inf_abs_path=\""@
        + s.inf_path@ + "\" is_admin=true error=\""@ + e + "\""@
}

/// The message of a package staging refused for want of rights.
pub open spec fn stage_denied_message(s: WindowsInstall, e: Seq<char>) -> Seq<char> {
    "需要管理员权限才能执行 "@ + "pnputil_stage"@ + "。"@ + "pnputil /add-driver 需要管理员权限"@
        + "\n\n诊断信息: "@ + stage_denied_evidence(s, e)
}

/// The start of pnputil's output that the evidence quotes: 200 bytes.
pub open spec fn output_excerpt(out: Seq<char>) -> Seq<char> {
    if byte_len(out) > 200 {
        take_bytes(out, 200)
    } else {
        out
    }
}

/// The path of a staged package in the driver store.
pub open spec fn store_inf(published: Seq<char>) -> Seq<char> {
    "C:\\Windows\\INF\\"@ + published
}

/// What the step after staging gives: see `after_stage`.
pub open spec fn staged_step(s: WindowsInstall, staged: Result<String, String>, r: FlowStep) -> bool {
    &&& same_request(s, r.state)
    &&& match staged {
        Err(e) => {
            &&& r.state.stage == FlowStage::Finished
            &&& match s.branch {
                InstallBranch::Package => {
                    &&& r.events@.len() == 0
                    &&& if stage_denied(e@) {
                        finishes(
                            r.action,
                            s,
                            false,
                            stage_denied_message(s, e@),
                            None,
                            Some("[EASYPRINTER_CODE="@ + "WIN_PERMISSION_DENIED"@ + "]"@),
                        )
                    } else {
                        finishes(r.action, s, false, "pnputil stage 失败: "@ + e@, None, Some(e@))
                    }
                },
                InstallBranch::ModernInf => {
                    let ev = "pnputil_stage_failed error=\""@ + e@ + "\""@;
                    &&& r.events@.len() == 1
                    &&& failure_note(
                        r.events@[0],
                        s,
                        "driver.stageDriver"@,
                        "驱动包注册失败: "@ + e@,
                        "stageDriver"@,
                        "PNPUTIL_STAGE_FAILED"@,
                        e@,
                    )
                    &&& finishes(
                        r.action,
                        s,
                        false,
                        "pnputil stage 失败: "@ + e@ + "\n\nEvidence: "@ + ev,
                        None,
                        Some(ev),
                    )
                },
            }
        },
        Ok(out) => {
            &&& r.events@.len() >= 1
            &&& plain_note(
                r.events@[0],
                s,
                "driver.stageDriver"@,
                "success"@,
                "驱动包注册成功"@,
                "stageDriver"@,
            )
            &&& match spec_published_name(out@) {
                None => {
                    &&& r.state.stage == FlowStage::Finished
                    &&& r.events@.len() == 1
                    &&& match s.branch {
                        InstallBranch::Package => finishes(
                            r.action,
                            s,
                            false,
                            "pnputil stage 成功，但无法从输出中提取 published name（oemXXX.inf）"@,
                            Some(out@),
                            Some("无法解析 published name"@),
                        ),
                        InstallBranch::ModernInf => {
                            let ev = "extract_published_name_failed output=\""@ + output_excerpt(out@)
                                + "\""@;
                            finishes(
                                r.action,
                                s,
                                false,
                                "无法从 pnputil 输出中提取 published name\n\nEvidence: "@ + ev,
                                Some(out@),
                                Some(ev),
                            )
                        },
                    }
                },
                Some(p) => {
                    &&& r.state.stage == FlowStage::Registering
                    &&& r.state.stage_output@ == out@
                    &&& r.state.published_name@ == p
                    &&& r.events@.len() == 2
                    &&& plain_note(
                        r.events@[1],
                        s,
                        "driver.registerDriver"@,
                        "running"@,
                        "正在注册打印机驱动"@,
                        "registerDriver"@,
                    )
                    &&& r.action matches FlowAction::RegisterDriver {
                        driver_name: d,
                        published_inf_path: i,
                        dry_run: dr,
                    } && d@ == s.driver_name@ && i@ == store_inf(p) && dr == s.dry_run
                },
            }
        },
    }
}

/// Whether pnputil's output can be read by the step after staging: the
/// published name can be read, and the 200-byte excerpt ends between
/// characters.
pub open spec fn stage_output_ok(out: Seq<char>) -> bool {
    &&& published_name_ok(out)
    &&& byte_len(out) > 200 ==> is_boundary(out, 200)
}

pub fn stage_output_readable(out: &str) -> (b: bool)
    ensures
        b == stage_output_ok(out@),
{
    if !crate::win_driver::published_name_readable(out) {
        return false;
    }
    let v = chars_of(out);
    !exceeds_bytes(v.as_slice(), 200) || crate::text::is_boundary_exec(v.as_slice(), 200)
}

/// The step after staging. A failure ends the install (a package install
/// tells a refusal for want of rights apart); a success is announced, and
/// the published name read from pnputil's output: without one the install
/// ends, with one the driver is registered from the driver store.
pub fn after_stage(s: WindowsInstall, staged: Result<String, String>) -> (r: FlowStep)
    requires
        s.stage == FlowStage::Staging,
        staged matches Ok(out) ==> stage_output_ok(out@),
    ensures
        staged_step(s, staged, r),
{
    match staged {
        Err(e) => {
            let t = at_stage(&s, FlowStage::Finished);
            match s.branch {
                InstallBranch::Package => {
                    let l = to_lowercase(chars_of(e.as_str()).as_slice());
                    let ls = l.as_slice();
                    let denied = contains_exec(ls, chars_of("权限拒绝").as_slice()) || contains_exec(
                        ls,
                        chars_of("access is denied").as_slice(),
                    ) || contains_exec(ls, chars_of("拒绝访问").as_slice()) || contains_exec(
                        ls,
                        chars_of("0x5").as_slice(),
                    ) || has_permission_error(e.as_str());
                    if denied {
                        let mut ev = owned("step=pnputil_stage printer_name=\"");
                        append_str(&mut ev, s.name.as_str());
                        append_str(&mut ev, "\" path=\"");
                        append_str(&mut ev, s.path.as_str());
                        append_str(&mut ev, "\" inf_abs_path=\"");
                        append_str(&mut ev, s.inf_path.as_str());
                        append_str(&mut ev, "\" is_admin=true error=\"");
                        append_str(&mut ev, e.as_str());
                        append_str(&mut ev, "\"");
                        let mut m = owned("需要管理员权限才能执行 ");
                        append_str(&mut m, "pnputil_stage");
                        append_str(&mut m, "。");
                        append_str(&mut m, "pnputil /add-driver 需要管理员权限");
                        append_str(&mut m, "\n\n诊断信息: ");
                        append_str(&mut m, ev.as_str());
                        let mut code = owned("[EASYPRINTER_CODE=");
                        append_str(&mut code, "WIN_PERMISSION_DENIED");
                        append_str(&mut code, "]");
                        let a = finish(&s, false, m, None, Some(code));
                        FlowStep { state: t, events: Vec::new(), action: a }
                    } else {
                        let m = cat("pnputil stage 失败: ", e.as_str());
                        let a = finish(&s, false, m, None, Some(e));
                        FlowStep { state: t, events: Vec::new(), action: a }
                    }
                },
                InstallBranch::ModernInf => {
                    let mut ev = owned("pnputil_stage_failed error=\"");
                    append_str(&mut ev, e.as_str());
                    append_str(&mut ev, "\"");
                    let detail = cat("驱动包注册失败: ", e.as_str());
                    let mut events: Vec<InstallProgressEvent> = Vec::new();
                    events.push(
                        failed_note(
                            &s,
                            "driver.stageDriver",
                            detail,
                            "stageDriver",
                            "PNPUTIL_STAGE_FAILED",
                            clone_string(&e),
                        ),
                    );
                    let mut m = cat("pnputil stage 失败: ", e.as_str());
                    append_str(&mut m, "\n\nEvidence: ");
                    append_str(&mut m, ev.as_str());
                    let a = finish(&s, false, m, None, Some(ev));
                    FlowStep { state: t, events, action: a }
                },
            }
        },
        Ok(out) => {
            let mut events: Vec<InstallProgressEvent> = Vec::new();
            events.push(note(&s, "driver.stageDriver", "success", owned("驱动包注册成功"), "stageDriver"));
            match extract_published_name(out.as_str()) {
                None => {
                    let t = at_stage(&s, FlowStage::Finished);
                    match s.branch {
                        InstallBranch::Package => {
                            let a = finish(
                                &s,
                                false,
                                owned("pnputil stage 成功，但无法从输出中提取 published name（oemXXX.inf）"),
                                Some(out),
                                Some(owned("无法解析 published name")),
                            );
                            FlowStep { state: t, events, action: a }
                        },
                        InstallBranch::ModernInf => {
                            let ov = chars_of(out.as_str());
                            let mut ev = owned("extract_published_name_failed output=\"");
                            if exceeds_bytes(ov.as_slice(), 200) {
                                append_chars(&mut ev, take_bytes_exec(ov.as_slice(), 200).as_slice());
                            } else {
                                append_str(&mut ev, out.as_str());
                            }
                            append_str(&mut ev, "\"");
                            let m = cat("无法从 pnputil 输出中提取 published name\n\nEvidence: ", ev.as_str());
                            let a = finish(&s, false, m, Some(out), Some(ev));
                            FlowStep { state: t, events, action: a }
                        },
                    }
                },
                Some(p) => {
                    events.push(
                        note(&s, "driver.registerDriver", "running", owned("正在注册打印机驱动"), "registerDriver"),
                    );
                    let inf = cat("C:\\Windows\\INF\\", p.as_str());
                    let t = WindowsInstall {
                        branch: s.branch,
                        name: clone_string(&s.name),
                        path: clone_string(&s.path),
                        inf_path: clone_string(&s.inf_path),
                        driver_name: clone_string(&s.driver_name),
                        dry_run: s.dry_run,
                        job_id: clone_string(&s.job_id),
                        stage: FlowStage::Registering,
                        stage_output: out,
                        published_name: p,
                        target: clone_string(&s.target),
                        port_name: clone_string(&s.port_name),
                    };
                    FlowStep {
                        state: t,
                        events,
                        action: FlowAction::RegisterDriver {
                            driver_name: clone_string(&s.driver_name),
                            published_inf_path: inf,
                            dry_run: s.dry_run,
                        },
                    }
                },
            }
        },
    }
}


/// The step after staging where pnputil's output can be read; `None`
/// where it cannot (reading it would not stay between characters).
pub fn after_stage_checked(s: WindowsInstall, staged: Result<String, String>) -> (r: Option<FlowStep>)
    requires
        s.stage == FlowStage::Staging,
    ensures
        r is None <==> (staged matches Ok(out) && !stage_output_ok(out@)),
        r matches Some(step) ==> staged_step(s, staged, step),
{
    let readable = match &staged {
        Ok(out) => stage_output_readable(out.as_str()),
        Err(_) => true,
    };
    if readable {
        Some(after_stage(s, staged))
    } else {
        None
    }
}

// ---------------------------------------------------------------------------
// After registering the driver
// ---------------------------------------------------------------------------

/// The PowerShell query for a printer of exactly the connection's name.
pub open spec fn spec_check_shared_script(conn: Seq<char>) -> Seq<char> {
    "[Console]::OutputEncoding = [System.Text.Encoding]::UTF8; $q = '"@ + ps_quote(conn)
        + "'; $printer = Get-Printer -Name $q -ErrorAction SilentlyContinue | Where-Object { $_.Name -eq $q } | Select-Object -ExpandProperty Name"@
}

pub fn check_shared_script(conn: &str) -> (r: String)
    ensures
        r@ == spec_check_shared_script(conn@),
{
    let mut r = owned("[Console]::OutputEncoding = [System.Text.Encoding]::UTF8; $q = '");
    append_chars(&mut r, ps_quote_exec(conn).as_slice());
    append_str(
        &mut r,
        "'; $printer = Get-Printer -Name $q -ErrorAction SilentlyContinue | Where-Object { $_.Name -eq $q } | Select-Object -ExpandProperty Name",
    );
    r
}

/// The PowerShell command that connects a shared printer.
pub open spec fn spec_add_shared_script(conn: Seq<char>) -> Seq<char> {
    "[Console]::OutputEncoding = [System.Text.Encoding]::UTF8; Add-Printer -ConnectionName '"@ + ps_quote(
        conn,
    ) + "' -ErrorAction Stop"@
}

pub fn add_shared_script(conn: &str) -> (r: String)
    ensures
        r@ == spec_add_shared_script(conn@),
{
    let mut r = owned("[Console]::OutputEncoding = [System.Text.Encoding]::UTF8; Add-Printer -ConnectionName '");
    append_chars(&mut r, ps_quote_exec(conn).as_slice());
    append_str(&mut r, "' -ErrorAction Stop");
    r
}

/// The step after registering the driver. A failure ends the install; a
/// success is announced and the target path read: a TCP/IP host waits for
/// the build number (a package install first announces the port), a
/// shared connection is looked for, and an unreadable path ends the
/// install. A shared connection always has two or more parts.
pub fn after_register(s: WindowsInstall, registered: Result<(), String>) -> (r: FlowStep)
    requires
        s.stage == FlowStage::Registering,
    ensures
        same_request(s, r.state),
        r.state.stage_output@ == s.stage_output@,
        r.state.published_name@ == s.published_name@,
        match registered {
            Err(e) => {
                &&& r.state.stage == FlowStage::Finished
                &&& match s.branch {
                    InstallBranch::Package => {
                        let m = "注册驱动失败: "@ + e@;
                        &&& r.events@.len() == 1
                        &&& failure_note(
                            r.events@[0],
                            s,
                            "driver.registerDriver"@,
                            m,
                            "registerDriver"@,
                            "REGISTER_DRIVER_FAILED"@,
                            e@,
                        )
                        &&& finishes(
                            r.action,
                            s,
                            false,
                            "pnputil stage 成功，但驱动注册失败\n\nPublished name: "@ + s.published_name@
                                + "\nDriver name: "@ + s.driver_name@ + "\n\n错误:\n"@ + e@,
                            Some(s.stage_output@),
                            Some(e@),
                        )
                    },
                    InstallBranch::ModernInf => {
                        let ev = "register_driver_failed error=\""@ + e@ + "\""@;
                        &&& r.events@.len() == 0
                        &&& finishes(
                            r.action,
                            s,
                            false,
                            "注册驱动失败: "@ + e@ + "\n\nEvidence: "@ + ev,
                            Some(s.stage_output@),
                            Some(ev),
                        )
                    },
                }
            },
            Ok(()) => {
                &&& r.events@.len() >= 1
                &&& plain_note(
                    r.events@[0],
                    s,
                    "driver.registerDriver"@,
                    "success"@,
                    "打印机驱动注册成功"@,
                    "registerDriver"@,
                )
                &&& match spec_detect_target_type(s.path@) {
                    Err(m) => {
                        &&& r.state.stage == FlowStage::Finished
                        &&& r.events@.len() == 1
                        &&& match s.branch {
                            InstallBranch::Package => finishes(
                                r.action,
                                s,
                                false,
                                "无法识别目标路径格式: "@ + m,
                                Some(s.stage_output@),
                                Some(m),
                            ),
                            InstallBranch::ModernInf => {
                                let ev = "detect_target_type_failed error=\""@ + m + "\""@;
                                finishes(
                                    r.action,
                                    s,
                                    false,
                                    "无法识别目标路径格式: "@ + m + "\n\nEvidence: "@ + ev,
                                    Some(s.stage_output@),
                                    Some(ev),
                                )
                            },
                        }
                    },
                    Ok((false, host)) => {
                        &&& r.state.stage == FlowStage::AwaitingBuild
                        &&& r.state.target@ == host
                        &&& r.action is QueryBuild
                        &&& match s.branch {
                            InstallBranch::Package => r.events@.len() == 2 && plain_note(
                                r.events@[1],
                                s,
                                "device.ensurePort"@,
                                "running"@,
                                "正在创建端口: "@ + host,
                                "ensurePort"@,
                            ),
                            InstallBranch::ModernInf => r.events@.len() == 1,
                        }
                    },
                    Ok((true, conn)) => {
                        &&& r.state.stage == FlowStage::CheckingShared
                        &&& r.state.target@ == conn
                        &&& r.events@.len() == 1
                        &&& r.action matches FlowAction::RunScript(c) && c@ == spec_check_shared_script(conn)
                    },
                }
            },
        },
{
    match registered {
        Err(e) => {
            let t = at_stage(&s, FlowStage::Finished);
            match s.branch {
                InstallBranch::Package => {
                    let m = cat("注册驱动失败: ", e.as_str());
                    let mut events: Vec<InstallProgressEvent> = Vec::new();
                    events.push(
                        failed_note(
                            &s,
                            "driver.registerDriver",
                            m,
                            "registerDriver",
                            "REGISTER_DRIVER_FAILED",
                            clone_string(&e),
                        ),
                    );
                    let mut msg = owned("pnputil stage 成功，但驱动注册失败\n\nPublished name: ");
                    append_str(&mut msg, s.published_name.as_str());
                    append_str(&mut msg, "\nDriver name: ");
                    append_str(&mut msg, s.driver_name.as_str());
                    append_str(&mut msg, "\n\n错误:\n");
                    append_str(&mut msg, e.as_str());
                    let a = finish(&s, false, msg, Some(clone_string(&s.stage_output)), Some(e));
                    FlowStep { state: t, events, action: a }
                },
                InstallBranch::ModernInf => {
                    let mut ev = owned("register_driver_failed error=\"");
                    append_str(&mut ev, e.as_str());
                    append_str(&mut ev, "\"");
                    let mut msg = cat("注册驱动失败: ", e.as_str());
                    append_str(&mut msg, "\n\nEvidence: ");
                    append_str(&mut msg, ev.as_str());
                    let a = finish(&s, false, msg, Some(clone_string(&s.stage_output)), Some(ev));
                    FlowStep { state: t, events: Vec::new(), action: a }
                },
            }
        },
        Ok(()) => {
            let mut events: Vec<InstallProgressEvent> = Vec::new();
            events.push(note(&s, "driver.registerDriver", "success", owned("打印机驱动注册成功"), "registerDriver"));
            match detect_target_type(s.path.as_str()) {
                Err(m) => {
                    let t = at_stage(&s, FlowStage::Finished);
                    match s.branch {
                        InstallBranch::Package => {
                            let msg = cat("无法识别目标路径格式: ", m.as_str());
                            let a = finish(&s, false, msg, Some(clone_string(&s.stage_output)), Some(m));
                            FlowStep { state: t, events, action: a }
                        },
                        InstallBranch::ModernInf => {
                            let mut ev = owned("detect_target_type_failed error=\"");
                            append_str(&mut ev, m.as_str());
                            append_str(&mut ev, "\"");
                            let mut msg = cat("无法识别目标路径格式: ", m.as_str());
                            append_str(&mut msg, "\n\nEvidence: ");
                            append_str(&mut msg, ev.as_str());
                            let a = finish(&s, false, msg, Some(clone_string(&s.stage_output)), Some(ev));
                            FlowStep { state: t, events, action: a }
                        },
                    }
                },
                Ok(TargetType::TcpIpHost { host }) => {
                    if s.branch == InstallBranch::Package {
                        let m = cat("正在创建端口: ", host.as_str());
                        events.push(note(&s, "device.ensurePort", "running", m, "ensurePort"));
                    }
                    let mut t = at_stage(&s, FlowStage::AwaitingBuild);
                    t.target = host;
                    FlowStep { state: t, events, action: FlowAction::QueryBuild }
                },
                Ok(TargetType::SharedConnection { path: conn }) => {
                    let script = check_shared_script(conn.as_str());
                    let mut t = at_stage(&s, FlowStage::CheckingShared);
                    t.target = conn;
                    FlowStep { state: t, events, action: FlowAction::RunScript(script) }
                },
            }
        },
    }
}

// ---------------------------------------------------------------------------
// The port and the queue
// ---------------------------------------------------------------------------

/// Builds of Windows before 10240 add ports the older way; an unknown
/// build counts as new.
pub open spec fn legacy_build(build: Option<u32>) -> bool {
    match build {
        Some(b) => b > 0 && b < 10240,
        None => false,
    }
}

/// With the build number known, the port for the host on 9100 is made
/// sure of (an install from a driver path announces it now).
pub fn after_build(s: WindowsInstall, build: Option<u32>) -> (r: FlowStep)
    requires
        s.stage == FlowStage::AwaitingBuild,
    ensures
        same_findings(s, r.state),
        r.state.stage == FlowStage::EnsuringPort,
        r.action matches FlowAction::EnsurePort { host: h, port_number: n, legacy: l } && h@ == s.target@
            && n == 9100 && l == legacy_build(build),
        match s.branch {
            InstallBranch::Package => r.events@.len() == 0,
            InstallBranch::ModernInf => r.events@.len() == 1 && plain_note(
                r.events@[0],
                s,
                "device.ensurePort"@,
                "running"@,
                "正在创建端口: "@ + s.target@,
                "ensurePort"@,
            ),
        },
{
    let mut events: Vec<InstallProgressEvent> = Vec::new();
    if s.branch == InstallBranch::ModernInf {
        let m = cat("正在创建端口: ", s.target.as_str());
        events.push(note(&s, "device.ensurePort", "running", m, "ensurePort"));
    }
    let b = match build {
        Some(b) => b,
        None => 0,
    };
    let legacy = b > 0 && b < 10240;
    let t = at_stage(&s, FlowStage::EnsuringPort);
    FlowStep {
        state: t,
        events,
        action: FlowAction::EnsurePort { host: clone_string(&s.target), port_number: 9100, legacy },
    }
}

/// The step after the port. Its name is announced and the queue made sure
/// of; a failure ends the install.
pub fn after_port(s: WindowsInstall, port: Result<String, String>) -> (r: FlowStep)
    requires
        s.stage == FlowStage::EnsuringPort,
    ensures
        same_request(s, r.state),
        r.state.stage_output@ == s.stage_output@,
        r.state.published_name@ == s.published_name@,
        r.state.target@ == s.target@,
        match port {
            Ok(p) => {
                &&& r.state.stage == FlowStage::EnsuringQueue
                &&& r.state.port_name@ == p@
                &&& r.events@.len() == 2
                &&& plain_note(
                    r.events@[0],
                    s,
                    "device.ensurePort"@,
                    "success"@,
                    "端口创建成功: "@ + p@,
                    "ensurePort"@,
                )
                &&& plain_note(
                    r.events@[1],
                    s,
                    "device.ensureQueue"@,
                    "running"@,
                    "正在创建打印队列: "@ + s.name@,
                    "ensureQueue"@,
                )
                &&& r.action matches FlowAction::EnsureQueue { queue_name: q, driver_name: d, port_name: n }
                    && q@ == s.name@ && d@ == s.driver_name@ && n@ == p@
            },
            Err(e) => {
                &&& r.state.stage == FlowStage::Finished
                &&& match s.branch {
                    InstallBranch::Package => {
                        &&& r.events@.len() == 1
                        &&& failure_note(
                            r.events@[0],
                            s,
                            "device.ensurePort"@,
                            "端口创建失败: "@ + e@,
                            "ensurePort"@,
                            "ENSURE_PORT_FAILED"@,
                            e@,
                        )
                        &&& finishes(r.action, s, false, "端口创建失败: "@ + e@, Some(s.stage_output@), Some(e@))
                    },
                    InstallBranch::ModernInf => {
                        let ev = "ensure_port_failed error=\""@ + e@ + "\""@;
                        &&& r.events@.len() == 0
                        &&& finishes(
                            r.action,
                            s,
                            false,
                            "端口创建失败: "@ + e@ + "\n\nEvidence: "@ + ev,
                            Some(s.stage_output@),
                            Some(ev),
                        )
                    },
                }
            },
        },
{
    match port {
        Ok(p) => {
            let mut events: Vec<InstallProgressEvent> = Vec::new();
            events.push(note(&s, "device.ensurePort", "success", cat("端口创建成功: ", p.as_str()), "ensurePort"));
            events.push(
                note(&s, "device.ensureQueue", "running", cat("正在创建打印队列: ", s.name.as_str()), "ensureQueue"),
            );
            let action = FlowAction::EnsureQueue {
                queue_name: clone_string(&s.name),
                driver_name: clone_string(&s.driver_name),
                port_name: clone_string(&p),
            };
            let mut t = at_stage(&s, FlowStage::EnsuringQueue);
            t.port_name = p;
            FlowStep { state: t, events, action }
        },
        Err(e) => {
            let t = at_stage(&s, FlowStage::Finished);
            match s.branch {
                InstallBranch::Package => {
                    let mut events: Vec<InstallProgressEvent> = Vec::new();
                    events.push(
                        failed_note(
                            &s,
                            "device.ensurePort",
                            cat("端口创建失败: ", e.as_str()),
                            "ensurePort",
                            "ENSURE_PORT_FAILED",
                            clone_string(&e),
                        ),
                    );
                    let msg = cat("端口创建失败: ", e.as_str());
                    let a = finish(&s, false, msg, Some(clone_string(&s.stage_output)), Some(e));
                    FlowStep { state: t, events, action: a }
                },
                InstallBranch::ModernInf => {
                    let mut ev = owned("ensure_port_failed error=\"");
                    append_str(&mut ev, e.as_str());
                    append_str(&mut ev, "\"");
                    let mut msg = cat("端口创建失败: ", e.as_str());
                    append_str(&mut msg, "\n\nEvidence: ");
                    append_str(&mut msg, ev.as_str());
                    let a = finish(&s, false, msg, Some(clone_string(&s.stage_output)), Some(ev));
                    FlowStep { state: t, events: Vec::new(), action: a }
                },
            }
        },
    }
}

/// The success message of a TCP/IP install.
pub open spec fn queue_done_message(s: WindowsInstall) -> Seq<char> {
    route_title(s.branch) + " 安装完成\n\nPublished name: "@ + s.published_name@ + "\nDriver name: "@
        + s.driver_name@ + "\nPort name: "@ + s.port_name@ + "\nQueue name: "@ + s.name@
        + "\n\npnputil 输出:\n"@ + s.stage_output@
}

/// The step after the queue: success is announced with the final check
/// and ends the install; a failure ends it too.
pub fn after_queue(s: WindowsInstall, queue: Result<(), String>) -> (r: FlowStep)
    requires
        s.stage == FlowStage::EnsuringQueue,
    ensures
        same_findings(s, r.state),
        r.state.stage == FlowStage::Finished,
        match queue {
            Ok(()) => {
                &&& r.events@.len() == 2
                &&& plain_note(
                    r.events@[0],
                    s,
                    "device.ensureQueue"@,
                    "success"@,
                    "打印队列创建成功"@,
                    "ensureQueue"@,
                )
                &&& final_note(r.events@[1], s)
                &&& finishes(r.action, s, true, queue_done_message(s), Some(s.stage_output@), None)
            },
            Err(e) => match s.branch {
                InstallBranch::Package => {
                    &&& r.events@.len() == 1
                    &&& failure_note(
                        r.events@[0],
                        s,
                        "device.ensureQueue"@,
                        "队列创建失败: "@ + e@,
                        "ensureQueue"@,
                        "ENSURE_QUEUE_FAILED"@,
                        e@,
                    )
                    &&& finishes(r.action, s, false, "队列创建失败: "@ + e@, Some(s.stage_output@), Some(e@))
                },
                InstallBranch::ModernInf => {
                    let ev = "ensure_queue_failed error=\""@ + e@ + "\""@;
                    &&& r.events@.len() == 0
                    &&& finishes(
                        r.action,
                        s,
                        false,
                        "队列创建失败: "@ + e@ + "\n\nEvidence: "@ + ev,
                        Some(s.stage_output@),
                        Some(ev),
                    )
                },
            },
        },
{
    let t = at_stage(&s, FlowStage::Finished);
    match queue {
        Ok(()) => {
            let mut events: Vec<InstallProgressEvent> = Vec::new();
            events.push(note(&s, "device.ensureQueue", "success", owned("打印队列创建成功"), "ensureQueue"));
            events.push(done_note(&s));
            let mut m = owned(title_of(s.branch));
            append_str(&mut m, " 安装完成\n\nPublished name: ");
            append_str(&mut m, s.published_name.as_str());
            append_str(&mut m, "\nDriver name: ");
            append_str(&mut m, s.driver_name.as_str());
            append_str(&mut m, "\nPort name: ");
            append_str(&mut m, s.port_name.as_str());
            append_str(&mut m, "\nQueue name: ");
            append_str(&mut m, s.name.as_str());
            append_str(&mut m, "\n\npnputil 输出:\n");
            append_str(&mut m, s.stage_output.as_str());
            let a = finish(&s, true, m, Some(clone_string(&s.stage_output)), None);
            FlowStep { state: t, events, action: a }
        },
        Err(e) => match s.branch {
            InstallBranch::Package => {
                let mut events: Vec<InstallProgressEvent> = Vec::new();
                events.push(
                    failed_note(
                        &s,
                        "device.ensureQueue",
                        cat("队列创建失败: ", e.as_str()),
                        "ensureQueue",
                        "ENSURE_QUEUE_FAILED",
                        clone_string(&e),
                    ),
                );
                let msg = cat("队列创建失败: ", e.as_str());
                let a = finish(&s, false, msg, Some(clone_string(&s.stage_output)), Some(e));
                FlowStep { state: t, events, action: a }
            },
            InstallBranch::ModernInf => {
                let mut ev = owned("ensure_queue_failed error=\"");
                append_str(&mut ev, e.as_str());
                append_str(&mut ev, "\"");
                let mut msg = cat("队列创建失败: ", e.as_str());
                append_str(&mut msg, "\n\nEvidence: ");
                append_str(&mut msg, ev.as_str());
                let a = finish(&s, false, msg, Some(clone_string(&s.stage_output)), Some(ev));
                FlowStep { state: t, events: Vec::new(), action: a }
            },
        },
    }
}

// ---------------------------------------------------------------------------
// A shared connection
// ---------------------------------------------------------------------------

/// The success message of a shared connection (`existing` when it was
/// there already).
pub open spec fn shared_done_message(s: WindowsInstall, existing: bool) -> Seq<char> {
    route_title(s.branch) + (if existing {
        " 安装完成（共享连接已存在）\n\nPublished name: "@
    } else {
        " 安装完成\n\nPublished name: "@
    }) + s.published_name@ + "\nDriver name: "@ + s.driver_name@ + "\nConnection: "@ + s.target@
        + "\n\npnputil 输出:\n"@ + s.stage_output@
}

fn shared_done(s: &WindowsInstall, existing: bool) -> (m: String)
    ensures
        m@ == shared_done_message(*s, existing),
{
    let mut m = owned(title_of(s.branch));
    if existing {
        append_str(&mut m, " 安装完成（共享连接已存在）\n\nPublished name: ");
    } else {
        append_str(&mut m, " 安装完成\n\nPublished name: ");
    }
    append_str(&mut m, s.published_name.as_str());
    append_str(&mut m, "\nDriver name: ");
    append_str(&mut m, s.driver_name.as_str());
    append_str(&mut m, "\nConnection: ");
    append_str(&mut m, s.target.as_str());
    append_str(&mut m, "\n\npnputil 输出:\n");
    append_str(&mut m, s.stage_output.as_str());
    m
}

/// Whether the check found a printer of exactly the connection's name.
pub open spec fn shared_exists(check: Result<Seq<u8>, Seq<char>>, conn: Seq<char>) -> bool {
    match check {
        Ok(out) => trim(spec_decode_windows_string(out)).len() > 0 && trim(spec_decode_windows_string(out))
            == conn,
        Err(_) => false,
    }
}

/// The step after looking for the connection: one that is there ends the
/// install with success; otherwise it is added.
pub fn after_shared_check(s: WindowsInstall, check: Result<Vec<u8>, String>) -> (r: FlowStep)
    requires
        s.stage == FlowStage::CheckingShared,
    ensures
        same_findings(s, r.state),
        r.events@.len() == 0,
        ({
            let found = shared_exists(
                match check {
                    Ok(v) => Ok(v@),
                    Err(e) => Err(e@),
                },
                s.target@,
            );
            if found {
                &&& r.state.stage == FlowStage::Finished
                &&& finishes(r.action, s, true, shared_done_message(s, true), Some(s.stage_output@), None)
            } else {
                &&& r.state.stage == FlowStage::AddingShared
                &&& r.action matches FlowAction::RunScript(c) && c@ == spec_add_shared_script(s.target@)
            }
        }),
{
    let found = match &check {
        Ok(out) => {
            let t = trim_chars(chars_of(decode_windows_string(out.as_slice()).as_str()).as_slice());
            t.len() > 0 && str_eq(crate::text::string_of(t.as_slice()).as_str(), s.target.as_str())
        },
        Err(_) => false,
    };
    if found {
        let t = at_stage(&s, FlowStage::Finished);
        let a = finish(&s, true, shared_done(&s, true), Some(clone_string(&s.stage_output)), None);
        FlowStep { state: t, events: Vec::new(), action: a }
    } else {
        let t = at_stage(&s, FlowStage::AddingShared);
        FlowStep { state: t, events: Vec::new(), action: FlowAction::RunScript(add_shared_script(s.target.as_str())) }
    }
}

/// The evidence of a connection that could not be added.
pub open spec fn add_shared_evidence(s: WindowsInstall, run: PsRun) -> Seq<char> {
    let so = spec_decode_windows_string(run.stdout@);
    let se = spec_decode_windows_string(run.stderr@);
    match s.branch {
        InstallBranch::Package => "add_shared_failed stdout=\""@ + so + "\" stderr=\""@ + se
            + "\" exit_code="@ + debug_opt_i32(run.exit_code) + " connection_name=\""@ + s.target@ + "\""@,
        InstallBranch::ModernInf => "add_shared_failed exit_code="@ + debug_opt_i32(run.exit_code)
            + " stdout=\""@ + so + "\" stderr=\""@ + se + "\""@,
    }
}

/// The connection's name in a package install's failure messages.
pub open spec fn connection_line(s: WindowsInstall) -> Seq<char> {
    match s.branch {
        InstallBranch::Package => "\n\n连接名称: "@ + s.target@,
        InstallBranch::ModernInf => Seq::<char>::empty(),
    }
}

/// The evidence of a connection command that could not be run.
pub open spec fn add_command_evidence(s: WindowsInstall, e: Seq<char>) -> Seq<char> {
    match s.branch {
        InstallBranch::Package => "add_shared_command_failed error=\""@ + e + "\" connection_name=\""@
            + s.target@ + "\""@,
        InstallBranch::ModernInf => "add_shared_command_failed error=\""@ + e + "\""@,
    }
}

fn connection_line_exec(s: &WindowsInstall) -> (r: String)
    ensures
        r@ == connection_line(*s),
{
    match s.branch {
        InstallBranch::Package => cat("\n\n连接名称: ", s.target.as_str()),
        InstallBranch::ModernInf => String::new(),
    }
}

/// The step after adding the connection: exit code 0 ends the install with
/// success (a package install announces the final check); otherwise it
/// fails with the error output.
pub fn after_shared_add(s: WindowsInstall, added: Result<PsRun, String>) -> (r: FlowStep)
    requires
        s.stage == FlowStage::AddingShared,
    ensures
        same_findings(s, r.state),
        r.state.stage == FlowStage::Finished,
        match added {
            Ok(run) => if run.exit_code == Some(0i32) {
                &&& finishes(r.action, s, true, shared_done_message(s, false), Some(s.stage_output@), None)
                &&& match s.branch {
                    InstallBranch::Package => r.events@.len() == 1 && final_note(r.events@[0], s),
                    InstallBranch::ModernInf => r.events@.len() == 0,
                }
            } else {
                let ev = add_shared_evidence(s, run);
                &&& r.events@.len() == 0
                &&& finishes(
                    r.action,
                    s,
                    false,
                    "共享连接创建失败: "@ + spec_decode_windows_string(run.stderr@) + connection_line(s)
                        + "\n\nEvidence: "@ + ev,
                    Some(s.stage_output@),
                    Some(ev),
                )
            },
            Err(e) => {
                let ev = add_command_evidence(s, e@);
                &&& r.events@.len() == 0
                &&& finishes(
                    r.action,
                    s,
                    false,
                    "共享连接创建命令失败: "@ + e@ + connection_line(s) + "\n\nEvidence: "@ + ev,
                    Some(s.stage_output@),
                    Some(ev),
                )
            },
        },
{
    let t = at_stage(&s, FlowStage::Finished);
    match added {
        Ok(run) => {
            if run.exit_code == Some(0i32) {
                let mut events: Vec<InstallProgressEvent> = Vec::new();
                if s.branch == InstallBranch::Package {
                    events.push(done_note(&s));
                }
                let a = finish(&s, true, shared_done(&s, false), Some(clone_string(&s.stage_output)), None);
                FlowStep { state: t, events, action: a }
            } else {
                let so = decode_windows_string(run.stdout.as_slice());
                let se = decode_windows_string(run.stderr.as_slice());
                let code = debug_opt_i32_exec(run.exit_code);
                let mut ev = String::new();
                match s.branch {
                    InstallBranch::Package => {
                        append_str(&mut ev, "add_shared_failed stdout=\"");
                        append_str(&mut ev, so.as_str());
                        append_str(&mut ev, "\" stderr=\"");
                        append_str(&mut ev, se.as_str());
                        append_str(&mut ev, "\" exit_code=");
                        append_str(&mut ev, code.as_str());
                        append_str(&mut ev, " connection_name=\"");
                        append_str(&mut ev, s.target.as_str());
                        append_str(&mut ev, "\"");
                    },
                    InstallBranch::ModernInf => {
                        append_str(&mut ev, "add_shared_failed exit_code=");
                        append_str(&mut ev, code.as_str());
                        append_str(&mut ev, " stdout=\"");
                        append_str(&mut ev, so.as_str());
                        append_str(&mut ev, "\" stderr=\"");
                        append_str(&mut ev, se.as_str());
                        append_str(&mut ev, "\"");
                    },
                }
                let mut m = cat("共享连接创建失败: ", se.as_str());
                append_str(&mut m, connection_line_exec(&s).as_str());
                append_str(&mut m, "\n\nEvidence: ");
                append_str(&mut m, ev.as_str());
                let a = finish(&s, false, m, Some(clone_string(&s.stage_output)), Some(ev));
                FlowStep { state: t, events: Vec::new(), action: a }
            }
        },
        Err(e) => {
            let mut ev = owned("add_shared_command_failed error=\"");
            append_str(&mut ev, e.as_str());
            if s.branch == InstallBranch::Package {
                append_str(&mut ev, "\" connection_name=\"");
                append_str(&mut ev, s.target.as_str());
                append_str(&mut ev, "\"");
            } else {
                append_str(&mut ev, "\"");
            }
            let mut m = cat("共享连接创建命令失败: ", e.as_str());
            append_str(&mut m, connection_line_exec(&s).as_str());
            append_str(&mut m, "\n\nEvidence: ");
            append_str(&mut m, ev.as_str());
            let a = finish(&s, false, m, Some(clone_string(&s.stage_output)), Some(ev));
            FlowStep { state: t, events: Vec::new(), action: a }
        },
    }
}

} // verus!
