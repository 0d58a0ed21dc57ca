use vstd::prelude::*;
use crate::config::{opt_view, clone_string};
use crate::events::{
    InstallModeRegistry, InstallProgressEvent, InstallResult, StepReporter, from_reporter, error_is,
    opt_meta_view,
};
use crate::ipp::SystemPrinter;
use crate::macos_flow::{
    build_meta, spec_build_meta, find_reusable_queue, spec_reusable_queue, install_init_message,
    spec_install_init_message, probe_failure_message, spec_probe_failure_message,
    queue_failure_message, spec_queue_failure_message, mac_install_result, StepError, VerifyStatus,
};
use crate::macos_install::{
    DeviceTarget, parse_device_target, spec_parse_device_target, build_queue_name,
    spec_build_queue_name, sanitize_queue_name, spec_sanitize_queue_name,
};
use crate::text::{owned, append_str, chars_of, string_of, lowercase, to_lowercase};

verus! {

// ---------------------------------------------------------------------------
// Installing a network printer on macOS, step by step
// ---------------------------------------------------------------------------

/// How long to wait before checking the queue again, in milliseconds.
pub const FINAL_VERIFY_RETRY_MS: u64 = 500;

/// Where a macOS install stands: what it waits for.
#[derive(PartialEq, Eq, Structural, Clone, Copy)]
pub enum MacStage {
    Listing,
    Probing,
    EnsuringQueue,
    Verifying,
    Finished,
}

/// A macOS install in progress.
pub struct MacInstall {
    pub name: String,
    pub path: String,
    /// The requested install mode, lower-cased (`auto` when none).
    pub requested_mode: String,
    pub dry_run: bool,
    pub job_id: String,
    pub target: DeviceTarget,
    pub queue_name: String,
    /// The reporter of the job's events (set once the queue name is known).
    pub reporter: StepReporter,
    pub stage: MacStage,
}

/// What the caller is to do next.
pub enum MacAction {
    /// List the printers CUPS knows, with their device URIs.
    ListPrinters,
    /// Try to reach the device.
    Probe { host: String, port: u16 },
    /// Create or update the queue with lpadmin.
    EnsureQueue { queue_name: String, uri: String, display_name: String },
    /// Check the queue once, after `delay_ms`; `restart_clock` starts the
    /// time limit of the check.
    VerifyQueue { queue_name: String, delay_ms: u64, restart_clock: bool },
    /// The install is over.
    Finish(InstallResult),
}

/// The next state, the progress events to send first, and the action.
pub struct MacStep {
    pub state: MacInstall,
    pub events: Vec<InstallProgressEvent>,
    pub action: MacAction,
}

/// The requested mode as the install reports it.
pub open spec fn requested_mode_of(install_mode: Option<String>) -> Seq<char> {
    lowercase(
        match install_mode {
            Some(m) => m@,
            None => "auto"@,
        },
    )
}

/// An event of the reporter with no counts and no error.
pub open spec fn mac_note(
    e: InstallProgressEvent,
    r: StepReporter,
    step: Seq<char>,
    state: Seq<char>,
    message: Seq<char>,
) -> bool {
    &&& from_reporter(e, r, 0)
    &&& e.step_id@ == step
    &&& e.state@ == state
    &&& e.message@ == message
    &&& e.progress is None
    &&& e.error is None
}

/// A failed event of the reporter with its error.
pub open spec fn mac_fail(
    e: InstallProgressEvent,
    r: StepReporter,
    step: Seq<char>,
    code: Seq<char>,
    message: Seq<char>,
    detail: Seq<char>,
) -> bool {
    &&& from_reporter(e, r, 0)
    &&& e.step_id@ == step
    &&& e.state@ == "failed"@
    &&& e.message@ == message
    &&& e.progress is None
    &&& error_is(e.error, code, detail)
}

/// The three events that end a failed install, from `start`: the step's
/// failure, `job.failed` and `job.done`.
pub open spec fn mac_failure_events(
    ev: Seq<InstallProgressEvent>,
    start: int,
    r: StepReporter,
    step: Seq<char>,
    code: Seq<char>,
    step_message: Seq<char>,
    detail: Seq<char>,
    job_message: Seq<char>,
) -> bool {
    &&& ev.len() == start + 3
    &&& mac_fail(ev[start], r, step, code, step_message, detail)
    &&& mac_fail(ev[start + 1], r, "job.failed"@, code, job_message, detail)
    &&& mac_note(ev[start + 2], r, "job.done"@, "failed"@, job_message)
}

/// The install ends with this result.
pub open spec fn mac_finishes(a: MacAction, s: MacInstall, success: bool, message: Seq<char>) -> bool {
    a matches MacAction::Finish(r) && {
        &&& r.success == success
        &&& r.message@ == message
        &&& opt_view(r.method) == Some("driverless"@)
        &&& r.stdout is None
        &&& r.stderr is None
        &&& r.effective_dry_run == s.dry_run
        &&& r.job_id@ == s.job_id@
    }
}

/// The request stays what it was.
pub open spec fn same_mac_request(a: MacInstall, b: MacInstall) -> bool {
    &&& a.name@ == b.name@
    &&& a.path@ == b.path@
    &&& a.requested_mode@ == b.requested_mode@
    &&& a.dry_run == b.dry_run
    &&& a.job_id@ == b.job_id@
    &&& a.target.uri@ == b.target.uri@
    &&& a.target.host@ == b.target.host@
    &&& a.target.port == b.target.port
}

/// Everything found so far stays too.
pub open spec fn same_mac_findings(a: MacInstall, b: MacInstall) -> bool {
    &&& same_mac_request(a, b)
    &&& a.queue_name@ == b.queue_name@
    &&& a.reporter == b.reporter
}

fn at_stage(s: MacInstall, stage: MacStage) -> (t: MacInstall)
    ensures
        same_mac_findings(s, t),
        t.stage == stage,
{
    MacInstall { stage, ..s }
}

fn finish(s: &MacInstall, success: bool, message: String) -> (a: MacAction)
    ensures
        mac_finishes(a, *s, success, message@),
{
    MacAction::Finish(mac_install_result(success, message, s.dry_run, clone_string(&s.job_id)))
}

fn push_failure(
    events: &mut Vec<InstallProgressEvent>,
    r: &StepReporter,
    step: &str,
    code: &str,
    step_message: &str,
    detail: &str,
    job_message: &str,
)
    ensures
        mac_failure_events(final(events)@, old(events)@.len() as int, *r, step@, code@, step_message@, detail@, job_message@),
        final(events)@.subrange(0, old(events)@.len() as int) == old(events)@,
{
    let ghost n = events@.len();
    events.push(r.emit_step_fail(step, code, step_message, Some(detail), 0));
    events.push(r.emit_job_failed(code, job_message, Some(detail), 0));
    events.push(r.emit_job_done(false, Some(job_message), 0));
    assert(events@.subrange(0, n as int) =~= old(events)@);
}

// ---------------------------------------------------------------------------
// Starting
// ---------------------------------------------------------------------------

/// Starts an install: the device address is read from the path; an
/// address that cannot be read ends the install at once (its events carry
/// the queue name made of the printer name); otherwise CUPS is asked for
/// its printers.
pub fn start_mac_install(
    registry: &InstallModeRegistry,
    name: &str,
    path: &str,
    install_mode: Option<String>,
    dry_run: bool,
    job_id: &str,
    now_ms: i64,
) -> (r: MacStep)
    ensures
        r.state.name@ == name@,
        r.state.path@ == path@,
        r.state.requested_mode@ == requested_mode_of(install_mode),
        r.state.dry_run == dry_run,
        r.state.job_id@ == job_id@,
        match spec_parse_device_target(path@, name@) {
            Err(err) => {
                let rep = r.state.reporter;
                let req = requested_mode_of(install_mode);
                &&& r.state.stage == MacStage::Finished
                &&& rep.job_id@ == job_id@
                &&& rep.printer_name@ == name@
                &&& rep.install_mode@ == registry.spec_resolve(job_id@, Some("driverless"@))
                &&& opt_meta_view(rep.default_meta) == Some(
                    spec_build_meta(spec_sanitize_queue_name(name@, now_ms), path@, None, req, "driverless"@),
                )
                &&& mac_note(r.events@[0], rep, "job.init"@, "running"@, spec_install_init_message(req))
                &&& mac_note(r.events@[1], rep, "device.probe"@, "running"@, "检测打印机可用性"@)
                &&& mac_failure_events(
                    r.events@,
                    2,
                    rep,
                    "device.probe"@,
                    "E_INVALID_URI"@,
                    "设备地址无效"@,
                    err,
                    "设备探测失败"@,
                )
                &&& mac_finishes(r.action, r.state, false, "设备探测失败"@)
            },
            Ok((uri, host, port)) => {
                &&& r.state.stage == MacStage::Listing
                &&& r.state.target.uri@ == uri
                &&& r.state.target.host@ == host
                &&& r.state.target.port == port
                &&& r.events@.len() == 0
                &&& r.action is ListPrinters
            },
        },
{
    let requested = match &install_mode {
        Some(m) => string_of(to_lowercase(chars_of(m.as_str()).as_slice()).as_slice()),
        None => string_of(to_lowercase(chars_of("auto").as_slice()).as_slice()),
    };
    match parse_device_target(path, name) {
        Err(err) => {
            let base = sanitize_queue_name(name, now_ms);
            let meta = build_meta(base.as_str(), path, None, requested.as_str(), "driverless");
            let rep = StepReporter::new(
                registry,
                owned(job_id),
                owned(name),
                Some(owned("driverless")),
                Some(meta),
            );
            let init = install_init_message(requested.as_str());
            let mut events: Vec<InstallProgressEvent> = Vec::new();
            events.push(rep.emit_job_init(init.as_str(), 0));
            events.push(rep.emit_step_running("device.probe", "检测打印机可用性", None, 0));
            push_failure(&mut events, &rep, "device.probe", "E_INVALID_URI", "设备地址无效", err.as_str(), "设备探测失败");
            assert(events@[0] == events@.subrange(0, 2)[0]);
            assert(events@[1] == events@.subrange(0, 2)[1]);
            let s = MacInstall {
                name: owned(name),
                path: owned(path),
                requested_mode: requested,
                dry_run,
                job_id: owned(job_id),
                target: DeviceTarget { uri: String::new(), host: String::new(), port: 0 },
                queue_name: base,
                reporter: rep,
                stage: MacStage::Finished,
            };
            let a = finish(&s, false, owned("设备探测失败"));
            MacStep { state: s, events, action: a }
        },
        Ok(target) => {
            let rep = StepReporter {
                job_id: owned(job_id),
                printer_name: owned(name),
                install_mode: String::new(),
                default_meta: None,
            };
            let s = MacInstall {
                name: owned(name),
                path: owned(path),
                requested_mode: requested,
                dry_run,
                job_id: owned(job_id),
                target,
                queue_name: String::new(),
                reporter: rep,
                stage: MacStage::Listing,
            };
            MacStep { state: s, events: Vec::new(), action: MacAction::ListPrinters }
        },
    }
}

// ---------------------------------------------------------------------------
// After listing the printers
// ---------------------------------------------------------------------------

/// The queue name of the install: that of a printer already using the
/// device URI (when the list could be had), else a new one.
pub open spec fn chosen_queue(s: MacInstall, listed: Result<Seq<SystemPrinter>, Seq<char>>) -> Seq<char> {
    let reused = match listed {
        Ok(p) => spec_reusable_queue(p, s.target.uri@),
        Err(_) => None,
    };
    match reused {
        Some(q) => q,
        None => spec_build_queue_name(s.name@, s.target.uri@),
    }
}

/// With the printers listed, the queue name is chosen, the job announced
/// and the device probe begun. A dry run goes through every step at once
/// and succeeds; otherwise the device is probed.
pub fn after_listing(registry: &InstallModeRegistry, s: MacInstall, listed: Result<Vec<SystemPrinter>, String>) -> (r:
    MacStep)
    requires
        s.stage == MacStage::Listing,
    ensures
        same_mac_request(s, r.state),
        ({
            let q = chosen_queue(
                s,
                match listed {
                    Ok(p) => Ok(p@),
                    Err(e) => Err(e@),
                },
            );
            let rep = r.state.reporter;
            &&& r.state.queue_name@ == q
            &&& rep.job_id@ == s.job_id@
            &&& rep.printer_name@ == s.name@
            &&& rep.install_mode@ == registry.spec_resolve(s.job_id@, Some("driverless"@))
            &&& opt_meta_view(rep.default_meta) == Some(
                spec_build_meta(q, s.target.host@, Some(s.target.uri@), s.requested_mode@, "driverless"@),
            )
            &&& mac_note(r.events@[0], rep, "job.init"@, "running"@, spec_install_init_message(s.requested_mode@))
            &&& mac_note(r.events@[1], rep, "device.probe"@, "running"@, "检测打印机可用性"@)
            &&& if s.dry_run {
                &&& r.state.stage == MacStage::Finished
                &&& r.events@.len() == 8
                &&& mac_note(r.events@[2], rep, "device.probe"@, "success"@, "探测成功，使用 URI: "@ + s.target.uri@)
                &&& mac_note(r.events@[3], rep, "device.ensureQueue"@, "running"@, "正在创建打印队列 (需要管理员权限)"@)
                &&& mac_note(r.events@[4], rep, "device.ensureQueue"@, "success"@, "队列已创建/更新："@ + q)
                &&& mac_note(r.events@[5], rep, "device.finalVerify"@, "running"@, "正在验证队列可用性"@)
                &&& mac_note(r.events@[6], rep, "device.finalVerify"@, "success"@, "队列验证通过"@)
                &&& mac_note(r.events@[7], rep, "job.done"@, "success"@, "安装完成"@)
                &&& mac_finishes(r.action, s, true, "安装完成"@)
            } else {
                &&& r.state.stage == MacStage::Probing
                &&& r.events@.len() == 2
                &&& r.action matches MacAction::Probe { host: h, port: p } && h@ == s.target.host@ && p
                    == s.target.port
            }
        }),
{
    let reused = match &listed {
        Ok(p) => find_reusable_queue(p, s.target.uri.as_str()),
        Err(_) => None,
    };
    let q = match reused {
        Some(x) => x,
        None => build_queue_name(s.name.as_str(), s.target.uri.as_str()),
    };
    let meta = build_meta(
        q.as_str(),
        s.target.host.as_str(),
        Some(s.target.uri.as_str()),
        s.requested_mode.as_str(),
        "driverless",
    );
    let rep = StepReporter::new(
        registry,
        clone_string(&s.job_id),
        clone_string(&s.name),
        Some(owned("driverless")),
        Some(meta),
    );
    let init = install_init_message(s.requested_mode.as_str());
    let mut events: Vec<InstallProgressEvent> = Vec::new();
    events.push(rep.emit_job_init(init.as_str(), 0));
    events.push(rep.emit_step_running("device.probe", "检测打印机可用性", None, 0));
    if s.dry_run {
        let mut probed = owned("探测成功，使用 URI: ");
        append_str(&mut probed, s.target.uri.as_str());
        events.push(rep.emit_step_success("device.probe", Some(probed.as_str()), 0));
        events.push(rep.emit_step_running("device.ensureQueue", "正在创建打印队列 (需要管理员权限)", None, 0));
        let mut ensured = owned("队列已创建/更新：");
        append_str(&mut ensured, q.as_str());
        events.push(rep.emit_step_success("device.ensureQueue", Some(ensured.as_str()), 0));
        events.push(rep.emit_step_running("device.finalVerify", "正在验证队列可用性", None, 0));
        events.push(rep.emit_step_success("device.finalVerify", Some("队列验证通过"), 0));
        events.push(rep.emit_job_done(true, Some("安装完成"), 0));
        let a = finish(&s, true, owned("安装完成"));
        let t = MacInstall { queue_name: q, reporter: rep, stage: MacStage::Finished, ..s };
        MacStep { state: t, events, action: a }
    } else {
        let a = MacAction::Probe { host: clone_string(&s.target.host), port: s.target.port };
        let t = MacInstall { queue_name: q, reporter: rep, stage: MacStage::Probing, ..s };
        MacStep { state: t, events, action: a }
    }
}

// ---------------------------------------------------------------------------
// The probe, the queue and the final check
// ---------------------------------------------------------------------------

/// After the probe: an unreachable device ends the install; otherwise the
/// queue is created.
pub fn after_probe(s: MacInstall, probed: Result<(), String>) -> (r: MacStep)
    requires
        s.stage == MacStage::Probing,
    ensures
        same_mac_findings(s, r.state),
        match probed {
            Err(err) => {
                &&& r.state.stage == MacStage::Finished
                &&& mac_fail(
                    r.events@[0],
                    s.reporter,
                    "device.probe"@,
                    "E_PROBE_FAILED"@,
                    spec_probe_failure_message(s.target.host@, s.target.port, err@),
                    err@,
                )
                &&& mac_fail(r.events@[1], s.reporter, "job.failed"@, "E_PROBE_FAILED"@, "探测失败"@, err@)
                &&& mac_note(r.events@[2], s.reporter, "job.done"@, "failed"@, "探测失败"@)
                &&& r.events@.len() == 3
                &&& mac_finishes(r.action, s, false, "设备探测失败"@)
            },
            Ok(()) => {
                &&& r.state.stage == MacStage::EnsuringQueue
                &&& r.events@.len() == 2
                &&& mac_note(r.events@[0], s.reporter, "device.probe"@, "success"@, "探测成功，使用 URI: "@ + s.target.uri@)
                &&& mac_note(r.events@[1], s.reporter, "device.ensureQueue"@, "running"@, "正在创建打印队列 (需要管理员权限)"@)
                &&& r.action matches MacAction::EnsureQueue { queue_name: q, uri: u, display_name: d } && q@
                    == s.queue_name@ && u@ == s.target.uri@ && d@ == s.name@
            },
        },
{
    let mut events: Vec<InstallProgressEvent> = Vec::new();
    match probed {
        Err(err) => {
            let m = probe_failure_message(s.target.host.as_str(), s.target.port, err.as_str());
            events.push(s.reporter.emit_step_fail("device.probe", "E_PROBE_FAILED", m.as_str(), Some(err.as_str()), 0));
            events.push(s.reporter.emit_job_failed("E_PROBE_FAILED", "探测失败", Some(err.as_str()), 0));
            events.push(s.reporter.emit_job_done(false, Some("探测失败"), 0));
            let a = finish(&s, false, owned("设备探测失败"));
            MacStep { state: at_stage(s, MacStage::Finished), events, action: a }
        },
        Ok(()) => {
            let mut probed_msg = owned("探测成功，使用 URI: ");
            append_str(&mut probed_msg, s.target.uri.as_str());
            events.push(s.reporter.emit_step_success("device.probe", Some(probed_msg.as_str()), 0));
            events.push(s.reporter.emit_step_running("device.ensureQueue", "正在创建打印队列 (需要管理员权限)", None, 0));
            let a = MacAction::EnsureQueue {
                queue_name: clone_string(&s.queue_name),
                uri: clone_string(&s.target.uri),
                display_name: clone_string(&s.name),
            };
            MacStep { state: at_stage(s, MacStage::EnsuringQueue), events, action: a }
        },
    }
}

/// After lpadmin: a failure ends the install with its code; otherwise the
/// queue is checked.
pub fn after_ensure(s: MacInstall, ensured: Result<(), StepError>) -> (r: MacStep)
    requires
        s.stage == MacStage::EnsuringQueue,
    ensures
        same_mac_findings(s, r.state),
        match ensured {
            Err(e) => {
                let m = spec_queue_failure_message(e.code@);
                &&& r.state.stage == MacStage::Finished
                &&& mac_failure_events(r.events@, 0, s.reporter, "device.ensureQueue"@, e.code@, m, e.detail@, m)
                &&& mac_finishes(r.action, s, false, m)
            },
            Ok(()) => {
                &&& r.state.stage == MacStage::Verifying
                &&& r.events@.len() == 2
                &&& mac_note(r.events@[0], s.reporter, "device.ensureQueue"@, "success"@, "队列已创建/更新："@ + s.queue_name@)
                &&& mac_note(r.events@[1], s.reporter, "device.finalVerify"@, "running"@, "正在验证队列可用性"@)
                &&& r.action matches MacAction::VerifyQueue { queue_name: q, delay_ms: d, restart_clock: c } && q@
                    == s.queue_name@ && d == 0 && c
            },
        },
{
    let mut events: Vec<InstallProgressEvent> = Vec::new();
    match ensured {
        Err(e) => {
            let m = queue_failure_message(e.code.as_str());
            push_failure(&mut events, &s.reporter, "device.ensureQueue", e.code.as_str(), m.as_str(), e.detail.as_str(), m.as_str());
            let a = finish(&s, false, m);
            MacStep { state: at_stage(s, MacStage::Finished), events, action: a }
        },
        Ok(()) => {
            let mut done = owned("队列已创建/更新：");
            append_str(&mut done, s.queue_name.as_str());
            events.push(s.reporter.emit_step_success("device.ensureQueue", Some(done.as_str()), 0));
            events.push(s.reporter.emit_step_running("device.finalVerify", "正在验证队列可用性", None, 0));
            let a = MacAction::VerifyQueue { queue_name: clone_string(&s.queue_name), delay_ms: 0, restart_clock: true };
            MacStep { state: at_stage(s, MacStage::Verifying), events, action: a }
        },
    }
}

/// After one check of the queue: a queue that is there ends the install
/// with success; one not found is checked again after a pause until the
/// time limit has passed; a check that failed, or the limit passed, ends
/// the install with `队列校验失败`.
pub fn after_verify(s: MacInstall, status: VerifyStatus, deadline_passed: bool) -> (r: MacStep)
    requires
        s.stage == MacStage::Verifying,
    ensures
        same_mac_findings(s, r.state),
        match status {
            VerifyStatus::Exists(_) => {
                &&& r.state.stage == MacStage::Finished
                &&& r.events@.len() == 2
                &&& mac_note(r.events@[0], s.reporter, "device.finalVerify"@, "success"@, "队列验证通过"@)
                &&& mac_note(r.events@[1], s.reporter, "job.done"@, "success"@, "安装完成"@)
                &&& mac_finishes(r.action, s, true, "安装完成"@)
            },
            VerifyStatus::NotFound(d) => if deadline_passed {
                &&& r.state.stage == MacStage::Finished
                &&& mac_failure_events(r.events@, 0, s.reporter, "device.finalVerify"@, "E_VERIFY_NOT_FOUND"@, "队列校验失败"@, d@, "队列校验失败"@)
                &&& mac_finishes(r.action, s, false, "队列校验失败"@)
            } else {
                &&& r.state.stage == MacStage::Verifying
                &&& r.events@.len() == 0
                &&& r.action matches MacAction::VerifyQueue { queue_name: q, delay_ms: ms, restart_clock: c }
                    && q@ == s.queue_name@ && ms == FINAL_VERIFY_RETRY_MS && !c
            },
            VerifyStatus::Error(err) => {
                &&& r.state.stage == MacStage::Finished
                &&& mac_failure_events(r.events@, 0, s.reporter, "device.finalVerify"@, "E_VERIFY_CMD_FAILED"@, "队列校验失败"@, err.detail@, "队列校验失败"@)
                &&& mac_finishes(r.action, s, false, "队列校验失败"@)
            },
        },
{
    let mut events: Vec<InstallProgressEvent> = Vec::new();
    match status {
        VerifyStatus::Exists(_) => {
            events.push(s.reporter.emit_step_success("device.finalVerify", Some("队列验证通过"), 0));
            events.push(s.reporter.emit_job_done(true, Some("安装完成"), 0));
            let a = finish(&s, true, owned("安装完成"));
            MacStep { state: at_stage(s, MacStage::Finished), events, action: a }
        },
        VerifyStatus::NotFound(d) => {
            if deadline_passed {
                push_failure(&mut events, &s.reporter, "device.finalVerify", "E_VERIFY_NOT_FOUND", "队列校验失败", d.as_str(), "队列校验失败");
                let a = finish(&s, false, owned("队列校验失败"));
                MacStep { state: at_stage(s, MacStage::Finished), events, action: a }
            } else {
                let a = MacAction::VerifyQueue {
                    queue_name: clone_string(&s.queue_name),
                    delay_ms: FINAL_VERIFY_RETRY_MS,
                    restart_clock: false,
                };
                MacStep { state: at_stage(s, MacStage::Verifying), events, action: a }
            }
        },
        VerifyStatus::Error(err) => {
            push_failure(&mut events, &s.reporter, "device.finalVerify", "E_VERIFY_CMD_FAILED", "队列校验失败", err.detail.as_str(), "队列校验失败");
            let a = finish(&s, false, owned("队列校验失败"));
            MacStep { state: at_stage(s, MacStage::Finished), events, action: a }
        },
    }
}

} // verus!
