use vstd::prelude::*;
use crate::config::{opt_view, clone_string};
use crate::events::{MetaValue, MetaView, meta_view, InstallResult};
use crate::ipp::SystemPrinter;
use crate::macos::{debug_list, debug_str_list, parse_lpstat_device_uri, device_prefix, after_prefix};
use crate::macos_install::{
    truncate_text, spec_truncate_text, is_privilege_error, spec_is_privilege_error,
    is_queue_not_found, spec_is_queue_not_found, normalize_uri_for_compare,
};
use crate::text::{
    owned, append_str, append_chars, decimal, i64_decimal, byte_len, is_boundary, lowercase,
    trim, str_eq, lines, first_map,
};

verus! {

// ---------------------------------------------------------------------------
// Messages
// ---------------------------------------------------------------------------

/// `{:?}` of an optional exit code: `Some(n)` or `None`.
pub open spec fn debug_opt_i32(o: Option<i32>) -> Seq<char> {
    match o {
        Some(n) => "Some("@ + decimal(n as int) + ")"@,
        None => "None"@,
    }
}

pub fn debug_opt_i32_exec(o: Option<i32>) -> (r: String)
    ensures
        r@ == debug_opt_i32(o),
{
    match o {
        Some(n) => {
            let mut r = owned("Some(");
            append_chars(&mut r, i64_decimal(n as i64).as_slice());
            append_str(&mut r, ")");
            r
        },
        None => owned("None"),
    }
}

/// The first message of a macOS install: the requested mode is reported as
/// lowered to `driverless` unless it was `driverless`.
pub open spec fn spec_install_init_message(requested_mode_lower: Seq<char>) -> Seq<char> {
    if requested_mode_lower != "driverless"@ {
        "macOS 平台已将 installMode=\""@ + requested_mode_lower + "\" 降级为 \"driverless\""@
    } else {
        "开始安装 (macOS driverless)"@
    }
}

pub fn install_init_message(requested_mode_lower: &str) -> (r: String)
    ensures
        r@ == spec_install_init_message(requested_mode_lower@),
{
    if !str_eq(requested_mode_lower, "driverless") {
        let mut r = owned("macOS 平台已将 installMode=\"");
        append_str(&mut r, requested_mode_lower);
        append_str(&mut r, "\" 降级为 \"driverless\"");
        r
    } else {
        owned("开始安装 (macOS driverless)")
    }
}

/// The message of a failed reachability probe.
pub open spec fn spec_probe_failure_message(host: Seq<char>, port: u16, err: Seq<char>) -> Seq<char> {
    "无法连接到 "@ + host + ":"@ + decimal(port as int) + " ("@ + err + ")"@
}

pub fn probe_failure_message(host: &str, port: u16, err: &str) -> (r: String)
    ensures
        r@ == spec_probe_failure_message(host@, port, err@),
{
    let mut r = owned("无法连接到 ");
    append_str(&mut r, host);
    append_str(&mut r, ":");
    append_chars(&mut r, i64_decimal(port as i64).as_slice());
    append_str(&mut r, " (");
    append_str(&mut r, err);
    append_str(&mut r, ")");
    r
}

// ---------------------------------------------------------------------------
// Evidence attached to the events
// ---------------------------------------------------------------------------

pub open spec fn text_entry(k: Seq<char>, v: Seq<char>) -> (Seq<char>, MetaView) {
    (k, MetaView::Text(v))
}

/// The evidence of a macOS install: platform, modes, queue name and
/// address, and the device URI under two keys when there is one.
pub open spec fn spec_build_meta(
    queue_name: Seq<char>,
    ip: Seq<char>,
    uri: Option<Seq<char>>,
    requested_mode: Seq<char>,
    effective_mode: Seq<char>,
) -> Seq<(Seq<char>, MetaView)> {
    let base = seq![
        text_entry("platform"@, "macos"@),
        text_entry("installMode"@, effective_mode),
        text_entry("requestedMode"@, requested_mode),
        text_entry("effectiveMode"@, effective_mode),
        text_entry("queueName"@, queue_name),
        text_entry("ip"@, ip),
    ];
    match uri {
        Some(u) => base + seq![text_entry("uri"@, u), text_entry("deviceUri"@, u)],
        None => base,
    }
}

fn text_pair(k: &str, v: &str) -> (r: (String, MetaValue))
    ensures
        (r.0@, r.1@) == text_entry(k@, v@),
{
    (owned(k), MetaValue::Text(owned(v)))
}

pub fn build_meta(
    queue_name: &str,
    ip: &str,
    uri: Option<&str>,
    requested_mode: &str,
    effective_mode: &str,
) -> (r: Vec<(String, MetaValue)>)
    ensures
        meta_view(r@) == spec_build_meta(
            queue_name@,
            ip@,
            match uri {
                Some(u) => Some(u@),
                None => None,
            },
            requested_mode@,
            effective_mode@,
        ),
{
    let mut r: Vec<(String, MetaValue)> = Vec::new();
    r.push(text_pair("platform", "macos"));
    r.push(text_pair("installMode", effective_mode));
    r.push(text_pair("requestedMode", requested_mode));
    r.push(text_pair("effectiveMode", effective_mode));
    r.push(text_pair("queueName", queue_name));
    r.push(text_pair("ip", ip));
    if let Some(u) = uri {
        r.push(text_pair("uri", u));
        r.push(text_pair("deviceUri", u));
    }
    assert(meta_view(r@) =~= spec_build_meta(
        queue_name@,
        ip@,
        match uri {
            Some(u) => Some(u@),
            None => None,
        },
        requested_mode@,
        effective_mode@,
    ));
    r
}

// ---------------------------------------------------------------------------
// Reusing a queue that already prints to the device
// ---------------------------------------------------------------------------

/// Whether a printer's device URI matches `target_norm` once trimmed and
/// lower-cased.
pub open spec fn prints_to(p: SystemPrinter, target_norm: Seq<char>) -> bool {
    match p.device_uri {
        Some(u) => lowercase(trim(u@)) == target_norm,
        None => false,
    }
}

/// The queue name of the first printer that prints to the target.
pub open spec fn spec_reusable_queue(printers: Seq<SystemPrinter>, target_uri: Seq<char>) -> Option<
    Seq<char>,
>
    decreases printers.len(),
{
    if printers.len() == 0 {
        None
    } else if prints_to(printers[0], lowercase(trim(target_uri))) {
        Some(printers[0].system_queue_name@)
    } else {
        spec_reusable_queue(printers.drop_first(), target_uri)
    }
}

/// A listed printer whose device URI, trimmed and lower-cased, is the
/// target's, and no printer before it is: its queue is reused, whatever
/// the printers listed before it print to.
pub proof fn law_reusable_queue_is_first_match(printers: Seq<SystemPrinter>, target_uri: Seq<char>, i: int)
    requires
        0 <= i < printers.len(),
        printers[i].device_uri matches Some(u) && lowercase(trim(u@)) == lowercase(trim(target_uri)),
        forall|j: int|
            0 <= j < i ==> !((#[trigger] printers[j]).device_uri matches Some(u) && lowercase(trim(u@))
                == lowercase(trim(target_uri))),
    ensures
        spec_reusable_queue(printers, target_uri) == Some(printers[i].system_queue_name@),
    decreases i,
{
    if i > 0 {
        assert(!(printers[0].device_uri matches Some(u) && lowercase(trim(u@)) == lowercase(trim(target_uri))));
        let rest = printers.drop_first();
        assert forall|j: int| 0 <= j < i - 1 implies !((#[trigger] rest[j]).device_uri matches Some(u)
            && lowercase(trim(u@)) == lowercase(trim(target_uri))) by {
            assert(rest[j] == printers[j + 1]);
        }
        assert(rest[i - 1] == printers[i]);
        law_reusable_queue_is_first_match(rest, target_uri, i - 1);
    }
}

/// When no listed printer's device URI, trimmed and lower-cased, is the
/// target's, no queue is reused.
pub proof fn law_no_reusable_queue_without_match(printers: Seq<SystemPrinter>, target_uri: Seq<char>)
    requires
        forall|j: int|
            0 <= j < printers.len() ==> !((#[trigger] printers[j]).device_uri matches Some(u) && lowercase(
                trim(u@),
            ) == lowercase(trim(target_uri))),
    ensures
        spec_reusable_queue(printers, target_uri) is None,
    decreases printers.len(),
{
    if printers.len() > 0 {
        let rest = printers.drop_first();
        assert(!(printers[0].device_uri matches Some(u) && lowercase(trim(u@)) == lowercase(trim(target_uri))));
        assert forall|j: int| 0 <= j < rest.len() implies !((#[trigger] rest[j]).device_uri matches Some(u)
            && lowercase(trim(u@)) == lowercase(trim(target_uri))) by {
            assert(rest[j] == printers[j + 1]);
        }
        law_no_reusable_queue_without_match(rest, target_uri);
    }
}

/// The existing queue, if any, whose device URI is the target's (compared
/// trimmed and lower-cased); the first one in the list wins.
pub fn find_reusable_queue(printers: &Vec<SystemPrinter>, target_uri: &str) -> (r: Option<String>)
    ensures
        opt_view(r) == spec_reusable_queue(printers@, target_uri@),
{
    let target = normalize_uri_for_compare(target_uri);
    let mut i: usize = 0;
    assert(printers@.skip(0) =~= printers@);
    while i < printers.len()
        invariant
            i <= printers@.len(),
            target@ == lowercase(trim(target_uri@)),
            spec_reusable_queue(printers@.skip(i as int), target_uri@) == spec_reusable_queue(
                printers@,
                target_uri@,
            ),
        decreases printers@.len() - i,
    {
        let p = &printers[i];
        assert(printers@.skip(i as int)[0] == *p);
        assert(printers@.skip(i as int).drop_first() =~= printers@.skip(i + 1));
        if let Some(u) = &p.device_uri {
            let n = normalize_uri_for_compare(u.as_str());
            if str_eq(n.as_str(), target.as_str()) {
                return Some(clone_string(&p.system_queue_name));
            }
        }
        i = i + 1;
    }
    None
}

// ---------------------------------------------------------------------------
// Creating the queue with lpadmin
// ---------------------------------------------------------------------------

/// A failed step: a stable code and a detail.
pub struct StepError {
    pub code: String,
    pub detail: String,
}

/// The model option of each lpadmin attempt: `everywhere`, then `raw`,
/// then none.
pub open spec fn attempt_extra(attempt: int) -> Seq<Seq<char>> {
    if attempt == 0 {
        seq!["-m"@, "everywhere"@]
    } else if attempt == 1 {
        seq!["-m"@, "raw"@]
    } else {
        seq![]
    }
}

/// The arguments of lpadmin for one attempt.
pub open spec fn spec_lpadmin_args(
    queue: Seq<char>,
    uri: Seq<char>,
    display_name: Seq<char>,
    attempt: int,
) -> Seq<Seq<char>> {
    seq!["-p"@, queue, "-E"@, "-v"@, uri, "-D"@, display_name] + attempt_extra(attempt)
}

pub fn lpadmin_args(queue: &str, uri: &str, display_name: &str, attempt: usize) -> (r: Vec<String>)
    requires
        attempt < 3,
    ensures
        r@.map_values(|s: String| s@) == spec_lpadmin_args(queue@, uri@, display_name@, attempt as int),
{
    let mut r: Vec<String> = Vec::new();
    r.push(owned("-p"));
    r.push(owned(queue));
    r.push(owned("-E"));
    r.push(owned("-v"));
    r.push(owned(uri));
    r.push(owned("-D"));
    r.push(owned(display_name));
    if attempt == 0 {
        r.push(owned("-m"));
        r.push(owned("everywhere"));
    } else if attempt == 1 {
        r.push(owned("-m"));
        r.push(owned("raw"));
    }
    assert(r@.map_values(|s: String| s@) =~= spec_lpadmin_args(
        queue@,
        uri@,
        display_name@,
        attempt as int,
    ));
    r
}

/// What follows one lpadmin attempt.
pub enum EnsureQueueStep {
    Created,
    TryNext(usize),
    Failed(StepError),
}

/// The detail of a failed lpadmin run.
pub open spec fn lpadmin_detail(queue: Seq<char>, exit_code: Option<i32>, stderr: Seq<char>) -> Seq<
    char,
> {
    "queue_name="@ + queue + " exit_code="@ + debug_opt_i32(exit_code) + " stderr="@
        + spec_truncate_text(stderr, 300)
}

fn lpadmin_detail_exec(queue: &str, exit_code: Option<i32>, stderr: &str) -> (r: String)
    requires
        byte_len(stderr@) > 300 ==> is_boundary(stderr@, 300),
    ensures
        r@ == lpadmin_detail(queue@, exit_code, stderr@),
{
    let mut r = owned("queue_name=");
    append_str(&mut r, queue);
    append_str(&mut r, " exit_code=");
    append_str(&mut r, debug_opt_i32_exec(exit_code).as_str());
    append_str(&mut r, " stderr=");
    append_str(&mut r, truncate_text(stderr, 300).as_str());
    r
}

/// Decides after lpadmin ran for attempt `attempt` (0, 1 or 2): success
/// ends the step; a privilege error stops at once with `E_NO_PRIVILEGE`;
/// otherwise the next attempt follows, and after the last one the step
/// fails with `E_QUEUE_CREATE_FAILED` and the last error output.
pub fn ensure_queue_after_attempt(
    queue: &str,
    attempt: usize,
    success: bool,
    exit_code: Option<i32>,
    stderr: &str,
) -> (r: EnsureQueueStep)
    requires
        attempt < 3,
        byte_len(stderr@) > 300 ==> is_boundary(stderr@, 300),
    ensures
        success ==> r is Created,
        !success && spec_is_privilege_error(stderr@) ==> (r matches EnsureQueueStep::Failed(e)
            && e.code@ == "E_NO_PRIVILEGE"@ && e.detail@ == lpadmin_detail(queue@, exit_code, stderr@)),
        !success && !spec_is_privilege_error(stderr@) && attempt < 2 ==> r == EnsureQueueStep::TryNext(
            (attempt + 1) as usize,
        ),
        !success && !spec_is_privilege_error(stderr@) && attempt == 2 ==> (r matches EnsureQueueStep::Failed(e)
            && e.code@ == "E_QUEUE_CREATE_FAILED"@ && e.detail@ == lpadmin_detail(
            queue@,
            exit_code,
            stderr@,
        )),
{
    if success {
        return EnsureQueueStep::Created;
    }
    if is_privilege_error(stderr) {
        return EnsureQueueStep::Failed(
            StepError { code: owned("E_NO_PRIVILEGE"), detail: lpadmin_detail_exec(queue, exit_code, stderr) },
        );
    }
    if attempt < 2 {
        EnsureQueueStep::TryNext(attempt + 1)
    } else {
        EnsureQueueStep::Failed(
            StepError {
                code: owned("E_QUEUE_CREATE_FAILED"),
                detail: lpadmin_detail_exec(queue, exit_code, stderr),
            },
        )
    }
}

/// lpadmin could not be run at all: the step fails with
/// `E_QUEUE_CREATE_FAILED` and the error.
pub fn ensure_queue_after_run_error(error: String) -> (r: EnsureQueueStep)
    ensures
        r matches EnsureQueueStep::Failed(e) && e.code@ == "E_QUEUE_CREATE_FAILED"@ && e.detail == error,
{
    EnsureQueueStep::Failed(StepError { code: owned("E_QUEUE_CREATE_FAILED"), detail: error })
}

/// The message shown when the queue could not be created.
pub open spec fn spec_queue_failure_message(code: Seq<char>) -> Seq<char> {
    if code == "E_NO_PRIVILEGE"@ {
        "创建队列失败：需要管理员权限"@
    } else {
        "创建队列失败"@
    }
}

pub fn queue_failure_message(code: &str) -> (r: String)
    ensures
        r@ == spec_queue_failure_message(code@),
{
    if str_eq(code, "E_NO_PRIVILEGE") {
        owned("创建队列失败：需要管理员权限")
    } else {
        owned("创建队列失败")
    }
}

// ---------------------------------------------------------------------------
// Checking that the queue answers
// ---------------------------------------------------------------------------

/// The outcome of one command run.
pub struct CmdRun {
    pub success: bool,
    pub exit_code: Option<i32>,
    pub stdout: String,
    pub stderr: String,
}

/// What one check of the queue found.
pub enum VerifyStatus {
    Exists(Option<String>),
    NotFound(String),
    Error(StepError),
}

/// What follows the `lpoptions -p <queue>` check.
pub enum VerifyNext {
    ReadDeviceUri,
    Done(VerifyStatus),
}

/// The arguments of the check, `-p <queue>`.
pub open spec fn verify_args(queue: Seq<char>) -> Seq<Seq<char>> {
    seq!["-p"@, queue]
}

/// The detail of a failed `lpoptions` run.
pub open spec fn verify_detail(queue: Seq<char>, exit_code: Option<i32>, stderr: Seq<char>) -> Seq<
    char,
> {
    "cmd=lpoptions args="@ + debug_str_list(verify_args(queue)) + " exit_code="@ + debug_opt_i32(
        exit_code,
    ) + " stderr_snip=\""@ + spec_truncate_text(stderr, 200) + "\""@
}

fn args_debug(queue: &str) -> (r: String)
    ensures
        r@ == debug_str_list(verify_args(queue@)),
{
    let items: Vec<&str> = vec!["-p", queue];
    assert(items@.map_values(|s: &str| s@) =~= verify_args(queue@));
    debug_list(items.as_slice())
}

/// Sorts the `lpoptions -p <queue>` check: if the queue answered, its
/// device URI is read next; a "not found" error output means the queue is
/// not there yet; any other failure is `E_VERIFY_CMD_FAILED`.
pub fn verify_after_lpoptions(queue: &str, run: Result<CmdRun, String>) -> (r: VerifyNext)
    requires
        run matches Ok(o) ==> (byte_len(o.stderr@) > 200 ==> is_boundary(o.stderr@, 200)),
    ensures
        match run {
            Ok(o) => if o.success {
                r is ReadDeviceUri
            } else if spec_is_queue_not_found(o.stderr@) {
                r matches VerifyNext::Done(VerifyStatus::NotFound(d)) && d@ == verify_detail(
                    queue@,
                    o.exit_code,
                    o.stderr@,
                )
            } else {
                r matches VerifyNext::Done(VerifyStatus::Error(e)) && e.code@ == "E_VERIFY_CMD_FAILED"@
                    && e.detail@ == verify_detail(queue@, o.exit_code, o.stderr@)
            },
            Err(err) => r matches VerifyNext::Done(VerifyStatus::Error(e)) && e.code@
                == "E_VERIFY_CMD_FAILED"@ && e.detail@ == "cmd=lpoptions args="@ + debug_str_list(
                verify_args(queue@),
            ) + " error="@ + err@,
        },
{
    match run {
        Ok(o) => {
            if o.success {
                return VerifyNext::ReadDeviceUri;
            }
            let mut d = owned("cmd=lpoptions args=");
            append_str(&mut d, args_debug(queue).as_str());
            append_str(&mut d, " exit_code=");
            append_str(&mut d, debug_opt_i32_exec(o.exit_code).as_str());
            append_str(&mut d, " stderr_snip=\"");
            append_str(&mut d, truncate_text(o.stderr.as_str(), 200).as_str());
            append_str(&mut d, "\"");
            if is_queue_not_found(o.stderr.as_str()) {
                VerifyNext::Done(VerifyStatus::NotFound(d))
            } else {
                VerifyNext::Done(
                    VerifyStatus::Error(StepError { code: owned("E_VERIFY_CMD_FAILED"), detail: d }),
                )
            }
        },
        Err(err) => {
            let mut d = owned("cmd=lpoptions args=");
            append_str(&mut d, args_debug(queue).as_str());
            append_str(&mut d, " error=");
            append_str(&mut d, err.as_str());
            VerifyNext::Done(
                VerifyStatus::Error(StepError { code: owned("E_VERIFY_CMD_FAILED"), detail: d }),
            )
        },
    }
}

/// The device URI that `lpstat -v <queue>` reports, if it ran and found
/// one.
pub open spec fn spec_reported_uri(queue: Seq<char>, run: Result<CmdRun, String>) -> Option<
    Seq<char>,
> {
    match run {
        Ok(o) => if o.success {
            first_map(lines(o.stdout@), |l: Seq<char>| after_prefix(l, device_prefix(queue)))
        } else {
            None
        },
        Err(_) => None,
    }
}

/// After the queue answered: it exists, with the device URI that
/// `lpstat -v` reports when that succeeds.
pub fn verify_after_lpstat(queue: &str, run: Result<CmdRun, String>) -> (r: VerifyStatus)
    ensures
        r matches VerifyStatus::Exists(u) && opt_view(u) == spec_reported_uri(queue@, run),
{
    match run {
        Ok(o) => {
            if o.success {
                VerifyStatus::Exists(parse_lpstat_device_uri(queue, o.stdout.as_str()))
            } else {
                VerifyStatus::Exists(None)
            }
        },
        Err(_) => VerifyStatus::Exists(None),
    }
}

/// What follows one check in the final verification loop.
pub enum FinalVerifyStep {
    Installed,
    Retry(StepError),
    Failed(StepError),
}

/// The queue exists: done. Not found: try again after a pause, unless the
/// deadline has passed. Any other error: fail at once.
pub fn final_verify_step(status: VerifyStatus, deadline_passed: bool) -> (r: FinalVerifyStep)
    ensures
        match status {
            VerifyStatus::Exists(_) => r is Installed,
            VerifyStatus::NotFound(d) => if deadline_passed {
                r matches FinalVerifyStep::Failed(e) && e.code@ == "E_VERIFY_NOT_FOUND"@ && e.detail == d
            } else {
                r matches FinalVerifyStep::Retry(e) && e.code@ == "E_VERIFY_NOT_FOUND"@ && e.detail == d
            },
            VerifyStatus::Error(err) => r matches FinalVerifyStep::Failed(e) && e.code@
                == "E_VERIFY_CMD_FAILED"@ && e.detail == err.detail,
        },
{
    match status {
        VerifyStatus::Exists(_) => FinalVerifyStep::Installed,
        VerifyStatus::NotFound(d) => {
            let e = StepError { code: owned("E_VERIFY_NOT_FOUND"), detail: d };
            if deadline_passed {
                FinalVerifyStep::Failed(e)
            } else {
                FinalVerifyStep::Retry(e)
            }
        },
        VerifyStatus::Error(err) => FinalVerifyStep::Failed(
            StepError { code: owned("E_VERIFY_CMD_FAILED"), detail: err.detail },
        ),
    }
}

/// The error and message of a failed final verification: the last error,
/// or `E_VERIFY_TIMEOUT` if there was none; the message names the timeout
/// for that code and is `队列校验失败` otherwise.
pub fn final_verify_failure(queue: &str, last_error: Option<StepError>) -> (r: (StepError, String))
    ensures
        match last_error {
            Some(e) => r.0 == e,
            None => r.0.code@ == "E_VERIFY_TIMEOUT"@ && r.0.detail@ == "queue_name="@ + queue@
                + " 队列验证超时"@,
        },
        r.1@ == (if r.0.code@ == "E_VERIFY_TIMEOUT"@ {
            "队列验证超时（10s）"@
        } else {
            "队列校验失败"@
        }),
{
    let e = match last_error {
        Some(e) => e,
        None => {
            let mut d = owned("queue_name=");
            append_str(&mut d, queue);
            append_str(&mut d, " 队列验证超时");
            StepError { code: owned("E_VERIFY_TIMEOUT"), detail: d }
        },
    };
    let m = if str_eq(e.code.as_str(), "E_VERIFY_TIMEOUT") {
        owned("队列验证超时（10s）")
    } else {
        owned("队列校验失败")
    };
    (e, m)
}

/// The result of a macOS install: always by the `driverless` method, with
/// no captured output.
pub fn mac_install_result(success: bool, message: String, dry_run: bool, job_id: String) -> (r:
    InstallResult)
    ensures
        r.success == success,
        r.message == message,
        opt_view(r.method) == Some("driverless"@),
        r.stdout is None,
        r.stderr is None,
        r.effective_dry_run == dry_run,
        r.job_id == job_id,
{
    InstallResult {
        success,
        message,
        method: Some(owned("driverless")),
        stdout: None,
        stderr: None,
        effective_dry_run: dry_run,
        job_id,
    }
}

} // verus!
