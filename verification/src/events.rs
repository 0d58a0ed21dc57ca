use vstd::prelude::*;
use crate::config::{opt_view, clone_string, clone_opt_string};
use crate::text::{chars_of, string_of, owned, append_str, trim, trim_str, str_eq};

verus! {

// ---------------------------------------------------------------------------
// Install progress events
// ---------------------------------------------------------------------------

/// The error part of a failed step.
pub struct ErrorPayload {
    pub code: String,
    pub detail: String,
    pub stderr: Option<String>,
    pub stdout: Option<String>,
}

/// Progress counters of a running step; `percent` is a whole percentage.
pub struct ProgressCounts {
    pub current: Option<u64>,
    pub total: Option<u64>,
    pub unit: Option<String>,
    pub percent: Option<u64>,
}

/// A value of the evidence attached to an event.
pub enum MetaValue {
    Text(String),
    Flag(bool),
}

/// The phases of a Windows driver install, as the front end names them.
#[derive(PartialEq, Eq, Structural, Clone, Copy)]
pub enum InstallPhase {
    Download,
    Verify,
    Extract,
    StageDriver,
    RegisterDriver,
    EnsurePort,
    EnsureQueue,
    FinalVerify,
}

/// Where a phase stands.
#[derive(PartialEq, Eq, Structural, Clone, Copy)]
pub enum PhaseState {
    Pending,
    Running,
    Success,
    Failed,
}

/// A `MetaValue` as plain values.
pub enum MetaView {
    Text(Seq<char>),
    Flag(bool),
}

impl View for MetaValue {
    type V = MetaView;

    open spec fn view(&self) -> MetaView {
        match self {
            MetaValue::Text(s) => MetaView::Text(s@),
            MetaValue::Flag(b) => MetaView::Flag(*b),
        }
    }
}

/// The evidence of an event: keys with their values.
pub open spec fn meta_view(m: Seq<(String, MetaValue)>) -> Seq<(Seq<char>, MetaView)> {
    m.map_values(|e: (String, MetaValue)| (e.0@, e.1@))
}

pub open spec fn opt_meta_view(m: Option<Vec<(String, MetaValue)>>) -> Option<
    Seq<(Seq<char>, MetaView)>,
> {
    match m {
        Some(v) => Some(meta_view(v@)),
        None => None,
    }
}

pub fn clone_meta_value(v: &MetaValue) -> (r: MetaValue)
    ensures
        r@ == v@,
{
    match v {
        MetaValue::Text(s) => MetaValue::Text(clone_string(s)),
        MetaValue::Flag(b) => MetaValue::Flag(*b),
    }
}

pub fn clone_meta(m: &Vec<(String, MetaValue)>) -> (r: Vec<(String, MetaValue)>)
    ensures
        meta_view(r@) == meta_view(m@),
{
    let mut r: Vec<(String, MetaValue)> = Vec::new();
    let mut i: usize = 0;
    while i < m.len()
        invariant
            i <= m@.len(),
            meta_view(r@) == meta_view(m@.take(i as int)),
        decreases m@.len() - i,
    {
        let ghost old_r = r@;
        let k = clone_string(&m[i].0);
        let v = clone_meta_value(&m[i].1);
        r.push((k, v));
        assert(meta_view(r@) =~= meta_view(old_r).push((m@[i as int].0@, m@[i as int].1@)));
        assert(meta_view(m@.take(i + 1)) =~= meta_view(m@.take(i as int)).push(
            (m@[i as int].0@, m@[i as int].1@),
        ));
        i = i + 1;
    }
    assert(m@.take(m@.len() as int) =~= m@);
    r
}

pub fn clone_opt_meta(m: &Option<Vec<(String, MetaValue)>>) -> (r: Option<Vec<(String, MetaValue)>>)
    ensures
        opt_meta_view(r) == opt_meta_view(*m),
{
    match m {
        Some(v) => Some(clone_meta(v)),
        None => None,
    }
}

/// One install progress event: which job, which step, in which state.
pub struct InstallProgressEvent {
    pub job_id: String,
    pub printer_name: String,
    pub step_id: String,
    pub state: String,
    pub message: String,
    pub ts_ms: i64,
    pub progress: Option<ProgressCounts>,
    pub error: Option<ErrorPayload>,
    pub meta: Option<Vec<(String, MetaValue)>>,
    pub legacy_phase: Option<String>,
    pub install_mode: Option<String>,
}

/// The step identifiers an event may carry.
pub open spec fn allowed_step_ids() -> Seq<Seq<char>> {
    seq![
        "job.init"@,
        "job.done"@,
        "job.failed"@,
        "device.probe"@,
        "driver.download"@,
        "driver.verify"@,
        "driver.extract"@,
        "driver.stageDriver"@,
        "driver.registerDriver"@,
        "device.ensurePort"@,
        "device.ensureQueue"@,
        "device.finalVerify"@,
    ]
}

/// The states an event may carry.
pub open spec fn allowed_states() -> Seq<Seq<char>> {
    seq!["pending"@, "running"@, "success"@, "failed"@, "skipped"@]
}

fn step_id_list() -> (r: Vec<&'static str>)
    ensures
        r@.map_values(|s: &str| s@) == allowed_step_ids(),
{
    let r = vec![
        "job.init",
        "job.done",
        "job.failed",
        "device.probe",
        "driver.download",
        "driver.verify",
        "driver.extract",
        "driver.stageDriver",
        "driver.registerDriver",
        "device.ensurePort",
        "device.ensureQueue",
        "device.finalVerify",
    ];
    assert(r@.map_values(|s: &str| s@) =~= allowed_step_ids());
    r
}

fn state_list() -> (r: Vec<&'static str>)
    ensures
        r@.map_values(|s: &str| s@) == allowed_states(),
{
    let r = vec!["pending", "running", "success", "failed", "skipped"];
    assert(r@.map_values(|s: &str| s@) =~= allowed_states());
    r
}

fn str_in(s: &str, list: &Vec<&str>) -> (b: bool)
    ensures
        b == list@.map_values(|x: &str| x@).contains(s@),
{
    let ghost lv = list@.map_values(|x: &str| x@);
    let mut i: usize = 0;
    while i < list.len()
        invariant
            i <= list@.len(),
            lv == list@.map_values(|x: &str| x@),
            forall|j: int| 0 <= j < i ==> lv[j] != s@,
        decreases list@.len() - i,
    {
        if str_eq(list[i], s) {
            assert(lv[i as int] == s@);
            return true;
        }
        i = i + 1;
    }
    false
}

/// `text` between double quotes after `prefix`.
pub open spec fn quoted_after(prefix: Seq<char>, text: Seq<char>) -> Seq<char> {
    prefix + seq!['"'] + text + seq!['"']
}

fn quoted_after_exec(prefix: &str, text: &str) -> (r: String)
    ensures
        r@ == quoted_after(prefix@, text@),
{
    let mut r = owned(prefix);
    append_str(&mut r, "\"");
    append_str(&mut r, text);
    append_str(&mut r, "\"");
    proof {
        reveal_strlit("\"");
    }
    assert(r@ =~= quoted_after(prefix@, text@));
    r
}

/// Accepts the known step identifiers; any other is refused with its text.
pub fn validate_step_id(step_id: &str) -> (r: Result<(), String>)
    ensures
        r is Ok <==> allowed_step_ids().contains(step_id@),
        r matches Err(e) ==> e@ == quoted_after("invalid step_id "@, step_id@),
{
    let list = step_id_list();
    if str_in(step_id, &list) {
        Ok(())
    } else {
        Err(quoted_after_exec("invalid step_id ", step_id))
    }
}

/// Accepts the known states; any other is refused with its text.
pub fn validate_state(state: &str) -> (r: Result<(), String>)
    ensures
        r is Ok <==> allowed_states().contains(state@),
        r matches Err(e) ==> e@ == quoted_after("invalid state "@, state@),
{
    let list = state_list();
    if str_in(state, &list) {
        Ok(())
    } else {
        Err(quoted_after_exec("invalid state ", state))
    }
}

// ---------------------------------------------------------------------------
// The install mode of each job
// ---------------------------------------------------------------------------

/// The value stored under `k`, the latest entry first.
pub open spec fn lookup_last(e: Seq<(String, String)>, k: Seq<char>) -> Option<Seq<char>>
    decreases e.len(),
{
    if e.len() == 0 {
        None
    } else if e.last().0@ == k {
        Some(e.last().1@)
    } else {
        lookup_last(e.drop_last(), k)
    }
}

proof fn lemma_lookup_last_update(e: Seq<(String, String)>, idx: int, pair: (String, String))
    requires
        0 <= idx < e.len(),
        e[idx].0@ == pair.0@,
        forall|j: int| idx < j < e.len() ==> (#[trigger] e[j]).0@ != pair.0@,
    ensures
        forall|k: Seq<char>|
            #[trigger] lookup_last(e.update(idx, pair), k) == (if k == pair.0@ {
                Some(pair.1@)
            } else {
                lookup_last(e, k)
            }),
    decreases e.len(),
{
    let u = e.update(idx, pair);
    if idx == e.len() - 1 {
        assert(u.drop_last() =~= e.drop_last());
        assert forall|k: Seq<char>| #[trigger] lookup_last(u, k) == (if k == pair.0@ {
            Some(pair.1@)
        } else {
            lookup_last(e, k)
        }) by {
            assert(u.last() == pair);
        }
    } else {
        assert(u.drop_last() =~= e.drop_last().update(idx, pair));
        assert(e[e.len() - 1].0@ != pair.0@);
        lemma_lookup_last_update(e.drop_last(), idx, pair);
        assert forall|k: Seq<char>| #[trigger] lookup_last(u, k) == (if k == pair.0@ {
            Some(pair.1@)
        } else {
            lookup_last(e, k)
        }) by {
            assert(u.last() == e.last());
            assert(lookup_last(u.drop_last(), k) == lookup_last(e.drop_last().update(idx, pair), k));
        }
    }
}

/// The install mode recorded for each job when its `job.init` event went
/// out, so that later events of the job carry the same mode.
pub struct InstallModeRegistry {
    entries: Vec<(String, String)>,
}

impl InstallModeRegistry {
    /// The mode recorded for a job, if any.
    pub closed spec fn mode_of(self, job_id: Seq<char>) -> Option<Seq<char>> {
        lookup_last(self.entries@, job_id)
    }

    /// A registry with no job in it.
    pub fn new() -> (r: Self)
        ensures
            forall|k: Seq<char>| r.mode_of(k) is None,
    {
        InstallModeRegistry { entries: Vec::new() }
    }

    fn find_last(&self, job_id: &str) -> (r: Option<usize>)
        ensures
            match r {
                Some(i) => {
                    &&& i < self.entries@.len()
                    &&& self.entries@[i as int].0@ == job_id@
                    &&& forall|j: int|
                        i < j < self.entries@.len() ==> (#[trigger] self.entries@[j]).0@ != job_id@
                },
                None => lookup_last(self.entries@, job_id@) is None,
            },
            r is None <==> lookup_last(self.entries@, job_id@) is None,
            r matches Some(i) ==> lookup_last(self.entries@, job_id@) == Some(
                self.entries@[i as int].1@,
            ),
    {
        let ghost e = self.entries@;
        let mut i: usize = self.entries.len();
        assert(e.take(e.len() as int) =~= e);
        while i > 0
            invariant
                i <= e.len(),
                e == self.entries@,
                lookup_last(e, job_id@) == lookup_last(e.take(i as int), job_id@),
                forall|j: int| i <= j < e.len() ==> (#[trigger] e[j]).0@ != job_id@,
            decreases i,
        {
            if str_eq(self.entries[i - 1].0.as_str(), job_id) {
                return Some(i - 1);
            }
            assert(e.take(i as int).drop_last() =~= e.take(i - 1));
            i = i - 1;
        }
        None
    }

    /// Records `install_mode` for `job_id`; a blank job or mode records
    /// nothing.
    pub fn register(&mut self, job_id: &str, install_mode: &str)
        ensures
            forall|k: Seq<char>|
                #[trigger] final(self).mode_of(k) == (if k == job_id@ && trim(job_id@).len() > 0
                    && trim(install_mode@).len() > 0 {
                    Some(install_mode@)
                } else {
                    old(self).mode_of(k)
                }),
    {
        let jt = trim_str(job_id);
        let mt = trim_str(install_mode);
        if jt.len() == 0 || mt.len() == 0 {
            return;
        }
        let pair = (owned(job_id), owned(install_mode));
        match self.find_last(job_id) {
            Some(i) => {
                let ghost e = self.entries@;
                self.entries.set(i, pair);
                proof {
                    lemma_lookup_last_update(e, i as int, pair);
                }
            },
            None => {
                let ghost e = self.entries@;
                self.entries.push(pair);
                assert(self.entries@.drop_last() =~= e);
            },
        }
    }

    /// The install mode of an event: the explicit one unless it is blank,
    /// else the one recorded for the job, else `auto`.
    pub open spec fn spec_resolve(self, job_id: Seq<char>, explicit: Option<Seq<char>>) -> Seq<
        char,
    > {
        match explicit {
            Some(m) if trim(m).len() > 0 => m,
            _ => match self.mode_of(job_id) {
                Some(m) => m,
                None => "auto"@,
            },
        }
    }

    pub fn resolve_install_mode(&self, job_id: &str, explicit: Option<String>) -> (r: String)
        ensures
            r@ == self.spec_resolve(job_id@, opt_view(explicit)),
    {
        if let Some(mode) = explicit {
            let t = trim_str(mode.as_str());
            if t.len() > 0 {
                return mode;
            }
        }
        match self.find_last(job_id) {
            Some(i) => clone_string(&self.entries[i].1),
            None => {
                proof {
                    reveal_strlit("auto");
                }
                owned("auto")
            },
        }
    }
}

/// A job's `job.init` event records the mode it carries: every later event
/// of the job without a mode of its own gets that mode.
pub proof fn law_registered_mode_is_resolved(
    before: InstallModeRegistry,
    after: InstallModeRegistry,
    job_id: Seq<char>,
    mode: Seq<char>,
    other_job: Seq<char>,
)
    requires
        trim(job_id).len() > 0,
        trim(mode).len() > 0,
        forall|k: Seq<char>|
            #[trigger] after.mode_of(k) == (if k == job_id && trim(job_id).len() > 0 && trim(
                mode,
            ).len() > 0 {
                Some(mode)
            } else {
                before.mode_of(k)
            }),
    ensures
        after.spec_resolve(job_id, None) == mode,
        other_job != job_id ==> after.spec_resolve(other_job, None) == before.spec_resolve(
            other_job,
            None,
        ),
{
    assert(after.mode_of(job_id) == Some(mode));
    assert(other_job != job_id ==> after.mode_of(other_job) == before.mode_of(other_job));
}

/// How an accepted event leaves the registry: a `job.init` event records
/// its resolved mode for its job (when neither is blank); every other
/// job's mode stays.
pub open spec fn registry_after_event(
    before: InstallModeRegistry,
    after: InstallModeRegistry,
    event: InstallProgressEvent,
) -> bool {
    let mode = before.spec_resolve(event.job_id@, opt_view(event.install_mode));
    forall|k: Seq<char>|
        #[trigger] after.mode_of(k) == (if event.step_id@ == "job.init"@ && k == event.job_id@ && trim(
            event.job_id@,
        ).len() > 0 && trim(mode).len() > 0 {
            Some(mode)
        } else {
            before.mode_of(k)
        })
}

/// A refused event leaves the registry as it was.
pub open spec fn registry_kept(before: InstallModeRegistry, after: InstallModeRegistry) -> bool {
    forall|k: Seq<char>| #[trigger] after.mode_of(k) == before.mode_of(k)
}

/// Events of a run of the progress channel: `regs[i]` is the registry
/// before `events[i]` and `regs[i + 1]` after it, whether it was accepted
/// or refused.
pub open spec fn channel_run(regs: Seq<InstallModeRegistry>, events: Seq<InstallProgressEvent>) -> bool {
    &&& regs.len() == events.len() + 1
    &&& forall|i: int|
        0 <= i < events.len() ==> registry_after_event(regs[i], #[trigger] regs[i + 1], events[i])
            || registry_kept(regs[i], regs[i + 1])
}

proof fn lemma_mode_survives(regs: Seq<InstallModeRegistry>, events: Seq<InstallProgressEvent>, job: Seq<char>, m: Seq<char>, n: int)
    requires
        channel_run(regs, events),
        1 <= n <= events.len(),
        regs[1].mode_of(job) == Some(m),
        forall|i: int|
            1 <= i < events.len() ==> !((#[trigger] events[i]).step_id@ == "job.init"@ && events[i].job_id@ == job),
    ensures
        regs[n].mode_of(job) == Some(m),
    decreases n,
{
    if n > 1 {
        lemma_mode_survives(regs, events, job, m, n - 1);
        let i = n - 1;
        assert(registry_after_event(regs[i], regs[i + 1], events[i]) || registry_kept(regs[i], regs[i + 1]));
        assert(!(events[i].step_id@ == "job.init"@ && events[i].job_id@ == job));
    }
}

/// The mode of a job reaches all its later events: once its `job.init`
/// event with a non-blank mode was accepted, every later event of the job
/// that carries no mode of its own is sent with that mode, whatever other
/// events (of this job or others, accepted or refused) went through the
/// channel in between, as long as none was another `job.init` of the job.
pub proof fn law_init_mode_reaches_later_events(
    regs: Seq<InstallModeRegistry>,
    events: Seq<InstallProgressEvent>,
    later: InstallProgressEvent,
)
    requires
        channel_run(regs, events),
        events.len() >= 1,
        registry_after_event(regs[0], regs[1], events[0]),
        events[0].step_id@ == "job.init"@,
        trim(events[0].job_id@).len() > 0,
        events[0].install_mode matches Some(m) && trim(m@).len() > 0,
        forall|i: int|
            1 <= i < events.len() ==> !((#[trigger] events[i]).step_id@ == "job.init"@ && events[i].job_id@
                == events[0].job_id@),
        later.job_id@ == events[0].job_id@,
        later.install_mode is None,
    ensures
        regs.last().spec_resolve(later.job_id@, opt_view(later.install_mode)) == events[0].install_mode->0@,
{
    let first = events[0];
    let m = first.install_mode->0@;
    assert(regs[0].spec_resolve(first.job_id@, opt_view(first.install_mode)) == m);
    assert(regs[1].mode_of(first.job_id@) == Some(m));
    lemma_mode_survives(regs, events, first.job_id@, m, events.len() as int);
    assert(regs.last() == regs[events.len() as int]);
}

/// What the progress channel is sent for an event: the time filled in
/// where it is not positive, the step and state checked, and the install
/// mode resolved; a `job.init` event records its mode for the job.
pub fn prepare_install_progress(
    registry: &mut InstallModeRegistry,
    event: InstallProgressEvent,
    now_ms: i64,
) -> (r: Result<InstallProgressEvent, String>)
    ensures
        !allowed_step_ids().contains(event.step_id@) ==> (r matches Err(e) && e@ == quoted_after(
            "invalid step_id "@,
            event.step_id@,
        )),
        allowed_step_ids().contains(event.step_id@) && !allowed_states().contains(event.state@)
            ==> (r matches Err(e) && e@ == quoted_after("invalid state "@, event.state@)),
        r is Err ==> registry_kept(*old(registry), *final(registry)),
        allowed_step_ids().contains(event.step_id@) && allowed_states().contains(event.state@)
            ==> r is Ok,
        r matches Ok(e) ==> {
            let mode = old(registry).spec_resolve(event.job_id@, opt_view(event.install_mode));
            &&& e.ts_ms == (if event.ts_ms <= 0 {
                now_ms
            } else {
                event.ts_ms
            })
            &&& opt_view(e.install_mode) == Some(mode)
            &&& e.job_id == event.job_id
            &&& e.printer_name == event.printer_name
            &&& e.step_id == event.step_id
            &&& e.state == event.state
            &&& e.message == event.message
            &&& e.progress == event.progress
            &&& e.error == event.error
            &&& e.meta == event.meta
            &&& e.legacy_phase == event.legacy_phase
            &&& registry_after_event(*old(registry), *final(registry), event)
        },
{
    let mut event = event;
    if event.ts_ms <= 0 {
        event.ts_ms = now_ms;
    }
    match validate_step_id(event.step_id.as_str()) {
        Err(e) => {
            return Err(e);
        },
        Ok(()) => {},
    }
    match validate_state(event.state.as_str()) {
        Err(e) => {
            return Err(e);
        },
        Ok(()) => {},
    }
    let explicit = event.install_mode.take();
    let mode = registry.resolve_install_mode(event.job_id.as_str(), explicit);
    proof {
        reveal_strlit("job.init");
    }
    if str_eq(event.step_id.as_str(), "job.init") {
        registry.register(event.job_id.as_str(), mode.as_str());
    }
    event.install_mode = Some(mode);
    Ok(event)
}

/// The outcome of an install job.
pub struct InstallResult {
    pub success: bool,
    pub message: String,
    pub method: Option<String>,
    pub stdout: Option<String>,
    pub stderr: Option<String>,
    pub effective_dry_run: bool,
    pub job_id: String,
}

// ---------------------------------------------------------------------------
// Step reporter
// ---------------------------------------------------------------------------

/// Builds the progress events of one install job.
pub struct StepReporter {
    pub job_id: String,
    pub printer_name: String,
    pub install_mode: String,
    pub default_meta: Option<Vec<(String, MetaValue)>>,
}

/// The parts that every event of a reporter shares: its job, printer, mode
/// and evidence, and no legacy phase.
pub open spec fn from_reporter(e: InstallProgressEvent, r: StepReporter, now_ms: i64) -> bool {
    &&& e.job_id@ == r.job_id@
    &&& e.printer_name@ == r.printer_name@
    &&& e.ts_ms == now_ms
    &&& e.legacy_phase is None
    &&& opt_view(e.install_mode) == Some(r.install_mode@)
    &&& opt_meta_view(e.meta) == opt_meta_view(r.default_meta)
}

/// An error payload with a code and a detail and no captured output.
pub open spec fn error_is(e: Option<ErrorPayload>, code: Seq<char>, detail: Seq<char>) -> bool {
    &&& e is Some
    &&& e->0.code@ == code
    &&& e->0.detail@ == detail
    &&& e->0.stdout is None
    &&& e->0.stderr is None
}

impl StepReporter {
    /// A reporter for a job; its install mode is resolved as for an event.
    pub fn new(
        registry: &InstallModeRegistry,
        job_id: String,
        printer_name: String,
        install_mode: Option<String>,
        default_meta: Option<Vec<(String, MetaValue)>>,
    ) -> (r: Self)
        ensures
            r.job_id == job_id,
            r.printer_name == printer_name,
            r.install_mode@ == registry.spec_resolve(job_id@, opt_view(install_mode)),
            r.default_meta == default_meta,
    {
        let install_mode = registry.resolve_install_mode(job_id.as_str(), install_mode);
        StepReporter { job_id, printer_name, install_mode, default_meta }
    }

    pub fn set_default_meta(&mut self, meta: Option<Vec<(String, MetaValue)>>)
        ensures
            final(self).default_meta == meta,
            final(self).job_id == old(self).job_id,
            final(self).printer_name == old(self).printer_name,
            final(self).install_mode == old(self).install_mode,
    {
        self.default_meta = meta;
    }

    fn event(
        &self,
        step_id: &str,
        state: &str,
        message: &str,
        now_ms: i64,
        progress: Option<ProgressCounts>,
        error: Option<ErrorPayload>,
    ) -> (e: InstallProgressEvent)
        ensures
            from_reporter(e, *self, now_ms),
            e.step_id@ == step_id@,
            e.state@ == state@,
            e.message@ == message@,
            e.progress == progress,
            e.error == error,
    {
        InstallProgressEvent {
            job_id: clone_string(&self.job_id),
            printer_name: clone_string(&self.printer_name),
            step_id: owned(step_id),
            state: owned(state),
            message: owned(message),
            ts_ms: now_ms,
            progress,
            error,
            meta: clone_opt_meta(&self.default_meta),
            legacy_phase: None,
            install_mode: Some(clone_string(&self.install_mode)),
        }
    }

    /// The `job.init` event, state `running`.
    pub fn emit_job_init(&self, message: &str, now_ms: i64) -> (e: InstallProgressEvent)
        ensures
            from_reporter(e, *self, now_ms),
            e.step_id@ == "job.init"@,
            e.state@ == "running"@,
            e.message@ == message@,
            e.progress is None,
            e.error is None,
    {
        self.event("job.init", "running", message, now_ms, None, None)
    }

    /// A step's `running` event.
    pub fn emit_step_running(
        &self,
        step_id: &str,
        message: &str,
        progress: Option<ProgressCounts>,
        now_ms: i64,
    ) -> (e: InstallProgressEvent)
        ensures
            from_reporter(e, *self, now_ms),
            e.step_id@ == step_id@,
            e.state@ == "running"@,
            e.message@ == message@,
            e.progress == progress,
            e.error is None,
    {
        self.event(step_id, "running", message, now_ms, progress, None)
    }

    /// A step's `success` event; the message is `完成` when none is given.
    pub fn emit_step_success(&self, step_id: &str, message: Option<&str>, now_ms: i64) -> (e:
        InstallProgressEvent)
        ensures
            from_reporter(e, *self, now_ms),
            e.step_id@ == step_id@,
            e.state@ == "success"@,
            e.message@ == (match message {
                Some(m) => m@,
                None => "完成"@,
            }),
            e.progress is None,
            e.error is None,
    {
        let m = match message {
            Some(m) => m,
            None => "完成",
        };
        self.event(step_id, "success", m, now_ms, None, None)
    }

    /// A step's `skipped` event; the message is `已跳过` when none is given.
    pub fn emit_step_skipped(&self, step_id: &str, message: Option<&str>, now_ms: i64) -> (e:
        InstallProgressEvent)
        ensures
            from_reporter(e, *self, now_ms),
            e.step_id@ == step_id@,
            e.state@ == "skipped"@,
            e.message@ == (match message {
                Some(m) => m@,
                None => "已跳过"@,
            }),
            e.progress is None,
            e.error is None,
    {
        let m = match message {
            Some(m) => m,
            None => "已跳过",
        };
        self.event(step_id, "skipped", m, now_ms, None, None)
    }

    /// A step's `failed` event with its error; the detail defaults to the
    /// message.
    pub fn emit_step_fail(
        &self,
        step_id: &str,
        error_code: &str,
        message: &str,
        detail: Option<&str>,
        now_ms: i64,
    ) -> (e: InstallProgressEvent)
        ensures
            from_reporter(e, *self, now_ms),
            e.step_id@ == step_id@,
            e.state@ == "failed"@,
            e.message@ == message@,
            e.progress is None,
            error_is(
                e.error,
                error_code@,
                match detail {
                    Some(d) => d@,
                    None => message@,
                },
            ),
    {
        let d = match detail {
            Some(d) => d,
            None => message,
        };
        let err = ErrorPayload { code: owned(error_code), detail: owned(d), stderr: None, stdout: None };
        self.event(step_id, "failed", message, now_ms, None, Some(err))
    }

    /// The `job.done` event: `success` with `安装完成` or `failed` with
    /// `安装失败` unless a message is given.
    pub fn emit_job_done(&self, success: bool, message: Option<&str>, now_ms: i64) -> (e:
        InstallProgressEvent)
        ensures
            from_reporter(e, *self, now_ms),
            e.step_id@ == "job.done"@,
            e.state@ == (if success {
                "success"@
            } else {
                "failed"@
            }),
            e.message@ == (match message {
                Some(m) => m@,
                None => if success {
                    "安装完成"@
                } else {
                    "安装失败"@
                },
            }),
            e.progress is None,
            e.error is None,
    {
        let (state, default_message) = if success {
            ("success", "安装完成")
        } else {
            ("failed", "安装失败")
        };
        let m = match message {
            Some(m) => m,
            None => default_message,
        };
        self.event("job.done", state, m, now_ms, None, None)
    }

    /// The `job.failed` event with its error; the detail defaults to the
    /// message.
    pub fn emit_job_failed(&self, error_code: &str, message: &str, detail: Option<&str>, now_ms: i64) -> (e:
        InstallProgressEvent)
        ensures
            from_reporter(e, *self, now_ms),
            e.step_id@ == "job.failed"@,
            e.state@ == "failed"@,
            e.message@ == message@,
            e.progress is None,
            error_is(
                e.error,
                error_code@,
                match detail {
                    Some(d) => d@,
                    None => message@,
                },
            ),
    {
        let d = match detail {
            Some(d) => d,
            None => message,
        };
        let err = ErrorPayload { code: owned(error_code), detail: owned(d), stderr: None, stdout: None };
        self.event("job.failed", "failed", message, now_ms, None, Some(err))
    }
}


/// The closing `device.finalVerify` event of a Windows install: `success`
/// with full progress, or `failed` without; the message defaults to
/// `安装完成` / `安装失败`; the legacy phase is `finalVerify`.
pub fn final_verify_event(
    job_id: &str,
    printer_name: &str,
    success: bool,
    message: Option<String>,
    ts_ms: i64,
) -> (e: InstallProgressEvent)
    ensures
        e.job_id@ == job_id@,
        e.printer_name@ == printer_name@,
        e.step_id@ == "device.finalVerify"@,
        e.state@ == (if success {
            "success"@
        } else {
            "failed"@
        }),
        e.message@ == (match message {
            Some(m) => m@,
            None => if success {
                "安装完成"@
            } else {
                "安装失败"@
            },
        }),
        e.ts_ms == ts_ms,
        success ==> (e.progress matches Some(p) && p.current == Some(100u64) && p.total == Some(
            100u64,
        ) && opt_view(p.unit) == Some("percent"@) && p.percent == Some(100u64)),
        !success ==> e.progress is None,
        e.error is None,
        e.meta is None,
        e.install_mode is None,
        opt_view(e.legacy_phase) == Some("finalVerify"@),
{
    let state = if success {
        owned("success")
    } else {
        owned("failed")
    };
    let m = match message {
        Some(m) => m,
        None => if success {
            owned("安装完成")
        } else {
            owned("安装失败")
        },
    };
    let progress = if success {
        Some(
            ProgressCounts {
                current: Some(100),
                total: Some(100),
                unit: Some(owned("percent")),
                percent: Some(100),
            },
        )
    } else {
        None
    };
    InstallProgressEvent {
        job_id: owned(job_id),
        printer_name: owned(printer_name),
        step_id: owned("device.finalVerify"),
        state,
        message: m,
        ts_ms,
        progress,
        error: None,
        meta: None,
        legacy_phase: Some(owned("finalVerify")),
        install_mode: None,
    }
}

} // verus!
