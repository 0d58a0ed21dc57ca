use vstd::prelude::*;
use crate::config::clone_string;
use crate::text::{owned, append_str, append_chars};
use crate::win_delete::{ps_quote, ps_quote_exec};
use crate::win_extract::{
    components, driver_dirs, validate_driver_uuid, driver_uuid_problem, DriverDirs, ExtractError,
    ExtractForDriverResult,
};

verus! {

// ---------------------------------------------------------------------------
// Unpacking a driver package, step by step
// ---------------------------------------------------------------------------

/// An I/O failure while unpacking: the step, what was being done, and the
/// text `无法<operation>[ <path>]: <error>`.
pub open spec fn spec_unpack_io_error(
    step: Seq<char>,
    operation: Seq<char>,
    path: Option<Seq<char>>,
    error: Seq<char>,
) -> (Seq<char>, Seq<char>, Seq<char>) {
    (
        step,
        operation,
        match path {
            Some(p) => "无法"@ + operation + " "@ + p + ": "@ + error,
            None => "无法"@ + operation + ": "@ + error,
        },
    )
}

pub open spec fn io_error_is(e: ExtractError, v: (Seq<char>, Seq<char>, Seq<char>)) -> bool {
    e matches ExtractError::IoError { step, operation, error } && step@ == v.0 && operation@ == v.1
        && error@ == v.2
}

/// Builds that I/O failure.
pub fn unpack_io_error(step: &str, operation: &str, path: Option<&str>, error: &str) -> (r: ExtractError)
    ensures
        io_error_is(
            r,
            spec_unpack_io_error(
                step@,
                operation@,
                match path {
                    Some(p) => Some(p@),
                    None => None,
                },
                error@,
            ),
        ),
{
    let mut m = owned("无法");
    append_str(&mut m, operation);
    match path {
        Some(p) => {
            append_str(&mut m, " ");
            append_str(&mut m, p);
        },
        None => {},
    }
    append_str(&mut m, ": ");
    append_str(&mut m, error);
    ExtractError::IoError { step: owned(step), operation: owned(operation), error: m }
}

/// The PowerShell command that expands a zip archive into a folder, each
/// path in single quotes with its own quotes doubled.
pub open spec fn spec_expand_archive_script(zip_path: Seq<char>, dest_dir: Seq<char>) -> Seq<char> {
    "[Console]::OutputEncoding = [System.Text.Encoding]::UTF8; Expand-Archive -LiteralPath '"@
        + ps_quote(zip_path) + "' -DestinationPath '"@ + ps_quote(dest_dir) + "' -Force"@
}

pub fn expand_archive_script(zip_path: &str, dest_dir: &str) -> (r: String)
    ensures
        r@ == spec_expand_archive_script(zip_path@, dest_dir@),
{
    let mut r = owned(
        "[Console]::OutputEncoding = [System.Text.Encoding]::UTF8; Expand-Archive -LiteralPath '",
    );
    append_chars(&mut r, ps_quote_exec(zip_path).as_slice());
    append_str(&mut r, "' -DestinationPath '");
    append_chars(&mut r, ps_quote_exec(dest_dir).as_slice());
    append_str(&mut r, "' -Force");
    r
}

/// How the directories of an unpacking are shown in messages.
pub struct UnpackShown {
    pub zip_path: String,
    pub staging_root: String,
    pub staging_dir: String,
    pub uuid_root: String,
    pub extracted_root: String,
}

/// Where an unpacking stands: what it waits for.
#[derive(PartialEq, Eq, Structural, Clone, Copy)]
pub enum UnpackStage {
    PreparingDirs,
    CheckingZip,
    Expanding,
    CheckingEntries,
    Copying,
    Summarizing,
    Finished,
}

/// An unpacking in progress.
pub struct DriverUnpack {
    pub driver_uuid: String,
    pub dirs: DriverDirs,
    pub shown: UnpackShown,
    pub file_count: usize,
    pub stage: UnpackStage,
}

/// Which directory could not be prepared.
pub enum PrepareOp {
    CreateStagingRoot,
    RemoveOldStaging,
    CreateStaging,
    CreateExtractedRoot,
}

pub open spec fn prepare_operation(op: PrepareOp) -> Seq<char> {
    match op {
        PrepareOp::CreateStagingRoot => "创建 staging 根目录"@,
        PrepareOp::RemoveOldStaging => "删除现有 staging 目录"@,
        PrepareOp::CreateStaging => "创建 staging 目录"@,
        PrepareOp::CreateExtractedRoot => "创建 extracted 根目录"@,
    }
}

pub open spec fn prepare_path(op: PrepareOp, shown: UnpackShown) -> Seq<char> {
    match op {
        PrepareOp::CreateStagingRoot => shown.staging_root@,
        PrepareOp::RemoveOldStaging => shown.staging_dir@,
        PrepareOp::CreateStaging => shown.staging_dir@,
        PrepareOp::CreateExtractedRoot => shown.extracted_root@,
    }
}

/// What the caller is to do next.
pub enum UnpackAction {
    /// Create the staging root, remove an old staging directory, create the
    /// staging directory and the extracted root, in that order.
    PrepareDirs,
    /// Look for the package file.
    CheckZip,
    /// Unpack the package into the staging directory.
    Expand,
    /// Walk the staging directory: every entry must lie inside the driver's
    /// directory (`zip_slip_check_entry`); count the files.
    CheckEntries,
    /// Copy the staging directory's tree into the extracted root.
    CopyTree,
    /// Remove the staging directory and list the extracted root.
    CleanUpAndList,
    /// Unpacking is over (the staging directory is removed either way).
    Finish(Result<ExtractForDriverResult, ExtractError>),
}

pub struct UnpackStep {
    pub state: DriverUnpack,
    pub action: UnpackAction,
}

pub open spec fn same_unpack(a: DriverUnpack, b: DriverUnpack) -> bool {
    &&& a.driver_uuid@ == b.driver_uuid@
    &&& a.dirs == b.dirs
    &&& a.shown == b.shown
}

fn at_stage(s: DriverUnpack, stage: UnpackStage) -> (t: DriverUnpack)
    ensures
        same_unpack(s, t),
        t.file_count == s.file_count,
        t.stage == stage,
{
    DriverUnpack { stage, ..s }
}

/// Starts unpacking a package for a driver identifier: the identifier is
/// checked first (a bad one ends it); then the directories are prepared.
pub fn start_unpack(drivers_root: &Vec<String>, driver_uuid: &str, run_id: &str, shown: UnpackShown) -> (r:
    UnpackStep)
    ensures
        r.state.driver_uuid@ == driver_uuid@,
        r.state.shown == shown,
        r.state.file_count == 0,
        match driver_uuid_problem(driver_uuid@) {
            Some(reason) => {
                &&& r.state.stage == UnpackStage::Finished
                &&& r.action matches UnpackAction::Finish(Err(ExtractError::InvalidDriverUuid { driver_uuid: u, reason: why }))
                    && u@ == driver_uuid@ && why@ == reason
            },
            None => {
                &&& r.state.stage == UnpackStage::PreparingDirs
                &&& components(r.state.dirs.uuid_root@) == components(drivers_root@).push(driver_uuid@)
                &&& components(r.state.dirs.staging_dir@) == components(drivers_root@).push(driver_uuid@).push(
                    "_staging"@,
                ).push(run_id@)
                &&& components(r.state.dirs.extracted_root@) == components(drivers_root@).push(
                    driver_uuid@,
                ).push("extracted"@)
                &&& r.action is PrepareDirs
            },
        },
{
    let checked = validate_driver_uuid(driver_uuid);
    let dirs = driver_dirs(drivers_root, driver_uuid, run_id);
    match checked {
        Err(e) => {
            let s = DriverUnpack { driver_uuid: owned(driver_uuid), dirs, shown, file_count: 0, stage: UnpackStage::Finished };
            UnpackStep { state: s, action: UnpackAction::Finish(Err(e)) }
        },
        Ok(()) => {
            let s = DriverUnpack {
                driver_uuid: owned(driver_uuid),
                dirs,
                shown,
                file_count: 0,
                stage: UnpackStage::PreparingDirs,
            };
            UnpackStep { state: s, action: UnpackAction::PrepareDirs }
        },
    }
}

/// After preparing the directories: a failure ends the unpacking with an
/// I/O error naming the directory; otherwise the package is looked for.
pub fn after_prepare(s: DriverUnpack, prepared: Result<(), (PrepareOp, String)>) -> (r: UnpackStep)
    requires
        s.stage == UnpackStage::PreparingDirs,
    ensures
        same_unpack(s, r.state),
        r.state.file_count == s.file_count,
        match prepared {
            Err((op, e)) => r.state.stage == UnpackStage::Finished && (r.action matches UnpackAction::Finish(Err(x))
                && io_error_is(
                x,
                spec_unpack_io_error("prepare_dirs"@, prepare_operation(op), Some(prepare_path(op, s.shown)), e@),
            )),
            Ok(()) => r.state.stage == UnpackStage::CheckingZip && r.action is CheckZip,
        },
{
    match prepared {
        Err((op, e)) => {
            let (operation, path): (&str, &str) = match op {
                PrepareOp::CreateStagingRoot => ("创建 staging 根目录", s.shown.staging_root.as_str()),
                PrepareOp::RemoveOldStaging => ("删除现有 staging 目录", s.shown.staging_dir.as_str()),
                PrepareOp::CreateStaging => ("创建 staging 目录", s.shown.staging_dir.as_str()),
                PrepareOp::CreateExtractedRoot => ("创建 extracted 根目录", s.shown.extracted_root.as_str()),
            };
            let x = unpack_io_error("prepare_dirs", operation, Some(path), e.as_str());
            UnpackStep { state: at_stage(s, UnpackStage::Finished), action: UnpackAction::Finish(Err(x)) }
        },
        Ok(()) => UnpackStep { state: at_stage(s, UnpackStage::CheckingZip), action: UnpackAction::CheckZip },
    }
}

/// After looking for the package: a missing one ends the unpacking;
/// otherwise it is unpacked into the staging directory.
pub fn after_zip_check(s: DriverUnpack, exists: bool) -> (r: UnpackStep)
    requires
        s.stage == UnpackStage::CheckingZip,
    ensures
        same_unpack(s, r.state),
        r.state.file_count == s.file_count,
        !exists ==> r.state.stage == UnpackStage::Finished && (r.action matches UnpackAction::Finish(
            Err(ExtractError::ZipNotFound { zip_path: z }),
        ) && z@ == s.shown.zip_path@),
        exists ==> r.state.stage == UnpackStage::Expanding && r.action is Expand,
{
    if !exists {
        let z = clone_string(&s.shown.zip_path);
        UnpackStep {
            state: at_stage(s, UnpackStage::Finished),
            action: UnpackAction::Finish(Err(ExtractError::ZipNotFound { zip_path: z })),
        }
    } else {
        UnpackStep { state: at_stage(s, UnpackStage::Expanding), action: UnpackAction::Expand }
    }
}

/// After unpacking: a failure ends it (`expand_archive`, with the error as
/// error output and no exit code); otherwise the entries are checked.
pub fn after_expand(s: DriverUnpack, expanded: Result<(), String>) -> (r: UnpackStep)
    requires
        s.stage == UnpackStage::Expanding,
    ensures
        same_unpack(s, r.state),
        r.state.file_count == s.file_count,
        match expanded {
            Err(e) => r.state.stage == UnpackStage::Finished && (r.action matches UnpackAction::Finish(
                Err(ExtractError::ExtractFailed { step, zip_path, dest_dir, stdout, stderr, exit_code }),
            ) && step@ == "expand_archive"@ && zip_path@ == s.shown.zip_path@ && dest_dir@
                == s.shown.staging_dir@ && stdout@ == Seq::<char>::empty() && stderr == e && exit_code is None),
            Ok(()) => r.state.stage == UnpackStage::CheckingEntries && r.action is CheckEntries,
        },
{
    match expanded {
        Err(e) => {
            let x = ExtractError::ExtractFailed {
                step: owned("expand_archive"),
                zip_path: clone_string(&s.shown.zip_path),
                dest_dir: clone_string(&s.shown.staging_dir),
                stdout: String::new(),
                stderr: e,
                exit_code: None,
            };
            UnpackStep { state: at_stage(s, UnpackStage::Finished), action: UnpackAction::Finish(Err(x)) }
        },
        Ok(()) => UnpackStep { state: at_stage(s, UnpackStage::CheckingEntries), action: UnpackAction::CheckEntries },
    }
}

/// After walking the entries: a failure (an entry outside the driver's
/// directory, or an I/O error) ends the unpacking; otherwise the number of
/// files is kept and the tree copied.
pub fn after_entries(s: DriverUnpack, checked: Result<usize, ExtractError>) -> (r: UnpackStep)
    requires
        s.stage == UnpackStage::CheckingEntries,
    ensures
        same_unpack(s, r.state),
        match checked {
            Err(e) => r.state.stage == UnpackStage::Finished && r.action == UnpackAction::Finish(
                Err::<ExtractForDriverResult, ExtractError>(e),
            ),
            Ok(n) => r.state.stage == UnpackStage::Copying && r.state.file_count == n && r.action is CopyTree,
        },
{
    match checked {
        Err(e) => UnpackStep { state: at_stage(s, UnpackStage::Finished), action: UnpackAction::Finish(Err(e)) },
        Ok(n) => {
            let mut t = at_stage(s, UnpackStage::Copying);
            t.file_count = n;
            UnpackStep { state: t, action: UnpackAction::CopyTree }
        },
    }
}

/// After copying the tree: a failure ends the unpacking; otherwise the
/// staging directory is removed and the extracted root listed.
pub fn after_copy(s: DriverUnpack, copied: Result<usize, ExtractError>) -> (r: UnpackStep)
    requires
        s.stage == UnpackStage::Copying,
    ensures
        same_unpack(s, r.state),
        r.state.file_count == s.file_count,
        match copied {
            Err(e) => r.state.stage == UnpackStage::Finished && r.action == UnpackAction::Finish(
                Err::<ExtractForDriverResult, ExtractError>(e),
            ),
            Ok(_) => r.state.stage == UnpackStage::Summarizing && r.action is CleanUpAndList,
        },
{
    match copied {
        Err(e) => UnpackStep { state: at_stage(s, UnpackStage::Finished), action: UnpackAction::Finish(Err(e)) },
        Ok(_) => UnpackStep { state: at_stage(s, UnpackStage::Summarizing), action: UnpackAction::CleanUpAndList },
    }
}

/// After listing the extracted root: the unpacking ends with the driver
/// identifier, its directories, the number of files and the top entries;
/// a root that cannot be read ends it with an I/O error.
pub fn after_summary(s: DriverUnpack, listed: Result<Vec<String>, String>) -> (r: UnpackStep)
    requires
        s.stage == UnpackStage::Summarizing,
    ensures
        same_unpack(s, r.state),
        r.state.stage == UnpackStage::Finished,
        match listed {
            Err(e) => r.action matches UnpackAction::Finish(Err(x)) && io_error_is(
                x,
                spec_unpack_io_error("summary"@, "读取 extracted 目录"@, Some(s.shown.extracted_root@), e@),
            ),
            Ok(top) => r.action matches UnpackAction::Finish(Ok(res)) && res.driver_uuid@ == s.driver_uuid@
                && res.uuid_root@ == s.shown.uuid_root@ && res.extracted_root@ == s.shown.extracted_root@
                && res.file_count == s.file_count && res.top_entries == top,
        },
{
    match listed {
        Err(e) => {
            let x = unpack_io_error("summary", "读取 extracted 目录", Some(s.shown.extracted_root.as_str()), e.as_str());
            UnpackStep { state: at_stage(s, UnpackStage::Finished), action: UnpackAction::Finish(Err(x)) }
        },
        Ok(top) => {
            let res = ExtractForDriverResult {
                driver_uuid: clone_string(&s.driver_uuid),
                uuid_root: clone_string(&s.shown.uuid_root),
                extracted_root: clone_string(&s.shown.extracted_root),
                file_count: s.file_count,
                top_entries: top,
            };
            UnpackStep { state: at_stage(s, UnpackStage::Finished), action: UnpackAction::Finish(Ok(res)) }
        },
    }
}

} // verus!
