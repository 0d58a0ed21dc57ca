use vstd::prelude::*;
use crate::command::{decode_windows_string, spec_decode_windows_string};
use crate::config::{clone_string, clone_strings};
use crate::text::{owned, append_str, append_chars, u64_decimal, decimal};
use crate::win_extract::{
    assert_safe_dest_dir, components, entries_display, spec_entries_display, unsafe_destination_reason,
    ExtractError, ExtractResult,
};
use crate::win_queue::PsRun;
use crate::win_unpack::{expand_archive_script, spec_expand_archive_script, unpack_io_error, io_error_is, spec_unpack_io_error};
use crate::config::strings_view;

verus! {

// ---------------------------------------------------------------------------
// Unpacking an archive into a folder of the drivers cache, step by step
// (the older unpacker, kept for callers that give their own destination)
// ---------------------------------------------------------------------------

/// How the paths of an unpacking are shown in messages.
pub struct ZipShown {
    pub zip_path: String,
    pub dest_dir: String,
    pub drivers_root: String,
    pub cache_root: String,
    pub staging_root: String,
    pub staging_dir: String,
}

/// Where an unpacking stands: what it waits for.
#[derive(PartialEq, Eq, Structural, Clone, Copy)]
pub enum ZipStage {
    PreparingStaging,
    CheckingZip,
    Expanding,
    CheckingEntries,
    CreatingDest,
    Copying,
    Summarizing,
    Finished,
}

/// An unpacking in progress.
pub struct ZipExtraction {
    pub shown: ZipShown,
    /// The staging folder: `<drivers_root>/.cache/_extract_staging/<run id>`.
    pub staging_dir: Vec<String>,
    pub file_count: usize,
    pub dir_count: usize,
    pub copied_files: usize,
    pub stage: ZipStage,
}

/// The folders made before unpacking, in the order they are made.
#[derive(PartialEq, Eq, Structural, Clone, Copy)]
pub enum StagingOp {
    CreateStagingRoot,
    RemoveOldStaging,
    CreateStaging,
}

/// What the caller is to do next.
pub enum ZipAction {
    /// Create the staging root, remove a staging folder of the same name,
    /// create the staging folder.
    PrepareStaging,
    /// Tell whether the archive exists.
    CheckZip,
    /// Run this PowerShell command.
    Expand(String),
    /// Walk the staging folder: every entry must lie inside it (canonical
    /// paths); count files and folders.
    CheckEntries,
    /// Create the destination folder.
    CreateDest,
    /// Copy the staging tree into the destination, counting files.
    CopyTree,
    /// Remove the staging folder (its failure is ignored) and list the
    /// destination's top entries.
    CleanUpAndList,
    Finish(Result<ExtractResult, ExtractError>),
}

pub struct ZipStep {
    pub state: ZipExtraction,
    pub action: ZipAction,
}

pub open spec fn same_extraction(a: ZipExtraction, b: ZipExtraction) -> bool {
    &&& a.shown == b.shown
    &&& a.staging_dir == b.staging_dir
}

fn zip_at(s: ZipExtraction, stage: ZipStage) -> (t: ZipExtraction)
    ensures
        same_extraction(s, t),
        t.file_count == s.file_count,
        t.dir_count == s.dir_count,
        t.copied_files == s.copied_files,
        t.stage == stage,
{
    ZipExtraction { stage, ..s }
}

fn finish_with(s: ZipExtraction, e: ExtractError) -> (r: ZipStep)
    ensures
        same_extraction(s, r.state),
        r.state.file_count == s.file_count,
        r.state.dir_count == s.dir_count,
        r.state.copied_files == s.copied_files,
        r.state.stage == ZipStage::Finished,
        r.action == ZipAction::Finish(Err(e)),
{
    ZipStep { state: zip_at(s, ZipStage::Finished), action: ZipAction::Finish(Err(e)) }
}

/// Starts an unpacking into `dest`: the destination must lie strictly
/// inside the cache folder of the drivers root (`dest`, `drivers_root` and
/// `cache_root` are the paths in the form they are compared in); the
/// staging folder is `<root>/.cache/_extract_staging/<run_id>`, where
/// `root` is the drivers root as written.
pub fn start_extract_zip(
    dest: &Vec<String>,
    drivers_root: &Vec<String>,
    cache_root: &Vec<String>,
    root: &Vec<String>,
    run_id: &str,
    shown: ZipShown,
) -> (r: ZipStep)
    ensures
        r.state.shown == shown,
        components(r.state.staging_dir@) == components(root@).push(".cache"@).push(
            "_extract_staging"@,
        ).push(run_id@),
        r.state.file_count == 0 && r.state.dir_count == 0 && r.state.copied_files == 0,
        match unsafe_destination_reason(components(dest@), components(drivers_root@), components(cache_root@)) {
            Some(reason) => r.state.stage == ZipStage::Finished && (r.action matches ZipAction::Finish(
                Err(ExtractError::UnsafeDestination { dest_dir: d, drivers_root: dr, cache_root: c, reason: why }),
            ) && d@ == shown.dest_dir@ && dr@ == shown.drivers_root@ && c@ == shown.cache_root@
                && why@ == reason),
            None => r.state.stage == ZipStage::PreparingStaging && r.action is PrepareStaging,
        },
{
    let checked = assert_safe_dest_dir(
        dest,
        drivers_root,
        cache_root,
        shown.dest_dir.as_str(),
        shown.drivers_root.as_str(),
        shown.cache_root.as_str(),
    );
    let mut staging_dir = clone_strings(root);
    let ghost before = staging_dir@;
    staging_dir.push(owned(".cache"));
    staging_dir.push(owned("_extract_staging"));
    staging_dir.push(owned(run_id));
    assert(components(staging_dir@) =~= components(before).push(".cache"@).push("_extract_staging"@).push(
        run_id@,
    ));
    match checked {
        Err(e) => {
            let s = ZipExtraction {
                shown,
                staging_dir,
                file_count: 0,
                dir_count: 0,
                copied_files: 0,
                stage: ZipStage::Finished,
            };
            ZipStep { state: s, action: ZipAction::Finish(Err(e)) }
        },
        Ok(()) => {
            let s = ZipExtraction {
                shown,
                staging_dir,
                file_count: 0,
                dir_count: 0,
                copied_files: 0,
                stage: ZipStage::PreparingStaging,
            };
            ZipStep { state: s, action: ZipAction::PrepareStaging }
        },
    }
}

pub open spec fn staging_operation(op: StagingOp) -> Seq<char> {
    match op {
        StagingOp::CreateStagingRoot => "创建 staging 根目录"@,
        StagingOp::RemoveOldStaging => "删除现有 staging 目录"@,
        StagingOp::CreateStaging => "创建 staging 目录"@,
    }
}

pub open spec fn staging_path(op: StagingOp, shown: ZipShown) -> Seq<char> {
    match op {
        StagingOp::CreateStagingRoot => shown.staging_root@,
        _ => shown.staging_dir@,
    }
}

/// After the staging folders were made, or one of them could not be.
pub fn after_prepare_staging(s: ZipExtraction, prepared: Result<(), (StagingOp, String)>) -> (r: ZipStep)
    requires
        s.stage == ZipStage::PreparingStaging,
    ensures
        same_extraction(s, r.state),
        match prepared {
            Err((op, e)) => r.state.stage == ZipStage::Finished && (r.action matches ZipAction::Finish(Err(x))
                && io_error_is(
                x,
                spec_unpack_io_error("prepare_staging"@, staging_operation(op), Some(staging_path(op, s.shown)), e@),
            )),
            Ok(()) => r.state.stage == ZipStage::CheckingZip && r.action is CheckZip,
        },
{
    match prepared {
        Err((op, e)) => {
            let (operation, path): (&str, &str) = match op {
                StagingOp::CreateStagingRoot => ("创建 staging 根目录", s.shown.staging_root.as_str()),
                StagingOp::RemoveOldStaging => ("删除现有 staging 目录", s.shown.staging_dir.as_str()),
                StagingOp::CreateStaging => ("创建 staging 目录", s.shown.staging_dir.as_str()),
            };
            let x = unpack_io_error("prepare_staging", operation, Some(path), e.as_str());
            finish_with(s, x)
        },
        Ok(()) => ZipStep { state: zip_at(s, ZipStage::CheckingZip), action: ZipAction::CheckZip },
    }
}

/// A missing archive ends the unpacking; else it is expanded into the
/// staging folder with PowerShell's `Expand-Archive`.
pub fn after_archive_check(s: ZipExtraction, exists: bool) -> (r: ZipStep)
    requires
        s.stage == ZipStage::CheckingZip,
    ensures
        same_extraction(s, r.state),
        !exists ==> r.state.stage == ZipStage::Finished && (r.action matches ZipAction::Finish(
            Err(ExtractError::ZipNotFound { zip_path: z }),
        ) && z@ == s.shown.zip_path@),
        exists ==> r.state.stage == ZipStage::Expanding && (r.action matches ZipAction::Expand(script)
            && script@ == spec_expand_archive_script(s.shown.zip_path@, s.shown.staging_dir@)),
{
    if !exists {
        let z = clone_string(&s.shown.zip_path);
        finish_with(s, ExtractError::ZipNotFound { zip_path: z })
    } else {
        let script = expand_archive_script(s.shown.zip_path.as_str(), s.shown.staging_dir.as_str());
        ZipStep { state: zip_at(s, ZipStage::Expanding), action: ZipAction::Expand(script) }
    }
}

/// The failure of the expansion: its output decoded as Windows text.
pub open spec fn expand_failed(s: ZipExtraction, x: ExtractError, stdout: Seq<char>, stderr: Seq<char>, exit_code: Option<i32>) -> bool {
    x matches ExtractError::ExtractFailed { step, zip_path, dest_dir, stdout: o, stderr: e, exit_code: c } && step@
        == "expand_archive"@ && zip_path@ == s.shown.zip_path@ && dest_dir@ == s.shown.staging_dir@ && o@
        == stdout && e@ == stderr && c == exit_code
}

/// After PowerShell ran (or could not be run): exit code 0 goes on to the
/// check of the entries.
pub fn after_archive_expand(s: ZipExtraction, run: Result<PsRun, String>) -> (r: ZipStep)
    requires
        s.stage == ZipStage::Expanding,
    ensures
        same_extraction(s, r.state),
        match run {
            Err(e) => r.state.stage == ZipStage::Finished && (r.action matches ZipAction::Finish(Err(x))
                && expand_failed(s, x, Seq::<char>::empty(), e@, None)),
            Ok(o) => if o.exit_code == Some(0i32) {
                r.state.stage == ZipStage::CheckingEntries && r.action is CheckEntries
            } else {
                r.state.stage == ZipStage::Finished && (r.action matches ZipAction::Finish(Err(x))
                    && expand_failed(
                    s,
                    x,
                    spec_decode_windows_string(o.stdout@),
                    spec_decode_windows_string(o.stderr@),
                    o.exit_code,
                ))
            },
        },
{
    match run {
        Err(e) => {
            let x = ExtractError::ExtractFailed {
                step: owned("expand_archive"),
                zip_path: clone_string(&s.shown.zip_path),
                dest_dir: clone_string(&s.shown.staging_dir),
                stdout: String::new(),
                stderr: e,
                exit_code: None,
            };
            finish_with(s, x)
        },
        Ok(o) => {
            if o.exit_code == Some(0i32) {
                ZipStep { state: zip_at(s, ZipStage::CheckingEntries), action: ZipAction::CheckEntries }
            } else {
                let x = ExtractError::ExtractFailed {
                    step: owned("expand_archive"),
                    zip_path: clone_string(&s.shown.zip_path),
                    dest_dir: clone_string(&s.shown.staging_dir),
                    stdout: decode_windows_string(o.stdout.as_slice()),
                    stderr: decode_windows_string(o.stderr.as_slice()),
                    exit_code: o.exit_code,
                };
                finish_with(s, x)
            }
        },
    }
}

/// After the walk of the unpacked entries: the counts of files and folders,
/// or why it stopped (an entry outside the staging folder, or an I/O
/// failure).
pub fn after_entry_check(s: ZipExtraction, checked: Result<(usize, usize), ExtractError>) -> (r: ZipStep)
    requires
        s.stage == ZipStage::CheckingEntries,
    ensures
        same_extraction(s, r.state),
        match checked {
            Err(e) => r.state.stage == ZipStage::Finished && r.action == ZipAction::Finish(Err(e)),
            Ok((files, dirs)) => r.state.stage == ZipStage::CreatingDest && r.state.file_count == files
                && r.state.dir_count == dirs && r.action is CreateDest,
        },
{
    match checked {
        Err(e) => finish_with(s, e),
        Ok((files, dirs)) => {
            let mut t = zip_at(s, ZipStage::CreatingDest);
            t.file_count = files;
            t.dir_count = dirs;
            ZipStep { state: t, action: ZipAction::CreateDest }
        },
    }
}

/// After the destination folder was made, or could not be.
pub fn after_create_dest(s: ZipExtraction, created: Result<(), String>) -> (r: ZipStep)
    requires
        s.stage == ZipStage::CreatingDest,
    ensures
        same_extraction(s, r.state),
        r.state.file_count == s.file_count && r.state.dir_count == s.dir_count,
        match created {
            Err(e) => r.state.stage == ZipStage::Finished && (r.action matches ZipAction::Finish(Err(x))
                && io_error_is(
                x,
                spec_unpack_io_error("materialize_to_dest"@, "创建目标目录"@, Some(s.shown.dest_dir@), e@),
            )),
            Ok(()) => r.state.stage == ZipStage::Copying && r.action is CopyTree,
        },
{
    match created {
        Err(e) => {
            let x = unpack_io_error("materialize_to_dest", "创建目标目录", Some(s.shown.dest_dir.as_str()), e.as_str());
            finish_with(s, x)
        },
        Ok(()) => ZipStep { state: zip_at(s, ZipStage::Copying), action: ZipAction::CopyTree },
    }
}

/// After the copy into the destination: the number of files copied, or
/// why it stopped.
pub fn after_tree_copy(s: ZipExtraction, copied: Result<usize, ExtractError>) -> (r: ZipStep)
    requires
        s.stage == ZipStage::Copying,
    ensures
        same_extraction(s, r.state),
        r.state.file_count == s.file_count && r.state.dir_count == s.dir_count,
        match copied {
            Err(e) => r.state.stage == ZipStage::Finished && r.action == ZipAction::Finish(Err(e)),
            Ok(n) => r.state.stage == ZipStage::Summarizing && r.state.copied_files == n
                && r.action is CleanUpAndList,
        },
{
    match copied {
        Err(e) => finish_with(s, e),
        Ok(n) => {
            let mut t = zip_at(s, ZipStage::Summarizing);
            t.copied_files = n;
            ZipStep { state: t, action: ZipAction::CleanUpAndList }
        },
    }
}

/// The summary of an unpacking, for the log and the result.
pub open spec fn spec_extract_evidence(s: ZipExtraction, items: Seq<Seq<char>>) -> Seq<char> {
    "step=summary files="@ + decimal(s.file_count as int) + " dirs="@ + decimal(s.dir_count as int)
        + " copied_files="@ + decimal(s.copied_files as int) + " top_level="@ + spec_entries_display(items)
        + " dest_dir=\""@ + s.shown.dest_dir@ + "\" staging_dir=\""@ + s.shown.staging_dir@ + "\""@
}

/// After the destination was listed: the result, with the counts of the
/// entry check and the top entries of the destination.
pub fn after_dest_listing(s: ZipExtraction, listed: Result<Vec<String>, String>) -> (r: ZipStep)
    requires
        s.stage == ZipStage::Summarizing,
    ensures
        same_extraction(s, r.state),
        r.state.stage == ZipStage::Finished,
        match listed {
            Err(e) => r.action matches ZipAction::Finish(Err(x)) && io_error_is(
                x,
                spec_unpack_io_error("summary"@, "读取目录"@, Some(s.shown.dest_dir@), e@),
            ),
            Ok(items) => r.action matches ZipAction::Finish(Ok(res)) && res.extracted_files == s.file_count
                && res.extracted_dirs == s.dir_count && res.dest_dir@ == s.shown.dest_dir@ && res.top_level_items
                == items && res.evidence@ == spec_extract_evidence(s, strings_view(items@)),
        },
{
    match listed {
        Err(e) => {
            let x = unpack_io_error("summary", "读取目录", Some(s.shown.dest_dir.as_str()), e.as_str());
            finish_with(s, x)
        },
        Ok(items) => {
            let mut ev = owned("step=summary files=");
            append_chars(&mut ev, u64_decimal(s.file_count as u64).as_slice());
            append_str(&mut ev, " dirs=");
            append_chars(&mut ev, u64_decimal(s.dir_count as u64).as_slice());
            append_str(&mut ev, " copied_files=");
            append_chars(&mut ev, u64_decimal(s.copied_files as u64).as_slice());
            append_str(&mut ev, " top_level=");
            let shown_items = entries_display(&items);
            append_str(&mut ev, shown_items.as_str());
            append_str(&mut ev, " dest_dir=\"");
            append_str(&mut ev, s.shown.dest_dir.as_str());
            append_str(&mut ev, "\" staging_dir=\"");
            append_str(&mut ev, s.shown.staging_dir.as_str());
            append_str(&mut ev, "\"");
            let res = ExtractResult {
                extracted_files: s.file_count,
                extracted_dirs: s.dir_count,
                evidence: ev,
                dest_dir: clone_string(&s.shown.dest_dir),
                top_level_items: items,
            };
            ZipStep { state: zip_at(s, ZipStage::Finished), action: ZipAction::Finish(Ok(res)) }
        },
    }
}

} // verus!
