use vstd::prelude::*;
use crate::config::{clone_string, clone_strings, strings_view};
use crate::text::{owned, append_str, str_eq};
use crate::win_extract::{components, path_starts_with};

verus! {

// ---------------------------------------------------------------------------
// Copying an unpacked driver into the drivers root
// ---------------------------------------------------------------------------

/// What copying the driver tree did.
pub struct MaterializeResult {
    pub copied_files: usize,
    pub top_entries: Vec<String>,
    pub src_root: String,
    pub dest_root: String,
}

/// Why copying the driver tree failed.
pub enum MaterializeError {
    IoError { step: String, operation: String, error: String },
    SourceNotFound { src_root: String },
    DestCreationFailed { dest_root: String, error: String },
}

pub open spec fn spec_materialize_error_message(e: MaterializeError) -> Seq<char> {
    match e {
        MaterializeError::IoError { step, operation, error } => "IO 错误 (step="@ + step@
            + ", operation="@ + operation@ + "): "@ + error@,
        MaterializeError::SourceNotFound { src_root } => "源目录不存在: "@ + src_root@,
        MaterializeError::DestCreationFailed { dest_root, error } => "目标目录创建失败: "@ + dest_root@
            + " | 错误: "@ + error@,
    }
}

impl MaterializeError {
    /// The error's text, as it is shown and logged.
    pub fn message(&self) -> (r: String)
        ensures
            r@ == spec_materialize_error_message(*self),
    {
        match self {
            MaterializeError::IoError { step, operation, error } => {
                let mut r = owned("IO 错误 (step=");
                append_str(&mut r, step.as_str());
                append_str(&mut r, ", operation=");
                append_str(&mut r, operation.as_str());
                append_str(&mut r, "): ");
                append_str(&mut r, error.as_str());
                r
            },
            MaterializeError::SourceNotFound { src_root } => {
                let mut r = owned("源目录不存在: ");
                append_str(&mut r, src_root.as_str());
                r
            },
            MaterializeError::DestCreationFailed { dest_root, error } => {
                let mut r = owned("目标目录创建失败: ");
                append_str(&mut r, dest_root.as_str());
                append_str(&mut r, " | 错误: ");
                append_str(&mut r, error.as_str());
                r
            },
        }
    }
}

/// Where the driver files are in the unpacked package: in its `drivers`
/// directory for the `contains_drivers_dir` layout, else at its top.
pub fn materialize_source(extracted_root: &Vec<String>, layout: Option<&str>) -> (r: Vec<String>)
    ensures
        components(r@) == (if layout matches Some(l) && l@ == "contains_drivers_dir"@ {
            components(extracted_root@).push("drivers"@)
        } else {
            components(extracted_root@)
        }),
{
    let mut r = clone_strings(extracted_root);
    let nested = match layout {
        Some(l) => str_eq(l, "contains_drivers_dir"),
        None => false,
    };
    if nested {
        let ghost before = r@;
        r.push(owned("drivers"));
        assert(components(r@) =~= components(before).push("drivers"@));
    }
    r
}

/// Where one walked entry is copied to: its path relative to the source,
/// below the drivers root; and whether it lies directly in the source. An
/// entry outside the source has no place.
pub fn materialize_target(entry: &Vec<String>, src_root: &Vec<String>, drivers_root: &Vec<String>) -> (r:
    Option<(Vec<String>, bool)>)
    ensures
        path_starts_with(components(entry@), components(src_root@)) ==> (r matches Some((dest, top))
            && components(dest@) == components(drivers_root@) + components(entry@).skip(
            src_root@.len() as int,
        ) && top == (entry@.len() == src_root@.len() + 1)),
        !path_starts_with(components(entry@), components(src_root@)) ==> r is None,
{
    if src_root.len() > entry.len() {
        return None;
    }
    let mut i: usize = 0;
    while i < src_root.len()
        invariant
            src_root@.len() <= entry@.len(),
            i <= src_root@.len(),
            forall|j: int| 0 <= j < i ==> entry@[j]@ == src_root@[j]@,
        decreases src_root@.len() - i,
    {
        if !str_eq(entry[i].as_str(), src_root[i].as_str()) {
            assert(components(entry@).take(src_root@.len() as int)[i as int] != components(
                src_root@,
            )[i as int]);
            return None;
        }
        i = i + 1;
    }
    assert(components(entry@).take(src_root@.len() as int) =~= components(src_root@));
    let mut dest = clone_strings(drivers_root);
    let mut k: usize = src_root.len();
    while k < entry.len()
        invariant
            src_root@.len() <= k <= entry@.len(),
            components(dest@) == components(drivers_root@) + components(entry@).subrange(
                src_root@.len() as int,
                k as int,
            ),
        decreases entry@.len() - k,
    {
        let ghost before = dest@;
        dest.push(clone_string(&entry[k]));
        assert(components(dest@) =~= components(before).push(entry@[k as int]@));
        assert(components(entry@).subrange(src_root@.len() as int, k + 1) =~= components(
            entry@,
        ).subrange(src_root@.len() as int, k as int).push(entry@[k as int]@));
        k = k + 1;
    }
    assert(components(entry@).subrange(src_root@.len() as int, entry@.len() as int) =~= components(
        entry@,
    ).skip(src_root@.len() as int));
    let top = entry.len() > src_root.len() && entry.len() - src_root.len() == 1;
    Some((dest, top))
}

// ---------------------------------------------------------------------------
// Fetching, unpacking and copying a driver
// ---------------------------------------------------------------------------

/// What a bootstrap of a remote driver produced.
pub struct BootstrapResult {
    pub driver_uuid: String,
    pub payload_zip: String,
    pub extracted_root: String,
    pub materialize_result: MaterializeResult,
}

/// Why a bootstrap failed.
pub enum BootstrapError {
    RemoteDriverMissing { reason: String },
    FetchFailed { error: String },
    ExtractFailed { error: String },
    MaterializeFailed { error: String },
    InfNotFoundAfterBootstrap { effective_path: String, inf_abs_path: String, evidence: String },
}

pub open spec fn spec_bootstrap_error_message(e: BootstrapError) -> Seq<char> {
    match e {
        BootstrapError::RemoteDriverMissing { reason } => "远程驱动信息缺失: "@ + reason@,
        BootstrapError::FetchFailed { error } => "下载失败: "@ + error@,
        BootstrapError::ExtractFailed { error } => "解压失败: "@ + error@,
        BootstrapError::MaterializeFailed { error } => "Materialize 失败: "@ + error@,
        BootstrapError::InfNotFoundAfterBootstrap { effective_path, inf_abs_path, evidence } =>
            "Bootstrap 后 INF 文件仍不存在\n有效路径: "@ + effective_path@ + "\n绝对路径: "@
            + inf_abs_path@ + "\n证据: "@ + evidence@,
    }
}

impl BootstrapError {
    /// The error's text, as it is shown and logged.
    pub fn message(&self) -> (r: String)
        ensures
            r@ == spec_bootstrap_error_message(*self),
    {
        match self {
            BootstrapError::RemoteDriverMissing { reason } => {
                let mut r = owned("远程驱动信息缺失: ");
                append_str(&mut r, reason.as_str());
                r
            },
            BootstrapError::FetchFailed { error } => {
                let mut r = owned("下载失败: ");
                append_str(&mut r, error.as_str());
                r
            },
            BootstrapError::ExtractFailed { error } => {
                let mut r = owned("解压失败: ");
                append_str(&mut r, error.as_str());
                r
            },
            BootstrapError::MaterializeFailed { error } => {
                let mut r = owned("Materialize 失败: ");
                append_str(&mut r, error.as_str());
                r
            },
            BootstrapError::InfNotFoundAfterBootstrap { effective_path, inf_abs_path, evidence } => {
                let mut r = owned("Bootstrap 后 INF 文件仍不存在\n有效路径: ");
                append_str(&mut r, effective_path.as_str());
                append_str(&mut r, "\n绝对路径: ");
                append_str(&mut r, inf_abs_path.as_str());
                append_str(&mut r, "\n证据: ");
                append_str(&mut r, evidence.as_str());
                r
            },
        }
    }
}

} // verus!
