use vstd::prelude::*;
use crate::config::opt_view;
use crate::events::InstallResult;
use crate::text::{owned, append_str, append_chars, chars_of, string_of, starts_with, starts_with_exec, slice_chars};
use crate::win_bootstrap::{BootstrapError, spec_bootstrap_error_message};
use crate::win_extract::{components, path_starts_with, normalize_for_compare, spec_normalize_for_compare};

verus! {

// ---------------------------------------------------------------------------
// Where a driver's INF file is
// ---------------------------------------------------------------------------

/// Why an INF path was refused.
pub enum InfPathError {
    InvalidDriverPathTraversal { effective_path: String, resolved_path: String, drivers_root: String },
    PathTraversalNotAllowed { effective_path: String, reason: String },
    MissingLocalDriverInf { effective_path: String, inf_abs_path: String },
}

pub open spec fn spec_inf_path_error_message(e: InfPathError) -> Seq<char> {
    match e {
        InfPathError::InvalidDriverPathTraversal { effective_path, resolved_path, drivers_root } =>
            "路径越界检测失败: effective_path=\""@ + effective_path@ + "\" resolved_path=\""@
            + resolved_path@ + "\" drivers_root=\""@ + drivers_root@ + "\""@,
        InfPathError::PathTraversalNotAllowed { effective_path, reason } =>
            "路径遍历不允许: effective_path=\""@ + effective_path@ + "\" reason=\""@ + reason@ + "\""@,
        InfPathError::MissingLocalDriverInf { effective_path, inf_abs_path } =>
            "本地 INF 文件不存在: effective_path=\""@ + effective_path@ + "\" inf_abs_path=\""@
            + inf_abs_path@ + "\""@,
    }
}

impl InfPathError {
    /// The error's text, as it is shown and logged.
    pub fn message(&self) -> (r: String)
        ensures
            r@ == spec_inf_path_error_message(*self),
    {
        match self {
            InfPathError::InvalidDriverPathTraversal { effective_path, resolved_path, drivers_root } => {
                let mut r = owned("路径越界检测失败: effective_path=\"");
                append_str(&mut r, effective_path.as_str());
                append_str(&mut r, "\" resolved_path=\"");
                append_str(&mut r, resolved_path.as_str());
                append_str(&mut r, "\" drivers_root=\"");
                append_str(&mut r, drivers_root.as_str());
                append_str(&mut r, "\"");
                r
            },
            InfPathError::PathTraversalNotAllowed { effective_path, reason } => {
                let mut r = owned("路径遍历不允许: effective_path=\"");
                append_str(&mut r, effective_path.as_str());
                append_str(&mut r, "\" reason=\"");
                append_str(&mut r, reason.as_str());
                append_str(&mut r, "\"");
                r
            },
            InfPathError::MissingLocalDriverInf { effective_path, inf_abs_path } => {
                let mut r = owned("本地 INF 文件不存在: effective_path=\"");
                append_str(&mut r, effective_path.as_str());
                append_str(&mut r, "\" inf_abs_path=\"");
                append_str(&mut r, inf_abs_path.as_str());
                append_str(&mut r, "\"");
                r
            },
        }
    }
}

/// Every `\` written as `/`.
pub open spec fn spec_forward_slashes(s: Seq<char>) -> Seq<char> {
    s.map_values(|c: char| if c == '\\' {
        '/'
    } else {
        c
    })
}

pub fn forward_slashes(s: &str) -> (r: String)
    ensures
        r@ == spec_forward_slashes(s@),
{
    let v = chars_of(s);
    let mut out: Vec<char> = Vec::new();
    let mut i: usize = 0;
    while i < v.len()
        invariant
            i <= v@.len(),
            v@ == s@,
            out@ == spec_forward_slashes(v@.take(i as int)),
        decreases v@.len() - i,
    {
        let c = v[i];
        out.push(if c == '\\' {
            '/'
        } else {
            c
        });
        assert(spec_forward_slashes(v@.take(i + 1)) =~= spec_forward_slashes(v@.take(i as int)).push(
            if c == '\\' {
                '/'
            } else {
                c
            },
        ));
        i = i + 1;
    }
    assert(v@.take(v@.len() as int) =~= v@);
    string_of(out.as_slice())
}

/// The kinds of component a path is made of.
pub enum ComponentKind {
    Prefix,
    RootDir,
    CurDir,
    ParentDir,
    Normal,
}

/// The first refused component: a parent directory, a drive prefix, or a
/// root (a path that starts with `/`).
pub open spec fn first_refused(kinds: Seq<ComponentKind>) -> Option<Seq<char>>
    decreases kinds.len(),
{
    if kinds.len() == 0 {
        None
    } else {
        match kinds[0] {
            ComponentKind::ParentDir => Some("相对路径不能包含 '..' 组件"@),
            ComponentKind::Prefix => Some("相对路径不能包含路径前缀"@),
            ComponentKind::RootDir => Some("相对路径不能是绝对路径"@),
            _ => first_refused(kinds.drop_first()),
        }
    }
}

/// A relative INF path from the configuration: `\` read as `/`; an
/// absolute path (one that starts with `/` included), `..` or a drive
/// prefix is refused; a leading `drivers/`
/// is removed. `is_absolute` and `kinds` describe the path with `/`
/// separators as the platform's path type reads it.
pub open spec fn spec_normalize_inf_rel_path(
    effective: Seq<char>,
    is_absolute: bool,
    kinds: Seq<ComponentKind>,
) -> Result<Seq<char>, Seq<char>> {
    let n = spec_forward_slashes(effective);
    if is_absolute {
        Err("相对路径不能是绝对路径"@)
    } else {
        match first_refused(kinds) {
            Some(reason) => Err(reason),
            None => if starts_with(n, "drivers/"@) {
                Ok(n.skip(8))
            } else {
                Ok(n)
            },
        }
    }
}

pub fn normalize_inf_rel_path(effective_driver_path: &str, is_absolute: bool, kinds: &Vec<ComponentKind>) -> (r:
    Result<String, InfPathError>)
    ensures
        match spec_normalize_inf_rel_path(effective_driver_path@, is_absolute, kinds@) {
            Ok(p) => r matches Ok(s) && s@ == p,
            Err(reason) => r matches Err(InfPathError::PathTraversalNotAllowed { effective_path: e, reason: why })
                && e@ == effective_driver_path@ && why@ == reason,
        },
{
    let n = forward_slashes(effective_driver_path);
    if is_absolute {
        return Err(
            InfPathError::PathTraversalNotAllowed {
                effective_path: owned(effective_driver_path),
                reason: owned("相对路径不能是绝对路径"),
            },
        );
    }
    let mut i: usize = 0;
    assert(kinds@.skip(0) =~= kinds@);
    while i < kinds.len()
        invariant
            i <= kinds@.len(),
            !is_absolute,
            first_refused(kinds@) == first_refused(kinds@.skip(i as int)),
        decreases kinds@.len() - i,
    {
        assert(kinds@.skip(i as int)[0] == kinds@[i as int]);
        assert(kinds@.skip(i as int).drop_first() =~= kinds@.skip(i + 1));
        match kinds[i] {
            ComponentKind::ParentDir => {
                return Err(
                    InfPathError::PathTraversalNotAllowed {
                        effective_path: owned(effective_driver_path),
                        reason: owned("相对路径不能包含 '..' 组件"),
                    },
                );
            },
            ComponentKind::Prefix => {
                return Err(
                    InfPathError::PathTraversalNotAllowed {
                        effective_path: owned(effective_driver_path),
                        reason: owned("相对路径不能包含路径前缀"),
                    },
                );
            },
            ComponentKind::RootDir => {
                return Err(
                    InfPathError::PathTraversalNotAllowed {
                        effective_path: owned(effective_driver_path),
                        reason: owned("相对路径不能是绝对路径"),
                    },
                );
            },
            _ => {},
        }
        i = i + 1;
    }
    let nv = chars_of(n.as_str());
    proof {
        reveal_strlit("drivers/");
    }
    if starts_with_exec(nv.as_slice(), chars_of("drivers/").as_slice()) {
        let rest = slice_chars(nv.as_slice(), 8, nv.len());
        assert(rest@ =~= n@.skip(8));
        Ok(string_of(rest.as_slice()))
    } else {
        Ok(n)
    }
}

/// An absolute INF path from the configuration is used as written (with
/// `/` separators), without its verbatim prefix.
pub fn absolute_inf_path(effective_driver_path: &str) -> (r: String)
    ensures
        r@ == spec_normalize_for_compare(spec_forward_slashes(effective_driver_path@)),
{
    let n = forward_slashes(effective_driver_path);
    normalize_for_compare(n.as_str())
}

/// A resolved INF path must lie inside the drivers root (both compared by
/// their canonical components, verbatim prefix removed).
pub fn inf_within_root(
    effective_driver_path: &str,
    inf_abs: &Vec<String>,
    drivers_root: &Vec<String>,
    inf_display: &str,
    root_display: &str,
) -> (r: Result<(), InfPathError>)
    ensures
        path_starts_with(components(inf_abs@), components(drivers_root@)) ==> r is Ok,
        !path_starts_with(components(inf_abs@), components(drivers_root@)) ==> (r matches Err(
            InfPathError::InvalidDriverPathTraversal { effective_path: e, resolved_path: p, drivers_root: d },
        ) && e@ == effective_driver_path@ && p@ == inf_display@ && d@ == root_display@),
{
    match crate::win_bootstrap::materialize_target(inf_abs, drivers_root, drivers_root) {
        Some(_) => Ok(()),
        None => Err(
            InfPathError::InvalidDriverPathTraversal {
                effective_path: owned(effective_driver_path),
                resolved_path: owned(inf_display),
                drivers_root: owned(root_display),
            },
        ),
    }
}

/// A failed install of a Windows request before any driver work: no
/// method, the message, and the given error output.
pub fn early_failure(message: String, stderr: Option<String>, dry_run: bool, job_id: &str) -> (r:
    InstallResult)
    ensures
        !r.success,
        r.message == message,
        r.method is None,
        r.stdout is None,
        r.stderr == stderr,
        r.effective_dry_run == dry_run,
        r.job_id@ == job_id@,
{
    InstallResult {
        success: false,
        message,
        method: None,
        stdout: None,
        stderr,
        effective_dry_run: dry_run,
        job_id: owned(job_id),
    }
}

/// The message of a local INF that is not there and cannot be fetched.
pub open spec fn spec_missing_inf_message(effective: Seq<char>, inf_abs: Seq<char>) -> Seq<char> {
    "本地 INF 文件不存在\n\neffective_driver_path: "@ + effective + "\ninf_abs_path: "@ + inf_abs
        + "\n\n请确保驱动文件已放置在正确位置"@
}

/// The error output of a local INF that is not there.
pub open spec fn spec_missing_inf_evidence(effective: Seq<char>, inf_abs: Seq<char>) -> Seq<char> {
    "MissingLocalDriverInf: effective_path=\""@ + effective + "\" inf_abs_path=\""@ + inf_abs + "\""@
}

pub fn missing_inf_result(effective: &str, inf_abs: &str, dry_run: bool, job_id: &str) -> (r: InstallResult)
    ensures
        !r.success,
        r.message@ == spec_missing_inf_message(effective@, inf_abs@),
        opt_view(r.stderr) == Some(spec_missing_inf_evidence(effective@, inf_abs@)),
        r.method is None,
        r.stdout is None,
        r.effective_dry_run == dry_run,
        r.job_id@ == job_id@,
{
    let mut m = owned("本地 INF 文件不存在\n\neffective_driver_path: ");
    append_str(&mut m, effective);
    append_str(&mut m, "\ninf_abs_path: ");
    append_str(&mut m, inf_abs);
    append_str(&mut m, "\n\n请确保驱动文件已放置在正确位置");
    let mut e = owned("MissingLocalDriverInf: effective_path=\"");
    append_str(&mut e, effective);
    append_str(&mut e, "\" inf_abs_path=\"");
    append_str(&mut e, inf_abs);
    append_str(&mut e, "\"");
    early_failure(m, Some(e), dry_run, job_id)
}

/// The message of an INF still missing after its package was fetched.
pub fn inf_missing_after_bootstrap(effective: &str, inf_abs: &str, dry_run: bool, job_id: &str) -> (r:
    InstallResult)
    ensures
        !r.success,
        r.message@ == "Bootstrap 后 INF 文件仍不存在\n\neffective_driver_path: "@ + effective@
            + "\ninf_abs_path: "@ + inf_abs@ + "\n\n请检查驱动包结构"@,
        opt_view(r.stderr) == Some(
            "InfNotFoundAfterBootstrap: "@ + "effective_path=\""@ + effective@ + "\" inf_abs=\""@
                + inf_abs@ + "\" bootstrap_completed=true"@,
        ),
        r.method is None,
        r.stdout is None,
        r.effective_dry_run == dry_run,
        r.job_id@ == job_id@,
{
    let mut m = owned("Bootstrap 后 INF 文件仍不存在\n\neffective_driver_path: ");
    append_str(&mut m, effective);
    append_str(&mut m, "\ninf_abs_path: ");
    append_str(&mut m, inf_abs);
    append_str(&mut m, "\n\n请检查驱动包结构");
    let mut e = owned("InfNotFoundAfterBootstrap: ");
    append_str(&mut e, "effective_path=\"");
    append_str(&mut e, effective);
    append_str(&mut e, "\" inf_abs=\"");
    append_str(&mut e, inf_abs);
    append_str(&mut e, "\" bootstrap_completed=true");
    early_failure(m, Some(e), dry_run, job_id)
}

/// A failure whose message is also its error output (`prefix` and the
/// error).
pub fn message_failure(prefix: &str, error: &str, dry_run: bool, job_id: &str) -> (r: InstallResult)
    ensures
        !r.success,
        r.message@ == prefix@ + error@,
        opt_view(r.stderr) == Some(prefix@ + error@),
        r.method is None,
        r.stdout is None,
        r.effective_dry_run == dry_run,
        r.job_id@ == job_id@,
{
    let mut m = owned(prefix);
    append_str(&mut m, error);
    let e = owned(m.as_str());
    early_failure(m, Some(e), dry_run, job_id)
}

// ---------------------------------------------------------------------------
// Finding a request's INF, fetching its package when it is missing
// ---------------------------------------------------------------------------

/// A failed request whose message and error output are both `text`.
pub open spec fn is_text_failure(r: InstallResult, text: Seq<char>, dry_run: bool, job_id: Seq<char>) -> bool {
    &&& !r.success
    &&& r.message@ == text
    &&& opt_view(r.stderr) == Some(text)
    &&& r.method is None
    &&& r.stdout is None
    &&& r.effective_dry_run == dry_run
    &&& r.job_id@ == job_id
}

/// What comes after a look for the INF file: use it, fetch and unpack the
/// remote package, look again, or end the request.
pub enum InfNext {
    Use(String),
    Bootstrap,
    ResolveAgain,
    Fail(InstallResult),
}

/// The first look for a request's INF: `resolved` is the absolute path
/// (as shown) and whether a file is there, or why the path was refused.
/// A missing file is fetched when the request has a remote package.
pub fn after_inf_resolve(
    effective: &str,
    resolved: Result<(String, bool), InfPathError>,
    has_remote: bool,
    dry_run: bool,
    job_id: &str,
) -> (r: InfNext)
    ensures
        match resolved {
            Err(e) => r matches InfNext::Fail(x) && is_text_failure(
                x,
                spec_inf_path_error_message(e),
                dry_run,
                job_id@,
            ),
            Ok((abs, true)) => r matches InfNext::Use(p) && p@ == abs@,
            Ok((abs, false)) => if has_remote {
                r is Bootstrap
            } else {
                r matches InfNext::Fail(x) && !x.success && x.message@ == spec_missing_inf_message(
                    effective@,
                    abs@,
                ) && opt_view(x.stderr) == Some(spec_missing_inf_evidence(effective@, abs@))
                    && x.method is None && x.stdout is None && x.effective_dry_run == dry_run
                    && x.job_id@ == job_id@
            },
        },
{
    match resolved {
        Err(e) => {
            let m = e.message();
            proof {
                reveal_strlit("");
                assert(""@ + m@ =~= m@);
            }
            InfNext::Fail(message_failure("", m.as_str(), dry_run, job_id))
        },
        Ok((abs, true)) => InfNext::Use(abs),
        Ok((abs, false)) => {
            if has_remote {
                InfNext::Bootstrap
            } else {
                InfNext::Fail(missing_inf_result(effective, abs.as_str(), dry_run, job_id))
            }
        },
    }
}

/// After the remote package was fetched, unpacked and copied: a failure
/// ends the request with `Bootstrap 失败: <error>`, else the INF is looked
/// for again.
pub fn after_bootstrap(bootstrapped: Result<(), BootstrapError>, dry_run: bool, job_id: &str) -> (r: InfNext)
    ensures
        match bootstrapped {
            Err(e) => r matches InfNext::Fail(x) && is_text_failure(
                x,
                "Bootstrap 失败: "@ + spec_bootstrap_error_message(e),
                dry_run,
                job_id@,
            ),
            Ok(()) => r is ResolveAgain,
        },
{
    match bootstrapped {
        Err(e) => {
            let m = e.message();
            InfNext::Fail(message_failure("Bootstrap 失败: ", m.as_str(), dry_run, job_id))
        },
        Ok(()) => InfNext::ResolveAgain,
    }
}

/// The second look, after the package was put in place: the INF must be
/// there now.
pub fn after_inf_reresolve(
    effective: &str,
    resolved: Result<(String, bool), InfPathError>,
    dry_run: bool,
    job_id: &str,
) -> (r: InfNext)
    ensures
        match resolved {
            Err(e) => r matches InfNext::Fail(x) && is_text_failure(
                x,
                "Bootstrap 后路径解析失败: "@ + spec_inf_path_error_message(e),
                dry_run,
                job_id@,
            ),
            Ok((abs, true)) => r matches InfNext::Use(p) && p@ == abs@,
            Ok((abs, false)) => r matches InfNext::Fail(x) && !x.success && x.message@
                == "Bootstrap 后 INF 文件仍不存在\n\neffective_driver_path: "@ + effective@
                + "\ninf_abs_path: "@ + abs@ + "\n\n请检查驱动包结构"@ && opt_view(x.stderr) == Some(
                "InfNotFoundAfterBootstrap: "@ + "effective_path=\""@ + effective@ + "\" inf_abs=\""@
                    + abs@ + "\" bootstrap_completed=true"@,
            ) && x.method is None && x.stdout is None && x.effective_dry_run == dry_run
                && x.job_id@ == job_id@,
        },
{
    match resolved {
        Err(e) => {
            let m = e.message();
            InfNext::Fail(message_failure("Bootstrap 后路径解析失败: ", m.as_str(), dry_run, job_id))
        },
        Ok((abs, true)) => InfNext::Use(abs),
        Ok((abs, false)) => InfNext::Fail(inf_missing_after_bootstrap(effective, abs.as_str(), dry_run, job_id)),
    }
}

} // verus!
