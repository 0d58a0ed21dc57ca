use vstd::prelude::*;
use crate::config::{clone_string, strings_view, clone_strings};
use crate::text::{
    owned, append_str, append_chars, chars_of, string_of, decimal, u64_decimal, i64_decimal,
    byte_len, byte_len_exec, starts_with, starts_with_exec, slice_chars, str_eq, join,
    join_strings,
};

verus! {

// ---------------------------------------------------------------------------
// Errors and results of unpacking a driver package
// ---------------------------------------------------------------------------

/// Why unpacking a driver package failed.
pub enum ExtractError {
    ZipNotFound { zip_path: String },
    ExtractFailed {
        step: String,
        zip_path: String,
        dest_dir: String,
        stdout: String,
        stderr: String,
        exit_code: Option<i32>,
    },
    ZipSlipDetected {
        offending_path: String,
        canonical_dest_dir: String,
        canonical_offending_path: String,
    },
    UnsafeDestination { dest_dir: String, drivers_root: String, cache_root: String, reason: String },
    InvalidDriverUuid { driver_uuid: String, reason: String },
    IoError { step: String, operation: String, error: String },
}

/// The text of an unpacking error.
pub open spec fn spec_extract_error_message(e: ExtractError) -> Seq<char> {
    match e {
        ExtractError::ZipNotFound { zip_path } => "ZIP 文件不存在: "@ + zip_path@,
        ExtractError::ExtractFailed { step, zip_path, dest_dir, stdout, stderr, exit_code } => {
            let exit_msg = match exit_code {
                Some(c) => "退出代码: "@ + decimal(c as int),
                None => "无法获取退出代码"@,
            };
            "解压失败 (step="@ + step@ + "): "@ + exit_msg + " | "@ + stderr@ + " | ZIP: "@ + zip_path@
                + " | Dest: "@ + dest_dir@
        },
        ExtractError::ZipSlipDetected {
            offending_path,
            canonical_dest_dir,
            canonical_offending_path,
        } => "检测到 zip-slip 攻击: 文件路径 \""@ + offending_path@ + "\" 越界\n规范化的目标目录: "@
            + canonical_dest_dir@ + "\n规范化的文件路径: "@ + canonical_offending_path@,
        ExtractError::UnsafeDestination { dest_dir, drivers_root, cache_root, reason } =>
            "目标目录不安全\n原因: "@ + reason@ + "\n目标目录: "@ + dest_dir@ + "\n驱动根目录: "@
            + drivers_root@ + "\n缓存根目录: "@ + cache_root@,
        ExtractError::InvalidDriverUuid { driver_uuid, reason } => "驱动 UUID 格式无效: "@ + reason@
            + "\n原因: "@ + reason@ + "\nUUID: "@ + driver_uuid@,
        ExtractError::IoError { step, operation, error } => "IO 错误 (step="@ + step@ + ", operation="@
            + operation@ + "): "@ + error@,
    }
}

impl ExtractError {
    /// The error's text, as it is shown and logged.
    pub fn message(&self) -> (r: String)
        ensures
            r@ == spec_extract_error_message(*self),
    {
        match self {
            ExtractError::ZipNotFound { zip_path } => {
                let mut r = owned("ZIP 文件不存在: ");
                append_str(&mut r, zip_path.as_str());
                r
            },
            ExtractError::ExtractFailed { step, zip_path, dest_dir, stdout, stderr, exit_code } => {
                let exit_msg = match exit_code {
                    Some(c) => {
                        let mut m = owned("退出代码: ");
                        append_chars(&mut m, i64_decimal(*c as i64).as_slice());
                        m
                    },
                    None => owned("无法获取退出代码"),
                };
                let mut r = owned("解压失败 (step=");
                append_str(&mut r, step.as_str());
                append_str(&mut r, "): ");
                append_str(&mut r, exit_msg.as_str());
                append_str(&mut r, " | ");
                append_str(&mut r, stderr.as_str());
                append_str(&mut r, " | ZIP: ");
                append_str(&mut r, zip_path.as_str());
                append_str(&mut r, " | Dest: ");
                append_str(&mut r, dest_dir.as_str());
                r
            },
            ExtractError::ZipSlipDetected {
                offending_path,
                canonical_dest_dir,
                canonical_offending_path,
            } => {
                let mut r = owned("检测到 zip-slip 攻击: 文件路径 \"");
                append_str(&mut r, offending_path.as_str());
                append_str(&mut r, "\" 越界\n规范化的目标目录: ");
                append_str(&mut r, canonical_dest_dir.as_str());
                append_str(&mut r, "\n规范化的文件路径: ");
                append_str(&mut r, canonical_offending_path.as_str());
                r
            },
            ExtractError::UnsafeDestination { dest_dir, drivers_root, cache_root, reason } => {
                let mut r = owned("目标目录不安全\n原因: ");
                append_str(&mut r, reason.as_str());
                append_str(&mut r, "\n目标目录: ");
                append_str(&mut r, dest_dir.as_str());
                append_str(&mut r, "\n驱动根目录: ");
                append_str(&mut r, drivers_root.as_str());
                append_str(&mut r, "\n缓存根目录: ");
                append_str(&mut r, cache_root.as_str());
                r
            },
            ExtractError::InvalidDriverUuid { driver_uuid, reason } => {
                let mut r = owned("驱动 UUID 格式无效: ");
                append_str(&mut r, reason.as_str());
                append_str(&mut r, "\n原因: ");
                append_str(&mut r, reason.as_str());
                append_str(&mut r, "\nUUID: ");
                append_str(&mut r, driver_uuid.as_str());
                r
            },
            ExtractError::IoError { step, operation, error } => {
                let mut r = owned("IO 错误 (step=");
                append_str(&mut r, step.as_str());
                append_str(&mut r, ", operation=");
                append_str(&mut r, operation.as_str());
                append_str(&mut r, "): ");
                append_str(&mut r, error.as_str());
                r
            },
        }
    }
}

/// What the older unpacking reported.
pub struct ExtractResult {
    pub extracted_files: usize,
    pub extracted_dirs: usize,
    pub evidence: String,
    pub dest_dir: String,
    pub top_level_items: Vec<String>,
}

/// Where a driver package was unpacked, and what it held.
pub struct ExtractForDriverResult {
    pub driver_uuid: String,
    pub uuid_root: String,
    pub extracted_root: String,
    pub file_count: usize,
    pub top_entries: Vec<String>,
}

// ---------------------------------------------------------------------------
// Paths for comparison
// ---------------------------------------------------------------------------

/// A path's text without the verbatim prefix: `\\?\UNC\server\share`
/// becomes `\\server\share` and `\\?\C:\x` becomes `C:\x`.
pub open spec fn spec_normalize_for_compare(p: Seq<char>) -> Seq<char> {
    if starts_with(p, "\\\\?\\"@) {
        let rest = p.skip(4);
        if starts_with(rest, "UNC\\"@) {
            "\\\\"@ + rest.skip(4)
        } else {
            rest
        }
    } else {
        p
    }
}

pub fn normalize_for_compare(p: &str) -> (r: String)
    ensures
        r@ == spec_normalize_for_compare(p@),
{
    let v = chars_of(p);
    let verbatim = chars_of("\\\\?\\");
    proof {
        reveal_strlit("\\\\?\\");
        reveal_strlit("UNC\\");
    }
    if starts_with_exec(v.as_slice(), verbatim.as_slice()) {
        let rest = slice_chars(v.as_slice(), 4, v.len());
        assert(rest@ =~= p@.skip(4));
        let unc = chars_of("UNC\\");
        if starts_with_exec(rest.as_slice(), unc.as_slice()) {
            let tail = slice_chars(rest.as_slice(), 4, rest.len());
            assert(tail@ =~= rest@.skip(4));
            let mut r = owned("\\\\");
            append_chars(&mut r, tail.as_slice());
            r
        } else {
            string_of(rest.as_slice())
        }
    } else {
        owned(p)
    }
}

/// A path, component by component, as `Path::starts_with` and `==`
/// compare paths.
pub open spec fn components(p: Seq<String>) -> Seq<Seq<char>> {
    strings_view(p)
}

pub open spec fn path_starts_with(p: Seq<Seq<char>>, base: Seq<Seq<char>>) -> bool {
    base.len() <= p.len() && p.take(base.len() as int) == base
}

fn path_starts_with_exec(p: &Vec<String>, base: &Vec<String>) -> (b: bool)
    ensures
        b == path_starts_with(components(p@), components(base@)),
{
    if base.len() > p.len() {
        return false;
    }
    let mut i: usize = 0;
    while i < base.len()
        invariant
            base@.len() <= p@.len(),
            i <= base@.len(),
            forall|j: int| 0 <= j < i ==> p@[j]@ == base@[j]@,
        decreases base@.len() - i,
    {
        if !str_eq(p[i].as_str(), base[i].as_str()) {
            assert(components(p@).take(base@.len() as int)[i as int] != components(base@)[i as int]);
            return false;
        }
        i = i + 1;
    }
    assert(components(p@).take(base@.len() as int) =~= components(base@));
    true
}

fn path_eq_exec(p: &Vec<String>, q: &Vec<String>) -> (b: bool)
    ensures
        b == (components(p@) == components(q@)),
{
    if p.len() != q.len() {
        assert(components(p@).len() != components(q@).len());
        return false;
    }
    let b = path_starts_with_exec(p, q);
    assert(components(p@).take(q@.len() as int) =~= components(p@));
    b
}

/// Why a destination is refused, if it is: it must lie inside the drivers
/// root, inside its `.cache` directory, and be neither of those two
/// directories itself.
pub open spec fn unsafe_destination_reason(
    dest: Seq<Seq<char>>,
    drivers_root: Seq<Seq<char>>,
    cache_root: Seq<Seq<char>>,
) -> Option<Seq<char>> {
    if !path_starts_with(dest, drivers_root) {
        Some("目标目录不在驱动根目录下"@)
    } else if !path_starts_with(dest, cache_root) {
        Some("目标目录不在缓存目录下（必须位于 drivers_root/.cache/ 下）"@)
    } else if dest == drivers_root {
        Some("目标目录不能等于驱动根目录"@)
    } else if dest == cache_root {
        Some("目标目录不能等于缓存根目录（必须更深一层）"@)
    } else {
        None
    }
}

/// Checks that an unpacking destination lies strictly inside the cache
/// directory of the drivers root. The paths are given as their canonical
/// components (verbatim prefix removed) and as they are displayed.
pub fn assert_safe_dest_dir(
    dest: &Vec<String>,
    drivers_root: &Vec<String>,
    cache_root: &Vec<String>,
    dest_display: &str,
    drivers_root_display: &str,
    cache_root_display: &str,
) -> (r: Result<(), ExtractError>)
    ensures
        match unsafe_destination_reason(
            components(dest@),
            components(drivers_root@),
            components(cache_root@),
        ) {
            None => r is Ok,
            Some(reason) => r matches Err(ExtractError::UnsafeDestination {
                dest_dir: d,
                drivers_root: dr,
                cache_root: c,
                reason: why,
            }) && d@ == dest_display@ && dr@ == drivers_root_display@ && c@ == cache_root_display@
                && why@ == reason,
        },
{
    let reason = if !path_starts_with_exec(dest, drivers_root) {
        Some(owned("目标目录不在驱动根目录下"))
    } else if !path_starts_with_exec(dest, cache_root) {
        Some(owned("目标目录不在缓存目录下（必须位于 drivers_root/.cache/ 下）"))
    } else if path_eq_exec(dest, drivers_root) {
        Some(owned("目标目录不能等于驱动根目录"))
    } else if path_eq_exec(dest, cache_root) {
        Some(owned("目标目录不能等于缓存根目录（必须更深一层）"))
    } else {
        None
    };
    match reason {
        None => Ok(()),
        Some(why) => Err(
            ExtractError::UnsafeDestination {
                dest_dir: owned(dest_display),
                drivers_root: owned(drivers_root_display),
                cache_root: owned(cache_root_display),
                reason: why,
            },
        ),
    }
}

// ---------------------------------------------------------------------------
// Driver identifiers
// ---------------------------------------------------------------------------

/// Whether `char::is_alphanumeric` holds of `c` (Unicode alphabetic or
/// numeric).
pub uninterp spec fn unicode_alphanumeric(c: char) -> bool;

/// `char::is_alphanumeric`: Unicode's Alphabetic or Numeric property. For
/// ASCII characters that is exactly the letters and digits.
#[verifier::external_body]
pub(crate) fn is_alphanumeric(c: char) -> (b: bool)
    ensures
        b == unicode_alphanumeric(c),
        (c as u32) < 128 ==> (b <==> (('a' <= c <= 'z') || ('A' <= c <= 'Z') || ('0' <= c <= '9'))),
{
    c.is_alphanumeric()
}

/// The characters of a driver identifier: ASCII letters and digits, `_`
/// and `-` (`[a-zA-Z0-9_-]`).
pub open spec fn uuid_char(c: char) -> bool {
    ('a' <= c <= 'z') || ('A' <= c <= 'Z') || ('0' <= c <= '9') || c == '_' || c == '-'
}

/// Why a driver identifier is refused, if it is: the rule is
/// `^[a-zA-Z0-9_-]{8,64}$`, lengths counted in characters.
pub open spec fn driver_uuid_problem(u: Seq<char>) -> Option<Seq<char>> {
    if u.len() == 0 {
        Some("UUID 不能为空"@)
    } else if u.len() < 8 {
        Some("UUID 长度不足（至少 8 字符，当前 "@ + decimal(u.len() as int) + " 字符）"@)
    } else if u.len() > 64 {
        Some("UUID 长度过长（最多 64 字符，当前 "@ + decimal(u.len() as int) + " 字符）"@)
    } else if u == "."@ || u == ".."@ {
        Some("UUID 不能是 \".\" 或 \"..\""@)
    } else if u.contains('/') || u.contains('\\') {
        Some("UUID 不能包含路径分隔符（/ 或 \\）"@)
    } else if !(forall|i: int| 0 <= i < u.len() ==> uuid_char(#[trigger] u[i])) {
        Some("UUID 只能包含字母、数字、下划线和连字符"@)
    } else {
        None
    }
}

fn length_reason(prefix: &str, n: usize) -> (r: String)
    ensures
        r@ == prefix@ + decimal(n as int) + " 字符）"@,
{
    let mut r = owned(prefix);
    append_chars(&mut r, u64_decimal(n as u64).as_slice());
    append_str(&mut r, " 字符）");
    r
}

/// Checks a driver identifier: 8 to 64 characters, each an ASCII letter or
/// digit, `_` or `-`, so that it is safe as a directory name.
pub fn validate_driver_uuid(driver_uuid: &str) -> (r: Result<(), ExtractError>)
    ensures
        match driver_uuid_problem(driver_uuid@) {
            None => r is Ok,
            Some(reason) => r matches Err(ExtractError::InvalidDriverUuid { driver_uuid: u, reason: why })
                && u@ == driver_uuid@ && why@ == reason,
        },
{
    let v = chars_of(driver_uuid);
    let reason: Option<String> = if v.len() == 0 {
        Some(owned("UUID 不能为空"))
    } else {
        let n = v.len();
        if n < 8 {
            Some(length_reason("UUID 长度不足（至少 8 字符，当前 ", n))
        } else if n > 64 {
            Some(length_reason("UUID 长度过长（最多 64 字符，当前 ", n))
        } else if str_eq(driver_uuid, ".") || str_eq(driver_uuid, "..") {
            Some(owned("UUID 不能是 \".\" 或 \"..\""))
        } else {
            let mut sep = false;
            let mut bad = false;
            let mut i: usize = 0;
            while i < v.len()
                invariant
                    i <= v@.len(),
                    v@ == driver_uuid@,
                    sep == (exists|j: int| 0 <= j < i && (v@[j] == '/' || v@[j] == '\\')),
                    bad == (exists|j: int| 0 <= j < i && !uuid_char(#[trigger] v@[j])),
                decreases v@.len() - i,
            {
                let c = v[i];
                if c == '/' || c == '\\' {
                    sep = true;
                }
                if !(('a' <= c && c <= 'z') || ('A' <= c && c <= 'Z') || ('0' <= c && c <= '9') || c == '_'
                    || c == '-') {
                    bad = true;
                }
                i = i + 1;
            }
            proof {
                if sep {
                    let j = choose|j: int| 0 <= j < v@.len() && (v@[j] == '/' || v@[j] == '\\');
                    if v@[j] == '/' {
                        assert(driver_uuid@.contains('/'));
                    } else {
                        assert(driver_uuid@.contains('\\'));
                    }
                }
                if driver_uuid@.contains('/') {
                    let j = choose|j: int| 0 <= j < v@.len() && v@[j] == '/';
                    assert(sep);
                }
                if driver_uuid@.contains('\\') {
                    let j = choose|j: int| 0 <= j < v@.len() && v@[j] == '\\';
                    assert(sep);
                }
            }
            if sep {
                Some(owned("UUID 不能包含路径分隔符（/ 或 \\）"))
            } else if bad {
                Some(owned("UUID 只能包含字母、数字、下划线和连字符"))
            } else {
                None
            }
        }
    };
    match reason {
        None => Ok(()),
        Some(why) => Err(ExtractError::InvalidDriverUuid { driver_uuid: owned(driver_uuid), reason: why }),
    }
}

// ---------------------------------------------------------------------------
// The directories of an unpacked driver
// ---------------------------------------------------------------------------

/// The directories of a driver under the drivers root: its own directory,
/// the staging directory of this run, and the directory the files end in.
pub struct DriverDirs {
    pub uuid_root: Vec<String>,
    pub staging_dir: Vec<String>,
    pub extracted_root: Vec<String>,
}

pub fn driver_dirs(drivers_root: &Vec<String>, driver_uuid: &str, run_id: &str) -> (r: DriverDirs)
    ensures
        components(r.uuid_root@) == components(drivers_root@).push(driver_uuid@),
        components(r.staging_dir@) == components(drivers_root@).push(driver_uuid@).push(
            "_staging"@,
        ).push(run_id@),
        components(r.extracted_root@) == components(drivers_root@).push(driver_uuid@).push(
            "extracted"@,
        ),
{
    let mut uuid_root = clone_strings(drivers_root);
    uuid_root.push(owned(driver_uuid));
    let mut staging_dir = clone_strings(&uuid_root);
    staging_dir.push(owned("_staging"));
    staging_dir.push(owned(run_id));
    let mut extracted_root = clone_strings(&uuid_root);
    extracted_root.push(owned("extracted"));
    assert(components(uuid_root@) =~= components(drivers_root@).push(driver_uuid@));
    assert(components(staging_dir@) =~= components(drivers_root@).push(driver_uuid@).push(
        "_staging"@,
    ).push(run_id@));
    assert(components(extracted_root@) =~= components(drivers_root@).push(driver_uuid@).push(
        "extracted"@,
    ));
    DriverDirs { uuid_root, staging_dir, extracted_root }
}

/// The zip-slip check of one unpacked entry: its canonical path must lie
/// inside the driver's canonical directory.
pub fn zip_slip_check_entry(
    entry: &Vec<String>,
    root: &Vec<String>,
    entry_display: &str,
    root_display: &str,
    entry_canonical_display: &str,
) -> (r: Result<(), ExtractError>)
    ensures
        path_starts_with(components(entry@), components(root@)) ==> r is Ok,
        !path_starts_with(components(entry@), components(root@)) ==> (r matches Err(
            ExtractError::ZipSlipDetected {
                offending_path: o,
                canonical_dest_dir: d,
                canonical_offending_path: c,
            },
        ) && o@ == entry_display@ && d@ == root_display@ && c@ == entry_canonical_display@),
{
    if path_starts_with_exec(entry, root) {
        Ok(())
    } else {
        Err(
            ExtractError::ZipSlipDetected {
                offending_path: owned(entry_display),
                canonical_dest_dir: owned(root_display),
                canonical_offending_path: owned(entry_canonical_display),
            },
        )
    }
}

/// The top entries for the log: their count and the first ten, joined by
/// `, `, with `...` when there are more.
pub open spec fn spec_entries_display(entries: Seq<Seq<char>>) -> Seq<char> {
    if entries.len() > 10 {
        "["@ + decimal(entries.len() as int) + " items: "@ + join(entries.take(10), ", "@) + "...]"@
    } else {
        "["@ + decimal(entries.len() as int) + " items: "@ + join(entries, ", "@) + "]"@
    }
}

pub fn entries_display(entries: &Vec<String>) -> (r: String)
    ensures
        r@ == spec_entries_display(strings_view(entries@)),
{
    let mut head: Vec<String> = Vec::new();
    let mut i: usize = 0;
    while i < entries.len() && i < 10
        invariant
            i <= entries@.len(),
            i <= 10,
            strings_view(head@) == strings_view(entries@).take(i as int),
        decreases entries@.len() - i,
    {
        let ghost before = head@;
        head.push(clone_string(&entries[i]));
        assert(strings_view(head@) =~= strings_view(before).push(entries@[i as int]@));
        assert(strings_view(entries@).take(i + 1) =~= strings_view(entries@).take(i as int).push(
            entries@[i as int]@,
        ));
        i = i + 1;
    }
    let mut r = owned("[");
    append_chars(&mut r, u64_decimal(entries.len() as u64).as_slice());
    append_str(&mut r, " items: ");
    append_str(&mut r, join_strings(&head, ", ").as_str());
    if entries.len() > 10 {
        append_str(&mut r, "...]");
    } else {
        assert(strings_view(entries@).take(entries@.len() as int) =~= strings_view(entries@));
        append_str(&mut r, "]");
    }
    r
}

} // verus!
