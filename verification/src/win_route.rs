use vstd::prelude::*;
use crate::config::{
    opt_view, strings_view, clone_string, clone_opt_string, clone_strings, City, Printer,
    PrinterConfig, DriverCatalog, EffectiveDriverSpec, RemoteDriverResolved, remote_view,
    resolve_effective_driver_spec, catalog_entry_for, spec_install_mode, spec_driver_path,
    spec_driver_names, spec_remote,
};
use crate::events::{ErrorPayload, InstallResult, MetaValue, MetaView, meta_view, InstallProgressEvent};
use crate::macos::{strip_all_prefix, strip_all_prefix_pub};
use crate::text::{
    owned, append_str, append_chars, chars_of, string_of, decimal, u64_decimal, trim, trim_chars,
    str_eq, lower_hex_digits, u64_lower_hex,
};
use crate::win_install::{InstallError, spec_install_error_message, spec_install_error_code};
use crate::win_queue::{debug_opt_text, debug_opt_string};

verus! {

// ---------------------------------------------------------------------------
// The configured printer of a request
// ---------------------------------------------------------------------------

/// A printer position in the configuration: city, area, printer.
pub open spec fn valid_pos(cities: Seq<City>, c: int, a: int, p: int) -> bool {
    &&& 0 <= c < cities.len()
    &&& 0 <= a < cities[c].areas@.len()
    &&& 0 <= p < cities[c].areas@[a].printers@.len()
}

pub open spec fn printer_at(cities: Seq<City>, c: int, a: int, p: int) -> Printer {
    cities[c].areas@[a].printers@[p]
}

/// Position `(c1, a1, p1)` comes before `(c2, a2, p2)` in reading order.
pub open spec fn before(c1: int, a1: int, p1: int, c2: int, a2: int, p2: int) -> bool {
    c1 < c2 || (c1 == c2 && a1 < a2) || (c1 == c2 && a1 == a2 && p1 < p2)
}

/// A configured printer answers a request with this name or this path.
pub open spec fn answers(p: Printer, name: Seq<char>, path: Seq<char>) -> bool {
    p.name@ == name || p.path@ == path
}

/// `(c, a, p)` is the first position, in reading order, of a printer that
/// answers the request.
pub open spec fn is_first_answer(cities: Seq<City>, name: Seq<char>, path: Seq<char>, c: int, a: int, p: int) -> bool {
    &&& valid_pos(cities, c, a, p)
    &&& answers(printer_at(cities, c, a, p), name, path)
    &&& forall|c2: int, a2: int, p2: int|
        valid_pos(cities, c2, a2, p2) && before(c2, a2, p2, c, a, p) ==> !answers(
            #[trigger] printer_at(cities, c2, a2, p2),
            name,
            path,
        )
}

/// The position of the first printer that answers the request, if any.
pub open spec fn first_answer(cities: Seq<City>, name: Seq<char>, path: Seq<char>) -> Option<(int, int, int)> {
    if exists|c: int, a: int, p: int| is_first_answer(cities, name, path, c, a, p) {
        Some(choose|c: int, a: int, p: int| is_first_answer(cities, name, path, c, a, p))
    } else {
        None
    }
}

proof fn lemma_first_answer_unique(cities: Seq<City>, name: Seq<char>, path: Seq<char>, c: int, a: int, p: int)
    requires
        is_first_answer(cities, name, path, c, a, p),
    ensures
        first_answer(cities, name, path) == Some((c, a, p)),
{
    let (c2, a2, p2) = choose|c: int, a: int, p: int| is_first_answer(cities, name, path, c, a, p);
    assert(is_first_answer(cities, name, path, c2, a2, p2));
    if (c2, a2, p2) != (c, a, p) {
        if before(c2, a2, p2, c, a, p) {
            assert(!answers(printer_at(cities, c2, a2, p2), name, path));
        } else {
            assert(before(c, a, p, c2, a2, p2));
            assert(!answers(printer_at(cities, c, a, p), name, path));
        }
    }
}

/// The first printer, in city, area and printer order, whose name or path
/// is the requested one.
pub fn find_config_printer(config: &PrinterConfig, name: &str, path: &str) -> (r: Option<
    (usize, usize, usize),
>)
    ensures
        first_answer(config.cities@, name@, path@) == (match r {
            Some((c, a, p)) => Some((c as int, a as int, p as int)),
            None => None,
        }),
        match r {
            Some((c, a, p)) => {
                &&& valid_pos(config.cities@, c as int, a as int, p as int)
                &&& answers(printer_at(config.cities@, c as int, a as int, p as int), name@, path@)
                &&& forall|c2: int, a2: int, p2: int|
                    valid_pos(config.cities@, c2, a2, p2) && before(c2, a2, p2, c as int, a as int, p as int)
                        ==> !answers(#[trigger] printer_at(config.cities@, c2, a2, p2), name@, path@)
            },
            None => forall|c2: int, a2: int, p2: int|
                valid_pos(config.cities@, c2, a2, p2) ==> !answers(
                    #[trigger] printer_at(config.cities@, c2, a2, p2),
                    name@,
                    path@,
                ),
        },
{
    let cities = &config.cities;
    let mut c: usize = 0;
    while c < cities.len()
        invariant
            c <= cities@.len(),
            cities@ == config.cities@,
            forall|c2: int, a2: int, p2: int|
                valid_pos(cities@, c2, a2, p2) && c2 < c ==> !answers(
                    #[trigger] printer_at(cities@, c2, a2, p2),
                    name@,
                    path@,
                ),
        decreases cities@.len() - c,
    {
        let areas = &cities[c].areas;
        let mut a: usize = 0;
        while a < areas.len()
            invariant
                c < cities@.len(),
                a <= areas@.len(),
                cities@ == config.cities@,
                areas@ == cities@[c as int].areas@,
                forall|c2: int, a2: int, p2: int|
                    valid_pos(cities@, c2, a2, p2) && (c2 < c || (c2 == c && a2 < a)) ==> !answers(
                        #[trigger] printer_at(cities@, c2, a2, p2),
                        name@,
                        path@,
                    ),
            decreases areas@.len() - a,
        {
            let printers = &areas[a].printers;
            let mut p: usize = 0;
            while p < printers.len()
                invariant
                    c < cities@.len(),
                    a < areas@.len(),
                    p <= printers@.len(),
                    cities@ == config.cities@,
                    areas@ == cities@[c as int].areas@,
                    printers@ == areas@[a as int].printers@,
                    forall|c2: int, a2: int, p2: int|
                        valid_pos(cities@, c2, a2, p2) && before(c2, a2, p2, c as int, a as int, p as int)
                            ==> !answers(#[trigger] printer_at(cities@, c2, a2, p2), name@, path@),
                decreases printers@.len() - p,
            {
                let pr = &printers[p];
                if str_eq(pr.name.as_str(), name) || str_eq(pr.path.as_str(), path) {
                    assert(printer_at(cities@, c as int, a as int, p as int) == *pr);
                    proof {
                        lemma_first_answer_unique(cities@, name@, path@, c as int, a as int, p as int);
                    }
                    return Some((c, a, p));
                }
                assert(printer_at(cities@, c as int, a as int, p as int) == *pr);
                p = p + 1;
            }
            a = a + 1;
        }
        c = c + 1;
    }
    proof {
        if exists|c: int, a: int, p: int| is_first_answer(cities@, name@, path@, c, a, p) {
            let (c2, a2, p2) = choose|c: int, a: int, p: int| is_first_answer(cities@, name@, path@, c, a, p);
            assert(!answers(printer_at(cities@, c2, a2, p2), name@, path@));
        }
    }
    None
}

/// The driver settings of a request with no configured printer: the
/// request's own install mode and driver path, no driver names, no
/// catalog.
pub fn legacy_driver_spec(install_mode: &Option<String>, driver_path: &Option<String>) -> (r:
    EffectiveDriverSpec)
    ensures
        r.source@ == "legacy"@,
        opt_view(r.effective_install_mode) == opt_view(*install_mode),
        opt_view(r.effective_driver_path) == opt_view(*driver_path),
        r.effective_driver_names@.len() == 0,
        r.driver_key_used is None,
        r.remote_driver is None,
{
    EffectiveDriverSpec {
        source: owned("legacy"),
        effective_install_mode: clone_opt_string(install_mode),
        effective_driver_path: clone_opt_string(driver_path),
        effective_driver_names: Vec::new(),
        driver_key_used: None,
        remote_driver: None,
    }
}

/// The driver settings that `resolve_effective_driver_spec` gives for a
/// printer and a catalog.
pub open spec fn resolved_spec_is(r: EffectiveDriverSpec, p: Printer, catalog: Option<&DriverCatalog>) -> bool {
    &&& r.source@ == (if catalog_entry_for(p, catalog) is Some {
        "catalog"@
    } else {
        "legacy"@
    })
    &&& opt_view(r.effective_install_mode) == spec_install_mode(p, catalog)
    &&& opt_view(r.effective_driver_path) == spec_driver_path(p, catalog)
    &&& strings_view(r.effective_driver_names@) == spec_driver_names(p, catalog)
    &&& opt_view(r.driver_key_used) == (if catalog_entry_for(p, catalog) is Some {
        opt_view(p.driver_key)
    } else {
        None
    })
    &&& remote_view(r.remote_driver) == spec_remote(p, catalog)
}

/// The driver settings given by the request's own fields.
pub open spec fn legacy_spec_is(r: EffectiveDriverSpec, install_mode: Option<Seq<char>>, driver_path: Option<Seq<char>>) -> bool {
    &&& r.source@ == "legacy"@
    &&& opt_view(r.effective_install_mode) == install_mode
    &&& opt_view(r.effective_driver_path) == driver_path
    &&& r.effective_driver_names@.len() == 0
    &&& r.driver_key_used is None
    &&& r.remote_driver is None
}

/// The driver settings of a request: those of the first configured
/// printer that answers it (by name or path), else the request's own.
pub fn request_driver_spec(
    config: Option<&PrinterConfig>,
    name: &str,
    path: &str,
    install_mode: &Option<String>,
    driver_path: &Option<String>,
) -> (r: EffectiveDriverSpec)
    ensures
        match config {
            None => legacy_spec_is(r, opt_view(*install_mode), opt_view(*driver_path)),
            Some(cfg) => match first_answer(cfg.cities@, name@, path@) {
                None => legacy_spec_is(r, opt_view(*install_mode), opt_view(*driver_path)),
                Some((c, a, p)) => resolved_spec_is(
                    r,
                    printer_at(cfg.cities@, c, a, p),
                    match cfg.driver_catalog {
                        Some(cat) => Some(&cat),
                        None => None,
                    },
                ),
            },
        },
{
    match config {
        None => legacy_driver_spec(install_mode, driver_path),
        Some(cfg) => match find_config_printer(cfg, name, path) {
            None => legacy_driver_spec(install_mode, driver_path),
            Some((c, a, p)) => {
                let printer = &cfg.cities[c].areas[a].printers[p];
                let catalog = match &cfg.driver_catalog {
                    Some(cat) => Some(cat),
                    None => None,
                };
                resolve_effective_driver_spec(printer, catalog)
            },
        },
    }
}

// ---------------------------------------------------------------------------
// Choosing the install route
// ---------------------------------------------------------------------------

/// Some driver name is given that is not blank.
pub open spec fn has_driver_names(names: Seq<Seq<char>>) -> bool {
    names.len() > 0 && exists|i: int| 0 <= i < names.len() && trim(#[trigger] names[i]).len() > 0
}

/// The install route of a request.
pub enum InstallRoute {
    /// The `package` mode: stage the driver package and build the queue.
    Package,
    /// A driver path and a driver name: stage the INF and register the
    /// named driver.
    ModernInf(String),
    /// Neither route applies: the request fails with this result.
    Refused(InstallResult),
}

/// `true` or `false`.
pub open spec fn bool_text(b: bool) -> Seq<char> {
    if b {
        "true"@
    } else {
        "false"@
    }
}

fn bool_text_exec(b: bool) -> (r: &'static str)
    ensures
        r@ == bool_text(b),
{
    if b {
        "true"
    } else {
        "false"
    }
}

pub open spec fn missing_name_evidence(driver_path: Option<Seq<char>>, names: bool, model: bool) -> Seq<
    char,
> {
    "MissingDriverNameMapping driverPath="@ + debug_opt_text(driver_path) + " has_driver_names="@
        + bool_text(names) + " has_model="@ + bool_text(model)
}

pub open spec fn no_modern_path_evidence(driver_path_given: bool) -> Seq<char> {
    "NoModernPathAvailable routing_policy=ModernPreferred has_driver_package=false has_driver_path="@
        + bool_text(driver_path_given)
}

/// The message of a request with a driver path and no driver name.
pub open spec fn missing_name_message(driver_path: Option<Seq<char>>, model: bool) -> Seq<char> {
    "缺失 driver_name 映射。Modern 链路需要 driver_name 才能执行。\n\n请在 printer_config.json 中补齐以下字段之一：\n- driver_names: [\"驱动名称\"]\n- model: \"型号\"（用于从 INF 中匹配 driver_name）\n\n当前配置：driverPath="@
        + debug_opt_text(driver_path) + ", driver_names=false, model="@ + bool_text(model)
        + "\n\nEvidence: "@ + missing_name_evidence(driver_path, false, model)
}

/// The message of a request with neither a package nor a driver path.
pub open spec fn no_modern_path_message() -> Seq<char> {
    "无法使用 Modern 链路安装，且 routing_policy=ModernPreferred 不允许 fallback 到 Legacy。\n\n请检查配置：\n- 是否提供了 driverPath？\n- 是否提供了 driver_names 或 model？\n\nEvidence: "@
        + no_modern_path_evidence(false)
}

/// Chooses how to install: the `package` mode always takes the package
/// route; otherwise a driver path with a driver name takes the INF route
/// with the first name; a driver path without a name, and a request with
/// neither, fail with an explanation.
pub fn select_install_route(
    install_mode: &str,
    driver_path: &Option<String>,
    driver_names: &Vec<String>,
    has_model: bool,
    dry_run: bool,
    job_id: &str,
) -> (r: InstallRoute)
    ensures
        install_mode@ == "package"@ ==> r is Package,
        install_mode@ != "package"@ && driver_path is Some && has_driver_names(strings_view(driver_names@))
            ==> (r matches InstallRoute::ModernInf(n) && n@ == driver_names@[0]@),
        install_mode@ != "package"@ && driver_path is Some && !has_driver_names(strings_view(driver_names@))
            ==> (r matches InstallRoute::Refused(res) && !res.success && res.message@
            == missing_name_message(opt_view(*driver_path), has_model) && res.stdout is None
            && opt_view(res.method) == Some(
            "ModernInf"@,
        ) && opt_view(res.stderr) == Some(
            missing_name_evidence(opt_view(*driver_path), false, has_model),
        ) && res.effective_dry_run == dry_run && res.job_id@ == job_id@),
        install_mode@ != "package"@ && driver_path is None ==> (r matches InstallRoute::Refused(res)
            && !res.success && res.message@ == no_modern_path_message() && res.stdout is None
            && opt_view(res.method) == Some("Routing"@) && opt_view(res.stderr)
            == Some(no_modern_path_evidence(false)) && res.effective_dry_run == dry_run && res.job_id@
            == job_id@),
{
    if str_eq(install_mode, "package") {
        return InstallRoute::Package;
    }
    let mut named = false;
    let mut i: usize = 0;
    while i < driver_names.len()
        invariant
            i <= driver_names@.len(),
            named == (exists|j: int|
                0 <= j < i && trim(#[trigger] strings_view(driver_names@)[j]).len() > 0),
        decreases driver_names@.len() - i,
    {
        let t = trim_chars(chars_of(driver_names[i].as_str()).as_slice());
        assert(strings_view(driver_names@)[i as int] == driver_names@[i as int]@);
        if t.len() > 0 {
            named = true;
        }
        i = i + 1;
    }
    let named = driver_names.len() > 0 && named;
    match driver_path {
        Some(_) => {
            if named {
                return InstallRoute::ModernInf(clone_string(&driver_names[0]));
            }
            let shown = debug_opt_string(driver_path);
            let mut ev = owned("MissingDriverNameMapping driverPath=");
            append_str(&mut ev, shown.as_str());
            append_str(&mut ev, " has_driver_names=");
            append_str(&mut ev, bool_text_exec(false));
            append_str(&mut ev, " has_model=");
            append_str(&mut ev, bool_text_exec(has_model));
            let mut msg = owned(
                "缺失 driver_name 映射。Modern 链路需要 driver_name 才能执行。\n\n请在 printer_config.json 中补齐以下字段之一：\n- driver_names: [\"驱动名称\"]\n- model: \"型号\"（用于从 INF 中匹配 driver_name）\n\n当前配置：driverPath=",
            );
            append_str(&mut msg, shown.as_str());
            append_str(&mut msg, ", driver_names=false, model=");
            append_str(&mut msg, bool_text_exec(has_model));
            append_str(&mut msg, "\n\nEvidence: ");
            append_str(&mut msg, ev.as_str());
            InstallRoute::Refused(
                InstallResult {
                    success: false,
                    message: msg,
                    method: Some(owned("ModernInf")),
                    stdout: None,
                    stderr: Some(ev),
                    effective_dry_run: dry_run,
                    job_id: owned(job_id),
                },
            )
        },
        None => {
            let mut ev = owned(
                "NoModernPathAvailable routing_policy=ModernPreferred has_driver_package=false has_driver_path=",
            );
            append_str(&mut ev, bool_text_exec(false));
            let mut msg = owned(
                "无法使用 Modern 链路安装，且 routing_policy=ModernPreferred 不允许 fallback 到 Legacy。\n\n请检查配置：\n- 是否提供了 driverPath？\n- 是否提供了 driver_names 或 model？\n\nEvidence: ",
            );
            append_str(&mut msg, ev.as_str());
            InstallRoute::Refused(
                InstallResult {
                    success: false,
                    message: msg,
                    method: Some(owned("Routing")),
                    stdout: None,
                    stderr: Some(ev),
                    effective_dry_run: dry_run,
                    job_id: owned(job_id),
                },
            )
        },
    }
}

/// Builds of Windows before 10240 (Windows 10) add ports the older way; an
/// unknown build (0) counts as new.
pub fn is_legacy_build(build: u32) -> (b: bool)
    ensures
        b == (build > 0 && build < 10240),
{
    build > 0 && build < 10240
}

/// Where pnputil publishes a staged driver package.
pub fn published_inf_path(published_name: &str) -> (r: String)
    ensures
        r@ == "C:\\Windows\\INF\\"@ + published_name@,
{
    let mut r = owned("C:\\Windows\\INF\\");
    append_str(&mut r, published_name);
    r
}

/// A package install of `name` by the `Package` method.
pub open spec fn package_result(r: InstallResult, dry_run: bool, job_id: Seq<char>) -> bool {
    opt_view(r.method) == Some("Package"@) && r.job_id@ == job_id
}

/// The message of a package install refused for want of administrator
/// rights, with the printer, its path and the INF path (`N/A` if none).
pub open spec fn preflight_denied_message(name: Seq<char>, path: Seq<char>, inf: Option<Seq<char>>) -> Seq<
    char,
> {
    "需要管理员权限才能执行 "@ + "install_printer_package"@ + "。"@
        + "需要管理员权限安装打印机驱动（pnputil /add-driver）"@ + "\n\n诊断信息: "@ + (
    "is_admin=false printer_name=\""@ + name + "\" path=\""@ + path + "\" inf_abs_path=\""@ + (
    match inf {
        Some(p) => p,
        None => "N/A"@,
    }) + "\""@)
}

/// Checks before a package install: administrator rights, a driver name
/// and an INF path; a dry run stops there with success. Gives the driver
/// name and INF path to go on with.
pub fn package_preflight(
    is_admin: bool,
    name: &str,
    path: &str,
    inf_abs_path: Option<String>,
    driver_names: &Option<Vec<String>>,
    dry_run: bool,
    job_id: &str,
) -> (r: Result<(String, String), InstallResult>)
    ensures
        !is_admin ==> (r matches Err(res) && !res.success && package_result(res, dry_run, job_id@)
            && res.effective_dry_run == dry_run && res.stdout is None && res.message@
            == preflight_denied_message(name@, path@, opt_view(inf_abs_path)) && opt_view(res.stderr)
            == Some("[EASYPRINTER_CODE="@ + "WIN_PERMISSION_DENIED"@ + "]"@)),
        is_admin && (driver_names is None || driver_names->0@.len() == 0) ==> (r matches Err(res)
            && !res.success && res.message@ == "Package 安装模式需要提供 driver_names（驱动名称列表）"@
            && package_result(res, dry_run, job_id@) && res.effective_dry_run == dry_run && res.stdout
            is None && opt_view(res.stderr) == Some("driver_names 缺失或为空"@)),
        is_admin && driver_names is Some && driver_names->0@.len() > 0 && inf_abs_path is None ==> (r matches Err(
            res,
        ) && !res.success && res.message@ == "Package 安装模式需要提供 INF 文件路径"@ && package_result(
            res,
            dry_run,
            job_id@,
        ) && res.effective_dry_run == dry_run && res.stdout is None && opt_view(res.stderr) == Some(
            "inf_abs_path 缺失"@,
        )),
        is_admin && driver_names is Some && driver_names->0@.len() > 0 && inf_abs_path is Some && dry_run
            ==> (r matches Err(res) && res.success && res.effective_dry_run && package_result(
            res,
            dry_run,
            job_id@,
        ) && res.message@ == "已命中 Package 安装分支（dryRun 模式，未执行真实安装）"@ && res.stdout is None
            && res.stderr is None),
        is_admin && driver_names is Some && driver_names->0@.len() > 0 && inf_abs_path is Some
            && !dry_run ==> (r matches Ok((d, i)) && d@ == driver_names->0@[0]@ && i@
            == inf_abs_path->0@),
{
    if !is_admin {
        let inf_shown = match &inf_abs_path {
            Some(p) => owned(p.as_str()),
            None => owned("N/A"),
        };
        let mut ev = owned("is_admin=false printer_name=\"");
        append_str(&mut ev, name);
        append_str(&mut ev, "\" path=\"");
        append_str(&mut ev, path);
        append_str(&mut ev, "\" inf_abs_path=\"");
        append_str(&mut ev, inf_shown.as_str());
        append_str(&mut ev, "\"");
        let ghost evv = ev@;
        assert(evv =~= "is_admin=false printer_name=\""@ + name@ + "\" path=\""@ + path@
            + "\" inf_abs_path=\""@ + (match inf_abs_path {
            Some(p) => p@,
            None => "N/A"@,
        }) + "\""@);
        let error = InstallError::PermissionDenied {
            step: owned("install_printer_package"),
            reason: owned("需要管理员权限安装打印机驱动（pnputil /add-driver）"),
            evidence: ev,
        };
        return Err(
            InstallResult {
                success: false,
                message: error.to_user_message(),
                method: Some(owned("Package")),
                stdout: None,
                stderr: error.format_stderr_with_code(None),
                effective_dry_run: dry_run,
                job_id: owned(job_id),
            },
        );
    }
    let driver = match driver_names {
        Some(v) => {
            if v.len() > 0 {
                clone_string(&v[0])
            } else {
                return Err(
                    InstallResult {
                        success: false,
                        message: owned("Package 安装模式需要提供 driver_names（驱动名称列表）"),
                        method: Some(owned("Package")),
                        stdout: None,
                        stderr: Some(owned("driver_names 缺失或为空")),
                        effective_dry_run: dry_run,
                        job_id: owned(job_id),
                    },
                );
            }
        },
        None => {
            return Err(
                InstallResult {
                    success: false,
                    message: owned("Package 安装模式需要提供 driver_names（驱动名称列表）"),
                    method: Some(owned("Package")),
                    stdout: None,
                    stderr: Some(owned("driver_names 缺失或为空")),
                    effective_dry_run: dry_run,
                    job_id: owned(job_id),
                },
            );
        },
    };
    let inf = match inf_abs_path {
        Some(p) => p,
        None => {
            return Err(
                InstallResult {
                    success: false,
                    message: owned("Package 安装模式需要提供 INF 文件路径"),
                    method: Some(owned("Package")),
                    stdout: None,
                    stderr: Some(owned("inf_abs_path 缺失")),
                    effective_dry_run: dry_run,
                    job_id: owned(job_id),
                },
            );
        },
    };
    if dry_run {
        return Err(
            InstallResult {
                success: true,
                message: owned("已命中 Package 安装分支（dryRun 模式，未执行真实安装）"),
                method: Some(owned("Package")),
                stdout: None,
                stderr: None,
                effective_dry_run: true,
                job_id: owned(job_id),
            },
        );
    }
    Ok((driver, inf))
}

// ---------------------------------------------------------------------------
// The job of a Windows install
// ---------------------------------------------------------------------------

/// The job identifier: `job_`, the clock in milliseconds, `_`, and its
/// last four decimal digits.
pub fn windows_job_id(timestamp_ms: u64) -> (r: String)
    ensures
        r@ == "job_"@ + decimal(timestamp_ms as int) + "_"@ + decimal((timestamp_ms % 10000) as int),
{
    let mut r = owned("job_");
    append_chars(&mut r, u64_decimal(timestamp_ms).as_slice());
    append_str(&mut r, "_");
    append_chars(&mut r, u64_decimal(timestamp_ms % 10000).as_slice());
    r
}

/// The evidence of the first event of a Windows install: the install mode
/// (`auto` if none), the driver key (`(unknown)` if none) and the dry-run
/// flag.
pub open spec fn spec_windows_init_meta(
    install_mode: Option<Seq<char>>,
    driver_key: Option<Seq<char>>,
    dry_run: bool,
) -> Seq<(Seq<char>, MetaView)> {
    seq![
        ("installMode"@, MetaView::Text(match install_mode {
            Some(m) => m,
            None => "auto"@,
        })),
        ("driverKey"@, MetaView::Text(match driver_key {
            Some(k) => k,
            None => "(unknown)"@,
        })),
        ("dryRun"@, MetaView::Flag(dry_run)),
    ]
}

pub fn windows_init_meta(install_mode: &Option<String>, driver_key: &Option<String>, dry_run: bool) -> (r:
    Vec<(String, MetaValue)>)
    ensures
        meta_view(r@) == spec_windows_init_meta(opt_view(*install_mode), opt_view(*driver_key), dry_run),
{
    let mode = match install_mode {
        Some(m) => clone_string(m),
        None => owned("auto"),
    };
    let key = match driver_key {
        Some(k) => clone_string(k),
        None => owned("(unknown)"),
    };
    let r: Vec<(String, MetaValue)> = vec![
        (owned("installMode"), MetaValue::Text(mode)),
        (owned("driverKey"), MetaValue::Text(key)),
        (owned("dryRun"), MetaValue::Flag(dry_run)),
    ];
    assert(meta_view(r@) =~= spec_windows_init_meta(
        opt_view(*install_mode),
        opt_view(*driver_key),
        dry_run,
    ));
    r
}

/// What the last event of a Windows install reports: success and message
/// of the result; a failed result carries `INSTALL_FAILED` with its
/// output, an error `INSTALL_ERROR`.
pub fn job_done_report(result: &Result<InstallResult, String>) -> (r: (bool, String, Option<ErrorPayload>))
    ensures
        match *result {
            Ok(res) => {
                &&& r.0 == res.success
                &&& r.1@ == res.message@
                &&& res.success ==> r.2 is None
                &&& !res.success ==> (r.2 matches Some(e) && e.code@ == "INSTALL_FAILED"@ && e.detail@
                    == res.message@ && opt_view(e.stdout) == opt_view(res.stdout) && opt_view(e.stderr)
                    == opt_view(res.stderr))
            },
            Err(m) => {
                &&& !r.0
                &&& r.1@ == m@
                &&& r.2 matches Some(e) && e.code@ == "INSTALL_ERROR"@ && e.detail@ == m@
                    && e.stdout is None && e.stderr is None
            },
        },
{
    match result {
        Ok(res) => {
            let payload = if !res.success {
                Some(
                    ErrorPayload {
                        code: owned("INSTALL_FAILED"),
                        detail: clone_string(&res.message),
                        stdout: clone_opt_string(&res.stdout),
                        stderr: clone_opt_string(&res.stderr),
                    },
                )
            } else {
                None
            };
            (res.success, clone_string(&res.message), payload)
        },
        Err(m) => (
            false,
            clone_string(m),
            Some(
                ErrorPayload {
                    code: owned("INSTALL_ERROR"),
                    detail: clone_string(m),
                    stdout: None,
                    stderr: None,
                },
            ),
        ),
    }
}

// ---------------------------------------------------------------------------
// A stable identifier for an installed printer
// ---------------------------------------------------------------------------

/// What `std::collections::hash_map::DefaultHasher::new()` gives after
/// hashing the text.
pub uninterp spec fn std_default_hash(text: Seq<char>) -> u64;

/// Hashes text with std's `DefaultHasher` created by `new()` (fixed keys,
/// not seeded per process).
#[verifier::external_body]
pub(crate) fn default_hash(text: &str) -> (h: u64)
    ensures
        h == std_default_hash(text@),
{
    let mut hasher = std::collections::hash_map::DefaultHasher::new();
    std::hash::Hash::hash(text, &mut hasher);
    std::hash::Hasher::finish(&hasher)
}

/// The address part of a printer path: leading `\\` pairs, then leading
/// `\`, removed.
pub open spec fn path_address(path: Seq<char>) -> Seq<char> {
    strip_all_prefix(strip_all_prefix(path, "\\\\"@), "\\"@)
}

/// The identifier written on an installed printer: the hash of the area
/// name, printer name and address of the first configured printer that
/// answers the request, else of the requested name and address; in
/// lower-case hexadecimal.
pub open spec fn spec_stable_id(
    config: Option<PrinterConfig>,
    pos: Option<(int, int, int)>,
    name: Seq<char>,
    path: Seq<char>,
) -> Seq<char> {
    let ip = path_address(path);
    let input = match (config, pos) {
        (Some(cfg), Some((c, a, p))) => cfg.cities@[c].areas@[a].area_name@ + "|"@ + printer_at(
            cfg.cities@,
            c,
            a,
            p,
        ).name@ + "|"@ + ip,
        _ => name + "|"@ + ip,
    };
    lower_hex_digits(std_default_hash(input) as nat)
}

pub fn generate_stable_id(config: Option<&PrinterConfig>, printer_name: &str, printer_path: &str) -> (r:
    String)
    ensures
        r@ == spec_stable_id(
            match config {
                Some(c) => Some(*c),
                None => None,
            },
            match config {
                Some(c) => first_answer(c.cities@, printer_name@, printer_path@),
                None => None,
            },
            printer_name@,
            printer_path@,
        ),
{
    proof {
        reveal_strlit("\\\\");
        reveal_strlit("\\");
    }
    let pv = chars_of(printer_path);
    let a = strip_all_prefix_pub(pv.as_slice(), chars_of("\\\\").as_slice());
    let ip = strip_all_prefix_pub(a.as_slice(), chars_of("\\").as_slice());
    let found = match config {
        Some(cfg) => find_config_printer(cfg, printer_name, printer_path),
        None => None,
    };
    let mut input = String::new();
    match (config, found) {
        (Some(cfg), Some((c, ai, p))) => {
            append_str(&mut input, cfg.cities[c].areas[ai].area_name.as_str());
            append_str(&mut input, "|");
            append_str(&mut input, cfg.cities[c].areas[ai].printers[p].name.as_str());
            append_str(&mut input, "|");
            append_chars(&mut input, ip.as_slice());
        },
        _ => {
            append_str(&mut input, printer_name);
            append_str(&mut input, "|");
            append_chars(&mut input, ip.as_slice());
        },
    }
    let h = default_hash(input.as_str());
    string_of(u64_lower_hex(h).as_slice())
}


// ---------------------------------------------------------------------------
// Dry runs
// ---------------------------------------------------------------------------

/// The steps a dry run walks through and how long each pauses, in
/// milliseconds; the two driver-file steps only where a driver path is
/// configured.
pub open spec fn spec_dry_run_steps(has_driver_path: bool) -> Seq<(Seq<char>, u64)> {
    seq![("检查打印机驱动"@, 250u64), ("添加打印机端口"@, 250u64)] + (if has_driver_path {
        seq![("查找品牌驱动"@, 250u64), ("从配置文件安装_INF_驱动"@, 250u64)]
    } else {
        seq![]
    }) + seq![("安装打印机驱动"@, 250u64), ("配置打印机"@, 250u64), ("验证安装"@, 200u64)]
}

pub fn dry_run_steps(has_driver_path: bool) -> (r: Vec<(String, u64)>)
    ensures
        r@.map_values(|s: (String, u64)| (s.0@, s.1)) == spec_dry_run_steps(has_driver_path),
{
    let mut r: Vec<(String, u64)> = Vec::new();
    r.push((owned("检查打印机驱动"), 250));
    r.push((owned("添加打印机端口"), 250));
    if has_driver_path {
        r.push((owned("查找品牌驱动"), 250));
        r.push((owned("从配置文件安装_INF_驱动"), 250));
    }
    r.push((owned("安装打印机驱动"), 250));
    r.push((owned("配置打印机"), 250));
    r.push((owned("验证安装"), 200));
    assert(r@.map_values(|s: (String, u64)| (s.0@, s.1)) =~= spec_dry_run_steps(has_driver_path));
    r
}

/// The answer of a dry run: success, nothing installed, the install mode
/// (`auto` when none was asked for) named in the message.
pub fn dry_run_result(job_id: &str, install_mode: Option<&str>) -> (r: InstallResult)
    ensures
        r.success,
        r.message@ == "安装请求已接收（模式: "@ + (match install_mode {
            Some(m) => m@,
            None => "auto"@,
        }) + "），当前为测试模式，未执行真实安装"@,
        opt_view(r.method) == Some("dryRun"@),
        r.stdout is None,
        r.stderr is None,
        r.effective_dry_run,
        r.job_id@ == job_id@,
{
    let mode = match install_mode {
        Some(m) => m,
        None => "auto",
    };
    let mut m = owned("安装请求已接收（模式: ");
    append_str(&mut m, mode);
    append_str(&mut m, "），当前为测试模式，未执行真实安装");
    InstallResult {
        success: true,
        message: m,
        method: Some(owned("dryRun")),
        stdout: None,
        stderr: None,
        effective_dry_run: true,
        job_id: owned(job_id),
    }
}

// ---------------------------------------------------------------------------
// Whether a printer is already there
// ---------------------------------------------------------------------------

/// Whether a name is among the names.
pub fn names_contain(v: &Vec<String>, name: &str) -> (r: bool)
    ensures
        r == exists|i: int| 0 <= i < v@.len() && #[trigger] v@[i]@ == name@,
{
    let mut i: usize = 0;
    while i < v.len()
        invariant
            i <= v@.len(),
            forall|k: int| 0 <= k < i ==> #[trigger] v@[k]@ != name@,
        decreases v@.len() - i,
    {
        if str_eq(v[i].as_str(), name) {
            assert(v@[i as int]@ == name@);
            return true;
        }
        i = i + 1;
    }
    false
}

/// A printer of that name is in the list; a listing that failed counts as
/// not there.
pub fn check_existing_printer(listing: &Result<Vec<String>, String>, name: &str) -> (r: bool)
    ensures
        r == (listing matches Ok(v) && exists|i: int| 0 <= i < v@.len() && #[trigger] v@[i]@ == name@),
{
    match listing {
        Ok(v) => names_contain(v, name),
        Err(_) => false,
    }
}

} // verus!
