use vstd::prelude::*;
use crate::config::{
    opt_view, strings_view, clone_string, clone_opt_string, PrinterConfig, Printer, DriverCatalog,
    config_different, spec_config_different,
};
use crate::text::{owned, append_str, trim, trim_str, str_eq, join, join_strings};

verus! {

// ---------------------------------------------------------------------------
// Loading the configuration
// ---------------------------------------------------------------------------

/// The configuration the front end gets, with where it came from and what
/// is known of a newer one.
pub struct LoadConfigResult {
    pub config: PrinterConfig,
    pub source: String,
    pub remote_error: Option<String>,
    pub has_remote_update: bool,
    pub remote_config: Option<PrinterConfig>,
    pub local_version: Option<String>,
    pub remote_version: Option<String>,
}

/// How fetching the remote configuration went.
pub enum RemoteFetch {
    Loaded(PrinterConfig),
    Failed(String),
    TimedOut,
}

/// A local configuration is used at once; the remote one is compared in
/// the background.
pub fn local_config_result(config: PrinterConfig) -> (r: LoadConfigResult)
    ensures
        r.config == config,
        r.source@ == "local"@,
        r.remote_error is None,
        !r.has_remote_update,
        r.remote_config is None,
        opt_view(r.local_version) == opt_view(config.version),
        r.remote_version is None,
{
    let local_version = clone_opt_string(&config.version);
    LoadConfigResult {
        config,
        source: owned("local"),
        remote_error: None,
        has_remote_update: false,
        remote_config: None,
        local_version,
        remote_version: None,
    }
}

/// What the background comparison tells the front end.
pub enum RemoteNotice {
    /// A remote configuration that differs: the two versions.
    UpdateAvailable { local_version: Option<String>, remote_version: Option<String> },
    /// The remote configuration could not be had.
    Error(String),
}

/// The background comparison: a differing remote configuration is
/// announced; an equal one says nothing; a failure or timeout is reported.
pub fn remote_notice(local: &PrinterConfig, remote: &RemoteFetch) -> (r: Option<RemoteNotice>)
    ensures
        match *remote {
            RemoteFetch::Loaded(rc) => if spec_config_different(*local, rc) {
                r matches Some(RemoteNotice::UpdateAvailable { local_version: l, remote_version: v })
                    && opt_view(l) == opt_view(local.version) && opt_view(v) == opt_view(rc.version)
            } else {
                r is None
            },
            RemoteFetch::Failed(e) => r matches Some(RemoteNotice::Error(m)) && m@ == "远程配置加载失败: "@
                + e@,
            RemoteFetch::TimedOut => r matches Some(RemoteNotice::Error(m)) && m@ == "远程配置加载超时"@,
        },
{
    match remote {
        RemoteFetch::Loaded(rc) => {
            if config_different(local, rc) {
                Some(
                    RemoteNotice::UpdateAvailable {
                        local_version: clone_opt_string(&local.version),
                        remote_version: clone_opt_string(&rc.version),
                    },
                )
            } else {
                None
            }
        },
        RemoteFetch::Failed(e) => {
            let mut m = owned("远程配置加载失败: ");
            append_str(&mut m, e.as_str());
            Some(RemoteNotice::Error(m))
        },
        RemoteFetch::TimedOut => Some(RemoteNotice::Error(owned("远程配置加载超时"))),
    }
}

/// Without a local configuration: the remote one is used (a failure to
/// save it is reported alongside); if it cannot be had, both errors are
/// reported.
pub fn remote_fallback_result(
    local_error: &str,
    remote: RemoteFetch,
    saved: Result<(), String>,
) -> (r: Result<LoadConfigResult, String>)
    ensures
        match remote {
            RemoteFetch::Loaded(rc) => r matches Ok(res) && res.config == rc && res.source@ == "remote"@
                && !res.has_remote_update && res.remote_config is None && res.local_version is None
                && opt_view(res.remote_version) == opt_view(rc.version) && match saved {
                Ok(()) => res.remote_error is None,
                Err(e) => opt_view(res.remote_error) == Some("远程配置加载成功，但保存到本地失败: "@ + e@),
            },
            RemoteFetch::Failed(e) => r matches Err(m) && m@ == "本地和远程配置都加载失败:\n本地错误: "@
                + local_error@ + "\n远程错误: "@ + e@,
            RemoteFetch::TimedOut => r matches Err(m) && m@ == "本地配置加载失败:\n本地错误: "@ + local_error@
                + "\n远程配置加载超时"@,
        },
{
    match remote {
        RemoteFetch::Loaded(rc) => {
            let remote_error = match saved {
                Ok(()) => None,
                Err(e) => {
                    let mut m = owned("远程配置加载成功，但保存到本地失败: ");
                    append_str(&mut m, e.as_str());
                    Some(m)
                },
            };
            let remote_version = clone_opt_string(&rc.version);
            Ok(
                LoadConfigResult {
                    config: rc,
                    source: owned("remote"),
                    remote_error,
                    has_remote_update: false,
                    remote_config: None,
                    local_version: None,
                    remote_version,
                },
            )
        },
        RemoteFetch::Failed(e) => {
            let mut m = owned("本地和远程配置都加载失败:\n本地错误: ");
            append_str(&mut m, local_error);
            append_str(&mut m, "\n远程错误: ");
            append_str(&mut m, e.as_str());
            Err(m)
        },
        RemoteFetch::TimedOut => {
            let mut m = owned("本地配置加载失败:\n本地错误: ");
            append_str(&mut m, local_error);
            append_str(&mut m, "\n远程配置加载超时");
            Err(m)
        },
    }
}

/// Replacing the local configuration by the remote one on request.
pub fn confirm_update_result(
    local: Result<&PrinterConfig, String>,
    remote: RemoteFetch,
    saved: Result<(), String>,
) -> (r: Result<LoadConfigResult, String>)
    ensures
        match local {
            Err(e) => r matches Err(m) && m@ == "加载本地配置失败: "@ + e@,
            Ok(lc) => match remote {
                RemoteFetch::Loaded(rc) => match saved {
                    Ok(()) => r matches Ok(res) && res.config == rc && res.source@ == "remote_updated"@
                        && res.remote_error is None && !res.has_remote_update && res.remote_config is None
                        && opt_view(res.local_version) == opt_view(lc.version) && opt_view(
                        res.remote_version,
                    ) == opt_view(rc.version),
                    Err(e) => r matches Err(m) && m@ == "保存配置文件失败: "@ + e@,
                },
                RemoteFetch::Failed(e) => r matches Err(m) && m@ == "加载远程配置失败: "@ + e@,
                RemoteFetch::TimedOut => r matches Err(m) && m@ == "加载远程配置超时"@,
            },
        },
{
    match local {
        Err(e) => {
            let mut m = owned("加载本地配置失败: ");
            append_str(&mut m, e.as_str());
            Err(m)
        },
        Ok(lc) => match remote {
            RemoteFetch::Loaded(rc) => match saved {
                Ok(()) => {
                    let local_version = clone_opt_string(&lc.version);
                    let remote_version = clone_opt_string(&rc.version);
                    Ok(
                        LoadConfigResult {
                            config: rc,
                            source: owned("remote_updated"),
                            remote_error: None,
                            has_remote_update: false,
                            remote_config: None,
                            local_version,
                            remote_version,
                        },
                    )
                },
                Err(e) => {
                    let mut m = owned("保存配置文件失败: ");
                    append_str(&mut m, e.as_str());
                    Err(m)
                },
            },
            RemoteFetch::Failed(e) => {
                let mut m = owned("加载远程配置失败: ");
                append_str(&mut m, e.as_str());
                Err(m)
            },
            RemoteFetch::TimedOut => Err(owned("加载远程配置超时")),
        },
    }
}

/// The error when no configuration file was found, listing where it was
/// looked for.
pub open spec fn spec_missing_config_message(file_name: Seq<char>, searched: Seq<Seq<char>>) -> Seq<char>
    decreases searched.len(),
{
    if searched.len() == 0 {
        "未找到本地配置文件 "@ + file_name + "。已搜索以下位置：\n"@
    } else {
        spec_missing_config_message(file_name, searched.drop_last()) + "  - "@ + searched.last() + "\n"@
    }
}

pub fn missing_config_message(file_name: &str, searched: &Vec<String>) -> (r: String)
    ensures
        r@ == spec_missing_config_message(file_name@, strings_view(searched@)),
{
    let mut m = owned("未找到本地配置文件 ");
    append_str(&mut m, file_name);
    append_str(&mut m, "。已搜索以下位置：\n");
    let mut i: usize = 0;
    while i < searched.len()
        invariant
            i <= searched@.len(),
            m@ == spec_missing_config_message(file_name@, strings_view(searched@).take(i as int)),
        decreases searched@.len() - i,
    {
        assert(strings_view(searched@).take(i + 1).drop_last() =~= strings_view(searched@).take(
            i as int,
        ));
        append_str(&mut m, "  - ");
        append_str(&mut m, searched[i].as_str());
        append_str(&mut m, "\n");
        i = i + 1;
    }
    assert(strings_view(searched@).take(searched@.len() as int) =~= strings_view(searched@));
    m
}

// ---------------------------------------------------------------------------
// Checking an install request
// ---------------------------------------------------------------------------

/// The install modes a request may name.
pub open spec fn valid_modes() -> Seq<Seq<char>> {
    seq!["auto"@, "package"@, "installer"@, "ipp"@, "legacy_inf"@]
}

/// The driver install policies a request may name.
pub open spec fn valid_policies() -> Seq<Seq<char>> {
    seq!["always"@, "reuse_if_installed"@]
}

fn one_of(s: &str, list: &Vec<&str>) -> (b: bool)
    ensures
        b == list@.map_values(|x: &str| x@).contains(s@),
{
    let ghost lv = list@.map_values(|x: &str| x@);
    let mut i: usize = 0;
    while i < list.len()
        invariant
            i <= list@.len(),
            lv == list@.map_values(|x: &str| x@),
            forall|j: int| 0 <= j < i ==> lv[j] != s@,
        decreases list@.len() - i,
    {
        if str_eq(list[i], s) {
            assert(lv[i as int] == s@);
            return true;
        }
        i = i + 1;
    }
    false
}

fn modes_list() -> (r: Vec<&'static str>)
    ensures
        r@.map_values(|x: &str| x@) == valid_modes(),
{
    let r = vec!["auto", "package", "installer", "ipp", "legacy_inf"];
    assert(r@.map_values(|x: &str| x@) =~= valid_modes());
    r
}

fn policies_list() -> (r: Vec<&'static str>)
    ensures
        r@.map_values(|x: &str| x@) == valid_policies(),
{
    let r = vec!["always", "reuse_if_installed"];
    assert(r@.map_values(|x: &str| x@) =~= valid_policies());
    r
}

/// A checked install request: the printer to install (its driver from the
/// catalog entry of its key), the install mode, the driver policy and the
/// dry-run flag.
pub struct InstallPlan {
    pub printer: Printer,
    pub install_mode: String,
    pub driver_install_policy: String,
    pub dry_run: bool,
}

/// `'key'` for each key, joined by `, `.
pub open spec fn quoted_keys(keys: Seq<Seq<char>>) -> Seq<char> {
    join(keys.map_values(|k: Seq<char>| "'"@ + k + "'"@), ", "@)
}

/// The install mode of a request: its own when it names one (an unknown
/// one is an error), else the catalog entry's when that is known, else
/// `auto`.
pub open spec fn spec_plan_mode(request_mode: Option<Seq<char>>, entry_mode: Option<Seq<char>>) -> Result<
    Seq<char>,
    Seq<char>,
> {
    match request_mode {
        Some(m) => if valid_modes().contains(m) {
            Ok(m)
        } else {
            Err("invalid installMode=\""@ + m
                + "\" from frontend. allowed: auto|package|installer|ipp|legacy_inf"@)
        },
        None => match entry_mode {
            Some(m) => if valid_modes().contains(m) {
                Ok(m)
            } else {
                Ok("auto"@)
            },
            None => Ok("auto"@),
        },
    }
}

/// Checks an install request against the loaded configuration, in the
/// order the checks are made: a name, a driver key, the configuration,
/// its catalog, the key in the catalog, the install mode and the driver
/// policy. A missing dry-run flag means a dry run.
pub fn plan_install_request(
    name: &str,
    path: &str,
    driver_key: Option<String>,
    model: Option<String>,
    driver_install_policy: Option<String>,
    install_mode: Option<String>,
    dry_run: Option<bool>,
    config: Result<&PrinterConfig, String>,
) -> (r: Result<InstallPlan, String>)
    ensures
        trim(name@).len() == 0 ==> (r matches Err(m) && m@ == "打印机名称不能为空"@),
        trim(name@).len() > 0 && driver_key is None ==> (r matches Err(m) && m@
            == "【必填参数】driverKey 为空。v2.0.0+ 要求所有安装请求必须提供 driverKey。\n\n请检查：\n1. printer_config.json 中是否每个打印机都有 driverKey\n2. 前端是否正确传递了 driverKey"@),
        trim(name@).len() > 0 && driver_key is Some && config is Err ==> (r matches Err(m) && m@
            == "加载配置失败: "@ + config->Err_0@),
        trim(name@).len() > 0 && driver_key is Some && config is Ok && config->Ok_0.driver_catalog is None
            ==> (r matches Err(m) && m@ == "配置缺少 driverCatalog"@),
        trim(name@).len() > 0 && driver_key is Some && config is Ok && config->Ok_0.driver_catalog is Some
            && !config->Ok_0.driver_catalog->0.contains_spec(driver_key->0@) ==> (r matches Err(m) && m@
            == "driverKey='"@ + driver_key->0@ + "' 在 driverCatalog 中不存在。已定义的 driverKey: ["@
            + quoted_keys(config->Ok_0.driver_catalog->0.key_seq()) + "]"@),
        trim(name@).len() > 0 && driver_key is Some && config is Ok && config->Ok_0.driver_catalog is Some
            && config->Ok_0.driver_catalog->0.contains_spec(driver_key->0@) && spec_plan_mode(
            opt_view(install_mode),
            opt_view(config->Ok_0.driver_catalog->0.get_spec(driver_key->0@)->0.install_mode),
        ) is Err ==> (r matches Err(m) && m@ == spec_plan_mode(
            opt_view(install_mode),
            opt_view(config->Ok_0.driver_catalog->0.get_spec(driver_key->0@)->0.install_mode),
        )->Err_0),
        trim(name@).len() > 0 && driver_key is Some && config is Ok && config->Ok_0.driver_catalog is Some
            && config->Ok_0.driver_catalog->0.contains_spec(driver_key->0@) && spec_plan_mode(
            opt_view(install_mode),
            opt_view(config->Ok_0.driver_catalog->0.get_spec(driver_key->0@)->0.install_mode),
        ) is Ok && driver_install_policy is None ==> (r matches Err(m) && m@
            == "driverInstallPolicy is required. allowed: always|reuse_if_installed"@),
        trim(name@).len() > 0 && driver_key is Some && config is Ok && config->Ok_0.driver_catalog is Some
            && config->Ok_0.driver_catalog->0.contains_spec(driver_key->0@) && spec_plan_mode(
            opt_view(install_mode),
            opt_view(config->Ok_0.driver_catalog->0.get_spec(driver_key->0@)->0.install_mode),
        ) is Ok && driver_install_policy is Some && !valid_policies().contains(
            driver_install_policy->0@,
        ) ==> (r matches Err(m) && m@ == "invalid driverInstallPolicy=\""@ + driver_install_policy->0@
            + "\". allowed: always|reuse_if_installed"@),
        r matches Ok(plan) ==> {
            &&& trim(name@).len() > 0
            &&& driver_key is Some
            &&& config is Ok
            &&& config->Ok_0.driver_catalog is Some
            &&& config->Ok_0.driver_catalog->0.contains_spec(driver_key->0@)
            &&& plan.printer.name@ == name@
            &&& plan.printer.path@ == path@
            &&& opt_view(plan.printer.model) == opt_view(model)
            &&& plan.printer.driver_path is None
            &&& plan.printer.driver_names is None
            &&& plan.printer.install_mode is None
            &&& opt_view(plan.printer.driver_key) == Some(driver_key->0@)
            &&& spec_plan_mode(
                opt_view(install_mode),
                opt_view(config->Ok_0.driver_catalog->0.get_spec(driver_key->0@)->0.install_mode),
            ) == Ok::<Seq<char>, Seq<char>>(plan.install_mode@)
            &&& driver_install_policy is Some
            &&& valid_policies().contains(driver_install_policy->0@)
            &&& plan.driver_install_policy@ == driver_install_policy->0@
            &&& plan.dry_run == (match dry_run {
                Some(b) => b,
                None => true,
            })
        },
        trim(name@).len() > 0 && driver_key is Some && config is Ok && config->Ok_0.driver_catalog is Some
            && config->Ok_0.driver_catalog->0.contains_spec(driver_key->0@) && spec_plan_mode(
            opt_view(install_mode),
            opt_view(config->Ok_0.driver_catalog->0.get_spec(driver_key->0@)->0.install_mode),
        ) is Ok && driver_install_policy is Some && valid_policies().contains(
            driver_install_policy->0@,
        ) ==> r is Ok,
{
    let t = trim_str(name);
    if t.len() == 0 {
        return Err(owned("打印机名称不能为空"));
    }
    let key = match driver_key {
        Some(k) => k,
        None => {
            return Err(
                owned(
                    "【必填参数】driverKey 为空。v2.0.0+ 要求所有安装请求必须提供 driverKey。\n\n请检查：\n1. printer_config.json 中是否每个打印机都有 driverKey\n2. 前端是否正确传递了 driverKey",
                ),
            );
        },
    };
    let cfg = match config {
        Ok(c) => c,
        Err(e) => {
            let mut m = owned("加载配置失败: ");
            append_str(&mut m, e.as_str());
            return Err(m);
        },
    };
    let catalog = match &cfg.driver_catalog {
        Some(c) => c,
        None => {
            return Err(owned("配置缺少 driverCatalog"));
        },
    };
    let entry = match catalog.get(key.as_str()) {
        Some(e) => e,
        None => {
            let keys = catalog.keys();
            let mut quoted: Vec<String> = Vec::new();
            let mut i: usize = 0;
            while i < keys.len()
                invariant
                    i <= keys@.len(),
                    strings_view(quoted@) == strings_view(keys@).take(i as int).map_values(
                        |k: Seq<char>| "'"@ + k + "'"@,
                    ),
                decreases keys@.len() - i,
            {
                let ghost before = quoted@;
                let mut q = owned("'");
                append_str(&mut q, keys[i].as_str());
                append_str(&mut q, "'");
                quoted.push(q);
                assert(strings_view(quoted@) =~= strings_view(before).push("'"@ + keys@[i as int]@ + "'"@));
                assert(strings_view(keys@).take(i + 1).map_values(|k: Seq<char>| "'"@ + k + "'"@)
                    =~= strings_view(keys@).take(i as int).map_values(|k: Seq<char>| "'"@ + k + "'"@).push(
                    "'"@ + keys@[i as int]@ + "'"@,
                ));
                i = i + 1;
            }
            assert(strings_view(keys@).take(keys@.len() as int) =~= strings_view(keys@));
            let mut m = owned("driverKey='");
            append_str(&mut m, key.as_str());
            append_str(&mut m, "' 在 driverCatalog 中不存在。已定义的 driverKey: [");
            append_str(&mut m, join_strings(&quoted, ", ").as_str());
            append_str(&mut m, "]");
            return Err(m);
        },
    };
    let modes = modes_list();
    let mode: String = match install_mode {
        Some(m) => {
            if !one_of(m.as_str(), &modes) {
                let mut e = owned("invalid installMode=\"");
                append_str(&mut e, m.as_str());
                append_str(&mut e, "\" from frontend. allowed: auto|package|installer|ipp|legacy_inf");
                return Err(e);
            }
            m
        },
        None => match &entry.install_mode {
            Some(cm) => {
                if one_of(cm.as_str(), &modes) {
                    clone_string(cm)
                } else {
                    owned("auto")
                }
            },
            None => owned("auto"),
        },
    };
    let policies = policies_list();
    let policy = match driver_install_policy {
        Some(p) => {
            if one_of(p.as_str(), &policies) {
                p
            } else {
                let mut e = owned("invalid driverInstallPolicy=\"");
                append_str(&mut e, p.as_str());
                append_str(&mut e, "\". allowed: always|reuse_if_installed");
                return Err(e);
            }
        },
        None => {
            return Err(owned("driverInstallPolicy is required. allowed: always|reuse_if_installed"));
        },
    };
    let dry = match dry_run {
        Some(b) => b,
        None => true,
    };
    let printer = Printer {
        name: owned(name),
        path: owned(path),
        model: clone_opt_string(&model),
        driver_path: None,
        driver_names: None,
        install_mode: None,
        driver_key: Some(key),
    };
    Ok(InstallPlan { printer, install_mode: mode, driver_install_policy: policy, dry_run: dry })
}

/// A test page needs a printer name.
pub fn check_test_page_request(printer_name: &str) -> (r: Result<(), String>)
    ensures
        trim(printer_name@).len() == 0 ==> (r matches Err(m) && m@
            == "[PrintTestPage] ERROR step=VALIDATE message=打印机名称不能为空"@),
        trim(printer_name@).len() > 0 ==> r is Ok,
{
    if trim_str(printer_name).len() == 0 {
        Err(owned("[PrintTestPage] ERROR step=VALIDATE message=打印机名称不能为空"))
    } else {
        Ok(())
    }
}

/// A reinstall needs the configured printer's key and name.
pub fn check_reinstall_request(config_printer_key: &str, config_printer_name: &str) -> (r: Result<
    (),
    String,
>)
    ensures
        trim(config_printer_key@).len() == 0 ==> (r matches Err(m) && m@ == "配置打印机标识不能为空"@),
        trim(config_printer_key@).len() > 0 && trim(config_printer_name@).len() == 0 ==> (r matches Err(
            m,
        ) && m@ == "配置打印机名称不能为空"@),
        trim(config_printer_key@).len() > 0 && trim(config_printer_name@).len() > 0 ==> r is Ok,
{
    if trim_str(config_printer_key).len() == 0 {
        return Err(owned("配置打印机标识不能为空"));
    }
    if trim_str(config_printer_name).len() == 0 {
        return Err(owned("配置打印机名称不能为空"));
    }
    Ok(())
}

/// The answer to opening a link: `已打开`, or the platform's error.
pub fn open_url_answer(opened: Result<(), String>) -> (r: Result<String, String>)
    ensures
        match opened {
            Ok(()) => r matches Ok(m) && m@ == "已打开"@,
            Err(e) => r == Err::<String, String>(e),
        },
{
    match opened {
        Ok(()) => Ok(owned("已打开")),
        Err(e) => Err(e),
    }
}

} // verus!
