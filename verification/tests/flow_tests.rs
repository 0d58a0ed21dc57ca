use std::collections::hash_map::DefaultHasher;
use std::hash::{Hash, Hasher};

use eprinty::config::{Area, City, DriverCatalog, DriverCatalogEntry, Printer, PrinterConfig};
use eprinty::commands::plan_install_request;
use eprinty::macos_flow::{
    ensure_queue_after_attempt, final_verify_failure, final_verify_step, install_init_message,
    lpadmin_args, probe_failure_message, queue_failure_message, verify_after_lpoptions, CmdRun,
    EnsureQueueStep, FinalVerifyStep, StepError, VerifyNext, VerifyStatus,
};
use eprinty::platform::{
    delete_printer, list_printers, list_printers_detailed, open_url, open_url_command,
    DeletePrinterResultInternal, DetailedPrinterInfo, Platform, PrinterListing,
};
use eprinty::version::compare_versions;
use eprinty::win_delete::{count_driver_usage, get_printer_info, ps_quote_exec};
use eprinty::win_fetch::{after_body, after_request_error, after_response, DownloadStep, FetchError};
use eprinty::win_infpath::{normalize_inf_rel_path, ComponentKind, InfPathError};
use eprinty::win_list::{extract_wide_string, fallback_printers, list_printers_windows, PrinterInfo};
use eprinty::win_route::{generate_stable_id, is_legacy_build, select_install_route, windows_job_id, InstallRoute};

fn default_hash_hex(text: &str) -> String {
    let mut h = DefaultHasher::new();
    text.hash(&mut h);
    format!("{:x}", h.finish())
}

fn one_printer_config() -> PrinterConfig {
    let mut cat = DriverCatalog::new();
    cat.insert(
        "hp".to_string(),
        DriverCatalogEntry { install_mode: Some("package".to_string()), local: None, remote: None },
    );
    PrinterConfig {
        version: Some("2.0.0".to_string()),
        driver_catalog: Some(cat),
        cities: vec![City {
            city_id: "sh".to_string(),
            city_name: "上海".to_string(),
            areas: vec![Area {
                area_name: "2F".to_string(),
                printers: vec![Printer {
                    name: "Office".to_string(),
                    path: "\\\\10.0.0.5".to_string(),
                    model: None,
                    driver_path: None,
                    driver_names: None,
                    install_mode: None,
                    driver_key: Some("hp".to_string()),
                }],
            }],
        }],
    }
}

#[test]
fn download_steps() {
    match after_response(1, 503, false, None, "u") {
        DownloadStep::Retry(1, FetchError::DownloadFailedStatus { status: 503, .. }) => {}
        _ => panic!("first failure retries after one second"),
    }
    match after_response(2, 503, false, None, "u") {
        DownloadStep::Retry(2, _) => {}
        _ => panic!("second failure retries after two seconds"),
    }
    assert!(matches!(after_response(3, 503, false, None, "u"), DownloadStep::Stop(FetchError::DownloadFailedStatus { .. })));
    assert!(matches!(
        after_response(1, 204, true, None, "u"),
        DownloadStep::Stop(FetchError::DownloadFailedEmptyBody { status: 204, bytes: 0, .. })
    ));
    assert!(matches!(after_response(1, 200, true, Some(0), "u"), DownloadStep::Stop(_)));
    assert!(matches!(after_response(1, 200, true, Some(10), "u"), DownloadStep::ReadBody));
    match after_request_error(3, "timeout", "u") {
        DownloadStep::Stop(e) => assert_eq!(e.message(), "下载失败 (step=download_internal, attempt=3): 无状态码 | URL: u | 请求失败: timeout"),
        _ => panic!("the last try stops"),
    }
    assert!(matches!(after_body(200, None, 0, "u"), DownloadStep::Stop(_)));
    assert!(matches!(after_body(200, None, 5, "u"), DownloadStep::Written));
}

#[test]
fn install_routes() {
    assert!(matches!(select_install_route("package", &None, &vec![], false, false, "j"), InstallRoute::Package));
    match select_install_route("auto", &Some("d/x.inf".to_string()), &vec!["  ".to_string(), "HP".to_string()], false, false, "j") {
        InstallRoute::ModernInf(n) => assert_eq!(n, "  "),
        _ => panic!(),
    }
    match select_install_route("auto", &Some("d/x.inf".to_string()), &vec![], true, true, "j") {
        InstallRoute::Refused(r) => {
            assert!(!r.success);
            assert_eq!(r.method.as_deref(), Some("ModernInf"));
            assert_eq!(
                r.stderr.as_deref(),
                Some("MissingDriverNameMapping driverPath=Some(\"d/x.inf\") has_driver_names=false has_model=true")
            );
            assert!(r.effective_dry_run);
        }
        _ => panic!(),
    }
    match select_install_route("auto", &None, &vec![], false, false, "j") {
        InstallRoute::Refused(r) => {
            assert_eq!(r.method.as_deref(), Some("Routing"));
            assert!(r.message.ends_with("Evidence: NoModernPathAvailable routing_policy=ModernPreferred has_driver_package=false has_driver_path=false"));
        }
        _ => panic!(),
    }
    assert!(is_legacy_build(9200));
    assert!(!is_legacy_build(0));
    assert!(!is_legacy_build(19045));
    assert_eq!(windows_job_id(1700000012345), "job_1700000012345_2345");
}

#[test]
fn stable_ids() {
    let cfg = one_printer_config();
    assert_eq!(generate_stable_id(Some(&cfg), "Other", "\\\\10.0.0.5"), default_hash_hex("2F|Office|10.0.0.5"));
    assert_eq!(generate_stable_id(Some(&cfg), "Lab", "\\\\10.0.0.9"), default_hash_hex("Lab|10.0.0.9"));
    assert_eq!(generate_stable_id(None, "Office", "\\10.0.0.5"), default_hash_hex("Office|10.0.0.5"));
}

#[test]
fn install_requests_are_planned() {
    let cfg = one_printer_config();
    assert_eq!(
        plan_install_request(" ", "p", None, None, None, None, None, Ok(&cfg)).err(),
        Some("打印机名称不能为空".to_string())
    );
    assert!(plan_install_request("Office", "p", None, None, None, None, None, Ok(&cfg))
        .err()
        .unwrap()
        .starts_with("【必填参数】driverKey 为空。"));
    assert_eq!(
        plan_install_request("Office", "p", Some("hp".to_string()), None, None, None, None, Err("io".to_string())).err(),
        Some("加载配置失败: io".to_string())
    );
    assert_eq!(
        plan_install_request("Office", "p", Some("canon".to_string()), None, None, None, None, Ok(&cfg)).err(),
        Some("driverKey='canon' 在 driverCatalog 中不存在。已定义的 driverKey: ['hp']".to_string())
    );
    assert_eq!(
        plan_install_request("Office", "p", Some("hp".to_string()), None, None, Some("fast".to_string()), None, Ok(&cfg)).err(),
        Some("invalid installMode=\"fast\" from frontend. allowed: auto|package|installer|ipp|legacy_inf".to_string())
    );
    assert_eq!(
        plan_install_request("Office", "p", Some("hp".to_string()), None, None, None, None, Ok(&cfg)).err(),
        Some("driverInstallPolicy is required. allowed: always|reuse_if_installed".to_string())
    );
    assert_eq!(
        plan_install_request("Office", "p", Some("hp".to_string()), None, Some("never".to_string()), None, None, Ok(&cfg)).err(),
        Some("invalid driverInstallPolicy=\"never\". allowed: always|reuse_if_installed".to_string())
    );
    let plan = plan_install_request("Office", "\\\\10.0.0.5", Some("hp".to_string()), None, Some("always".to_string()), None, None, Ok(&cfg))
        .ok()
        .unwrap();
    assert_eq!(plan.install_mode, "package");
    assert_eq!(plan.driver_install_policy, "always");
    // Without an explicit choice a request is a dry run.
    assert!(plan.dry_run);
    assert_eq!(plan.printer.driver_key.as_deref(), Some("hp"));
}

#[test]
fn inf_paths_from_the_configuration() {
    let normal = vec![ComponentKind::Normal, ComponentKind::Normal];
    assert_eq!(normalize_inf_rel_path("drivers\\hp\\hp.inf", false, &normal).ok(), Some("hp/hp.inf".to_string()));
    assert_eq!(normalize_inf_rel_path("hp/hp.inf", false, &normal).ok(), Some("hp/hp.inf".to_string()));
    let reason = |p: &str, abs: bool, kinds: Vec<ComponentKind>| match normalize_inf_rel_path(p, abs, &kinds) {
        Err(InfPathError::PathTraversalNotAllowed { reason, .. }) => reason,
        _ => panic!(),
    };
    assert_eq!(reason("/etc/x.inf", true, vec![ComponentKind::RootDir, ComponentKind::Normal]), "相对路径不能是绝对路径");
    assert_eq!(reason("../x.inf", false, vec![ComponentKind::ParentDir, ComponentKind::Normal]), "相对路径不能包含 '..' 组件");
    assert_eq!(reason("C:x.inf", false, vec![ComponentKind::Prefix, ComponentKind::Normal]), "相对路径不能包含路径前缀");
    assert_eq!(reason("/abs/a.inf", false, vec![ComponentKind::RootDir, ComponentKind::Normal, ComponentKind::Normal]), "相对路径不能是绝对路径");
    assert_eq!(reason("drivers/../a.inf", false, vec![ComponentKind::Normal, ComponentKind::ParentDir, ComponentKind::Normal]), "相对路径不能包含 '..' 组件");
}

#[test]
fn macos_queue_steps() {
    assert_eq!(install_init_message("driverless"), "开始安装 (macOS driverless)");
    assert_eq!(install_init_message("package"), "macOS 平台已将 installMode=\"package\" 降级为 \"driverless\"");
    assert_eq!(probe_failure_message("10.0.0.5", 631, "refused"), "无法连接到 10.0.0.5:631 (refused)");
    assert_eq!(
        lpadmin_args("Q", "ipp://h/ipp/print", "Office", 0),
        vec!["-p", "Q", "-E", "-v", "ipp://h/ipp/print", "-D", "Office", "-m", "everywhere"]
    );
    assert_eq!(lpadmin_args("Q", "u", "D", 2), vec!["-p", "Q", "-E", "-v", "u", "-D", "D"]);
    assert!(matches!(ensure_queue_after_attempt("Q", 0, true, Some(0), ""), EnsureQueueStep::Created));
    assert!(matches!(ensure_queue_after_attempt("Q", 0, false, Some(1), "bad model"), EnsureQueueStep::TryNext(1)));
    match ensure_queue_after_attempt("Q", 1, false, Some(1), "Operation not permitted") {
        EnsureQueueStep::Failed(e) => assert_eq!(e.code, "E_NO_PRIVILEGE"),
        _ => panic!(),
    }
    assert_eq!(queue_failure_message("E_NO_PRIVILEGE"), "创建队列失败：需要管理员权限");
    assert_eq!(queue_failure_message("E_QUEUE_CREATE_FAILED"), "创建队列失败");
}

#[test]
fn macos_final_checks() {
    let ok = CmdRun { success: true, exit_code: Some(0), stdout: String::new(), stderr: String::new() };
    assert!(matches!(verify_after_lpoptions("Q", Ok(ok)), VerifyNext::ReadDeviceUri));
    let missing = CmdRun {
        success: false,
        exit_code: Some(1),
        stdout: String::new(),
        stderr: "lpoptions: Unknown destination".to_string(),
    };
    match verify_after_lpoptions("Q", Ok(missing)) {
        VerifyNext::Done(VerifyStatus::NotFound(d)) => assert_eq!(
            d,
            "cmd=lpoptions args=[\"-p\", \"Q\"] exit_code=Some(1) stderr_snip=\"lpoptions: Unknown destination\""
        ),
        _ => panic!(),
    }
    assert!(matches!(final_verify_step(VerifyStatus::Exists(None), false), FinalVerifyStep::Installed));
    match final_verify_step(VerifyStatus::NotFound("d".to_string()), false) {
        FinalVerifyStep::Retry(e) => assert_eq!(e.code, "E_VERIFY_NOT_FOUND"),
        _ => panic!(),
    }
    match final_verify_step(VerifyStatus::NotFound("d".to_string()), true) {
        FinalVerifyStep::Failed(e) => assert_eq!((e.code.as_str(), e.detail.as_str()), ("E_VERIFY_NOT_FOUND", "d")),
        _ => panic!(),
    }
    match final_verify_step(VerifyStatus::Error(StepError { code: "X".to_string(), detail: "boom".to_string() }), false) {
        FinalVerifyStep::Failed(e) => assert_eq!(e.code, "E_VERIFY_CMD_FAILED"),
        _ => panic!(),
    }
    let (e, m) = final_verify_failure("Q", None);
    assert_eq!((e.code.as_str(), e.detail.as_str(), m.as_str()), ("E_VERIFY_TIMEOUT", "queue_name=Q 队列验证超时", "队列验证超时（10s）"));
    let (e, m) = final_verify_failure("Q", Some(StepError { code: "E_VERIFY_NOT_FOUND".to_string(), detail: "d".to_string() }));
    assert_eq!((e.code.as_str(), m.as_str()), ("E_VERIFY_NOT_FOUND", "队列校验失败"));
}

#[test]
fn platform_entry_points() {
    let entries = list_printers(Ok(PrinterListing::Windows(vec!["Office".to_string()]))).ok().unwrap();
    assert_eq!(entries[0].installed_key, "Office");
    assert_eq!(entries[0].platform, "windows");
    assert_eq!(list_printers(Err("x".to_string())).err(), Some("x".to_string()));
    assert_eq!(
        list_printers_detailed(Platform::MacOs, Ok(vec![])).err(),
        Some("macOS 平台暂不支持该功能".to_string())
    );
    match open_url_command(Platform::MacOs, "https://a") {
        Some((cmd, args)) => {
            assert_eq!(cmd, "open");
            assert_eq!(args, vec!["https://a".to_string()]);
        }
        None => panic!(),
    }
    assert!(open_url_command(Platform::Other, "https://a").is_none());
    assert_eq!(open_url(Platform::Windows, Some(Ok((false, b"no".to_vec())))), Err("无法打开 URL: no".to_string()));
    assert_eq!(open_url(Platform::MacOs, Some(Ok((true, vec![])))), Ok(()));
    let internal = DeletePrinterResultInternal {
        success: true,
        removed_queue: true,
        removed_port: false,
        removed_driver: false,
        driver_name: None,
        port_name: Some("IP_10_0_0_5".to_string()),
        message: "已删除".to_string(),
        evidence: None,
    };
    let d = delete_printer(Platform::Windows, "Office", Ok(internal)).ok().unwrap();
    assert_eq!(d.printer_name, "Office");
    assert!(d.removed_queue && !d.removed_port);
    assert_eq!(d.port_name.as_deref(), Some("IP_10_0_0_5"));
}

#[test]
fn windows_listing_pieces() {
    let infos = vec![
        PrinterInfo { name: "A".to_string(), port_name: None, driver_name: None },
        PrinterInfo { name: "B".to_string(), port_name: Some("P".to_string()), driver_name: None },
    ];
    assert_eq!(list_printers_windows(Ok(infos)).ok().unwrap(), vec!["A".to_string(), "B".to_string()]);
    assert_eq!(list_printers_windows(Err("e".to_string())).err(), Some("WIN_LIST_PRINTERS_FAILED: e".to_string()));
    let names: Vec<String> = fallback_printers(Ok((Some(0), b"Office\r\n\r\n  Lab \r\n".to_vec(), vec![])))
        .ok()
        .unwrap()
        .into_iter()
        .map(|p| p.name)
        .collect();
    assert_eq!(names, vec!["Office".to_string(), "Lab".to_string()]);
    let wide: Vec<u16> = "Office\0junk".encode_utf16().collect();
    assert_eq!(extract_wide_string(&wide), "Office");
    let printers = vec![
        DetailedPrinterInfo { name: "A".to_string(), port_name: Some("P1".to_string()), driver_name: Some("HP".to_string()), comment: None, location: None },
        DetailedPrinterInfo { name: "B".to_string(), port_name: None, driver_name: Some("HP".to_string()), comment: None, location: None },
        DetailedPrinterInfo { name: "C".to_string(), port_name: None, driver_name: Some("Canon".to_string()), comment: None, location: None },
    ];
    assert_eq!(count_driver_usage(&printers, "HP", "A"), 1);
    assert_eq!(count_driver_usage(&printers, "HP", "Z"), 2);
    assert_eq!(get_printer_info(&printers, "A"), (Some("P1".to_string()), Some("HP".to_string())));
    assert_eq!(get_printer_info(&printers, "Z"), (None, None));
}

// Scenarios for the laws of the library.

#[test]
fn version_order_is_strict() {
    for v in ["1.0", "2.3.4", "0"] {
        assert!(!compare_versions(v, v));
    }
    assert!(compare_versions("1.2", "1.3") && !compare_versions("1.3", "1.2"));
    assert!(compare_versions("1.2", "1.3") && compare_versions("1.3", "2.0") && compare_versions("1.2", "2.0"));
}

#[test]
fn quoting_keeps_names_apart() {
    let a: String = ps_quote_exec("a'b").into_iter().collect();
    let b: String = ps_quote_exec("a''b").into_iter().collect();
    let c: String = ps_quote_exec("ab'").into_iter().collect();
    assert_ne!(a, b);
    assert_ne!(a, c);
    assert_eq!(a, "a''b");
    assert_eq!(b, "a''''b");
}
