use eprinty::command::{exec_output, taskkill_args, taskkill_pid_hidden};
use eprinty::commands::{confirm_update_result, remote_notice, RemoteFetch, RemoteNotice};
use eprinty::config::{Area, City, Printer, PrinterConfig};
use eprinty::events::{InstallResult, MetaValue};
use eprinty::ipp::SystemPrinter;
use eprinty::macos::{list_printers_macos, system_printer_from_options, Destination};
use eprinty::win_driver::{
    add_driver_run_error, add_driver_script, after_add_driver, after_candidate_query,
    after_inf_install, driver_found, driver_query_script,
};
use eprinty::win_extract::{driver_dirs, entries_display};
use eprinty::win_fetch::url_display;
use eprinty::win_infpath::{
    absolute_inf_path, inf_missing_after_bootstrap, inf_within_root, message_failure,
    missing_inf_result, InfPathError,
};
use eprinty::win_install::InstallError;
use eprinty::win_list::detailed_info;
use eprinty::win_queue::PsRun;
use eprinty::win_route::{job_done_report, package_preflight, windows_init_meta};

fn strs(v: &[&str]) -> Vec<String> {
    v.iter().map(|s| s.to_string()).collect()
}

fn cfg(version: Option<&str>, printer_name: &str) -> PrinterConfig {
    PrinterConfig {
        version: version.map(|v| v.to_string()),
        driver_catalog: None,
        cities: vec![City {
            city_id: "bj".to_string(),
            city_name: "北京".to_string(),
            areas: vec![Area {
                area_name: "2F".to_string(),
                printers: vec![Printer {
                    name: printer_name.to_string(),
                    path: "\\\\srv\\p1".to_string(),
                    model: None,
                    driver_path: None,
                    driver_names: None,
                    install_mode: None,
                    driver_key: Some("hp".to_string()),
                }],
            }],
        }],
    }
}

fn run(code: Option<i32>, out: &str, err: &str) -> PsRun {
    PsRun { exit_code: code, stdout: out.as_bytes().to_vec(), stderr: err.as_bytes().to_vec() }
}

// ---------------------------------------------------------------------------
// Registering a driver
// ---------------------------------------------------------------------------

#[test]
fn driver_query_script_quotes_name() {
    assert_eq!(
        driver_query_script("O'Brien PCL"),
        "[Console]::OutputEncoding = [System.Text.Encoding]::UTF8; Get-PrinterDriver -Name 'O''Brien PCL' -ErrorAction SilentlyContinue | Select-Object -First 1 -ExpandProperty Name"
    );
}

#[test]
fn add_driver_script_quotes_both() {
    assert_eq!(
        add_driver_script("HP 'X'", "C:\\d\\a'b.inf"),
        "[Console]::OutputEncoding = [System.Text.Encoding]::UTF8; Add-PrinterDriver -Name 'HP ''X''' -InfPath 'C:\\d\\a''b.inf' -ErrorAction Stop"
    );
}

#[test]
fn driver_found_needs_exact_trimmed_name() {
    let ok: Result<Vec<u8>, String> = Ok(b"  HP Universal \r\n".to_vec());
    assert!(driver_found(&ok, "HP Universal"));
    assert!(!driver_found(&ok, "HP"));
    let empty: Result<Vec<u8>, String> = Ok(b"   \n".to_vec());
    assert!(!driver_found(&empty, ""));
    let err: Result<Vec<u8>, String> = Err("boom".to_string());
    assert!(!driver_found(&err, "HP Universal"));
}

#[test]
fn after_add_driver_found_is_ok() {
    assert_eq!(after_add_driver(&run(Some(1), "x", "y"), false, true), Ok(()));
}

#[test]
fn after_add_driver_already_exists_is_ok_only_on_success() {
    let r = run(Some(0), "The driver ALREADY EXISTS.", "");
    assert_eq!(after_add_driver(&r, true, false), Ok(()));
    let zh = run(Some(0), "", "驱动已存在");
    assert_eq!(after_add_driver(&zh, true, false), Ok(()));
    assert_eq!(
        after_add_driver(&r, false, false),
        Err("驱动包已导入，但未注册为可用打印驱动；请检查 driver_names 是否匹配该驱动包\n\nAdd-PrinterDriver 输出:\nThe driver ALREADY EXISTS.\n\n退出码: Some(0)".to_string())
    );
}

#[test]
fn after_add_driver_failure_message_joins_streams() {
    let r = run(None, "out", "err");
    assert_eq!(
        after_add_driver(&r, true, false),
        Err("驱动包已导入，但未注册为可用打印驱动；请检查 driver_names 是否匹配该驱动包\n\nAdd-PrinterDriver 输出:\nout\nerr\n\n退出码: None".to_string())
    );
}

#[test]
fn add_driver_run_error_kinds() {
    assert_eq!(
        add_driver_run_error("Access Denied (0x80070005)", "a.inf", "HP"),
        "Add-PrinterDriver 失败（权限错误）。请以管理员身份运行\n\n错误详情:\nAccess Denied (0x80070005)"
    );
    assert_eq!(
        add_driver_run_error("Invalid Parameter", "a.inf", "HP"),
        "Add-PrinterDriver 失败（参数错误）。请检查 InfPath 和 DriverName 是否匹配\n\nInfPath: a.inf\nDriverName: HP\n\n错误详情:\nInvalid Parameter"
    );
    assert_eq!(
        add_driver_run_error("timeout", "a.inf", "HP"),
        "Add-PrinterDriver 失败\n\n错误详情:\ntimeout"
    );
}

#[test]
fn candidate_query_takes_trimmed_name() {
    let mut last: Option<String> = None;
    let r = after_candidate_query(Ok(run(Some(0), "  HP Universal PCL6 \r\n", "warn")), &mut last);
    assert_eq!(r, Some("HP Universal PCL6".to_string()));
    assert_eq!(last, None);
}

#[test]
fn candidate_query_keeps_diagnostics() {
    let mut last: Option<String> = Some("old".to_string());
    let r = after_candidate_query(Ok(run(Some(1), "", "  ")), &mut last);
    assert_eq!(r, None);
    assert_eq!(last, Some("old".to_string()));
    let r = after_candidate_query(Ok(run(Some(1), " ", "not found")), &mut last);
    assert_eq!(r, None);
    assert_eq!(last, Some("not found".to_string()));
    let r = after_candidate_query(Err("spawn failed".to_string()), &mut last);
    assert_eq!(r, None);
    assert_eq!(last, Some("spawn failed".to_string()));
}

#[test]
fn inf_install_failure_carries_output() {
    let names = strs(&["A", "B"]);
    let r = after_inf_install("C:\\d\\x.inf", false, Some(5), b"o", b"e", &None, &names);
    match r {
        Err(InstallError::InfInstallFailed { inf_path, exit_code, stdout, stderr }) => {
            assert_eq!(inf_path, "C:\\d\\x.inf");
            assert_eq!(exit_code, Some(5));
            assert_eq!(stdout, "o");
            assert_eq!(stderr, "e");
        }
        _ => panic!("expected InfInstallFailed"),
    }
}

#[test]
fn inf_install_success_needs_a_selected_driver() {
    let names = strs(&["A", "B"]);
    assert!(after_inf_install("x.inf", true, Some(0), b"", b"", &Some("A".to_string()), &names).is_ok());
    match after_inf_install("x.inf", true, Some(0), b"", b"", &None, &names) {
        Err(InstallError::InfInstallFailed { inf_path, exit_code, stdout, stderr }) => {
            assert_eq!(inf_path, "x.inf");
            assert_eq!(exit_code, Some(0));
            assert_eq!(stdout, "pnputil 执行成功，但 driver_names 中未找到已安装驱动。候选列表: A, B");
            assert_eq!(stderr, "请检查 driver_names 是否与系统 DriverName 一致。候选: A, B");
        }
        _ => panic!("expected InfInstallFailed"),
    }
}

// ---------------------------------------------------------------------------
// Remote configuration
// ---------------------------------------------------------------------------

#[test]
fn remote_notice_reports_difference() {
    let local = cfg(Some("1.0"), "A");
    match remote_notice(&local, &RemoteFetch::Loaded(cfg(Some("1.1"), "B"))) {
        Some(RemoteNotice::UpdateAvailable { local_version, remote_version }) => {
            assert_eq!(local_version, Some("1.0".to_string()));
            assert_eq!(remote_version, Some("1.1".to_string()));
        }
        _ => panic!("expected an update notice"),
    }
    assert!(remote_notice(&local, &RemoteFetch::Loaded(cfg(Some("1.0"), "A"))).is_none());
}

#[test]
fn remote_notice_reports_errors() {
    let local = cfg(None, "A");
    match remote_notice(&local, &RemoteFetch::Failed("HTTP 500".to_string())) {
        Some(RemoteNotice::Error(m)) => assert_eq!(m, "远程配置加载失败: HTTP 500"),
        _ => panic!("expected an error notice"),
    }
    match remote_notice(&local, &RemoteFetch::TimedOut) {
        Some(RemoteNotice::Error(m)) => assert_eq!(m, "远程配置加载超时"),
        _ => panic!("expected an error notice"),
    }
}

#[test]
fn confirm_update_saves_remote() {
    let local = cfg(Some("1.0"), "A");
    let r = confirm_update_result(Ok(&local), RemoteFetch::Loaded(cfg(Some("2.0"), "B")), Ok(()));
    let res = match r {
        Ok(res) => res,
        Err(e) => panic!("unexpected error {}", e),
    };
    assert_eq!(res.source, "remote_updated");
    assert_eq!(res.config.cities[0].areas[0].printers[0].name, "B");
    assert_eq!(res.local_version, Some("1.0".to_string()));
    assert_eq!(res.remote_version, Some("2.0".to_string()));
    assert!(!res.has_remote_update);
    assert!(res.remote_error.is_none());
    assert!(res.remote_config.is_none());
}

#[test]
fn confirm_update_errors() {
    let local = cfg(Some("1.0"), "A");
    let e = |r: Result<_, String>| match r {
        Ok(_) => panic!("expected an error"),
        Err(m) => m,
    };
    assert_eq!(e(confirm_update_result(Err("no file".to_string()), RemoteFetch::TimedOut, Ok(()))), "加载本地配置失败: no file");
    assert_eq!(e(confirm_update_result(Ok(&local), RemoteFetch::Loaded(cfg(None, "B")), Err("disk full".to_string()))), "保存配置文件失败: disk full");
    assert_eq!(e(confirm_update_result(Ok(&local), RemoteFetch::Failed("dns".to_string()), Ok(()))), "加载远程配置失败: dns");
    assert_eq!(e(confirm_update_result(Ok(&local), RemoteFetch::TimedOut, Ok(()))), "加载远程配置超时");
}

// ---------------------------------------------------------------------------
// Commands
// ---------------------------------------------------------------------------

#[test]
fn exec_output_decodes_leniently() {
    let o = exec_output(Some(2), b"ok\xff", b"err");
    assert_eq!(o.status_code, Some(2));
    assert_eq!(o.stdout, "ok\u{FFFD}");
    assert_eq!(o.stderr, "err");
}

#[test]
fn taskkill_arguments() {
    assert_eq!(taskkill_args(4321), strs(&["/F", "/PID", "4321"]));
    assert_eq!(taskkill_pid_hidden(1), Ok(()));
}

// ---------------------------------------------------------------------------
// INF paths
// ---------------------------------------------------------------------------

#[test]
fn absolute_inf_path_uses_forward_slashes() {
    assert_eq!(absolute_inf_path("\\\\?\\C:\\drivers\\hp\\x.inf"), "//?/C:/drivers/hp/x.inf");
    assert_eq!(absolute_inf_path("D:\\a\\b.inf"), "D:/a/b.inf");
}

#[test]
fn inf_within_root_checks_components() {
    let root = strs(&["C:", "app", "drivers"]);
    assert!(inf_within_root("hp/x.inf", &strs(&["C:", "app", "drivers", "hp", "x.inf"]), &root, "i", "r").is_ok());
    match inf_within_root("../x.inf", &strs(&["C:", "app", "x.inf"]), &root, "C:/app/x.inf", "C:/app/drivers") {
        Err(InfPathError::InvalidDriverPathTraversal { effective_path, resolved_path, drivers_root }) => {
            assert_eq!(effective_path, "../x.inf");
            assert_eq!(resolved_path, "C:/app/x.inf");
            assert_eq!(drivers_root, "C:/app/drivers");
        }
        _ => panic!("expected a traversal error"),
    }
}

fn failed(r: &InstallResult, job: &str, dry: bool) {
    assert!(!r.success);
    assert!(r.method.is_none());
    assert!(r.stdout.is_none());
    assert_eq!(r.effective_dry_run, dry);
    assert_eq!(r.job_id, job);
}

#[test]
fn missing_inf_messages() {
    let r = missing_inf_result("hp/x.inf", "C:/d/hp/x.inf", false, "job_1");
    failed(&r, "job_1", false);
    assert_eq!(r.message, "本地 INF 文件不存在\n\neffective_driver_path: hp/x.inf\ninf_abs_path: C:/d/hp/x.inf\n\n请确保驱动文件已放置在正确位置");
    assert_eq!(r.stderr, Some("MissingLocalDriverInf: effective_path=\"hp/x.inf\" inf_abs_path=\"C:/d/hp/x.inf\"".to_string()));
    let r = inf_missing_after_bootstrap("hp/x.inf", "C:/d/hp/x.inf", true, "job_2");
    failed(&r, "job_2", true);
    assert_eq!(r.message, "Bootstrap 后 INF 文件仍不存在\n\neffective_driver_path: hp/x.inf\ninf_abs_path: C:/d/hp/x.inf\n\n请检查驱动包结构");
    assert_eq!(r.stderr, Some("InfNotFoundAfterBootstrap: effective_path=\"hp/x.inf\" inf_abs=\"C:/d/hp/x.inf\" bootstrap_completed=true".to_string()));
    let r = message_failure("Bootstrap 失败: ", "sha mismatch", false, "job_3");
    failed(&r, "job_3", false);
    assert_eq!(r.message, "Bootstrap 失败: sha mismatch");
    assert_eq!(r.stderr, Some("Bootstrap 失败: sha mismatch".to_string()));
}

// ---------------------------------------------------------------------------
// macOS destinations
// ---------------------------------------------------------------------------

#[test]
fn macos_queue_names_in_order() {
    let d = |n: &str| Destination { name: n.to_string(), device_uri: None, display_name: None, is_accepting_jobs: None, state: None };
    assert_eq!(list_printers_macos(vec![d("B"), d("A")]), strs(&["B", "A"]));
    assert!(list_printers_macos(vec![]).is_empty());
}

fn sp(p: Option<SystemPrinter>) -> SystemPrinter {
    match p {
        Some(p) => p,
        None => panic!("expected a printer"),
    }
}

#[test]
fn system_printer_from_cups_options() {
    let s = |v: &str| Some(v.to_string());
    let p = sp(system_printer_from_options(s("HP_1"), s("HP Office"), s("ipp://h/ipp/print"), s(" Yes "), s(" 3 ")));
    assert_eq!(p.system_queue_name, "HP_1");
    assert_eq!(p.display_name, s("HP Office"));
    assert_eq!(p.device_uri, s("ipp://h/ipp/print"));
    assert_eq!(p.is_accepting_jobs, Some(true));
    assert_eq!(p.state, Some(3));
    let p = sp(system_printer_from_options(s("Q"), None, None, s("maybe"), s("x")));
    assert_eq!(p.display_name, s("Q"));
    assert_eq!(p.is_accepting_jobs, None);
    assert_eq!(p.state, None);
    let p = sp(system_printer_from_options(s("Q"), None, None, s("OFF"), s("-5")));
    assert_eq!(p.is_accepting_jobs, Some(false));
    assert_eq!(p.state, Some(-5));
    assert!(system_printer_from_options(s(""), s("x"), None, None, None).is_none());
    assert!(system_printer_from_options(None, s("x"), None, None, None).is_none());
}

// ---------------------------------------------------------------------------
// Driver directories
// ---------------------------------------------------------------------------

#[test]
fn driver_directories() {
    let d = driver_dirs(&strs(&["C:", "drivers"]), "abc123", "run7");
    assert_eq!(d.uuid_root, strs(&["C:", "drivers", "abc123"]));
    assert_eq!(d.staging_dir, strs(&["C:", "drivers", "abc123", "_staging", "run7"]));
    assert_eq!(d.extracted_root, strs(&["C:", "drivers", "abc123", "extracted"]));
}

#[test]
fn entries_preview() {
    assert_eq!(entries_display(&strs(&["a", "b"])), "[2 items: a, b]");
    assert_eq!(entries_display(&vec![]), "[0 items: ]");
    let many: Vec<String> = (0..12).map(|i| format!("f{}", i)).collect();
    assert_eq!(entries_display(&many), "[12 items: f0, f1, f2, f3, f4, f5, f6, f7, f8, f9...]");
}

// ---------------------------------------------------------------------------
// Printer details
// ---------------------------------------------------------------------------

#[test]
fn detailed_info_fields() {
    let w = |s: &str| Some(s.encode_utf16().collect::<Vec<u16>>());
    let r = detailed_info("P1", &w("IP_10.0.0.5"), &w(""), &w(""), &w("3F"));
    assert_eq!(r.name, "P1");
    assert_eq!(r.port_name, Some("IP_10.0.0.5".to_string()));
    assert_eq!(r.driver_name, Some("".to_string()));
    assert_eq!(r.comment, None);
    assert_eq!(r.location, Some("3F".to_string()));
    let bad = Some(vec![0xD800u16]);
    let r = detailed_info("P2", &bad, &None, &bad, &None);
    assert_eq!(r.port_name, None);
    assert_eq!(r.driver_name, None);
    assert_eq!(r.comment, None);
    assert_eq!(r.location, None);
}

// ---------------------------------------------------------------------------
// Download address in logs
// ---------------------------------------------------------------------------

#[test]
fn url_display_shapes() {
    assert_eq!(url_display("https://example.com/a/b.zip"), "https://://example.com/a/b.zip");
    assert_eq!(url_display("https://example.com"), "https://://example.com");
    assert_eq!(url_display("no-scheme"), "no-scheme");
    let long = format!("https://h.io/{}", "x".repeat(60));
    assert_eq!(url_display(&long), format!("https://://h.io/{}...", "x".repeat(49)));
}

// ---------------------------------------------------------------------------
// Package install preflight and job reports
// ---------------------------------------------------------------------------

fn err_result(r: Result<(String, String), InstallResult>) -> InstallResult {
    match r {
        Err(res) => res,
        Ok(_) => panic!("expected a result"),
    }
}

#[test]
fn package_preflight_needs_admin() {
    let res = err_result(package_preflight(false, "P", "\\\\s\\p", None, &Some(strs(&["HP"])), false, "job_9"));
    assert!(!res.success);
    assert_eq!(res.method, Some("Package".to_string()));
    assert_eq!(res.message, "需要管理员权限才能执行 install_printer_package。需要管理员权限安装打印机驱动（pnputil /add-driver）\n\n诊断信息: is_admin=false printer_name=\"P\" path=\"\\\\s\\p\" inf_abs_path=\"N/A\"");
    assert_eq!(res.stderr, Some("[EASYPRINTER_CODE=WIN_PERMISSION_DENIED]".to_string()));
    assert_eq!(res.job_id, "job_9");
}

#[test]
fn package_preflight_inputs() {
    let res = err_result(package_preflight(true, "P", "p", Some("x.inf".to_string()), &Some(vec![]), false, "j"));
    assert_eq!(res.message, "Package 安装模式需要提供 driver_names（驱动名称列表）");
    assert_eq!(res.stderr, Some("driver_names 缺失或为空".to_string()));
    let res = err_result(package_preflight(true, "P", "p", None, &Some(strs(&["HP"])), false, "j"));
    assert_eq!(res.message, "Package 安装模式需要提供 INF 文件路径");
    assert_eq!(res.stderr, Some("inf_abs_path 缺失".to_string()));
    let res = err_result(package_preflight(true, "P", "p", Some("x.inf".to_string()), &Some(strs(&["HP"])), true, "j"));
    assert!(res.success);
    assert!(res.effective_dry_run);
    assert_eq!(res.message, "已命中 Package 安装分支（dryRun 模式，未执行真实安装）");
    assert_eq!(
        package_preflight(true, "P", "p", Some("x.inf".to_string()), &Some(strs(&["HP", "HP2"])), false, "j").ok(),
        Some(("HP".to_string(), "x.inf".to_string()))
    );
}

#[test]
fn windows_init_meta_defaults() {
    let m = windows_init_meta(&None, &None, true);
    assert_eq!(m.len(), 3);
    assert!(matches!(&m[0], (k, MetaValue::Text(v)) if k == "installMode" && v == "auto"));
    assert!(matches!(&m[1], (k, MetaValue::Text(v)) if k == "driverKey" && v == "(unknown)"));
    assert!(matches!(&m[2], (k, MetaValue::Flag(true)) if k == "dryRun"));
    let m = windows_init_meta(&Some("package".to_string()), &Some("hp".to_string()), false);
    assert!(matches!(&m[0], (_, MetaValue::Text(v)) if v == "package"));
    assert!(matches!(&m[1], (_, MetaValue::Text(v)) if v == "hp"));
    assert!(matches!(&m[2], (_, MetaValue::Flag(false))));
}

#[test]
fn job_done_reports() {
    let ok = InstallResult {
        success: true,
        message: "done".to_string(),
        method: None,
        stdout: None,
        stderr: None,
        effective_dry_run: false,
        job_id: "j".to_string(),
    };
    let (s, m, p) = job_done_report(&Ok(ok));
    assert!(s);
    assert_eq!(m, "done");
    assert!(p.is_none());
    let bad = InstallResult {
        success: false,
        message: "nope".to_string(),
        method: None,
        stdout: Some("o".to_string()),
        stderr: Some("e".to_string()),
        effective_dry_run: false,
        job_id: "j".to_string(),
    };
    let (s, m, p) = job_done_report(&Ok(bad));
    assert!(!s);
    assert_eq!(m, "nope");
    let p = p.expect("payload");
    assert_eq!(p.code, "INSTALL_FAILED");
    assert_eq!(p.detail, "nope");
    assert_eq!(p.stdout, Some("o".to_string()));
    assert_eq!(p.stderr, Some("e".to_string()));
    let (s, m, p) = job_done_report(&Err("crash".to_string()));
    assert!(!s);
    assert_eq!(m, "crash");
    let p = p.expect("payload");
    assert_eq!(p.code, "INSTALL_ERROR");
    assert_eq!(p.detail, "crash");
    assert!(p.stdout.is_none() && p.stderr.is_none());
}
