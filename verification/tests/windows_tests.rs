use eprinty::command::{decode_windows_string, format_flags, poll_step, run_error, truncate, PollStep};
use eprinty::powershell::{
    format_command_error, install_script_file_name, list_timeout_message, powershell_args,
    powershell_file_args, powershell_timeout_args, script_step_error, script_timeout_error,
};
use eprinty::setupapi::{hex8_exec, validate_and_create_result, StageError};
use eprinty::win_delete::{ps_quote_exec, removal_command, removal_succeeded};
use eprinty::win_extract::{assert_safe_dest_dir, validate_driver_uuid, zip_slip_check_entry, ExtractError};
use eprinty::win_fetch::{
    digest_matches_exec, driver_uuid_for, sha256_hex, validate_remote_url, validate_sha256,
    verify_payload, FetchError,
};
use eprinty::win_install::{
    detect_target_type, generate_port_name, has_failure_keywords, has_permission_error,
    pnputil_stage_succeeded, DriverInstallPolicy, InstallError, TargetType,
};
use eprinty::win_queue::{extract_json_bool, extract_json_value};
use eprinty::win_driver::build_from_output;
use eprinty::win_route::{check_existing_printer, dry_run_result, dry_run_steps};

fn parts(p: &[&str]) -> Vec<String> {
    p.iter().map(|s| s.to_string()).collect()
}

#[test]
fn remote_urls_are_checked() {
    assert_eq!(
        validate_remote_url("https://cdn.example.com/drv.zip").ok(),
        Some("https://cdn.example.com/drv.zip".to_string())
    );
    match validate_remote_url("http://://x") {
        Err(FetchError::InvalidRemoteUrl { url, reason }) => {
            assert_eq!(url, "http://://x");
            assert_eq!(reason, "URL 包含双 scheme（如 http://://）");
        }
        _ => panic!("double scheme must be refused"),
    }
    match validate_remote_url("ftp://example.com/a.zip") {
        Err(FetchError::InvalidRemoteUrl { reason, .. }) => {
            assert_eq!(reason, "URL scheme 必须是 http 或 https（当前: ftp）")
        }
        _ => panic!("ftp must be refused"),
    }
    match validate_remote_url("not a url") {
        Err(FetchError::InvalidRemoteUrl { reason, .. }) => {
            assert_eq!(reason, "URL 解析失败: relative URL without a base")
        }
        _ => panic!("relative text must be refused"),
    }
}

#[test]
fn checksums_are_checked() {
    let good = "A".repeat(64);
    assert!(validate_sha256(&good).is_ok());
    match validate_sha256("") {
        Err(FetchError::InvalidSha256 { reason, .. }) => assert_eq!(reason, "SHA256 不能为空"),
        _ => panic!(),
    }
    match validate_sha256("abc") {
        Err(FetchError::InvalidSha256 { reason, .. }) => {
            assert_eq!(reason, "SHA256 长度必须为 64 字符（当前 3 字符）")
        }
        _ => panic!(),
    }
    match validate_sha256(&"g".repeat(64)) {
        Err(FetchError::InvalidSha256 { reason, .. }) => {
            assert_eq!(reason, "SHA256 只能包含十六进制字符（0-9, a-f, A-F）")
        }
        _ => panic!(),
    }
}

#[test]
fn payload_digests() {
    assert_eq!(
        sha256_hex(b"abc"),
        "ba7816bf8f01cfea414140de5dae2223b00361a396177a9cb410ff61f20015ad"
    );
    assert_eq!(driver_uuid_for("BA7816BF8F01CFEA414140DE"), "drv_ba7816bf8f01");
    assert!(digest_matches_exec("ABCDEF", "abcdef"));
    assert!(!digest_matches_exec("abcdef", "abcdee"));
    assert!(verify_payload("AB", "ab", "p.zip").is_ok());
    let e = verify_payload("aa", "bb", "C:\\d\\payload.zip").unwrap_err();
    assert_eq!(e.message(), "SHA256 校验失败\n期望: aa\n实际: bb\n文件: C:\\d\\payload.zip");
}

#[test]
fn fetch_error_texts() {
    let e = FetchError::DownloadFailed {
        step: "download".to_string(),
        url: "https://x/y.zip".to_string(),
        attempt: 2,
        http_status: Some(503),
        error: "busy".to_string(),
    };
    assert_eq!(e.message(), "下载失败 (step=download, attempt=2): HTTP 503 | URL: https://x/y.zip | busy");
    let e = FetchError::DownloadFailedStatus { status: 404, url: "https://x/y.zip".to_string() };
    assert_eq!(e.message(), "下载失败（HTTP 状态码错误）\n状态码: 404\nURL: https://x/y.zip");
    let e = FetchError::DownloadFailedEmptyBody {
        status: 200,
        content_length: Some(0),
        bytes: 0,
        url: "u".to_string(),
    };
    assert_eq!(e.message(), "下载失败（空响应体）\n状态码: 200\nContent-Length: Some(0)\n实际字节数: 0\nURL: u");
    let e = FetchError::IoError { step: "s".to_string(), operation: "o".to_string(), error: "e".to_string() };
    assert_eq!(e.message(), "IO 错误 (step=s, operation=o): e");
}

#[test]
fn driver_uuids_are_checked() {
    assert!(validate_driver_uuid("drv_0123456789ab").is_ok());
    assert!(validate_driver_uuid("ABC-def_0123").is_ok());
    let reason = |u: &str| match validate_driver_uuid(u) {
        Err(ExtractError::InvalidDriverUuid { reason, .. }) => reason,
        _ => panic!("expected refusal of {}", u),
    };
    assert_eq!(reason(""), "UUID 不能为空");
    assert_eq!(reason("abc"), "UUID 长度不足（至少 8 字符，当前 3 字符）");
    assert_eq!(reason(&"a".repeat(65)), "UUID 长度过长（最多 64 字符，当前 65 字符）");
    assert_eq!(reason("abc/defgh"), "UUID 不能包含路径分隔符（/ 或 \\）");
    assert_eq!(reason("abcd efgh"), "UUID 只能包含字母、数字、下划线和连字符");
    assert_eq!(reason("驱动-abcdefgh"), "UUID 只能包含字母、数字、下划线和连字符");
    assert_eq!(reason("驱动驱动"), "UUID 长度不足（至少 8 字符，当前 4 字符）");
    assert_eq!(reason("ａｂｃｄｅｆｇｈ"), "UUID 只能包含字母、数字、下划线和连字符");
    assert!(validate_driver_uuid(&"a".repeat(64)).is_ok());
}

#[test]
fn destination_must_be_inside_the_cache() {
    let root = parts(&["C:", "app", "drivers"]);
    let cache = parts(&["C:", "app", "drivers", ".cache"]);
    assert!(assert_safe_dest_dir(&parts(&["C:", "app", "drivers", ".cache", "x"]), &root, &cache, "d", "r", "c").is_ok());
    let why = |dest: &[&str]| match assert_safe_dest_dir(&parts(dest), &root, &cache, "d", "r", "c") {
        Err(ExtractError::UnsafeDestination { reason, .. }) => reason,
        _ => panic!(),
    };
    assert_eq!(why(&["D:", "other"]), "目标目录不在驱动根目录下");
    assert_eq!(why(&["C:", "app", "drivers", "y"]), "目标目录不在缓存目录下（必须位于 drivers_root/.cache/ 下）");
    assert_eq!(why(&["C:", "app", "drivers", ".cache"]), "目标目录不能等于缓存根目录（必须更深一层）");
}

#[test]
fn zip_slip_entries_are_refused() {
    let root = parts(&["C:", "x", "staging"]);
    assert!(zip_slip_check_entry(&parts(&["C:", "x", "staging", "a.inf"]), &root, "a", "r", "c").is_ok());
    match zip_slip_check_entry(&parts(&["C:", "x", "evil"]), &root, "../evil", "C:\\x\\staging", "C:\\x\\evil") {
        Err(ExtractError::ZipSlipDetected { offending_path, canonical_dest_dir, canonical_offending_path }) => {
            assert_eq!(offending_path, "../evil");
            assert_eq!(canonical_dest_dir, "C:\\x\\staging");
            assert_eq!(canonical_offending_path, "C:\\x\\evil");
        }
        _ => panic!(),
    }
}

#[test]
fn install_error_codes_and_messages() {
    let e = InstallError::DriverNotFound { step: "select_driver".to_string() };
    assert_eq!(e.code(), "WIN_DRIVER_NOT_FOUND");
    assert_eq!(e.to_user_message(), "系统中没有可用的打印机驱动。请先安装打印机驱动。");
    assert_eq!(e.format_stderr_with_code(None), Some("[EASYPRINTER_CODE=WIN_DRIVER_NOT_FOUND]".to_string()));
    assert_eq!(
        e.format_stderr_with_code(Some("boom".to_string())),
        Some("[EASYPRINTER_CODE=WIN_DRIVER_NOT_FOUND] boom".to_string())
    );
    let e = InstallError::PowerShellFailed { step: "add_printer_port_modern".to_string(), stderr: "x".to_string() };
    assert_eq!(e.code(), "WIN_PS_FAILED");
    assert_eq!(e.to_user_message(), "执行 Add-PrinterPort 命令失败: x");
    let e = InstallError::PowerShellFailed { step: "other".to_string(), stderr: "raw".to_string() };
    assert_eq!(e.to_user_message(), "raw");
    let e = InstallError::PortAddFailedModern { stdout: "o".to_string(), stderr: "e".to_string() };
    assert_eq!(e.code(), "WIN_PORT_FAILED");
    assert_eq!(e.get_output(), (Some("o".to_string()), Some("e".to_string())));
    assert_eq!(e.to_user_message(), "添加打印机端口失败。标准输出: o。错误信息: e。请确保有管理员权限。");
    let e = InstallError::InfInstallFailed {
        inf_path: "a.inf".to_string(),
        exit_code: None,
        stdout: "o".to_string(),
        stderr: "e".to_string(),
    };
    assert_eq!(e.to_user_message(), "从配置文件安装 INF 驱动失败。文件: a.inf。无法获取退出代码。标准输出: o。错误输出: e");
    let e = InstallError::PermissionDenied {
        step: "pnputil".to_string(),
        reason: "r".to_string(),
        evidence: "ev".to_string(),
    };
    assert_eq!(e.code(), "WIN_PERMISSION_DENIED");
    assert_eq!(e.to_user_message(), "需要管理员权限才能执行 pnputil。r\n\n诊断信息: ev");
    assert_eq!(e.get_output(), (None, None));
}

#[test]
fn pnputil_output_is_read() {
    assert!(pnputil_stage_succeeded("Driver package added successfully."));
    assert!(pnputil_stage_succeeded("发布名称: oem12.inf"));
    assert!(pnputil_stage_succeeded("Published Name: OEM3.INF"));
    assert!(!pnputil_stage_succeeded("Failed to add driver package"));
    assert!(has_permission_error("Access is denied."));
    assert!(has_permission_error("错误 0x5"));
    assert!(!has_permission_error("ok"));
    assert!(has_failure_keywords("The system cannot find the file specified"));
    assert!(!has_failure_keywords("done"));
}

#[test]
fn targets_and_port_names() {
    match detect_target_type(" \\\\srv\\Office ") {
        Ok(TargetType::SharedConnection { path }) => assert_eq!(path, "\\\\srv\\Office"),
        _ => panic!(),
    }
    match detect_target_type("\\\\192.168.20.5") {
        Ok(TargetType::TcpIpHost { host }) => assert_eq!(host, "192.168.20.5"),
        _ => panic!(),
    }
    match detect_target_type("printer-2f") {
        Ok(TargetType::TcpIpHost { host }) => assert_eq!(host, "printer-2f"),
        _ => panic!(),
    }
    assert_eq!(
        detect_target_type("a b").err(),
        Some("无法识别的目标路径格式: \"a b\"。\n\nTCP/IP 打印机：填写 \"192.168.20.5\" 或 \"printer.company.local\"\n共享打印机：必须填写 \"\\\\server\\\\share\"".to_string())
    );
    assert!(detect_target_type("srv\\p1.local").err().unwrap().starts_with("无法识别的目标路径格式: \"srv\\p1.local\"。"));
    assert!(detect_target_type("10.0.0.5\\q").is_err());
    assert!(detect_target_type("\\\\").err().unwrap().starts_with("无效的 UNC 路径格式: \"\\\\\"。"));
    assert_eq!(generate_port_name("192.168.1.10"), "IP_192_168_1_10");
    assert_eq!(generate_port_name("print er"), "IP_print_er");
    assert!(matches!(DriverInstallPolicy::from_str(Some("reuse_if_installed")), DriverInstallPolicy::ReuseIfInstalled));
    assert!(matches!(DriverInstallPolicy::from_str(Some("always")), DriverInstallPolicy::Always));
    assert!(matches!(DriverInstallPolicy::from_str(None), DriverInstallPolicy::Always));
}

#[test]
fn powershell_quoting_and_removal() {
    assert_eq!(ps_quote_exec("O'Brien's").into_iter().collect::<String>(), "O''Brien''s");
    assert_eq!(
        removal_command("Remove-PrinterPort", "IP_1'2"),
        "Remove-PrinterPort -Name 'IP_1''2' -ErrorAction SilentlyContinue; if ($?) { Write-Output 'SUCCESS' } else { Write-Output 'FAILED' }"
    );
    assert!(removal_succeeded(true, b" SUCCESS\r\n"));
    assert!(!removal_succeeded(false, b"SUCCESS"));
    assert!(!removal_succeeded(true, b"FAILED"));
}

#[test]
fn compressed_json_fields() {
    let j = "{\"exists\":true,\"driverName\":\"HP Universal\",\"n\": false}";
    assert_eq!(extract_json_bool(j, "exists"), Some(true));
    assert_eq!(extract_json_bool(j, "n"), Some(false));
    assert_eq!(extract_json_bool(j, "missing"), None);
    assert_eq!(extract_json_value(j, "driverName"), Some("HP Universal".to_string()));
    // A value without quotes reads up to the next key's quotes.
    assert_eq!(extract_json_value(j, "exists"), Some("driverName".to_string()));
}

#[test]
fn windows_text_decoding() {
    assert_eq!(decode_windows_string("打印机".as_bytes()), "打印机");
    // "打印" in GBK.
    assert_eq!(decode_windows_string(&[0xB4, 0xF2, 0xD3, 0xA1]), "打印");
    assert_eq!(truncate("hello world", 5), "hello...<truncated>");
    assert_eq!(truncate("hi", 5), "hi");
    assert_eq!(truncate("中文字", 5), "中文字");
    assert_eq!(truncate("中文字打印机", 2), "中文...<truncated>");
}

#[test]
fn command_helpers() {
    assert_eq!(
        run_error("lpstat", &["-v"], "not found"),
        "执行命令失败: program=lpstat, args=[\"-v\"], error=not found"
    );
    assert!(matches!(poll_step(1, Ok(true)), PollStep::Collect));
    assert!(matches!(poll_step(1, Ok(false)), PollStep::Wait(100)));
    match poll_step(120, Ok(false)) {
        PollStep::Kill(e) => assert_eq!(e, "执行命令超时: 120s"),
        _ => panic!(),
    }
    assert_eq!(format_flags(0x6), "0x6 (PRINTER_ENUM_LOCAL | PRINTER_ENUM_CONNECTIONS)");
    assert_eq!(format_flags(0x1), "0x1");
}

#[test]
fn powershell_helpers() {
    assert_eq!(
        powershell_args("Get-Printer"),
        vec!["-NoProfile", "-NonInteractive", "-ExecutionPolicy", "Bypass", "-WindowStyle", "Hidden", "-Command", "Get-Printer"]
    );
    assert_eq!(
        powershell_timeout_args("x"),
        vec!["-NoProfile", "-NonInteractive", "-WindowStyle", "Hidden", "-Command", "x"]
    );
    assert_eq!(
        powershell_file_args("C:\\t.ps1"),
        vec!["-NoProfile", "-WindowStyle", "Hidden", "-ExecutionPolicy", "Bypass", "-File", "C:\\t.ps1"]
    );
    assert_eq!(install_script_file_name(77), "install_printer_77.ps1");
    assert_eq!(list_timeout_message(5000, "short"), "WIN_LIST_PRINTERS_TIMEOUT elapsed_ms=5000 script_hint=short");
    let long = "x".repeat(60);
    assert_eq!(
        list_timeout_message(1, &long),
        format!("WIN_LIST_PRINTERS_TIMEOUT elapsed_ms=1 script_hint={}...", "x".repeat(50))
    );
    assert_eq!(format_command_error("P", "", "", None), "P");
    assert_eq!(
        format_command_error("P", "out", "err", Some(-1)),
        "P\n标准输出: out\n错误输出: err\n退出码: -1"
    );
    assert_eq!(script_timeout_error("安装", 30), "安装: PowerShell 脚本执行超时(30秒)");
    assert_eq!(script_step_error("安装", "启动 PowerShell 脚本失败", "denied"), "安装: 启动 PowerShell 脚本失败\n错误输出: denied");
}

#[test]
fn driver_store_results() {
    assert_eq!(hex8_exec(0x5).into_iter().collect::<String>(), "00000005");
    assert_eq!(hex8_exec(0x80070005).into_iter().collect::<String>(), "80070005");
    let r = validate_and_create_result("oem7.inf", false, "C:\\d\\a.inf", "C:\\d", true, 0).ok().unwrap();
    assert_eq!(r.published_inf_path, "C:\\Windows\\INF\\oem7.inf");
    assert_eq!(
        r.evidence,
        "method=SetupCopyOEMInfW inf_path=\"C:\\d\\a.inf\" source_media_location=\"C:\\d\" published_name=\"oem7.inf\" published_inf_path=\"C:\\Windows\\INF\\oem7.inf\" win32_error=0"
    );
    let e = validate_and_create_result("", false, "a.inf", "d", true, 2).err().unwrap();
    assert_eq!(e.message, "SetupCopyOEMInfW 返回空的 published name");
    assert_eq!(e.evidence, "method=SetupCopyOEMInfW inf_path=\"a.inf\" error=empty_published_name win32_error=0x00000002");
    let e = validate_and_create_result("oem7.inf", true, "a.inf", "d", false, 2).err().unwrap();
    assert_eq!(e.message, "SetupCopyOEMInfW 成功但 published INF 文件不存在: C:\\Windows\\INF\\oem7.inf");
    let shown = StageError { message: "m".to_string(), win32_error: 0x57, evidence: "ev".to_string() }.to_string();
    assert_eq!(shown, "m (Win32 error: 0x00000057)\n\nev");
}

#[test]
fn dry_runs_and_build_numbers() {
    let steps: Vec<(String, u64)> = dry_run_steps(false);
    assert_eq!(steps.len(), 5);
    assert_eq!(steps[4], ("验证安装".to_string(), 200));
    assert_eq!(dry_run_steps(true).len(), 7);
    let r = dry_run_result("job1", None);
    assert!(r.success && r.effective_dry_run);
    assert_eq!(r.message, "安装请求已接收（模式: auto），当前为测试模式，未执行真实安装");
    assert_eq!(r.method.as_deref(), Some("dryRun"));
    assert_eq!(build_from_output(b" 19045\r\n"), Some(19045));
    assert_eq!(build_from_output(b""), None);
    assert_eq!(build_from_output(b"abc"), None);
    let listing: Result<Vec<String>, String> = Ok(vec!["A".to_string(), "Office".to_string()]);
    assert!(check_existing_printer(&listing, "Office"));
    assert!(!check_existing_printer(&listing, "Lab"));
    assert!(!check_existing_printer(&Err("x".to_string()), "Office"));
}
