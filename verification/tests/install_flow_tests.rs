use eprinty::win_driver::{published_name_checked, published_name_readable};
use eprinty::win_flow::{after_stage_checked, stage_output_readable};
use eprinty::win_driver::stage_verdict_checked;
use eprinty::win_install::{after_vbs_port, vbs_port_args, vbs_port_failure, vbs_script_failure, InstallError};
use eprinty::events::{InstallProgressEvent, InstallResult};
use eprinty::win_flow::{
    add_shared_script, after_build, after_port, after_queue, after_register, after_shared_add,
    after_shared_check, after_stage, check_shared_script, start_modern_install,
    start_package_install, FlowAction, FlowStage, FlowStep, InstallBranch,
};
use eprinty::win_queue::PsRun;

const STAGED: &str = "Microsoft PnP Utility\r\n\r\nAdding driver package:  hpcu.inf\r\nDriver package added successfully.\r\nPublished name:         oem42.inf\r\n";

fn finished(step: &FlowStep) -> &InstallResult {
    match &step.action {
        FlowAction::Finish(r) => r,
        _ => panic!("expected the install to finish"),
    }
}

fn note(e: &InstallProgressEvent, step: &str, state: &str, message: &str) {
    assert_eq!(e.step_id, step);
    assert_eq!(e.state, state);
    assert_eq!(e.message, message);
    assert_eq!(e.ts_ms, 0);
    assert_eq!(e.job_id, "job_7");
}

fn staged(branch: InstallBranch, path: &str) -> FlowStep {
    let start = match branch {
        InstallBranch::Package => start_package_install("HP-3F", path, "HP Universal", "C:\\drv\\hpcu.inf", false, "job_7"),
        InstallBranch::ModernInf => start_modern_install("HP-3F", path, "HP Universal", Some("C:\\drv\\hpcu.inf".to_string()), false, "job_7"),
    };
    assert!(matches!(&start.action, FlowAction::StageDriver { inf_path } if inf_path == "C:\\drv\\hpcu.inf"));
    after_stage(start.state, Ok(STAGED.to_string()))
}

fn registered(branch: InstallBranch, path: &str) -> FlowStep {
    let s = staged(branch, path);
    after_register(s.state, Ok(()))
}

#[test]
fn package_tcp_install_succeeds() {
    let start = start_package_install("HP-3F", "192.168.1.5", "HP Universal", "C:\\drv\\hpcu.inf", false, "job_7");
    assert!(start.events.is_empty());
    let s = after_stage(start.state, Ok(STAGED.to_string()));
    assert_eq!(s.events.len(), 2);
    note(&s.events[0], "driver.stageDriver", "success", "驱动包注册成功");
    note(&s.events[1], "driver.registerDriver", "running", "正在注册打印机驱动");
    match &s.action {
        FlowAction::RegisterDriver { driver_name, published_inf_path, dry_run } => {
            assert_eq!(driver_name, "HP Universal");
            assert_eq!(published_inf_path, "C:\\Windows\\INF\\oem42.inf");
            assert!(!dry_run);
        }
        _ => panic!("expected the driver registration"),
    }
    let s = after_register(s.state, Ok(()));
    assert_eq!(s.events.len(), 2);
    note(&s.events[0], "driver.registerDriver", "success", "打印机驱动注册成功");
    note(&s.events[1], "device.ensurePort", "running", "正在创建端口: 192.168.1.5");
    assert!(matches!(s.action, FlowAction::QueryBuild));
    let s = after_build(s.state, Some(19045));
    assert!(s.events.is_empty());
    assert!(matches!(&s.action, FlowAction::EnsurePort { host, port_number: 9100, legacy: false } if host == "192.168.1.5"));
    let s = after_port(s.state, Ok("IP_192.168.1.5".to_string()));
    assert_eq!(s.events.len(), 2);
    note(&s.events[0], "device.ensurePort", "success", "端口创建成功: IP_192.168.1.5");
    note(&s.events[1], "device.ensureQueue", "running", "正在创建打印队列: HP-3F");
    assert!(matches!(&s.action, FlowAction::EnsureQueue { queue_name, driver_name, port_name }
        if queue_name == "HP-3F" && driver_name == "HP Universal" && port_name == "IP_192.168.1.5"));
    let s = after_queue(s.state, Ok(()));
    assert!(s.state.stage == FlowStage::Finished);
    assert_eq!(s.events.len(), 2);
    note(&s.events[0], "device.ensureQueue", "success", "打印队列创建成功");
    note(&s.events[1], "device.finalVerify", "success", "安装完成");
    let p = s.events[1].progress.as_ref().expect("progress");
    assert_eq!((p.current, p.total, p.percent), (Some(100), Some(100), Some(100)));
    let r = finished(&s);
    assert!(r.success);
    assert_eq!(r.method, Some("Package".to_string()));
    assert_eq!(
        r.message,
        format!("Package 安装完成\n\nPublished name: oem42.inf\nDriver name: HP Universal\nPort name: IP_192.168.1.5\nQueue name: HP-3F\n\npnputil 输出:\n{}", STAGED)
    );
    assert_eq!(r.stdout, Some(STAGED.to_string()));
    assert_eq!(r.stderr, None);
    assert_eq!(r.job_id, "job_7");
}

#[test]
fn modern_announces_port_after_build() {
    let s = registered(InstallBranch::ModernInf, "printer.corp.local");
    assert_eq!(s.events.len(), 1);
    assert!(matches!(s.action, FlowAction::QueryBuild));
    let s = after_build(s.state, Some(7601));
    assert_eq!(s.events.len(), 1);
    note(&s.events[0], "device.ensurePort", "running", "正在创建端口: printer.corp.local");
    assert!(matches!(&s.action, FlowAction::EnsurePort { legacy: true, .. }));
    let s2 = registered(InstallBranch::ModernInf, "printer.corp.local");
    let s2 = after_build(s2.state, None);
    assert!(matches!(&s2.action, FlowAction::EnsurePort { legacy: false, .. }));
    let s = after_port(s.state, Ok("IP_printer.corp.local".to_string()));
    let s = after_queue(s.state, Ok(()));
    let r = finished(&s);
    assert!(r.success);
    assert_eq!(r.method, Some("ModernInf".to_string()));
    assert!(r.message.starts_with("Modern INF 安装完成\n\nPublished name: oem42.inf\nDriver name: HP Universal\nPort name: IP_printer.corp.local\nQueue name: HP-3F\n\npnputil 输出:\n"));
}

#[test]
fn modern_needs_inf_path() {
    let s = start_modern_install("P", "1.2.3.4", "D", None, true, "job_1");
    assert!(s.events.is_empty());
    let r = finished(&s);
    assert!(!r.success);
    assert_eq!(r.message, "INF 路径缺失\n\nEvidence: inf_abs_path_missing");
    assert_eq!(r.stderr, Some("inf_abs_path_missing".to_string()));
    assert_eq!(r.stdout, None);
    assert!(r.effective_dry_run);
    let s = start_modern_install("P", "1.2.3.4", "D", Some("x.inf".to_string()), false, "job_1");
    assert_eq!(s.events.len(), 1);
    assert_eq!(s.events[0].step_id, "driver.stageDriver");
    assert_eq!(s.events[0].state, "running");
    assert_eq!(s.events[0].message, "正在注册驱动包");
}

#[test]
fn stage_failures() {
    let p = start_package_install("HP-3F", "10.0.0.9", "D", "C:\\a.inf", false, "job_7");
    let s = after_stage(p.state, Err("pnputil stage 失败（权限拒绝）。请以管理员身份运行".to_string()));
    assert!(s.events.is_empty());
    let r = finished(&s);
    assert_eq!(r.message, "需要管理员权限才能执行 pnputil_stage。pnputil /add-driver 需要管理员权限\n\n诊断信息: step=pnputil_stage printer_name=\"HP-3F\" path=\"10.0.0.9\" inf_abs_path=\"C:\\a.inf\" is_admin=true error=\"pnputil stage 失败（权限拒绝）。请以管理员身份运行\"");
    assert_eq!(r.stderr, Some("[EASYPRINTER_CODE=WIN_PERMISSION_DENIED]".to_string()));
    assert_eq!(r.stdout, None);

    let p = start_package_install("HP-3F", "10.0.0.9", "D", "C:\\a.inf", false, "job_7");
    let s = after_stage(p.state, Err("exit code 2".to_string()));
    let r = finished(&s);
    assert_eq!(r.message, "pnputil stage 失败: exit code 2");
    assert_eq!(r.stderr, Some("exit code 2".to_string()));

    let m = start_modern_install("HP-3F", "10.0.0.9", "D", Some("C:\\a.inf".to_string()), false, "job_7");
    let s = after_stage(m.state, Err("exit code 2".to_string()));
    assert_eq!(s.events.len(), 1);
    note(&s.events[0], "driver.stageDriver", "failed", "驱动包注册失败: exit code 2");
    let e = s.events[0].error.as_ref().expect("error");
    assert_eq!(e.code, "PNPUTIL_STAGE_FAILED");
    assert_eq!(e.detail, "驱动包注册失败: exit code 2");
    assert_eq!(e.stderr, Some("exit code 2".to_string()));
    let r = finished(&s);
    assert_eq!(r.message, "pnputil stage 失败: exit code 2\n\nEvidence: pnputil_stage_failed error=\"exit code 2\"");
    assert_eq!(r.stderr, Some("pnputil_stage_failed error=\"exit code 2\"".to_string()));
    assert_eq!(r.method, Some("ModernInf".to_string()));
}

#[test]
fn published_name_missing() {
    let p = start_package_install("HP-3F", "10.0.0.9", "D", "a.inf", false, "job_7");
    let s = after_stage(p.state, Ok("no name here".to_string()));
    assert_eq!(s.events.len(), 1);
    let r = finished(&s);
    assert_eq!(r.message, "pnputil stage 成功，但无法从输出中提取 published name（oemXXX.inf）");
    assert_eq!(r.stderr, Some("无法解析 published name".to_string()));
    assert_eq!(r.stdout, Some("no name here".to_string()));

    let long = "x".repeat(250);
    let m = start_modern_install("HP-3F", "10.0.0.9", "D", Some("a.inf".to_string()), false, "job_7");
    let s = after_stage(m.state, Ok(long.clone()));
    let r = finished(&s);
    let ev = format!("extract_published_name_failed output=\"{}\"", "x".repeat(200));
    assert_eq!(r.message, format!("无法从 pnputil 输出中提取 published name\n\nEvidence: {}", ev));
    assert_eq!(r.stderr, Some(ev));
    assert_eq!(r.stdout, Some(long));
}

#[test]
fn register_failures() {
    let s = staged(InstallBranch::Package, "10.0.0.9");
    let s = after_register(s.state, Err("Add-PrinterDriver 失败".to_string()));
    assert_eq!(s.events.len(), 1);
    note(&s.events[0], "driver.registerDriver", "failed", "注册驱动失败: Add-PrinterDriver 失败");
    assert_eq!(s.events[0].error.as_ref().map(|e| e.code.clone()), Some("REGISTER_DRIVER_FAILED".to_string()));
    let r = finished(&s);
    assert_eq!(r.message, "pnputil stage 成功，但驱动注册失败\n\nPublished name: oem42.inf\nDriver name: HP Universal\n\n错误:\nAdd-PrinterDriver 失败");
    assert_eq!(r.stderr, Some("Add-PrinterDriver 失败".to_string()));

    let s = staged(InstallBranch::ModernInf, "10.0.0.9");
    let s = after_register(s.state, Err("boom".to_string()));
    assert!(s.events.is_empty());
    let r = finished(&s);
    assert_eq!(r.message, "注册驱动失败: boom\n\nEvidence: register_driver_failed error=\"boom\"");
    assert_eq!(r.stdout, Some(STAGED.to_string()));
}

#[test]
fn unreadable_target() {
    let s = registered(InstallBranch::Package, "bad path!");
    let r = finished(&s);
    assert!(r.message.starts_with("无法识别目标路径格式: 无法识别的目标路径格式: \"bad path!\"。"));
    let s = registered(InstallBranch::ModernInf, "bad path!");
    let r = finished(&s);
    assert!(r.message.starts_with("无法识别目标路径格式: 无法识别的目标路径格式: \"bad path!\""));
    assert!(r.message.contains("\n\nEvidence: detect_target_type_failed error=\""));
}

#[test]
fn port_and_queue_failures() {
    let s = registered(InstallBranch::Package, "10.0.0.9");
    let s = after_build(s.state, Some(22631));
    let s = after_port(s.state, Err("timeout".to_string()));
    assert_eq!(s.events.len(), 1);
    note(&s.events[0], "device.ensurePort", "failed", "端口创建失败: timeout");
    assert_eq!(finished(&s).message, "端口创建失败: timeout");
    assert_eq!(finished(&s).stderr, Some("timeout".to_string()));

    let s = registered(InstallBranch::ModernInf, "10.0.0.9");
    let s = after_build(s.state, Some(22631));
    let s = after_port(s.state, Err("timeout".to_string()));
    assert!(s.events.is_empty());
    assert_eq!(finished(&s).message, "端口创建失败: timeout\n\nEvidence: ensure_port_failed error=\"timeout\"");

    let s = registered(InstallBranch::Package, "10.0.0.9");
    let s = after_build(s.state, None);
    let s = after_port(s.state, Ok("IP_10.0.0.9".to_string()));
    let s = after_queue(s.state, Err("no driver".to_string()));
    note(&s.events[0], "device.ensureQueue", "failed", "队列创建失败: no driver");
    assert_eq!(s.events[0].error.as_ref().map(|e| e.code.clone()), Some("ENSURE_QUEUE_FAILED".to_string()));
    assert_eq!(finished(&s).message, "队列创建失败: no driver");

    let s = registered(InstallBranch::ModernInf, "10.0.0.9");
    let s = after_build(s.state, None);
    let s = after_port(s.state, Ok("IP_10.0.0.9".to_string()));
    let s = after_queue(s.state, Err("no driver".to_string()));
    assert!(s.events.is_empty());
    assert_eq!(finished(&s).message, "队列创建失败: no driver\n\nEvidence: ensure_queue_failed error=\"no driver\"");
}

#[test]
fn shared_connection_scripts() {
    assert_eq!(
        check_shared_script("\\\\srv\\O'Neil"),
        "[Console]::OutputEncoding = [System.Text.Encoding]::UTF8; $q = '\\\\srv\\O''Neil'; $printer = Get-Printer -Name $q -ErrorAction SilentlyContinue | Where-Object { $_.Name -eq $q } | Select-Object -ExpandProperty Name"
    );
    assert_eq!(
        add_shared_script("\\\\srv\\p"),
        "[Console]::OutputEncoding = [System.Text.Encoding]::UTF8; Add-Printer -ConnectionName '\\\\srv\\p' -ErrorAction Stop"
    );
}

#[test]
fn shared_connection_reused() {
    let s = registered(InstallBranch::Package, "\\\\srv\\hp3f");
    assert_eq!(s.events.len(), 1);
    assert!(matches!(&s.action, FlowAction::RunScript(c) if c == &check_shared_script("\\\\srv\\hp3f")));
    let s = after_shared_check(s.state, Ok(b"\\\\srv\\hp3f\r\n".to_vec()));
    let r = finished(&s);
    assert!(r.success);
    assert_eq!(r.message, format!("Package 安装完成（共享连接已存在）\n\nPublished name: oem42.inf\nDriver name: HP Universal\nConnection: \\\\srv\\hp3f\n\npnputil 输出:\n{}", STAGED));
}

#[test]
fn shared_connection_added() {
    let s = registered(InstallBranch::Package, "\\\\srv\\hp3f");
    let s = after_shared_check(s.state, Ok(b"\\\\srv\\hp3f-old".to_vec()));
    assert!(matches!(&s.action, FlowAction::RunScript(c) if c == &add_shared_script("\\\\srv\\hp3f")));
    let s = after_shared_add(s.state, Ok(PsRun { exit_code: Some(0), stdout: vec![], stderr: vec![] }));
    assert_eq!(s.events.len(), 1);
    note(&s.events[0], "device.finalVerify", "success", "安装完成");
    let r = finished(&s);
    assert!(r.success);
    assert!(r.message.starts_with("Package 安装完成\n\nPublished name: oem42.inf\nDriver name: HP Universal\nConnection: \\\\srv\\hp3f\n\n"));

    let s = registered(InstallBranch::ModernInf, "\\\\srv\\hp3f");
    let s = after_shared_check(s.state, Err("ps failed".to_string()));
    let s = after_shared_add(s.state, Ok(PsRun { exit_code: Some(0), stdout: vec![], stderr: vec![] }));
    assert!(s.events.is_empty());
    assert!(finished(&s).message.starts_with("Modern INF 安装完成\n\nPublished name: oem42.inf"));
}

#[test]
fn shared_connection_failures() {
    let fail = PsRun { exit_code: Some(1), stdout: b"o".to_vec(), stderr: b"denied".to_vec() };
    let s = registered(InstallBranch::Package, "\\\\srv\\hp3f");
    let s = after_shared_check(s.state, Err("x".to_string()));
    let s = after_shared_add(s.state, Ok(PsRun { exit_code: Some(1), stdout: b"o".to_vec(), stderr: b"denied".to_vec() }));
    let r = finished(&s);
    let ev = "add_shared_failed stdout=\"o\" stderr=\"denied\" exit_code=Some(1) connection_name=\"\\\\srv\\hp3f\"";
    assert_eq!(r.message, format!("共享连接创建失败: denied\n\n连接名称: \\\\srv\\hp3f\n\nEvidence: {}", ev));
    assert_eq!(r.stderr, Some(ev.to_string()));

    let s = registered(InstallBranch::ModernInf, "\\\\srv\\hp3f");
    let s = after_shared_check(s.state, Err("x".to_string()));
    let s = after_shared_add(s.state, Ok(fail));
    let ev = "add_shared_failed exit_code=Some(1) stdout=\"o\" stderr=\"denied\"";
    assert_eq!(finished(&s).message, format!("共享连接创建失败: denied\n\nEvidence: {}", ev));

    let s = registered(InstallBranch::Package, "\\\\srv\\hp3f");
    let s = after_shared_check(s.state, Err("x".to_string()));
    let s = after_shared_add(s.state, Err("spawn".to_string()));
    assert_eq!(
        finished(&s).message,
        "共享连接创建命令失败: spawn\n\n连接名称: \\\\srv\\hp3f\n\nEvidence: add_shared_command_failed error=\"spawn\" connection_name=\"\\\\srv\\hp3f\""
    );

    let s = registered(InstallBranch::ModernInf, "\\\\srv\\hp3f");
    let s = after_shared_check(s.state, Err("x".to_string()));
    let s = after_shared_add(s.state, Err("spawn".to_string()));
    assert_eq!(finished(&s).message, "共享连接创建命令失败: spawn\n\nEvidence: add_shared_command_failed error=\"spawn\"");
}

#[test]
fn unreadable_stage_output_is_refused() {
    // 'İ' lower-cases to two characters, so the offset found in the lower-cased
    // text lands inside '日' of the original.
    let odd = "Published name: İİİİoem日.inf";
    assert!(!published_name_readable(odd));
    assert!(published_name_checked(odd).is_none());
    assert!(!stage_output_readable(odd));
    let p = start_package_install("P", "1.2.3.4", "D", "a.inf", false, "job_7");
    assert!(after_stage_checked(p.state, Ok(odd.to_string())).is_none());
    assert_eq!(published_name_checked(STAGED), Some(Some("oem42.inf".to_string())));
    assert_eq!(published_name_checked("发布名称: oem3.inf"), Some(Some("oem3.inf".to_string())));
    assert_eq!(published_name_checked("nothing"), Some(None));
    let p = start_package_install("P", "1.2.3.4", "D", "a.inf", false, "job_7");
    let s = after_stage_checked(p.state, Ok(STAGED.to_string())).expect("readable");
    assert!(matches!(s.action, FlowAction::RegisterDriver { .. }));
    let long = format!("{}日", "x".repeat(199));
    assert!(!stage_output_readable(&long));
}

#[test]
fn stage_verdict_with_preview_check() {
    let ok = stage_verdict_checked("a.inf", Some(0), "Driver package added successfully.", "");
    assert!(matches!(ok, Some(Ok(ref r)) if r.output_text == "Driver package added successfully." && r.inf_path == "a.inf"));
    let failed = stage_verdict_checked("a.inf", Some(2), "bad", "worse");
    assert!(matches!(failed, Some(Err(ref m)) if m == "pnputil stage 失败 (exit code: Some(2))\n\n完整输出:\nbad\nworse"));
    let long = format!("{}日 failure", "x".repeat(299));
    assert!(stage_verdict_checked("a.inf", Some(2), &long, "").is_none());
    assert!(stage_verdict_checked("a.inf", Some(0), &long, "").is_some());
}

#[test]
fn vbs_port_outcomes() {
    assert_eq!(
        vbs_port_args("C:\\T\\prnport.vbs", "IP_10.0.0.9", "10.0.0.9"),
        vec!["//NoLogo", "C:\\T\\prnport.vbs", "-a", "-r", "IP_10.0.0.9", "-h", "10.0.0.9", "-o", "raw"]
            .into_iter().map(String::from).collect::<Vec<String>>()
    );
    let ok = after_vbs_port(Ok(PsRun { exit_code: Some(0), stdout: b"done".to_vec(), stderr: vec![] }), None, "j");
    match ok {
        Ok(r) => {
            assert!(r.success);
            assert_eq!(r.message, "");
            assert_eq!(r.method, None);
            assert_eq!(r.stdout, Some("done".to_string()));
            assert_eq!(r.stderr, Some("".to_string()));
        }
        Err(_) => panic!("expected success"),
    }
    let quiet = after_vbs_port(Ok(PsRun { exit_code: Some(3), stdout: b" ".to_vec(), stderr: vec![] }), None, "j");
    let r = match quiet { Err(r) => r, Ok(_) => panic!("expected failure") };
    assert_eq!(r.message, "添加打印机端口失败。cscript 退出代码 3 | 退出代码: 3");
    assert_eq!(r.method, Some("VBS".to_string()));
    assert_eq!(r.stderr, Some("[EASYPRINTER_CODE=WIN_PORT_FAILED]".to_string()));
    let loud = after_vbs_port(Ok(PsRun { exit_code: None, stdout: vec![], stderr: b"denied".to_vec() }), None, "j");
    let r = match loud { Err(r) => r, Ok(_) => panic!("expected failure") };
    assert_eq!(r.message, "添加打印机端口失败。错误输出: denied | 标准输出: 无 | 退出代码: -1");
    assert_eq!(r.stderr, Some("[EASYPRINTER_CODE=WIN_PORT_FAILED] denied".to_string()));
    let spawn = after_vbs_port(Err("not found".to_string()), Some(1234), "j");
    let r = match spawn { Err(r) => r, Ok(_) => panic!("expected failure") };
    assert_eq!(r.message, "执行 prnport.vbs 脚本失败: not found | 脚本文件存在，大小 1234 字节");
    assert_eq!(r.stderr, Some("[EASYPRINTER_CODE=WIN_VBS_FAILED]".to_string()));
    assert_eq!(r.stdout, None);
    let gone = after_vbs_port(Err("x".to_string()), None, "j");
    let r = match gone { Err(r) => r, Ok(_) => panic!("expected failure") };
    assert_eq!(r.message, "执行 prnport.vbs 脚本失败: x | 脚本文件不存在");
    assert_eq!(vbs_port_failure(&r), "VBS 方式创建端口失败: 执行 prnport.vbs 脚本失败: x | 脚本文件不存在");
    let e = InstallError::FileOperationFailed {
        step: "write_vbs_script_to_temp".to_string(),
        operation: "创建临时脚本文件".to_string(),
        error: "disk full".to_string(),
    };
    assert_eq!(vbs_script_failure(&e), "创建 VBS 脚本失败: 创建临时脚本文件失败: disk full");
}
