use eprinty::events::InstallModeRegistry;
use eprinty::ipp::SystemPrinter;
use eprinty::mac_install_flow::{
    after_ensure, after_listing, after_probe, after_verify, start_mac_install, MacAction, MacStage, FINAL_VERIFY_RETRY_MS,
};
use eprinty::macos_install::build_queue_name;
use eprinty::macos_flow::{StepError, VerifyStatus};
use eprinty::win_bootstrap::BootstrapError;
use eprinty::win_extract::{ExtractError, ExtractForDriverResult};
use eprinty::win_infpath::{after_bootstrap, after_inf_reresolve, after_inf_resolve, InfNext, InfPathError};
use eprinty::win_queue::{after_final_queue_verify, PsRun};
use eprinty::win_extract_zip::{
    after_archive_check, after_archive_expand, after_create_dest, after_dest_listing, after_entry_check,
    after_prepare_staging, after_tree_copy, start_extract_zip, StagingOp, ZipAction, ZipStage,
};
use eprinty::win_unpack::{
    after_copy, after_entries, after_expand, after_prepare, after_summary, after_zip_check, expand_archive_script,
    start_unpack, unpack_io_error, PrepareOp, UnpackAction, UnpackShown, UnpackStage,
};

fn run(code: i32, out: &str, err: &str) -> PsRun {
    PsRun { exit_code: Some(code), stdout: out.as_bytes().to_vec(), stderr: err.as_bytes().to_vec() }
}

#[test]
fn final_queue_check_texts() {
    let good = "{\"exists\":true,\"Name\":\"Office\",\"DriverName\":\"HP\",\"PortName\":\"IP_1\"}";
    assert!(after_final_queue_verify("Office", "HP", "IP_1", Ok(run(0, good, ""))).is_ok());
    let missing = after_final_queue_verify("Office", "HP", "IP_1", Ok(run(0, "{\"exists\":false}", ""))).unwrap_err();
    assert!(missing.starts_with("最终验证失败: 队列不存在（exists=false）"));
    let other = "{\"exists\":true,\"Name\":\"Other\",\"DriverName\":\"HP\",\"PortName\":\"IP_1\"}";
    let e = after_final_queue_verify("Office", "HP", "IP_1", Ok(run(0, other, ""))).unwrap_err();
    assert!(e.starts_with("最终验证失败: 名称不匹配。期望: \"Office\"，实际: Some(\"Other\")"));
    let wrong = "{\"exists\":true,\"Name\":\"Office\",\"DriverName\":\"X\",\"PortName\":\"IP_1\"}";
    let e = after_final_queue_verify("Office", "HP", "IP_1", Ok(run(0, wrong, ""))).unwrap_err();
    assert!(e.starts_with("最终验证失败: 绑定不匹配。期望: driver=HP, port=IP_1，实际: driver=Some(\"X\"), port=Some(\"IP_1\")"));
    let e = after_final_queue_verify("Office", "HP", "IP_1", Ok(run(0, "  ", ""))).unwrap_err();
    assert!(e.starts_with("最终验证失败: stdout 为空"));
    let e = after_final_queue_verify("Office", "HP", "IP_1", Ok(run(1, "", "denied"))).unwrap_err();
    assert!(e.starts_with("最终验证失败: exit_code=Some(1), stderr=denied"));
    let e = after_final_queue_verify("Office", "HP", "IP_1", Err("spawn".to_string())).unwrap_err();
    assert!(e.starts_with("最终验证命令失败: spawn"));
}

#[test]
fn queue_names_ignore_ascii_case_of_the_uri() {
    assert_eq!(
        build_queue_name("Office", "IPP://PRINTER.LOCAL/IPP/PRINT"),
        build_queue_name("Office", "ipp://printer.local/ipp/print")
    );
    let u = " ipp://10.0.0.7:631/ipp/print ";
    let q = build_queue_name("HP LaserJet 1F", u);
    assert_eq!(build_queue_name("HP LaserJet 1F", &u.to_uppercase()), q);
    assert!(q.starts_with("eprinty-") && q.len() <= 63);
    assert!(q.chars().all(|c| c.is_ascii_alphanumeric() || c == '-'));
}

fn shown() -> UnpackShown {
    UnpackShown {
        zip_path: "D/z.zip".to_string(),
        staging_root: "D/u/_staging".to_string(),
        staging_dir: "D/u/_staging/r1".to_string(),
        uuid_root: "D/u".to_string(),
        extracted_root: "D/u/extracted".to_string(),
    }
}

fn root() -> Vec<String> {
    vec!["D".to_string()]
}

#[test]
fn unpack_refuses_a_bad_identifier() {
    let step = start_unpack(&root(), "驱动驱动", "r1", shown());
    assert!(step.state.stage == UnpackStage::Finished);
    match step.action {
        UnpackAction::Finish(Err(ExtractError::InvalidDriverUuid { driver_uuid, reason })) => {
            assert_eq!(driver_uuid, "驱动驱动");
            assert_eq!(reason, "UUID 长度不足（至少 8 字符，当前 4 字符）");
        }
        _ => panic!(),
    }
}

#[test]
fn unpack_runs_its_steps_in_order() {
    let step = start_unpack(&root(), "drv_0123456789ab", "r1", shown());
    assert!(matches!(step.action, UnpackAction::PrepareDirs));
    assert_eq!(step.state.dirs.staging_dir, vec!["D", "drv_0123456789ab", "_staging", "r1"]);
    assert_eq!(step.state.dirs.extracted_root, vec!["D", "drv_0123456789ab", "extracted"]);
    let step = after_prepare(step.state, Ok(()));
    assert!(matches!(step.action, UnpackAction::CheckZip));
    let step = after_zip_check(step.state, true);
    assert!(matches!(step.action, UnpackAction::Expand));
    let step = after_expand(step.state, Ok(()));
    assert!(matches!(step.action, UnpackAction::CheckEntries));
    let step = after_entries(step.state, Ok(7));
    assert!(matches!(step.action, UnpackAction::CopyTree));
    let step = after_copy(step.state, Ok(7));
    assert!(matches!(step.action, UnpackAction::CleanUpAndList));
    let step = after_summary(step.state, Ok(vec!["a.inf".to_string()]));
    match step.action {
        UnpackAction::Finish(Ok(ExtractForDriverResult { driver_uuid, uuid_root, extracted_root, file_count, top_entries })) => {
            assert_eq!(driver_uuid, "drv_0123456789ab");
            assert_eq!(uuid_root, "D/u");
            assert_eq!(extracted_root, "D/u/extracted");
            assert_eq!(file_count, 7);
            assert_eq!(top_entries, vec!["a.inf".to_string()]);
        }
        _ => panic!(),
    }
}

#[test]
fn unpack_failures() {
    let step = start_unpack(&root(), "drv_0123456789ab", "r1", shown());
    let step = after_prepare(step.state, Err((PrepareOp::RemoveOldStaging, "busy".to_string())));
    match step.action {
        UnpackAction::Finish(Err(ExtractError::IoError { step, operation, error })) => {
            assert_eq!(step, "prepare_dirs");
            assert_eq!(operation, "删除现有 staging 目录");
            assert_eq!(error, "无法删除现有 staging 目录 D/u/_staging/r1: busy");
        }
        _ => panic!(),
    }
    let step = start_unpack(&root(), "drv_0123456789ab", "r1", shown());
    let step = after_zip_check(after_prepare(step.state, Ok(())).state, false);
    match step.action {
        UnpackAction::Finish(Err(ExtractError::ZipNotFound { zip_path })) => assert_eq!(zip_path, "D/z.zip"),
        _ => panic!(),
    }
    let step = start_unpack(&root(), "drv_0123456789ab", "r1", shown());
    let step = after_zip_check(after_prepare(step.state, Ok(())).state, true);
    let step = after_expand(step.state, Err("bad zip".to_string()));
    match step.action {
        UnpackAction::Finish(Err(ExtractError::ExtractFailed { step, zip_path, dest_dir, stdout, stderr, exit_code })) => {
            assert_eq!(step, "expand_archive");
            assert_eq!(zip_path, "D/z.zip");
            assert_eq!(dest_dir, "D/u/_staging/r1");
            assert_eq!(stdout, "");
            assert_eq!(stderr, "bad zip");
            assert_eq!(exit_code, None);
        }
        _ => panic!(),
    }
    let step = start_unpack(&root(), "drv_0123456789ab", "r1", shown());
    let step = after_expand(after_zip_check(after_prepare(step.state, Ok(())).state, true).state, Ok(()));
    let step = after_copy(after_entries(step.state, Ok(1)).state, Ok(1));
    let step = after_summary(step.state, Err("gone".to_string()));
    match step.action {
        UnpackAction::Finish(Err(ExtractError::IoError { step, operation, error })) => {
            assert_eq!(step, "summary");
            assert_eq!(operation, "读取 extracted 目录");
            assert_eq!(error, "无法读取 extracted 目录 D/u/extracted: gone");
        }
        _ => panic!(),
    }
}

#[test]
fn unpack_texts() {
    match unpack_io_error("materialize", "读取目录项", None, "x") {
        ExtractError::IoError { error, .. } => assert_eq!(error, "无法读取目录项: x"),
        _ => panic!(),
    }
    assert_eq!(
        expand_archive_script("C:\\d\\o'k.zip", "C:\\s"),
        "[Console]::OutputEncoding = [System.Text.Encoding]::UTF8; Expand-Archive -LiteralPath 'C:\\d\\o''k.zip' -DestinationPath 'C:\\s' -Force"
    );
}

#[test]
fn inf_lookup_and_bootstrap() {
    match after_inf_resolve("a/x.inf", Ok(("C:\\d\\a\\x.inf".to_string(), true)), false, false, "j") {
        InfNext::Use(p) => assert_eq!(p, "C:\\d\\a\\x.inf"),
        _ => panic!(),
    }
    assert!(matches!(after_inf_resolve("a/x.inf", Ok(("p".to_string(), false)), true, false, "j"), InfNext::Bootstrap));
    match after_inf_resolve("a/x.inf", Ok(("p".to_string(), false)), false, false, "j") {
        InfNext::Fail(r) => {
            assert!(!r.success);
            assert_eq!(r.message, "本地 INF 文件不存在\n\neffective_driver_path: a/x.inf\ninf_abs_path: p\n\n请确保驱动文件已放置在正确位置");
        }
        _ => panic!(),
    }
    let refused = InfPathError::PathTraversalNotAllowed { effective_path: "../x".to_string(), reason: "r".to_string() };
    let text = refused.message();
    match after_inf_resolve("../x", Err(refused), true, false, "j") {
        InfNext::Fail(r) => {
            assert_eq!(r.message, text);
            assert_eq!(r.stderr, Some(text.clone()));
        }
        _ => panic!(),
    }
    match after_bootstrap(Err(BootstrapError::FetchFailed { error: "timeout".to_string() }), true, "j") {
        InfNext::Fail(r) => {
            assert_eq!(r.message, "Bootstrap 失败: 下载失败: timeout");
            assert!(r.effective_dry_run);
        }
        _ => panic!(),
    }
    assert!(matches!(after_bootstrap(Ok(()), false, "j"), InfNext::ResolveAgain));
    match after_inf_reresolve("a/x.inf", Ok(("p".to_string(), false)), false, "j") {
        InfNext::Fail(r) => {
            assert_eq!(r.message, "Bootstrap 后 INF 文件仍不存在\n\neffective_driver_path: a/x.inf\ninf_abs_path: p\n\n请检查驱动包结构");
            assert_eq!(
                r.stderr,
                Some("InfNotFoundAfterBootstrap: effective_path=\"a/x.inf\" inf_abs=\"p\" bootstrap_completed=true".to_string())
            );
        }
        _ => panic!(),
    }
    assert!(matches!(after_inf_reresolve("a/x.inf", Ok(("p".to_string(), true)), false, "j"), InfNext::Use(_)));
}

#[test]
fn macos_install_steps() {
    let registry = InstallModeRegistry::new();
    let step = start_mac_install(&registry, "Office", "ipp://10.0.0.5/ipp/print", None, false, "j1", 1000);
    assert!(matches!(step.action, MacAction::ListPrinters));
    let listed = vec![SystemPrinter {
        system_queue_name: "Existing_Q".to_string(),
        display_name: None,
        device_uri: Some("ipp://10.0.0.5/ipp/print".to_string()),
        is_accepting_jobs: None,
        state: None,
    }];
    let step = after_listing(&registry, step.state, Ok(listed));
    assert_eq!(step.state.queue_name, "Existing_Q");
    match &step.action {
        MacAction::Probe { host, port } => {
            assert_eq!(host, "10.0.0.5");
            assert_eq!(*port, 631);
        }
        _ => panic!(),
    }
    let step = after_probe(step.state, Ok(()));
    match &step.action {
        MacAction::EnsureQueue { queue_name, uri, display_name } => {
            assert_eq!(queue_name, "Existing_Q");
            assert_eq!(uri, "ipp://10.0.0.5/ipp/print");
            assert_eq!(display_name, "Office");
        }
        _ => panic!(),
    }
    let step = after_ensure(step.state, Ok(()));
    assert!(matches!(step.action, MacAction::VerifyQueue { delay_ms: 0, restart_clock: true, .. }));
    let step = after_verify(step.state, VerifyStatus::NotFound("no".to_string()), false);
    match &step.action {
        MacAction::VerifyQueue { delay_ms, restart_clock, .. } => {
            assert_eq!(*delay_ms, FINAL_VERIFY_RETRY_MS);
            assert!(!restart_clock);
        }
        _ => panic!(),
    }
    let step = after_verify(step.state, VerifyStatus::Exists(None), false);
    assert!(step.state.stage == MacStage::Finished);
    match step.action {
        MacAction::Finish(r) => {
            assert!(r.success);
            assert_eq!(r.message, "安装完成");
            assert_eq!(r.method, Some("driverless".to_string()));
        }
        _ => panic!(),
    }
    assert_eq!(step.events.last().map(|e| e.step_id.clone()), Some("job.done".to_string()));
}

#[test]
fn macos_install_failures() {
    let registry = InstallModeRegistry::new();
    let step = start_mac_install(&registry, "Office", "ipp://", Some("AUTO".to_string()), false, "j2", 1000);
    assert!(step.state.stage == MacStage::Finished);
    assert_eq!(step.state.requested_mode, "auto");
    match &step.action {
        MacAction::Finish(r) => {
            assert!(!r.success);
            assert_eq!(r.message, "设备探测失败");
        }
        _ => panic!(),
    }
    let step = start_mac_install(&registry, "Office", "10.0.0.9", None, false, "j3", 1000);
    let step = after_listing(&registry, step.state, Err("lpstat".to_string()));
    let step = after_probe(step.state, Err("refused".to_string()));
    match &step.action {
        MacAction::Finish(r) => assert_eq!(r.message, "设备探测失败"),
        _ => panic!(),
    }
    assert_eq!(step.events.len(), 3);
    let step = start_mac_install(&registry, "Office", "10.0.0.9", None, false, "j4", 1000);
    let step = after_probe(after_listing(&registry, step.state, Ok(vec![])).state, Ok(()));
    let step = after_ensure(step.state, Err(StepError { code: "E_LPADMIN_FAILED".to_string(), detail: "d".to_string() }));
    assert!(matches!(step.action, MacAction::Finish(ref r) if !r.success));
    let step = start_mac_install(&registry, "Office", "10.0.0.9", None, false, "j5", 1000);
    let step = after_ensure(after_probe(after_listing(&registry, step.state, Ok(vec![])).state, Ok(())).state, Ok(()));
    let step = after_verify(step.state, VerifyStatus::NotFound("no".to_string()), true);
    match &step.action {
        MacAction::Finish(r) => assert_eq!(r.message, "队列校验失败"),
        _ => panic!(),
    }
}

#[test]
fn macos_dry_run_finishes_at_once() {
    let registry = InstallModeRegistry::new();
    let step = start_mac_install(&registry, "Office", "ipp://10.0.0.5/ipp/print", None, true, "j6", 1000);
    let step = after_listing(&registry, step.state, Ok(vec![]));
    match &step.action {
        MacAction::Finish(r) => {
            assert!(r.success);
            assert!(r.effective_dry_run);
        }
        _ => panic!(),
    }
}

fn zip_shown() -> eprinty::win_extract_zip::ZipShown {
    eprinty::win_extract_zip::ZipShown {
        zip_path: "C:\\d\\p.zip".to_string(),
        dest_dir: "C:\\app\\drivers\\.cache\\hp".to_string(),
        drivers_root: "C:\\app\\drivers".to_string(),
        cache_root: "C:\\app\\drivers\\.cache".to_string(),
        staging_root: "C:\\app\\drivers\\.cache\\_extract_staging".to_string(),
        staging_dir: "C:\\app\\drivers\\.cache\\_extract_staging\\r9".to_string(),
    }
}

fn parts_of(list: &[&str]) -> Vec<String> {
    list.iter().map(|s| s.to_string()).collect()
}

#[test]
fn older_unpacker_runs_its_steps() {
    let root = parts_of(&["c:", "app", "drivers"]);
    let cache = parts_of(&["c:", "app", "drivers", ".cache"]);
    let dest = parts_of(&["c:", "app", "drivers", ".cache", "hp"]);
    let raw = parts_of(&["C:", "app", "drivers"]);
    let step = start_extract_zip(&dest, &root, &cache, &raw, "r9", zip_shown());
    assert_eq!(step.state.staging_dir, vec!["C:", "app", "drivers", ".cache", "_extract_staging", "r9"]);
    assert!(matches!(step.action, ZipAction::PrepareStaging));
    let step = after_archive_check(after_prepare_staging(step.state, Ok(())).state, true);
    match &step.action {
        ZipAction::Expand(script) => assert!(script.contains("Expand-Archive -LiteralPath 'C:\\d\\p.zip'")),
        _ => panic!(),
    }
    let step = after_archive_expand(step.state, Ok(run(0, "", "")));
    assert!(matches!(step.action, ZipAction::CheckEntries));
    let step = after_entry_check(step.state, Ok((3, 1)));
    assert!(matches!(step.action, ZipAction::CreateDest));
    let step = after_tree_copy(after_create_dest(step.state, Ok(())).state, Ok(3));
    assert!(matches!(step.action, ZipAction::CleanUpAndList));
    let step = after_dest_listing(step.state, Ok(vec!["a.inf".to_string(), "b".to_string()]));
    assert!(step.state.stage == ZipStage::Finished);
    match step.action {
        ZipAction::Finish(Ok(r)) => {
            assert_eq!(r.extracted_files, 3);
            assert_eq!(r.extracted_dirs, 1);
            assert_eq!(r.top_level_items, vec!["a.inf".to_string(), "b".to_string()]);
            assert_eq!(
                r.evidence,
                "step=summary files=3 dirs=1 copied_files=3 top_level=[2 items: a.inf, b] dest_dir=\"C:\\app\\drivers\\.cache\\hp\" staging_dir=\"C:\\app\\drivers\\.cache\\_extract_staging\\r9\""
            );
        }
        _ => panic!(),
    }
}

#[test]
fn older_unpacker_failures() {
    let root = parts_of(&["c:", "app", "drivers"]);
    let cache = parts_of(&["c:", "app", "drivers", ".cache"]);
    let step = start_extract_zip(&parts_of(&["c:", "other"]), &root, &cache, &root, "r9", zip_shown());
    match step.action {
        ZipAction::Finish(Err(ExtractError::UnsafeDestination { reason, .. })) => assert_eq!(reason, "目标目录不在驱动根目录下"),
        _ => panic!(),
    }
    let step = start_extract_zip(&cache, &root, &cache, &root, "r9", zip_shown());
    match step.action {
        ZipAction::Finish(Err(ExtractError::UnsafeDestination { reason, .. })) => {
            assert_eq!(reason, "目标目录不能等于缓存根目录（必须更深一层）")
        }
        _ => panic!(),
    }
    let dest = parts_of(&["c:", "app", "drivers", ".cache", "hp"]);
    let step = start_extract_zip(&dest, &root, &cache, &root, "r9", zip_shown());
    let step = after_prepare_staging(step.state, Err((StagingOp::CreateStagingRoot, "denied".to_string())));
    match step.action {
        ZipAction::Finish(Err(ExtractError::IoError { step, error, .. })) => {
            assert_eq!(step, "prepare_staging");
            assert_eq!(error, "无法创建 staging 根目录 C:\\app\\drivers\\.cache\\_extract_staging: denied");
        }
        _ => panic!(),
    }
    let step = start_extract_zip(&dest, &root, &cache, &root, "r9", zip_shown());
    let step = after_archive_check(after_prepare_staging(step.state, Ok(())).state, true);
    let step = after_archive_expand(step.state, Ok(run(1, "", "bad")));
    match step.action {
        ZipAction::Finish(Err(ExtractError::ExtractFailed { stderr, exit_code, dest_dir, .. })) => {
            assert_eq!(stderr, "bad");
            assert_eq!(exit_code, Some(1));
            assert_eq!(dest_dir, "C:\\app\\drivers\\.cache\\_extract_staging\\r9");
        }
        _ => panic!(),
    }
    let step = start_extract_zip(&dest, &root, &cache, &root, "r9", zip_shown());
    let step = after_archive_check(after_prepare_staging(step.state, Ok(())).state, false);
    assert!(matches!(step.action, ZipAction::Finish(Err(ExtractError::ZipNotFound { .. }))));
}
