use eprinty::commands::{check_reinstall_request, check_test_page_request, open_url_answer};
use eprinty::events::{
    final_verify_event, prepare_install_progress, validate_state, validate_step_id,
    InstallModeRegistry, InstallProgressEvent, MetaValue, StepReporter,
};
use eprinty::ipp::{build_ipp_request, parse_ipp_response, parse_value, read_u16, read_u32, write_u16, write_u32, IppValue};

fn event(job: &str, step: &str, state: &str, mode: Option<&str>, ts: i64) -> InstallProgressEvent {
    InstallProgressEvent {
        job_id: job.to_string(),
        printer_name: "Office".to_string(),
        step_id: step.to_string(),
        state: state.to_string(),
        message: "m".to_string(),
        ts_ms: ts,
        progress: None,
        error: None,
        meta: None,
        legacy_phase: None,
        install_mode: mode.map(|m| m.to_string()),
    }
}

#[test]
fn step_ids_and_states_are_checked() {
    assert_eq!(validate_step_id("driver.download"), Ok(()));
    assert_eq!(validate_step_id("driver.unknown"), Err("invalid step_id \"driver.unknown\"".to_string()));
    assert_eq!(validate_state("skipped"), Ok(()));
    assert_eq!(validate_state("done"), Err("invalid state \"done\"".to_string()));
}

#[test]
fn job_init_mode_carries_to_later_events() {
    let mut reg = InstallModeRegistry::new();
    let e = prepare_install_progress(&mut reg, event("job-1", "job.init", "running", Some("package"), 0), 42).ok().unwrap();
    assert_eq!(e.ts_ms, 42);
    assert_eq!(e.install_mode.as_deref(), Some("package"));
    let e = prepare_install_progress(&mut reg, event("job-1", "driver.download", "running", None, 7), 43).ok().unwrap();
    assert_eq!(e.ts_ms, 7);
    assert_eq!(e.install_mode.as_deref(), Some("package"));
    let e = prepare_install_progress(&mut reg, event("job-1", "driver.download", "running", Some("  "), 7), 43).ok().unwrap();
    assert_eq!(e.install_mode.as_deref(), Some("package"));
    let e = prepare_install_progress(&mut reg, event("job-2", "driver.download", "running", None, 7), 43).ok().unwrap();
    assert_eq!(e.install_mode.as_deref(), Some("auto"));
    assert_eq!(reg.resolve_install_mode("job-1", None), "package");
    assert_eq!(reg.resolve_install_mode("job-1", Some("legacy_inf".to_string())), "legacy_inf");
}

#[test]
fn refused_events_leave_the_registry_alone() {
    let mut reg = InstallModeRegistry::new();
    assert_eq!(
        prepare_install_progress(&mut reg, event("job-1", "job.start", "running", Some("package"), 0), 1).err(),
        Some("invalid step_id \"job.start\"".to_string())
    );
    assert_eq!(
        prepare_install_progress(&mut reg, event("job-1", "job.init", "started", Some("package"), 0), 1).err(),
        Some("invalid state \"started\"".to_string())
    );
    assert_eq!(reg.resolve_install_mode("job-1", None), "auto");
}

#[test]
fn registry_overwrites_and_ignores_blanks() {
    let mut reg = InstallModeRegistry::new();
    reg.register("job", "a");
    reg.register("job", "b");
    reg.register(" ", "c");
    reg.register("other", " ");
    assert_eq!(reg.resolve_install_mode("job", None), "b");
    assert_eq!(reg.resolve_install_mode(" ", None), "auto");
    assert_eq!(reg.resolve_install_mode("other", None), "auto");
}

#[test]
fn reporter_events() {
    let mut reg = InstallModeRegistry::new();
    reg.register("job-9", "package");
    let meta = vec![("platform".to_string(), MetaValue::Text("macos".to_string()))];
    let r = StepReporter::new(&reg, "job-9".to_string(), "Office".to_string(), None, Some(meta));
    assert_eq!(r.install_mode, "package");
    let e = r.emit_job_init("开始安装", 100);
    assert_eq!((e.step_id.as_str(), e.state.as_str(), e.message.as_str(), e.ts_ms), ("job.init", "running", "开始安装", 100));
    assert_eq!(e.install_mode.as_deref(), Some("package"));
    assert!(e.meta.is_some());
    let e = r.emit_step_success("device.probe", None, 101);
    assert_eq!(e.state, "success");
    let e = r.emit_step_skipped("driver.download", Some("已缓存"), 102);
    assert_eq!((e.state.as_str(), e.message.as_str()), ("skipped", "已缓存"));
    let e = r.emit_step_fail("device.ensureQueue", "QUEUE_FAIL", "失败", None, 103);
    let err = e.error.unwrap();
    assert_eq!((err.code.as_str(), err.detail.as_str()), ("QUEUE_FAIL", "失败"));
    let e = r.emit_job_done(false, None, 104);
    assert_eq!((e.state.as_str(), e.message.as_str()), ("failed", "安装失败"));
    let e = r.emit_job_done(true, None, 105);
    assert_eq!(e.message, "安装完成");
    let e = r.emit_job_failed("X", "坏了", Some("细节"), 106);
    assert_eq!(e.error.unwrap().detail, "细节");
    let mut r2 = StepReporter::new(&reg, "job-10".to_string(), "Lab".to_string(), Some("legacy_inf".to_string()), None);
    assert_eq!(r2.install_mode, "legacy_inf");
    r2.set_default_meta(Some(vec![("k".to_string(), MetaValue::Flag(true))]));
    assert!(r2.emit_step_running("device.probe", "探测", None, 1).meta.is_some());
}

#[test]
fn final_verify_events() {
    let e = final_verify_event("j", "P", true, None, 5);
    assert_eq!((e.step_id.as_str(), e.state.as_str(), e.message.as_str()), ("device.finalVerify", "success", "安装完成"));
    let p = e.progress.unwrap();
    assert_eq!((p.current, p.total, p.percent), (Some(100), Some(100), Some(100)));
    assert_eq!(e.legacy_phase.as_deref(), Some("finalVerify"));
    let e = final_verify_event("j", "P", false, Some("x".to_string()), 5);
    assert_eq!((e.state.as_str(), e.message.as_str()), ("failed", "x"));
    assert!(e.progress.is_none());
}

#[test]
fn command_requests_are_checked() {
    assert_eq!(
        check_test_page_request("  "),
        Err("[PrintTestPage] ERROR step=VALIDATE message=打印机名称不能为空".to_string())
    );
    assert_eq!(check_test_page_request("Office"), Ok(()));
    assert_eq!(check_reinstall_request("", "x"), Err("配置打印机标识不能为空".to_string()));
    assert_eq!(open_url_answer(Ok(())), Ok("已打开".to_string()));
    assert_eq!(open_url_answer(Err("no browser".to_string())), Err("no browser".to_string()));
}

#[test]
fn ipp_numbers_round_trip() {
    let mut buf = Vec::new();
    write_u16(&mut buf, 0xBEEF);
    write_u32(&mut buf, 0x0102_0304);
    assert_eq!(buf, vec![0xBE, 0xEF, 1, 2, 3, 4]);
    let mut idx = 0usize;
    assert_eq!(read_u16(&buf, &mut idx), Ok(0xBEEF));
    assert_eq!(read_u32(&buf, &mut idx), Ok(0x0102_0304));
    assert_eq!(idx, 6);
    assert_eq!(read_u16(&buf, &mut idx), Err("unexpected end of data".to_string()));
}

#[test]
fn ipp_request_layout() {
    let req = build_ipp_request();
    assert_eq!(&req[..8], &[0x01, 0x01, 0x40, 0x02, 0, 0, 0, 1]);
    assert_eq!(req[8], 0x01);
    assert_eq!(*req.last().unwrap(), 0x03);
    let attr = [&[0x47u8, 0x00, 0x12][..], b"attributes-charset", &[0x00, 0x05], b"utf-8"].concat();
    assert_eq!(&req[9..9 + attr.len()], &attr[..]);
}

fn attr(tag: u8, name: &str, value: &[u8]) -> Vec<u8> {
    let mut v = vec![tag];
    v.extend_from_slice(&(name.len() as u16).to_be_bytes());
    v.extend_from_slice(name.as_bytes());
    v.extend_from_slice(&(value.len() as u16).to_be_bytes());
    v.extend_from_slice(value);
    v
}

#[test]
fn ipp_response_printers() {
    let mut bytes = vec![0x02, 0x00, 0x00, 0x00, 0, 0, 0, 1, 0x01];
    bytes.extend(attr(0x47, "attributes-charset", b"utf-8"));
    bytes.push(0x04);
    bytes.extend(attr(0x42, "printer-name", b"Office"));
    bytes.extend(attr(0x41, "printer-info", b"2F Office"));
    bytes.extend(attr(0x45, "device-uri", b"ipp://10.0.0.5/ipp/print"));
    bytes.extend(attr(0x22, "printer-is-accepting-jobs", &[1]));
    bytes.extend(attr(0x23, "printer-state", &[0, 0, 0, 3]));
    bytes.push(0x04);
    bytes.extend(attr(0x42, "printer-name", b"Lab"));
    bytes.push(0x04);
    bytes.extend(attr(0x42, "printer-info", b"no name"));
    bytes.push(0x03);
    let ps = parse_ipp_response(&bytes).unwrap();
    assert_eq!(ps.len(), 2);
    assert_eq!(ps[0].system_queue_name, "Office");
    assert_eq!(ps[0].display_name.as_deref(), Some("2F Office"));
    assert_eq!(ps[0].device_uri.as_deref(), Some("ipp://10.0.0.5/ipp/print"));
    assert_eq!(ps[0].is_accepting_jobs, Some(true));
    assert_eq!(ps[0].state, Some(3));
    assert_eq!(ps[1].system_queue_name, "Lab");
    assert_eq!(parse_ipp_response(&[0, 1, 2]).err(), Some("IPP response too short".to_string()));
    let mut bad = vec![0x02, 0x00, 0x00, 0x00, 0, 0, 0, 1, 0x04, 0x42, 0x00, 0x40];
    bad.extend_from_slice(b"x");
    assert_eq!(parse_ipp_response(&bad).err(), Some("invalid name length".to_string()));
}

#[test]
fn ipp_values() {
    assert!(matches!(parse_value(0x21, &[0, 0, 0, 7]), Some(IppValue::Integer(7))));
    assert!(matches!(parse_value(0x22, &[0]), Some(IppValue::Boolean(false))));
    match parse_value(0x42, b"abc") {
        Some(IppValue::Text(t)) => assert_eq!(t, "abc"),
        _ => panic!(),
    }
    assert!(parse_value(0x21, &[0, 0, 7]).is_none());
}

#[test]
fn job_init_mode_survives_other_events() {
    let mut reg = InstallModeRegistry::new();
    assert!(prepare_install_progress(&mut reg, event("job-7", "job.init", "running", Some("legacy_inf"), 5), 1).is_ok());
    assert!(prepare_install_progress(&mut reg, event("job-8", "job.init", "running", Some("package"), 5), 1).is_ok());
    assert!(prepare_install_progress(&mut reg, event("job-7", "no.such.step", "running", Some("package"), 5), 1).is_err());
    assert!(prepare_install_progress(&mut reg, event("job-7", "driver.download", "running", Some("package"), 5), 1).is_ok());
    let e = prepare_install_progress(&mut reg, event("job-7", "job.done", "success", None, 0), 99).ok().unwrap();
    assert_eq!(e.install_mode.as_deref(), Some("legacy_inf"));
    assert_eq!(e.ts_ms, 99);
}
